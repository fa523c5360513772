//! The records that a run reports, and how they are written out.

use crate::device::{
    HidDevice, HidDeviceView, ReplyView, ERROR_INSUFFICIENT_BUFFER, SPDRP_FRIENDLYNAME,
    first_reply,
};
use crate::error::HidError;
use crate::pattern::{accepted, parse_id, DeviceIds, DeviceIdsView, IdPattern, ID_PATTERN};
use vstd::prelude::*;

verus! {

/// What is reported of one device.
#[derive(Debug, Clone, PartialEq, Eq)]
pub struct USBInfo {
    /// The device interface path; empty where the platform gave none.
    pub path: String,
    pub product_id: u16,
    pub vendor_id: u16,
    /// The friendly name of the device.
    pub product_string: Option<String>,
    pub serial_number_string: Option<String>,
    /// The instance handle of the device.
    pub dev_inst: Option<u32>,
    /// The name of the physical device object. It is not read from the
    /// platform: the field is always the empty string.
    pub pdo_name: Option<String>,
}

/// A [`USBInfo`] as a mathematical value.
pub struct UsbInfoView {
    pub path: Seq<char>,
    pub product_id: u16,
    pub vendor_id: u16,
    pub product_string: Option<Seq<char>>,
    pub serial_number_string: Option<Seq<char>>,
    pub dev_inst: Option<u32>,
    pub pdo_name: Option<Seq<char>>,
}

impl View for USBInfo {
    type V = UsbInfoView;

    open spec fn view(&self) -> UsbInfoView {
        UsbInfoView {
            path: self.path@,
            product_id: self.product_id,
            vendor_id: self.vendor_id,
            product_string: self.product_string.deep_view(),
            serial_number_string: self.serial_number_string.deep_view(),
            dev_inst: self.dev_inst,
            pdo_name: self.pdo_name.deep_view(),
        }
    }
}

impl DeepView for USBInfo {
    type V = UsbInfoView;

    open spec fn deep_view(&self) -> UsbInfoView {
        self@
    }
}

/// The record of a device whose identifier reads as `ids`: the ids and the
/// serial number from the identifier; path and instance handle from the
/// blocks that the enumeration obtained; the friendly name from the
/// registry, absent where it could not be read.
pub open spec fn record_with(device: HidDeviceView, ids: DeviceIdsView) -> UsbInfoView {
    UsbInfoView {
        path: match device.path() {
            Some(path) => path,
            None => Seq::empty(),
        },
        product_id: ids.product_id,
        vendor_id: ids.vendor_id,
        product_string: device.property(SPDRP_FRIENDLYNAME),
        serial_number_string: ids.serial,
        dev_inst: Some(device.dev_inst),
        pdo_name: Some(Seq::empty()),
    }
}

/// The record of a device, if its identifier matches the pattern. A device
/// whose identifier does not is passed over.
pub open spec fn record_of(device: HidDeviceView) -> Option<UsbInfoView> {
    match parse_id(device.hardware_id()) {
        Some(ids) => Some(record_with(device, ids)),
        None => None,
    }
}

/// The records of `devices`: one for each device whose identifier matches
/// the pattern, in the order of the devices.
pub open spec fn records_of(devices: Seq<HidDeviceView>) -> Seq<UsbInfoView>
    decreases devices.len(),
{
    if devices.len() == 0 {
        Seq::empty()
    } else {
        let before = records_of(devices.drop_last());
        match record_of(devices.last()) {
            Some(record) => before.push(record),
            None => before,
        }
    }
}

/// The records of two runs of devices, one after the other, are the records
/// of the first followed by those of the second: records stand in the order
/// of their devices, and no device bears on the record of another.
pub proof fn records_keep_order(first: Seq<HidDeviceView>, second: Seq<HidDeviceView>)
    ensures
        records_of(first + second) == records_of(first) + records_of(second),
        records_of(first).len() <= first.len(),
    decreases second.len(),
{
    records_are_no_more_than_devices(first);
    if second.len() == 0 {
        assert(first + second =~= first);
        assert(records_of(first) + records_of(second) =~= records_of(first));
    } else {
        records_keep_order(first, second.drop_last());
        assert((first + second).drop_last() =~= first + second.drop_last());
        assert((first + second).last() == second.last());
        match record_of(second.last()) {
            Some(record) => {
                assert(records_of(first + second) =~= records_of(first) + records_of(second));
            },
            None => {},
        }
    }
}

/// There are no more records than devices; no devices, no records.
pub proof fn records_are_no_more_than_devices(devices: Seq<HidDeviceView>)
    ensures
        records_of(devices).len() <= devices.len(),
        devices.len() == 0 ==> records_of(devices) == Seq::<UsbInfoView>::empty(),
    decreases devices.len(),
{
    if devices.len() > 0 {
        records_are_no_more_than_devices(devices.drop_last());
    }
}

/// A property whose lookup failed for any reason but a buffer too small is
/// absent, whatever the buffer of the failed call holds; and so is the
/// friendly name in the record of such a device.
pub proof fn failed_lookup_leaves_field_absent(device: HidDeviceView, code: u32, reply: ReplyView)
    requires
        first_reply(device.properties, code) == Some(reply),
        !reply.ok,
        reply.error != ERROR_INSUFFICIENT_BUFFER,
    ensures
        device.property(code) is None,
        code == SPDRP_FRIENDLYNAME ==> (record_of(device) matches Some(record)
            ==> record.product_string is None),
{
}

/// Makes the record of a device out of what its identifier says.
pub fn record_for(device: &HidDevice, ids: DeviceIds) -> (r: USBInfo)
    ensures
        r@ == record_with(device@, ids@),
{
    let path = match device.path() {
        Some(path) => path,
        None => String::new(),
    };
    USBInfo {
        path,
        product_id: ids.product_id,
        vendor_id: ids.vendor_id,
        product_string: device.property(SPDRP_FRIENDLYNAME),
        serial_number_string: ids.serial,
        dev_inst: Some(device.dev_inst),
        pdo_name: Some(String::new()),
    }
}

/// Collects the records of the enumerated devices, in the order of the
/// enumeration. A device whose identifier does not match the pattern is
/// passed over in silence.
pub fn collect(pattern: &IdPattern, devices: &Vec<HidDevice>) -> (r: Vec<USBInfo>)
    ensures
        r.deep_view() == records_of(devices.deep_view()),
{
    let mut usbs: Vec<USBInfo> = Vec::new();
    let n: usize = devices.len();
    let mut i: usize = 0;
    proof {
        assert(devices.deep_view().take(0) =~= Seq::empty());
        assert(usbs.deep_view() =~= Seq::empty());
    }
    while i < n
        invariant
            n == devices@.len(),
            0 <= i <= n,
            usbs.deep_view() == records_of(devices.deep_view().take(i as int)),
        decreases n - i,
    {
        let device = &devices[i];
        let id = device.hardware_id();
        let ghost before = usbs.deep_view();
        proof {
            assert(devices.deep_view().take(i + 1).drop_last() =~= devices.deep_view().take(
                i as int,
            ));
            assert(devices.deep_view().take(i + 1).last() == device@);
        }
        match pattern.parse(id.as_str()) {
            Some(ids) => {
                let record = record_for(device, ids);
                usbs.push(record);
                proof {
                    assert(usbs.deep_view() =~= before.push(record@));
                }
            },
            None => {},
        }
        i = i + 1;
    }
    proof {
        assert(devices.deep_view().take(n as int) =~= devices.deep_view());
    }
    usbs
}

/// Describes the enumerated devices: compiles the pattern of hardware
/// identifiers and collects the records. It succeeds exactly where the
/// expression engine accepts the pattern, whatever the devices are; the only
/// failure is the engine refusing the pattern.
pub fn get_usb_info(devices: &Vec<HidDevice>) -> (r: Result<Vec<USBInfo>, HidError>)
    ensures
        r is Ok <==> accepted(ID_PATTERN@),
        match r {
            Ok(usbs) => usbs.deep_view() == records_of(devices.deep_view()),
            Err(e) => e == HidError::Pattern,
        },
{
    match IdPattern::new() {
        Ok(pattern) => Ok(collect(&pattern, devices)),
        Err(e) => Err(e),
    }
}

} // verus!
