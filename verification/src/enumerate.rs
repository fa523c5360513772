//! The walk through a device-information set.
//!
//! [`HidDevices`] makes no platform call. It names the call that is due next
//! ([`HidDevices::request`]), takes what the platform answered
//! ([`HidDevices::next`]), and hands out each device once all that is asked
//! about it has been answered. The walk ends when the platform finds no
//! device at the current index. Whether it ends so or is given up early
//! ([`HidDevices::abandon`]), the release of the set is asked for once.

use crate::device::{
    HidDevice, HidDeviceView, PropertyReply, PropertyReplyView, Reply, ReplyView,
    SPDRP_FRIENDLYNAME, SPDRP_HARDWAREID,
};
use crate::error::HidError;
use vstd::prelude::*;

verus! {

/// The handle that the platform returns where it could open no set.
pub const INVALID_HANDLE_VALUE: isize = -1;

/// The platform call that the walk waits for.
#[derive(Debug, Clone, Copy, PartialEq, Eq, Structural)]
pub enum Phase {
    /// The lookup of the device-info block at the current index.
    DeviceInfo,
    /// The lookup of the device-interface block at the current index.
    Interface,
    /// The probe for the size of the interface detail.
    PathSize,
    /// The call that fills an interface detail of `size` bytes.
    PathFill { size: u32 },
    /// The query for the device instance identifier.
    InstanceId,
    /// The query for the hardware-id property.
    HardwareId,
    /// The query for the friendly-name property.
    FriendlyName,
    /// The release of the set.
    Release,
    /// None: the set has been released.
    Done,
}

/// A platform call for the caller to make. `index` is the index in the set
/// of the device that the call is about.
#[derive(Debug, Clone, Copy, PartialEq, Eq, Structural)]
pub enum Request {
    /// Look up the device-info block of the device at `index`. The reply's
    /// `value` is the instance handle of the device.
    DeviceInfo { index: u32 },
    /// Look up the HID interface block of the device.
    DeviceInterface { index: u32 },
    /// Ask, with no buffer, how many bytes the interface detail takes. The
    /// reply's `value` is that size.
    PathSize { index: u32 },
    /// Fill an interface detail of exactly `size` bytes. The reply's buffer
    /// holds the bytes of the device path, terminator included.
    PathFill { index: u32, size: u32 },
    /// Query the device instance identifier. The reply's buffer is the
    /// buffer that the platform was given: `MAX_PATH` bytes, all but the
    /// last for the platform to fill.
    InstanceId { index: u32 },
    /// Query the registry property `code`, with a buffer as for the instance
    /// identifier.
    Property { index: u32, code: u32 },
    /// Release the set.
    Release,
    /// Nothing is left to do.
    Nothing,
}

/// A device of which nothing is known yet.
pub open spec fn blank_device() -> HidDeviceView {
    HidDeviceView {
        dev_inst: 0,
        path_reply: None,
        instance_reply: None,
        properties: Seq::empty(),
    }
}

/// The state of a walk as a mathematical value: the handle of the set, the
/// index of the device that is being asked about, the call that is waited
/// for, and what is known of that device so far.
pub struct HidDevicesView {
    pub handle: isize,
    pub dev_idx: u32,
    pub phase: Phase,
    pub device: HidDeviceView,
}

impl HidDevicesView {
    /// The walk as it starts on a set: at index 0, before the first lookup.
    pub open spec fn opened(handle: isize) -> HidDevicesView {
        HidDevicesView { handle, dev_idx: 0, phase: Phase::DeviceInfo, device: blank_device() }
    }

    /// The call that is due.
    pub open spec fn request(self) -> Request {
        match self.phase {
            Phase::DeviceInfo => Request::DeviceInfo { index: self.dev_idx },
            Phase::Interface => Request::DeviceInterface { index: self.dev_idx },
            Phase::PathSize => Request::PathSize { index: self.dev_idx },
            Phase::PathFill { size } => Request::PathFill { index: self.dev_idx, size },
            Phase::InstanceId => Request::InstanceId { index: self.dev_idx },
            Phase::HardwareId => Request::Property { index: self.dev_idx, code: SPDRP_HARDWAREID },
            Phase::FriendlyName => Request::Property {
                index: self.dev_idx,
                code: SPDRP_FRIENDLYNAME,
            },
            Phase::Release => Request::Release,
            Phase::Done => Request::Nothing,
        }
    }

    /// The walk once it is through with the device at the current index: at
    /// the next index, or, where there is no next index, at the release.
    pub open spec fn moved_on(self) -> HidDevicesView {
        if self.dev_idx < u32::MAX {
            HidDevicesView {
                handle: self.handle,
                dev_idx: (self.dev_idx + 1) as u32,
                phase: Phase::DeviceInfo,
                device: blank_device(),
            }
        } else {
            HidDevicesView {
                handle: self.handle,
                dev_idx: self.dev_idx,
                phase: Phase::Release,
                device: blank_device(),
            }
        }
    }

    /// The walk with another call waited for and `device` known of the
    /// current device.
    pub open spec fn waiting(self, phase: Phase, device: HidDeviceView) -> HidDevicesView {
        HidDevicesView { handle: self.handle, dev_idx: self.dev_idx, phase, device }
    }

    /// The device under way with one more property answer.
    pub open spec fn with_property(self, code: u32, reply: ReplyView) -> HidDeviceView {
        HidDeviceView {
            dev_inst: self.device.dev_inst,
            path_reply: self.device.path_reply,
            instance_reply: self.device.instance_reply,
            properties: self.device.properties.push(PropertyReplyView { code, reply }),
        }
    }

    /// The walk after the platform answered `reply` to the call that was
    /// due.
    ///
    /// - A failed device-info lookup ends the walk: the release is due.
    /// - A device without an interface is passed over: the walk moves on to
    ///   the next index.
    /// - A size probe that did not deliver ends the work on its device: no
    ///   detail is filled, and the walk moves on. A probe delivers where it
    ///   succeeds and where it fails for want of a buffer, which is how the
    ///   platform answers a probe that was given none.
    /// - Whatever the call that fills the detail answers, the device is
    ///   asked about further; its path is read only if that call succeeded.
    /// - The hardware-id property is asked for only where the instance
    ///   identifier is not to be had.
    /// - The answer to the friendly-name query completes the device.
    /// - Once the set is released no answer changes anything.
    pub open spec fn after_reply(self, reply: ReplyView) -> HidDevicesView {
        match self.phase {
            Phase::DeviceInfo => if reply.ok {
                self.waiting(
                    Phase::Interface,
                    HidDeviceView {
                        dev_inst: reply.value,
                        path_reply: None,
                        instance_reply: None,
                        properties: Seq::empty(),
                    },
                )
            } else {
                self.waiting(Phase::Release, blank_device())
            },
            Phase::Interface => if reply.ok {
                self.waiting(Phase::PathSize, self.device)
            } else {
                self.moved_on()
            },
            Phase::PathSize => if reply.delivered() {
                self.waiting(Phase::PathFill { size: reply.value }, self.device)
            } else {
                self.moved_on()
            },
            Phase::PathFill { size } => self.waiting(
                Phase::InstanceId,
                HidDeviceView {
                    dev_inst: self.device.dev_inst,
                    path_reply: Some(reply),
                    instance_reply: self.device.instance_reply,
                    properties: self.device.properties,
                },
            ),
            Phase::InstanceId => self.waiting(
                if reply.ok {
                    Phase::FriendlyName
                } else {
                    Phase::HardwareId
                },
                HidDeviceView {
                    dev_inst: self.device.dev_inst,
                    path_reply: self.device.path_reply,
                    instance_reply: Some(reply),
                    properties: self.device.properties,
                },
            ),
            Phase::HardwareId => self.waiting(
                Phase::FriendlyName,
                self.with_property(SPDRP_HARDWAREID, reply),
            ),
            Phase::FriendlyName => self.moved_on(),
            Phase::Release => self.waiting(Phase::Done, blank_device()),
            Phase::Done => self,
        }
    }

    /// Whether the answer `reply` closes the work on the device at the
    /// current index: it completes the device, or it tells that the device
    /// has no interface or that the size of its detail is not to be had.
    pub open spec fn closes_device(self, reply: ReplyView) -> bool {
        match self.phase {
            Phase::Interface => !reply.ok,
            Phase::PathSize => !reply.delivered(),
            Phase::FriendlyName => true,
            _ => false,
        }
    }

    /// The device that the answer `reply` completes, if it completes one.
    pub open spec fn yielded(self, reply: ReplyView) -> Option<HidDeviceView> {
        match self.phase {
            Phase::FriendlyName => Some(self.with_property(SPDRP_FRIENDLYNAME, reply)),
            _ => None,
        }
    }

    /// The walk after it was given up: the release is due, unless it is due
    /// or done already.
    pub open spec fn abandoned(self) -> HidDevicesView {
        match self.phase {
            Phase::Release => self,
            Phase::Done => self,
            _ => self.waiting(Phase::Release, blank_device()),
        }
    }
}

/// What can happen to a walk: the platform answers the call that was due, or
/// the caller gives the walk up.
pub enum Step {
    Reply(ReplyView),
    Abandon,
}

impl HidDevicesView {
    /// The walk after one step.
    pub open spec fn after(self, step: Step) -> HidDevicesView {
        match step {
            Step::Reply(reply) => self.after_reply(reply),
            Step::Abandon => self.abandoned(),
        }
    }

    /// The walk after `steps`, taken in order.
    pub open spec fn run(self, steps: Seq<Step>) -> HidDevicesView
        decreases steps.len(),
    {
        if steps.len() == 0 {
            self
        } else {
            self.run(steps.drop_last()).after(steps.last())
        }
    }

    /// How often the set is released in the course of `steps`: the number of
    /// answers that come while the release is the call that is due.
    pub open spec fn releases(self, steps: Seq<Step>) -> nat
        decreases steps.len(),
    {
        if steps.len() == 0 {
            0
        } else {
            let before = self.run(steps.drop_last());
            let this: nat = if before.phase is Release && steps.last() is Reply {
                1
            } else {
                0
            };
            self.releases(steps.drop_last()) + this
        }
    }
}

/// A set is released once, and only once. Whatever the platform answers
/// and whenever the walk is given up, the release is never carried out a
/// second time; and the walk is done exactly when the release has
/// been carried out. Through all of it the walk keeps the handle of its set.
pub proof fn released_exactly_once(handle: isize, steps: Seq<Step>)
    ensures
        HidDevicesView::opened(handle).releases(steps) <= 1,
        HidDevicesView::opened(handle).run(steps).phase is Done <==> HidDevicesView::opened(
            handle,
        ).releases(steps) == 1,
        HidDevicesView::opened(handle).run(steps).handle == handle,
    decreases steps.len(),
{
    if steps.len() > 0 {
        released_exactly_once(handle, steps.drop_last());
    }
}

/// Once the set is released the walk is over: no answer and no abandoning
/// changes it, and it asks for nothing more.
pub proof fn nothing_follows_release(walk: HidDevicesView, steps: Seq<Step>)
    requires
        walk.phase is Done,
    ensures
        walk.run(steps) == walk,
        walk.run(steps).request() == Request::Nothing,
        walk.releases(steps) == 0,
    decreases steps.len(),
{
    if steps.len() > 0 {
        nothing_follows_release(walk, steps.drop_last());
    }
}

/// A walk that is given up has the release as its next call, unless the set
/// is released already; and one answer to that call ends it.
pub proof fn abandoning_leads_to_release(walk: HidDevicesView, reply: ReplyView)
    ensures
        walk.phase !is Done ==> walk.abandoned().request() == Request::Release,
        walk.phase !is Done ==> walk.abandoned().after_reply(reply).phase is Done,
        walk.phase is Done ==> walk.abandoned() == walk,
{
}

/// The index rises by one with each device that the platform found, whether
/// or not the device has an interface, and only then: the answer that closes
/// the work on a device, by completing it or by passing it over, raises the
/// index by one for the next lookup, and every other answer leaves the index
/// as it is.
pub proof fn index_rises_by_device(walk: HidDevicesView, reply: ReplyView)
    ensures
        walk.closes_device(reply) && walk.dev_idx < u32::MAX ==> walk.after_reply(reply).dev_idx
            == walk.dev_idx + 1 && walk.after_reply(reply).phase is DeviceInfo,
        !walk.closes_device(reply) ==> walk.after_reply(reply).dev_idx == walk.dev_idx,
        walk.yielded(reply) is Some ==> walk.closes_device(reply),
{
}

/// A walk through a device-information set.
pub struct HidDevices {
    /// Handle to the device-information set.
    hdi: isize,
    /// Index of the device that is being asked about.
    dev_idx: u32,
    /// The call that is waited for.
    phase: Phase,
    /// What is known so far of the device at `dev_idx`.
    device: HidDevice,
}

impl View for HidDevices {
    type V = HidDevicesView;

    closed spec fn view(&self) -> HidDevicesView {
        HidDevicesView {
            handle: self.hdi,
            dev_idx: self.dev_idx,
            phase: self.phase,
            device: self.device@,
        }
    }
}

/// A device record with nothing in it.
fn blank() -> (r: HidDevice)
    ensures
        r@ == blank_device(),
{
    let r = HidDevice {
        dev_inst: 0,
        path_reply: None,
        instance_reply: None,
        properties: Vec::new(),
    };
    assert(r@.properties =~= Seq::empty());
    r
}

impl HidDevices {
    /// Starts a walk on the set that the platform opened. A null handle and
    /// [`INVALID_HANDLE_VALUE`] are refused at once: the platform opened
    /// nothing, and nothing is to be released.
    pub fn new(handle: isize) -> (r: Result<HidDevices, HidError>)
        ensures
            match r {
                Ok(devices) => handle != 0 && handle != INVALID_HANDLE_VALUE && devices@
                    == HidDevicesView::opened(handle),
                Err(e) => (handle == 0 || handle == INVALID_HANDLE_VALUE) && e
                    == HidError::InvalidHandle,
            },
    {
        if handle == 0 || handle == INVALID_HANDLE_VALUE {
            Err(HidError::InvalidHandle)
        } else {
            Ok(HidDevices { hdi: handle, dev_idx: 0, phase: Phase::DeviceInfo, device: blank() })
        }
    }

    /// The platform call that is due.
    pub fn request(&self) -> (r: Request)
        ensures
            r == self@.request(),
    {
        match self.phase {
            Phase::DeviceInfo => Request::DeviceInfo { index: self.dev_idx },
            Phase::Interface => Request::DeviceInterface { index: self.dev_idx },
            Phase::PathSize => Request::PathSize { index: self.dev_idx },
            Phase::PathFill { size } => Request::PathFill { index: self.dev_idx, size },
            Phase::InstanceId => Request::InstanceId { index: self.dev_idx },
            Phase::HardwareId => Request::Property { index: self.dev_idx, code: SPDRP_HARDWAREID },
            Phase::FriendlyName => Request::Property {
                index: self.dev_idx,
                code: SPDRP_FRIENDLYNAME,
            },
            Phase::Release => Request::Release,
            Phase::Done => Request::Nothing,
        }
    }

    /// The handle of the set, for the calls that the platform is asked to
    /// make.
    pub fn handle(&self) -> (r: isize)
        ensures
            r == self@.handle,
    {
        self.hdi
    }

    /// The index of the device that is being asked about.
    pub fn index(&self) -> (r: u32)
        ensures
            r == self@.dev_idx,
    {
        self.dev_idx
    }

    /// Whether the set has been released, and the walk is over.
    pub fn is_done(&self) -> (r: bool)
        ensures
            r == (self@.phase is Done),
    {
        match self.phase {
            Phase::Done => true,
            _ => false,
        }
    }

    /// Moves on to the next index, or to the release where there is none.
    fn move_on(&mut self)
        ensures
            final(self)@ == old(self)@.moved_on(),
    {
        if self.dev_idx < u32::MAX {
            self.dev_idx = self.dev_idx + 1;
            self.phase = Phase::DeviceInfo;
        } else {
            self.phase = Phase::Release;
        }
        self.device = blank();
    }

    /// Takes the platform's answer to the call that was due, and hands out
    /// the device that the answer completes, if it completes one.
    pub fn next(&mut self, reply: Reply) -> (out: Option<HidDevice>)
        ensures
            final(self)@ == old(self)@.after_reply(reply@),
            out.deep_view() == old(self)@.yielded(reply@),
    {
        match self.phase {
            Phase::DeviceInfo => {
                if reply.ok {
                    self.device = blank();
                    self.device.dev_inst = reply.value;
                    self.phase = Phase::Interface;
                } else {
                    self.device = blank();
                    self.phase = Phase::Release;
                }
                None
            },
            Phase::Interface => {
                if reply.ok {
                    self.phase = Phase::PathSize;
                } else {
                    self.move_on();
                }
                None
            },
            Phase::PathSize => {
                if reply.delivered() {
                    self.phase = Phase::PathFill { size: reply.value };
                } else {
                    self.move_on();
                }
                None
            },
            Phase::PathFill { size } => {
                self.device.path_reply = Some(reply);
                self.phase = Phase::InstanceId;
                None
            },
            Phase::InstanceId => {
                if reply.ok {
                    self.phase = Phase::FriendlyName;
                } else {
                    self.phase = Phase::HardwareId;
                }
                self.device.instance_reply = Some(reply);
                None
            },
            Phase::HardwareId => {
                self.device.properties.push(PropertyReply { code: SPDRP_HARDWAREID, reply });
                self.phase = Phase::FriendlyName;
                assert(final(self)@.device.properties =~= old(self)@.with_property(
                    SPDRP_HARDWAREID,
                    reply@,
                ).properties);
                None
            },
            Phase::FriendlyName => {
                let mut device = blank();
                core::mem::swap(&mut self.device, &mut device);
                device.properties.push(PropertyReply { code: SPDRP_FRIENDLYNAME, reply });
                assert(device@.properties =~= old(self)@.with_property(
                    SPDRP_FRIENDLYNAME,
                    reply@,
                ).properties);
                self.move_on();
                Some(device)
            },
            Phase::Release => {
                self.device = blank();
                self.phase = Phase::Done;
                None
            },
            Phase::Done => None,
        }
    }

    /// Gives the walk up: the release of the set is due next, unless it is
    /// due or done already.
    pub fn abandon(&mut self)
        ensures
            final(self)@ == old(self)@.abandoned(),
    {
        match self.phase {
            Phase::Release => {},
            Phase::Done => {},
            _ => {
                self.device = blank();
                self.phase = Phase::Release;
            },
        }
    }
}

} // verus!
