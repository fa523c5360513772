use hid_devices::device::{
    HidDevice, Reply, ERROR_INSUFFICIENT_BUFFER, SPDRP_FRIENDLYNAME, SPDRP_HARDWAREID,
};
use hid_devices::enumerate::{HidDevices, Request, INVALID_HANDLE_VALUE};
use hid_devices::error::HidError;
use hid_devices::render::NumVec;
use hid_devices::report::{get_usb_info, USBInfo};

const ERROR_NO_MORE_ITEMS: u32 = 259;
const ERROR_INVALID_DATA: u32 = 13;
const HANDLE: isize = 0x5eed;

/// One device of a platform that exists only in a test.
#[derive(Clone)]
struct Fake {
    dev_inst: u32,
    interface: bool,
    detail_size: Option<u32>,
    path: Option<&'static str>,
    instance_id: Option<&'static str>,
    hardware_id: Option<&'static str>,
    friendly_name: Option<&'static str>,
}

fn mouse() -> Fake {
    Fake {
        dev_inst: 11,
        interface: true,
        detail_size: Some(90),
        path: Some("\\\\?\\hid#vid_046d&pid_c52b#7&1"),
        instance_id: Some("HID\\VID_046D&PID_C52B\\7A1"),
        hardware_id: Some("HID\\VID_046D&PID_C52B&REV_1201"),
        friendly_name: Some("HID-compliant mouse"),
    }
}

fn keyboard() -> Fake {
    Fake {
        dev_inst: 12,
        interface: true,
        detail_size: Some(64),
        path: None,
        instance_id: None,
        hardware_id: Some("HID\\VID_1234&PID_5678"),
        friendly_name: None,
    }
}

fn hub() -> Fake {
    Fake {
        dev_inst: 13,
        interface: true,
        detail_size: Some(40),
        path: None,
        instance_id: Some("USB\\ROOT_HUB30\\4&1"),
        hardware_id: None,
        friendly_name: Some("Root hub"),
    }
}

/// A stand-in for the platform that counts what is asked of it.
struct Platform {
    devices: Vec<Fake>,
    opens: u32,
    closes: u32,
    asked: Vec<Request>,
    handles: Vec<isize>,
}

fn text_reply(text: Option<&str>, capacity: usize) -> Reply {
    match text {
        Some(text) => {
            let mut buffer = text.as_bytes().to_vec();
            buffer.resize(capacity, 0);
            Reply { ok: true, error: 0, value: 0, buffer }
        }
        None => Reply { ok: false, error: ERROR_INVALID_DATA, value: 0, buffer: vec![b'?'; capacity] },
    }
}

impl Platform {
    fn with(devices: Vec<Fake>) -> Platform {
        Platform { devices, opens: 0, closes: 0, asked: Vec::new(), handles: Vec::new() }
    }

    fn open(&mut self) -> isize {
        self.opens += 1;
        HANDLE
    }

    fn answer_on(&mut self, handle: isize, request: Request) -> Reply {
        self.handles.push(handle);
        self.answer(request)
    }

    fn answer(&mut self, request: Request) -> Reply {
        self.asked.push(request);
        let none = Reply { ok: false, error: ERROR_NO_MORE_ITEMS, value: 0, buffer: Vec::new() };
        let device = |index: u32| self.devices.get(index as usize).cloned();
        match request {
            Request::DeviceInfo { index } => match device(index) {
                Some(d) => Reply { ok: true, error: 0, value: d.dev_inst, buffer: Vec::new() },
                None => none,
            },
            Request::DeviceInterface { index } => match device(index) {
                Some(d) if d.interface => Reply { ok: true, error: 0, value: 0, buffer: Vec::new() },
                _ => none,
            },
            Request::PathSize { index } => match device(index).and_then(|d| d.detail_size) {
                Some(size) => Reply {
                    ok: false,
                    error: ERROR_INSUFFICIENT_BUFFER,
                    value: size,
                    buffer: Vec::new(),
                },
                None => Reply { ok: false, error: ERROR_INVALID_DATA, value: 0, buffer: Vec::new() },
            },
            Request::PathFill { index, size } => {
                let d = device(index).expect("a fill is asked only for a device that was found");
                assert_eq!(Some(size), d.detail_size);
                text_reply(d.path, size as usize)
            }
            Request::InstanceId { index } => {
                text_reply(device(index).expect("device was found").instance_id, 260)
            }
            Request::Property { index, code } => {
                let d = device(index).expect("device was found");
                if code == SPDRP_HARDWAREID {
                    text_reply(d.hardware_id, 260)
                } else if code == SPDRP_FRIENDLYNAME {
                    text_reply(d.friendly_name, 260)
                } else {
                    panic!("property {} is never asked for", code)
                }
            }
            Request::Release => {
                self.closes += 1;
                Reply { ok: true, error: 0, value: 0, buffer: Vec::new() }
            }
            Request::Nothing => panic!("nothing is due: the platform is not to be called"),
        }
    }
}

/// Runs a walk to its end, giving it up once `limit` devices came out.
fn walk(platform: &mut Platform, limit: usize) -> Vec<HidDevice> {
    let mut devices = HidDevices::new(platform.open()).expect("the handle is valid");
    let mut out = Vec::new();
    let mut calls = 0;
    while devices.request() != Request::Nothing {
        if out.len() >= limit {
            devices.abandon();
        }
        let reply = platform.answer_on(devices.handle(), devices.request());
        if let Some(device) = devices.next(reply) {
            out.push(device);
        }
        calls += 1;
        assert!(calls < 1000, "the walk does not end");
    }
    out
}

#[test]
fn invalid_handles_are_refused() {
    assert!(matches!(HidDevices::new(INVALID_HANDLE_VALUE), Err(HidError::InvalidHandle)));
    assert!(matches!(HidDevices::new(-1), Err(HidError::InvalidHandle)));
    assert!(matches!(HidDevices::new(0), Err(HidError::InvalidHandle)));
    assert!(HidDevices::new(1).is_ok());
    assert!(HidDevices::new(-2).is_ok());
    assert!(HidDevices::new(isize::MAX).is_ok());
}

#[test]
fn walk_starts_with_the_first_lookup() {
    let devices = HidDevices::new(HANDLE).expect("the handle is valid");
    assert_eq!(devices.request(), Request::DeviceInfo { index: 0 });
    assert_eq!(devices.handle(), HANDLE);
    assert_eq!(devices.index(), 0);
    assert!(!devices.is_done());
}

#[test]
fn empty_set_is_released_once() {
    let mut platform = Platform::with(vec![]);
    let devices = walk(&mut platform, usize::MAX);
    assert!(devices.is_empty());
    assert_eq!(platform.asked, vec![Request::DeviceInfo { index: 0 }, Request::Release]);
    assert_eq!((platform.opens, platform.closes), (1, 1));
}

#[test]
fn no_devices_give_an_empty_report() {
    let mut platform = Platform::with(vec![]);
    let devices = walk(&mut platform, usize::MAX);
    let usbs = get_usb_info(&devices).expect("the pattern compiles");
    assert_eq!(usbs, Vec::<USBInfo>::new());
    assert_eq!(NumVec(usbs).to_string(), "hid devices: [\n]");
}

#[test]
fn calls_for_a_device_with_an_interface() {
    let mut platform = Platform::with(vec![mouse()]);
    let devices = walk(&mut platform, usize::MAX);
    assert_eq!(
        platform.asked,
        vec![
            Request::DeviceInfo { index: 0 },
            Request::DeviceInterface { index: 0 },
            Request::PathSize { index: 0 },
            Request::PathFill { index: 0, size: 90 },
            Request::InstanceId { index: 0 },
            Request::Property { index: 0, code: SPDRP_FRIENDLYNAME },
            Request::DeviceInfo { index: 1 },
            Request::Release,
        ]
    );
    assert_eq!(devices.len(), 1);
    assert_eq!(devices[0].dev_inst, 11);
    assert_eq!(devices[0].path(), Some("\\\\?\\hid#vid_046d&pid_c52b#7&1".to_string()));
    assert_eq!(devices[0].hardware_id(), "HID\\VID_046D&PID_C52B\\7A1");
    assert_eq!(devices[0].property(SPDRP_FRIENDLYNAME), Some("HID-compliant mouse".to_string()));
    assert_eq!(devices[0].property(SPDRP_HARDWAREID), None);
}

#[test]
fn device_without_an_interface_is_passed_over() {
    let mut lone = keyboard();
    lone.interface = false;
    let mut platform = Platform::with(vec![lone, mouse()]);
    let devices = walk(&mut platform, usize::MAX);
    assert_eq!(
        platform.asked[..3],
        [
            Request::DeviceInfo { index: 0 },
            Request::DeviceInterface { index: 0 },
            Request::DeviceInfo { index: 1 },
        ]
    );
    assert_eq!(devices.len(), 1);
    assert_eq!(devices[0].dev_inst, 11);
    assert_eq!((platform.opens, platform.closes), (1, 1));
}

#[test]
fn hardware_id_is_asked_for_when_the_instance_id_fails() {
    let mut platform = Platform::with(vec![keyboard()]);
    let devices = walk(&mut platform, usize::MAX);
    assert_eq!(
        platform.asked,
        vec![
            Request::DeviceInfo { index: 0 },
            Request::DeviceInterface { index: 0 },
            Request::PathSize { index: 0 },
            Request::PathFill { index: 0, size: 64 },
            Request::InstanceId { index: 0 },
            Request::Property { index: 0, code: SPDRP_HARDWAREID },
            Request::Property { index: 0, code: SPDRP_FRIENDLYNAME },
            Request::DeviceInfo { index: 1 },
            Request::Release,
        ]
    );
    assert_eq!(devices.len(), 1);
    assert_eq!(devices[0].dev_inst, 12);
    assert_eq!(devices[0].path(), None);
    assert_eq!(devices[0].hardware_id(), "HID\\VID_1234&PID_5678");
    assert_eq!(devices[0].property(SPDRP_FRIENDLYNAME), None);
}

#[test]
fn failed_size_probe_drops_the_device() {
    let mut broken = mouse();
    broken.detail_size = None;
    let mut platform = Platform::with(vec![broken, keyboard()]);
    let devices = walk(&mut platform, usize::MAX);
    assert_eq!(
        platform.asked[..4],
        [
            Request::DeviceInfo { index: 0 },
            Request::DeviceInterface { index: 0 },
            Request::PathSize { index: 0 },
            Request::DeviceInfo { index: 1 },
        ]
    );
    assert_eq!(devices.len(), 1);
    assert_eq!(devices[0].dev_inst, 12);
    assert_eq!(platform.closes, 1);
}

#[test]
fn failed_fill_leaves_the_path_unread() {
    let mut platform = Platform::with(vec![hub()]);
    let devices = walk(&mut platform, usize::MAX);
    assert_eq!(devices.len(), 1);
    let reply = devices[0].path_reply.clone().expect("the fill was answered");
    assert!(!reply.ok);
    assert_eq!(reply.buffer, vec![b'?'; 40]);
    assert_eq!(devices[0].path(), None);
}

#[test]
fn devices_come_out_in_the_order_of_the_set() {
    let mut platform = Platform::with(vec![mouse(), hub(), keyboard(), mouse()]);
    let devices = walk(&mut platform, usize::MAX);
    let handles: Vec<u32> = devices.iter().map(|d| d.dev_inst).collect();
    assert_eq!(handles, vec![11, 13, 12, 11]);
    let lookups: Vec<u32> = platform
        .asked
        .iter()
        .filter_map(|r| match r {
            Request::DeviceInfo { index } => Some(*index),
            _ => None,
        })
        .collect();
    assert_eq!(lookups, vec![0, 1, 2, 3, 4]);
    assert_eq!((platform.opens, platform.closes), (1, 1));
}

#[test]
fn full_walk_releases_the_set_once() {
    let mut platform = Platform::with(vec![mouse(), keyboard(), hub()]);
    walk(&mut platform, usize::MAX);
    assert_eq!((platform.opens, platform.closes), (1, 1));
    assert_eq!(platform.asked.last(), Some(&Request::Release));
    assert_eq!(platform.asked.iter().filter(|r| **r == Request::Release).count(), 1);
}

#[test]
fn release_is_the_last_call_on_the_opened_handle() {
    for devices in [vec![], vec![mouse()], vec![hub(), keyboard(), mouse()]] {
        let mut platform = Platform::with(devices);
        let found = walk(&mut platform, usize::MAX);
        let usbs = get_usb_info(&found).expect("the pattern compiles");
        assert!(usbs.len() <= found.len());
        assert_eq!((platform.opens, platform.closes), (1, 1));
        assert_eq!(platform.handles.len(), platform.asked.len());
        assert!(platform.handles.iter().all(|h| *h == HANDLE));
        let close = platform.asked.iter().position(|r| *r == Request::Release);
        assert_eq!(close, Some(platform.asked.len() - 1));
    }
}

#[test]
fn abandoned_walk_releases_the_set_once() {
    for limit in 0..4 {
        let mut platform = Platform::with(vec![mouse(), keyboard(), hub()]);
        let devices = walk(&mut platform, limit);
        assert_eq!(devices.len(), limit.min(3));
        assert_eq!((platform.opens, platform.closes), (1, 1));
        assert_eq!(platform.asked.last(), Some(&Request::Release));
    }
}

#[test]
fn abandoning_in_the_middle_of_a_device() {
    let mut platform = Platform::with(vec![mouse()]);
    let mut devices = HidDevices::new(platform.open()).expect("the handle is valid");
    for _ in 0..3 {
        let reply = platform.answer(devices.request());
        assert!(devices.next(reply).is_none());
    }
    assert_eq!(devices.request(), Request::PathFill { index: 0, size: 90 });
    devices.abandon();
    devices.abandon();
    assert_eq!(devices.request(), Request::Release);
    let reply = platform.answer(devices.request());
    assert!(devices.next(reply).is_none());
    assert_eq!(devices.request(), Request::Nothing);
    assert!(devices.is_done());
    assert_eq!(platform.closes, 1);
}

#[test]
fn nothing_happens_after_the_release() {
    let mut platform = Platform::with(vec![]);
    let mut devices = HidDevices::new(platform.open()).expect("the handle is valid");
    while devices.request() != Request::Nothing {
        let reply = platform.answer(devices.request());
        devices.next(reply);
    }
    devices.abandon();
    assert_eq!(devices.request(), Request::Nothing);
    let stray = Reply { ok: true, error: 0, value: 5, buffer: vec![b'x', 0] };
    assert!(devices.next(stray).is_none());
    assert_eq!(devices.request(), Request::Nothing);
    assert_eq!(devices.index(), 0);
    assert_eq!(platform.closes, 1);
}

#[test]
fn size_probe_that_succeeds_outright() {
    let mut devices = HidDevices::new(HANDLE).expect("the handle is valid");
    devices.next(Reply { ok: true, error: 0, value: 3, buffer: Vec::new() });
    devices.next(Reply { ok: true, error: 0, value: 0, buffer: Vec::new() });
    assert_eq!(devices.request(), Request::PathSize { index: 0 });
    devices.next(Reply { ok: true, error: 0, value: 17, buffer: Vec::new() });
    assert_eq!(devices.request(), Request::PathFill { index: 0, size: 17 });
}

#[test]
fn records_of_a_walk() {
    let mut platform = Platform::with(vec![mouse(), hub(), keyboard()]);
    let devices = walk(&mut platform, usize::MAX);
    let usbs = get_usb_info(&devices).expect("the pattern compiles");
    assert_eq!(
        usbs,
        vec![
            USBInfo {
                path: "\\\\?\\hid#vid_046d&pid_c52b#7&1".to_string(),
                product_id: 0xc52b,
                vendor_id: 0x046d,
                product_string: Some("HID-compliant mouse".to_string()),
                serial_number_string: Some("7A1".to_string()),
                dev_inst: Some(11),
                pdo_name: Some(String::new()),
            },
            USBInfo {
                path: String::new(),
                product_id: 0x5678,
                vendor_id: 0x1234,
                product_string: None,
                serial_number_string: None,
                dev_inst: Some(12),
                pdo_name: Some(String::new()),
            },
        ]
    );
}
