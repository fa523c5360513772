use hid_devices::device::{HidDevice, PropertyReply, Reply, SPDRP_FRIENDLYNAME};
use hid_devices::pattern::{DeviceIds, IdPattern};
use hid_devices::render::{decimal, NumVec};
use hid_devices::report::{collect, record_for, USBInfo};

fn record(n: u16) -> USBInfo {
    USBInfo {
        path: format!("\\\\?\\hid#{}", n),
        product_id: n,
        vendor_id: 0x1234,
        product_string: Some("A \"quoted\" name\n".to_string()),
        serial_number_string: None,
        dev_inst: Some(n as u32 + 70000),
        pdo_name: Some(String::new()),
    }
}

/// The block of a record, written with std's own formatting.
fn expected_block(r: &USBInfo) -> String {
    format!(
        "
        HD:
            path: {:?},
            product_id: {:?},
            vendor_id: {:?},
            product_string:{:?},
            serial_number_string:{:?},
            dev_inst:{:?},
            pdo_name:{:?}
        ",
        r.path, r.product_id, r.vendor_id, r.product_string, r.serial_number_string, r.dev_inst,
        r.pdo_name
    )
}

fn answered(text: &str) -> Reply {
    let mut buffer = text.as_bytes().to_vec();
    buffer.push(0);
    Reply { ok: true, error: 0, value: 0, buffer }
}

fn device(dev_inst: u32, id: &str, name: Option<&str>) -> HidDevice {
    HidDevice {
        dev_inst,
        path_reply: Some(answered("\\\\?\\hid#path")),
        instance_reply: Some(answered(id)),
        properties: match name {
            Some(name) => {
                vec![PropertyReply { code: SPDRP_FRIENDLYNAME, reply: answered(name) }]
            }
            None => vec![PropertyReply {
                code: SPDRP_FRIENDLYNAME,
                reply: Reply { ok: false, error: 13, value: 0, buffer: b"stale\0".to_vec() },
            }],
        },
    }
}

#[test]
fn decimal_digits() {
    assert_eq!(decimal(0), "0");
    assert_eq!(decimal(7), "7");
    assert_eq!(decimal(10), "10");
    assert_eq!(decimal(4660), "4660");
    assert_eq!(decimal(65535), "65535");
    assert_eq!(decimal(1234567890), "1234567890");
    assert_eq!(decimal(u32::MAX), "4294967295");
}

#[test]
fn record_block_exactly() {
    let r = USBInfo {
        path: String::new(),
        product_id: 0x5678,
        vendor_id: 0x1234,
        product_string: Some("Mouse".to_string()),
        serial_number_string: Some("ABCDEF01".to_string()),
        dev_inst: Some(0),
        pdo_name: Some(String::new()),
    };
    assert_eq!(
        r.to_string(),
        "\n        HD:\n            path: \"\",\n            product_id: 22136,\n            \
         vendor_id: 4660,\n            product_string:Some(\"Mouse\"),\n            \
         serial_number_string:Some(\"ABCDEF01\"),\n            dev_inst:Some(0),\n            \
         pdo_name:Some(\"\")\n        "
    );
}

#[test]
fn record_block_with_absent_fields() {
    let r = USBInfo {
        path: "p".to_string(),
        product_id: 1,
        vendor_id: 2,
        product_string: None,
        serial_number_string: None,
        dev_inst: None,
        pdo_name: None,
    };
    assert_eq!(
        r.to_string(),
        "\n        HD:\n            path: \"p\",\n            product_id: 1,\n            \
         vendor_id: 2,\n            product_string:None,\n            \
         serial_number_string:None,\n            dev_inst:None,\n            \
         pdo_name:None\n        "
    );
}

#[test]
fn texts_are_quoted_and_escaped() {
    let r = record(9);
    let text = r.to_string();
    assert!(text.contains("path: \"\\\\\\\\?\\\\hid#9\","));
    assert!(text.contains("product_string:Some(\"A \\\"quoted\\\" name\\n\"),"));
    assert_eq!(text, expected_block(&r));
}

#[test]
fn list_of_no_records() {
    assert_eq!(NumVec(Vec::new()).to_string(), "hid devices: [\n]");
}

#[test]
fn list_of_one_record() {
    let r = record(1);
    assert_eq!(
        NumVec(vec![r.clone()]).to_string(),
        format!("hid devices: [{}\n]", expected_block(&r))
    );
}

#[test]
fn list_of_many_records() {
    let (a, b, c) = (record(1), record(20), record(300));
    assert_eq!(
        NumVec(vec![a.clone(), b.clone(), c.clone()]).to_string(),
        format!(
            "hid devices: [{},{},{}\n]",
            expected_block(&a),
            expected_block(&b),
            expected_block(&c)
        )
    );
}

#[test]
fn record_of_matching_device() {
    let d = device(42, "HID\\VID_1234&PID_5678\\ABCDEF01", Some("Pad"));
    let ids = DeviceIds { vendor_id: 0x1234, product_id: 0x5678, serial: Some("S".to_string()) };
    assert_eq!(
        record_for(&d, ids),
        USBInfo {
            path: "\\\\?\\hid#path".to_string(),
            product_id: 0x5678,
            vendor_id: 0x1234,
            product_string: Some("Pad".to_string()),
            serial_number_string: Some("S".to_string()),
            dev_inst: Some(42),
            pdo_name: Some(String::new()),
        }
    );
}

#[test]
fn failed_name_lookup_leaves_the_field_absent() {
    let d = device(42, "HID\\VID_1234&PID_5678\\ABCDEF01", None);
    let pattern = IdPattern::new().expect("the pattern compiles");
    let usbs = collect(&pattern, &vec![d]);
    assert_eq!(usbs.len(), 1);
    assert_eq!(usbs[0].product_string, None);
    assert_eq!(usbs[0].serial_number_string, Some("ABCDEF01".to_string()));
}

#[test]
fn devices_that_do_not_match_are_passed_over() {
    let pattern = IdPattern::new().expect("the pattern compiles");
    let devices = vec![
        device(1, "USB\\ROOT_HUB30", Some("hub")),
        device(2, "HID\\VID_0001&PID_0002", Some("two")),
        device(3, "", None),
        device(4, "HID\\VID_000A+PID_000B+Z9", Some("four")),
    ];
    let usbs = collect(&pattern, &devices);
    let seen: Vec<(Option<u32>, u16, u16, Option<String>)> = usbs
        .iter()
        .map(|u| (u.dev_inst, u.vendor_id, u.product_id, u.serial_number_string.clone()))
        .collect();
    assert_eq!(
        seen,
        vec![(Some(2), 1, 2, None), (Some(4), 10, 11, Some("Z9".to_string()))]
    );
    assert!(collect(&pattern, &Vec::new()).is_empty());
}
