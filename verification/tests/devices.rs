use artie::devices::{
    find_optical_drive, get_optical_drive, get_optical_drives, str_eq_ignore_ascii_case,
    BlockDevice, FauxDisc, FauxDrive,
};
use artie::drive::DiscState;

fn device(
    name: &str,
    serial: Option<&str>,
    label: Option<&str>,
    device_type: &str,
    uuid: Option<&str>,
) -> BlockDevice {
    BlockDevice {
        name: String::from(name),
        serial_number: serial.map(String::from),
        label: label.map(String::from),
        device_type: String::from(device_type),
        uuid: uuid.map(String::from),
    }
}

#[test]
fn test_has_serial_number() {
    let device1 = device("/dev/sr0", Some("1234567890"), Some("Test Disc"), "rom", Some("uuid-1234"));
    assert!(device1.has_serial_number(&String::from("1234567890")));
    assert!(!device1.has_serial_number(&String::from("123456789")));

    let device2 = device("/dev/sr0", None, Some("Test Disc"), "rom", Some("uuid-1234"));
    assert!(!device2.has_serial_number(&String::from("1234567890")));
}

#[test]
fn test_is_optical_drive() {
    let d = device("/dev/sr0", Some("1234567890"), Some("Test Disc"), "rom", Some("uuid-1234"));
    assert!(d.is_optical_drive());

    let d = device("/dev/sr0", Some("1234567890"), None, "rom", None);
    assert!(d.is_optical_drive());

    let d = device("/dev/sda", Some("1234567890"), Some("BOOT_DRIVE"), "disk", Some("uuid-1234"));
    assert!(!d.is_optical_drive());

    let d = device("/dev/sr0", Some("1234567890"), Some("Test Disc"), "rom", None);
    assert!(d.is_optical_drive());

    let d = device("/dev/sr0", None, Some("Test Disc"), "rom", Some("uuid-1234"));
    assert!(!d.is_optical_drive());
}

#[test]
fn test_to_optical_drive() {
    let d = device("/dev/sr0", Some("1234567890"), Some("Test Disc"), "rom", Some("uuid-1234"));
    let optical_drive = d.to_optical_drive();
    assert_eq!(optical_drive.path, String::from("/dev/sr0"));
    assert_eq!(optical_drive.serial_number, String::from("1234567890"));
    match optical_drive.disc {
        DiscState::Inserted { label, uuid } => {
            assert_eq!(label, String::from("Test Disc"));
            assert_eq!(uuid, String::from("uuid-1234"));
        },
        _ => panic!("Expected disc state to be Inserted"),
    }

    let d = device("/dev/sr0", Some("1234567890"), Some("Test Disc"), "rom", None);
    let optical_drive = d.to_optical_drive();
    assert_eq!(optical_drive.path, String::from("/dev/sr0"));
    assert_eq!(optical_drive.serial_number, String::from("1234567890"));
    match optical_drive.disc {
        DiscState::Inserted { label, uuid } => {
            assert_eq!(label, String::from("Test Disc"));
            assert_eq!(uuid, String::from(""));
        },
        _ => panic!("Expected disc state to be Inserted"),
    }

    let d = device("/dev/sr0", Some("1234567890"), None, "rom", None);
    let optical_drive = d.to_optical_drive();
    assert_eq!(optical_drive.path, String::from("/dev/sr0"));
    assert_eq!(optical_drive.serial_number, String::from("1234567890"));
    match optical_drive.disc {
        DiscState::NoDisc => (),
        _ => panic!("Expected disc state to be None"),
    }
}

fn text_field(v: &serde_json::Value, key: &str) -> Option<String> {
    v.get(key).and_then(|x| x.as_str()).map(String::from)
}

fn devices_from_json(json: &str) -> Vec<BlockDevice> {
    let data: serde_json::Value = serde_json::from_str(json).unwrap();
    data["blockdevices"]
        .as_array()
        .unwrap()
        .iter()
        .map(|d| BlockDevice {
            device_type: text_field(d, "type").unwrap(),
            name: text_field(d, "name").unwrap(),
            serial_number: text_field(d, "serial"),
            label: text_field(d, "label"),
            uuid: text_field(d, "uuid"),
        })
        .collect()
}

#[test]
fn test_get_optical_drive() {
    let json = r###"
    {
        "blockdevices": [
            {"name": "/dev/loop0", "serial": null, "type": "loop", "label": null, "uuid": null},
            {"name": "/dev/sr0", "serial": "SN0001", "type": "rom", "label": null, "uuid": null},
            {"name": "/dev/sr1", "serial": "SN0002", "type": "rom", "label": "MOVIE", "uuid": "4-8-15-16-23-42"},
            {"name": "/dev/sda", "serial": "SN0003", "type": "disk", "label": null, "uuid": null}
        ]
    }"###;
    let devices = devices_from_json(json);

    let optical_drive = find_optical_drive(&devices, "SN0001").expect("Expected SN0001");
    assert_eq!(optical_drive.path, String::from("/dev/sr0"));
    assert_eq!(optical_drive.serial_number, String::from("SN0001"));
    match optical_drive.disc {
        DiscState::NoDisc => (),
        _ => panic!("Expected disc state to be None"),
    }

    let optical_drive = find_optical_drive(&devices, "SN0002").expect("Expected SN0002");
    assert_eq!(optical_drive.path, String::from("/dev/sr1"));
    assert_eq!(optical_drive.serial_number, String::from("SN0002"));
    match optical_drive.disc {
        DiscState::Inserted { label, uuid } => {
            assert_eq!(label, String::from("MOVIE"));
            assert_eq!(uuid, String::from("4-8-15-16-23-42"));
        },
        _ => panic!("Expected disc state to be Inserted"),
    }

    assert!(find_optical_drive(&devices, "SN0003").is_none());
    assert!(find_optical_drive(&devices, "SN0004").is_none());
}

#[test]
fn serial_numbers_compare_ignoring_ascii_case() {
    assert!(str_eq_ignore_ascii_case("Rom", "rOM"));
    assert!(!str_eq_ignore_ascii_case("rom", "roms"));
    let devices = vec![device("/dev/sr0", Some("ab12"), None, "ROM", None)];
    assert_eq!(find_optical_drive(&devices, "AB12").unwrap().path, "/dev/sr0");
}

fn faux(serial: &str, disc: Option<(&str, &str)>) -> FauxDrive {
    FauxDrive {
        name: format!("drive {}", serial),
        path: format!("/dev/{}", serial),
        serial_number: String::from(serial),
        disc: disc.map(|(l, u)| FauxDisc { label: String::from(l), uuid: String::from(u) }),
    }
}

#[test]
fn faux_drives_become_os_drives() {
    let drives = vec![faux("fx0", None), faux("fx1", Some(("MOVIE", "0000")))];
    let os = get_optical_drives(drives.clone());
    assert_eq!(os.len(), 2);
    assert_eq!(os[0].path, "/dev/fx0");
    assert!(matches!(os[0].disc, DiscState::NoDisc));
    match &os[1].disc {
        DiscState::Inserted { label, uuid } => {
            assert_eq!(label, "MOVIE");
            assert_eq!(uuid, "0000");
        },
        _ => panic!("Expected an inserted disc"),
    }
    assert_eq!(get_optical_drive(drives.clone(), "fx1").unwrap().path, "/dev/fx1");
    assert!(get_optical_drive(drives, "FX1").is_none());
}
