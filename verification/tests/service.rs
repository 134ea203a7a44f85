use artie::drive::{DiscState, OsOpticalDrive};
use artie::service::{faux_optical_drive, CopyService, ServiceError, State};

fn faux_drive_1() -> OsOpticalDrive {
    OsOpticalDrive {
        path: String::from("/dev/fx0"),
        serial_number: String::from("FAUX0001"),
        disc: DiscState::NoDisc,
        hostname: String::new(),
    }
}

fn faux_drive_2() -> OsOpticalDrive {
    OsOpticalDrive {
        path: String::from("/dev/fx1"),
        serial_number: String::from("FAUX0002"),
        disc: DiscState::Inserted {
            label: String::from("FAUX_MOVIE"),
            uuid: String::from("00000000-0000-0000-0000-000000000000"),
        },
        hostname: String::new(),
    }
}

fn same_drive(a: Option<&OsOpticalDrive>, b: Option<&OsOpticalDrive>) -> bool {
    match (a, b) {
        (None, None) => true,
        (Some(a), Some(b)) => {
            let disc = match (&a.disc, &b.disc) {
                (DiscState::NoDisc, DiscState::NoDisc) => true,
                (
                    DiscState::Inserted { label: l1, uuid: u1 },
                    DiscState::Inserted { label: l2, uuid: u2 },
                ) => l1 == l2 && u1 == u2,
                _ => false,
            };
            a.path == b.path && a.serial_number == b.serial_number && a.hostname == b.hostname && disc
        },
        _ => false,
    }
}

fn lookup(serial_number: &str) -> Result<Option<OsOpticalDrive>, ()> {
    Ok(faux_optical_drive(serial_number))
}

#[test]
fn copy_service_new() {
    // FAUX0000 doesn't exist, so the service should initialize
    let service = CopyService::new("TestDrive", "FAUX0000", lookup("FAUX0000"))
        .expect("Unexpected error when creating copy service");
    assert_eq!(service.name(), "TestDrive");
    assert_eq!(service.serial_number(), "FAUX0000");
    assert!(same_drive(service.drive(), None));
    assert!(matches!(service.state(), State::Disconnected));

    // FAUX0001 is an empty drive.
    let service = CopyService::new("TestDrive", "FAUX0001", lookup("FAUX0001"))
        .expect("Unexpected error when creating copy service");
    assert_eq!(service.name(), "TestDrive");
    assert_eq!(service.serial_number(), "FAUX0001");
    assert!(same_drive(service.drive(), Some(&faux_drive_1())));
    assert!(matches!(service.state(), State::Idle));

    // FAUX0002 has a disc inserted.
    let service = CopyService::new("TestDrive", "FAUX0002", lookup("FAUX0002"))
        .expect("Unexpected error when creating copy service");
    assert_eq!(service.name(), "TestDrive");
    assert_eq!(service.serial_number(), "FAUX0002");
    assert!(same_drive(service.drive(), Some(&faux_drive_2())));
    assert!(matches!(service.state(), State::Idle));
}

#[test]
fn copy_service_update() {
    let mut service = CopyService::new("TestDrive 0", "FAUX0000", lookup("FAUX0000"))
        .expect("Unexpected error when creating copy service");

    service
        .update_config("TestDrive 1", "FAUX0001", lookup("FAUX0001"))
        .expect("Unexpected error when updating copy service");
    assert_eq!(service.name(), "TestDrive 1");
    assert_eq!(service.serial_number(), "FAUX0001");
    assert!(same_drive(service.drive(), Some(&faux_drive_1())));
    assert!(matches!(service.state(), State::Idle));

    service
        .update_config("TestDrive 2", "FAUX0002", lookup("FAUX0002"))
        .expect("Unexpected error when updating copy service");
    assert_eq!(service.name(), "TestDrive 2");
    assert_eq!(service.serial_number(), "FAUX0002");
    assert!(same_drive(service.drive(), Some(&faux_drive_2())));
    assert!(matches!(service.state(), State::Idle));

    service
        .update_config("TestDrive 3", "FAUX0000", lookup("FAUX0000"))
        .expect("Unexpected error when updating copy service");
    assert_eq!(service.name(), "TestDrive 3");
    assert_eq!(service.serial_number(), "FAUX0000");
    assert!(same_drive(service.drive(), None));
    assert!(matches!(service.state(), State::Disconnected));
}

#[test]
fn failed_lookup_is_reported() {
    assert_eq!(CopyService::new("X", "SN", Err(())).err(), Some(ServiceError::InvalidOpticalDrive));
    let mut service = CopyService::new("X", "FAUX0001", lookup("FAUX0001")).unwrap();
    assert_eq!(service.update_config("Y", "SN", Err(())), Err(ServiceError::InvalidOpticalDrive));
    // The same serial number needs no lookup.
    let mut service2 = CopyService::new("X", "FAUX0001", lookup("FAUX0001")).unwrap();
    assert_eq!(service2.update_config("Z", "FAUX0001", Err(())), Ok(()));
    assert_eq!(service2.name(), "Z");
    assert!(matches!(service2.state(), State::Idle));
    let _ = &mut service;
}

#[test]
fn operation_in_progress_states() {
    assert!(!State::Disconnected.operation_in_progress());
    assert!(!State::Idle.operation_in_progress());
    assert!(State::Success.operation_in_progress());
    assert!(State::Failed { error: String::from("e") }.operation_in_progress());
    assert!(State::Copying {
        stage: String::new(),
        task: String::new(),
        subtask: String::new(),
        task_progress: 0,
        subtask_progress: 0,
        elapsed_ms: 0,
    }
    .operation_in_progress());
}
