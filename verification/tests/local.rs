use artie::drive::{DiscState, DriveError, OpticalDriveState, OsOpticalDrive};
use artie::local::LocalDriveActor;

fn os_drive(serial: &str, path: &str) -> OsOpticalDrive {
    OsOpticalDrive {
        path: String::from(path),
        serial_number: String::from(serial),
        disc: DiscState::Inserted { label: String::from("MOVIE"), uuid: String::from("u-1") },
        hostname: String::from("host"),
    }
}

fn expect_invalid_state(r: Result<(), DriveError>, state: &str) {
    match r {
        Err(DriveError::InvalidDriveState { state: s }) => assert_eq!(s, state),
        other => panic!("Expected an invalid state error, got {:?}", other),
    }
}

fn copying(stage: &str, progress: u8) -> OpticalDriveState {
    OpticalDriveState::Copying {
        stage: String::from(stage),
        task: String::from("Saving"),
        task_progress: progress,
        subtask: String::new(),
        subtask_progress: 0,
        elapsed_ms: 5000,
    }
}

#[test]
fn local_actor_starts_disconnected() {
    let actor = LocalDriveActor::new(os_drive("SN1", "/dev/sr0"));
    assert_eq!(actor.drive.name, "SN1");
    assert_eq!(actor.drive.serial_number, "SN1");
    assert_eq!(actor.drive.path, "/dev/sr0");
    assert_eq!(actor.drive.state.name(), "Disconnected");
    assert!(!actor.cancellable);
    assert!(actor.accepts("SN1"));
    assert!(!actor.accepts("SN2"));
}

#[test]
fn local_copy_cycle_returns_to_idle() {
    let mut actor = LocalDriveActor::new(os_drive("SN1", "/dev/sr0"));
    expect_invalid_state(actor.begin_copy_disc(), "Disconnected");
    actor.update_from_os(Some(os_drive("SN1", "/dev/sr1"))).unwrap();
    assert_eq!(actor.drive.state.name(), "Idle");
    assert_eq!(actor.drive.path, "/dev/sr1");

    actor.begin_copy_disc().unwrap();
    assert!(actor.cancellable);
    match &actor.drive.state {
        OpticalDriveState::Copying { stage, task_progress, elapsed_ms, .. } => {
            assert_eq!(stage, "");
            assert_eq!(*task_progress, 0);
            assert_eq!(*elapsed_ms, 0);
        },
        other => panic!("Expected copying, got {:?}", other),
    }
    expect_invalid_state(actor.begin_copy_disc(), "Copying");
    expect_invalid_state(actor.reset(), "Copying");

    actor.update_from_copy(copying("Copying Disc", 40)).unwrap();
    match &actor.drive.state {
        OpticalDriveState::Copying { stage, task_progress, .. } => {
            assert_eq!(stage, "Copying Disc");
            assert_eq!(*task_progress, 40);
        },
        other => panic!("Expected copying, got {:?}", other),
    }

    actor.update_from_copy(OpticalDriveState::Success).unwrap();
    assert_eq!(actor.drive.state.name(), "Success");
    expect_invalid_state(actor.update_from_copy(copying("late", 99)), "Success");
    assert_eq!(actor.drive.state.name(), "Success");

    actor.reset().unwrap();
    assert_eq!(actor.drive.state.name(), "Idle");
    expect_invalid_state(actor.reset(), "Idle");
}

#[test]
fn local_cancel_copy() {
    let mut actor = LocalDriveActor::new(os_drive("SN1", "/dev/sr0"));
    expect_invalid_state(actor.cancel_copy_disc(), "Disconnected");
    actor.update_from_os(Some(os_drive("SN1", "/dev/sr0"))).unwrap();
    actor.begin_copy_disc().unwrap();
    actor.cancel_copy_disc().unwrap();
    assert!(!actor.cancellable);
    assert_eq!(actor.drive.state.name(), "Copying");
    assert!(matches!(actor.cancel_copy_disc(), Err(DriveError::CancelTokenNone)));

    actor
        .update_from_copy(OpticalDriveState::Failed { error: String::from("cancelled") })
        .unwrap();
    assert!(matches!(&actor.drive.state, OpticalDriveState::Failed { error } if error == "cancelled"));
    expect_invalid_state(actor.cancel_copy_disc(), "Failed");
    actor.reset().unwrap();
    assert_eq!(actor.drive.state.name(), "Idle");
}

#[test]
fn local_update_from_os_lost_and_found() {
    let mut actor = LocalDriveActor::new(os_drive("SN1", "/dev/sr0"));
    actor.update_from_os(None).unwrap();
    assert_eq!(actor.drive.state.name(), "Disconnected");
    expect_invalid_state(actor.update_from_copy(copying("x", 1)), "Disconnected");

    actor.update_from_os(Some(os_drive("SN1", "/dev/sr0"))).unwrap();
    assert_eq!(actor.drive.state.name(), "Idle");
    actor.update_from_os(None).unwrap();
    assert_eq!(actor.drive.state.name(), "Disconnected");

    actor.update_from_os(Some(os_drive("SN1", "/dev/sr0"))).unwrap();
    actor.begin_copy_disc().unwrap();
    actor.update_from_os(None).unwrap();
    assert_eq!(actor.drive.state.name(), "Copying");
    let mut other = os_drive("SN9", "/dev/sr3");
    other.disc = DiscState::NoDisc;
    actor.update_from_os(Some(other)).unwrap();
    assert_eq!(actor.drive.serial_number, "SN1");
    assert_eq!(actor.drive.path, "/dev/sr3");
    assert!(matches!(actor.drive.disc, DiscState::NoDisc));
    assert_eq!(actor.drive.state.name(), "Copying");
}
