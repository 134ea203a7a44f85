//! A copy service: the configuration of one drive's copy service and its state.

use vstd::prelude::*;

use crate::devices::str_equal;
use crate::drive::{DiscState, DiscView, OsOpticalDrive};

verus! {

/// The state of a copy service. Progress is in percent, the elapsed time in milliseconds.
#[derive(Debug)]
pub enum State {
    Disconnected,
    Idle,
    Copying {
        stage: String,
        task: String,
        subtask: String,
        task_progress: u8,
        subtask_progress: u8,
        elapsed_ms: u64,
    },
    Success,
    Failed { error: String },
}

impl State {
    /// An operation is in progress from the start of a copy until the service is refreshed
    /// after it succeeded or failed.
    pub open spec fn in_progress(&self) -> bool {
        self is Copying || self is Failed || self is Success
    }

    /// Returns whether an operation is in progress.
    pub fn operation_in_progress(&self) -> (b: bool)
        ensures
            b == self.in_progress(),
    {
        match self {
            State::Copying { .. } | State::Failed { .. } | State::Success => true,
            _ => false,
        }
    }
}

/// The errors of a copy service.
#[derive(Debug, PartialEq, Eq, Structural)]
pub enum ServiceError {
    /// The exclusive lock of the drive could not be acquired.
    DriveLocked,
    /// The drive could not be looked up.
    InvalidOpticalDrive,
    /// The service is busy with an operation.
    OperationInProgress,
}

/// A copy service for one drive, found by its serial number.
#[derive(Debug)]
pub struct CopyService {
    name: String,
    serial_number: String,
    drive: Option<OsOpticalDrive>,
    state: State,
}

impl CopyService {
    pub closed spec fn spec_name(&self) -> Seq<char> {
        self.name@
    }

    pub closed spec fn spec_serial_number(&self) -> Seq<char> {
        self.serial_number@
    }

    pub closed spec fn spec_drive(&self) -> Option<OsOpticalDrive> {
        self.drive
    }

    pub closed spec fn spec_state(&self) -> State {
        self.state
    }

    /// The user's name for the service.
    pub fn name(&self) -> (n: &str)
        ensures
            n@ == self.spec_name(),
    {
        self.name.as_str()
    }

    /// The serial number of the service's drive.
    pub fn serial_number(&self) -> (n: &str)
        ensures
            n@ == self.spec_serial_number(),
    {
        self.serial_number.as_str()
    }

    /// The drive, when it was found.
    pub fn drive(&self) -> (d: Option<&OsOpticalDrive>)
        ensures
            match (d, self.spec_drive()) {
                (Some(a), Some(b)) => *a == b,
                (None, None) => true,
                _ => false,
            },
    {
        self.drive.as_ref()
    }

    /// The service's state.
    pub fn state(&self) -> (s: &State)
        ensures
            *s == self.spec_state(),
    {
        &self.state
    }

    /// Refreshes the drive from a lookup of its serial number: refused while an operation is
    /// in progress, an error when the lookup failed, and otherwise the drive found (idle) or
    /// none (disconnected).
    fn refresh_drive(&mut self, lookup: Result<Option<OsOpticalDrive>, ()>) -> (r: Result<(), ServiceError>)
        ensures
            final(self).name@ == old(self).name@,
            final(self).serial_number@ == old(self).serial_number@,
            old(self).state.in_progress() ==> r == Err::<(), ServiceError>(ServiceError::OperationInProgress)
                && final(self).drive == old(self).drive && final(self).state == old(self).state,
            !old(self).state.in_progress() && lookup is Err ==> r == Err::<(), ServiceError>(
                ServiceError::InvalidOpticalDrive,
            ) && final(self).drive == old(self).drive && final(self).state == old(self).state,
            !old(self).state.in_progress() ==> (lookup matches Ok(found) ==> r is Ok && final(self).drive
                == found && (if found is Some {
                final(self).state is Idle
            } else {
                final(self).state is Disconnected
            })),
    {
        if self.state.operation_in_progress() {
            return Err(ServiceError::OperationInProgress);
        }
        match lookup {
            Err(()) => Err(ServiceError::InvalidOpticalDrive),
            Ok(found) => {
                let idle = found.is_some();
                self.drive = found;
                self.state = if idle {
                    State::Idle
                } else {
                    State::Disconnected
                };
                Ok(())
            },
        }
    }

    /// Creates the service for the drive with the serial number, from the lookup of that drive.
    pub fn new(name: &str, serial_number: &str, lookup: Result<Option<OsOpticalDrive>, ()>) -> (r:
        Result<CopyService, ServiceError>)
        ensures
            lookup is Err ==> r == Err::<CopyService, ServiceError>(ServiceError::InvalidOpticalDrive),
            lookup matches Ok(found) ==> (r matches Ok(s) && s.spec_name() == name@
                && s.spec_serial_number() == serial_number@ && s.spec_drive() == found && (if found is Some {
                s.spec_state() is Idle
            } else {
                s.spec_state() is Disconnected
            })),
    {
        let mut service = CopyService {
            name: name.to_owned(),
            serial_number: serial_number.to_owned(),
            drive: None,
            state: State::Disconnected,
        };
        match service.refresh_drive(lookup) {
            Ok(()) => Ok(service),
            Err(e) => Err(e),
        }
    }

    /// Updates the name and the serial number of the service; a new serial number refreshes
    /// the drive from `lookup`, the lookup of that serial number. Refused while an operation is
    /// in progress.
    pub fn update_config(&mut self, name: &str, serial_number: &str, lookup: Result<Option<OsOpticalDrive>, ()>) -> (r:
        Result<(), ServiceError>)
        ensures
            old(self).spec_state().in_progress() ==> r == Err::<(), ServiceError>(
                ServiceError::OperationInProgress,
            ) && final(self).spec_name() == old(self).spec_name() && final(self).spec_serial_number()
                == old(self).spec_serial_number() && final(self).spec_drive() == old(self).spec_drive()
                && final(self).spec_state() == old(self).spec_state(),
            !old(self).spec_state().in_progress() ==> final(self).spec_name() == name@
                && final(self).spec_serial_number() == serial_number@,
            !old(self).spec_state().in_progress() && old(self).spec_serial_number() == serial_number@
                ==> r is Ok && final(self).spec_drive() == old(self).spec_drive() && final(
                self).spec_state() == old(self).spec_state(),
            !old(self).spec_state().in_progress() && old(self).spec_serial_number() != serial_number@
                && lookup is Err ==> r == Err::<(), ServiceError>(ServiceError::InvalidOpticalDrive),
            !old(self).spec_state().in_progress() && old(self).spec_serial_number() != serial_number@
                ==> (lookup matches Ok(found) ==> r is Ok && final(self).spec_drive() == found && (if found is Some {
                final(self).spec_state() is Idle
            } else {
                final(self).spec_state() is Disconnected
            })),
    {
        if self.state.operation_in_progress() {
            return Err(ServiceError::OperationInProgress);
        }
        self.name = name.to_owned();
        if !str_equal(self.serial_number.as_str(), serial_number) {
            self.serial_number = serial_number.to_owned();
            self.refresh_drive(lookup)
        } else {
            Ok(())
        }
    }
}

/// The fake drives of development builds: an empty drive, and one with a movie disc.
pub fn faux_drives() -> (v: Vec<OsOpticalDrive>)
    ensures
        v.len() == 2,
        v@[0].path@ == "/dev/fx0"@,
        v@[0].serial_number@ == "FAUX0001"@,
        v@[0].disc@ is NoDisc,
        v@[0].hostname@.len() == 0,
        v@[1].path@ == "/dev/fx1"@,
        v@[1].serial_number@ == "FAUX0002"@,
        v@[1].disc@ == (DiscView::Inserted {
            label: "FAUX_MOVIE"@,
            uuid: "00000000-0000-0000-0000-000000000000"@,
        }),
        v@[1].hostname@.len() == 0,
{
    let mut v: Vec<OsOpticalDrive> = Vec::new();
    v.push(
        OsOpticalDrive {
            path: "/dev/fx0".to_owned(),
            serial_number: "FAUX0001".to_owned(),
            disc: DiscState::NoDisc,
            hostname: String::new(),
        },
    );
    v.push(
        OsOpticalDrive {
            path: "/dev/fx1".to_owned(),
            serial_number: "FAUX0002".to_owned(),
            disc: DiscState::Inserted {
                label: "FAUX_MOVIE".to_owned(),
                uuid: "00000000-0000-0000-0000-000000000000".to_owned(),
            },
            hostname: String::new(),
        },
    );
    v
}

/// Looks a fake drive up by its exact serial number.
pub fn faux_optical_drive(serial_number: &str) -> (r: Option<OsOpticalDrive>)
    ensures
        serial_number@ == "FAUX0001"@ ==> (r matches Some(d) && d.path@ == "/dev/fx0"@
            && d.serial_number@ == "FAUX0001"@ && d.disc@ is NoDisc && d.hostname@.len() == 0),
        serial_number@ == "FAUX0002"@ ==> (r matches Some(d) && d.path@ == "/dev/fx1"@
            && d.serial_number@ == "FAUX0002"@ && d.disc@ == (DiscView::Inserted {
            label: "FAUX_MOVIE"@,
            uuid: "00000000-0000-0000-0000-000000000000"@,
        }) && d.hostname@.len() == 0),
        serial_number@ != "FAUX0001"@ && serial_number@ != "FAUX0002"@ ==> r is None,
{
    let drives = faux_drives();
    proof {
        reveal_strlit("FAUX0001");
        reveal_strlit("FAUX0002");
        assert("FAUX0001"@[7] != "FAUX0002"@[7]);
    }
    let mut i: usize = 0;
    while i < drives.len()
        invariant
            "FAUX0001"@ != "FAUX0002"@,
            drives.len() == 2,
            drives@[0].path@ == "/dev/fx0"@,
            drives@[0].serial_number@ == "FAUX0001"@,
            drives@[0].disc@ is NoDisc,
            drives@[0].hostname@.len() == 0,
            drives@[1].path@ == "/dev/fx1"@,
            drives@[1].serial_number@ == "FAUX0002"@,
            drives@[1].disc@ == (DiscView::Inserted {
                label: "FAUX_MOVIE"@,
                uuid: "00000000-0000-0000-0000-000000000000"@,
            }),
            drives@[1].hostname@.len() == 0,
            i <= 2,
            forall|j: int| 0 <= j < i ==> (#[trigger] drives@[j]).serial_number@ != serial_number@,
        decreases drives.len() - i,
    {
        if str_equal(drives[i].serial_number.as_str(), serial_number) {
            return Some(drives[i].clone_drive());
        }
        i = i + 1;
    }
    assert(drives@[0].serial_number@ != serial_number@);
    assert(drives@[1].serial_number@ != serial_number@);
    None
}

} // verus!
