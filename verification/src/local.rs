//! The actor of a drive attached to the host of the control node.
//!
//! Such an actor runs the copy operation itself: a request to begin a copy starts the copy
//! task, which reports the drive's state back to the actor as it goes. Each request is decided
//! here; the application delivers the replies, holds the cancellation token and spawns the copy
//! task when a request to begin succeeds.

use vstd::prelude::*;

use crate::devices::str_equal;
use crate::drive::{
    after_begin, after_os_update, after_reset, copy_started_state, names_state,
    DriveError, DriveStateView, OpticalDrive, OpticalDriveState, OsOpticalDrive,
};

verus! {

/// The drive state after the copy task reports the state `reported`: it is taken, unless the
/// drive is disconnected or its copy has already ended.
pub open spec fn after_copy_report(s: DriveStateView, reported: DriveStateView) -> DriveStateView {
    if s is Disconnected || s is Success || s is Failed {
        s
    } else {
        reported
    }
}

/// The drive state after the operating system no longer reports the drive: an idle drive is
/// disconnected, and a drive that is copying, or whose copy ended, keeps its state.
pub open spec fn after_os_lost(s: DriveStateView) -> DriveStateView {
    if s is Idle {
        DriveStateView::Disconnected
    } else {
        s
    }
}

/// The state of the actor of a local drive.
#[derive(Debug)]
pub struct LocalDriveActor {
    /// The drive's current state.
    pub drive: OpticalDrive,
    /// The copy operation can be cancelled: it holds a cancellation token. Only a running copy
    /// has one.
    pub cancellable: bool,
}

/// The refusal of a request in the state `state`.
fn refuse(state: &OpticalDriveState) -> (e: DriveError)
    ensures
        names_state(e, state@),
{
    DriveError::InvalidDriveState { state: state.name().to_owned() }
}

impl LocalDriveActor {
    /// The actor of a drive that the operating system reported: named by its serial number,
    /// and disconnected until its first status update.
    pub fn new(drive: OsOpticalDrive) -> (a: LocalDriveActor)
        ensures
            a.drive.name@ == drive.serial_number@,
            a.drive.path@ == drive.path@,
            a.drive.serial_number@ == drive.serial_number@,
            a.drive.hostname@ == drive.hostname@,
            a.drive.disc@ == drive.disc@,
            a.drive.state@ is Disconnected,
            !a.cancellable,
    {
        LocalDriveActor { drive: OpticalDrive::from_os(drive), cancellable: false }
    }

    /// The request names this actor's drive.
    pub fn accepts(&self, serial_number: &str) -> (b: bool)
        ensures
            b == (self.drive.serial_number@ == serial_number@),
    {
        str_equal(self.drive.serial_number.as_str(), serial_number)
    }

    /// Begin copying a disc: allowed only when the drive is idle. The drive starts copying,
    /// with no stage, task or progress yet, and the copy can be cancelled.
    pub fn begin_copy_disc(&mut self) -> (r: Result<(), DriveError>)
        ensures
            crate::drive::same_drive(final(self).drive, old(self).drive),
            r is Ok <==> old(self).drive.state@ is Idle,
            final(self).drive.state@ == after_begin(old(self).drive.state@),
            r is Ok ==> final(self).drive.state@ == copy_started_state() && final(self).cancellable,
            r matches Err(e) ==> names_state(e, old(self).drive.state@) && final(self).cancellable
                == old(self).cancellable,
    {
        if self.drive.state.is_idle() {
            self.drive.state = OpticalDriveState::Copying {
                stage: String::new(),
                task: String::new(),
                task_progress: 0,
                subtask: String::new(),
                subtask_progress: 0,
                elapsed_ms: 0,
            };
            self.cancellable = true;
            Ok(())
        } else {
            Err(refuse(&self.drive.state))
        }
    }

    /// Cancel the running copy: allowed only while copying, and only while the copy holds its
    /// cancellation token, which it gives up. The state stays; the copy task reports the end.
    pub fn cancel_copy_disc(&mut self) -> (r: Result<(), DriveError>)
        ensures
            crate::drive::same_drive(final(self).drive, old(self).drive),
            final(self).drive.state@ == old(self).drive.state@,
            r is Ok <==> old(self).drive.state@ is Copying && old(self).cancellable,
            r is Ok ==> !final(self).cancellable,
            r matches Err(e) ==> final(self).cancellable == old(self).cancellable && (if old(
                self,
            ).drive.state@ is Copying {
                e is CancelTokenNone
            } else {
                names_state(e, old(self).drive.state@)
            }),
    {
        if !self.drive.state.is_copying() {
            return Err(refuse(&self.drive.state));
        }
        if !self.cancellable {
            return Err(DriveError::CancelTokenNone);
        }
        self.cancellable = false;
        Ok(())
    }

    /// Resets the drive back to idle after a copy that succeeded or failed.
    pub fn reset(&mut self) -> (r: Result<(), DriveError>)
        ensures
            crate::drive::same_drive(final(self).drive, old(self).drive),
            final(self).cancellable == old(self).cancellable,
            r is Ok <==> (old(self).drive.state@ is Success || old(self).drive.state@ is Failed),
            final(self).drive.state@ == after_reset(old(self).drive.state@),
            r matches Err(e) ==> names_state(e, old(self).drive.state@),
    {
        match self.drive.state {
            OpticalDriveState::Success | OpticalDriveState::Failed { .. } => {
                self.drive.state = OpticalDriveState::Idle;
                Ok(())
            },
            _ => Err(refuse(&self.drive.state)),
        }
    }

    /// The copy task reports the drive's state: taken unless the drive is disconnected or its
    /// copy has already ended, which is refused.
    pub fn update_from_copy(&mut self, state: OpticalDriveState) -> (r: Result<(), DriveError>)
        ensures
            crate::drive::same_drive(final(self).drive, old(self).drive),
            final(self).cancellable == old(self).cancellable,
            r is Ok <==> !(old(self).drive.state@ is Disconnected || old(self).drive.state@ is Success
                || old(self).drive.state@ is Failed),
            final(self).drive.state@ == after_copy_report(old(self).drive.state@, state@),
            r matches Err(e) ==> names_state(e, old(self).drive.state@),
    {
        match self.drive.state {
            OpticalDriveState::Disconnected
            | OpticalDriveState::Success
            | OpticalDriveState::Failed { .. } => Err(refuse(&self.drive.state)),
            _ => {
                self.drive.state = state;
                Ok(())
            },
        }
    }

    /// The operating system's report of the drive: when the drive is there, its path, hostname
    /// and disc are taken and a disconnected drive becomes idle; when it is not, an idle drive
    /// becomes disconnected. The name and serial number never change.
    pub fn update_from_os(&mut self, info: Option<OsOpticalDrive>) -> (r: Result<(), DriveError>)
        ensures
            r is Ok,
            final(self).cancellable == old(self).cancellable,
            final(self).drive.name@ == old(self).drive.name@,
            final(self).drive.serial_number@ == old(self).drive.serial_number@,
            match info {
                Some(d) => {
                    &&& final(self).drive.path@ == d.path@
                    &&& final(self).drive.hostname@ == d.hostname@
                    &&& final(self).drive.disc@ == d.disc@
                    &&& final(self).drive.state@ == after_os_update(old(self).drive.state@)
                },
                None => {
                    &&& crate::drive::same_drive(final(self).drive, old(self).drive)
                    &&& final(self).drive.state@ == after_os_lost(old(self).drive.state@)
                },
            },
    {
        match info {
            Some(info) => {
                self.drive.path = info.path;
                self.drive.hostname = info.hostname;
                self.drive.disc = info.disc;
                if self.drive.state.is_disconnected() {
                    self.drive.state = OpticalDriveState::Idle;
                }
            },
            None => {
                if self.drive.state.is_idle() {
                    self.drive.state = OpticalDriveState::Disconnected;
                }
            },
        }
        Ok(())
    }
}

/// Once a copy has ended, in success or failure, nothing the copy task reports changes the
/// drive's state: the outcome stays until the drive is reset.
pub proof fn lemma_copy_outcome_final(s: DriveStateView, reported: DriveStateView)
    requires
        s is Success || s is Failed,
    ensures
        after_copy_report(s, reported) == s,
        after_os_lost(s) == s,
        after_os_update(s) == s,
        after_reset(s) is Idle,
{
}

/// A copy on a local drive runs from idle back to idle: begun, reported while it runs, reported
/// at its end with `outcome` (success or failure), and reset.
pub proof fn lemma_local_copy_cycle(running: DriveStateView, outcome: DriveStateView)
    requires
        running is Copying,
        outcome is Success || outcome is Failed,
    ensures
        after_begin(DriveStateView::Idle) is Copying,
        after_copy_report(after_begin(DriveStateView::Idle), running) == running,
        after_copy_report(running, outcome) == outcome,
        after_reset(after_copy_report(running, outcome)) is Idle,
{
}

/// Losing sight of an idle drive and finding it again leaves it idle; a copying drive is not
/// disturbed by the operating system's reports.
pub proof fn lemma_os_reports(s: DriveStateView)
    ensures
        s is Idle ==> after_os_update(after_os_lost(s)) is Idle,
        s is Copying ==> after_os_lost(s) == s && after_os_update(s) == s,
{
}

} // verus!
