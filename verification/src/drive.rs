//! Optical drives: their state, and the decisions of the drive actor.
//!
//! The drive actor owns the state of one optical drive. Each request it receives is decided
//! here, by a method of [`DriveActor`] that updates the state and gives the reply; the
//! application delivers the replies, holds the reply channels and cancellation tokens, and
//! starts the work (the copy task, the MakeMKV commands) that a successful request calls for.

use vstd::prelude::*;

use crate::text::{push_two_digits, two_digit_text};

verus! {

/// Treats a failure to reach a disconnected node as success: with no control node connected
/// there is no one to report to.
pub fn ignore_disconnected(result: Result<(), DriveError>) -> (r: Result<(), DriveError>)
    ensures
        match result {
            Ok(()) => r is Ok,
            Err(DriveError::Disconnected) => r is Ok,
            Err(e) => r == Err::<(), DriveError>(e),
        },
{
    match result {
        Ok(()) => Ok(()),
        Err(DriveError::Disconnected) => Ok(()),
        Err(error) => Err(error),
    }
}

/// Milliseconds without a status update after which an idle drive counts as disconnected.
pub const DRIVE_TIMEOUT_MS: u64 = 3000;

/// Represents the state of the optical drive's disc.
#[derive(Clone, Debug)]
pub enum DiscState {
    /// No disc is inserted in the optical drive.
    NoDisc,
    /// A disc is inserted: its label, and the identifier the OS gave it.
    Inserted { label: String, uuid: String },
}

/// The view of a disc state.
pub enum DiscView {
    NoDisc,
    Inserted { label: Seq<char>, uuid: Seq<char> },
}

impl View for DiscState {
    type V = DiscView;

    open spec fn view(&self) -> DiscView {
        match self {
            DiscState::NoDisc => DiscView::NoDisc,
            DiscState::Inserted { label, uuid } => DiscView::Inserted { label: label@, uuid: uuid@ },
        }
    }
}

impl DiscState {
    /// A copy of the disc state.
    pub fn duplicate(&self) -> (d: DiscState)
        ensures
            d@ == self@,
    {
        match self {
            DiscState::NoDisc => DiscState::NoDisc,
            DiscState::Inserted { label, uuid } => DiscState::Inserted {
                label: label.clone(),
                uuid: uuid.clone(),
            },
        }
    }
}

/// Represents the state of the optical drive within the application.
///
/// Progress is in percent; the elapsed time of a copy is in milliseconds.
#[derive(Clone, Debug)]
pub enum OpticalDriveState {
    /// The drive information is no longer available.
    Disconnected,
    /// The drive is waiting to begin a copy operation.
    Idle,
    /// The drive is copying a disc.
    Copying {
        stage: String,
        task: String,
        task_progress: u8,
        subtask: String,
        subtask_progress: u8,
        elapsed_ms: u64,
    },
    /// The copy operation completed successfully; the drive stays here until reset.
    Success,
    /// The copy operation failed or was cancelled; the drive stays here until reset.
    Failed { error: String },
}

/// The view of a drive state.
pub enum DriveStateView {
    Disconnected,
    Idle,
    Copying {
        stage: Seq<char>,
        task: Seq<char>,
        task_progress: u8,
        subtask: Seq<char>,
        subtask_progress: u8,
        elapsed_ms: u64,
    },
    Success,
    Failed { error: Seq<char> },
}

impl View for OpticalDriveState {
    type V = DriveStateView;

    open spec fn view(&self) -> DriveStateView {
        match self {
            OpticalDriveState::Disconnected => DriveStateView::Disconnected,
            OpticalDriveState::Idle => DriveStateView::Idle,
            OpticalDriveState::Copying {
                stage,
                task,
                task_progress,
                subtask,
                subtask_progress,
                elapsed_ms,
            } => DriveStateView::Copying {
                stage: stage@,
                task: task@,
                task_progress: *task_progress,
                subtask: subtask@,
                subtask_progress: *subtask_progress,
                elapsed_ms: *elapsed_ms,
            },
            OpticalDriveState::Success => DriveStateView::Success,
            OpticalDriveState::Failed { error } => DriveStateView::Failed { error: error@ },
        }
    }
}

/// The name (or label) of a drive state.
pub open spec fn state_name(s: DriveStateView) -> Seq<char> {
    match s {
        DriveStateView::Disconnected => "Disconnected"@,
        DriveStateView::Idle => "Idle"@,
        DriveStateView::Copying { .. } => "Copying"@,
        DriveStateView::Success => "Success"@,
        DriveStateView::Failed { .. } => "Failed"@,
    }
}

impl OpticalDriveState {
    /// Get the name (or label) of the state.
    pub fn name(&self) -> (n: &'static str)
        ensures
            n@ == state_name(self@),
    {
        match self {
            OpticalDriveState::Disconnected => "Disconnected",
            OpticalDriveState::Idle => "Idle",
            OpticalDriveState::Copying { .. } => "Copying",
            OpticalDriveState::Success => "Success",
            OpticalDriveState::Failed { .. } => "Failed",
        }
    }

    /// Returns whether the drive is copying.
    pub fn is_copying(&self) -> (b: bool)
        ensures
            b == (self@ is Copying),
    {
        match self {
            OpticalDriveState::Copying { .. } => true,
            _ => false,
        }
    }

    /// Returns whether the drive is idle.
    pub fn is_idle(&self) -> (b: bool)
        ensures
            b == (self@ is Idle),
    {
        match self {
            OpticalDriveState::Idle => true,
            _ => false,
        }
    }

    /// Returns whether the drive is disconnected.
    pub fn is_disconnected(&self) -> (b: bool)
        ensures
            b == (self@ is Disconnected),
    {
        match self {
            OpticalDriveState::Disconnected => true,
            _ => false,
        }
    }
}

/// Information reported by the operating system for the optical drive.
#[derive(Clone, Debug)]
pub struct OsOpticalDrive {
    /// The device path of the drive, such as "/dev/sr0".
    pub path: String,
    /// The serial number of the optical drive.
    pub serial_number: String,
    /// The state of the disc in the optical drive.
    pub disc: DiscState,
    /// The hostname of the system the drive is installed in.
    pub hostname: String,
}

/// Represents an optical drive, as the drive actor reports it.
#[derive(Clone, Debug)]
pub struct OpticalDrive {
    /// The user defined name of the drive; initially its serial number.
    pub name: String,
    /// The device path of the drive, such as "/dev/sr0".
    pub path: String,
    /// The serial number of the optical drive.
    pub serial_number: String,
    /// The hostname of the system the drive is installed in.
    pub hostname: String,
    /// The state of the disc in the optical drive.
    pub disc: DiscState,
    /// The state of the drive within the application.
    pub state: OpticalDriveState,
}

impl OpticalDrive {
    /// Create a new optical drive instance for a disconnected drive.
    pub fn disconnected(serial_number: &str) -> (d: OpticalDrive)
        ensures
            d.name@ == serial_number@,
            d.path@.len() == 0,
            d.serial_number@ == serial_number@,
            d.hostname@.len() == 0,
            d.disc@ is NoDisc,
            d.state@ is Disconnected,
    {
        OpticalDrive {
            name: serial_number.to_owned(),
            path: String::new(),
            serial_number: serial_number.to_owned(),
            hostname: String::new(),
            disc: DiscState::NoDisc,
            state: OpticalDriveState::Disconnected,
        }
    }

    /// Create a new optical drive instance from drive information provided by the OS; it is
    /// named by its serial number and starts disconnected.
    pub fn from_os(drive: OsOpticalDrive) -> (d: OpticalDrive)
        ensures
            d.name@ == drive.serial_number@,
            d.path@ == drive.path@,
            d.serial_number@ == drive.serial_number@,
            d.hostname@ == drive.hostname@,
            d.disc@ == drive.disc@,
            d.state@ is Disconnected,
    {
        OpticalDrive {
            name: drive.serial_number.clone(),
            path: drive.path,
            serial_number: drive.serial_number,
            hostname: drive.hostname,
            disc: drive.disc,
            state: OpticalDriveState::Disconnected,
        }
    }

    /// Creates an [`OsOpticalDrive`] instance from this drive instance.
    pub fn os_drive(&self) -> (d: OsOpticalDrive)
        ensures
            d.path@ == self.path@,
            d.serial_number@ == self.serial_number@,
            d.disc@ == self.disc@,
            d.hostname@ == self.hostname@,
    {
        OsOpticalDrive {
            path: self.path.clone(),
            serial_number: self.serial_number.clone(),
            disc: self.disc.duplicate(),
            hostname: self.hostname.clone(),
        }
    }
}

/// The errors with which the drive actor refuses a request.
#[derive(Debug)]
pub enum DriveError {
    /// The drive is not in a state that allows the request; `state` names the state it is in.
    InvalidDriveState { state: String },
    /// A cancellation was requested, but the copy has no cancellation token.
    CancelTokenNone,
    /// A MakeMKV command is already running for the drive.
    AlreadyRunning,
    /// No MakeMKV command is running for the drive.
    NotRunning,
    /// The request is not for this drive.
    InvalidDriveRequest,
    /// The request is not supported by this actor.
    UnsupportedRequest { request: String },
    /// The node at the other end of the network is not connected.
    Disconnected,
}

/// The refusal names the drive's state.
pub open spec fn names_state(e: DriveError, s: DriveStateView) -> bool {
    e matches DriveError::InvalidDriveState { state } && state@ == state_name(s)
}

/// The refusal of a request in the current state.
fn refuse(state: &OpticalDriveState) -> (e: DriveError)
    ensures
        names_state(e, state@),
{
    DriveError::InvalidDriveState { state: state.name().to_owned() }
}

/// The drive actor's state: the drive, and what it knows of the copy operation running on it.
///
/// Times are milliseconds of a monotonic clock that the application reads.
#[derive(Debug)]
pub struct DriveActor {
    /// The drive's current state.
    pub drive: OpticalDrive,
    /// The worker node the drive is attached to, when it is not attached to this host.
    pub worker: Option<String>,
    /// The copy operation can be cancelled: it has a cancellation token.
    pub cancellable: bool,
    /// When the running copy operation started.
    pub copy_started: Option<u64>,
    /// When the drive's status was last updated.
    pub last_update: u64,
    /// A MakeMKV info command is running and awaits its result.
    pub info_pending: bool,
    /// A MakeMKV copy command is running and awaits its result.
    pub copy_pending: bool,
}

/// The elapsed time of the running copy operation at time `now`.
pub open spec fn elapsed_at(started: Option<u64>, now: u64) -> u64 {
    match started {
        Some(t) => if now >= t {
            (now - t) as u64
        } else {
            0
        },
        None => 0,
    }
}

/// Two drives are the same but for their state.
pub open spec fn same_drive(a: OpticalDrive, b: OpticalDrive) -> bool {
    &&& a.name@ == b.name@
    &&& a.path@ == b.path@
    &&& a.serial_number@ == b.serial_number@
    &&& a.hostname@ == b.hostname@
    &&& a.disc@ == b.disc@
}

/// The state of a copy that has just started.
pub open spec fn copy_started_state() -> DriveStateView {
    DriveStateView::Copying {
        stage: Seq::empty(),
        task: Seq::empty(),
        task_progress: 0,
        subtask: Seq::empty(),
        subtask_progress: 0,
        elapsed_ms: 0,
    }
}

/// The state of a copy entering a stage: no task yet, and the elapsed time.
pub open spec fn stage_state(stage: Seq<char>, elapsed: u64) -> DriveStateView {
    DriveStateView::Copying {
        stage,
        task: Seq::empty(),
        task_progress: 0,
        subtask: Seq::empty(),
        subtask_progress: 0,
        elapsed_ms: elapsed,
    }
}

/// The drive state after a request to begin a copy.
pub open spec fn after_begin(s: DriveStateView) -> DriveStateView {
    if s is Idle {
        copy_started_state()
    } else {
        s
    }
}

/// The drive state after the copy operation reports that it completed.
pub open spec fn after_completed(s: DriveStateView) -> DriveStateView {
    if s is Copying {
        DriveStateView::Success
    } else {
        s
    }
}

/// The drive state after the copy operation reports that it failed with `error`.
pub open spec fn after_failed(s: DriveStateView, error: Seq<char>) -> DriveStateView {
    if s is Copying {
        DriveStateView::Failed { error }
    } else {
        s
    }
}

/// The drive state after a request to reset it.
pub open spec fn after_reset(s: DriveStateView) -> DriveStateView {
    if s is Success || s is Failed {
        DriveStateView::Idle
    } else {
        s
    }
}

/// The drive state after the operating system reports the drive.
pub open spec fn after_os_update(s: DriveStateView) -> DriveStateView {
    if s is Disconnected {
        DriveStateView::Idle
    } else {
        s
    }
}

/// The stage of a copy operation while MakeMKV gathers the disc information.
pub open spec fn info_stage() -> Seq<char> {
    "Gathering Disc Info"@
}

/// The stage of a copy operation while MakeMKV copies the disc.
pub open spec fn copy_stage() -> Seq<char> {
    "Copying Disc"@
}

/// The refusal of a request sent to the wrong actor.
pub fn wrong_drive_error() -> (e: DriveError)
    ensures
        e is InvalidDriveRequest,
{
    DriveError::InvalidDriveRequest
}

impl DriveActor {
    /// The actor of a drive that has not reported yet: disconnected, named `name`.
    pub fn new(name: &str, serial_number: &str, now: u64) -> (a: DriveActor)
        ensures
            a.drive.name@ == name@,
            a.drive.serial_number@ == serial_number@,
            a.drive.path@.len() == 0,
            a.drive.hostname@.len() == 0,
            a.drive.disc@ is NoDisc,
            a.drive.state@ is Disconnected,
            a.worker is None,
            !a.cancellable,
            a.copy_started is None,
            a.last_update == now,
            !a.info_pending,
            !a.copy_pending,
    {
        let mut drive = OpticalDrive::disconnected(serial_number);
        drive.name = name.to_owned();
        DriveActor {
            drive,
            worker: None,
            cancellable: false,
            copy_started: None,
            last_update: now,
            info_pending: false,
            copy_pending: false,
        }
    }

    /// The request is for this actor's drive.
    pub fn accepts(&self, serial_number: &str) -> (b: bool)
        ensures
            b == (self.drive.serial_number@ == serial_number@),
    {
        crate::devices::str_equal(self.drive.serial_number.as_str(), serial_number)
    }

    /// The elapsed time of the running copy operation.
    fn elapsed(&self, now: u64) -> (e: u64)
        ensures
            e == elapsed_at(self.copy_started, now),
    {
        match self.copy_started {
            Some(t) => if now >= t {
                now - t
            } else {
                0
            },
            None => 0,
        }
    }

    /// Begin copying a disc: allowed only when the drive is idle. The drive starts copying and
    /// the copy can be cancelled from now on.
    pub fn begin_copy_disc(&mut self, now: u64) -> (r: Result<(), DriveError>)
        ensures
            same_drive(final(self).drive, old(self).drive),
            final(self).worker == old(self).worker,
            final(self).info_pending == old(self).info_pending,
            final(self).copy_pending == old(self).copy_pending,
            final(self).last_update == old(self).last_update,
            r is Ok <==> old(self).drive.state@ is Idle,
            final(self).drive.state@ == after_begin(old(self).drive.state@),
            r is Ok ==> final(self).drive.state@ == copy_started_state() && final(self).cancellable
                && final(self).copy_started == Some(now),
            r matches Err(e) ==> names_state(e, old(self).drive.state@) && final(self).drive.state@
                == old(self).drive.state@ && final(self).cancellable == old(self).cancellable
                && final(self).copy_started == old(self).copy_started,
    {
        if self.drive.state.is_idle() {
            self.drive.state = OpticalDriveState::Copying {
                stage: String::new(),
                task: String::new(),
                task_progress: 0,
                subtask: String::new(),
                subtask_progress: 0,
                elapsed_ms: 0,
            };
            self.cancellable = true;
            self.copy_started = Some(now);
            Ok(())
        } else {
            Err(refuse(&self.drive.state))
        }
    }

    /// Cancel an in-progress copy operation: allowed only while copying, and only once. The
    /// pending MakeMKV results are dropped. On success, gives the worker node that must be
    /// told to cancel its command, if the drive is attached to one.
    pub fn cancel_copy_disc(&mut self) -> (r: Result<Option<String>, DriveError>)
        ensures
            same_drive(final(self).drive, old(self).drive),
            final(self).drive.state@ == old(self).drive.state@,
            final(self).worker == old(self).worker,
            final(self).copy_started == old(self).copy_started,
            final(self).last_update == old(self).last_update,
            r is Ok <==> old(self).drive.state@ is Copying && old(self).cancellable,
            r matches Ok(w) ==> w == old(self).worker && !final(self).cancellable
                && !final(self).info_pending && !final(self).copy_pending,
            r matches Err(e) ==> final(self).cancellable == old(self).cancellable
                && final(self).info_pending == old(self).info_pending
                && final(self).copy_pending == old(self).copy_pending && (if old(self).drive.state@ is Copying { e is CancelTokenNone } else { names_state(e, old(self).drive.state@) }),
    {
        if !self.drive.state.is_copying() {
            return Err(refuse(&self.drive.state));
        }
        if !self.cancellable {
            return Err(DriveError::CancelTokenNone);
        }
        self.cancellable = false;
        self.info_pending = false;
        self.copy_pending = false;
        Ok(self.worker.clone())
    }

    /// Check the status of the drive for stale data: an idle drive that has not had a status
    /// update for the timeout becomes disconnected; a copying drive gets its elapsed time
    /// updated.
    pub fn check_status(&mut self, now: u64) -> (r: Result<(), DriveError>)
        requires
            old(self).drive.state@ is Copying ==> now < old(self).last_update + DRIVE_TIMEOUT_MS,
        ensures
            r is Ok,
            same_drive(final(self).drive, old(self).drive),
            final(self).worker == old(self).worker,
            final(self).cancellable == old(self).cancellable,
            final(self).copy_started == old(self).copy_started,
            final(self).last_update == old(self).last_update,
            final(self).info_pending == old(self).info_pending,
            final(self).copy_pending == old(self).copy_pending,
            match old(self).drive.state@ {
                DriveStateView::Idle => final(self).drive.state@ == if now >= old(self).last_update
                    + DRIVE_TIMEOUT_MS {
                    DriveStateView::Disconnected
                } else {
                    DriveStateView::Idle
                },
                DriveStateView::Copying {
                    stage,
                    task,
                    task_progress,
                    subtask,
                    subtask_progress,
                    ..
                } => final(self).drive.state@ == (DriveStateView::Copying {
                    stage,
                    task,
                    task_progress,
                    subtask,
                    subtask_progress,
                    elapsed_ms: elapsed_at(old(self).copy_started, now),
                }),
                _ => final(self).drive.state@ == old(self).drive.state@,
            },
    {
        let timed_out = now >= self.last_update && now - self.last_update >= DRIVE_TIMEOUT_MS;
        let elapsed = self.elapsed(now);
        match &mut self.drive.state {
            OpticalDriveState::Idle => {
                if timed_out {
                    self.drive.state = OpticalDriveState::Disconnected;
                }
            },
            OpticalDriveState::Copying { elapsed_ms, .. } => {
                *elapsed_ms = elapsed;
            },
            _ => {},
        }
        Ok(())
    }

    /// The copy operation completed: a copying drive succeeds. The copy can no longer be
    /// cancelled.
    pub fn copy_completed(&mut self) -> (r: Result<(), DriveError>)
        ensures
            same_drive(final(self).drive, old(self).drive),
            final(self).worker == old(self).worker,
            final(self).last_update == old(self).last_update,
            final(self).info_pending == old(self).info_pending,
            final(self).copy_pending == old(self).copy_pending,
            !final(self).cancellable,
            final(self).copy_started is None,
            r is Ok <==> old(self).drive.state@ is Copying,
            r is Ok ==> final(self).drive.state@ is Success,
            final(self).drive.state@ == after_completed(old(self).drive.state@),
            r matches Err(e) ==> names_state(e, old(self).drive.state@) && final(self).drive.state@
                == old(self).drive.state@,
    {
        self.copy_started = None;
        self.cancellable = false;
        if self.drive.state.is_copying() {
            self.drive.state = OpticalDriveState::Success;
            Ok(())
        } else {
            Err(refuse(&self.drive.state))
        }
    }

    /// The copy operation failed: a copying drive fails with the error. The copy can no longer
    /// be cancelled.
    pub fn copy_failed(&mut self, error: String) -> (r: Result<(), DriveError>)
        ensures
            same_drive(final(self).drive, old(self).drive),
            final(self).worker == old(self).worker,
            final(self).last_update == old(self).last_update,
            final(self).info_pending == old(self).info_pending,
            final(self).copy_pending == old(self).copy_pending,
            !final(self).cancellable,
            final(self).copy_started is None,
            r is Ok <==> old(self).drive.state@ is Copying,
            r is Ok ==> final(self).drive.state@ == (DriveStateView::Failed { error: error@ }),
            final(self).drive.state@ == after_failed(old(self).drive.state@, error@),
            r matches Err(e) ==> names_state(e, old(self).drive.state@) && final(self).drive.state@
                == old(self).drive.state@,
    {
        self.copy_started = None;
        self.cancellable = false;
        if self.drive.state.is_copying() {
            self.drive.state = OpticalDriveState::Failed { error };
            Ok(())
        } else {
            Err(refuse(&self.drive.state))
        }
    }

    /// Update the copy progress from the progress of the running MakeMKV command; the stage
    /// stays.
    pub fn makemkv_progress(
        &mut self,
        op: String,
        op_prog: u8,
        subop: String,
        subop_prog: u8,
        now: u64,
    ) -> (r: Result<(), DriveError>)
        ensures
            same_drive(final(self).drive, old(self).drive),
            final(self).worker == old(self).worker,
            final(self).cancellable == old(self).cancellable,
            final(self).copy_started == old(self).copy_started,
            final(self).last_update == old(self).last_update,
            final(self).info_pending == old(self).info_pending,
            final(self).copy_pending == old(self).copy_pending,
            r is Ok <==> old(self).drive.state@ is Copying,
            old(self).drive.state@ matches DriveStateView::Copying { stage, .. } ==> final(self).drive.state@ == (DriveStateView::Copying {
                stage,
                task: op@,
                task_progress: op_prog,
                subtask: subop@,
                subtask_progress: subop_prog,
                elapsed_ms: elapsed_at(old(self).copy_started, now),
            }),
            r matches Err(e) ==> names_state(e, old(self).drive.state@) && final(self).drive.state@
                == old(self).drive.state@,
    {
        let elapsed = self.elapsed(now);
        match &mut self.drive.state {
            OpticalDriveState::Copying {
                task,
                task_progress,
                subtask,
                subtask_progress,
                elapsed_ms,
                ..
            } => {
                *task = op;
                *task_progress = op_prog;
                *subtask = subop;
                *subtask_progress = subop_prog;
                *elapsed_ms = elapsed;
                Ok(())
            },
            _ => Err(refuse(&self.drive.state)),
        }
    }

    /// Resets the drive's state back to `Idle` after a copy that succeeded or failed.
    pub fn reset(&mut self) -> (r: Result<(), DriveError>)
        ensures
            same_drive(final(self).drive, old(self).drive),
            final(self).worker == old(self).worker,
            final(self).cancellable == old(self).cancellable,
            final(self).copy_started == old(self).copy_started,
            final(self).last_update == old(self).last_update,
            final(self).info_pending == old(self).info_pending,
            final(self).copy_pending == old(self).copy_pending,
            r is Ok <==> (old(self).drive.state@ is Success || old(self).drive.state@ is Failed),
            r is Ok ==> final(self).drive.state@ is Idle,
            final(self).drive.state@ == after_reset(old(self).drive.state@),
            r matches Err(e) ==> names_state(e, old(self).drive.state@) && final(self).drive.state@
                == old(self).drive.state@,
    {
        match self.drive.state {
            OpticalDriveState::Success | OpticalDriveState::Failed { .. } => {
                self.drive.state = OpticalDriveState::Idle;
                Ok(())
            },
            _ => Err(refuse(&self.drive.state)),
        }
    }

    /// Starts a MakeMKV command for the copy: the drive enters the command's stage (even when
    /// the request is then refused because a command is already running). On success the
    /// command's result is awaited, and the worker node to run it on is given, if any.
    fn start_command(&mut self, stage: &str, info: bool, now: u64) -> (r: Result<
        Option<String>,
        DriveError,
    >)
        ensures
            same_drive(final(self).drive, old(self).drive),
            final(self).worker == old(self).worker,
            final(self).cancellable == old(self).cancellable,
            final(self).copy_started == old(self).copy_started,
            final(self).last_update == old(self).last_update,
            r is Ok <==> old(self).drive.state@ is Copying && !old(self).info_pending
                && !old(self).copy_pending,
            old(self).drive.state@ is Copying ==> final(self).drive.state@ == stage_state(
                stage@,
                elapsed_at(old(self).copy_started, now),
            ),
            !(old(self).drive.state@ is Copying) ==> final(self).drive.state@
                == old(self).drive.state@,
            r matches Ok(w) ==> w == old(self).worker && final(self).info_pending == (
            old(self).info_pending || info) && final(self).copy_pending == (old(self).copy_pending
                || !info),
            r matches Err(e) ==> final(self).info_pending == old(self).info_pending
                && final(self).copy_pending == old(self).copy_pending && (if old(self).drive.state@ is Copying { e is AlreadyRunning } else { names_state(e, old(self).drive.state@) }),
    {
        if !self.drive.state.is_copying() {
            return Err(refuse(&self.drive.state));
        }
        let elapsed = self.elapsed(now);
        self.drive.state = OpticalDriveState::Copying {
            stage: stage.to_owned(),
            task: String::new(),
            task_progress: 0,
            subtask: String::new(),
            subtask_progress: 0,
            elapsed_ms: elapsed,
        };
        if self.info_pending || self.copy_pending {
            return Err(DriveError::AlreadyRunning);
        }
        if info {
            self.info_pending = true;
        } else {
            self.copy_pending = true;
        }
        Ok(self.worker.clone())
    }

    /// Starts MakeMKV's info command for the copy, in the stage "Gathering Disc Info".
    pub fn run_makemkv_info(&mut self, now: u64) -> (r: Result<Option<String>, DriveError>)
        ensures
            same_drive(final(self).drive, old(self).drive),
            final(self).worker == old(self).worker,
            final(self).cancellable == old(self).cancellable,
            final(self).copy_started == old(self).copy_started,
            final(self).last_update == old(self).last_update,
            final(self).copy_pending == old(self).copy_pending,
            r is Ok <==> old(self).drive.state@ is Copying && !old(self).info_pending
                && !old(self).copy_pending,
            old(self).drive.state@ is Copying ==> final(self).drive.state@ == stage_state(
                info_stage(),
                elapsed_at(old(self).copy_started, now),
            ),
            !(old(self).drive.state@ is Copying) ==> final(self).drive.state@
                == old(self).drive.state@,
            r matches Ok(w) ==> w == old(self).worker && final(self).info_pending,
            r matches Err(e) ==> final(self).info_pending == old(self).info_pending && (if old(self).drive.state@ is Copying { e is AlreadyRunning } else { names_state(e, old(self).drive.state@) }),
    {
        self.start_command("Gathering Disc Info", true, now)
    }

    /// Starts MakeMKV's copy command for the copy, in the stage "Copying Disc".
    pub fn run_makemkv_copy(&mut self, now: u64) -> (r: Result<Option<String>, DriveError>)
        ensures
            same_drive(final(self).drive, old(self).drive),
            final(self).worker == old(self).worker,
            final(self).cancellable == old(self).cancellable,
            final(self).copy_started == old(self).copy_started,
            final(self).last_update == old(self).last_update,
            final(self).info_pending == old(self).info_pending,
            r is Ok <==> old(self).drive.state@ is Copying && !old(self).info_pending
                && !old(self).copy_pending,
            old(self).drive.state@ is Copying ==> final(self).drive.state@ == stage_state(
                copy_stage(),
                elapsed_at(old(self).copy_started, now),
            ),
            !(old(self).drive.state@ is Copying) ==> final(self).drive.state@
                == old(self).drive.state@,
            r matches Ok(w) ==> w == old(self).worker && final(self).copy_pending,
            r matches Err(e) ==> final(self).copy_pending == old(self).copy_pending && (if old(self).drive.state@ is Copying { e is AlreadyRunning } else { names_state(e, old(self).drive.state@) }),
    {
        self.start_command("Copying Disc", false, now)
    }

    /// The MakeMKV info command completed: its result is to be delivered to the waiting copy
    /// operation, if one waits for it.
    pub fn makemkv_info_complete(&mut self) -> (r: Result<(), DriveError>)
        ensures
            same_drive(final(self).drive, old(self).drive),
            final(self).drive.state@ == old(self).drive.state@,
            final(self).worker == old(self).worker,
            final(self).cancellable == old(self).cancellable,
            final(self).copy_started == old(self).copy_started,
            final(self).last_update == old(self).last_update,
            final(self).copy_pending == old(self).copy_pending,
            !final(self).info_pending,
            r is Ok <==> old(self).info_pending,
            r matches Err(e) ==> e is NotRunning,
    {
        if self.info_pending {
            self.info_pending = false;
            Ok(())
        } else {
            Err(DriveError::NotRunning)
        }
    }

    /// The MakeMKV copy command completed: its result is to be delivered to the waiting copy
    /// operation, if one waits for it.
    pub fn makemkv_copy_complete(&mut self) -> (r: Result<(), DriveError>)
        ensures
            same_drive(final(self).drive, old(self).drive),
            final(self).drive.state@ == old(self).drive.state@,
            final(self).worker == old(self).worker,
            final(self).cancellable == old(self).cancellable,
            final(self).copy_started == old(self).copy_started,
            final(self).last_update == old(self).last_update,
            final(self).info_pending == old(self).info_pending,
            !final(self).copy_pending,
            r is Ok <==> old(self).copy_pending,
            r matches Err(e) ==> e is NotRunning,
    {
        if self.copy_pending {
            self.copy_pending = false;
            Ok(())
        } else {
            Err(DriveError::NotRunning)
        }
    }

    /// A MakeMKV command failed: the failure is to be delivered to the callers that wait for a
    /// command's result, the info command's caller (the first flag) and the copy command's
    /// caller (the second flag), which then no longer wait. The reply is accepted when such a
    /// caller waited, or when the copy can no longer be cancelled.
    pub fn makemkv_failed(&mut self) -> (r: (bool, bool, Result<(), DriveError>))
        ensures
            same_drive(final(self).drive, old(self).drive),
            final(self).drive.state@ == old(self).drive.state@,
            final(self).worker == old(self).worker,
            final(self).cancellable == old(self).cancellable,
            final(self).copy_started == old(self).copy_started,
            final(self).last_update == old(self).last_update,
            !final(self).info_pending,
            !final(self).copy_pending,
            r.0 == old(self).info_pending,
            r.1 == old(self).copy_pending,
            r.2 is Ok <==> old(self).info_pending || old(self).copy_pending || !old(self).cancellable,
            r.2 matches Err(e) ==> e is NotRunning,
    {
        let info = self.info_pending;
        let copy = self.copy_pending;
        self.info_pending = false;
        self.copy_pending = false;
        let reply = if info || copy || !self.cancellable {
            Ok(())
        } else {
            Err(DriveError::NotRunning)
        };
        (info, copy, reply)
    }

    /// Update drive information based on information from the OS: the path, hostname and disc
    /// always, the worker node it came from, and a disconnected drive becomes idle. The name and
    /// serial number never change.
    pub fn update_from_os(&mut self, drive: OsOpticalDrive, worker: Option<String>, now: u64) -> (r:
        Result<(), DriveError>)
        ensures
            r is Ok,
            final(self).last_update == now,
            final(self).worker == worker,
            final(self).drive.name@ == old(self).drive.name@,
            final(self).drive.serial_number@ == old(self).drive.serial_number@,
            final(self).drive.path@ == drive.path@,
            final(self).drive.hostname@ == drive.hostname@,
            final(self).drive.disc@ == drive.disc@,
            final(self).drive.state@ == after_os_update(old(self).drive.state@),
            final(self).cancellable == old(self).cancellable,
            final(self).copy_started == old(self).copy_started,
            final(self).info_pending == old(self).info_pending,
            final(self).copy_pending == old(self).copy_pending,
    {
        self.last_update = now;
        self.worker = worker;
        self.drive.path = drive.path;
        self.drive.hostname = drive.hostname;
        self.drive.disc = drive.disc;
        if self.drive.state.is_disconnected() {
            self.drive.state = OpticalDriveState::Idle;
        }
        Ok(())
    }

    /// A request that this actor does not support.
    pub fn unsupported_request(&self, request: &str) -> (r: Result<(), DriveError>)
        ensures
            r matches Err(DriveError::UnsupportedRequest { request: n }) && n@ == request@,
    {
        Err(DriveError::UnsupportedRequest { request: request.to_owned() })
    }
}

/// The drive actor of a worker node: it runs MakeMKV for the control node and relays the
/// results; `running` says whether a command runs (it has a cancellation token).
#[derive(Debug)]
pub struct WorkerActor {
    /// The drive as the operating system last reported it.
    pub drive: OsOpticalDrive,
    /// A MakeMKV command is running.
    pub running: bool,
}

impl WorkerActor {
    /// The worker actor of a drive that has not been reported yet.
    pub fn new(serial_number: &str) -> (w: WorkerActor)
        ensures
            w.drive.serial_number@ == serial_number@,
            w.drive.path@.len() == 0,
            w.drive.hostname@.len() == 0,
            w.drive.disc@ is NoDisc,
            !w.running,
    {
        WorkerActor {
            drive: OsOpticalDrive {
                path: String::new(),
                serial_number: serial_number.to_owned(),
                disc: DiscState::NoDisc,
                hostname: String::new(),
            },
            running: false,
        }
    }

    /// Cancels the running command, if any; gives whether there was one to cancel.
    pub fn makemkv_cancel(&mut self) -> (was_running: bool)
        ensures
            was_running == old(self).running,
            !final(self).running,
            final(self).drive == old(self).drive,
    {
        let was_running = self.running;
        self.running = false;
        was_running
    }

    /// Progress is relayed to the control node only while a command runs: updates that come
    /// after the command stopped are dropped.
    pub fn relays_progress(&self) -> (b: bool)
        ensures
            b == self.running,
    {
        self.running
    }

    /// A command completed: it no longer runs, and its output is relayed.
    pub fn makemkv_complete(&mut self)
        ensures
            !final(self).running,
            final(self).drive == old(self).drive,
    {
        self.running = false;
    }

    /// A command failed: the failure is relayed when the command was running, and dropped when
    /// it had been cancelled.
    pub fn makemkv_failed(&mut self) -> (relay: bool)
        ensures
            relay == old(self).running,
            !final(self).running,
            final(self).drive == old(self).drive,
    {
        let relay = self.running;
        self.running = false;
        relay
    }

    /// Starts a MakeMKV command for the control node, unless one already runs.
    pub fn run_makemkv(&mut self) -> (r: Result<(), DriveError>)
        ensures
            r is Ok <==> !old(self).running,
            r matches Err(e) ==> e is AlreadyRunning,
            final(self).running,
            final(self).drive == old(self).drive,
    {
        if self.running {
            return Err(DriveError::AlreadyRunning);
        }
        self.running = true;
        Ok(())
    }

    /// The operating system reported the drive; the report is relayed to the control node.
    pub fn update_from_os(&mut self, drive: OsOpticalDrive)
        ensures
            final(self).drive == drive,
            final(self).running == old(self).running,
    {
        self.drive = drive;
    }
}

/// The kinds of drive state that the user interface shows.
#[derive(Clone, Copy, Debug, PartialEq, Eq, Structural)]
pub enum DriveStateKind {
    Disconnected,
    Idle,
    Copying,
    Success,
    Failed,
}

/// What the user interface shows of a copy in progress.
#[derive(Debug)]
pub struct CopyingDisplay {
    pub stage: String,
    pub elapsed_time: String,
    pub task: String,
    pub task_progress: u8,
    pub subtask: String,
    pub subtask_progress: u8,
}

/// The properties of the user interface that a drive's status sets: the disc label and the
/// state always, the copy's details while copying, and the error message after a failure.
#[derive(Debug)]
pub struct StatusDisplay {
    pub disc_label: String,
    pub state: DriveStateKind,
    pub copying: Option<CopyingDisplay>,
    pub error_message: Option<String>,
}

/// The kind of a drive state.
pub open spec fn state_kind(s: DriveStateView) -> DriveStateKind {
    match s {
        DriveStateView::Disconnected => DriveStateKind::Disconnected,
        DriveStateView::Idle => DriveStateKind::Idle,
        DriveStateView::Copying { .. } => DriveStateKind::Copying,
        DriveStateView::Success => DriveStateKind::Success,
        DriveStateView::Failed { .. } => DriveStateKind::Failed,
    }
}

/// The status of a drive as the user interface shows it.
pub fn status_display(drive: &OpticalDrive) -> (d: StatusDisplay)
    ensures
        d.disc_label@ == (match drive.disc@ {
            DiscView::NoDisc => Seq::empty(),
            DiscView::Inserted { label, .. } => label,
        }),
        d.state == state_kind(drive.state@),
        match drive.state@ {
            DriveStateView::Copying { stage, task, task_progress, subtask, subtask_progress, elapsed_ms } => {
                &&& d.copying matches Some(c)
                &&& c.stage@ == stage
                &&& c.elapsed_time@ == elapsed_text((elapsed_ms / 1000) as nat)
                &&& c.task@ == task
                &&& c.task_progress == task_progress
                &&& c.subtask@ == subtask
                &&& c.subtask_progress == subtask_progress
            },
            _ => d.copying is None,
        },
        match drive.state@ {
            DriveStateView::Failed { error } => d.error_message matches Some(m) && m@ == error,
            _ => d.error_message is None,
        },
{
    let disc_label = match &drive.disc {
        DiscState::NoDisc => String::new(),
        DiscState::Inserted { label, .. } => label.clone(),
    };
    match &drive.state {
        OpticalDriveState::Disconnected => StatusDisplay {
            disc_label,
            state: DriveStateKind::Disconnected,
            copying: None,
            error_message: None,
        },
        OpticalDriveState::Idle => StatusDisplay {
            disc_label,
            state: DriveStateKind::Idle,
            copying: None,
            error_message: None,
        },
        OpticalDriveState::Copying { stage, task, task_progress, subtask, subtask_progress, elapsed_ms } =>
            StatusDisplay {
            disc_label,
            state: DriveStateKind::Copying,
            copying: Some(
                CopyingDisplay {
                    stage: stage.clone(),
                    elapsed_time: format_elapsed_time(*elapsed_ms / 1000),
                    task: task.clone(),
                    task_progress: *task_progress,
                    subtask: subtask.clone(),
                    subtask_progress: *subtask_progress,
                },
            ),
            error_message: None,
        },
        OpticalDriveState::Success => StatusDisplay {
            disc_label,
            state: DriveStateKind::Success,
            copying: None,
            error_message: None,
        },
        OpticalDriveState::Failed { error } => StatusDisplay {
            disc_label,
            state: DriveStateKind::Failed,
            copying: None,
            error_message: Some(error.clone()),
        },
    }
}

/// The elapsed time of a copy as `hh:mm:ss`, each part with at least two digits.
pub open spec fn elapsed_text(total_seconds: nat) -> Seq<char> {
    two_digit_text(total_seconds / 3600) + seq![':'] + two_digit_text((total_seconds % 3600) / 60)
        + seq![':'] + two_digit_text(total_seconds % 60)
}

/// Formats an elapsed time, given in seconds, as `hh:mm:ss`.
pub fn format_elapsed_time(total_seconds: u64) -> (s: String)
    ensures
        s@ == elapsed_text(total_seconds as nat),
{
    proof {
        reveal_strlit(":");
    }
    let hours = total_seconds / 3600;
    let minutes = (total_seconds % 3600) / 60;
    let seconds = total_seconds % 60;
    let mut s = String::new();
    push_two_digits(&mut s, hours);
    s.append(":");
    push_two_digits(&mut s, minutes);
    s.append(":");
    push_two_digits(&mut s, seconds);
    assert(s@ =~= elapsed_text(total_seconds as nat));
    s
}


/// A copy returns the drive to idle: from idle, a copy that begins, completes and is reset
/// leaves the drive idle again, and so does one that fails.
pub proof fn lemma_copy_cycle(error: Seq<char>)
    ensures
        after_begin(DriveStateView::Idle) is Copying,
        after_reset(after_completed(after_begin(DriveStateView::Idle))) == DriveStateView::Idle,
        after_reset(after_failed(after_begin(DriveStateView::Idle), error)) == DriveStateView::Idle,
{
}

/// A copy begins only on an idle drive: a disconnected drive must first be reported by the
/// operating system, and a drive whose last copy succeeded or failed must first be reset.
pub proof fn lemma_begin_needs_idle(s: DriveStateView)
    ensures
        !(s is Idle) ==> after_begin(s) == s,
        s is Disconnected ==> after_begin(after_os_update(s)) is Copying,
        (s is Success || s is Failed) ==> after_begin(after_reset(s)) is Copying,
        s is Copying ==> after_begin(s) == s,
{
}

/// The outcome of a copy is kept until it is acknowledged: while it is shown, neither a
/// report from the operating system nor another copy report changes it; only a reset does.
pub proof fn lemma_outcome_kept_until_reset(s: DriveStateView, error: Seq<char>)
    requires
        s is Success || s is Failed,
    ensures
        after_os_update(s) == s,
        after_completed(s) == s,
        after_failed(s, error) == s,
        after_begin(s) == s,
        after_reset(s) == DriveStateView::Idle,
{
}

/// A drive reported by the operating system is never disconnected afterwards; it becomes
/// disconnected only when the status check finds it idle past the timeout.
pub proof fn lemma_os_update_connects(s: DriveStateView)
    ensures
        !(after_os_update(s) is Disconnected),
        after_os_update(after_os_update(s)) == after_os_update(s),
{
}

} // verus!

verus! {

/// The persistent copy disc form information, restored between application runs.
#[derive(Debug, Default)]
pub struct FormData {
    pub media_type: String,
    pub title: String,
    pub year: String,
    pub disc_number: String,
    pub season_number: String,
    pub storage_location: String,
    pub memo: String,
}

/// Persistent drive information.
#[derive(Debug, Default)]
pub struct Data {
    /// The current form data.
    pub form: FormData,
}

/// Data used to update the form data: the fields that are `Some` change, the others stay.
#[derive(Debug)]
pub struct FormDataUpdate {
    pub media_type: Option<String>,
    pub title: Option<String>,
    pub year: Option<String>,
    pub disc_number: Option<String>,
    pub season_number: Option<String>,
    pub storage_location: Option<String>,
    pub memo: Option<String>,
}

/// The value of a field after an update.
pub open spec fn updated(current: String, update: Option<String>) -> Seq<char> {
    match update {
        Some(v) => v@,
        None => current@,
    }
}

/// The update changes no field.
pub open spec fn is_empty_update(u: FormDataUpdate) -> bool {
    &&& u.media_type is None
    &&& u.title is None
    &&& u.year is None
    &&& u.disc_number is None
    &&& u.season_number is None
    &&& u.storage_location is None
    &&& u.memo is None
}

impl Default for FormDataUpdate {
    fn default() -> (u: FormDataUpdate)
        ensures
            is_empty_update(u),
    {
        FormDataUpdate {
            media_type: None,
            title: None,
            year: None,
            disc_number: None,
            season_number: None,
            storage_location: None,
            memo: None,
        }
    }
}

impl FormDataUpdate {
    /// An update of the media type alone.
    pub fn media_type(value: String) -> (u: FormDataUpdate)
        ensures
            u.media_type matches Some(v) && v@ == value@,
            is_empty_update(FormDataUpdate { media_type: None, ..u }),
    {
        FormDataUpdate { media_type: Some(value), ..FormDataUpdate::default() }
    }

    /// An update of the title alone.
    pub fn title(value: String) -> (u: FormDataUpdate)
        ensures
            u.title matches Some(v) && v@ == value@,
            is_empty_update(FormDataUpdate { title: None, ..u }),
    {
        FormDataUpdate { title: Some(value), ..FormDataUpdate::default() }
    }

    /// An update of the release year alone.
    pub fn year(value: String) -> (u: FormDataUpdate)
        ensures
            u.year matches Some(v) && v@ == value@,
            is_empty_update(FormDataUpdate { year: None, ..u }),
    {
        FormDataUpdate { year: Some(value), ..FormDataUpdate::default() }
    }

    /// An update of the disc number alone.
    pub fn disc_number(value: String) -> (u: FormDataUpdate)
        ensures
            u.disc_number matches Some(v) && v@ == value@,
            is_empty_update(FormDataUpdate { disc_number: None, ..u }),
    {
        FormDataUpdate { disc_number: Some(value), ..FormDataUpdate::default() }
    }

    /// An update of the season number alone.
    pub fn season_number(value: String) -> (u: FormDataUpdate)
        ensures
            u.season_number matches Some(v) && v@ == value@,
            is_empty_update(FormDataUpdate { season_number: None, ..u }),
    {
        FormDataUpdate { season_number: Some(value), ..FormDataUpdate::default() }
    }

    /// An update of the storage location alone.
    pub fn storage_location(value: String) -> (u: FormDataUpdate)
        ensures
            u.storage_location matches Some(v) && v@ == value@,
            is_empty_update(FormDataUpdate { storage_location: None, ..u }),
    {
        FormDataUpdate { storage_location: Some(value), ..FormDataUpdate::default() }
    }

    /// An update of the memo alone.
    pub fn memo(value: String) -> (u: FormDataUpdate)
        ensures
            u.memo matches Some(v) && v@ == value@,
            is_empty_update(FormDataUpdate { memo: None, ..u }),
    {
        FormDataUpdate { memo: Some(value), ..FormDataUpdate::default() }
    }
}

impl Data {
    /// Applies an update to the form data; gives whether anything changed, which is when the
    /// data must be saved.
    pub fn apply_update(&mut self, update: FormDataUpdate) -> (changed: bool)
        ensures
            changed == !is_empty_update(update),
            final(self).form.media_type@ == updated(old(self).form.media_type, update.media_type),
            final(self).form.title@ == updated(old(self).form.title, update.title),
            final(self).form.year@ == updated(old(self).form.year, update.year),
            final(self).form.disc_number@ == updated(old(self).form.disc_number, update.disc_number),
            final(self).form.season_number@ == updated(old(self).form.season_number, update.season_number),
            final(self).form.storage_location@ == updated(
                old(self).form.storage_location,
                update.storage_location,
            ),
            final(self).form.memo@ == updated(old(self).form.memo, update.memo),
    {
        let mut should_save = false;
        if let Some(media_type) = update.media_type {
            self.form.media_type = media_type;
            should_save = true;
        }
        if let Some(title) = update.title {
            self.form.title = title;
            should_save = true;
        }
        if let Some(year) = update.year {
            self.form.year = year;
            should_save = true;
        }
        if let Some(disc_number) = update.disc_number {
            self.form.disc_number = disc_number;
            should_save = true;
        }
        if let Some(season_number) = update.season_number {
            self.form.season_number = season_number;
            should_save = true;
        }
        if let Some(storage_location) = update.storage_location {
            self.form.storage_location = storage_location;
            should_save = true;
        }
        if let Some(memo) = update.memo {
            self.form.memo = memo;
            should_save = true;
        }
        should_save
    }
}


} // verus!
