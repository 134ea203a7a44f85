//! The copy operation: the decisions between its steps.
//!
//! A copy operation runs a fixed sequence of steps (connect to the database, check the disc,
//! create the records, run MakeMKV's info and copy commands, store their logs, ...). Each step is
//! outside work; what happens after it depends only on which step ran and what came of it. That
//! decision is [`next_copy_action`]: continue with the next step, fail with an error message,
//! cancel, or complete.

use vstd::prelude::*;

use crate::models::{CopyOperation, CopyParameters, OperationState, Reference};

verus! {

/// The steps of a copy operation, in the order they run.
#[derive(Clone, Copy, Debug, PartialEq, Eq, Structural)]
pub enum CopyStep {
    /// Connect to the database.
    Connect,
    /// Check that a disc is in the drive.
    CheckDisc,
    /// Get or create the database record of the drive.
    DriveRecord,
    /// Get or create the database record of the host.
    HostRecord,
    /// Create the database record of the copy operation.
    CreateRecord,
    /// Check whether the operation was cancelled before it starts running.
    CheckCancelled,
    /// Mark the operation as running in the database.
    MarkRunning,
    /// Find the path of the operation's inbox folder.
    ResolveOutput,
    /// Check that the inbox folder does not exist yet.
    CheckOutputFree,
    /// Create the inbox folder.
    CreateOutputDir,
    /// Ask the drive actor to run MakeMKV's info command.
    SendInfo,
    /// Wait for the info command's result, then check for cancellation.
    AwaitInfo,
    /// Save the disc information to the inbox folder.
    SaveDiscInfo,
    /// Store the disc information in the database.
    StoreMetadata,
    /// Store the info command's log in the database.
    StoreInfoLog,
    /// Ask the drive actor to run MakeMKV's copy command.
    SendCopy,
    /// Wait for the copy command's result, then check for cancellation.
    AwaitCopy,
    /// Store the copy command's log in the database.
    StoreCopyLog,
    /// Create the title and video records of the copied files.
    CreateTitles,
    /// Mark the operation as completed in the database.
    MarkCompleted,
}

/// What came of a step.
#[derive(Clone, Copy, Debug, PartialEq, Eq, Structural)]
pub enum StepResult {
    /// The step did its work.
    Succeeded,
    /// The step's work failed.
    Failed,
    /// The reply channel of a command request closed before the reply came.
    ReplyLost,
    /// The cancellation token was found cancelled.
    Cancelled,
}

/// The errors that end a copy operation.
#[derive(Clone, Copy, Debug, PartialEq, Eq, Structural)]
pub enum ErrorMessage {
    ConnectFailed,
    CopyCommandResponseError,
    CopyCommandSendError,
    CreateVideosAndTitlesFailed,
    DbOpCopyOperationCreateFailed,
    DbOpHostFailed,
    DbOpOpticalDriveFailed,
    DbOpSetCopyLogFailed,
    DbOpSetInfoLogFailed,
    DbOpSetMetadataFailed,
    DbOpSetStateCompleted,
    DbOpSetStateRunning,
    DiscInfoSaveFailed,
    DiscInfoSerializationError,
    InfoCommandResponseError,
    InfoCommandSendError,
    InvalidDiscState,
    MkvCopyCommandFailed,
    MkvInfoCommandFailed,
    OutputDirCreateFailed,
    OutputDirExists,
}

/// What to do after a step.
#[derive(Clone, Copy, Debug, PartialEq, Eq, Structural)]
pub enum CopyAction {
    /// Run this step next.
    Run(CopyStep),
    /// Stop: report the error to the drive and, when the operation has a database record
    /// that the failure should be written to (`record`), mark it failed.
    Fail { error: ErrorMessage, record: bool },
    /// Stop: mark the operation cancelled and report the cancellation to the drive.
    Cancel,
    /// Stop: report that the copy completed.
    Complete,
}

/// The position of a step in the sequence.
pub open spec fn step_index(s: CopyStep) -> int {
    match s {
        CopyStep::Connect => 0,
        CopyStep::CheckDisc => 1,
        CopyStep::DriveRecord => 2,
        CopyStep::HostRecord => 3,
        CopyStep::CreateRecord => 4,
        CopyStep::CheckCancelled => 5,
        CopyStep::MarkRunning => 6,
        CopyStep::ResolveOutput => 7,
        CopyStep::CheckOutputFree => 8,
        CopyStep::CreateOutputDir => 9,
        CopyStep::SendInfo => 10,
        CopyStep::AwaitInfo => 11,
        CopyStep::SaveDiscInfo => 12,
        CopyStep::StoreMetadata => 13,
        CopyStep::StoreInfoLog => 14,
        CopyStep::SendCopy => 15,
        CopyStep::AwaitCopy => 16,
        CopyStep::StoreCopyLog => 17,
        CopyStep::CreateTitles => 18,
        CopyStep::MarkCompleted => 19,
    }
}

/// The step that follows a step, if any.
pub open spec fn next_step(s: CopyStep) -> Option<CopyStep> {
    match s {
        CopyStep::Connect => Some(CopyStep::CheckDisc),
        CopyStep::CheckDisc => Some(CopyStep::DriveRecord),
        CopyStep::DriveRecord => Some(CopyStep::HostRecord),
        CopyStep::HostRecord => Some(CopyStep::CreateRecord),
        CopyStep::CreateRecord => Some(CopyStep::CheckCancelled),
        CopyStep::CheckCancelled => Some(CopyStep::MarkRunning),
        CopyStep::MarkRunning => Some(CopyStep::ResolveOutput),
        CopyStep::ResolveOutput => Some(CopyStep::CheckOutputFree),
        CopyStep::CheckOutputFree => Some(CopyStep::CreateOutputDir),
        CopyStep::CreateOutputDir => Some(CopyStep::SendInfo),
        CopyStep::SendInfo => Some(CopyStep::AwaitInfo),
        CopyStep::AwaitInfo => Some(CopyStep::SaveDiscInfo),
        CopyStep::SaveDiscInfo => Some(CopyStep::StoreMetadata),
        CopyStep::StoreMetadata => Some(CopyStep::StoreInfoLog),
        CopyStep::StoreInfoLog => Some(CopyStep::SendCopy),
        CopyStep::SendCopy => Some(CopyStep::AwaitCopy),
        CopyStep::AwaitCopy => Some(CopyStep::StoreCopyLog),
        CopyStep::StoreCopyLog => Some(CopyStep::CreateTitles),
        CopyStep::CreateTitles => Some(CopyStep::MarkCompleted),
        CopyStep::MarkCompleted => None,
    }
}

/// The steps at which the cancellation token is consulted.
pub open spec fn checks_cancellation(s: CopyStep) -> bool {
    s == CopyStep::CheckCancelled || s == CopyStep::AwaitInfo || s == CopyStep::AwaitCopy
}

/// The steps that wait for a command's reply.
pub open spec fn awaits_reply(s: CopyStep) -> bool {
    s == CopyStep::AwaitInfo || s == CopyStep::AwaitCopy
}

/// The results a step can have: the cancellation checks succeed or find the operation
/// cancelled; the waits for a reply can also fail or lose the reply; every other step succeeds
/// or fails.
pub open spec fn possible_result(s: CopyStep, r: StepResult) -> bool {
    match r {
        StepResult::Succeeded => true,
        StepResult::Failed => s != CopyStep::CheckCancelled,
        StepResult::ReplyLost => awaits_reply(s),
        StepResult::Cancelled => checks_cancellation(s),
    }
}

/// The error that ends the operation when a step fails, or loses its reply.
pub open spec fn failure_error(s: CopyStep, r: StepResult) -> ErrorMessage {
    match s {
        CopyStep::Connect => ErrorMessage::ConnectFailed,
        CopyStep::CheckDisc => ErrorMessage::InvalidDiscState,
        CopyStep::DriveRecord => ErrorMessage::DbOpOpticalDriveFailed,
        CopyStep::HostRecord => ErrorMessage::DbOpHostFailed,
        CopyStep::CreateRecord => ErrorMessage::DbOpCopyOperationCreateFailed,
        CopyStep::MarkRunning => ErrorMessage::DbOpSetStateRunning,
        CopyStep::ResolveOutput => ErrorMessage::DbOpSetStateRunning,
        CopyStep::CheckOutputFree => ErrorMessage::OutputDirExists,
        CopyStep::CreateOutputDir => ErrorMessage::OutputDirCreateFailed,
        CopyStep::SendInfo => ErrorMessage::InfoCommandSendError,
        CopyStep::AwaitInfo => if r == StepResult::ReplyLost {
            ErrorMessage::InfoCommandResponseError
        } else {
            ErrorMessage::MkvInfoCommandFailed
        },
        CopyStep::SaveDiscInfo => ErrorMessage::DiscInfoSaveFailed,
        CopyStep::StoreMetadata => ErrorMessage::DbOpSetMetadataFailed,
        CopyStep::StoreInfoLog => ErrorMessage::DbOpSetInfoLogFailed,
        CopyStep::SendCopy => ErrorMessage::CopyCommandSendError,
        CopyStep::AwaitCopy => if r == StepResult::ReplyLost {
            ErrorMessage::CopyCommandResponseError
        } else {
            ErrorMessage::MkvCopyCommandFailed
        },
        CopyStep::StoreCopyLog => ErrorMessage::DbOpSetCopyLogFailed,
        CopyStep::CreateTitles => ErrorMessage::CreateVideosAndTitlesFailed,
        CopyStep::MarkCompleted => ErrorMessage::DbOpSetCopyLogFailed,
        CopyStep::CheckCancelled => ErrorMessage::DbOpSetStateRunning,
    }
}

/// A failure at this step is written to the operation's database record: from the check of
/// the inbox folder on.
pub open spec fn failure_recorded(s: CopyStep) -> bool {
    step_index(s) >= step_index(CopyStep::CheckOutputFree)
}

/// The action after a step.
pub open spec fn copy_action(s: CopyStep, r: StepResult) -> CopyAction {
    match r {
        StepResult::Cancelled => CopyAction::Cancel,
        StepResult::Succeeded => match next_step(s) {
            Some(n) => CopyAction::Run(n),
            None => CopyAction::Complete,
        },
        _ => CopyAction::Fail { error: failure_error(s, r), record: failure_recorded(s) },
    }
}

/// Returns whether a step can have the result: the check that a caller of
/// [`next_copy_action`] makes of results it did not get from verified code.
pub fn is_possible_result(step: CopyStep, result: StepResult) -> (b: bool)
    ensures
        b == possible_result(step, result),
{
    match result {
        StepResult::Succeeded => true,
        StepResult::Failed => step != CopyStep::CheckCancelled,
        StepResult::ReplyLost => step == CopyStep::AwaitInfo || step == CopyStep::AwaitCopy,
        StepResult::Cancelled => step == CopyStep::CheckCancelled || step == CopyStep::AwaitInfo
            || step == CopyStep::AwaitCopy,
    }
}

/// The step that a copy operation starts with.
pub fn first_copy_step() -> (s: CopyStep)
    ensures
        s == CopyStep::Connect,
        step_index(s) == 0,
{
    CopyStep::Connect
}

/// Decides what follows a step of the copy operation from what came of it.
///
/// A success runs the next step, or completes the operation after the last one. A cancellation
/// found at one of the checks cancels it. A failure, or a lost reply, ends it with the error
/// message of the step; the failure is written to the operation's record once the operation
/// has started working on the inbox folder.
pub fn next_copy_action(step: CopyStep, result: StepResult) -> (a: CopyAction)
    requires
        possible_result(step, result),
    ensures
        a == copy_action(step, result),
{
    match result {
        StepResult::Cancelled => CopyAction::Cancel,
        StepResult::Succeeded => match step {
            CopyStep::Connect => CopyAction::Run(CopyStep::CheckDisc),
            CopyStep::CheckDisc => CopyAction::Run(CopyStep::DriveRecord),
            CopyStep::DriveRecord => CopyAction::Run(CopyStep::HostRecord),
            CopyStep::HostRecord => CopyAction::Run(CopyStep::CreateRecord),
            CopyStep::CreateRecord => CopyAction::Run(CopyStep::CheckCancelled),
            CopyStep::CheckCancelled => CopyAction::Run(CopyStep::MarkRunning),
            CopyStep::MarkRunning => CopyAction::Run(CopyStep::ResolveOutput),
            CopyStep::ResolveOutput => CopyAction::Run(CopyStep::CheckOutputFree),
            CopyStep::CheckOutputFree => CopyAction::Run(CopyStep::CreateOutputDir),
            CopyStep::CreateOutputDir => CopyAction::Run(CopyStep::SendInfo),
            CopyStep::SendInfo => CopyAction::Run(CopyStep::AwaitInfo),
            CopyStep::AwaitInfo => CopyAction::Run(CopyStep::SaveDiscInfo),
            CopyStep::SaveDiscInfo => CopyAction::Run(CopyStep::StoreMetadata),
            CopyStep::StoreMetadata => CopyAction::Run(CopyStep::StoreInfoLog),
            CopyStep::StoreInfoLog => CopyAction::Run(CopyStep::SendCopy),
            CopyStep::SendCopy => CopyAction::Run(CopyStep::AwaitCopy),
            CopyStep::AwaitCopy => CopyAction::Run(CopyStep::StoreCopyLog),
            CopyStep::StoreCopyLog => CopyAction::Run(CopyStep::CreateTitles),
            CopyStep::CreateTitles => CopyAction::Run(CopyStep::MarkCompleted),
            CopyStep::MarkCompleted => CopyAction::Complete,
        },
        _ => {
            let lost = result == StepResult::ReplyLost;
            let (error, record) = match step {
                CopyStep::Connect => (ErrorMessage::ConnectFailed, false),
                CopyStep::CheckDisc => (ErrorMessage::InvalidDiscState, false),
                CopyStep::DriveRecord => (ErrorMessage::DbOpOpticalDriveFailed, false),
                CopyStep::HostRecord => (ErrorMessage::DbOpHostFailed, false),
                CopyStep::CreateRecord => (ErrorMessage::DbOpCopyOperationCreateFailed, false),
                CopyStep::CheckCancelled => (ErrorMessage::DbOpSetStateRunning, false),
                CopyStep::MarkRunning => (ErrorMessage::DbOpSetStateRunning, false),
                CopyStep::ResolveOutput => (ErrorMessage::DbOpSetStateRunning, false),
                CopyStep::CheckOutputFree => (ErrorMessage::OutputDirExists, true),
                CopyStep::CreateOutputDir => (ErrorMessage::OutputDirCreateFailed, true),
                CopyStep::SendInfo => (ErrorMessage::InfoCommandSendError, true),
                CopyStep::AwaitInfo => if lost {
                    (ErrorMessage::InfoCommandResponseError, true)
                } else {
                    (ErrorMessage::MkvInfoCommandFailed, true)
                },
                CopyStep::SaveDiscInfo => (ErrorMessage::DiscInfoSaveFailed, true),
                CopyStep::StoreMetadata => (ErrorMessage::DbOpSetMetadataFailed, true),
                CopyStep::StoreInfoLog => (ErrorMessage::DbOpSetInfoLogFailed, true),
                CopyStep::SendCopy => (ErrorMessage::CopyCommandSendError, true),
                CopyStep::AwaitCopy => if lost {
                    (ErrorMessage::CopyCommandResponseError, true)
                } else {
                    (ErrorMessage::MkvCopyCommandFailed, true)
                },
                CopyStep::StoreCopyLog => (ErrorMessage::DbOpSetCopyLogFailed, true),
                CopyStep::CreateTitles => (ErrorMessage::CreateVideosAndTitlesFailed, true),
                CopyStep::MarkCompleted => (ErrorMessage::DbOpSetCopyLogFailed, true),
            };
            CopyAction::Fail { error, record }
        },
    }
}


/// The step at a position of the sequence.
pub open spec fn step_at(i: int) -> CopyStep {
    if i <= 0 {
        CopyStep::Connect
    } else if i == 1 {
        CopyStep::CheckDisc
    } else if i == 2 {
        CopyStep::DriveRecord
    } else if i == 3 {
        CopyStep::HostRecord
    } else if i == 4 {
        CopyStep::CreateRecord
    } else if i == 5 {
        CopyStep::CheckCancelled
    } else if i == 6 {
        CopyStep::MarkRunning
    } else if i == 7 {
        CopyStep::ResolveOutput
    } else if i == 8 {
        CopyStep::CheckOutputFree
    } else if i == 9 {
        CopyStep::CreateOutputDir
    } else if i == 10 {
        CopyStep::SendInfo
    } else if i == 11 {
        CopyStep::AwaitInfo
    } else if i == 12 {
        CopyStep::SaveDiscInfo
    } else if i == 13 {
        CopyStep::StoreMetadata
    } else if i == 14 {
        CopyStep::StoreInfoLog
    } else if i == 15 {
        CopyStep::SendCopy
    } else if i == 16 {
        CopyStep::AwaitCopy
    } else if i == 17 {
        CopyStep::StoreCopyLog
    } else if i == 18 {
        CopyStep::CreateTitles
    } else {
        CopyStep::MarkCompleted
    }
}

/// The number of steps of a copy operation.
pub open spec fn step_count() -> int {
    20
}

/// When every step succeeds, the operation runs all the steps in order, from connecting to the
/// database to marking the operation completed, and then completes.
pub proof fn lemma_all_succeed_completes()
    ensures
        step_at(0) == CopyStep::Connect,
        forall|i: int|
            0 <= i < step_count() - 1 ==> copy_action(#[trigger] step_at(i), StepResult::Succeeded)
                == CopyAction::Run(step_at(i + 1)),
        copy_action(step_at(step_count() - 1), StepResult::Succeeded) == CopyAction::Complete,
        forall|i: int| 0 <= i < step_count() ==> step_index(#[trigger] step_at(i)) == i,
{
}

/// Every step that runs comes later in the sequence than the one before it, so an operation
/// ends after at most as many steps as there are.
pub proof fn lemma_steps_advance(s: CopyStep, r: StepResult)
    ensures
        copy_action(s, r) matches CopyAction::Run(n) ==> step_index(n) == step_index(s) + 1,
        0 <= step_index(s) < step_count(),
{
}

/// Anything but success ends the operation: no step runs after a failure, a lost reply or a
/// cancellation.
pub proof fn lemma_only_success_continues(s: CopyStep, r: StepResult)
    requires
        possible_result(s, r),
        r != StepResult::Succeeded,
    ensures
        !(copy_action(s, r) is Run),
        !(copy_action(s, r) is Complete),
{
}

/// An operation is cancelled only once its database record exists, so that the cancellation
/// can be written to it; and a failure is written to the record only once it exists.
pub proof fn lemma_record_exists_when_written(s: CopyStep, r: StepResult)
    requires
        possible_result(s, r),
    ensures
        copy_action(s, r) is Cancel ==> step_index(s) > step_index(CopyStep::CreateRecord),
        copy_action(s, r) matches CopyAction::Fail { record, .. } && record ==> step_index(s)
            > step_index(CopyStep::CreateRecord),
{
}

/// Only a cancellation cancels, and a failure or a lost reply always fails the operation with
/// the error of the step that failed, written to the record once the record is in use; a
/// success never stops the operation, but after the last step, where it completes.
pub proof fn lemma_outcomes_of_results(s: CopyStep, r: StepResult)
    ensures
        copy_action(s, r) is Cancel <==> r == StepResult::Cancelled,
        r == StepResult::Failed || r == StepResult::ReplyLost ==> copy_action(s, r) == (CopyAction::Fail {
            error: failure_error(s, r),
            record: step_index(s) >= step_index(CopyStep::CheckOutputFree),
        }),
        copy_action(s, r) is Fail ==> r == StepResult::Failed || r == StepResult::ReplyLost,
        r == StepResult::Succeeded ==> (copy_action(s, r) is Complete <==> s == CopyStep::MarkCompleted),
        r == StepResult::Succeeded && s != CopyStep::MarkCompleted ==> copy_action(s, r) is Run,
{
}

/// The error of a failed step names that step's work: a failed command wait gives the
/// command's failure, and a lost reply gives the command's missing response; the two are
/// never the same.
pub proof fn lemma_command_failures(r: StepResult)
    ensures
        failure_error(CopyStep::AwaitInfo, StepResult::Failed) == ErrorMessage::MkvInfoCommandFailed,
        failure_error(CopyStep::AwaitInfo, StepResult::ReplyLost)
            == ErrorMessage::InfoCommandResponseError,
        failure_error(CopyStep::AwaitCopy, StepResult::Failed) == ErrorMessage::MkvCopyCommandFailed,
        failure_error(CopyStep::AwaitCopy, StepResult::ReplyLost)
            == ErrorMessage::CopyCommandResponseError,
        failure_error(CopyStep::CreateTitles, r) == ErrorMessage::CreateVideosAndTitlesFailed,
        failure_error(CopyStep::Connect, r) == ErrorMessage::ConnectFailed,
{
}

/// The text shown to the user for an error that ended a copy operation.
pub open spec fn user_text(e: ErrorMessage) -> Seq<char> {
    match e {
        ErrorMessage::ConnectFailed => "Database connection failed."@,
        ErrorMessage::CopyCommandResponseError => "System Error (copy-response)."@,
        ErrorMessage::CopyCommandSendError => "System Error (copy-send)."@,
        ErrorMessage::CreateVideosAndTitlesFailed =>
            "Database operation failed: Failed to create title/video data"@,
        ErrorMessage::DbOpCopyOperationCreateFailed =>
            "Database operation failed: Failed to create copy operation record."@,
        ErrorMessage::DbOpHostFailed =>
            "Database operation failed: Failed to get/create host record."@,
        ErrorMessage::DbOpOpticalDriveFailed =>
            "Database operation failed: Failed to get/create drive record."@,
        ErrorMessage::DbOpSetCopyLogFailed =>
            "Database operation failed: Failed to set copy command log."@,
        ErrorMessage::DbOpSetInfoLogFailed =>
            "Database operation failed: Failed to set info command log."@,
        ErrorMessage::DbOpSetMetadataFailed => "Database operation failed: Failed to set metadata."@,
        ErrorMessage::DbOpSetStateCompleted =>
            "Database operation failed: Failed to update state to completed."@,
        ErrorMessage::DbOpSetStateRunning =>
            "Database operation failed: Failed to update state to running."@,
        ErrorMessage::DiscInfoSaveFailed => "Failed to save disc information."@,
        ErrorMessage::DiscInfoSerializationError => "Failed to serialize disc information."@,
        ErrorMessage::InfoCommandResponseError => "System Error (info-response)."@,
        ErrorMessage::InfoCommandSendError => "System Error (info-send)."@,
        ErrorMessage::InvalidDiscState => "Cannot copy from empty drive."@,
        ErrorMessage::MkvCopyCommandFailed => "Copying disc failed."@,
        ErrorMessage::MkvInfoCommandFailed => "Failed to get disc information."@,
        ErrorMessage::OutputDirCreateFailed => "Failed to create output directory."@,
        ErrorMessage::OutputDirExists => "Output directory already exists."@,
    }
}

impl ErrorMessage {
    /// Creates the error message for the user.
    pub fn user_message(&self) -> (m: String)
        ensures
            m@ == user_text(*self),
    {
        let text = match self {
            ErrorMessage::ConnectFailed => "Database connection failed.",
            ErrorMessage::CopyCommandResponseError => "System Error (copy-response).",
            ErrorMessage::CopyCommandSendError => "System Error (copy-send).",
            ErrorMessage::CreateVideosAndTitlesFailed =>
                "Database operation failed: Failed to create title/video data",
            ErrorMessage::DbOpCopyOperationCreateFailed =>
                "Database operation failed: Failed to create copy operation record.",
            ErrorMessage::DbOpHostFailed =>
                "Database operation failed: Failed to get/create host record.",
            ErrorMessage::DbOpOpticalDriveFailed =>
                "Database operation failed: Failed to get/create drive record.",
            ErrorMessage::DbOpSetCopyLogFailed =>
                "Database operation failed: Failed to set copy command log.",
            ErrorMessage::DbOpSetInfoLogFailed =>
                "Database operation failed: Failed to set info command log.",
            ErrorMessage::DbOpSetMetadataFailed =>
                "Database operation failed: Failed to set metadata.",
            ErrorMessage::DbOpSetStateCompleted =>
                "Database operation failed: Failed to update state to completed.",
            ErrorMessage::DbOpSetStateRunning =>
                "Database operation failed: Failed to update state to running.",
            ErrorMessage::DiscInfoSaveFailed => "Failed to save disc information.",
            ErrorMessage::DiscInfoSerializationError => "Failed to serialize disc information.",
            ErrorMessage::InfoCommandResponseError => "System Error (info-response).",
            ErrorMessage::InfoCommandSendError => "System Error (info-send).",
            ErrorMessage::InvalidDiscState => "Cannot copy from empty drive.",
            ErrorMessage::MkvCopyCommandFailed => "Copying disc failed.",
            ErrorMessage::MkvInfoCommandFailed => "Failed to get disc information.",
            ErrorMessage::OutputDirCreateFailed => "Failed to create output directory.",
            ErrorMessage::OutputDirExists => "Output directory already exists.",
        };
        text.to_owned()
    }
}

/// The text reported to the drive when a copy operation is cancelled.
pub open spec fn cancelled_text() -> Seq<char> {
    "Copy operation was cancelled."@
}

/// The failure text reported to the drive when a copy operation is cancelled.
pub fn cancelled_message() -> (m: String)
    ensures
        m@ == cancelled_text(),
{
    "Copy operation was cancelled.".to_owned()
}

/// The state written to the operation's record when it ends without completing: cancelled, or
/// failed for the given reason.
pub fn end_state(action: &CopyAction, reason: String) -> (s: Option<OperationState>)
    ensures
        match action {
            CopyAction::Cancel => s matches Some(OperationState::Cancelled),
            CopyAction::Fail { record, .. } => if *record {
                s matches Some(OperationState::Failed { reason: r }) && r@ == reason@
            } else {
                s is None
            },
            _ => s is None,
        },
{
    match action {
        CopyAction::Cancel => Some(OperationState::Cancelled),
        CopyAction::Fail { record, .. } => if *record {
            Some(OperationState::Failed { reason })
        } else {
            None
        },
        _ => None,
    }
}

/// The record of a copy operation about to be created: the parameters the user chose, the
/// disc's identifier, the drive and host records, and the time it started (seconds since the
/// Unix epoch).
pub fn new_copy_record(
    params: CopyParameters,
    disc_uuid: String,
    drive_id: u32,
    host_id: u32,
    started: i64,
) -> (op: CopyOperation)
    ensures
        op.id == 0,
        op.started == started,
        op.completed == 0,
        op.state is Requested,
        op.media_type == params.media_type,
        op.title@ == params.title@,
        op.year == params.release_year,
        op.disc == params.disc_number,
        op.disc_uuid@ == disc_uuid@,
        op.season == params.season_number,
        op.location@ == params.location@,
        op.memo@ == params.memo@,
        op.metadata@.len() == 0,
        op.drive.id == drive_id && op.drive.value is None,
        op.info_log@.len() == 0,
        op.copy_log@.len() == 0,
        op.host.id == host_id && op.host.value is None,
        op.titles is None,
        op.videos is None,
{
    let base = CopyOperation::default();
    CopyOperation {
        started,
        media_type: params.media_type,
        title: params.title,
        year: params.release_year,
        disc: params.disc_number,
        disc_uuid,
        season: params.season_number,
        location: params.location,
        memo: params.memo,
        drive: Reference { id: drive_id, value: None },
        host: Reference { id: host_id, value: None },
        ..base
    }
}

} // verus!
