use artie::copy::{
    cancelled_message, end_state, first_copy_step, new_copy_record, next_copy_action, CopyAction,
    CopyStep, ErrorMessage, StepResult,
};
use artie::models::{CopyParameters, MediaType, OperationState};

#[test]
fn all_steps_succeeding_complete_the_copy() {
    let mut step = first_copy_step();
    assert_eq!(step, CopyStep::Connect);
    let mut ran = vec![step];
    loop {
        match next_copy_action(step, StepResult::Succeeded) {
            CopyAction::Run(next) => {
                step = next;
                ran.push(step);
            },
            CopyAction::Complete => break,
            other => panic!("Unexpected action {:?}", other),
        }
    }
    assert_eq!(ran.len(), 20);
    assert_eq!(ran[4], CopyStep::CreateRecord);
    assert_eq!(ran[5], CopyStep::CheckCancelled);
    assert_eq!(ran[19], CopyStep::MarkCompleted);
}

#[test]
fn failures_before_the_inbox_folder_are_not_recorded() {
    assert_eq!(
        next_copy_action(CopyStep::Connect, StepResult::Failed),
        CopyAction::Fail { error: ErrorMessage::ConnectFailed, record: false }
    );
    assert_eq!(
        next_copy_action(CopyStep::CheckDisc, StepResult::Failed),
        CopyAction::Fail { error: ErrorMessage::InvalidDiscState, record: false }
    );
    assert_eq!(
        next_copy_action(CopyStep::MarkRunning, StepResult::Failed),
        CopyAction::Fail { error: ErrorMessage::DbOpSetStateRunning, record: false }
    );
    assert_eq!(
        next_copy_action(CopyStep::CheckOutputFree, StepResult::Failed),
        CopyAction::Fail { error: ErrorMessage::OutputDirExists, record: true }
    );
}

#[test]
fn replies_and_commands_fail_differently() {
    assert_eq!(
        next_copy_action(CopyStep::AwaitInfo, StepResult::ReplyLost),
        CopyAction::Fail { error: ErrorMessage::InfoCommandResponseError, record: true }
    );
    assert_eq!(
        next_copy_action(CopyStep::AwaitInfo, StepResult::Failed),
        CopyAction::Fail { error: ErrorMessage::MkvInfoCommandFailed, record: true }
    );
    assert_eq!(
        next_copy_action(CopyStep::AwaitCopy, StepResult::ReplyLost),
        CopyAction::Fail { error: ErrorMessage::CopyCommandResponseError, record: true }
    );
    assert_eq!(
        next_copy_action(CopyStep::AwaitCopy, StepResult::Failed),
        CopyAction::Fail { error: ErrorMessage::MkvCopyCommandFailed, record: true }
    );
}

#[test]
fn cancellation_is_checked_after_the_record_exists() {
    for step in [CopyStep::CheckCancelled, CopyStep::AwaitInfo, CopyStep::AwaitCopy] {
        assert_eq!(next_copy_action(step, StepResult::Cancelled), CopyAction::Cancel);
    }
    assert_eq!(cancelled_message(), "Copy operation was cancelled.");
}

#[test]
fn user_messages() {
    assert_eq!(ErrorMessage::ConnectFailed.user_message(), "Database connection failed.");
    assert_eq!(ErrorMessage::InvalidDiscState.user_message(), "Cannot copy from empty drive.");
    assert_eq!(ErrorMessage::OutputDirExists.user_message(), "Output directory already exists.");
    assert_eq!(
        ErrorMessage::DbOpSetCopyLogFailed.user_message(),
        "Database operation failed: Failed to set copy command log."
    );
    assert_eq!(ErrorMessage::CopyCommandSendError.user_message(), "System Error (copy-send).");
}

#[test]
fn end_states() {
    assert!(matches!(end_state(&CopyAction::Cancel, String::new()), Some(OperationState::Cancelled)));
    match end_state(&CopyAction::Fail { error: ErrorMessage::OutputDirExists, record: true }, String::from("OutputDirExists")) {
        Some(OperationState::Failed { reason }) => assert_eq!(reason, "OutputDirExists"),
        _ => panic!("Expected a failed state"),
    }
    assert!(end_state(&CopyAction::Fail { error: ErrorMessage::ConnectFailed, record: false }, String::new()).is_none());
    assert!(end_state(&CopyAction::Complete, String::new()).is_none());
}

#[test]
fn copy_record_from_parameters() {
    let params = CopyParameters {
        media_type: MediaType::Show,
        title: String::from("Show"),
        release_year: 2001,
        season_number: 2,
        disc_number: 3,
        location: String::from("Shelf"),
        memo: String::from("memo"),
    };
    let op = new_copy_record(params, String::from("uuid"), 7, 9, 1_700_000_000);
    assert_eq!(op.id, 0);
    assert_eq!(op.started, 1_700_000_000);
    assert_eq!(op.title, "Show");
    assert_eq!(op.season, 2);
    assert_eq!(op.disc, 3);
    assert_eq!(op.year, 2001);
    assert_eq!(op.disc_uuid, "uuid");
    assert_eq!(op.drive.id, 7);
    assert_eq!(op.host.id, 9);
    assert!(matches!(op.state, OperationState::Requested));
}
