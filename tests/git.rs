use repo_backup::git::{can_update_git_repo, count_lines, error_message, first_action, next_action};
use repo_backup::{CommandOutput, GitCommand, SyncAction, SyncError};

fn output(success: bool, stdout: &str, stderr: &[u8]) -> CommandOutput {
    CommandOutput { success, stdout: stdout.as_bytes().to_vec(), stderr: stderr.to_vec() }
}

#[test]
fn directory_isnt_a_git_repo() {
    let action = first_action(true, false);

    assert_eq!(action, SyncAction::Finish(Err(SyncError::NotARepository)));
}

#[test]
fn git_directory_with_unsaved_changes() {
    let status = output(true, "?? blah.txt\n?? second.txt\n", b"");

    let err = can_update_git_repo(status).unwrap_err();

    assert_eq!(err, SyncError::UnsavedChanges { count: 2 });
}

#[test]
fn happy_git_directory() {
    assert_eq!(first_action(true, true), SyncAction::Run(GitCommand::Status));
    assert!(can_update_git_repo(output(true, "", b"")).is_ok());
}

#[test]
fn clone_a_repo() {
    assert_eq!(first_action(false, false), SyncAction::Run(GitCommand::Clone));
    let done = next_action(GitCommand::Clone, Ok(output(true, "", b"")));
    assert_eq!(done, SyncAction::Finish(Ok(())));
}

#[test]
fn clone_and_then_update() {
    assert_eq!(first_action(false, false), SyncAction::Run(GitCommand::Clone));
    assert_eq!(
        next_action(GitCommand::Clone, Ok(output(true, "", b""))),
        SyncAction::Finish(Ok(()))
    );

    // The clone now exists: the next sync updates it.
    let mut action = first_action(true, true);
    let mut commands = Vec::new();
    while let SyncAction::Run(command) = action {
        commands.push(command);
        action = next_action(command, Ok(output(true, "", b"")));
    }
    assert_eq!(commands, vec![GitCommand::Status, GitCommand::Fetch, GitCommand::Merge]);
    assert_eq!(action, SyncAction::Finish(Ok(())));
}

#[test]
fn failed_clone_reports_stderr() {
    let action = next_action(GitCommand::Clone, Ok(output(false, "", b"fatal: no such repo")));
    assert_eq!(
        action,
        SyncAction::Finish(Err(SyncError::CommandFailed {
            command: GitCommand::Clone,
            message: String::from("fatal: no such repo"),
        }))
    );
}

#[test]
fn non_fast_forward_merge_fails() {
    let action = next_action(GitCommand::Merge, Ok(output(false, "", b"Not possible to fast-forward")));
    assert_eq!(
        action,
        SyncAction::Finish(Err(SyncError::CommandFailed {
            command: GitCommand::Merge,
            message: String::from("Not possible to fast-forward"),
        }))
    );
}

#[test]
fn failed_fetch_stops_the_update() {
    let action = next_action(GitCommand::Fetch, Ok(output(false, "", b"network down")));
    assert!(matches!(
        action,
        SyncAction::Finish(Err(SyncError::CommandFailed { command: GitCommand::Fetch, .. }))
    ));
}

#[test]
fn git_that_cannot_start_is_reported() {
    let action = next_action(GitCommand::Status, Err(String::from("No such file")));
    assert_eq!(
        action,
        SyncAction::Finish(Err(SyncError::Launch {
            command: GitCommand::Status,
            message: String::from("No such file"),
        }))
    );
}

#[test]
fn unsaved_changes_stop_the_update() {
    let action = next_action(GitCommand::Status, Ok(output(true, " M src/lib.rs", b"")));
    assert_eq!(action, SyncAction::Finish(Err(SyncError::UnsavedChanges { count: 1 })));
}

#[test]
fn failing_status_check() {
    let err = can_update_git_repo(output(false, "", b"not a git repository")).unwrap_err();
    assert_eq!(
        err,
        SyncError::CommandFailed {
            command: GitCommand::Status,
            message: String::from("not a git repository"),
        }
    );
}

#[test]
fn status_output_that_is_not_text() {
    let status = CommandOutput { success: true, stdout: vec![0xff, 0xfe, b'\n'], stderr: vec![] };
    assert_eq!(can_update_git_repo(status), Err(SyncError::UnreadableStatus));
}

#[test]
fn unreadable_error_messages_are_replaced() {
    assert_eq!(error_message(vec![0xff, 0x00]), "<couldn't read the error message>");
    assert_eq!(error_message(b"boom".to_vec()), "boom");
}

#[test]
fn lines_are_counted_like_str_lines() {
    for text in ["", "a", "a\n", "a\nb", "a\nb\n", "\n", "\n\n", "a\r\nb\r\n"] {
        assert_eq!(count_lines(&text.as_bytes().to_vec()), text.lines().count(), "{:?}", text);
    }
}
