//! The decisions of a sync worker: whether to clone or to update a
//! repository, and what the output of each git command means.
use vstd::prelude::*;
use vstd::utf8::{decode_utf8, valid_utf8};

verus! {

/// The git commands a sync worker runs.
#[derive(Debug, Clone, Copy, PartialEq, Eq, Structural)]
pub enum GitCommand {
    /// `git clone --quiet --recursive <url> <dest>`
    Clone,
    /// `git status --porcelain`, to find unsaved changes.
    Status,
    /// `git fetch --all --quiet --tags --prune --recurse-submodules=yes`
    Fetch,
    /// `git merge --ff-only --quiet FETCH_HEAD`
    Merge,
}

/// Why a repository could not be synchronised.
#[derive(Debug, Clone, PartialEq)]
pub enum SyncError {
    /// The destination exists but is not a git working tree.
    NotARepository,
    /// The working tree has uncommitted changes; `count` lines of them.
    UnsavedChanges { count: usize },
    /// `git` could not be started for the command.
    Launch { command: GitCommand, message: String },
    /// The command ran and failed; `message` is what it printed on stderr.
    CommandFailed { command: GitCommand, message: String },
    /// The output of `git status` was not valid UTF-8.
    UnreadableStatus,
}

/// What a finished command left behind.
#[derive(Debug, Clone, PartialEq)]
pub struct CommandOutput {
    /// Whether it exited with status zero.
    pub success: bool,
    pub stdout: Vec<u8>,
    pub stderr: Vec<u8>,
}

/// What a sync worker is to do next.
#[derive(Debug, PartialEq)]
pub enum SyncAction {
    /// Run this git command, in the destination (or, for a clone, with the
    /// destination as its target).
    Run(GitCommand),
    /// The sync is over, with this outcome.
    Finish(Result<(), SyncError>),
}

/// The mathematical view of a [`SyncError`].
pub enum SyncErrorView {
    NotARepository,
    UnsavedChanges { count: nat },
    Launch { command: GitCommand, message: Seq<char> },
    CommandFailed { command: GitCommand, message: Seq<char> },
    UnreadableStatus,
}

impl View for SyncError {
    type V = SyncErrorView;

    open spec fn view(&self) -> SyncErrorView {
        match self {
            SyncError::NotARepository => SyncErrorView::NotARepository,
            SyncError::UnsavedChanges { count } => SyncErrorView::UnsavedChanges {
                count: *count as nat,
            },
            SyncError::Launch { command, message } => SyncErrorView::Launch {
                command: *command,
                message: message@,
            },
            SyncError::CommandFailed { command, message } => SyncErrorView::CommandFailed {
                command: *command,
                message: message@,
            },
            SyncError::UnreadableStatus => SyncErrorView::UnreadableStatus,
        }
    }
}

/// The view of the outcome of a sync.
pub open spec fn outcome_view(r: Result<(), SyncError>) -> Result<(), SyncErrorView> {
    match r {
        Ok(()) => Ok(()),
        Err(e) => Err(e@),
    }
}

/// The mathematical view of a [`CommandOutput`].
pub struct CommandOutputView {
    pub success: bool,
    pub stdout: Seq<u8>,
    pub stderr: Seq<u8>,
}

impl View for CommandOutput {
    type V = CommandOutputView;

    open spec fn view(&self) -> CommandOutputView {
        CommandOutputView { success: self.success, stdout: self.stdout@, stderr: self.stderr@ }
    }
}

/// The mathematical view of a [`SyncAction`].
pub enum SyncActionView {
    Run(GitCommand),
    Finish(Result<(), SyncErrorView>),
}

impl View for SyncAction {
    type V = SyncActionView;

    open spec fn view(&self) -> SyncActionView {
        match self {
            SyncAction::Run(c) => SyncActionView::Run(*c),
            SyncAction::Finish(r) => SyncActionView::Finish(outcome_view(*r)),
        }
    }
}

/// The byte that ends a line.
pub const NEWLINE: u8 = 10;

/// The number of line feeds in `b`.
pub open spec fn newline_count(b: Seq<u8>) -> nat
    decreases b.len(),
{
    if b.len() == 0 {
        0
    } else {
        newline_count(b.drop_last()) + if b.last() == NEWLINE {
            1nat
        } else {
            0nat
        }
    }
}

proof fn lemma_newline_count_bound(b: Seq<u8>)
    ensures
        newline_count(b) <= b.len(),
    decreases b.len(),
{
    if b.len() > 0 {
        lemma_newline_count_bound(b.drop_last());
    }
}

/// The number of lines of a text: one per line feed, plus a last line that
/// has none.
pub open spec fn line_count(b: Seq<u8>) -> nat {
    newline_count(b) + if b.len() > 0 && b.last() != NEWLINE {
        1nat
    } else {
        0nat
    }
}

/// What stands in for an error message that is not valid UTF-8.
pub open spec fn unreadable_message() -> Seq<char> {
    "<couldn't read the error message>"@
}

/// The text of a command's error output.
pub open spec fn message_of(stderr: Seq<u8>) -> Seq<char> {
    if valid_utf8(stderr) {
        decode_utf8(stderr)
    } else {
        unreadable_message()
    }
}

/// The first thing to do for a repository: clone it where nothing exists
/// yet; otherwise make sure it is a working tree and check it for unsaved
/// changes before updating it.
pub open spec fn first_action_of(dest_exists: bool, is_repository: bool) -> SyncActionView {
    if !dest_exists {
        SyncActionView::Run(GitCommand::Clone)
    } else if !is_repository {
        SyncActionView::Finish(Err(SyncErrorView::NotARepository))
    } else {
        SyncActionView::Run(GitCommand::Status)
    }
}

/// What the output of `git status --porcelain` means: a failure of the
/// command, output that is not text, unsaved changes (one per line), or
/// a clean working tree.
pub open spec fn status_outcome(out: CommandOutputView) -> Result<(), SyncErrorView> {
    if !out.success {
        Err(SyncErrorView::CommandFailed {
            command: GitCommand::Status,
            message: message_of(out.stderr),
        })
    } else if !valid_utf8(out.stdout) {
        Err(SyncErrorView::UnreadableStatus)
    } else if line_count(out.stdout) > 0 {
        Err(SyncErrorView::UnsavedChanges { count: line_count(out.stdout) })
    } else {
        Ok(())
    }
}

/// What a sync worker does after a command, given its output or why it
/// could not be started. A clone ends the sync. An update runs the status
/// check, then the fetch, then the fast-forward merge; the first failure
/// ends it.
pub open spec fn action_after(
    command: GitCommand,
    result: Result<CommandOutputView, Seq<char>>,
) -> SyncActionView {
    match result {
        Err(message) => SyncActionView::Finish(Err(SyncErrorView::Launch { command, message })),
        Ok(out) => {
            if command == GitCommand::Status {
                match status_outcome(out) {
                    Ok(()) => SyncActionView::Run(GitCommand::Fetch),
                    Err(e) => SyncActionView::Finish(Err(e)),
                }
            } else if !out.success {
                SyncActionView::Finish(
                    Err(SyncErrorView::CommandFailed { command, message: message_of(out.stderr) }),
                )
            } else if command == GitCommand::Fetch {
                SyncActionView::Run(GitCommand::Merge)
            } else {
                SyncActionView::Finish(Ok(()))
            }
        },
    }
}

/// A destination that already holds a working tree, as every successful
/// sync leaves it, is brought up to date and never cloned again: the first
/// step checks it for unsaved changes, no step of an update is followed by
/// a clone, and an update whose commands all succeed on a clean tree ends
/// in success.
pub proof fn lemma_existing_repository_is_updated(
    command: GitCommand,
    result: Result<CommandOutputView, Seq<char>>,
)
    requires
        command != GitCommand::Clone,
    ensures
        first_action_of(true, true) == SyncActionView::Run(GitCommand::Status),
        action_after(command, result) != SyncActionView::Run(GitCommand::Clone),
        result matches Ok(out) && out.success && (command == GitCommand::Status ==> valid_utf8(
            out.stdout,
        ) && line_count(out.stdout) == 0) ==> action_after(command, result) == match command {
            GitCommand::Status => SyncActionView::Run(GitCommand::Fetch),
            GitCommand::Fetch => SyncActionView::Run(GitCommand::Merge),
            _ => SyncActionView::Finish(Ok(())),
        },
{
}

/// Relies on String::from_utf8: it accepts exactly the valid UTF-8 byte
/// sequences and keeps their characters.
#[verifier::external_body]
fn decode_text(bytes: Vec<u8>) -> (r: Option<String>)
    ensures
        match r {
            Some(s) => valid_utf8(bytes@) && s@ == decode_utf8(bytes@),
            None => !valid_utf8(bytes@),
        },
{
    String::from_utf8(bytes).ok()
}

/// The text of a command's error output, or a placeholder where it is not
/// valid UTF-8.
pub fn error_message(stderr: Vec<u8>) -> (r: String)
    ensures
        r@ == message_of(stderr@),
{
    match decode_text(stderr) {
        Some(text) => text,
        None => {
            proof {
                reveal_strlit("<couldn't read the error message>");
            }
            String::from_str("<couldn't read the error message>")
        },
    }
}

/// Counts the lines of a command's output.
pub fn count_lines(b: &Vec<u8>) -> (r: usize)
    ensures
        r == line_count(b@),
{
    let mut count: usize = 0;
    let mut i: usize = 0;
    while i < b.len()
        invariant
            i <= b@.len(),
            count == newline_count(b@.subrange(0, i as int)),
            count <= i,
        decreases b@.len() - i,
    {
        assert(b@.subrange(0, i as int + 1).drop_last() =~= b@.subrange(0, i as int));
        if b[i] == NEWLINE {
            count = count + 1;
        }
        i = i + 1;
    }
    assert(b@.subrange(0, b@.len() as int) =~= b@);
    if b.len() > 0 && b[b.len() - 1] != NEWLINE {
        proof {
            lemma_newline_count_bound(b@.drop_last());
        }
        count = count + 1;
    }
    count
}

/// What a sync worker does first, given whether the destination exists
/// and whether it holds a git working tree.
pub fn first_action(dest_exists: bool, is_repository: bool) -> (r: SyncAction)
    ensures
        r@ == first_action_of(dest_exists, is_repository),
{
    if !dest_exists {
        SyncAction::Run(GitCommand::Clone)
    } else if !is_repository {
        SyncAction::Finish(Err(SyncError::NotARepository))
    } else {
        SyncAction::Run(GitCommand::Status)
    }
}

/// Interprets `git status --porcelain`: the repository may be updated only
/// when the command succeeded and reported no change.
pub fn can_update_git_repo(status: CommandOutput) -> (r: Result<(), SyncError>)
    ensures
        outcome_view(r) == status_outcome(status@),
{
    if !status.success {
        let message = error_message(status.stderr);
        return Err(SyncError::CommandFailed { command: GitCommand::Status, message });
    }
    let lines = count_lines(&status.stdout);
    match decode_text(status.stdout) {
        None => Err(SyncError::UnreadableStatus),
        Some(_) => {
            if lines > 0 {
                Err(SyncError::UnsavedChanges { count: lines })
            } else {
                Ok(())
            }
        },
    }
}

/// What a sync worker does after a command: `result` is the command's
/// output, or why it could not be started.
pub fn next_action(command: GitCommand, result: Result<CommandOutput, String>) -> (r: SyncAction)
    ensures
        r@ == action_after(
            command,
            match result {
                Ok(out) => Ok(out@),
                Err(message) => Err(message@),
            },
        ),
{
    match result {
        Err(message) => SyncAction::Finish(Err(SyncError::Launch { command, message })),
        Ok(out) => {
            match command {
                GitCommand::Status => match can_update_git_repo(out) {
                    Ok(()) => SyncAction::Run(GitCommand::Fetch),
                    Err(e) => SyncAction::Finish(Err(e)),
                },
                _ => {
                    if !out.success {
                        let message = error_message(out.stderr);
                        SyncAction::Finish(Err(SyncError::CommandFailed { command, message }))
                    } else {
                        match command {
                            GitCommand::Fetch => SyncAction::Run(GitCommand::Merge),
                            _ => SyncAction::Finish(Ok(())),
                        }
                    }
                },
            }
        },
    }
}

} // verus!
