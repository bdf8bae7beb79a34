//! Admission of a push notification as a build task.

use vstd::prelude::*;
use vstd::string::*;

use crate::github::PushEvent;
use crate::http::Webhook;
use crate::queue::{after_offer, offer, TaskQueue};
use crate::runner::{BranchKey, BranchSpec, Task, TaskView};
use crate::text::{after, has_prefix, same_text, strip_prefix};

verus! {

/// Why a push was not queued for a build.
#[derive(Debug, Clone, Copy, PartialEq, Eq, Structural)]
pub enum PushHookError {
    /// The reference that moved is not a branch.
    NotBranch,
    /// The queue did not admit the task.
    SendError,
}

impl PushHookError {
    /// The HTTP status that answers the push: a client error for a reference
    /// that is no branch, and a server error when the queue did not admit
    /// the task.
    pub fn status_code(&self) -> (status: u16)
        ensures
            status == match *self {
                PushHookError::NotBranch => 400u16,
                PushHookError::SendError => 500u16,
            },
    {
        match self {
            PushHookError::NotBranch => 400,
            PushHookError::SendError => 500,
        }
    }

    /// The text shown for this error.
    pub fn message(&self) -> (text: String)
        ensures
            text@ == match *self {
                PushHookError::NotBranch => "ref must have format refs/heads/<branch>"@,
                PushHookError::SendError => "failed to queue build task"@,
            },
    {
        match self {
            PushHookError::NotBranch => String::from_str(
                "ref must have format refs/heads/<branch>",
            ),
            PushHookError::SendError => String::from_str("failed to queue build task"),
        }
    }
}

/// The branch that `reference` names, if it names one: what follows
/// `refs/heads/`.
pub open spec fn branch_of(reference: Seq<char>) -> Option<Seq<char>> {
    if has_prefix(reference, "refs/heads/"@) {
        Some(after(reference, "refs/heads/"@.len()))
    } else {
        None
    }
}

/// The task that a push to `branch` asks for: deploy the commit the branch
/// now points to, from the repository's address.
pub open spec fn task_for(event: PushEvent, branch: Seq<char>) -> TaskView {
    TaskView {
        key: BranchKey {
            owner: event.repository.owner.login@,
            repo: event.repository.name@,
            branch,
        },
        commit_hash: event.after@,
        url: event.repository.url@,
    }
}

/// What `event` asks for: a push of something that is no branch is refused,
/// a push to a branch other than `master` asks for nothing, and a push to
/// `master` asks for a build.
pub open spec fn admission(event: PushEvent) -> Result<Option<TaskView>, PushHookError> {
    match branch_of(event.reference@) {
        None => Err(PushHookError::NotBranch),
        Some(branch) => if branch != "master"@ {
            Ok(None)
        } else {
            Ok(Some(task_for(event, branch)))
        },
    }
}

/// Handles one authenticated push. A push to `master` is offered to the
/// queue as a task, without waiting, and answered with `OK` if the queue
/// admitted it. A push to any other branch is accepted and ignored: it is
/// answered with `OK` too, whatever the state of the queue, and leaves the
/// queue as it is. A reference that is no branch is refused.
pub fn push_hook(hook: Webhook<PushEvent>, tx: &mut TaskQueue) -> (answer: Result<
    String,
    PushHookError,
>)
    ensures
        match admission(hook.0) {
            Err(refusal) => answer matches Err(error) && error == refusal && final(tx)@ == old(
                tx,
            )@,
            Ok(None) => answer matches Ok(text) && text@ == "OK"@ && final(tx)@ == old(tx)@,
            Ok(Some(task)) => final(tx)@ == after_offer(old(tx)@, task) && match answer {
                Ok(text) => offer(old(tx)@, task) is Ok && text@ == "OK"@,
                Err(error) => offer(old(tx)@, task) is Err && error == PushHookError::SendError,
            },
        },
{
    let Webhook(event) = hook;
    let branch = match strip_prefix(event.reference.as_str(), "refs/heads/") {
        None => {
            return Err(PushHookError::NotBranch);
        },
        Some(branch) => branch,
    };
    if !same_text(branch.as_str(), "master") {
        return Ok(String::from_str("OK"));
    }
    let task = Task {
        branch_spec: BranchSpec {
            owner: event.repository.owner.login,
            repo: event.repository.name,
            branch,
        },
        url: event.repository.url,
        commit_hash: event.after,
    };
    match tx.try_send(task) {
        Ok(()) => Ok(String::from_str("OK")),
        Err(_) => Err(PushHookError::SendError),
    }
}

} // verus!
