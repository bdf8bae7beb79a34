use adm::github::{PushEvent, Repository, User};
use adm::hooks::{push_hook, PushHookError};
use adm::http::Webhook;
use adm::queue::{SendError, TaskQueue};
use adm::runner::{BranchSpec, Task};

fn push_to(reference: &str) -> Webhook<PushEvent> {
    Webhook(PushEvent {
        reference: reference.to_string(),
        before: "0000000000000000000000000000000000000000".to_string(),
        after: "8f3b6a1c2d4e5f60718293a4b5c6d7e8f9a0b1c2".to_string(),
        repository: Repository {
            name: "site".to_string(),
            full_name: "acme/site".to_string(),
            owner: User { login: "acme".to_string() },
            url: "https://example.org/acme/site".to_string(),
        },
        sender: User { login: "alice".to_string() },
    })
}

fn task(branch: &str, commit: &str) -> Task {
    Task {
        branch_spec: BranchSpec {
            owner: "acme".to_string(),
            repo: "site".to_string(),
            branch: branch.to_string(),
        },
        commit_hash: commit.to_string(),
        url: "https://example.org/acme/site".to_string(),
    }
}

#[test]
fn push_to_master_is_queued() {
    let mut queue = TaskQueue::new(4);
    let answer = push_hook(push_to("refs/heads/master"), &mut queue);
    assert_eq!(answer, Ok("OK".to_string()));
    assert_eq!(queue.len(), 1);
    let queued = queue.recv().unwrap();
    assert_eq!(queued, task("master", "8f3b6a1c2d4e5f60718293a4b5c6d7e8f9a0b1c2"));
    assert_eq!(queued.branch_spec.owner, "acme");
    assert_eq!(queued.branch_spec.repo, "site");
    assert_eq!(queued.branch_spec.branch, "master");
    assert_eq!(queued.url, "https://example.org/acme/site");
    assert!(queue.is_empty());
}

#[test]
fn push_to_other_branch_is_accepted_and_ignored() {
    let mut queue = TaskQueue::new(4);
    let answer = push_hook(push_to("refs/heads/feature-x"), &mut queue);
    assert_eq!(answer, Ok("OK".to_string()));
    assert!(queue.is_empty());
}

#[test]
fn push_to_other_branch_is_accepted_whatever_the_queue() {
    let mut full = TaskQueue::new(1);
    assert_eq!(push_hook(push_to("refs/heads/master"), &mut full), Ok("OK".to_string()));
    assert_eq!(push_hook(push_to("refs/heads/master"), &mut full), Err(PushHookError::SendError));
    assert_eq!(push_hook(push_to("refs/heads/feature-x"), &mut full), Ok("OK".to_string()));
    assert_eq!(full.len(), 1);

    let mut closed = TaskQueue::new(1);
    closed.close();
    assert_eq!(push_hook(push_to("refs/heads/feature-x"), &mut closed), Ok("OK".to_string()));
    assert!(closed.is_empty());

    let mut none = TaskQueue::new(0);
    assert_eq!(push_hook(push_to("refs/heads/feature-x"), &mut none), Ok("OK".to_string()));
}

#[test]
fn push_of_a_tag_is_rejected() {
    let mut queue = TaskQueue::new(4);
    let answer = push_hook(push_to("refs/tags/v1.0"), &mut queue);
    assert_eq!(answer, Err(PushHookError::NotBranch));
    assert_eq!(PushHookError::NotBranch.status_code(), 400);
    assert!(queue.is_empty());
}

#[test]
fn reference_must_begin_with_the_branch_prefix() {
    let mut queue = TaskQueue::new(4);
    for reference in ["", "master", "refs/heads", "refs/head/master", "xrefs/heads/master"] {
        assert_eq!(push_hook(push_to(reference), &mut queue), Err(PushHookError::NotBranch));
    }
    for reference in
        ["refs/heads/", "refs/heads/Master", "refs/heads/master/", "refs/heads/refs/heads/master"]
    {
        assert_eq!(push_hook(push_to(reference), &mut queue), Ok("OK".to_string()));
    }
    assert!(queue.is_empty());
}

#[test]
fn full_queue_refuses_the_push() {
    let mut queue = TaskQueue::new(2);
    assert!(push_hook(push_to("refs/heads/master"), &mut queue).is_ok());
    assert!(push_hook(push_to("refs/heads/master"), &mut queue).is_ok());
    let answer = push_hook(push_to("refs/heads/master"), &mut queue);
    assert_eq!(answer, Err(PushHookError::SendError));
    assert_eq!(PushHookError::SendError.status_code(), 500);
    assert_eq!(queue.len(), 2);
}

#[test]
fn closed_queue_refuses_the_push() {
    let mut queue = TaskQueue::new(2);
    queue.close();
    let answer = push_hook(push_to("refs/heads/master"), &mut queue);
    assert_eq!(answer, Err(PushHookError::SendError));
    assert!(queue.is_empty());
}

#[test]
fn push_hook_error_messages() {
    assert_eq!(PushHookError::NotBranch.message(), "ref must have format refs/heads/<branch>");
    assert_eq!(PushHookError::SendError.message(), "failed to queue build task");
}

#[test]
fn queue_hands_tasks_out_in_order() {
    let mut queue = TaskQueue::new(3);
    assert_eq!(queue.capacity(), 3);
    assert_eq!(queue.try_send(task("master", "a1")), Ok(()));
    assert_eq!(queue.try_send(task("master", "b2")), Ok(()));
    assert_eq!(queue.try_send(task("master", "c3")), Ok(()));
    assert_eq!(queue.recv().unwrap().commit_hash, "a1");
    assert_eq!(queue.try_send(task("master", "d4")), Ok(()));
    assert_eq!(queue.recv().unwrap().commit_hash, "b2");
    assert_eq!(queue.recv().unwrap().commit_hash, "c3");
    assert_eq!(queue.recv().unwrap().commit_hash, "d4");
    assert!(queue.recv().is_none());
}

#[test]
fn queue_is_bounded() {
    let mut queue = TaskQueue::new(1);
    assert_eq!(queue.try_send(task("master", "a1")), Ok(()));
    assert_eq!(queue.try_send(task("master", "b2")), Err(SendError::Full));
    assert_eq!(queue.len(), 1);
    assert_eq!(queue.recv().unwrap().commit_hash, "a1");
    assert_eq!(queue.try_send(task("master", "b2")), Ok(()));
}

#[test]
fn queue_without_room_admits_nothing() {
    let mut queue = TaskQueue::new(0);
    assert_eq!(queue.try_send(task("master", "a1")), Err(SendError::Full));
    assert!(queue.is_empty());
}

#[test]
fn closed_queue_can_still_be_drained() {
    let mut queue = TaskQueue::new(2);
    assert_eq!(queue.try_send(task("master", "a1")), Ok(()));
    assert!(!queue.is_closed());
    queue.close();
    assert!(queue.is_closed());
    assert_eq!(queue.try_send(task("master", "b2")), Err(SendError::Closed));
    assert_eq!(queue.recv().unwrap().commit_hash, "a1");
    assert!(queue.recv().is_none());
}

#[test]
fn closed_is_reported_before_full() {
    let mut queue = TaskQueue::new(1);
    assert_eq!(queue.try_send(task("master", "a1")), Ok(()));
    queue.close();
    assert_eq!(queue.try_send(task("master", "b2")), Err(SendError::Closed));
}
