use adm::runner::git::{
    checkout, open_or_clone, parse_commit_id, pull_repo, GitError, ObjectId, Operation,
    SyncError, SyncState, Synchronizer,
};

const COMMIT: &str = "8f3b6a1c2d4e5f60718293a4b5c6d7e8f9a0b1c2";

fn commit_id() -> ObjectId {
    ObjectId([
        0x8f, 0x3b, 0x6a, 0x1c, 0x2d, 0x4e, 0x5f, 0x60, 0x71, 0x82, 0x93, 0xa4, 0xb5, 0xc6, 0xd7,
        0xe8, 0xf9, 0xa0, 0xb1, 0xc2,
    ])
}

fn error(message: &str) -> GitError {
    GitError { code: -3, class: 9, message: message.to_string() }
}

fn fresh() -> Synchronizer {
    Synchronizer::new(
        "https://example.org/acme/site".to_string(),
        "/srv/acme/site/master".to_string(),
        COMMIT.to_string(),
    )
}

#[test]
fn commit_id_is_read_digit_by_digit() {
    assert_eq!(parse_commit_id(COMMIT), Some(commit_id()));
    assert_eq!(parse_commit_id(&COMMIT.to_uppercase()), Some(commit_id()));
}

#[test]
fn short_commit_id_is_filled_with_zeros() {
    let mut bytes = [0u8; 20];
    bytes[0] = 0xab;
    bytes[1] = 0xc0;
    assert_eq!(parse_commit_id("abc"), Some(ObjectId(bytes)));
    let mut bytes = [0u8; 20];
    bytes[0] = 0x10;
    assert_eq!(parse_commit_id("1"), Some(ObjectId(bytes)));
}

#[test]
fn malformed_commit_id_is_refused() {
    assert_eq!(parse_commit_id(""), None);
    assert_eq!(parse_commit_id("master"), None);
    assert_eq!(parse_commit_id("8f3b6a1c2d4e5f60718293a4b5c6d7e8f9a0b1c2a"), None);
    assert_eq!(parse_commit_id("8f3b6a1c 2d4e5f60718293a4b5c6d7e8f9a0b1c"), None);
    assert_eq!(parse_commit_id("8f3b6a1c2d4e5f60718293a4b5c6d7e8f9a0b1cg"), None);
    assert_eq!(parse_commit_id("\u{e9}"), None);
}

#[test]
fn present_repository_is_opened() {
    let sync = fresh();
    assert_eq!(
        sync.operation(),
        Some(Operation::Open { path: "/srv/acme/site/master".to_string() })
    );
    let sync = sync.advance(Ok(()));
    assert_eq!(sync.state, SyncState::Present);
    assert_eq!(sync.operation(), Some(Operation::FindRemote { name: "origin".to_string() }));
}

#[test]
fn absent_repository_is_cloned() {
    let sync = fresh().advance(Err(error("not a repository")));
    assert_eq!(sync.state, SyncState::Cloning { open_error: error("not a repository") });
    assert_eq!(
        sync.operation(),
        Some(Operation::Clone {
            url: "https://example.org/acme/site".to_string(),
            path: "/srv/acme/site/master".to_string(),
        })
    );
    let sync = sync.advance(Ok(()));
    assert_eq!(sync.state, SyncState::Present);
}

#[test]
fn failed_clone_keeps_both_errors() {
    let sync = fresh().advance(Err(error("not a repository"))).advance(Err(error("no route")));
    assert_eq!(
        sync.state,
        SyncState::Failed(SyncError::OpenOrClone {
            open: error("not a repository"),
            clone: error("no route"),
        })
    );
    assert!(sync.is_finished());
    assert_eq!(sync.operation(), None);
}

#[test]
fn fetch_asks_for_master_of_origin() {
    let sync = fresh().advance(Ok(())).advance(Ok(()));
    assert_eq!(sync.state, SyncState::Fetching);
    assert_eq!(sync.operation(), Some(Operation::Fetch { remote: "origin".to_string(), refspecs: vec!["master".to_string()] }));
}

#[test]
fn missing_remote_and_failed_fetch_are_told_apart() {
    let sync = fresh().advance(Ok(())).advance(Err(error("no origin")));
    assert_eq!(sync.state, SyncState::Failed(SyncError::RemoteNotFound(error("no origin"))));
    let sync = fresh().advance(Ok(())).advance(Ok(())).advance(Err(error("timeout")));
    assert_eq!(sync.state, SyncState::Failed(SyncError::Fetch(error("timeout"))));
}

#[test]
fn checkout_resets_to_the_commit() {
    let sync = fresh().advance(Ok(())).advance(Ok(())).advance(Ok(()));
    assert_eq!(sync.state, SyncState::FindingCommit { id: commit_id() });
    assert_eq!(sync.operation(), Some(Operation::FindCommit { id: commit_id() }));
    let sync = sync.advance(Ok(()));
    assert_eq!(sync.state, SyncState::Resetting { id: commit_id() });
    assert_eq!(sync.operation(), Some(Operation::Reset { id: commit_id(), hard: true, force: true, remove_untracked: true }));
    let sync = sync.advance(Ok(()));
    assert_eq!(sync.state, SyncState::AtCommit { id: commit_id() });
    assert!(sync.is_finished());
    assert_eq!(sync.operation(), None);
}

#[test]
fn malformed_commit_fails_after_the_fetch() {
    let sync = Synchronizer::new("u".to_string(), "p".to_string(), "HEAD".to_string());
    let sync = sync.advance(Ok(())).advance(Ok(()));
    assert_eq!(sync.state, SyncState::Fetching);
    let sync = sync.advance(Ok(()));
    assert_eq!(
        sync.state,
        SyncState::Failed(SyncError::InvalidCommitId { commit_id: "HEAD".to_string() })
    );
}

#[test]
fn unknown_commit_and_failed_reset_are_told_apart() {
    let found = fresh().advance(Ok(())).advance(Ok(())).advance(Ok(()));
    let sync = found.clone().advance(Err(error("object not found")));
    assert_eq!(sync.state, SyncState::Failed(SyncError::CommitNotFound(error("object not found"))));
    let sync = found.advance(Ok(())).advance(Err(error("index locked")));
    assert_eq!(sync.state, SyncState::Failed(SyncError::Reset(error("index locked"))));
}

#[test]
fn clone_and_reopen_end_at_the_same_commit() {
    let cloned = fresh()
        .advance(Err(error("not a repository")))
        .advance(Ok(()))
        .advance(Ok(()))
        .advance(Ok(()))
        .advance(Ok(()))
        .advance(Ok(()));
    let reopened =
        fresh().advance(Ok(())).advance(Ok(())).advance(Ok(())).advance(Ok(())).advance(Ok(()));
    assert_eq!(cloned.state, SyncState::AtCommit { id: commit_id() });
    assert_eq!(cloned, reopened);
    assert_eq!(reopened.clone().advance(Ok(())), reopened);
}

#[test]
fn finished_synchronisation_ignores_answers() {
    let failed = fresh().advance(Ok(())).advance(Err(error("no origin")));
    assert_eq!(failed.clone().advance(Ok(())), failed);
    assert_eq!(failed.clone().advance(Err(error("again"))), failed);
}

#[test]
fn steps_leave_states_of_other_steps_alone() {
    assert_eq!(open_or_clone(SyncState::Fetching, Ok(())), SyncState::Fetching);
    assert_eq!(pull_repo(SyncState::Opening, Ok(())), SyncState::Opening);
    assert_eq!(checkout(SyncState::Present, &COMMIT.to_string(), Ok(())), SyncState::Present);
    assert_eq!(pull_repo(SyncState::Fetching, Ok(())), SyncState::Fetched);
    assert_eq!(
        checkout(SyncState::Fetched, &COMMIT.to_string(), Err(error("ignored"))),
        SyncState::FindingCommit { id: commit_id() }
    );
}

#[test]
fn sync_error_messages_name_the_step() {
    let open_or_clone = SyncError::OpenOrClone { open: error("a"), clone: error("b") };
    assert_eq!(open_or_clone.message(), "Failed to open or clone repo");
    assert_eq!(SyncError::RemoteNotFound(error("a")).message(), "Failed to pull repo");
    assert_eq!(SyncError::Fetch(error("a")).message(), "Failed to pull repo");
    let invalid = SyncError::InvalidCommitId { commit_id: "x".to_string() };
    assert_eq!(invalid.message(), "Failed to checkout repo");
    assert_eq!(SyncError::CommitNotFound(error("a")).message(), "Failed to checkout repo");
    assert_eq!(SyncError::Reset(error("a")).message(), "Failed to checkout repo");
    assert_eq!(open_or_clone.clone(), open_or_clone);
}
