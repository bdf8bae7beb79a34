//! Synchronisation of a working directory with its remote: make sure the
//! repository is present, fetch, and check the wanted commit out. The
//! repository itself is worked on elsewhere; this module decides what is
//! asked of it next and what each answer means.

use vstd::prelude::*;
use vstd::string::*;
use vstd::utf8::encode_utf8;

use crate::hex::{all_hex, digit_value};

verus! {

/// An error reported by the version-control backend.
#[derive(Debug, PartialEq, Eq)]
pub struct GitError {
    /// The backend's error code.
    pub code: i32,
    /// The backend's class of the error.
    pub class: i32,
    pub message: String,
}

impl Clone for GitError {
    fn clone(&self) -> (copy: GitError)
        ensures
            copy == *self,
    {
        GitError { code: self.code, class: self.class, message: self.message.clone() }
    }
}

/// The name of a commit: its 20-byte hash.
#[derive(Debug, Clone, Copy, PartialEq, Eq, Hash)]
pub struct ObjectId(pub [u8; 20]);

/// Why a working directory was not brought to the wanted commit.
#[derive(Debug, PartialEq, Eq)]
pub enum SyncError {
    /// The repository could neither be opened nor cloned.
    OpenOrClone { open: GitError, clone: GitError },
    /// The repository has no remote `origin`.
    RemoteNotFound(GitError),
    /// Fetching from the remote failed.
    Fetch(GitError),
    /// The commit's identifier is not a well-formed hash.
    InvalidCommitId { commit_id: String },
    /// The repository holds no commit of that hash.
    CommitNotFound(GitError),
    /// The working directory could not be reset to the commit.
    Reset(GitError),
}

impl Clone for SyncError {
    fn clone(&self) -> (copy: SyncError)
        ensures
            copy == *self,
    {
        match self {
            SyncError::OpenOrClone { open, clone } => SyncError::OpenOrClone {
                open: open.clone(),
                clone: clone.clone(),
            },
            SyncError::RemoteNotFound(error) => SyncError::RemoteNotFound(error.clone()),
            SyncError::Fetch(error) => SyncError::Fetch(error.clone()),
            SyncError::InvalidCommitId { commit_id } => SyncError::InvalidCommitId {
                commit_id: commit_id.clone(),
            },
            SyncError::CommitNotFound(error) => SyncError::CommitNotFound(error.clone()),
            SyncError::Reset(error) => SyncError::Reset(error.clone()),
        }
    }
}

impl SyncError {
    /// The text shown for this error: it names the step that failed.
    pub open spec fn text(self) -> Seq<char> {
        match self {
            SyncError::OpenOrClone { .. } => "Failed to open or clone repo"@,
            SyncError::RemoteNotFound(_) | SyncError::Fetch(_) => "Failed to pull repo"@,
            SyncError::InvalidCommitId { .. }
            | SyncError::CommitNotFound(_)
            | SyncError::Reset(_) => "Failed to checkout repo"@,
        }
    }

    /// The text shown for this error with its causes: the step that failed,
    /// then what the backend said, the later attempt first.
    pub open spec fn detail_text(self) -> Seq<char> {
        match self {
            SyncError::OpenOrClone { open, clone } => self.text() + ": "@ + clone.message@ + ": "@
                + open.message@,
            SyncError::RemoteNotFound(error)
            | SyncError::Fetch(error)
            | SyncError::CommitNotFound(error)
            | SyncError::Reset(error) => self.text() + ": "@ + error.message@,
            SyncError::InvalidCommitId { commit_id } => self.text()
                + ": malformed commit identifier "@ + commit_id@,
        }
    }

    /// The text shown for this error.
    pub fn message(&self) -> (text: String)
        ensures
            text@ == self.text(),
    {
        match self {
            SyncError::OpenOrClone { .. } => String::from_str("Failed to open or clone repo"),
            SyncError::RemoteNotFound(_) | SyncError::Fetch(_) => String::from_str(
                "Failed to pull repo",
            ),
            SyncError::InvalidCommitId { .. }
            | SyncError::CommitNotFound(_)
            | SyncError::Reset(_) => String::from_str("Failed to checkout repo"),
        }
    }

    /// The text shown for this error with its causes.
    pub fn detail(&self) -> (text: String)
        ensures
            text@ == self.detail_text(),
    {
        let mut text = self.message();
        match self {
            SyncError::OpenOrClone { open, clone } => {
                text.append(": ");
                text.append(clone.message.as_str());
                text.append(": ");
                text.append(open.message.as_str());
            },
            SyncError::RemoteNotFound(error)
            | SyncError::Fetch(error)
            | SyncError::CommitNotFound(error)
            | SyncError::Reset(error) => {
                text.append(": ");
                text.append(error.message.as_str());
            },
            SyncError::InvalidCommitId { commit_id } => {
                text.append(": malformed commit identifier ");
                text.append(commit_id.as_str());
            },
        }
        text
    }
}

/// Whether `text` is a well-formed commit identifier: between one and forty
/// hexadecimal digits.
pub open spec fn well_formed_id(text: Seq<u8>) -> bool {
    0 < text.len() <= 40 && all_hex(text)
}

/// The value of the digit at `place` of `text`; zero past its end.
pub open spec fn nibble(text: Seq<u8>, place: int) -> int {
    if place < text.len() {
        digit_value(text[place])
    } else {
        0
    }
}

/// The 20 bytes that a well-formed identifier names: its digits, two to the
/// byte, filled up with zeros.
pub open spec fn id_bytes(text: Seq<u8>) -> Seq<u8> {
    Seq::new(20, |i: int| (16 * nibble(text, 2 * i) + nibble(text, 2 * i + 1)) as u8)
}

/// Parses a commit identifier with `git2::Oid::from_str`.
///
/// Trusted: the call succeeds exactly when `text` consists of one to forty
/// hexadecimal digits of either case, and then yields the 20 bytes whose
/// digits are those of `text`, in order and followed by zeros. The error of
/// a failed call says no more than that and is dropped.
#[verifier::external_body]
pub(crate) fn parse_oid(text: &str) -> (parsed: Option<[u8; 20]>)
    ensures
        match parsed {
            Some(bytes) => well_formed_id(encode_utf8(text@)) && bytes@ == id_bytes(
                encode_utf8(text@),
            ),
            None => !well_formed_id(encode_utf8(text@)),
        },
{
    match git2::Oid::from_str(text) {
        Ok(oid) => {
            let mut bytes = [0u8; 20];
            bytes.copy_from_slice(oid.as_bytes());
            Some(bytes)
        },
        Err(_) => None,
    }
}

/// The commit that `commit_id` names, if it is well formed.
pub open spec fn commit_named(commit_id: Seq<char>) -> Option<ObjectId> {
    if well_formed_id(encode_utf8(commit_id)) {
        Some(choose|id: ObjectId| id.0@ == id_bytes(encode_utf8(commit_id)))
    } else {
        None
    }
}

/// Two commit names of the same bytes are the same name.
pub proof fn lemma_id_by_bytes(left: ObjectId, right: ObjectId)
    requires
        left.0@ == right.0@,
    ensures
        left == right,
{
    assert(left.0 =~= right.0);
}

/// Reads a commit identifier of one to forty hexadecimal digits: the bytes
/// of the commit it names are its digits, two to the byte, followed by
/// zeros.
pub fn parse_commit_id(commit_id: &str) -> (parsed: Option<ObjectId>)
    ensures
        parsed == commit_named(commit_id@),
        parsed matches Some(id) ==> id.0@ == id_bytes(encode_utf8(commit_id@)),
{
    match parse_oid(commit_id) {
        Some(bytes) => {
            let id = ObjectId(bytes);
            proof {
                lemma_id_by_bytes(id, commit_named(commit_id@)->0);
            }
            Some(id)
        },
        None => None,
    }
}

/// What is asked of the repository next.
#[derive(Debug, Clone, PartialEq, Eq)]
pub enum Operation {
    /// Open the repository at `path`.
    Open { path: String },
    /// Clone `url` into `path`.
    Clone { url: String, path: String },
    /// Look the remote `name` up.
    FindRemote { name: String },
    /// Fetch `refspecs` from the remote `remote`, merging nothing.
    Fetch { remote: String, refspecs: Vec<String> },
    /// Look the commit `id` up.
    FindCommit { id: ObjectId },
    /// Reset the repository to the commit `id`. A `hard` reset brings the
    /// working directory to the commit as well; `force` overwrites files
    /// that were changed, and `remove_untracked` removes files and
    /// directories that the commit does not hold.
    Reset { id: ObjectId, hard: bool, force: bool, remove_untracked: bool },
}

/// How far the synchronisation of one working directory has come.
#[derive(Debug, Clone, PartialEq, Eq)]
pub enum SyncState {
    /// Nothing is known of the directory; opening it is asked for.
    Opening,
    /// The directory holds no repository; cloning is asked for.
    Cloning { open_error: GitError },
    /// The repository is present; its remote is asked for.
    Present,
    /// The remote is known; fetching is asked for.
    Fetching,
    /// The repository is up to date; the commit is yet to be named.
    Fetched,
    /// The commit is asked for.
    FindingCommit { id: ObjectId },
    /// The commit exists; a hard reset that overwrites changed files and
    /// removes untracked ones is asked for.
    Resetting { id: ObjectId },
    /// The working directory is exactly at the commit.
    AtCommit { id: ObjectId },
    /// A step failed; nothing more is asked.
    Failed(SyncError),
}

impl SyncState {
    /// Whether nothing more is asked of the repository.
    pub open spec fn finished(self) -> bool {
        self is AtCommit || self is Failed
    }
}

/// The state after the answer `reply` to opening or cloning: an opened or
/// cloned repository is present, a directory that cannot be opened is cloned
/// into, and if that fails too both errors are kept.
pub open spec fn after_open_or_clone(state: SyncState, reply: Result<(), GitError>) -> SyncState {
    match state {
        SyncState::Opening => match reply {
            Ok(()) => SyncState::Present,
            Err(open_error) => SyncState::Cloning { open_error },
        },
        SyncState::Cloning { open_error } => match reply {
            Ok(()) => SyncState::Present,
            Err(clone_error) => SyncState::Failed(
                SyncError::OpenOrClone { open: open_error, clone: clone_error },
            ),
        },
        _ => state,
    }
}

/// Makes the repository present: takes the answer to opening it, or to
/// cloning it after it could not be opened. States of other steps are left
/// as they are.
pub fn open_or_clone(state: SyncState, reply: Result<(), GitError>) -> (next: SyncState)
    ensures
        next == after_open_or_clone(state, reply),
{
    match state {
        SyncState::Opening => match reply {
            Ok(()) => SyncState::Present,
            Err(open_error) => SyncState::Cloning { open_error },
        },
        SyncState::Cloning { open_error } => match reply {
            Ok(()) => SyncState::Present,
            Err(clone_error) => SyncState::Failed(
                SyncError::OpenOrClone { open: open_error, clone: clone_error },
            ),
        },
        other => other,
    }
}

/// The state after the answer `reply` to looking the remote up or to
/// fetching from it.
pub open spec fn after_pull_repo(state: SyncState, reply: Result<(), GitError>) -> SyncState {
    match state {
        SyncState::Present => match reply {
            Ok(()) => SyncState::Fetching,
            Err(error) => SyncState::Failed(SyncError::RemoteNotFound(error)),
        },
        SyncState::Fetching => match reply {
            Ok(()) => SyncState::Fetched,
            Err(error) => SyncState::Failed(SyncError::Fetch(error)),
        },
        _ => state,
    }
}

/// Brings the repository up to date: takes the answer to looking the remote
/// up, or to fetching from it. States of other steps are left as they are.
pub fn pull_repo(state: SyncState, reply: Result<(), GitError>) -> (next: SyncState)
    ensures
        next == after_pull_repo(state, reply),
{
    match state {
        SyncState::Present => match reply {
            Ok(()) => SyncState::Fetching,
            Err(error) => SyncState::Failed(SyncError::RemoteNotFound(error)),
        },
        SyncState::Fetching => match reply {
            Ok(()) => SyncState::Fetched,
            Err(error) => SyncState::Failed(SyncError::Fetch(error)),
        },
        other => other,
    }
}

/// The state after one step of checking `commit_id` out. An up-to-date
/// repository is asked for the commit if the identifier is well formed,
/// whatever `reply` is; a commit that was found is reset to; a reset that
/// succeeded leaves the directory at the commit.
pub open spec fn after_checkout(
    state: SyncState,
    commit_id: String,
    reply: Result<(), GitError>,
) -> SyncState {
    match state {
        SyncState::Fetched => match commit_named(commit_id@) {
            Some(id) => SyncState::FindingCommit { id },
            None => SyncState::Failed(SyncError::InvalidCommitId { commit_id }),
        },
        SyncState::FindingCommit { id } => match reply {
            Ok(()) => SyncState::Resetting { id },
            Err(error) => SyncState::Failed(SyncError::CommitNotFound(error)),
        },
        SyncState::Resetting { id } => match reply {
            Ok(()) => SyncState::AtCommit { id },
            Err(error) => SyncState::Failed(SyncError::Reset(error)),
        },
        _ => state,
    }
}

/// Checks the commit out: names it once the repository is up to date, then
/// takes the answer to looking it up, or to the reset. States of other steps
/// are left as they are.
pub fn checkout(state: SyncState, commit_id: &String, reply: Result<(), GitError>) -> (next:
    SyncState)
    ensures
        next == after_checkout(state, *commit_id, reply),
        state is Fetched ==> (next matches SyncState::FindingCommit { id } ==> id.0@ == id_bytes(
            encode_utf8(commit_id@),
        )),
{
    match state {
        SyncState::Fetched => match parse_commit_id(commit_id.as_str()) {
            Some(id) => SyncState::FindingCommit { id },
            None => SyncState::Failed(SyncError::InvalidCommitId { commit_id: commit_id.clone() }),
        },
        SyncState::FindingCommit { id } => match reply {
            Ok(()) => SyncState::Resetting { id },
            Err(error) => SyncState::Failed(SyncError::CommitNotFound(error)),
        },
        SyncState::Resetting { id } => match reply {
            Ok(()) => SyncState::AtCommit { id },
            Err(error) => SyncState::Failed(SyncError::Reset(error)),
        },
        other => other,
    }
}

/// The state after the answer `reply` to what was asked in `state`. The step
/// that the state belongs to takes the answer; a repository that it leaves
/// up to date goes on to name the commit at once.
pub open spec fn next_state(
    state: SyncState,
    commit_id: String,
    reply: Result<(), GitError>,
) -> SyncState {
    let stepped = match state {
        SyncState::Opening | SyncState::Cloning { .. } => after_open_or_clone(state, reply),
        SyncState::Present | SyncState::Fetching => after_pull_repo(state, reply),
        _ => after_checkout(state, commit_id, reply),
    };
    if stepped is Fetched {
        after_checkout(stepped, commit_id, reply)
    } else {
        stepped
    }
}

/// The synchronisation of one working directory: where from, where to, to
/// which commit, and how far it has come.
#[derive(Debug, Clone, PartialEq, Eq)]
pub struct Synchronizer {
    /// The remote that the repository is cloned from.
    pub url: String,
    /// The working directory.
    pub path: String,
    /// The identifier of the commit to check out.
    pub commit_id: String,
    pub state: SyncState,
}

/// What is asked of the repository in `state`: nothing once the
/// synchronisation has finished.
pub open spec fn asked(sync: Synchronizer, operation: Option<Operation>) -> bool {
    match sync.state {
        SyncState::Opening => operation matches Some(Operation::Open { path }) && path
            == sync.path,
        SyncState::Cloning { .. } => operation matches Some(Operation::Clone { url, path }) && url
            == sync.url && path == sync.path,
        SyncState::Present => operation matches Some(Operation::FindRemote { name }) && name@
            == "origin"@,
        SyncState::Fetching => operation matches Some(Operation::Fetch { remote, refspecs })
            && remote@ == "origin"@ && refspecs@.len() == 1 && refspecs@[0]@ == "master"@,
        SyncState::FindingCommit { id } => operation == Some(Operation::FindCommit { id }),
        SyncState::Resetting { id } => operation == Some(
            Operation::Reset { id, hard: true, force: true, remove_untracked: true },
        ),
        SyncState::Fetched | SyncState::AtCommit { .. } | SyncState::Failed(_) => operation
            is None,
    }
}

impl Synchronizer {
    /// A synchronisation that has not begun: the first thing asked is to
    /// open the repository.
    pub fn new(url: String, path: String, commit_id: String) -> (sync: Synchronizer)
        ensures
            sync == (Synchronizer { url, path, commit_id, state: SyncState::Opening }),
    {
        Synchronizer { url, path, commit_id, state: SyncState::Opening }
    }

    /// The synchronisation after the answer `reply` to what it asked.
    pub open spec fn after(self, reply: Result<(), GitError>) -> Synchronizer {
        Synchronizer { state: next_state(self.state, self.commit_id, reply), ..self }
    }

    /// Takes the answer to what was asked last.
    pub fn advance(self, reply: Result<(), GitError>) -> (next: Synchronizer)
        ensures
            next == self.after(reply),
            self.state is Fetching || self.state is Fetched ==> (next.state
                matches SyncState::FindingCommit { id } ==> id.0@ == id_bytes(
                encode_utf8(self.commit_id@),
            )),
    {
        let Synchronizer { url, path, commit_id, state } = self;
        let stepped = match state {
            SyncState::Opening => open_or_clone(SyncState::Opening, reply),
            SyncState::Cloning { open_error } => open_or_clone(
                SyncState::Cloning { open_error },
                reply,
            ),
            SyncState::Present => pull_repo(SyncState::Present, reply),
            SyncState::Fetching => pull_repo(SyncState::Fetching, reply),
            other => checkout(other, &commit_id, reply),
        };
        let state = match stepped {
            SyncState::Fetched => checkout(SyncState::Fetched, &commit_id, Ok(())),
            other => other,
        };
        Synchronizer { url, path, commit_id, state }
    }

    /// What is to be asked of the repository now.
    pub fn operation(&self) -> (operation: Option<Operation>)
        ensures
            asked(*self, operation),
    {
        match &self.state {
            SyncState::Opening => Some(Operation::Open { path: self.path.clone() }),
            SyncState::Cloning { .. } => Some(
                Operation::Clone { url: self.url.clone(), path: self.path.clone() },
            ),
            SyncState::Present => Some(Operation::FindRemote { name: String::from_str("origin") }),
            SyncState::Fetching => {
                let mut refspecs = Vec::new();
                refspecs.push(String::from_str("master"));
                Some(Operation::Fetch { remote: String::from_str("origin"), refspecs })
            },
            SyncState::FindingCommit { id } => Some(Operation::FindCommit { id: *id }),
            SyncState::Resetting { id } => Some(
                Operation::Reset { id: *id, hard: true, force: true, remove_untracked: true },
            ),
            SyncState::Fetched | SyncState::AtCommit { .. } | SyncState::Failed(_) => None,
        }
    }

    /// Whether nothing more is asked of the repository.
    pub fn is_finished(&self) -> (finished: bool)
        ensures
            finished == self.state.finished(),
    {
        match &self.state {
            SyncState::AtCommit { .. } | SyncState::Failed(_) => true,
            _ => false,
        }
    }
}

/// No answer leaves a synchronisation waiting to name its commit: it goes
/// on to ask for the commit or fails.
pub proof fn lemma_never_left_fetched(sync: Synchronizer, reply: Result<(), GitError>)
    ensures
        !(sync.after(reply).state is Fetched),
{
}

/// A finished synchronisation stays as it is, whatever it is told.
pub proof fn lemma_finished_is_final(sync: Synchronizer, reply: Result<(), GitError>)
    requires
        sync.state.finished(),
    ensures
        sync.after(reply) == sync,
{
}

/// A failed step ends the synchronisation, with one exception: a repository
/// that cannot be opened is cloned.
pub proof fn lemma_failure_aborts(sync: Synchronizer, error: GitError)
    requires
        !sync.state.finished(),
        !(sync.state is Opening),
        !(sync.state is Fetched),
    ensures
        sync.after(Err(error)).state is Failed,
{
}

/// The steps come in one order: a directory is at a commit only after the
/// reset to that commit succeeded, a reset is asked for only after the
/// commit was found, the commit is asked for only once the fetch succeeded
/// or was done, and fetching only once the remote was found.
pub proof fn lemma_steps_in_order(sync: Synchronizer, reply: Result<(), GitError>)
    ensures
        sync.after(reply).state is AtCommit ==> sync.state is AtCommit || (sync.state
            matches SyncState::Resetting { id } && reply is Ok && sync.after(reply).state
            == SyncState::AtCommit { id }),
        sync.after(reply).state is Resetting ==> sync.state is Resetting
            || (sync.state is FindingCommit && reply is Ok),
        sync.after(reply).state is FindingCommit ==> sync.state is FindingCommit
            || sync.state is Fetched || (sync.state is Fetching && reply is Ok),
        sync.after(reply).state is Fetching ==> sync.state is Fetching || (sync.state is Present
            && reply is Ok),
        sync.after(reply).state is Present ==> sync.state is Present || (sync.state is Opening
            && reply is Ok) || (sync.state is Cloning && reply is Ok),
{
}

/// Cloning into a directory without a repository and synchronising one that
/// holds the repository already end at the same commit: the one that the
/// identifier names.
pub proof fn lemma_clone_and_reopen_converge(sync: Synchronizer, open_error: GitError)
    requires
        sync.state is Opening,
        commit_named(sync.commit_id@) is Some,
    ensures
        ({
            let id = commit_named(sync.commit_id@)->0;
            let done: Result<(), GitError> = Ok(());
            let cloned = sync.after(Err(open_error)).after(done).after(done).after(done).after(
                done,
            ).after(done);
            let reopened = sync.after(done).after(done).after(done).after(done).after(done);
            &&& cloned.state == SyncState::AtCommit { id }
            &&& reopened.state == SyncState::AtCommit { id }
            &&& cloned == reopened
            &&& reopened.after(done) == reopened
        }),
{
}

} // verus!
