//! Build tasks and the orchestration of one build.

pub mod git;

use vstd::prelude::*;
use vstd::std_specs::cmp::PartialEqSpecImpl;
use vstd::string::*;
use vstd::utf8::encode_utf8;

use self::git::{id_bytes, GitError, Operation, SyncError, SyncState, Synchronizer};
use crate::lock_manager::{LockManager, LockTable};
use crate::notifier::Status;
use crate::queue::{QueueView, TaskQueue};

verus! {

/// The branch of one repository of one owner: the unit that builds are
/// serialised by.
#[derive(Debug, Eq, Hash)]
pub struct BranchSpec {
    pub owner: String,
    pub repo: String,
    pub branch: String,
}

/// A `BranchSpec` with its names as sequences of characters.
pub ghost struct BranchKey {
    pub owner: Seq<char>,
    pub repo: Seq<char>,
    pub branch: Seq<char>,
}

impl View for BranchSpec {
    type V = BranchKey;

    open spec fn view(&self) -> BranchKey {
        BranchKey { owner: self.owner@, repo: self.repo@, branch: self.branch@ }
    }
}

impl PartialEq for BranchSpec {
    /// Two specifications are equal when all three names are.
    fn eq(&self, other: &BranchSpec) -> (same: bool) {
        self.owner == other.owner && self.repo == other.repo && self.branch == other.branch
    }
}

impl PartialEqSpecImpl for BranchSpec {
    open spec fn obeys_eq_spec() -> bool {
        true
    }

    open spec fn eq_spec(&self, other: &BranchSpec) -> bool {
        self@ == other@
    }
}

impl Clone for BranchSpec {
    fn clone(&self) -> (copy: BranchSpec)
        ensures
            copy@ == self@,
    {
        BranchSpec {
            owner: self.owner.clone(),
            repo: self.repo.clone(),
            branch: self.branch.clone(),
        }
    }
}

/// One unit of deployment work: bring the branch to a commit and build it.
#[derive(Debug, Eq)]
pub struct Task {
    pub branch_spec: BranchSpec,
    /// The commit to deploy.
    pub commit_hash: String,
    /// Where the repository is cloned and fetched from.
    pub url: String,
}

/// A `Task` with its texts as sequences of characters.
pub ghost struct TaskView {
    pub key: BranchKey,
    pub commit_hash: Seq<char>,
    pub url: Seq<char>,
}

impl View for Task {
    type V = TaskView;

    open spec fn view(&self) -> TaskView {
        TaskView { key: self.branch_spec@, commit_hash: self.commit_hash@, url: self.url@ }
    }
}

impl PartialEq for Task {
    fn eq(&self, other: &Task) -> (same: bool) {
        self.branch_spec == other.branch_spec && self.commit_hash == other.commit_hash && self.url
            == other.url
    }
}

impl PartialEqSpecImpl for Task {
    open spec fn obeys_eq_spec() -> bool {
        true
    }

    open spec fn eq_spec(&self, other: &Task) -> bool {
        self@ == other@
    }
}

impl Clone for Task {
    fn clone(&self) -> (copy: Task)
        ensures
            copy@ == self@,
    {
        Task {
            branch_spec: self.branch_spec.clone(),
            commit_hash: self.commit_hash.clone(),
            url: self.url.clone(),
        }
    }
}

/// Why a build failed.
#[derive(Debug, PartialEq, Eq)]
pub enum Failure {
    /// The working directory could not be created.
    CreateDir { path: String, cause: String },
    /// The working directory could not be brought to the commit.
    Sync(SyncError),
    /// The build command could not be started.
    Launch { cause: String },
    /// The build command ran and reported failure.
    Deploy { stderr: String },
}

impl Clone for Failure {
    fn clone(&self) -> (copy: Failure)
        ensures
            copy == *self,
    {
        match self {
            Failure::CreateDir { path, cause } => Failure::CreateDir {
                path: path.clone(),
                cause: cause.clone(),
            },
            Failure::Sync(error) => Failure::Sync(error.clone()),
            Failure::Launch { cause } => Failure::Launch { cause: cause.clone() },
            Failure::Deploy { stderr } => Failure::Deploy { stderr: stderr.clone() },
        }
    }
}

impl Failure {
    /// The text shown for this failure: it names what failed.
    pub open spec fn text(self) -> Seq<char> {
        match self {
            Failure::CreateDir { path, .. } => "Failed to create build directory \""@ + path@
                + "\""@,
            Failure::Sync(error) => error.text(),
            Failure::Launch { .. } => "Failed to run `docker-compose`"@,
            Failure::Deploy { .. } => "Failed to deploy"@,
        }
    }

    /// The text shown for this failure with its cause: what failed, then
    /// why, which for a build command that reported failure is what it wrote
    /// to its error stream.
    pub open spec fn detail_text(self) -> Seq<char> {
        match self {
            Failure::CreateDir { cause, .. } => self.text() + ": "@ + cause@,
            Failure::Sync(error) => error.detail_text(),
            Failure::Launch { cause } => self.text() + ": "@ + cause@,
            Failure::Deploy { stderr } => self.text() + ": "@ + stderr@,
        }
    }

    /// The text shown for this failure.
    pub fn message(&self) -> (text: String)
        ensures
            text@ == self.text(),
    {
        match self {
            Failure::CreateDir { path, .. } => {
                let mut text = String::from_str("Failed to create build directory \"");
                text.append(path.as_str());
                text.append("\"");
                text
            },
            Failure::Sync(error) => error.message(),
            Failure::Launch { .. } => String::from_str("Failed to run `docker-compose`"),
            Failure::Deploy { .. } => String::from_str("Failed to deploy"),
        }
    }

    /// The text shown for this failure with its cause.
    pub fn detail(&self) -> (text: String)
        ensures
            text@ == self.detail_text(),
    {
        match self {
            Failure::CreateDir { cause, .. } => {
                let mut text = self.message();
                text.append(": ");
                text.append(cause.as_str());
                text
            },
            Failure::Sync(error) => error.detail(),
            Failure::Launch { cause } => {
                let mut text = self.message();
                text.append(": ");
                text.append(cause.as_str());
                text
            },
            Failure::Deploy { stderr } => {
                let mut text = self.message();
                text.append(": ");
                text.append(stderr.as_str());
                text
            },
        }
    }
}

/// What the build command left behind when it ended.
#[derive(Debug, PartialEq, Eq)]
pub struct Output {
    /// Whether the command reported success.
    pub success: bool,
    pub stdout: String,
    pub stderr: String,
}

/// What happened to the thing a build asked for last.
#[derive(Debug, PartialEq, Eq)]
pub enum Event {
    /// The working directory was created or was there already, or could not
    /// be created.
    DirCreated(Result<(), String>),
    /// A lock was given back, so that asking again may help.
    Retry,
    /// The repository did what was asked of it, or failed to.
    Git(Result<(), GitError>),
    /// The build command ended, or could not be started.
    Exited(Result<Output, String>),
}

/// The build command: what to run, where, and under which instance name.
#[derive(Debug, PartialEq, Eq)]
pub struct Command {
    pub program: String,
    pub args: Vec<String>,
    /// The name of the environment variable that carries the instance name.
    pub env_name: String,
    /// The instance name.
    pub env_value: String,
    /// The directory to run the command in.
    pub dir: String,
}

/// What a build asks for next.
#[derive(Debug, PartialEq, Eq)]
pub enum Action {
    /// Create the directory `path` and all its parents.
    CreateDir { path: String },
    /// Wait until a lock is given back, then report `Event::Retry`.
    Wait,
    /// Ask this of the repository in the working directory.
    Git(Operation),
    /// Run the build command.
    Run(Command),
    /// Nothing more: the build ended like this.
    Report(Status),
}

/// How far a build has come.
#[derive(Debug, PartialEq, Eq)]
pub enum Stage {
    /// The working directory is being created.
    CreatingDir,
    /// The branch is being built by another build.
    Locking,
    /// The working directory is being brought to the commit.
    Syncing(Synchronizer),
    /// The build command is running.
    Building,
    /// The build has ended.
    Done(Status),
}

/// The build of one task.
#[derive(Debug, PartialEq, Eq)]
pub struct Build {
    pub task: Task,
    /// The working directory.
    pub dir: String,
    pub stage: Stage,
}

/// The instance name of the deployment of `key`, by which deployments of
/// different branches are kept apart.
pub open spec fn project_name(key: BranchKey) -> Seq<char> {
    "adm-"@ + key.owner + "-"@ + key.repo + "-"@ + key.branch
}

/// The working directory of `key` under `base`.
pub open spec fn work_dir_of(base: Seq<char>, key: BranchKey) -> Seq<char> {
    base + "/"@ + key.owner + "/"@ + key.repo + "/"@ + key.branch
}

/// The synchronisation that the build of `task` in `dir` begins with.
pub open spec fn fresh_sync(task: Task, dir: String) -> Synchronizer {
    Synchronizer { url: task.url, path: dir, commit_id: task.commit_hash, state: SyncState::Opening }
}

/// The build of `task` in `dir` and the locks after the build asked for its
/// branch: with the lock it synchronises, without it waits.
pub open spec fn entered(task: Task, dir: String, table: LockTable) -> (LockTable, Build) {
    (
        table.acquire(task@.key),
        Build {
            task,
            dir,
            stage: if table.grants(task@.key) {
                Stage::Syncing(fresh_sync(task, dir))
            } else {
                Stage::Locking
            },
        },
    )
}

/// Whether a build that came to ask for its commit with the step from
/// `before` to `after` asks for the commit that its identifier names: the
/// bytes that the identifier's digits write, followed by zeros.
pub open spec fn names_commit(before: Build, after: Build) -> bool {
    before.stage matches Stage::Syncing(sync) ==> (sync.state is Fetching ==> (after.stage
        matches Stage::Syncing(next) ==> (next.state matches SyncState::FindingCommit { id }
        ==> id.0@ == id_bytes(encode_utf8(sync.commit_id@)))))
}

impl Build {
    /// Whether the build is between taking its branch's lock and giving it
    /// back: while it synchronises and builds.
    pub open spec fn holds_lock(self) -> bool {
        self.stage is Syncing || self.stage is Building
    }

    /// Whether a synchronising build still has something to ask of the
    /// repository.
    pub open spec fn wf(self) -> bool {
        self.stage matches Stage::Syncing(sync) ==> !sync.state.finished() && !(sync.state
            is Fetched)
    }

    /// The build and the locks after the build asked for its branch: with
    /// the lock it synchronises, without it waits.
    pub open spec fn enter(self, table: LockTable) -> (LockTable, Build) {
        entered(self.task, self.dir, table)
    }

    /// The build and the locks after the build ended with `status` while it
    /// held its branch: the lock is given back.
    pub open spec fn leave(self, table: LockTable, status: Status) -> (LockTable, Build) {
        (table.release(self.task@.key), Build { stage: Stage::Done(status), ..self })
    }

    /// The build and the locks after `event`. An event that does not answer
    /// what the build asked for changes nothing.
    pub open spec fn step(self, table: LockTable, event: Event) -> (LockTable, Build) {
        match (self.stage, event) {
            (Stage::CreatingDir, Event::DirCreated(Ok(()))) => self.enter(table),
            (Stage::CreatingDir, Event::DirCreated(Err(cause))) => (
                table,
                Build {
                    stage: Stage::Done(Status::Fail(Failure::CreateDir { path: self.dir, cause })),
                    ..self
                },
            ),
            (Stage::Locking, Event::Retry) => self.enter(table),
            (Stage::Syncing(sync), Event::Git(reply)) => match sync.after(reply).state {
                SyncState::AtCommit { .. } => (table, Build { stage: Stage::Building, ..self }),
                SyncState::Failed(error) => self.leave(table, Status::Fail(Failure::Sync(error))),
                _ => (table, Build { stage: Stage::Syncing(sync.after(reply)), ..self }),
            },
            (Stage::Building, Event::Exited(Ok(output))) => self.leave(
                table,
                if output.success {
                    Status::Success
                } else {
                    Status::Fail(Failure::Deploy { stderr: output.stderr })
                },
            ),
            (Stage::Building, Event::Exited(Err(cause))) => self.leave(
                table,
                Status::Fail(Failure::Launch { cause }),
            ),
            _ => (table, self),
        }
    }

    /// Whether `command` is the build command of this build: the fixed
    /// program and arguments, run in the working directory under the
    /// branch's instance name.
    pub open spec fn runs(self, command: Command) -> bool {
        &&& command.program@ == "docker-compose"@
        &&& command.args@.len() == 3
        &&& command.args@[0]@ == "up"@
        &&& command.args@[1]@ == "--build"@
        &&& command.args@[2]@ == "-d"@
        &&& command.env_name@ == "COMPOSE_PROJECT_NAME"@
        &&& command.env_value@ == project_name(self.task@.key)
        &&& command.dir == self.dir
    }

    /// Whether `action` is what this build asks for.
    pub open spec fn asks(self, action: Action) -> bool {
        match self.stage {
            Stage::CreatingDir => action matches Action::CreateDir { path } && path == self.dir,
            Stage::Locking => action is Wait,
            Stage::Syncing(sync) => action matches Action::Git(operation) && git::asked(
                sync,
                Some(operation),
            ),
            Stage::Building => action matches Action::Run(command) && self.runs(command),
            Stage::Done(status) => action == Action::Report(status),
        }
    }

    /// Whether the build holds its branch's lock.
    pub fn has_lock(&self) -> (held: bool)
        ensures
            held == self.holds_lock(),
    {
        match &self.stage {
            Stage::Syncing(_) | Stage::Building => true,
            _ => false,
        }
    }

    /// Whether a synchronising build still has something to ask of the
    /// repository, as every build has that `Runner` began and took further.
    pub fn is_well_formed(&self) -> (well_formed: bool)
        ensures
            well_formed == self.wf(),
    {
        match &self.stage {
            Stage::Syncing(sync) => match &sync.state {
                SyncState::AtCommit { .. } | SyncState::Failed(_) | SyncState::Fetched => false,
                _ => true,
            },
            _ => true,
        }
    }

    /// What the build asks for now.
    pub fn action(&self) -> (action: Action)
        requires
            self.wf(),
        ensures
            self.asks(action),
    {
        match &self.stage {
            Stage::CreatingDir => Action::CreateDir { path: self.dir.clone() },
            Stage::Locking => Action::Wait,
            Stage::Syncing(sync) => match sync.operation() {
                Some(operation) => Action::Git(operation),
                None => Action::Wait,
            },
            Stage::Building => {
                let mut args = Vec::new();
                args.push(String::from_str("up"));
                args.push(String::from_str("--build"));
                args.push(String::from_str("-d"));
                let mut name = String::from_str("adm-");
                name.append(self.task.branch_spec.owner.as_str());
                name.append("-");
                name.append(self.task.branch_spec.repo.as_str());
                name.append("-");
                name.append(self.task.branch_spec.branch.as_str());
                Action::Run(
                    Command {
                        program: String::from_str("docker-compose"),
                        args,
                        env_name: String::from_str("COMPOSE_PROJECT_NAME"),
                        env_value: name,
                        dir: self.dir.clone(),
                    },
                )
            },
            Stage::Done(status) => Action::Report(status.clone()),
        }
    }

    /// How the build ended, once it has.
    pub fn status(&self) -> (status: Option<&Status>)
        ensures
            match self.stage {
                Stage::Done(ended) => status == Some(&ended),
                _ => status is None,
            },
    {
        match &self.stage {
            Stage::Done(status) => Some(status),
            _ => None,
        }
    }
}

/// The orchestrator of builds: it knows where working directories live and
/// which branches are being built.
pub struct Runner {
    base_path: String,
    lock_manager: LockManager,
}

impl Runner {
    /// The directory under which all working directories live.
    pub closed spec fn base(&self) -> Seq<char> {
        self.base_path@
    }

    /// Which branches are being built.
    pub closed spec fn locks(&self) -> LockTable {
        self.lock_manager@
    }

    /// An orchestrator that builds under `base_path` and serialises builds
    /// with `lock_manager`.
    pub fn new(base_path: String, lock_manager: LockManager) -> (runner: Runner)
        ensures
            runner.base() == base_path@,
            runner.locks() == lock_manager@,
    {
        Runner { base_path, lock_manager }
    }

    /// The working directory of `spec`: owner, repository and branch, one
    /// below the other, under the base directory.
    pub fn work_dir(&self, spec: &BranchSpec) -> (dir: String)
        ensures
            dir@ == work_dir_of(self.base(), spec@),
    {
        let mut dir = self.base_path.clone();
        dir.append("/");
        dir.append(spec.owner.as_str());
        dir.append("/");
        dir.append(spec.repo.as_str());
        dir.append("/");
        dir.append(spec.branch.as_str());
        dir
    }

    /// Begins the build of `task`: the first thing it asks for is its
    /// working directory.
    pub fn handle(&self, task: Task) -> (build: Build)
        ensures
            build.task == task,
            build.dir@ == work_dir_of(self.base(), task@.key),
            build.stage == Stage::CreatingDir,
            build.wf(),
    {
        let dir = self.work_dir(&task.branch_spec);
        Build { task, dir, stage: Stage::CreatingDir }
    }

    /// Takes the next task from the queue, if one waits, and begins its
    /// build.
    pub fn run_builds(&self, rx: &mut TaskQueue) -> (build: Option<Build>)
        ensures
            match build {
                Some(build) => old(rx)@.tasks.len() > 0 && build.task@ == old(rx)@.tasks[0]
                    && build.dir@ == work_dir_of(self.base(), build.task@.key) && build.stage
                    == Stage::CreatingDir && build.wf() && final(rx)@ == (QueueView {
                    tasks: old(rx)@.tasks.subrange(1, old(rx)@.tasks.len() as int),
                    ..old(rx)@
                }),
                None => old(rx)@.tasks.len() == 0 && final(rx)@ == old(rx)@,
            },
    {
        match rx.recv() {
            Some(task) => Some(self.handle(task)),
            None => None,
        }
    }

    /// Takes `build` one step further with the answer `event` to what it
    /// asked for. The branch's lock is asked for once the directory exists
    /// and again on every retry, and is given back on every way out of
    /// synchronising and building.
    pub fn process_task(&mut self, build: Build, event: Event) -> (next: Build)
        ensures
            final(self).base() == old(self).base(),
            (final(self).locks(), next) == build.step(old(self).locks(), event),
            build.wf() ==> next.wf(),
            names_commit(build, next),
    {
        let Build { task, dir, stage } = build;
        match (stage, event) {
            (Stage::CreatingDir, Event::DirCreated(Ok(()))) => self.enter(task, dir),
            (Stage::CreatingDir, Event::DirCreated(Err(cause))) => {
                let path = dir.clone();
                Build { task, dir, stage: Stage::Done(Status::Fail(Failure::CreateDir { path, cause })) }
            },
            (Stage::Locking, Event::Retry) => self.enter(task, dir),
            (Stage::Syncing(sync), Event::Git(reply)) => {
                proof {
                    git::lemma_never_left_fetched(sync, reply);
                }
                let Synchronizer { url, path, commit_id, state } = sync.advance(reply);
                match state {
                    SyncState::AtCommit { .. } => Build { task, dir, stage: Stage::Building },
                    SyncState::Failed(error) => {
                        self.lock_manager.release(&task.branch_spec);
                        Build { task, dir, stage: Stage::Done(Status::Fail(Failure::Sync(error))) }
                    },
                    state => Build {
                        task,
                        dir,
                        stage: Stage::Syncing(Synchronizer { url, path, commit_id, state }),
                    },
                }
            },
            (Stage::Building, Event::Exited(Ok(output))) => {
                self.lock_manager.release(&task.branch_spec);
                let status = if output.success {
                    Status::Success
                } else {
                    Status::Fail(Failure::Deploy { stderr: output.stderr })
                };
                Build { task, dir, stage: Stage::Done(status) }
            },
            (Stage::Building, Event::Exited(Err(cause))) => {
                self.lock_manager.release(&task.branch_spec);
                Build { task, dir, stage: Stage::Done(Status::Fail(Failure::Launch { cause })) }
            },
            (stage, _) => Build { task, dir, stage },
        }
    }

    fn enter(&mut self, task: Task, dir: String) -> (next: Build)
        ensures
            final(self).base() == old(self).base(),
            (final(self).locks(), next) == entered(task, dir, old(self).locks()),
            next.wf(),
    {
        let stage = if self.lock_manager.try_acquire(&task.branch_spec) {
            Stage::Syncing(Synchronizer::new(task.url.clone(), dir.clone(), task.commit_hash.clone()))
        } else {
            Stage::Locking
        };
        Build { task, dir, stage }
    }
}

/// Whether two builds agree with the locks and with each other: a build
/// that synchronises or builds holds its branch's lock, and two builds of
/// one branch never do so at the same time.
pub open spec fn exclusive(table: LockTable, one: Build, other: Build) -> bool {
    &&& one.holds_lock() ==> table.held.contains(one.task@.key)
    &&& other.holds_lock() ==> table.held.contains(other.task@.key)
    &&& one.task@.key == other.task@.key ==> !(one.holds_lock() && other.holds_lock())
}

/// No step of a build breaks the agreement of two builds with the locks:
/// whatever the event, a build enters synchronising only with the lock that
/// the other does not hold, and gives the lock back when it leaves.
pub proof fn lemma_step_keeps_exclusion(table: LockTable, one: Build, other: Build, event: Event)
    requires
        exclusive(table, one, other),
    ensures
        exclusive(one.step(table, event).0, one.step(table, event).1, other),
        exclusive(other.step(table, event).0, one, other.step(table, event).1),
        one.step(table, event).1.task == one.task,
{
}

/// Whether any number of builds agree with the locks and with each other:
/// each build that synchronises or builds holds its branch's lock, and no
/// two builds of one branch do so at the same time.
pub open spec fn all_exclusive(table: LockTable, builds: Seq<Build>) -> bool {
    &&& forall|i: int|
        0 <= i < builds.len() && (#[trigger] builds[i]).holds_lock() ==> table.held.contains(
            builds[i].task@.key,
        )
    &&& forall|i: int, j: int|
        0 <= i < builds.len() && 0 <= j < builds.len() && i != j && (#[trigger] builds[i]).task@.key
            == (#[trigger] builds[j]).task@.key ==> !(builds[i].holds_lock()
            && builds[j].holds_lock())
}

/// The locks and the builds after the build at `index` took a step with
/// `event`. An index that names no build changes nothing.
pub open spec fn stepped(
    table: LockTable,
    builds: Seq<Build>,
    index: int,
    event: Event,
) -> (LockTable, Seq<Build>) {
    if 0 <= index < builds.len() {
        (
            builds[index].step(table, event).0,
            builds.update(index, builds[index].step(table, event).1),
        )
    } else {
        (table, builds)
    }
}

/// No step of any build breaks the agreement of the builds with the locks.
pub proof fn lemma_step_keeps_all_exclusive(
    table: LockTable,
    builds: Seq<Build>,
    index: int,
    event: Event,
)
    requires
        all_exclusive(table, builds),
    ensures
        all_exclusive(stepped(table, builds, index, event).0, stepped(table, builds, index, event).1),
        stepped(table, builds, index, event).1.len() == builds.len(),
        forall|i: int|
            0 <= i < builds.len() ==> (#[trigger] stepped(table, builds, index, event).1[i]).task
                == builds[i].task,
{
    if 0 <= index < builds.len() {
        let (after, next) = builds[index].step(table, event);
        let moved = builds.update(index, next);
        assert forall|i: int| 0 <= i < builds.len() && i != index implies exclusive(
            after,
            next,
            #[trigger] builds[i],
        ) by {
            assert(exclusive(table, builds[index], builds[i]));
            lemma_step_keeps_exclusion(table, builds[index], builds[i], event);
        }
        let outside = Build { stage: Stage::CreatingDir, ..builds[index] };
        lemma_step_keeps_exclusion(table, builds[index], outside, event);
        assert forall|i: int| 0 <= i < moved.len() && (#[trigger] moved[i]).holds_lock() implies
            after.held.contains(moved[i].task@.key) by {
            if i != index {
                assert(exclusive(after, next, builds[i]));
            }
        }
        assert forall|i: int, j: int|
            0 <= i < moved.len() && 0 <= j < moved.len() && i != j && (#[trigger] moved[i]).task@.key
                == (#[trigger] moved[j]).task@.key implies !(moved[i].holds_lock()
            && moved[j].holds_lock()) by {
            if i == index {
                assert(exclusive(after, next, builds[j]));
            } else if j == index {
                assert(exclusive(after, next, builds[i]));
            } else {
                assert(moved[i] == builds[i] && moved[j] == builds[j]);
            }
        }
    }
}

/// The locks and the builds after the steps of `schedule` were taken in
/// order: each entry names the build that steps and the event it is given.
pub open spec fn scheduled(
    table: LockTable,
    builds: Seq<Build>,
    schedule: Seq<(int, Event)>,
) -> (LockTable, Seq<Build>)
    decreases schedule.len(),
{
    if schedule.len() == 0 {
        (table, builds)
    } else {
        let (table, builds) = scheduled(table, builds, schedule.drop_last());
        stepped(table, builds, schedule.last().0, schedule.last().1)
    }
}

/// Builds of one branch never synchronise or build at the same time: of any
/// number of builds that begin outside, whatever the locks then are, and
/// take their steps in any order and with any events, no two of one branch
/// are ever inside together.
pub proof fn lemma_same_branch_never_overlaps(
    table: LockTable,
    builds: Seq<Build>,
    schedule: Seq<(int, Event)>,
)
    requires
        forall|i: int| 0 <= i < builds.len() ==> !(#[trigger] builds[i]).holds_lock(),
    ensures
        ({
            let (after, moved) = scheduled(table, builds, schedule);
            &&& moved.len() == builds.len()
            &&& all_exclusive(after, moved)
            &&& forall|i: int| 0 <= i < builds.len() ==> (#[trigger] moved[i]).task == builds[i].task
            &&& forall|i: int, j: int|
                0 <= i < builds.len() && 0 <= j < builds.len() && i != j && (
                #[trigger] builds[i]).task@.key == (#[trigger] builds[j]).task@.key ==> !(
                moved[i].holds_lock() && moved[j].holds_lock())
        }),
    decreases schedule.len(),
{
    if schedule.len() > 0 {
        lemma_same_branch_never_overlaps(table, builds, schedule.drop_last());
        let (before, waiting) = scheduled(table, builds, schedule.drop_last());
        lemma_step_keeps_all_exclusive(before, waiting, schedule.last().0, schedule.last().1);
        let (after, moved) = scheduled(table, builds, schedule);
        assert forall|i: int, j: int|
            0 <= i < builds.len() && 0 <= j < builds.len() && i != j && (
            #[trigger] builds[i]).task@.key == (#[trigger] builds[j]).task@.key implies !(
        moved[i].holds_lock() && moved[j].holds_lock()) by {
            assert(moved[i].task == builds[i].task);
            assert(moved[j].task == builds[j].task);
        }
    }
}

/// Builds of different branches do not wait for each other: whether a build
/// gets its lock is not changed by any step of a build of another branch,
/// and a build that asks for a free lock synchronises while the other goes
/// on holding its own.
pub proof fn lemma_other_branch_not_blocked(
    table: LockTable,
    one: Build,
    other: Build,
    event: Event,
)
    requires
        one.task@.key != other.task@.key,
    ensures
        other.step(table, event).0.grants(one.task@.key) == table.grants(one.task@.key),
        one.stage is Locking && table.grants(one.task@.key) && other.holds_lock() ==> one.step(
            table,
            Event::Retry,
        ).1.holds_lock() && one.step(table, Event::Retry).0.held.contains(other.task@.key)
            == table.held.contains(other.task@.key),
{
}

/// A build that has ended stays as it is and touches no lock, whatever it is
/// told.
pub proof fn lemma_done_is_final(table: LockTable, build: Build, event: Event)
    requires
        build.stage is Done,
    ensures
        build.step(table, event) == (table, build),
{
}

/// The build command runs only after the checkout: a build comes to build
/// only from a reset that succeeded.
pub proof fn lemma_builds_only_after_checkout(table: LockTable, build: Build, event: Event)
    requires
        build.wf(),
        build.step(table, event).1.stage is Building,
        !(build.stage is Building),
    ensures
        build.stage matches Stage::Syncing(sync) && sync.state is Resetting,
        event matches Event::Git(reply) && reply is Ok,
{
}

/// Any failure while synchronising ends the build as failed, without
/// building, and gives the lock back. In particular a commit that the
/// repository does not hold ends the build with `CommitNotFound`.
pub proof fn lemma_failed_sync_ends_build(
    table: LockTable,
    build: Build,
    sync: Synchronizer,
    error: GitError,
)
    requires
        build.stage == Stage::Syncing(sync),
        !sync.state.finished(),
        !(sync.state is Opening),
        !(sync.state is Fetched),
    ensures
        ({
            let (after, next) = build.step(table, Event::Git(Err(error)));
            &&& next.stage matches Stage::Done(Status::Fail(Failure::Sync(_)))
            &&& after == table.release(build.task@.key)
            &&& !after.held.contains(build.task@.key)
            &&& sync.state is FindingCommit ==> next.stage == Stage::Done(
                Status::Fail(Failure::Sync(SyncError::CommitNotFound(error))),
            )
        }),
{
}

/// Every way out of synchronising and building gives the lock back: a build
/// that held its lock before a step and does not hold it after has ended,
/// and its branch is free.
pub proof fn lemma_lock_released_on_exit(table: LockTable, build: Build, event: Event)
    requires
        build.holds_lock(),
        !build.step(table, event).1.holds_lock(),
    ensures
        build.step(table, event).1.stage is Done,
        build.step(table, event).0 == table.release(build.task@.key),
{
}

} // verus!
