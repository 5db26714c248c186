use vstd::prelude::*;

use crate::error::{result_view, ZfsError, ZfsErrorView};
use crate::inspect::{
    key_status_from, key_status_result, mount_status_from, mount_status_result, Outcome,
};
use crate::name::{check_and_sanitize_zfs_dataset_name, valid_dataset_name};
use crate::text::{push_char, trim};

verus! {

/// A change of a dataset's state.
#[derive(Clone, Copy, Debug, PartialEq, Eq, Structural)]
pub enum Operation {
    LoadKey,
    UnloadKey,
    Mount,
    Unmount,
}

/// A listing that the external tool is asked for.
#[derive(Clone, Copy, Debug, PartialEq, Eq, Structural)]
pub enum Query {
    /// `name value` of each dataset's key status.
    KeyStatus,
    /// `name yes|no` of each dataset's mounted flag.
    MountStatus,
    /// `name path` of each dataset's mountpoint.
    Mountpoints,
    /// `name mounted keystatus` of each dataset.
    EncryptedDatasets,
}

/// Where an operation stands.
#[derive(Clone, Copy, Debug, PartialEq, Eq, Structural)]
pub enum Stage {
    /// Waiting for the key-status listing.
    CheckKey,
    /// Waiting for the mounted-flag listing.
    CheckMount,
    /// Waiting for the operation's own command.
    Command,
    /// Done: nothing more is asked for.
    Finished,
}

/// What the caller is to do next.
#[derive(Debug, PartialEq, Eq)]
pub enum Step {
    /// Run this listing and hand back its outcome.
    Query(Query),
    /// Run the command of this operation on the dataset and hand back its outcome.
    Run(Operation),
    /// The operation is over, with this result.
    Done(Result<(), ZfsError>),
}

pub enum StepView {
    Query(Query),
    Run(Operation),
    Done(Result<(), ZfsErrorView>),
}

impl View for Step {
    type V = StepView;

    open spec fn view(&self) -> StepView {
        match self {
            Step::Query(q) => StepView::Query(*q),
            Step::Run(op) => StepView::Run(*op),
            Step::Done(r) => StepView::Done(result_view(*r)),
        }
    }
}

/// One operation on one dataset: it checks the dataset's state through listings, skips the
/// command where the state already holds, and refuses to mount where the key is not loaded.
pub struct Lifecycle {
    op: Operation,
    dataset: String,
    stage: Stage,
}

pub struct LifecycleView {
    pub op: Operation,
    pub dataset: Seq<char>,
    pub stage: Stage,
}

impl View for Lifecycle {
    type V = LifecycleView;

    closed spec fn view(&self) -> LifecycleView {
        LifecycleView { op: self.op, dataset: self.dataset@, stage: self.stage }
    }
}

/// The listing that an operation reads first: the mounted flag for unmounting, the key status
/// for the others.
pub open spec fn first_stage(op: Operation) -> Stage {
    if op == Operation::Unmount {
        Stage::CheckMount
    } else {
        Stage::CheckKey
    }
}

/// The listing that is asked for in `stage`.
pub open spec fn query_of(stage: Stage) -> Query {
    if stage == Stage::CheckKey {
        Query::KeyStatus
    } else {
        Query::MountStatus
    }
}

/// Whether `m` is a state that an operation can reach: a dataset that is still to be worked on
/// has a valid name, and each operation reads only the listings it needs.
pub open spec fn reachable(m: LifecycleView) -> bool {
    &&& m.stage != Stage::Finished ==> valid_dataset_name(m.dataset)
    &&& m.stage == Stage::CheckKey ==> m.op != Operation::Unmount
    &&& m.stage == Stage::CheckMount ==> (m.op == Operation::Mount || m.op
        == Operation::Unmount)
}

/// How an operation begins on the name `raw`: the name is trimmed and checked, and an invalid
/// one ends the operation before anything is run.
pub open spec fn start_spec(op: Operation, raw: Seq<char>) -> (LifecycleView, StepView) {
    let d = trim(raw);
    if valid_dataset_name(d) {
        (
            LifecycleView { op, dataset: d, stage: first_stage(op) },
            StepView::Query(query_of(first_stage(op))),
        )
    } else {
        (
            LifecycleView { op, dataset: d, stage: Stage::Finished },
            StepView::Done(Err(ZfsErrorView::DatasetNameIsInvalid(d))),
        )
    }
}

/// `m` ended with result `r`.
pub open spec fn finish(m: LifecycleView, r: Result<(), ZfsErrorView>) -> (
    LifecycleView,
    StepView,
) {
    (LifecycleView { stage: Stage::Finished, ..m }, StepView::Done(r))
}

/// `m` goes on to run its command.
pub open spec fn go_run(m: LifecycleView) -> (LifecycleView, StepView) {
    (LifecycleView { stage: Stage::Command, ..m }, StepView::Run(m.op))
}

/// What `m` does with what its listing said of the dataset (`None`: not listed).
pub open spec fn on_answer(m: LifecycleView, fact: Result<Option<bool>, ZfsErrorView>) -> (
    LifecycleView,
    StepView,
) {
    match fact {
        Err(e) => finish(m, Err(e)),
        Ok(None) => finish(m, Err(ZfsErrorView::DatasetNotFound(m.dataset))),
        Ok(Some(b)) => if m.stage == Stage::CheckKey {
            match m.op {
                Operation::LoadKey => if b {
                    finish(m, Ok(()))
                } else {
                    go_run(m)
                },
                Operation::Mount => if b {
                    (
                        LifecycleView { stage: Stage::CheckMount, ..m },
                        StepView::Query(Query::MountStatus),
                    )
                } else {
                    finish(m, Err(ZfsErrorView::KeyNotLoadedForMount(m.dataset)))
                },
                _ => if b {
                    go_run(m)
                } else {
                    finish(m, Ok(()))
                },
            }
        } else {
            match m.op {
                Operation::Mount => if b {
                    finish(m, Ok(()))
                } else {
                    go_run(m)
                },
                _ => if b {
                    go_run(m)
                } else {
                    finish(m, Ok(()))
                },
            }
        },
    }
}

/// The error of a failed command of `op` on `dataset`, with what the failure said.
pub open spec fn command_failed(op: Operation, dataset: Seq<char>, msg: Seq<char>) -> ZfsErrorView {
    match op {
        Operation::LoadKey => ZfsErrorView::LoadKeyCmdFailed(dataset, msg),
        Operation::UnloadKey => ZfsErrorView::UnloadKeyCmdFailed(dataset, msg),
        Operation::Mount => ZfsErrorView::MountCmdFailed(dataset, msg),
        Operation::Unmount => ZfsErrorView::UnmountCmdFailed(dataset, msg),
    }
}

/// The result of the command of `op` on `dataset` that had outcome `out`.
pub open spec fn command_result(op: Operation, dataset: Seq<char>, out: Outcome) -> Result<
    (),
    ZfsErrorView,
> {
    match out {
        Outcome::SpawnFailed(m) => Err(command_failed(op, dataset, m@)),
        Outcome::IoFailed(m) => Err(ZfsErrorView::SystemError(m@)),
        Outcome::Exited { success, stderr, .. } => if success {
            Ok(())
        } else {
            Err(command_failed(op, dataset, stderr@))
        },
    }
}

/// What `m` does with the outcome of what it asked for.
pub open spec fn next(m: LifecycleView, out: Outcome) -> (LifecycleView, StepView) {
    match m.stage {
        Stage::CheckKey => on_answer(m, key_status_result(m.dataset, out)),
        Stage::CheckMount => on_answer(m, mount_status_result(m.dataset, out)),
        _ => finish(m, command_result(m.op, m.dataset, out)),
    }
}

/// Reads the outcome of the command of `op` on `dataset`.
pub fn command_result_from(op: Operation, dataset: &String, out: &Outcome) -> (r: Result<
    (),
    ZfsError,
>)
    ensures
        result_view(r) == command_result(op, dataset@, *out),
{
    let msg = match out {
        Outcome::SpawnFailed(m) => m.clone(),
        Outcome::IoFailed(m) => {
            return Err(ZfsError::SystemError(m.clone()));
        },
        Outcome::Exited { success, stderr, .. } => {
            if *success {
                return Ok(());
            }
            stderr.clone()
        },
    };
    let d = dataset.clone();
    match op {
        Operation::LoadKey => Err(ZfsError::LoadKeyCmdFailed(d, msg)),
        Operation::UnloadKey => Err(ZfsError::UnloadKeyCmdFailed(d, msg)),
        Operation::Mount => Err(ZfsError::MountCmdFailed(d, msg)),
        Operation::Unmount => Err(ZfsError::UnmountCmdFailed(d, msg)),
    }
}

impl Lifecycle {
    pub open spec fn wf(&self) -> bool {
        reachable(self@)
    }

    /// Begins `op` on the dataset named `zfs_dataset`, and says what to do first.
    pub fn start(op: Operation, zfs_dataset: &str) -> (r: (Lifecycle, Step))
        ensures
            r.0.wf(),
            (r.0@, r.1@) == start_spec(op, zfs_dataset@),
    {
        match check_and_sanitize_zfs_dataset_name(zfs_dataset) {
            Ok(dataset) => {
                if op == Operation::Unmount {
                    (
                        Lifecycle { op, dataset, stage: Stage::CheckMount },
                        Step::Query(Query::MountStatus),
                    )
                } else {
                    (
                        Lifecycle { op, dataset, stage: Stage::CheckKey },
                        Step::Query(Query::KeyStatus),
                    )
                }
            },
            Err(e) => {
                let dataset = match &e {
                    ZfsError::DatasetNameIsInvalid(t) => t.clone(),
                    _ => String::new(),
                };
                (Lifecycle { op, dataset, stage: Stage::Finished }, Step::Done(Err(e)))
            },
        }
    }

    /// The operation under way.
    pub fn operation(&self) -> (r: Operation)
        ensures
            r == self@.op,
    {
        self.op
    }

    /// The checked name of the dataset.
    pub fn dataset(&self) -> (r: &String)
        ensures
            r@ == self@.dataset,
    {
        &self.dataset
    }

    /// Where the operation stands.
    pub fn stage(&self) -> (r: Stage)
        ensures
            r == self@.stage,
    {
        self.stage
    }

    fn end(&mut self, r: Result<(), ZfsError>) -> (step: Step)
        ensures
            (final(self)@, step@) == finish(old(self)@, result_view(r)),
    {
        self.stage = Stage::Finished;
        Step::Done(r)
    }

    fn answer(&mut self, fact: Result<Option<bool>, ZfsError>) -> (step: Step)
        requires
            old(self).stage == Stage::CheckKey || old(self).stage == Stage::CheckMount,
        ensures
            (final(self)@, step@) == on_answer(old(self)@, result_view(fact)),
    {
        let b = match fact {
            Err(e) => {
                return self.end(Err(e));
            },
            Ok(None) => {
                let d = self.dataset.clone();
                return self.end(Err(ZfsError::DatasetNotFound(d)));
            },
            Ok(Some(b)) => b,
        };
        let run = if self.stage == Stage::CheckKey {
            match self.op {
                Operation::LoadKey => !b,
                Operation::Mount => {
                    if b {
                        self.stage = Stage::CheckMount;
                        return Step::Query(Query::MountStatus);
                    }
                    let d = self.dataset.clone();
                    return self.end(Err(ZfsError::KeyNotLoadedForMount(d)));
                },
                _ => b,
            }
        } else {
            match self.op {
                Operation::Mount => !b,
                _ => b,
            }
        };
        if run {
            self.stage = Stage::Command;
            Step::Run(self.op)
        } else {
            self.end(Ok(()))
        }
    }

    /// Takes the outcome of what the last step asked for, and says what to do next.
    pub fn advance(&mut self, out: &Outcome) -> (step: Step)
        requires
            old(self).wf(),
            old(self)@.stage != Stage::Finished,
        ensures
            final(self).wf(),
            (final(self)@, step@) == next(old(self)@, *out),
    {
        match self.stage {
            Stage::CheckKey => {
                let fact = key_status_from(&self.dataset, out);
                self.answer(fact)
            },
            Stage::CheckMount => {
                let fact = mount_status_from(&self.dataset, out);
                self.answer(fact)
            },
            _ => {
                let r = command_result_from(self.op, &self.dataset, out);
                self.end(r)
            },
        }
    }
}

/// The arguments of the external tool's listing `q`: no header, fixed columns.
pub open spec fn query_args(q: Query) -> Seq<Seq<char>> {
    match q {
        Query::KeyStatus => seq!["zfs"@, "get"@, "keystatus"@, "-H"@, "-o"@, "name,value"@],
        Query::MountStatus => seq!["zfs"@, "list"@, "-H"@, "-o"@, "name,mounted"@],
        Query::Mountpoints => seq!["zfs"@, "list"@, "-H"@, "-o"@, "name,mountpoint"@],
        Query::EncryptedDatasets => seq![
            "zfs"@,
            "list"@,
            "-H"@,
            "-o"@,
            "name,mounted,keystatus"@,
        ],
    }
}

/// The subcommand of the external tool that performs `op`.
pub open spec fn subcommand(op: Operation) -> Seq<char> {
    match op {
        Operation::LoadKey => "load-key"@,
        Operation::UnloadKey => "unload-key"@,
        Operation::Mount => "mount"@,
        Operation::Unmount => "umount"@,
    }
}

/// The argument vector of the command that performs `op` on `dataset`: the external tool,
/// run through non-interactive `sudo`, with the dataset as its one operand.
pub open spec fn command_args(op: Operation, dataset: Seq<char>) -> Seq<Seq<char>> {
    seq!["sudo"@, "-n"@, "zfs"@, subcommand(op), dataset]
}

fn push_arg(v: &mut Vec<String>, a: &str)
    ensures
        final(v).deep_view() == old(v).deep_view().push(a@),
{
    let ghost before = v.deep_view();
    v.push(a.to_owned());
    assert(v.deep_view() =~= before.push(a@));
}

/// The argument vector of the listing `q`.
pub fn query_argv(q: Query) -> (r: Vec<String>)
    ensures
        r.deep_view() == query_args(q),
{
    let mut v: Vec<String> = Vec::new();
    assert(v.deep_view() =~= seq![]);
    match q {
        Query::KeyStatus => {
            push_arg(&mut v, "zfs");
            push_arg(&mut v, "get");
            push_arg(&mut v, "keystatus");
        },
        _ => {
            push_arg(&mut v, "zfs");
            push_arg(&mut v, "list");
        },
    }
    push_arg(&mut v, "-H");
    push_arg(&mut v, "-o");
    match q {
        Query::KeyStatus => push_arg(&mut v, "name,value"),
        Query::MountStatus => push_arg(&mut v, "name,mounted"),
        Query::Mountpoints => push_arg(&mut v, "name,mountpoint"),
        Query::EncryptedDatasets => push_arg(&mut v, "name,mounted,keystatus"),
    }
    assert(v.deep_view() =~= query_args(q));
    v
}

/// The argument vector of the command that performs `op` on `dataset`.
pub fn command_argv(op: Operation, dataset: &String) -> (r: Vec<String>)
    ensures
        r.deep_view() == command_args(op, dataset@),
{
    let mut v: Vec<String> = Vec::new();
    assert(v.deep_view() =~= seq![]);
    push_arg(&mut v, "sudo");
    push_arg(&mut v, "-n");
    push_arg(&mut v, "zfs");
    match op {
        Operation::LoadKey => push_arg(&mut v, "load-key"),
        Operation::UnloadKey => push_arg(&mut v, "unload-key"),
        Operation::Mount => push_arg(&mut v, "mount"),
        Operation::Unmount => push_arg(&mut v, "umount"),
    }
    push_arg(&mut v, dataset.as_str());
    assert(v.deep_view() =~= command_args(op, dataset@));
    v
}

/// What is written to the input of the key-loading command: the passphrase on one line.
pub fn passphrase_input(passphrase: &str) -> (r: String)
    ensures
        r@ == passphrase@.push('\n'),
{
    let mut s = passphrase.to_owned();
    push_char(&mut s, '\n');
    s
}

/// The state of an existing dataset, as its listings report it.
pub struct DatasetModel {
    pub key_loaded: bool,
    pub mounted: bool,
}

/// What the listing read in `stage` reports of a dataset in state `w` (`None`: no such
/// dataset).
pub open spec fn reported(w: Option<DatasetModel>, stage: Stage) -> Result<
    Option<bool>,
    ZfsErrorView,
> {
    match w {
        None => Ok(None),
        Some(s) => Ok(Some(
            if stage == Stage::CheckKey {
                s.key_loaded
            } else {
                s.mounted
            },
        )),
    }
}

/// The state of the dataset after the command of `op` succeeded on it.
pub open spec fn performed(w: Option<DatasetModel>, op: Operation) -> Option<DatasetModel> {
    match w {
        None => None,
        Some(s) => Some(
            match op {
                Operation::LoadKey => DatasetModel { key_loaded: true, ..s },
                Operation::UnloadKey => DatasetModel { key_loaded: false, ..s },
                Operation::Mount => DatasetModel { mounted: true, ..s },
                Operation::Unmount => DatasetModel { mounted: false, ..s },
            },
        ),
    }
}

/// Runs `m` from `step` for at most `fuel` steps against a dataset in state `w`, where every
/// listing reports the dataset's state and every command succeeds. Gives the result (`None`
/// where the fuel ran out), the commands run, in order, and the dataset's final state.
pub open spec fn drive(m: LifecycleView, step: StepView, w: Option<DatasetModel>, fuel: nat) -> (
    Option<Result<(), ZfsErrorView>>,
    Seq<Operation>,
    Option<DatasetModel>,
)
    decreases fuel,
{
    match step {
        StepView::Done(r) => (Some(r), seq![], w),
        StepView::Query(_) => if fuel == 0 {
            (None, seq![], w)
        } else {
            let (m2, s2) = on_answer(m, reported(w, m.stage));
            drive(m2, s2, w, (fuel - 1) as nat)
        },
        StepView::Run(op) => if fuel == 0 {
            (None, seq![], w)
        } else {
            let (m2, s2) = finish(m, Ok(()));
            let rest = drive(m2, s2, performed(w, op), (fuel - 1) as nat);
            (rest.0, seq![op] + rest.1, rest.2)
        },
    }
}

/// One whole call of `op` on the name `raw` against a dataset in state `w`, as [`drive`]
/// runs it.
pub open spec fn session(op: Operation, raw: Seq<char>, w: Option<DatasetModel>) -> (
    Option<Result<(), ZfsErrorView>>,
    Seq<Operation>,
    Option<DatasetModel>,
) {
    let (m, step) = start_spec(op, raw);
    drive(m, step, w, 3)
}

/// Mounting a dataset whose key is loaded, twice in a row, runs the mount command once if the
/// dataset was not mounted and never if it was; both calls succeed, and the second runs
/// nothing.
pub proof fn lemma_mount_twice_mounts_once(raw: Seq<char>, mounted: bool)
    requires
        valid_dataset_name(trim(raw)),
    ensures
        ({
            let w = Some(DatasetModel { key_loaded: true, mounted });
            let first = session(Operation::Mount, raw, w);
            let second = session(Operation::Mount, raw, first.2);
            &&& first.0 == Some(Ok::<(), ZfsErrorView>(()))
            &&& second.0 == Some(Ok::<(), ZfsErrorView>(()))
            &&& first.1 + second.1 == if mounted {
                seq![]
            } else {
                seq![Operation::Mount]
            }
            &&& second.1 == Seq::<Operation>::empty()
            &&& second.2 == Some(DatasetModel { key_loaded: true, mounted: true })
        }),
{
    reveal_with_fuel(drive, 4);
    let w = Some(DatasetModel { key_loaded: true, mounted });
    let first = session(Operation::Mount, raw, w);
    let second = session(Operation::Mount, raw, first.2);
    if mounted {
        assert(first.1 + second.1 =~= seq![]);
    } else {
        assert(first.1 + second.1 =~= seq![Operation::Mount]);
    }
}

/// Whatever the listing said of the mounted flag, a mount on a dataset whose key status reads
/// as not loaded ends at once with `KeyNotLoadedForMount`: the mount command is not run.
pub proof fn lemma_mount_refused_without_key(m: LifecycleView, out: Outcome)
    requires
        m.op == Operation::Mount,
        m.stage == Stage::CheckKey,
        key_status_result(m.dataset, out) == Ok::<Option<bool>, ZfsErrorView>(Some(false)),
    ensures
        next(m, out) == finish(m, Err(ZfsErrorView::KeyNotLoadedForMount(m.dataset))),
{
}

/// A whole mount call on a dataset whose key is not loaded fails with `KeyNotLoadedForMount`,
/// runs no command, and leaves the dataset as it was.
pub proof fn lemma_mount_without_key_runs_nothing(raw: Seq<char>, mounted: bool)
    requires
        valid_dataset_name(trim(raw)),
    ensures
        ({
            let w = Some(DatasetModel { key_loaded: false, mounted });
            session(Operation::Mount, raw, w) == (
                Some(Err::<(), ZfsErrorView>(ZfsErrorView::KeyNotLoadedForMount(trim(raw)))),
                Seq::<Operation>::empty(),
                w,
            )
        }),
{
    reveal_with_fuel(drive, 4);
}

/// Loading the key of a dataset whose key is not loaded, then unloading it, runs each command
/// once, succeeds twice, and leaves the dataset as it was: key not loaded.
pub proof fn lemma_load_then_unload_round_trip(raw: Seq<char>, mounted: bool)
    requires
        valid_dataset_name(trim(raw)),
    ensures
        ({
            let w = Some(DatasetModel { key_loaded: false, mounted });
            let load = session(Operation::LoadKey, raw, w);
            let unload = session(Operation::UnloadKey, raw, load.2);
            &&& load.0 == Some(Ok::<(), ZfsErrorView>(()))
            &&& unload.0 == Some(Ok::<(), ZfsErrorView>(()))
            &&& load.1 == seq![Operation::LoadKey]
            &&& unload.1 == seq![Operation::UnloadKey]
            &&& load.2 == Some(DatasetModel { key_loaded: true, mounted })
            &&& unload.2 == w
        }),
{
    reveal_with_fuel(drive, 4);
    let w = Some(DatasetModel { key_loaded: false, mounted });
    let load = session(Operation::LoadKey, raw, w);
    assert(load.1 =~= seq![Operation::LoadKey]);
    let unload = session(Operation::UnloadKey, raw, load.2);
    assert(unload.1 =~= seq![Operation::UnloadKey]);
}

} // verus!
