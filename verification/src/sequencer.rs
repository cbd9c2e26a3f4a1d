//! The sequencer: it hands out the steps of a plan one at a time and decides,
//! from what became of each, whether the bootstrap goes on.
//!
//! The sequencer performs nothing itself. Whoever drives it takes the
//! pending step, performs it, and reports the outcome; the sequencer then
//! moves on, or stops for good if a required step failed. Steps are handed
//! out in the order of the plan, each one once, and a step is handed out
//! only when every required step before it has succeeded.

use vstd::prelude::*;

use crate::bootstrap::BootPlan;
use crate::error::{opt_error, Cause, CauseView, InitError, InitErrorView, OpKind};
use crate::order::{
    admits, device_tree_mount, enter_new_root, enter_root, for_guest_root, leave_old_root, makes,
    moves_onto_root, pivot, switch_at, uses_device_tree, well_ordered,
};
use crate::plan::{steps_view, Operation, OperationView, Step, StepView};

verus! {

/// What became of a step.
#[derive(Clone, Copy, Debug, PartialEq, Eq, Structural)]
pub enum StepOutcome {
    /// The step did its work.
    Done,
    /// The step failed with the given error number.
    Failed { errno: i32 },
}

/// What the limit on open file descriptors is called in an error.
pub const FD_LIMIT_NAME: &'static str = "nofile";

/// The kind of error that a failure of `op` makes.
pub open spec fn kind_of(op: OperationView) -> OpKind {
    match op {
        OperationView::MakeDir { .. } => OpKind::CreateDirectory,
        OperationView::Mount(_) => OpKind::Mount,
        OperationView::ChangeDir { .. } => OpKind::ChangeDirectory,
        OperationView::ChangeRoot { .. } => OpKind::ChangeRoot,
        OperationView::Symlink { .. } => OpKind::Symlink,
        OperationView::RaiseFdLimit { .. } => OpKind::ResourceLimit,
        OperationView::WriteFile { .. } => OpKind::WriteFile,
        OperationView::SetHostname { .. } => OpKind::Hostname,
    }
}

/// What `op` was applied to: the path it creates, mounts on, enters, links
/// or writes; the host name; the name of the limit.
pub open spec fn subject_of(op: OperationView) -> Seq<char> {
    match op {
        OperationView::MakeDir { path, .. } => path,
        OperationView::Mount(m) => m.target,
        OperationView::ChangeDir { path } => path,
        OperationView::ChangeRoot { path } => path,
        OperationView::Symlink { link, .. } => link,
        OperationView::RaiseFdLimit { .. } => FD_LIMIT_NAME@,
        OperationView::WriteFile { path, .. } => path,
        OperationView::SetHostname { name } => name,
    }
}

/// The second path of `op`, where it has one: the source of a mount, the
/// text that a link points at.
pub open spec fn origin_of(op: OperationView) -> Option<Seq<char>> {
    match op {
        OperationView::Mount(m) => Some(m.source),
        OperationView::Symlink { target, .. } => Some(target),
        _ => None,
    }
}

/// The error that a failure of `step` with `errno` makes: the kind of its
/// operation, its path or paths, and the error number as the cause.
pub open spec fn failure_of(step: StepView, errno: i32) -> InitErrorView {
    InitErrorView {
        kind: kind_of(step.op),
        subject: subject_of(step.op),
        origin: origin_of(step.op),
        cause: CauseView::Errno(errno),
    }
}

/// The error that a failure of `step` with `errno` makes.
pub fn classify(step: &Step, errno: i32) -> (e: InitError)
    ensures
        e@ == failure_of(step@, errno),
{
    let cause = Cause::Errno(errno);
    match &step.op {
        Operation::MakeDir { path, .. } => InitError::about(
            OpKind::CreateDirectory,
            path.as_str(),
            cause,
        ),
        Operation::Mount(m) => InitError::between(
            OpKind::Mount,
            m.source.as_str(),
            m.target.as_str(),
            cause,
        ),
        Operation::ChangeDir { path } => InitError::about(
            OpKind::ChangeDirectory,
            path.as_str(),
            cause,
        ),
        Operation::ChangeRoot { path } => InitError::about(
            OpKind::ChangeRoot,
            path.as_str(),
            cause,
        ),
        Operation::Symlink { target, link } => InitError::between(
            OpKind::Symlink,
            target.as_str(),
            link.as_str(),
            cause,
        ),
        Operation::RaiseFdLimit { .. } => InitError::about(
            OpKind::ResourceLimit,
            FD_LIMIT_NAME,
            cause,
        ),
        Operation::WriteFile { path, .. } => InitError::about(
            OpKind::WriteFile,
            path.as_str(),
            cause,
        ),
        Operation::SetHostname { name } => InitError::about(OpKind::Hostname, name.as_str(), cause),
    }
}

/// The state of a sequencer: the plan, the outcomes of the steps that are
/// behind it, and the failure that stopped it, if one did.
pub struct SequencerView {
    pub plan: Seq<StepView>,
    pub outcomes: Seq<StepOutcome>,
    pub failure: Option<InitErrorView>,
}

impl SequencerView {
    /// The state before the first step.
    pub open spec fn start(plan: Seq<StepView>) -> SequencerView {
        SequencerView { plan, outcomes: Seq::empty(), failure: None }
    }

    /// The number of steps that are behind the sequencer.
    pub open spec fn cursor(self) -> int {
        self.outcomes.len() as int
    }

    /// The step to perform next, unless the plan is done or has failed.
    pub open spec fn pending(self) -> Option<StepView> {
        if self.failure is None && self.cursor() < self.plan.len() {
            Some(self.plan[self.cursor()])
        } else {
            None
        }
    }

    /// True if every step is behind the sequencer.
    pub open spec fn finished(self) -> bool {
        self.failure is None && self.cursor() == self.plan.len()
    }

    /// The state after the pending step had the given outcome.
    ///
    /// A step that did its work is behind the sequencer, and so is a failed
    /// step that is not required. A failed required step stops the
    /// sequencer where it is, with the error of that step. Where no step is
    /// pending, nothing changes.
    pub open spec fn record(self, outcome: StepOutcome) -> SequencerView {
        match self.pending() {
            None => self,
            Some(step) => match outcome {
                StepOutcome::Failed { errno } if step.required => SequencerView {
                    failure: Some(failure_of(step, errno)),
                    ..self
                },
                _ => SequencerView { outcomes: self.outcomes.push(outcome), ..self },
            },
        }
    }

    /// The state after the given outcomes were recorded one after the other.
    pub open spec fn run(self, outcomes: Seq<StepOutcome>) -> SequencerView
        decreases outcomes.len(),
    {
        if outcomes.len() == 0 {
            self
        } else {
            self.run(outcomes.drop_last()).record(outcomes.last())
        }
    }

    /// What holds of every state that a sequencer can be in:
    ///
    /// - the plan keeps the order;
    /// - the steps behind the sequencer are the first ones of the plan, and
    ///   the required ones among them did their work;
    /// - a failure is that of the step the sequencer stopped at, which is a
    ///   required one.
    pub open spec fn valid(self) -> bool {
        &&& well_ordered(self.plan)
        &&& self.cursor() <= self.plan.len()
        &&& forall|i: int|
            0 <= i < self.cursor() && (#[trigger] self.plan[i]).required ==> self.outcomes[i]
                is Done
        &&& self.failure matches Some(e) ==> {
            &&& self.cursor() < self.plan.len()
            &&& self.plan[self.cursor()].required
            &&& exists|errno: i32| e == #[trigger] failure_of(self.plan[self.cursor()], errno)
        }
    }

    /// True if step `i` is behind the sequencer and did its work.
    pub open spec fn succeeded(self, i: int) -> bool {
        0 <= i < self.cursor() && self.outcomes[i] is Done
    }
}

/// A valid state stays valid whatever outcome is recorded.
pub proof fn lemma_record_valid(s: SequencerView, outcome: StepOutcome)
    requires
        s.valid(),
    ensures
        s.record(outcome).valid(),
        s.record(outcome).plan == s.plan,
{
    let next = s.record(outcome);
    if let Some(step) = s.pending() {
        if let Some(e) = next.failure {
            let errno = outcome->errno;
            assert(e == failure_of(s.plan[s.cursor()], errno));
        }
    }
}

/// Every state that is reached from the start of a well-ordered plan is
/// valid, whatever the outcomes were.
pub proof fn lemma_run_valid(plan: Seq<StepView>, outcomes: Seq<StepOutcome>)
    requires
        well_ordered(plan),
    ensures
        SequencerView::start(plan).run(outcomes).valid(),
        SequencerView::start(plan).run(outcomes).plan == plan,
    decreases outcomes.len(),
{
    if outcomes.len() > 0 {
        lemma_run_valid(plan, outcomes.drop_last());
        lemma_record_valid(SequencerView::start(plan).run(outcomes.drop_last()), outcomes.last());
    }
}

/// A failure is final: once a required step has failed, no outcome that is
/// recorded afterwards changes anything, and no step is handed out again.
pub proof fn lemma_failure_is_final(s: SequencerView, outcomes: Seq<StepOutcome>)
    requires
        s.failure is Some,
    ensures
        s.run(outcomes) == s,
        s.run(outcomes).pending() is None,
    decreases outcomes.len(),
{
    if outcomes.len() > 0 {
        lemma_failure_is_final(s, outcomes.drop_last());
    }
}

/// A required step that fails stops the bootstrap with an error that names
/// the operation, its path or paths and the error number, and nothing that
/// is reported afterwards revives it.
pub proof fn lemma_required_failure_halts(
    s: SequencerView,
    errno: i32,
    later: Seq<StepOutcome>,
)
    requires
        s.pending() is Some,
        s.pending()->0.required,
    ensures
        s.record(StepOutcome::Failed { errno }).run(later).failure == Some(
            failure_of(s.pending()->0, errno),
        ),
        s.record(StepOutcome::Failed { errno }).run(later).pending() is None,
        s.record(StepOutcome::Failed { errno }).run(later).cursor() == s.cursor(),
{
    lemma_failure_is_final(s.record(StepOutcome::Failed { errno }), later);
}

/// The steps that are behind a valid sequencer may be followed by the
/// pending one.
pub proof fn lemma_pending_admitted(s: SequencerView)
    requires
        s.valid(),
        s.pending() is Some,
    ensures
        admits(s.plan.take(s.cursor()), s.pending()->0),
{
}

/// A step that uses the device tree is handed out only after the mount of
/// the device tree has succeeded.
pub proof fn lemma_device_tree_before_use(s: SequencerView)
    requires
        s.valid(),
        s.pending() is Some,
        uses_device_tree(s.pending()->0.op),
    ensures
        exists|j: int| #[trigger] s.succeeded(j) && s.plan[j] == device_tree_mount(),
{
    let done = s.plan.take(s.cursor());
    assert(admits(done, s.plan[s.cursor()]));
    let j = choose|j: int| 0 <= j < done.len() && done[j] == device_tree_mount();
    assert(s.succeeded(j));
}

/// A mount is handed out only after a step that creates its target was
/// attempted, unless it is the move onto the root.
pub proof fn lemma_directory_before_mount(s: SequencerView)
    requires
        s.valid(),
        s.pending() matches Some(step) && step.op matches OperationView::Mount(m)
            && !moves_onto_root(m),
    ensures
        exists|j: int|
            0 <= j < s.cursor() && makes(#[trigger] s.plan[j], s.pending()->0.op->Mount_0.target),
{
    let done = s.plan.take(s.cursor());
    let target = s.pending()->0.op->Mount_0.target;
    assert(admits(done, s.plan[s.cursor()]));
    let j = choose|j: int| 0 <= j < done.len() && makes(#[trigger] done[j], target);
    assert(s.plan[j] == done[j]);
}

/// True if the four steps of the root switch are steps `k` to `k + 3` of the
/// plan and all of them succeeded.
pub open spec fn switch_succeeded(s: SequencerView, k: int) -> bool {
    &&& 0 <= k
    &&& k + 4 <= s.cursor()
    &&& s.plan[k] == enter_new_root()
    &&& s.plan[k + 1] == pivot()
    &&& s.plan[k + 2] == leave_old_root()
    &&& s.plan[k + 3] == enter_root()
    &&& s.succeeded(k)
    &&& s.succeeded(k + 1)
    &&& s.succeeded(k + 2)
    &&& s.succeeded(k + 3)
}

/// A step that names a path of the guest's own root (a mount on anything
/// but a staging mount point, for one) is handed out only after the whole
/// root switch has succeeded.
pub proof fn lemma_switch_before_guest_root(s: SequencerView)
    requires
        s.valid(),
        s.pending() is Some,
        for_guest_root(s.pending()->0),
    ensures
        exists|k: int| #[trigger] switch_succeeded(s, k),
{
    let done = s.plan.take(s.cursor());
    assert(admits(done, s.plan[s.cursor()]));
    let k = choose|k: int| #[trigger] switch_at(done, k);
    assert(s.plan[k] == done[k]);
    assert(s.plan[k + 1] == done[k + 1]);
    assert(s.plan[k + 2] == done[k + 2]);
    assert(s.plan[k + 3] == done[k + 3]);
    assert(switch_succeeded(s, k));
}

/// What the sequencer made of an outcome.
#[derive(Clone, Debug, PartialEq, Eq)]
pub enum Progress {
    /// The step did its work; the sequencer moved on.
    Advanced,
    /// A step that is not required failed; the sequencer moved on. The
    /// error is for the record only.
    Tolerated(InitError),
    /// A required step failed; the sequencer has stopped for good.
    Halted,
    /// No step was pending; the outcome was dropped.
    Idle,
}

/// What [`Sequencer::record`] reports for an outcome that arrives in state
/// `s`.
pub open spec fn progress_of(s: SequencerView, outcome: StepOutcome) -> ProgressView {
    match s.pending() {
        None => ProgressView::Idle,
        Some(step) => match outcome {
            StepOutcome::Done => ProgressView::Advanced,
            StepOutcome::Failed { errno } => if step.required {
                ProgressView::Halted
            } else {
                ProgressView::Tolerated(failure_of(step, errno))
            },
        },
    }
}

/// The mathematical model of [`Progress`].
pub enum ProgressView {
    Advanced,
    Tolerated(InitErrorView),
    Halted,
    Idle,
}

impl View for Progress {
    type V = ProgressView;

    open spec fn view(&self) -> ProgressView {
        match *self {
            Progress::Advanced => ProgressView::Advanced,
            Progress::Tolerated(e) => ProgressView::Tolerated(e@),
            Progress::Halted => ProgressView::Halted,
            Progress::Idle => ProgressView::Idle,
        }
    }
}

/// The sequencer of one bootstrap.
#[derive(Debug)]
pub struct Sequencer {
    steps: Vec<Step>,
    outcomes: Vec<StepOutcome>,
    failure: Option<InitError>,
}

impl View for Sequencer {
    type V = SequencerView;

    closed spec fn view(&self) -> SequencerView {
        SequencerView {
            plan: steps_view(self.steps@),
            outcomes: self.outcomes@,
            failure: opt_error(self.failure),
        }
    }
}

impl Sequencer {
    #[verifier::type_invariant]
    spec fn well_formed(self) -> bool {
        self@.valid()
    }

    /// A sequencer at the start of `plan`.
    pub fn new(plan: BootPlan) -> (s: Sequencer)
        ensures
            s@ == SequencerView::start(plan@),
            s@.valid(),
    {
        let steps = plan.into_steps();
        Sequencer { steps, outcomes: Vec::new(), failure: None }
    }

    /// The step to perform next. There is none once the plan is done or a
    /// required step has failed.
    pub fn pending(&self) -> (step: Option<&Step>)
        ensures
            self@.valid(),
            match step {
                Some(s) => self@.pending() == Some(s@),
                None => self@.pending() is None,
            },
    {
        proof {
            use_type_invariant(self);
        }
        if self.failure.is_none() && self.outcomes.len() < self.steps.len() {
            Some(&self.steps[self.outcomes.len()])
        } else {
            None
        }
    }

    /// Records what became of the pending step, and gives the sequencer
    /// back together with what it made of the outcome.
    pub fn record(self, outcome: StepOutcome) -> (r: (Sequencer, Progress))
        ensures
            r.0@ == self@.record(outcome),
            r.0@.valid(),
            r.1@ == progress_of(self@, outcome),
    {
        proof {
            use_type_invariant(&self);
            lemma_record_valid(self@, outcome);
        }
        if self.failure.is_some() || self.outcomes.len() >= self.steps.len() {
            return (self, Progress::Idle);
        }
        let Sequencer { steps, mut outcomes, failure } = self;
        match outcome {
            StepOutcome::Done => {
                outcomes.push(outcome);
                (Sequencer { steps, outcomes, failure }, Progress::Advanced)
            },
            StepOutcome::Failed { errno } => {
                let error = classify(&steps[outcomes.len()], errno);
                if steps[outcomes.len()].required {
                    (Sequencer { steps, outcomes, failure: Some(error) }, Progress::Halted)
                } else {
                    outcomes.push(outcome);
                    (Sequencer { steps, outcomes, failure }, Progress::Tolerated(error))
                }
            },
        }
    }

    /// True if every step is behind the sequencer.
    pub fn finished(&self) -> (done: bool)
        ensures
            done == self@.finished(),
            self@.valid(),
    {
        proof {
            use_type_invariant(self);
        }
        self.failure.is_none() && self.outcomes.len() == self.steps.len()
    }

    /// The failure that stopped the sequencer, if one did.
    pub fn failure(&self) -> (e: Option<&InitError>)
        ensures
            self@.valid(),
            match e {
                Some(e) => self@.failure == Some(e@),
                None => self@.failure is None,
            },
    {
        proof {
            use_type_invariant(self);
        }
        self.failure.as_ref()
    }

    /// The number of steps that are behind the sequencer.
    pub fn completed(&self) -> (n: usize)
        ensures
            n == self@.cursor(),
    {
        self.outcomes.len()
    }
}

} // verus!
