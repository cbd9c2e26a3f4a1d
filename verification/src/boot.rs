//! The whole start-up of a guest, from the first step of the bootstrap to
//! the moment the control plane may be served.
//!
//! Start-up is strictly sequential: first every step of the bootstrap plan,
//! then every request of the network configurator, and only then the
//! services. A failure on the way is final. The agent names what is to be
//! done next; whoever drives it does it and reports what happened.

use vstd::prelude::*;

use crate::bootstrap::BootPlan;
use crate::error::{InitError, InitErrorView};
use crate::net::{Link, NetAction, NetReply, NetReplyView, NetState, NetStateView};
use crate::order::well_ordered;
use crate::plan::{Step, StepView};
use crate::sequencer::{
    failure_of, lemma_record_valid, progress_of, Progress, Sequencer, SequencerView, StepOutcome,
};

verus! {

/// What is to be done next.
#[derive(Debug)]
pub enum Directive<'a> {
    /// Perform this step of the bootstrap and report its outcome.
    Perform(&'a Step),
    /// Make this request to the network and report the reply.
    Configure(NetAction),
    /// Start-up is complete: start the control plane and the reaper.
    Serve,
    /// Start-up has failed: end the process with this error.
    Halt(&'a InitError),
}

/// The mathematical model of [`Directive`].
pub enum DirectiveView {
    Perform(StepView),
    Configure(NetAction),
    Serve,
    Halt(InitErrorView),
}

impl<'a> View for Directive<'a> {
    type V = DirectiveView;

    open spec fn view(&self) -> DirectiveView {
        match *self {
            Directive::Perform(step) => DirectiveView::Perform(step@),
            Directive::Configure(action) => DirectiveView::Configure(action),
            Directive::Serve => DirectiveView::Serve,
            Directive::Halt(e) => DirectiveView::Halt(e@),
        }
    }
}

/// Something that is reported to the agent.
pub enum Event {
    /// The outcome of the step that was to be performed.
    Step(StepOutcome),
    /// The reply to the request that was to be made.
    Net(NetReplyView),
}

/// The state of start-up.
pub struct InitView {
    pub sequencer: SequencerView,
    pub network: NetStateView,
}

impl InitView {
    /// The state before anything is done.
    pub open spec fn start(plan: Seq<StepView>) -> InitView {
        InitView { sequencer: SequencerView::start(plan), network: NetStateView::OpenChannel }
    }

    /// What is to be done next.
    ///
    /// As long as the bootstrap has a step pending, that step. After a
    /// failed required step, nothing but to halt. Once the bootstrap is
    /// done, the pending request of the network; after a failure of the
    /// network, nothing but to halt. Once the network is ready, to serve.
    pub open spec fn directive(self) -> DirectiveView {
        if let Some(e) = self.sequencer.failure {
            DirectiveView::Halt(e)
        } else if let Some(step) = self.sequencer.pending() {
            DirectiveView::Perform(step)
        } else {
            match self.network {
                NetStateView::Failed(e) => DirectiveView::Halt(e),
                NetStateView::Ready { .. } => DirectiveView::Serve,
                _ => DirectiveView::Configure(self.network.pending()->0),
            }
        }
    }

    /// The state after the outcome of a step was reported.
    pub open spec fn step_done(self, outcome: StepOutcome) -> InitView {
        InitView { sequencer: self.sequencer.record(outcome), ..self }
    }

    /// The state after a reply of the network was reported. A reply that
    /// arrives while the bootstrap is not done, or after it has failed, is
    /// dropped.
    pub open spec fn replied(self, reply: NetReplyView) -> InitView {
        if self.sequencer.finished() {
            InitView { network: self.network.advance(reply), ..self }
        } else {
            self
        }
    }

    /// The state after `event` was reported.
    pub open spec fn apply(self, event: Event) -> InitView {
        match event {
            Event::Step(outcome) => self.step_done(outcome),
            Event::Net(reply) => self.replied(reply),
        }
    }

    /// The state after the given events were reported one after the other.
    pub open spec fn run(self, events: Seq<Event>) -> InitView
        decreases events.len(),
    {
        if events.len() == 0 {
            self
        } else {
            self.run(events.drop_last()).apply(events.last())
        }
    }

    /// True if the sequencer is in a state that it can be in.
    pub open spec fn valid(self) -> bool {
        self.sequencer.valid()
    }
}

/// A valid state stays valid whatever is reported.
pub proof fn lemma_apply_valid(s: InitView, event: Event)
    requires
        s.valid(),
    ensures
        s.apply(event).valid(),
{
    if let Event::Step(outcome) = event {
        lemma_record_valid(s.sequencer, outcome);
    }
}

/// Every state that start-up reaches from the start of a well-ordered plan
/// is valid, whatever was reported on the way.
pub proof fn lemma_run_valid(plan: Seq<StepView>, events: Seq<Event>)
    requires
        well_ordered(plan),
    ensures
        InitView::start(plan).run(events).valid(),
    decreases events.len(),
{
    if events.len() > 0 {
        lemma_run_valid(plan, events.drop_last());
        lemma_apply_valid(InitView::start(plan).run(events.drop_last()), events.last());
    }
}

/// The services are started only when the bootstrap is done, with every
/// required step behind it, and the network is ready.
pub proof fn lemma_serve_needs_everything(s: InitView)
    requires
        s.valid(),
    ensures
        s.directive() is Serve <==> s.sequencer.finished() && s.network is Ready,
        s.directive() is Configure ==> s.sequencer.finished(),
{
}

/// Once start-up has failed, it has failed for good: whatever is reported
/// afterwards, the directive is to halt with the same error.
pub proof fn lemma_halt_is_final(s: InitView, events: Seq<Event>)
    requires
        s.directive() is Halt,
    ensures
        s.run(events) == s,
    decreases events.len(),
{
    if events.len() > 0 {
        lemma_halt_is_final(s, events.drop_last());
    }
}

/// A required step of the bootstrap that fails ends start-up: the directive
/// is to halt with the error of that step, which names the operation, its
/// path or paths and the error number, and stays so whatever is reported
/// afterwards.
pub proof fn lemma_required_step_failure_halts(
    s: InitView,
    step: StepView,
    errno: i32,
    later: Seq<Event>,
)
    requires
        s.directive() == DirectiveView::Perform(step),
        step.required,
    ensures
        s.step_done(StepOutcome::Failed { errno }).run(later).directive() == DirectiveView::Halt(
            failure_of(step, errno),
        ),
{
    lemma_halt_is_final(s.step_done(StepOutcome::Failed { errno }), later);
}

/// If the primary interface cannot be resolved, the services are never
/// started: whatever the lookup reports other than the interface, and
/// whatever is reported afterwards, the directive is to halt.
pub proof fn lemma_unresolved_primary_never_serves(
    s: InitView,
    reply: NetReplyView,
    later: Seq<Event>,
)
    requires
        s.valid(),
        s.directive() == DirectiveView::Configure(NetAction::ResolveLink { link: Link::Primary }),
        !(reply is Link),
    ensures
        s.replied(reply).run(later).directive() is Halt,
        !(s.replied(reply).run(later).directive() is Serve),
{
    lemma_halt_is_final(s.replied(reply), later);
}

/// The agent that leads a guest through start-up.
#[derive(Debug)]
pub struct Init {
    sequencer: Sequencer,
    network: NetState,
}

impl View for Init {
    type V = InitView;

    closed spec fn view(&self) -> InitView {
        InitView { sequencer: self.sequencer@, network: self.network@ }
    }
}

impl Init {
    /// The agent at the start of `plan`.
    pub fn new(plan: BootPlan) -> (init: Init)
        ensures
            init@ == InitView::start(plan@),
            init@.valid(),
    {
        Init { sequencer: Sequencer::new(plan), network: NetState::new() }
    }

    /// What is to be done next.
    pub fn directive(&self) -> (d: Directive<'_>)
        ensures
            d@ == self@.directive(),
            self@.valid(),
    {
        if let Some(e) = self.sequencer.failure() {
            return Directive::Halt(e);
        }
        if let Some(step) = self.sequencer.pending() {
            return Directive::Perform(step);
        }
        if let Some(e) = self.network.failure() {
            return Directive::Halt(e);
        }
        match self.network.pending() {
            Some(action) => Directive::Configure(action),
            None => Directive::Serve,
        }
    }

    /// Reports the outcome of the step that was to be performed.
    pub fn step_done(self, outcome: StepOutcome) -> (r: (Init, Progress))
        ensures
            r.0@ == self@.step_done(outcome),
            r.0@.valid(),
            r.1@ == progress_of(self@.sequencer, outcome),
    {
        let Init { sequencer, network } = self;
        let (sequencer, progress) = sequencer.record(outcome);
        (Init { sequencer, network }, progress)
    }

    /// Reports the reply to the request that was to be made.
    pub fn replied(self, reply: NetReply) -> (init: Init)
        ensures
            init@ == self@.replied(reply@),
            init@.valid(),
    {
        let Init { sequencer, network } = self;
        if sequencer.finished() {
            Init { sequencer, network: network.advance(reply) }
        } else {
            Init { sequencer, network }
        }
    }
}

} // verus!
