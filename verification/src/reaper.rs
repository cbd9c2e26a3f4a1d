//! The reaper: how the exits of children are collected.
//!
//! The process that runs this agent is the first of its namespace, so every
//! orphan becomes its child, and a child whose exit nobody collects keeps
//! its slot in the process table for good. The signal that a child has
//! changed state does not count children: several may exit before it is
//! looked at once. So every wake starts a drain, and a drain polls until a
//! poll finds nothing more to collect.
//!
//! The reaper is the only place where an exit is collected. A command that
//! the control plane starts is not waited for by whoever started it (see
//! [`crate::control`]), so each exit is collected once, here.
//!
//! Nothing here waits or polls. The caller polls for any child without
//! blocking, reports what the poll found, and is told whether to poll again.

use vstd::prelude::*;

verus! {

/// What a poll for any child found.
#[derive(Clone, Copy, Debug, PartialEq, Eq, Structural)]
pub enum WaitOutcome {
    /// The child `pid` ended by itself, and its exit was collected.
    Exited { pid: i32, code: i32 },
    /// The child `pid` was ended by a signal, and its exit was collected.
    Signaled { pid: i32, signal: i32 },
    /// The child `pid` changed state without ending: it was stopped, traced
    /// or continued.
    Changed { pid: i32 },
    /// There are children, and none of them has anything to report.
    StillRunning,
    /// There is no child.
    NoChildren,
    /// The poll failed.
    Failed { errno: i32 },
}

/// What to do after a wake or a poll.
#[derive(Clone, Copy, Debug, PartialEq, Eq, Structural)]
pub enum ReapNext {
    /// Poll again, without blocking.
    PollAgain,
    /// Wait for the next signal that a child has changed state.
    AwaitSignal,
}

/// What a poll leads to: the child to put on record, if an exit was
/// collected, and what to do next.
#[derive(Clone, Copy, Debug, PartialEq, Eq, Structural)]
pub struct ReapStep {
    pub entry: Option<i32>,
    pub next: ReapNext,
}

/// The child whose exit the poll collected, if it collected one. How the
/// child ended makes no difference.
pub open spec fn exit_of(outcome: WaitOutcome) -> Option<i32> {
    match outcome {
        WaitOutcome::Exited { pid, .. } => Some(pid),
        WaitOutcome::Signaled { pid, .. } => Some(pid),
        _ => None,
    }
}

/// True if the poll found a child to report, so that there may be more.
pub open spec fn found_child(outcome: WaitOutcome) -> bool {
    outcome is Exited || outcome is Signaled || outcome is Changed
}

/// What a poll with the given outcome leads to: a child whose exit was
/// collected is put on record, and as long as polls find children the drain
/// goes on.
pub open spec fn step_of(outcome: WaitOutcome) -> ReapStep {
    ReapStep {
        entry: exit_of(outcome),
        next: if found_child(outcome) {
            ReapNext::PollAgain
        } else {
            ReapNext::AwaitSignal
        },
    }
}

/// What a wake leads to: always a poll.
pub fn wake() -> (next: ReapNext)
    ensures
        next == ReapNext::PollAgain,
{
    ReapNext::PollAgain
}

/// What the poll with the given outcome leads to.
pub fn observe(outcome: WaitOutcome) -> (step: ReapStep)
    ensures
        step == step_of(outcome),
{
    match outcome {
        WaitOutcome::Exited { pid, .. } => ReapStep { entry: Some(pid), next: ReapNext::PollAgain },
        WaitOutcome::Signaled { pid, .. } => ReapStep {
            entry: Some(pid),
            next: ReapNext::PollAgain,
        },
        WaitOutcome::Changed { .. } => ReapStep { entry: None, next: ReapNext::PollAgain },
        _ => ReapStep { entry: None, next: ReapNext::AwaitSignal },
    }
}

/// What one drain amounts to: the children put on record, in order, and the
/// number of polls made.
pub struct Drain {
    pub entries: Seq<i32>,
    pub polls: nat,
}

/// The drain that a wake starts when the polls find `outcomes`, one after
/// the other: it polls as long as it is told to, and no longer.
pub open spec fn drain(outcomes: Seq<WaitOutcome>) -> Drain
    decreases outcomes.len(),
{
    if outcomes.len() == 0 {
        Drain { entries: Seq::empty(), polls: 0 }
    } else {
        let step = step_of(outcomes[0]);
        let rest = if step.next == ReapNext::PollAgain {
            drain(outcomes.skip(1))
        } else {
            Drain { entries: Seq::empty(), polls: 0 }
        };
        Drain {
            entries: match step.entry {
                Some(pid) => seq![pid] + rest.entries,
                None => rest.entries,
            },
            polls: 1 + rest.polls,
        }
    }
}

/// The children whose exits the polls with the given outcomes collected, in
/// the order of the polls.
pub open spec fn exits(outcomes: Seq<WaitOutcome>) -> Seq<i32>
    decreases outcomes.len(),
{
    if outcomes.len() == 0 {
        Seq::empty()
    } else {
        match exit_of(outcomes[0]) {
            Some(pid) => seq![pid] + exits(outcomes.skip(1)),
            None => exits(outcomes.skip(1)),
        }
    }
}

/// A drain collects every child that has exited, however many there are.
///
/// If the polls find the children of `found`, and the poll after them finds
/// nothing more to report, the drain puts exactly the children on record
/// whose exits were collected, each once and in the order of the polls, and
/// ends with that poll, whatever polls would find later.
pub proof fn lemma_drain_collects_all(
    found: Seq<WaitOutcome>,
    last: WaitOutcome,
    later: Seq<WaitOutcome>,
)
    requires
        forall|i: int| 0 <= i < found.len() ==> found_child(#[trigger] found[i]),
        !found_child(last),
    ensures
        drain(found + seq![last] + later).entries == exits(found),
        drain(found + seq![last] + later).polls == found.len() + 1,
    decreases found.len(),
{
    let outcomes = found + seq![last] + later;
    if found.len() == 0 {
        assert(outcomes[0] == last);
        assert(drain(outcomes).entries =~= exits(found));
    } else {
        let rest = found.skip(1);
        assert forall|i: int| 0 <= i < rest.len() implies found_child(#[trigger] rest[i]) by {
            assert(rest[i] == found[i + 1]);
        }
        lemma_drain_collects_all(rest, last, later);
        assert(outcomes[0] == found[0]);
        assert(outcomes.skip(1) =~= rest + seq![last] + later);
    }
}

/// Polls that all collect an exit collect as many exits as there are polls,
/// and the child of each poll is the entry at the same place.
pub proof fn lemma_exits_of_exited(found: Seq<WaitOutcome>)
    requires
        forall|i: int| 0 <= i < found.len() ==> exit_of(#[trigger] found[i]) is Some,
    ensures
        exits(found).len() == found.len(),
        forall|i: int| 0 <= i < found.len() ==> exits(found)[i] == exit_of(#[trigger] found[i])->0,
    decreases found.len(),
{
    if found.len() > 0 {
        let rest = found.skip(1);
        assert forall|i: int| 0 <= i < rest.len() implies exit_of(#[trigger] rest[i]) is Some by {
            assert(rest[i] == found[i + 1]);
        }
        lemma_exits_of_exited(rest);
        assert forall|i: int| 0 <= i < found.len() implies exits(found)[i] == exit_of(
            #[trigger] found[i],
        )->0 by {
            if i > 0 {
                assert(rest[i - 1] == found[i]);
            }
        }
    }
}

/// If some number of children exit between two wakes, the drain of the
/// second wake puts exactly that number of children on record, and none of
/// them twice: where the exits that the polls collect are those of children
/// that are all different, the entries are these children, one entry for
/// each.
pub proof fn lemma_drain_records_each_once(
    found: Seq<WaitOutcome>,
    last: WaitOutcome,
    later: Seq<WaitOutcome>,
)
    requires
        forall|i: int| 0 <= i < found.len() ==> exit_of(#[trigger] found[i]) is Some,
        forall|i: int, j: int|
            0 <= i < j < found.len() ==> exit_of(found[i]) != exit_of(found[j]),
        !found_child(last),
    ensures
        drain(found + seq![last] + later).entries.len() == found.len(),
        drain(found + seq![last] + later).entries.no_duplicates(),
        forall|i: int|
            0 <= i < found.len() ==> drain(found + seq![last] + later).entries[i] == exit_of(
                #[trigger] found[i],
            )->0,
{
    lemma_drain_collects_all(found, last, later);
    lemma_exits_of_exited(found);
    let entries = exits(found);
    assert forall|i: int, j: int| 0 <= i < j < entries.len() implies entries[i] != entries[j] by {
        assert(exit_of(found[i]) != exit_of(found[j]));
    }
}

} // verus!
