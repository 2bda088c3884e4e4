//! The decisions of the action loop: what follows each parsed reply, and
//! the ceiling on how many actions one session may take.
use vstd::prelude::*;
use crate::initialize::{initial_views, initialize_messages};
use crate::parsers::ActionType;
use crate::types::{views, Message};

verus! {

/// After this many dispatched actions the next one is the last.
pub const MAX_LOOPS: u32 = 15;

/// What the loop does with a parsed reply.
#[derive(PartialEq, Eq, Structural, Clone, Copy, Debug)]
pub enum Step {
    /// Carry out the action, then capture the screen again.
    Dispatch,
    /// Carry out the action, then stop: the ceiling is reached.
    DispatchLast,
    /// Ask for the final report, then stop.
    Summarize,
    /// Report the reply that could not be understood, then stop.
    Halt,
}

/// The step for `action` after `count` dispatched actions.
pub open spec fn step_of(count: nat, action: ActionType) -> Step {
    match action {
        ActionType::Unknown => Step::Halt,
        ActionType::Done => Step::Summarize,
        _ => if count + 1 > MAX_LOOPS {
            Step::DispatchLast
        } else {
            Step::Dispatch
        },
    }
}

/// How many cycles a session takes when the model's replies parse to
/// `replies`, in order, starting after `count` dispatched actions.
pub open spec fn run_cycles(count: nat, replies: Seq<ActionType>) -> nat
    decreases replies.len(),
{
    if replies.len() == 0 {
        0
    } else if step_of(count, replies[0]) == Step::Dispatch {
        1 + run_cycles(count + 1, replies.drop_first())
    } else {
        1
    }
}

/// The step that ends such a session; `Dispatch` if the replies run out first.
pub open spec fn run_end(count: nat, replies: Seq<ActionType>) -> Step
    decreases replies.len(),
{
    if replies.len() == 0 {
        Step::Dispatch
    } else if step_of(count, replies[0]) == Step::Dispatch {
        run_end(count + 1, replies.drop_first())
    } else {
        step_of(count, replies[0])
    }
}

/// The state of one session.
pub struct LoopState {
    pub objective: String,
    pub messages: Vec<Message>,
    /// How many actions have been dispatched.
    pub loop_count: u32,
    pub grid_interval: i32,
}

impl LoopState {
    /// A session for `objective` that has taken no action yet.
    pub fn new(objective: &str, grid_interval: i32) -> (r: LoopState)
        ensures
            r.objective@ == objective@,
            views(r.messages@) == initial_views(objective@),
            r.loop_count == 0,
            r.grid_interval == grid_interval,
    {
        LoopState {
            objective: String::from_str(objective),
            messages: initialize_messages(objective),
            loop_count: 0,
            grid_interval,
        }
    }

    /// Decides what follows a reply that parsed to `action`, and counts the
    /// action when it is to be dispatched.
    pub fn step(&mut self, action: ActionType) -> (r: Step)
        requires
            old(self).loop_count <= MAX_LOOPS,
        ensures
            r == step_of(old(self).loop_count as nat, action),
            final(self).loop_count == if r == Step::Dispatch || r == Step::DispatchLast {
                old(self).loop_count + 1
            } else {
                old(self).loop_count as int
            },
            r == Step::Dispatch ==> final(self).loop_count <= MAX_LOOPS,
            final(self).objective == old(self).objective,
            final(self).messages == old(self).messages,
            final(self).grid_interval == old(self).grid_interval,
    {
        match action {
            ActionType::Unknown => Step::Halt,
            ActionType::Done => Step::Summarize,
            _ => {
                self.loop_count = self.loop_count + 1;
                if self.loop_count > MAX_LOOPS {
                    Step::DispatchLast
                } else {
                    Step::Dispatch
                }
            },
        }
    }
}

proof fn lemma_cycles_bounded(count: nat, replies: Seq<ActionType>)
    requires
        count <= MAX_LOOPS,
    ensures
        run_cycles(count, replies) <= MAX_LOOPS + 1 - count,
    decreases replies.len(),
{
    if replies.len() > 0 && step_of(count, replies[0]) == Step::Dispatch {
        lemma_cycles_bounded(count + 1, replies.drop_first());
    }
}

/// A session ends within sixteen cycles, whatever the model replies: even
/// when every reply is a valid action that is neither done nor unknown.
pub proof fn lemma_iteration_ceiling(replies: Seq<ActionType>)
    ensures
        run_cycles(0, replies) <= MAX_LOOPS + 1,
{
    lemma_cycles_bounded(0, replies);
}

proof fn lemma_unknown_halts_from(count: nat, replies: Seq<ActionType>, k: int)
    requires
        0 <= k < replies.len(),
        count + k <= MAX_LOOPS,
        replies[k] == ActionType::Unknown,
        forall|i: int|
            0 <= i < k ==> #[trigger] replies[i] != ActionType::Unknown && replies[i]
                != ActionType::Done,
    ensures
        run_cycles(count, replies) == k + 1,
        run_end(count, replies) == Step::Halt,
    decreases k,
{
    if k > 0 {
        let rest = replies.drop_first();
        assert(replies[0] != ActionType::Unknown && replies[0] != ActionType::Done);
        assert forall|i: int| 0 <= i < k - 1 implies #[trigger] rest[i] != ActionType::Unknown
            && rest[i] != ActionType::Done by {
            assert(rest[i] == replies[i + 1]);
        }
        lemma_unknown_halts_from(count + 1, rest, k - 1);
    }
}

/// A reply that parses to `Unknown` stops the session at its own cycle,
/// and the session is not summarized.
pub proof fn lemma_unknown_halts(replies: Seq<ActionType>, k: int)
    requires
        0 <= k < replies.len(),
        k <= MAX_LOOPS,
        replies[k] == ActionType::Unknown,
        forall|i: int|
            0 <= i < k ==> #[trigger] replies[i] != ActionType::Unknown && replies[i]
                != ActionType::Done,
    ensures
        run_cycles(0, replies) == k + 1,
        run_end(0, replies) == Step::Halt,
        run_end(0, replies) != Step::Summarize,
{
    lemma_unknown_halts_from(0, replies, k);
}

} // verus!
