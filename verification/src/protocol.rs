//! Protocol-wide guarantees of the job, proved over whole runs.
//!
//! A run is a sequence of [`steps_to`] transitions. The lemmas here pin down
//! what any driver sees, whatever events it reports: a successful run pushes
//! exactly two status updates, in order; a run without a project directory
//! has no effect at all; a cancel request seen at checkpoint A stops the run
//! before anything is pushed or spawned; and cancellation is only ever
//! observed at the two checkpoints.
use vstd::prelude::*;
use crate::job::M2CJob;
use crate::job::Event;
use crate::job::Action;
use crate::job::Phase;
use crate::job::JobError;
use crate::job::steps_to;
use crate::job::is_poll;
use crate::job::is_push;
use crate::job::is_push_a;
use crate::job::is_push_b;
use crate::job::is_spawn;
use crate::job::is_log;

verus! {

/// A run of the job: `states[0]` steps through `events` one by one,
/// producing `actions`, with `states[i + 1]` the state after the i-th step.
pub open spec fn run_steps(states: Seq<M2CJob>, events: Seq<Event>, actions: Seq<Action>) -> bool {
    &&& states.len() == events.len() + 1
    &&& actions.len() == events.len()
    &&& forall|i: int| 0 <= i < events.len()
            ==> steps_to(#[trigger] states[i], events[i], states[i + 1], actions[i])
}

/// What the first `i` actions of a run must look like, given the phase the
/// run has reached: each phase short of `Done` fixes the whole prefix.
pub open spec fn prefix_ok(p: Phase, actions: Seq<Action>, i: int) -> bool {
    match p {
        Phase::Init => i == 0,
        Phase::PollA => i == 1 && is_poll(actions[0]),
        Phase::PushA => i == 2 && is_poll(actions[0]) && is_push_a(actions[1]),
        Phase::Child => i == 3 && is_poll(actions[0]) && is_push_a(actions[1])
            && is_spawn(actions[2]),
        Phase::LogWait => i == 4 && is_poll(actions[0]) && is_push_a(actions[1])
            && is_spawn(actions[2]) && is_log(actions[3]),
        Phase::PollB => i == 5 && is_poll(actions[0]) && is_push_a(actions[1])
            && is_spawn(actions[2]) && is_log(actions[3]) && is_poll(actions[4]),
        Phase::PushB => i == 6 && is_poll(actions[0]) && is_push_a(actions[1])
            && is_spawn(actions[2]) && is_log(actions[3]) && is_poll(actions[4])
            && is_push_b(actions[5]),
        Phase::Done => true,
    }
}

/// In a run started at the beginning, the phase reached after `i` steps
/// determines the actions seen so far, as [`prefix_ok`] states.
pub proof fn lemma_run_prefix(states: Seq<M2CJob>, events: Seq<Event>, actions: Seq<Action>, i: int)
    requires
        run_steps(states, events, actions),
        states[0].phase == Phase::Init,
        0 <= i < states.len(),
    ensures
        prefix_ok(states[i].phase, actions, i),
    decreases i,
{
    if i > 0 {
        lemma_run_prefix(states, events, actions, i - 1);
        assert(steps_to(states[i - 1], events[i - 1], states[i], actions[i - 1]));
    }
}

/// For any run that ends in success, the host receives exactly two status
/// updates, in order: `("Running M2C", 1, 2)` and then `("Complete", 2, 2)`.
/// The full successful run is in fact pinned completely: poll, first update,
/// spawn, log, poll, final update, success.
pub proof fn lemma_success_pushes_exactly_twice(states: Seq<M2CJob>, events: Seq<Event>, actions: Seq<Action>)
    requires
        run_steps(states, events, actions),
        states.len() > 0,
        states[0].phase == Phase::Init,
        actions.len() > 0,
        actions.last() matches Action::Finish(Ok(_)),
    ensures
        actions.len() == 7,
        is_poll(actions[0]),
        is_push_a(actions[1]),
        is_spawn(actions[2]),
        is_log(actions[3]),
        is_poll(actions[4]),
        is_push_b(actions[5]),
        forall|k: int| 0 <= k < actions.len() && is_push(#[trigger] actions[k])
            ==> k == 1 || k == 5,
{
    let n = actions.len() as int;
    lemma_run_prefix(states, events, actions, n - 1);
    assert(steps_to(states[n - 1], events[n - 1], states[n], actions[n - 1]));
    assert(states[n - 1].phase == Phase::PushB);
    assert forall|k: int| 0 <= k < actions.len() && is_push(#[trigger] actions[k])
        implies k == 1 || k == 5 by {
        assert(prefix_ok(Phase::PushB, actions, 6));
    }
}

/// A run whose configuration has no project directory has no effects: no
/// status update is pushed, no child is spawned, nothing is polled or
/// logged; the one action it ever takes reports the precondition failure.
pub proof fn lemma_missing_dir_no_effects(states: Seq<M2CJob>, events: Seq<Event>, actions: Seq<Action>)
    requires
        run_steps(states, events, actions),
        states.len() > 0,
        states[0].phase == Phase::Init,
        states[0].config.build_config.project_dir is None,
    ensures
        actions.len() <= 1,
        forall|k: int| 0 <= k < actions.len()
            ==> #[trigger] actions[k] matches Action::Finish(Err(JobError::Precondition)),
{
    if actions.len() > 0 {
        assert(steps_to(states[0], events[0], states[1], actions[0]));
        if actions.len() > 1 {
            assert(steps_to(states[1], events[1], states[2], actions[1]));
            assert(false);
        }
    }
}

/// A cancel request seen at checkpoint A ends the run as `Cancelled` with
/// zero status updates pushed and no child spawned.
pub proof fn lemma_cancel_before_checkpoint_a(states: Seq<M2CJob>, events: Seq<Event>, actions: Seq<Action>)
    requires
        run_steps(states, events, actions),
        states.len() > 0,
        states[0].phase == Phase::Init,
        states[0].config.build_config.project_dir is Some,
        events.len() >= 2,
        events[1] matches Event::CancelPolled(true),
    ensures
        actions.len() == 2,
        is_poll(actions[0]),
        actions[1] matches Action::Finish(Err(JobError::Cancelled)),
        forall|k: int| 0 <= k < actions.len()
            ==> !is_push(#[trigger] actions[k]) && !is_spawn(actions[k]),
{
    assert(steps_to(states[0], events[0], states[1], actions[0]));
    assert(steps_to(states[1], events[1], states[2], actions[1]));
    if events.len() > 2 {
        assert(steps_to(states[2], events[2], states[3], actions[2]));
        assert(false);
    }
}

/// Cancellation is observed only at the two checkpoints: a step that ends
/// the run as `Cancelled` starts at checkpoint A or checkpoint B and saw the
/// cancel flag there. In particular, no event that arrives while the child
/// is running — its exit, a spawn failure, a read failure — can end the run
/// as `Cancelled`; a cancel request delivered in between waits for the
/// checkpoint B poll.
pub proof fn lemma_cancelled_only_at_checkpoints(pre: M2CJob, event: Event, post: M2CJob, action: Action)
    requires
        steps_to(pre, event, post, action),
        action matches Action::Finish(Err(JobError::Cancelled)),
    ensures
        pre.phase == Phase::PollA || pre.phase == Phase::PollB,
        event matches Event::CancelPolled(true),
{
}

/// At checkpoint B the run either honors a pending cancel request and ends
/// as `Cancelled`, or pushes the final status update and goes on to
/// complete; nothing else can happen there.
pub proof fn lemma_checkpoint_b_outcomes(pre: M2CJob, event: Event, post: M2CJob, action: Action)
    requires
        steps_to(pre, event, post, action),
        pre.phase == Phase::PollB,
    ensures
        (event matches Event::CancelPolled(true) && action matches Action::Finish(Err(JobError::Cancelled))
            && post.phase == Phase::Done)
        || (event matches Event::CancelPolled(false) && is_push_b(action)
            && post.phase == Phase::PushB),
{
}

} // verus!
