use vstd::prelude::*;
use crate::context::{outcome_of, CallContext, CallOutcome, TimeoutError};
use crate::layer::{can_occur, plan_for, settled, winner, Branch, Plan, RaceEvent};
use crate::span::Span;

verus! {

/// The event that a call run by `plan` hands over first when the inner call
/// takes `latency` and ends with `natural`: without a timer, the inner
/// result; with a timer armed for `d`, the inner result when it came
/// strictly earlier, else the timer.
pub open spec fn first_event<R, E>(plan: Plan, latency: Span, natural: Result<R, E>) -> RaceEvent<R, E> {
    match plan {
        Plan::Direct => RaceEvent::InnerResolved(natural),
        Plan::Race(d) => if latency.total_nanos() < d.total_nanos() {
            RaceEvent::InnerResolved(natural)
        } else {
            RaceEvent::TimerFired
        },
    }
}

/// With a deadline `D` configured, an inner call of latency `L` ends with its
/// own result, unmodified, when `L < D`, and with a timeout error naming the
/// call's destination when `L >= D`.
pub proof fn lemma_deadline_decides<R, E>(cx: CallContext, latency: Span, natural: Result<R, E>)
    requires
        cx.timeout is Some,
    ensures
        ({
            let plan = plan_for(cx.timeout);
            let ev = first_event(plan, latency, natural);
            &&& can_occur(plan, ev)
            &&& settled(plan, ev, cx.callee).outcome == if latency.total_nanos()
                < cx.timeout.unwrap().total_nanos() {
                outcome_of(natural)
            } else {
                CallOutcome::Timeout(TimeoutError { endpoint: cx.callee })
            }
        }),
{
}

/// Two calls through one wrapped unit, with their own contexts, latencies
/// and inner results, do not interfere: each ends as its own deadline and
/// latency decide, whatever the other call's are.
pub proof fn lemma_calls_independent<R, E>(
    cx_a: CallContext,
    latency_a: Span,
    natural_a: Result<R, E>,
    cx_b: CallContext,
    latency_b: Span,
    natural_b: Result<R, E>,
)
    ensures
        ({
            let plan_a = plan_for(cx_a.timeout);
            let plan_b = plan_for(cx_b.timeout);
            let out_a = settled(plan_a, first_event(plan_a, latency_a, natural_a), cx_a.callee).outcome;
            let out_b = settled(plan_b, first_event(plan_b, latency_b, natural_b), cx_b.callee).outcome;
            &&& out_a == if cx_a.timeout is Some && latency_a.total_nanos()
                >= cx_a.timeout.unwrap().total_nanos() {
                CallOutcome::Timeout(TimeoutError { endpoint: cx_a.callee })
            } else {
                outcome_of(natural_a)
            }
            &&& out_b == if cx_b.timeout is Some && latency_b.total_nanos()
                >= cx_b.timeout.unwrap().total_nanos() {
                CallOutcome::Timeout(TimeoutError { endpoint: cx_b.callee })
            } else {
                outcome_of(natural_b)
            }
        }),
{
}

/// Without a deadline the timeout stage is inert: whatever the latency, the
/// call ends with the inner call's own result, and no timer is involved.
pub proof fn lemma_no_deadline_is_inert<R, E>(cx: CallContext, latency: Span, natural: Result<R, E>)
    requires
        cx.timeout is None,
    ensures
        ({
            let plan = plan_for(cx.timeout);
            let ev = first_event(plan, latency, natural);
            &&& plan == Plan::Direct
            &&& can_occur(plan, ev)
            &&& settled(plan, ev, cx.callee).outcome == outcome_of(natural)
            &&& settled(plan, ev, cx.callee).abandoned is None
        }),
{
}

/// A call has exactly one outcome, and it comes from the branch that won:
/// the stage originates a timeout error exactly when the timer won, and
/// otherwise hands over the inner result as it came. The branch dropped
/// unfinished is never the winner; with a timer running it is the loser.
pub proof fn lemma_one_outcome_from_winner<R, E>(plan: Plan, ev: RaceEvent<R, E>, cx: CallContext)
    requires
        can_occur(plan, ev),
    ensures
        ({
            let s = settled(plan, ev, cx.callee);
            &&& (s.outcome is Timeout <==> ev is TimerFired)
            &&& (ev matches RaceEvent::InnerResolved(res) ==> s.outcome == outcome_of(res))
            &&& s.abandoned != Some(winner(ev))
            &&& (plan is Race ==> s.abandoned is Some)
            &&& (plan is Direct ==> s.abandoned is None)
        }),
{
}

/// When the timer wins, the inner call is the branch dropped mid-flight;
/// when the inner call wins a race, only the timer is dropped.
pub proof fn lemma_loser_is_abandoned<R, E>(plan: Plan, ev: RaceEvent<R, E>, cx: CallContext)
    requires
        can_occur(plan, ev),
    ensures
        ev is TimerFired ==> settled(plan, ev, cx.callee).abandoned == Some(Branch::Inner),
        (ev is InnerResolved && plan is Race) ==> settled(plan, ev, cx.callee).abandoned == Some(
            Branch::Timer,
        ),
{
}

/// A timeout error names the destination held in that call's context.
pub proof fn lemma_timeout_names_callee<R, E>(plan: Plan, ev: RaceEvent<R, E>, cx: CallContext)
    requires
        can_occur(plan, ev),
    ensures
        settled(plan, ev, cx.callee).outcome matches CallOutcome::Timeout(err) ==> err.endpoint
            == cx.callee,
{
}

} // verus!
