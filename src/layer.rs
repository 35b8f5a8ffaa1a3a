use vstd::prelude::*;
use crate::context::{outcome_of, CallContext, CallOutcome, Endpoint, TimeoutError};
use crate::span::Span;

verus! {

/// Installs the timeout stage around an inner callable unit.
///
/// Pure construction: no I/O, no failure.
#[derive(Clone, Copy, Debug, Default)]
pub struct Timeout;

impl Timeout {
    pub fn new() -> (r: Timeout) {
        Timeout
    }

    /// Wraps `inner` in the timeout stage.
    pub fn layer<S>(self, inner: S) -> (r: TimeoutService<S>)
        ensures
            r.spec_inner() == inner,
    {
        TimeoutService { inner }
    }
}

/// The inner unit wrapped by [`Timeout`].
///
/// It holds no per-call state: every call brings its own context, its own
/// timer and its own race, so concurrent calls do not interfere.
pub struct TimeoutService<S> {
    inner: S,
}

/// How a call is run once its timeout has been read.
#[derive(Clone, Copy, Debug, PartialEq, Eq)]
pub enum Plan {
    /// No timeout: await the inner call alone, with no timer.
    Direct,
    /// Race the inner call against a timer armed for this long.
    Race(Span),
}

/// The plan that a resolved timeout calls for.
pub open spec fn plan_for(timeout: Option<Span>) -> Plan {
    match timeout {
        None => Plan::Direct,
        Some(d) => Plan::Race(d),
    }
}

/// The branch that resolved first.
#[derive(Debug)]
pub enum RaceEvent<R, E> {
    /// The inner call resolved with this result.
    InnerResolved(Result<R, E>),
    /// The timer fired.
    TimerFired,
}

/// One of the two branches of a race.
#[derive(Clone, Copy, Debug, PartialEq, Eq)]
pub enum Branch {
    Inner,
    Timer,
}

/// How a call ends: its one outcome, and the branch that must be dropped
/// unfinished, if a race was run.
#[derive(Debug)]
pub struct Settlement<R, E> {
    pub outcome: CallOutcome<R, E>,
    pub abandoned: Option<Branch>,
}

/// Whether `ev` can be the first event of a call run by `plan`: without a
/// timer only the inner call can resolve.
pub open spec fn can_occur<R, E>(plan: Plan, ev: RaceEvent<R, E>) -> bool {
    plan is Race || ev is InnerResolved
}

/// The branch that `ev` comes from.
pub open spec fn winner<R, E>(ev: RaceEvent<R, E>) -> Branch {
    match ev {
        RaceEvent::InnerResolved(_) => Branch::Inner,
        RaceEvent::TimerFired => Branch::Timer,
    }
}

/// How a call run by `plan` to `callee` ends when `ev` comes first: the
/// inner result passes through untouched (and a running timer is dropped),
/// or the timer fired and the inner call is dropped for a timeout error
/// that names `callee`.
pub open spec fn settled<R, E>(plan: Plan, ev: RaceEvent<R, E>, callee: Endpoint) -> Settlement<R, E> {
    match ev {
        RaceEvent::InnerResolved(res) => Settlement {
            outcome: outcome_of(res),
            abandoned: if plan is Race { Some(Branch::Timer) } else { None },
        },
        RaceEvent::TimerFired => Settlement {
            outcome: CallOutcome::Timeout(TimeoutError { endpoint: callee }),
            abandoned: Some(Branch::Inner),
        },
    }
}

impl<S> TimeoutService<S> {
    /// The wrapped unit.
    pub closed spec fn spec_inner(&self) -> S {
        self.inner
    }

    /// The wrapped unit, to be called by the runtime.
    pub fn inner(&self) -> (r: &S)
        ensures
            *r == self.spec_inner(),
    {
        &self.inner
    }

    /// Unwraps the stage.
    pub fn into_inner(self) -> (r: S)
        ensures
            r == self.spec_inner(),
    {
        self.inner
    }

    /// Reads the call's timeout once, at call start, and says how the call
    /// is to be run.
    pub fn plan(&self, cx: &CallContext) -> (p: Plan)
        ensures
            p == plan_for(cx.timeout),
    {
        match cx.timeout {
            None => Plan::Direct,
            Some(d) => Plan::Race(d),
        }
    }

    /// Ends a call run by `plan` from the event that came first. On a
    /// timeout the endpoint is read from the call's context as it stands
    /// then.
    pub fn settle<R, E>(&self, plan: Plan, ev: RaceEvent<R, E>, cx: &CallContext) -> (s: Settlement<R, E>)
        requires
            can_occur(plan, ev),
        ensures
            s == settled(plan, ev, cx.callee),
    {
        match ev {
            RaceEvent::InnerResolved(res) => {
                let outcome = match res {
                    Ok(r) => CallOutcome::Response(r),
                    Err(e) => CallOutcome::InnerError(e),
                };
                let abandoned = match plan {
                    Plan::Race(_) => Some(Branch::Timer),
                    Plan::Direct => None,
                };
                Settlement { outcome, abandoned }
            },
            RaceEvent::TimerFired => {
                let endpoint = cx.callee.copy();
                Settlement { outcome: CallOutcome::Timeout(TimeoutError { endpoint }), abandoned: Some(Branch::Inner) }
            },
        }
    }
}

} // verus!
