//! A deadline-enforcing stage for a layered client call pipeline.
//!
//! The stage itself holds no timer and performs no I/O: it decides, from the
//! call's context, whether the inner call is raced against a timer, and it
//! settles each call from whichever branch of that race resolved first. The
//! surrounding runtime arms the timer, runs the race and drops the loser.

mod context;
mod laws;
mod layer;
mod span;

pub use context::{outcome_of, CallContext, CallOutcome, Endpoint, TimeoutError};
pub use laws::{
    first_event, lemma_calls_independent, lemma_deadline_decides, lemma_loser_is_abandoned, lemma_no_deadline_is_inert,
    lemma_one_outcome_from_winner, lemma_timeout_names_callee,
};
pub use layer::{can_occur, plan_for, settled, winner, Branch, Plan, RaceEvent, Settlement, Timeout, TimeoutService};
pub use span::{Span, NANOS_PER_MILLI, NANOS_PER_SEC};
