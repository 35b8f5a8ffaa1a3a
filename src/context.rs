use vstd::prelude::*;
use crate::span::Span;

verus! {

/// The identity of the remote target that a call is addressed to.
#[derive(Clone, Debug, PartialEq, Eq)]
pub struct Endpoint {
    /// Name under which the target is discovered.
    pub service_name: String,
    /// The resolved address, once one is known.
    pub address: Option<String>,
}

impl Endpoint {
    /// An endpoint known by name only.
    pub fn named(service_name: String) -> (r: Endpoint)
        ensures
            r.service_name == service_name,
            r.address is None,
    {
        Endpoint { service_name, address: None }
    }

    /// A field-by-field copy.
    pub fn copy(&self) -> (r: Endpoint)
        ensures
            r == *self,
    {
        let address = match &self.address {
            Some(a) => Some(a.clone()),
            None => None,
        };
        Endpoint { service_name: self.service_name.clone(), address }
    }
}

/// What one call exposes to the timeout stage: its resolved timeout, if any,
/// and the endpoint it is addressed to. Each call owns its own context.
#[derive(Clone, Debug, PartialEq, Eq)]
pub struct CallContext {
    /// The timeout that configuration resolved for this call.
    pub timeout: Option<Span>,
    /// The destination of this call.
    pub callee: Endpoint,
}

impl CallContext {
    /// A context for a call to `callee` with the given timeout.
    pub fn new(timeout: Option<Span>, callee: Endpoint) -> (r: CallContext)
        ensures
            r.timeout == timeout,
            r.callee == callee,
    {
        CallContext { timeout, callee }
    }
}

/// The error this stage originates: the timer fired before the inner call
/// resolved.
#[derive(Clone, Debug, PartialEq, Eq)]
pub struct TimeoutError {
    /// The destination of the call that timed out.
    pub endpoint: Endpoint,
}

/// The single outcome of one call.
#[derive(Clone, Debug, PartialEq, Eq)]
pub enum CallOutcome<R, E> {
    /// The inner call succeeded; its response, untouched.
    Response(R),
    /// The inner call failed; its error, untouched.
    InnerError(E),
    /// The deadline passed first.
    Timeout(TimeoutError),
}

/// The outcome that the inner call's own result stands for.
pub open spec fn outcome_of<R, E>(res: Result<R, E>) -> CallOutcome<R, E> {
    match res {
        Ok(r) => CallOutcome::Response(r),
        Err(e) => CallOutcome::InnerError(e),
    }
}

impl<R, E> CallOutcome<R, E> {
    /// Whether the deadline passed first.
    pub fn is_timeout(&self) -> (r: bool)
        ensures
            r == (*self is Timeout),
    {
        match self {
            CallOutcome::Timeout(_) => true,
            _ => false,
        }
    }
}

} // verus!
