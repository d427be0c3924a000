//! Classification of authorize outcomes and the requeue delay chosen for each.
use vstd::prelude::*;

verus! {

/// What the remote service reported when it refused a request.
#[derive(Debug, Clone, Copy, PartialEq, Eq, Structural)]
pub enum ServiceErrorKind {
    Unauthorized,
    Other,
}

/// Why an authorize call did not return a handle.
#[derive(Debug, Clone, Copy, PartialEq, Eq, Structural)]
pub enum AuthFailure {
    /// The request did not reach the service, or its reply could not be read.
    Transport,
    /// The service answered with an error of its own.
    Service(ServiceErrorKind),
    /// Any other failure.
    Unknown,
}

/// The class into which an authorize outcome falls.
#[derive(Debug, Clone, Copy, PartialEq, Eq, Structural)]
pub enum Category {
    Success,
    TransportError,
    UnauthorizedError,
    OtherServiceError,
    UnknownError,
}

/// The instruction handed back to the scheduler: reconcile again after this many seconds.
#[derive(Debug, Clone, Copy, PartialEq, Eq, Structural)]
pub struct Action {
    pub requeue_after_secs: u64,
}

pub const SUCCESS_DELAY_SECS: u64 = 1;
pub const TRANSPORT_DELAY_SECS: u64 = 30;
pub const UNAUTHORIZED_DELAY_SECS: u64 = 300;
pub const OTHER_ERROR_DELAY_SECS: u64 = 60;
/// Delay after a reconciliation that found the account already authorized.
pub const AUTHORIZED_DELAY_SECS: u64 = 300;
/// Delay after the reconciler itself failed.
pub const ERROR_POLICY_DELAY_SECS: u64 = 1;

pub open spec fn failure_category(f: AuthFailure) -> Category {
    match f {
        AuthFailure::Transport => Category::TransportError,
        AuthFailure::Service(ServiceErrorKind::Unauthorized) => Category::UnauthorizedError,
        AuthFailure::Service(ServiceErrorKind::Other) => Category::OtherServiceError,
        AuthFailure::Unknown => Category::UnknownError,
    }
}

pub open spec fn outcome_category<H>(outcome: Result<H, AuthFailure>) -> Category {
    match outcome {
        Ok(_) => Category::Success,
        Err(f) => failure_category(f),
    }
}

pub open spec fn category_delay(c: Category) -> u64 {
    match c {
        Category::Success => 1,
        Category::TransportError => 30,
        Category::UnauthorizedError => 300,
        Category::OtherServiceError => 60,
        Category::UnknownError => 60,
    }
}

/// Sorts the outcome of an authorize call into its category.
pub fn classify<H>(outcome: &Result<H, AuthFailure>) -> (r: Category)
    ensures
        r == outcome_category(*outcome),
{
    match outcome {
        Ok(_) => Category::Success,
        Err(AuthFailure::Transport) => Category::TransportError,
        Err(AuthFailure::Service(ServiceErrorKind::Unauthorized)) => Category::UnauthorizedError,
        Err(AuthFailure::Service(ServiceErrorKind::Other)) => Category::OtherServiceError,
        Err(AuthFailure::Unknown) => Category::UnknownError,
    }
}

/// The requeue delay, in seconds, for each category.
pub fn backoff_delay_secs(c: Category) -> (r: u64)
    ensures
        r == category_delay(c),
{
    match c {
        Category::Success => SUCCESS_DELAY_SECS,
        Category::TransportError => TRANSPORT_DELAY_SECS,
        Category::UnauthorizedError => UNAUTHORIZED_DELAY_SECS,
        Category::OtherServiceError => OTHER_ERROR_DELAY_SECS,
        Category::UnknownError => OTHER_ERROR_DELAY_SECS,
    }
}

/// The action that follows an authorize outcome.
pub fn backoff_action(c: Category) -> (r: Action)
    ensures
        r.requeue_after_secs == category_delay(c),
{
    Action { requeue_after_secs: backoff_delay_secs(c) }
}

/// The action when the reconciler itself failed: retry after one second, whatever the error.
pub fn error_policy() -> (r: Action)
    ensures
        r.requeue_after_secs == 1,
{
    Action { requeue_after_secs: ERROR_POLICY_DELAY_SECS }
}

} // verus!
