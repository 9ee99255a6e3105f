//! The method registry: what the gateway does with the calls of a method.

use crate::error::{RpcError, RpcErrorData};
use crate::json::{JsonData, JsonValue};
use crate::search::{constrained_search, tx_search_plan};
use crate::upstream::{
    forward, forward_plan, given, plan_of, Plan, UpstreamCall, UpstreamCallData,
};
use vstd::prelude::*;

verus! {

/// What the gateway does with the calls of one method.
#[derive(Clone, Copy, Debug, PartialEq, Eq, Structural)]
pub enum RouteBehavior {
    /// Every call is answered with the error that the method is not supported.
    Blocked,
    /// The status of the node is asked for and shown redacted.
    Status,
    /// Only lookups of one transaction by its hash are forwarded.
    ConstrainedSearch,
    /// The call is forwarded with its parameters brought into position.
    GenericProxy,
}

/// The message that a blocked method is answered with.
pub open spec fn not_supported() -> Seq<char> {
    "method not supported"@
}

/// The call that asks the upstream node for its status.
pub open spec fn status_plan() -> UpstreamCallData {
    UpstreamCallData { method: "status"@, params: Seq::empty() }
}

/// The parameters that a search is checked on: those that the call was
/// given, or `null` where it was given none.
pub open spec fn searched(params: Option<JsonData>) -> JsonData {
    match params {
        Some(p) => p,
        None => JsonData::Null,
    }
}

/// What is decided on a call of `method`, whose parameters by name are
/// `names`, with `params`, when `behavior` is what is done with the calls of
/// the method. A blocked method gets the error and nothing is forwarded; the
/// status is asked for without parameters, whatever the caller gave.
pub open spec fn handled(
    behavior: RouteBehavior,
    method: Seq<char>,
    names: Seq<Seq<char>>,
    params: Option<JsonData>,
) -> Plan {
    match behavior {
        RouteBehavior::Blocked => Err(RpcErrorData::Custom(not_supported())),
        RouteBehavior::Status => Ok(status_plan()),
        RouteBehavior::ConstrainedSearch => tx_search_plan(searched(params)),
        RouteBehavior::GenericProxy => forward_plan(method, names, params),
    }
}

/// The error that the calls of a blocked method are answered with.
pub fn blocked_error() -> (error: RpcError)
    ensures
        error@ == RpcErrorData::Custom(not_supported()),
{
    RpcError::Custom("method not supported".to_owned())
}

/// The call that asks the upstream node for its status.
pub fn status_call() -> (call: UpstreamCall)
    ensures
        call@ == status_plan(),
{
    let call = UpstreamCall { method: "status".to_owned(), params: Vec::new() };
    assert(call@.params =~= Seq::empty());
    call
}

/// Decides on a call of `method`, whose parameters by name are `names`,
/// with `params`, or without parameters where `params` is `None`, when
/// `behavior` is what is done with the calls of the method.
pub fn handle(
    behavior: RouteBehavior,
    method: &str,
    names: &Vec<String>,
    params: Option<&JsonValue>,
) -> (outcome: Result<UpstreamCall, RpcError>)
    ensures
        plan_of(outcome) == handled(behavior, method@, names.deep_view(), given(params)),
{
    match behavior {
        RouteBehavior::Blocked => Err(blocked_error()),
        RouteBehavior::Status => Ok(status_call()),
        RouteBehavior::ConstrainedSearch => match params {
            Some(p) => constrained_search(p),
            None => constrained_search(&JsonValue::Null),
        },
        RouteBehavior::GenericProxy => forward(method, names, params),
    }
}

} // verus!
