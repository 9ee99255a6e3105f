//! What holds of the gateway as a whole.

use crate::assoc::{assoc, assoc_map, lemma_assoc_reads_map};
use crate::comet34::gateway_plan;
use crate::error::{InvalidParamsData, RpcError, RpcErrorData};
use crate::json::JsonData;
use crate::proxy::{
    called_method, html_type, query_params, rewritten, root_path, served, string_members, Binding,
    RewrittenRequest, StaticData,
};
use crate::registry::{handled, not_supported, RouteBehavior};
use crate::routes::Routes;
use crate::search::{keyed_query, tx_search_plan};
use crate::text::holds_text;
use crate::upstream::{forward_plan, plan_of, positional, UpstreamCall};
use vstd::prelude::*;

verus! {

/// Keyed parameters count by what each name is given, not by how the object
/// is written: two objects that give every name the same value lead to the
/// same decision, whatever is done with the calls of the method.
pub proof fn law_keyed_params_count_by_name(
    behavior: RouteBehavior,
    method: Seq<char>,
    names: Seq<Seq<char>>,
    one: Seq<(Seq<char>, JsonData)>,
    other: Seq<(Seq<char>, JsonData)>,
)
    requires
        assoc_map(one) == assoc_map(other),
    ensures
        handled(behavior, method, names, Some(JsonData::Object(one))) == handled(
            behavior,
            method,
            names,
            Some(JsonData::Object(other)),
        ),
{
    assert forall|key: Seq<char>| assoc(one, key) == assoc(other, key) by {
        lemma_assoc_reads_map(one, key);
        lemma_assoc_reads_map(other, key);
    }
    assert(positional(names, one) =~= positional(names, other));
    assert(keyed_query(one) == keyed_query(other));
}

/// A GET request and a POST request with the same keyed parameters lead to
/// the same decision, and so to the same arguments by position: for every
/// route table, every set of blocked routes, every path but the root path
/// and every query, a posted object that gives every name what the query
/// gives it is decided as the rewritten request is.
pub proof fn law_get_as_post(
    table: Routes,
    blocked: Seq<Seq<char>>,
    path: Seq<char>,
    query: Option<Seq<char>>,
    posted: Seq<(Seq<char>, JsonData)>,
)
    requires
        path != root_path(),
        assoc_map(posted) == assoc_map(string_members(query_params(query))),
    ensures
        rewritten(None, true, path, query) matches Some(request) && gateway_plan(
            table,
            blocked,
            request.rpc_method,
            Some(request.params),
        ) == gateway_plan(
            table,
            blocked,
            called_method(None, path),
            Some(JsonData::Object(posted)),
        ),
{
    let method = called_method(None, path);
    let sent = string_members(query_params(query));
    match assoc(table, method) {
        Some(names) => {
            law_keyed_params_count_by_name(
                crate::comet34::behavior_for(blocked, method),
                method,
                names,
                sent,
                posted,
            );
        },
        None => {},
    }
}

/// A blocked method is never forwarded: whatever the parameters, given or
/// not, and so for a GET request as for a POST request, the decision is an
/// error, and for a method of the route table it is the error that the
/// method is not supported.
pub proof fn law_blocked_never_forwarded(
    table: Routes,
    blocked: Seq<Seq<char>>,
    method: Seq<char>,
    params: Option<JsonData>,
)
    requires
        holds_text(blocked, method),
    ensures
        gateway_plan(table, blocked, method, params) is Err,
        assoc(table, method) is Some ==> gateway_plan(table, blocked, method, params) == Err::<
            crate::upstream::UpstreamCallData,
            RpcErrorData,
        >(RpcErrorData::Custom(not_supported())),
{
}

/// What holds of a GET request and a POST request with the same keyed
/// parameters holds behind a layer that is bound to a route as well: the
/// call of the method of the route is decided alike for both.
pub proof fn law_get_as_post_by_path(
    table: crate::tendermint34::PathRoutes,
    blocked: Seq<Seq<char>>,
    path: Seq<char>,
    method: Seq<char>,
    query: Option<Seq<char>>,
    posted: Seq<(Seq<char>, JsonData)>,
)
    requires
        path != root_path(),
        assoc_map(posted) == assoc_map(string_members(query_params(query))),
    ensures
        rewritten(Some((path, method)), true, path, query) matches Some(request)
            && crate::tendermint34::gateway_plan(
            table,
            blocked,
            request.rpc_method,
            Some(request.params),
        ) == crate::tendermint34::gateway_plan(
            table,
            blocked,
            method,
            Some(JsonData::Object(posted)),
        ),
{
    let sent = string_members(query_params(query));
    match assoc(table, crate::tendermint34::path_of(method)) {
        Some(route) => {
            law_keyed_params_count_by_name(
                crate::tendermint34::behavior_for(blocked, route.0),
                route.0,
                route.1,
                sent,
                posted,
            );
        },
        None => {},
    }
}

/// Behind a route table by path, too, a blocked method is never forwarded,
/// and neither is a search for transactions: where the method of the route
/// under the path of `method` is one of these, the decision is the error
/// that the method is not supported, whatever the parameters.
pub proof fn law_blocked_never_forwarded_by_path(
    table: crate::tendermint34::PathRoutes,
    blocked: Seq<Seq<char>>,
    method: Seq<char>,
    params: Option<JsonData>,
)
    requires
        assoc(table, crate::tendermint34::path_of(method)) matches Some(route) && (holds_text(
            blocked,
            route.0,
        ) || route.0 == "tx_search"@),
    ensures
        crate::tendermint34::gateway_plan(table, blocked, method, params) == Err::<
            crate::upstream::UpstreamCallData,
            RpcErrorData,
        >(RpcErrorData::Custom(not_supported())),
{
    assert("tx_search"@ != "status"@) by {
        reveal_strlit("status");
        reveal_strlit("tx_search");
        assert("status"@.len() == 6);
        assert("tx_search"@.len() == 9);
    }
}

/// A keyed search that names `per_page` is refused, whatever its query.
pub proof fn law_per_page_refused(members: Seq<(Seq<char>, JsonData)>)
    requires
        assoc(members, "per_page"@) is Some,
    ensures
        tx_search_plan(JsonData::Object(members)) == Err::<
            crate::upstream::UpstreamCallData,
            RpcErrorData,
        >(RpcErrorData::InvalidParams(InvalidParamsData::UnsupportedParameters)),
{
}

/// Positional parameters of the wrong number are refused with the names of
/// the parameters that the method expects, and nothing is forwarded.
pub proof fn law_wrong_length_refused(
    method: Seq<char>,
    names: Seq<Seq<char>>,
    items: Seq<JsonData>,
)
    requires
        items.len() != names.len(),
    ensures
        forward_plan(method, names, Some(JsonData::Array(items))) == Err::<
            crate::upstream::UpstreamCallData,
            RpcErrorData,
        >(
            RpcErrorData::InvalidParams(
                InvalidParamsData::WrongLength { expected: names, got: items.len() },
            ),
        ),
{
}

/// The same request is decided the same way each time: what a layer makes
/// of a request, and what the gateway decides on a call, depend on the
/// request and on the gateway's settings alone. `first` and `second` stand
/// for what two runs on the same request returned.
pub proof fn law_same_request_same_call(
    binding: Binding,
    table: Routes,
    blocked: Seq<Seq<char>>,
    path: Seq<char>,
    query: Option<Seq<char>>,
    first: (RewrittenRequest, Result<UpstreamCall, RpcError>),
    second: (RewrittenRequest, Result<UpstreamCall, RpcError>),
)
    requires
        rewritten(binding, true, path, query) == Some(first.0@),
        rewritten(binding, true, path, query) == Some(second.0@),
        plan_of(first.1) == gateway_plan(
            table,
            blocked,
            first.0@.rpc_method,
            Some(first.0@.params),
        ),
        plan_of(second.1) == gateway_plan(
            table,
            blocked,
            second.0@.rpc_method,
            Some(second.0@.params),
        ),
    ensures
        first.0@ == second.0@,
        plan_of(first.1) == plan_of(second.1),
{
}

/// A GET request for the root path is answered with the index page and the
/// status 200, whatever its query, and is never rewritten into a call.
pub proof fn law_root_is_static(binding: Binding, query: Option<Seq<char>>, content: Seq<char>)
    ensures
        served(root_path(), true, root_path(), content) == Some(
            StaticData { status: 200, content_type: html_type(), body: content },
        ),
        rewritten(binding, true, root_path(), query) is None,
{
}

} // verus!
