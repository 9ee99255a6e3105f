//! The gateway in front of a Tendermint 0.34 node: the shape of the node's
//! status and the handling of each method. This gateway has no check of its
//! own for a search for transactions, so it answers every such search as it
//! answers the calls of a blocked method. A search for blocks is blocked
//! where the settings block it, and forwarded like any other call where
//! they do not.

use crate::assoc::{assoc, distinct_keys, find_value, lemma_last_index_none, put, set_value};
use crate::error::{RpcError, RpcErrorData};
use crate::json::{JsonData, JsonValue};
use crate::page::{base_for, index_page, root_page, root_page_for};
use crate::proxy::{is_rooted, view_of, Binding, ProxyGetRequestParamsLayer};
use crate::registry::{handle, handled, RouteBehavior};
use crate::routes::{
    lemma_upstream_routes_distinct, owned_names, upstream_route_list, upstream_routes, Routes,
};
use crate::text::{contains_text, distinct, first_occurrences, holds_text, same_text, unique_texts};
use crate::upstream::{copy_names, given, plan_of, Plan, UpstreamCall};
use vstd::prelude::*;

verus! {

/// The versions of the protocols that a node speaks.
#[derive(Debug, PartialEq, Eq)]
pub struct Tendermint34ProtocolVersion {
    pub p2p: String,
    pub block: String,
    pub app: String,
}

impl Clone for Tendermint34ProtocolVersion {
    fn clone(&self) -> (copy: Self)
        ensures
            copy == *self,
    {
        Tendermint34ProtocolVersion {
            p2p: self.p2p.clone(),
            block: self.block.clone(),
            app: self.app.clone(),
        }
    }
}

/// What else a node tells of itself.
#[derive(Debug, PartialEq, Eq)]
pub struct Tendermint34Other {
    pub tx_index: String,
    pub rpc_address: String,
}

impl Clone for Tendermint34Other {
    fn clone(&self) -> (copy: Self)
        ensures
            copy == *self,
    {
        Tendermint34Other { tx_index: self.tx_index.clone(), rpc_address: self.rpc_address.clone() }
    }
}

/// What a node tells of itself.
#[derive(Debug, PartialEq, Eq)]
pub struct Tendermint34NodeInfo {
    pub protocol_version: Tendermint34ProtocolVersion,
    pub id: String,
    pub listen_addr: String,
    pub network: String,
    pub version: String,
    pub channels: String,
    pub moniker: String,
    pub other: Tendermint34Other,
}

impl Clone for Tendermint34NodeInfo {
    fn clone(&self) -> (copy: Self)
        ensures
            copy == *self,
    {
        Tendermint34NodeInfo {
            protocol_version: self.protocol_version.clone(),
            id: self.id.clone(),
            listen_addr: self.listen_addr.clone(),
            network: self.network.clone(),
            version: self.version.clone(),
            channels: self.channels.clone(),
            moniker: self.moniker.clone(),
            other: self.other.clone(),
        }
    }
}

/// How far a node has come in following the chain.
#[derive(Debug, PartialEq, Eq)]
pub struct Tendermint34SyncInfo {
    pub latest_block_hash: String,
    pub latest_app_hash: String,
    pub latest_block_height: String,
    pub latest_block_time: String,
    pub earliest_block_hash: String,
    pub earliest_app_hash: String,
    pub earliest_block_height: String,
    pub earliest_block_time: String,
    pub catching_up: bool,
}

impl Clone for Tendermint34SyncInfo {
    fn clone(&self) -> (copy: Self)
        ensures
            copy == *self,
    {
        Tendermint34SyncInfo {
            latest_block_hash: self.latest_block_hash.clone(),
            latest_app_hash: self.latest_app_hash.clone(),
            latest_block_height: self.latest_block_height.clone(),
            latest_block_time: self.latest_block_time.clone(),
            earliest_block_hash: self.earliest_block_hash.clone(),
            earliest_app_hash: self.earliest_app_hash.clone(),
            earliest_block_height: self.earliest_block_height.clone(),
            earliest_block_time: self.earliest_block_time.clone(),
            catching_up: self.catching_up,
        }
    }
}

/// A public key: the name of its scheme and its value in base64.
#[derive(Debug, PartialEq, Eq)]
pub struct Tendermint34PubKey {
    pub type_: String,
    pub value: String,
}

impl Clone for Tendermint34PubKey {
    fn clone(&self) -> (copy: Self)
        ensures
            copy == *self,
    {
        Tendermint34PubKey { type_: self.type_.clone(), value: self.value.clone() }
    }
}

/// The validator that a node runs as.
#[derive(Debug, PartialEq, Eq)]
pub struct Tendermint34ValidatorInfo {
    pub address: String,
    pub pub_key: Tendermint34PubKey,
    pub voting_power: String,
}

impl Clone for Tendermint34ValidatorInfo {
    fn clone(&self) -> (copy: Self)
        ensures
            copy == *self,
    {
        Tendermint34ValidatorInfo {
            address: self.address.clone(),
            pub_key: self.pub_key.clone(),
            voting_power: self.voting_power.clone(),
        }
    }
}

/// The status of a node, as it answers the method `status`.
#[derive(Debug, PartialEq, Eq)]
pub struct Tendermint34Status {
    pub node_info: Tendermint34NodeInfo,
    pub sync_info: Tendermint34SyncInfo,
    pub validator_info: Tendermint34ValidatorInfo,
}

impl Clone for Tendermint34Status {
    fn clone(&self) -> (copy: Self)
        ensures
            copy == *self,
    {
        Tendermint34Status {
            node_info: self.node_info.clone(),
            sync_info: self.sync_info.clone(),
            validator_info: self.validator_info.clone(),
        }
    }
}

impl Tendermint34Status {
    /// `shown` is this status as the gateway shows it: moniker, listen
    /// address, RPC address and version are empty, and all else is as it is
    /// here.
    pub open spec fn redacted_as(&self, shown: Tendermint34Status) -> bool {
        &&& shown.node_info.moniker@ == Seq::<char>::empty()
        &&& shown.node_info.listen_addr@ == Seq::<char>::empty()
        &&& shown.node_info.other.rpc_address@ == Seq::<char>::empty()
        &&& shown.node_info.version@ == Seq::<char>::empty()
        &&& shown.node_info.protocol_version == self.node_info.protocol_version
        &&& shown.node_info.id == self.node_info.id
        &&& shown.node_info.network == self.node_info.network
        &&& shown.node_info.channels == self.node_info.channels
        &&& shown.node_info.other.tx_index == self.node_info.other.tx_index
        &&& shown.sync_info == self.sync_info
        &&& shown.validator_info == self.validator_info
    }

    /// This status without what tells of the operator's infrastructure.
    pub fn strip_sensitive_info(&self) -> (shown: Self)
        ensures
            self.redacted_as(shown),
    {
        let mut status = self.clone();
        status.node_info.moniker = String::new();
        status.node_info.listen_addr = String::new();
        status.node_info.other.rpc_address = String::new();
        status.node_info.version = String::new();
        status
    }
}

/// The names of the parameters of a method, in the order in which the
/// upstream node takes them.
pub type Tendermint34Params = Vec<String>;

/// Owned copies of `params`.
pub fn make_params(params: Vec<&str>) -> (names: Tendermint34Params)
    ensures
        names.deep_view() == params.deep_view(),
{
    owned_names(params)
}

/// A route table by path, as a mathematical value: paths with the method
/// that requests for them call and the names of its parameters.
pub type PathRoutes = Seq<(Seq<char>, (Seq<char>, Seq<Seq<char>>))>;

/// The path of a method: the method behind a slash.
pub open spec fn path_of(method: Seq<char>) -> Seq<char> {
    "/"@ + method
}

/// The routes `routes`, each under the path of its method.
pub open spec fn by_path(routes: Routes) -> PathRoutes {
    Seq::new(routes.len(), |i: int| (path_of(routes[i].0), routes[i]))
}

/// What is done with the calls of `method` when `blocked` are the blocked
/// routes: blocking comes first, then the status, then the search for
/// transactions, which is treated as blocked, then the generic proxy.
pub open spec fn behavior_for(blocked: Seq<Seq<char>>, method: Seq<char>) -> RouteBehavior {
    if holds_text(blocked, method) {
        RouteBehavior::Blocked
    } else if method == "status"@ {
        RouteBehavior::Status
    } else if method == "tx_search"@ {
        RouteBehavior::Blocked
    } else {
        RouteBehavior::GenericProxy
    }
}

/// What the gateway decides on a call of `method` with `params`, when
/// `table` is its route table and `blocked` are its blocked routes: a method
/// without a route under its path is not found, and a method with one is
/// handled as `behavior_for` says of the method of the route.
pub open spec fn gateway_plan(
    table: PathRoutes,
    blocked: Seq<Seq<char>>,
    method: Seq<char>,
    params: Option<JsonData>,
) -> Plan {
    match assoc(table, path_of(method)) {
        None => Err(RpcErrorData::MethodNotFound(method)),
        Some(route) => handled(behavior_for(blocked, route.0), route.0, route.1, params),
    }
}

/// The generic proxy behind a route table: a method without a route under
/// its path is not found, and the call of a method with one is forwarded
/// under the method of the route.
pub open spec fn proxy_plan(
    table: PathRoutes,
    method: Seq<char>,
    params: Option<JsonData>,
) -> Plan {
    match assoc(table, path_of(method)) {
        None => Err(RpcErrorData::MethodNotFound(method)),
        Some(route) => handled(RouteBehavior::GenericProxy, route.0, route.1, params),
    }
}

/// The message that tells that no route has the path `path`.
pub open spec fn route_not_found(path: Seq<char>) -> Seq<char> {
    "route not found: "@ + path
}

/// The route that the layer for `path` is bound to, when `table` is the
/// route table, or why there is no such layer: the path has no route, or it
/// does not start with a slash.
pub open spec fn layer_plan(table: PathRoutes, path: Seq<char>) -> Result<Binding, RpcErrorData> {
    match assoc(table, path) {
        None => Err(RpcErrorData::Custom(route_not_found(path))),
        Some(route) => if is_rooted(path) {
            Ok(Some((path, route.0)))
        } else {
            Err(RpcErrorData::Custom(crate::proxy::params_layer_path_fault()))
        },
    }
}

/// The routes that the layers for the paths of `methods` are bound to, in
/// their order, or why the first of them that cannot be made cannot.
pub open spec fn layers_plan(table: PathRoutes, methods: Routes) -> Result<
    Seq<Binding>,
    RpcErrorData,
>
    decreases methods.len(),
{
    if methods.len() == 0 {
        Ok(Seq::empty())
    } else {
        match layers_plan(table, methods.drop_last()) {
            Err(e) => Err(e),
            Ok(bindings) => match layer_plan(table, path_of(methods.last().0)) {
                Err(e) => Err(e),
                Ok(binding) => Ok(bindings.push(binding)),
            },
        }
    }
}

/// A route: a method with the names of its parameters.
#[derive(Debug, PartialEq, Eq)]
pub struct Tendermint34Route {
    pub method: String,
    pub params: Tendermint34Params,
}

impl DeepView for Tendermint34Route {
    type V = (Seq<char>, Seq<Seq<char>>);

    open spec fn deep_view(&self) -> (Seq<char>, Seq<Seq<char>>) {
        (self.method@, self.params.deep_view())
    }
}

impl Clone for Tendermint34Route {
    fn clone(&self) -> (copy: Self)
        ensures
            copy.deep_view() == self.deep_view(),
    {
        Tendermint34Route { method: self.method.clone(), params: copy_names(&self.params) }
    }
}

impl Tendermint34Route {
    /// The route of `method` with the parameters `params`.
    pub fn new(method: String, params: Tendermint34Params) -> (route: Self)
        ensures
            route.method == method,
            route.params == params,
    {
        Self { method, params }
    }

    /// The layer that rewrites the GET requests for `path` into calls of the
    /// method of this route. The path must start with a slash.
    pub fn proxy_get_layer(&self, path: String) -> (made: Result<
        ProxyGetRequestParamsLayer,
        RpcError,
    >)
        ensures
            match made {
                Ok(layer) => is_rooted(path@) && layer.binding() == Some((path@, self.method@)),
                Err(e) => !is_rooted(path@) && e@ == RpcErrorData::Custom(
                    crate::proxy::params_layer_path_fault(),
                ),
            },
    {
        ProxyGetRequestParamsLayer::for_route(path, self.method.clone())
    }

    /// What is to be registered for the method of this route in `backend`.
    pub fn register_method(&self, backend: &Tendermint34Backend) -> (behavior: RouteBehavior)
        ensures
            behavior == behavior_for(backend.blocked(), self.method@),
    {
        if contains_text(&backend.blocked_routes, self.method.as_str()) {
            RouteBehavior::Blocked
        } else if same_text(self.method.as_str(), "status") {
            RouteBehavior::Status
        } else if same_text(self.method.as_str(), "tx_search") {
            RouteBehavior::Blocked
        } else {
            RouteBehavior::GenericProxy
        }
    }
}

/// The gateway in front of one upstream node. The connection to the node is
/// not part of it: the gateway decides, and its caller talks to the node.
#[derive(Debug, PartialEq, Eq)]
pub struct Tendermint34Backend {
    /// The methods that are answered with an error, each once.
    pub blocked_routes: Vec<String>,
    pub listen_addr: String,
    /// The route table by path, each path once.
    pub routes: Vec<(String, Tendermint34Route)>,
    pub url: String,
}

impl Tendermint34Backend {
    /// The route table.
    pub open spec fn table(&self) -> PathRoutes {
        self.routes.deep_view()
    }

    /// The blocked routes.
    pub open spec fn blocked(&self) -> Seq<Seq<char>> {
        self.blocked_routes.deep_view()
    }

    /// No path has two routes, and no route is blocked twice.
    pub open spec fn wf(&self) -> bool {
        distinct_keys(self.table()) && distinct(self.blocked())
    }

    /// Everything but the route table is the same here and in `other`.
    pub open spec fn same_settings(&self, other: &Tendermint34Backend) -> bool {
        &&& self.blocked_routes == other.blocked_routes
        &&& self.listen_addr == other.listen_addr
        &&& self.url == other.url
    }

    /// What this gateway decides on a call of `method` with `params`.
    pub open spec fn plan(&self, method: Seq<char>, params: Option<JsonData>) -> Plan {
        gateway_plan(self.table(), self.blocked(), method, params)
    }

    /// A gateway with the route table of the upstream node, each method
    /// under its path. Routes that `blocked_routes` names more than once are
    /// blocked once.
    pub fn new(url: &str, listen_addr: &str, blocked_routes: &Vec<&str>) -> (backend: Self)
        ensures
            backend.wf(),
            backend.table() == by_path(upstream_routes()),
            backend.blocked() == first_occurrences(blocked_routes.deep_view()),
            backend.url@ == url@,
            backend.listen_addr@ == listen_addr@,
    {
        let mut blocked: Vec<String> = Vec::new();
        let mut k: usize = 0;
        while k < blocked_routes.len()
            invariant
                k <= blocked_routes.len(),
                blocked.len() == k,
                forall|j: int| 0 <= j < k ==> blocked@[j]@ == blocked_routes@[j]@,
            decreases blocked_routes.len() - k,
        {
            blocked.push(blocked_routes[k].to_owned());
            k += 1;
        }
        assert(blocked.deep_view() =~= blocked_routes.deep_view());
        let mut backend = Tendermint34Backend {
            blocked_routes: unique_texts(&blocked),
            listen_addr: listen_addr.to_owned(),
            routes: Vec::new(),
            url: url.to_owned(),
        };
        let list = upstream_route_list();
        let ghost all = by_path(upstream_routes());
        let ghost start = backend;
        proof {
            lemma_upstream_routes_distinct();
            lemma_paths_distinct(upstream_routes());
            assert(backend.table() =~= all.subrange(0, 0));
        }
        let mut i: usize = 0;
        while i < list.len()
            invariant
                i <= list.len(),
                list.deep_view() == upstream_routes(),
                all == by_path(upstream_routes()),
                distinct_keys(all),
                distinct(backend.blocked()),
                backend.table() == all.subrange(0, i as int),
                backend.same_settings(&start),
            decreases list.len() - i,
        {
            let ghost before = backend.table();
            let ghost entry = all[i as int];
            let mut path = "/".to_owned();
            path.append(list[i].0.as_str());
            proof {
                assert(upstream_routes()[i as int] == (
                    list@[i as int].0@,
                    list@[i as int].1.deep_view(),
                ));
                assert(entry == (path@, (list@[i as int].0@, list@[i as int].1.deep_view())));
                assert forall|k: int| 0 <= k < before.len() implies before[k].0 != entry.0 by {
                    assert(before[k] == all[k]);
                }
                lemma_last_index_none(before, entry.0);
                assert(before.push(entry) =~= all.subrange(0, i + 1));
            }
            backend.add_proxy_route(path.as_str(), list[i].0.as_str(), copy_names(&list[i].1));
            i += 1;
        }
        assert(all.subrange(0, i as int) =~= all);
        backend
    }

    /// Sets the route of `path` to the method `method` with the parameters
    /// `params`: in the place of the route that the path has, or at the end
    /// of the table where it has none.
    pub fn add_proxy_route(&mut self, path: &str, method: &str, params: Tendermint34Params)
        ensures
            final(self).table() == put(
                old(self).table(),
                path@,
                (method@, params.deep_view()),
            ),
            final(self).same_settings(old(self)),
            old(self).wf() ==> final(self).wf(),
            forall|other: Seq<char>| #[trigger]
                assoc(final(self).table(), other) == (if other == path@ {
                    Some((method@, params.deep_view()))
                } else {
                    assoc(old(self).table(), other)
                }),
    {
        set_value(&mut self.routes, path, Tendermint34Route::new(method.to_owned(), params));
    }

    /// The route of `path`, where it has one.
    pub fn lookup(&self, path: &str) -> (found: Option<&Tendermint34Route>)
        ensures
            match found {
                Some(route) => assoc(self.table(), path@) == Some(route.deep_view()),
                None => assoc(self.table(), path@) is None,
            },
    {
        find_value(&self.routes, path)
    }

    /// The layer that rewrites the GET requests for `path` into calls of the
    /// method that the route of the path names.
    pub fn route_proxy_layer(&self, path: &str) -> (made: Result<
        ProxyGetRequestParamsLayer,
        RpcError,
    >)
        ensures
            match made {
                Ok(layer) => layer_plan(self.table(), path@) == Ok::<Binding, RpcErrorData>(
                    layer.binding(),
                ),
                Err(e) => layer_plan(self.table(), path@) == Err::<Binding, RpcErrorData>(e@),
            },
    {
        match self.lookup(path) {
            None => {
                let mut message = "route not found: ".to_owned();
                message.append(path);
                Err(RpcError::Custom(message))
            },
            Some(route) => route.proxy_get_layer(path.to_owned()),
        }
    }

    /// The layers that are installed at the start: one for the path of each
    /// method of the upstream node, in the order of the methods.
    pub fn proxy_layers(&self) -> (made: Result<Vec<ProxyGetRequestParamsLayer>, RpcError>)
        ensures
            match made {
                Ok(layers) => layers_plan(self.table(), upstream_routes()) matches Ok(bindings)
                    && layers.len() == bindings.len() && forall|i: int|
                    0 <= i < layers.len() ==> (#[trigger] layers@[i]).binding() == bindings[i],
                Err(e) => layers_plan(self.table(), upstream_routes()) == Err::<
                    Seq<Binding>,
                    RpcErrorData,
                >(e@),
            },
    {
        let list = upstream_route_list();
        let ghost methods = upstream_routes();
        let mut layers: Vec<ProxyGetRequestParamsLayer> = Vec::new();
        let mut i: usize = 0;
        assert(methods.subrange(0, 0) =~= Seq::empty());
        while i < list.len()
            invariant
                i <= list.len(),
                methods == upstream_routes(),
                list.deep_view() == methods,
                layers.len() == i,
                layers_plan(self.table(), methods.subrange(0, i as int)) matches Ok(bindings)
                    && bindings.len() == i && forall|k: int|
                    0 <= k < i ==> (#[trigger] layers@[k]).binding() == bindings[k],
            decreases list.len() - i,
        {
            let ghost next = methods.subrange(0, i + 1);
            let mut path = "/".to_owned();
            path.append(list[i].0.as_str());
            proof {
                assert(next.drop_last() =~= methods.subrange(0, i as int));
                assert(next.last() == methods[i as int]);
                assert(methods[i as int].0 == list@[i as int].0@);
            }
            match self.route_proxy_layer(path.as_str()) {
                Err(e) => {
                    proof {
                        lemma_layers_fail(self.table(), methods, i + 1);
                    }
                    return Err(e);
                },
                Ok(layer) => {
                    layers.push(layer);
                },
            }
            i += 1;
        }
        assert(methods.subrange(0, i as int) =~= methods);
        Ok(layers)
    }

    /// What is to be registered at the start: the method of every route of
    /// the table, in the order of the table, with what is done with its calls.
    pub fn registrations(&self) -> (list: Vec<(String, RouteBehavior)>)
        ensures
            list.len() == self.table().len(),
            forall|i: int|
                0 <= i < list.len() ==> (#[trigger] list@[i]).0@ == self.table()[i].1.0
                    && list@[i].1 == behavior_for(self.blocked(), self.table()[i].1.0),
    {
        let mut list: Vec<(String, RouteBehavior)> = Vec::new();
        let mut i: usize = 0;
        while i < self.routes.len()
            invariant
                i <= self.routes.len(),
                list.len() == i,
                forall|k: int|
                    0 <= k < i ==> (#[trigger] list@[k]).0@ == self.table()[k].1.0 && list@[k].1
                        == behavior_for(self.blocked(), self.table()[k].1.0),
            decreases self.routes.len() - i,
        {
            let route = &self.routes[i].1;
            assert(self.table()[i as int].1 == route.deep_view());
            list.push((route.method.clone(), route.register_method(self)));
            i += 1;
        }
        list
    }

    /// The status that this gateway shows when the upstream node answers `answer`.
    pub fn status(&self, answer: &Tendermint34Status) -> (shown: Tendermint34Status)
        ensures
            answer.redacted_as(shown),
    {
        answer.strip_sensitive_info()
    }

    /// The generic proxy: decides what to forward when `method` is called
    /// with `params`, or without parameters where `params` is `None`.
    pub fn proxy_call(&self, method: &str, params: Option<&JsonValue>) -> (outcome: Result<
        UpstreamCall,
        RpcError,
    >)
        ensures
            plan_of(outcome) == proxy_plan(self.table(), method@, given(params)),
    {
        let mut path = "/".to_owned();
        path.append(method);
        match self.lookup(path.as_str()) {
            None => Err(RpcError::MethodNotFound(method.to_owned())),
            Some(route) => handle(
                RouteBehavior::GenericProxy,
                route.method.as_str(),
                &route.params,
                params,
            ),
        }
    }

    /// Decides on a call of `method` with `params`, or without parameters
    /// where `params` is `None`: the call to make to the upstream node, or
    /// the error to answer with.
    pub fn dispatch(&self, method: &str, params: Option<&JsonValue>) -> (outcome: Result<
        UpstreamCall,
        RpcError,
    >)
        ensures
            plan_of(outcome) == self.plan(method@, given(params)),
    {
        let mut path = "/".to_owned();
        path.append(method);
        match self.lookup(path.as_str()) {
            None => Err(RpcError::MethodNotFound(method.to_owned())),
            Some(route) => handle(
                route.register_method(self),
                route.method.as_str(),
                &route.params,
                params,
            ),
        }
    }
}

/// Methods that differ have paths that differ: a route table by path has
/// no path twice where the table that it is made of has no method twice.
pub proof fn lemma_paths_distinct(routes: Routes)
    requires
        distinct_keys(routes),
    ensures
        distinct_keys(by_path(routes)),
{
    let paths = by_path(routes);
    assert forall|i: int, j: int| 0 <= i < j < paths.len() implies paths[i].0 != paths[j].0 by {
        let a = routes[i].0;
        let b = routes[j].0;
        assert(path_of(a).subrange(1, path_of(a).len() as int) =~= a) by {
            reveal_strlit("/");
        }
        assert(path_of(b).subrange(1, path_of(b).len() as int) =~= b) by {
            reveal_strlit("/");
        }
    }
}

/// Once the layer for one path cannot be made, the layers for more paths
/// cannot be made for the same reason.
pub proof fn lemma_layers_fail(table: PathRoutes, methods: Routes, upto: int)
    requires
        0 <= upto <= methods.len(),
        layers_plan(table, methods.subrange(0, upto)) is Err,
    ensures
        layers_plan(table, methods) == layers_plan(table, methods.subrange(0, upto)),
    decreases methods.len(),
{
    if upto < methods.len() {
        assert(methods.drop_last().subrange(0, upto) =~= methods.subrange(0, upto));
        lemma_layers_fail(table, methods.drop_last(), upto);
    } else {
        assert(methods.subrange(0, upto) =~= methods);
    }
}

/// The index page that is served to a request whose `Host` header is `host`.
pub fn root_html_proxy_call(host: Option<&str>) -> (page: String)
    ensures
        page@ == index_page(base_for(view_of(host)), upstream_routes()),
{
    root_page_for(host)
}

/// The index page: every method of the upstream node as a link under `base`.
pub fn root_html(base: &str) -> (page: String)
    ensures
        page@ == index_page(base@, upstream_routes()),
{
    root_page(base)
}

} // verus!
