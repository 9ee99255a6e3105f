//! The two layers in front of the JSON-RPC server: the one that turns a GET
//! request with query parameters into a JSON-RPC call, and the one that
//! answers a GET request for one fixed path with static content.

use crate::assoc::{assoc, distinct_keys, has_key, last_wins, lemma_last_wins};
use crate::error::{RpcError, RpcErrorData};
use crate::json::{lemma_object_view, JsonData, JsonValue};
use crate::text::{same_text, starts_with, trim, trim_matches, trim_start, trim_start_matches};
use vstd::prelude::*;

verus! {

/// Names with values, both as texts.
pub type Pairs = Seq<(Seq<char>, Seq<char>)>;

/// The pairs that `url::form_urlencoded::parse` reads from the query `query`.
pub uninterp spec fn form_urlencoded_pairs(query: Seq<char>) -> Pairs;

/// The JSON-RPC request with the numeric id `id`, the method `method` and the
/// keyed string parameters `params`, as `jsonrpsee::types::RequestSer` and
/// `serde_json::to_string` write it.
pub uninterp spec fn rpc_request_text(id: u64, method: Seq<char>, params: Pairs) -> Seq<char>;

/// Reads the pairs of a query string with `url::form_urlencoded::parse`. The
/// pairs are believed to depend on the text of the query alone; what they
/// are, is not stated.
#[verifier::external_body]
fn parse_query(query: &str) -> (pairs: Vec<(String, String)>)
    ensures
        pairs.deep_view() == form_urlencoded_pairs(query@),
{
    url::form_urlencoded::parse(query.as_bytes()).into_owned().collect()
}

/// Writes a JSON-RPC request: `params` become the object that
/// `serde_json::value::to_raw_value` writes for them, and
/// `jsonrpsee::types::RequestSer::borrowed` with the numeric id `id`, written
/// by `serde_json::to_string`, is the request. The text is believed to depend
/// on the id, the method and the parameters alone; what it is, is not
/// stated. Writing strings as JSON does not fail.
#[verifier::external_body]
fn request_text(id: u64, method: &str, params: &Vec<(String, String)>) -> (body: String)
    ensures
        body@ == rpc_request_text(id, method@, params.deep_view()),
{
    let map: serde_json::Map<String, serde_json::Value> = params.iter().map(
        |p| (p.0.clone(), serde_json::Value::String(p.1.clone())),
    ).collect();
    let raw = serde_json::value::to_raw_value(&map).expect("valid params");
    let id = jsonrpsee::types::Id::Number(id);
    let request = jsonrpsee::types::RequestSer::borrowed(&id, &method, Some(raw.as_ref()));
    serde_json::to_string(&request).expect("valid request")
}

/// The path that is never rewritten: that of the index page, which is also
/// the path that JSON-RPC calls are posted to.
pub open spec fn root_path() -> Seq<char> {
    "/"@
}

/// The id of the call that a GET request is rewritten into.
pub const REWRITE_ID: u64 = 0;

/// The media type of a JSON-RPC request.
pub open spec fn json_type() -> Seq<char> {
    "application/json"@
}

/// `pairs` with each value freed of the double quotes around it.
pub open spec fn unquoted(pairs: Pairs) -> Pairs {
    Seq::new(pairs.len(), |i: int| (pairs[i].0, trim(pairs[i].1, '"')))
}

/// The parameters that a query gives: its pairs, the values without the
/// double quotes around them, and of the pairs with the same name the last.
pub open spec fn query_params(query: Option<Seq<char>>) -> Pairs {
    match query {
        Some(q) => last_wins(unquoted(form_urlencoded_pairs(q))),
        None => Seq::empty(),
    }
}

/// String parameters as the members of a JSON object.
pub open spec fn string_members(params: Pairs) -> Seq<(Seq<char>, JsonData)> {
    Seq::new(params.len(), |i: int| (params[i].0, JsonData::String(params[i].1)))
}

/// A request that was rewritten into a JSON-RPC call, as a mathematical value.
pub struct RewrittenData {
    pub method: Seq<char>,
    pub uri: Seq<char>,
    pub content_type: Seq<char>,
    pub accept: Seq<char>,
    pub rpc_method: Seq<char>,
    pub params: JsonData,
    pub body: Seq<char>,
}

/// What a GET request becomes: a POST request to the root path that carries
/// a JSON-RPC call.
#[derive(Debug, PartialEq, Eq)]
pub struct RewrittenRequest {
    /// The HTTP method, `POST`.
    pub method: String,
    /// The path, `/`.
    pub uri: String,
    /// The `Content-Type` header, `application/json`.
    pub content_type: String,
    /// The `Accept` header, `application/json`.
    pub accept: String,
    /// The method of the JSON-RPC call.
    pub rpc_method: String,
    /// The parameters of the JSON-RPC call: an object of strings.
    pub params: JsonValue,
    /// The JSON-RPC call as it is written into the body.
    pub body: String,
}

impl View for RewrittenRequest {
    type V = RewrittenData;

    open spec fn view(&self) -> RewrittenData {
        RewrittenData {
            method: self.method@,
            uri: self.uri@,
            content_type: self.content_type@,
            accept: self.accept@,
            rpc_method: self.rpc_method@,
            params: self.params@,
            body: self.body@,
        }
    }
}

/// The route that a layer is bound to: a path and the method that requests
/// for that path call.
pub type Binding = Option<(Seq<char>, Seq<char>)>;

/// Tells whether a request is rewritten: it must be a GET request for
/// another path than the root path and, where the layer is bound to a route,
/// for the path of that route.
pub open spec fn rewrites(binding: Binding, is_get: bool, path: Seq<char>) -> bool {
    is_get && path != root_path() && match binding {
        Some(route) => path == route.0,
        None => true,
    }
}

/// The method that a rewritten request calls: that of the route which the
/// layer is bound to, or else the path without the slashes in front of it.
pub open spec fn called_method(binding: Binding, path: Seq<char>) -> Seq<char> {
    match binding {
        Some(route) => route.1,
        None => trim_start(path, '/'),
    }
}

/// What a request becomes: `None` where it is left as it is, and else the
/// JSON-RPC call, with the id 0, of the method that the path names with the
/// parameters that the query gives.
pub open spec fn rewritten(
    binding: Binding,
    is_get: bool,
    path: Seq<char>,
    query: Option<Seq<char>>,
) -> Option<RewrittenData> {
    if rewrites(binding, is_get, path) {
        Some(
            RewrittenData {
                method: "POST"@,
                uri: root_path(),
                content_type: json_type(),
                accept: json_type(),
                rpc_method: called_method(binding, path),
                params: JsonData::Object(string_members(query_params(query))),
                body: rpc_request_text(
                    REWRITE_ID,
                    called_method(binding, path),
                    query_params(query),
                ),
            },
        )
    } else {
        None
    }
}

/// Tells whether a pair after the index `at` has the key of the pair at `at`.
pub fn key_recurs(pairs: &Vec<(String, String)>, at: usize) -> (r: bool)
    requires
        at < pairs.len(),
    ensures
        r == has_key(
            pairs.deep_view().subrange(at + 1, pairs.len() as int),
            pairs.deep_view()[at as int].0,
        ),
{
    let ghost later = pairs.deep_view().subrange(at + 1, pairs.len() as int);
    let mut j: usize = at + 1;
    while j < pairs.len()
        invariant
            at < j <= pairs.len(),
            later == pairs.deep_view().subrange(at + 1, pairs.len() as int),
            forall|k: int| at < k < j ==> pairs@[k].0@ != pairs@[at as int].0@,
        decreases pairs.len() - j,
    {
        if same_text(pairs[j].0.as_str(), pairs[at].0.as_str()) {
            assert(later[j - at - 1].0 == pairs@[at as int].0@);
            return true;
        }
        j += 1;
    }
    assert forall|k: int| 0 <= k < later.len() implies (#[trigger] later[k]).0
        != pairs@[at as int].0@ by {
        assert(later[k].0 == pairs@[k + at + 1].0@);
    }
    false
}

/// The parameters that the pairs of a query give: the values without the
/// double quotes around them, and of the pairs with the same name the last.
pub fn params_of_pairs(pairs: &Vec<(String, String)>) -> (params: Vec<(String, String)>)
    ensures
        params.deep_view() == last_wins(unquoted(pairs.deep_view())),
        distinct_keys(params.deep_view()),
        forall|name: Seq<char>| #[trigger]
            assoc(params.deep_view(), name) == assoc(unquoted(pairs.deep_view()), name),
{
    let ghost all = unquoted(pairs.deep_view());
    proof {
        lemma_last_wins(all);
    }
    let mut params: Vec<(String, String)> = Vec::new();
    let mut i: usize = 0;
    proof {
        assert(all.subrange(0, all.len() as int) =~= all);
        assert(params.deep_view() + last_wins(all) =~= last_wins(all));
    }
    while i < pairs.len()
        invariant
            i <= pairs.len(),
            all == unquoted(pairs.deep_view()),
            last_wins(all) == params.deep_view() + last_wins(
                all.subrange(i as int, all.len() as int),
            ),
        decreases pairs.len() - i,
    {
        let ghost rest = all.subrange(i as int, all.len() as int);
        let ghost before = params.deep_view();
        let recurs = key_recurs(pairs, i);
        proof {
            let later = pairs.deep_view().subrange(i + 1, pairs.len() as int);
            assert(rest.drop_first() =~= all.subrange(i + 1, all.len() as int));
            assert(rest[0] == all[i as int]);
            if has_key(later, all[i as int].0) {
                let k = choose|k: int|
                    0 <= k < later.len() && (#[trigger] later[k]).0 == all[i as int].0;
                assert(rest.drop_first()[k].0 == all[i as int].0);
            }
            if has_key(rest.drop_first(), all[i as int].0) {
                let k = choose|k: int|
                    0 <= k < rest.drop_first().len() && (#[trigger] rest.drop_first()[k]).0
                        == all[i as int].0;
                assert(later[k].0 == all[i as int].0);
            }
        }
        if !recurs {
            let value = trim_matches(pairs[i].1.as_str(), '"').to_owned();
            params.push((pairs[i].0.clone(), value));
            proof {
                assert(params.deep_view() =~= before.push(all[i as int]));
                assert(before.push(all[i as int]) + last_wins(rest.drop_first()) =~= before + (
                seq![all[i as int]] + last_wins(rest.drop_first())));
            }
        }
        i += 1;
    }
    proof {
        assert(params.deep_view() + Seq::<(Seq<char>, Seq<char>)>::empty() =~= params.deep_view());
    }
    params
}

/// String parameters as the members of a JSON object.
pub fn members_of_params(params: &Vec<(String, String)>) -> (object: JsonValue)
    ensures
        object@ == JsonData::Object(string_members(params.deep_view())),
{
    let mut members: Vec<(String, JsonValue)> = Vec::new();
    let mut i: usize = 0;
    while i < params.len()
        invariant
            i <= params.len(),
            members.len() == i,
            forall|k: int|
                0 <= k < i ==> (#[trigger] members@[k]).0@ == params@[k].0@ && members@[k].1@
                    == JsonData::String(params@[k].1@),
        decreases params.len() - i,
    {
        members.push((params[i].0.clone(), JsonValue::String(params[i].1.clone())));
        i += 1;
    }
    proof {
        lemma_object_view(members);
        assert(members.deep_view() =~= string_members(params.deep_view()));
    }
    JsonValue::Object(members)
}

/// The layer that rewrites GET requests with query parameters into JSON-RPC
/// calls. It rewrites the requests for every path but the root path, or,
/// where it is bound to a route, those for the path of that route.
#[derive(Debug, PartialEq, Eq)]
pub struct ProxyGetRequestParamsLayer {
    pub route: Option<(String, String)>,
}

impl Clone for ProxyGetRequestParamsLayer {
    fn clone(&self) -> (copy: Self)
        ensures
            copy.binding() == self.binding(),
    {
        ProxyGetRequestParamsLayer { route: copy_route(&self.route) }
    }
}

/// A copy of `route`.
pub fn copy_route(route: &Option<(String, String)>) -> (copy: Option<(String, String)>)
    ensures
        binding_of(copy) == binding_of(*route),
{
    match route {
        Some(r) => Some((r.0.clone(), r.1.clone())),
        None => None,
    }
}

/// The message that refuses to bind a layer to a path without a slash in front.
pub open spec fn params_layer_path_fault() -> Seq<char> {
    "ProxyGetRequestParamsLayer path must start with `/`"@
}

/// The route that `route` holds, as texts.
pub open spec fn binding_of(route: Option<(String, String)>) -> Binding {
    match route {
        Some(r) => Some((r.0@, r.1@)),
        None => None,
    }
}

impl ProxyGetRequestParamsLayer {
    /// The route that the layer is bound to.
    pub open spec fn binding(&self) -> Binding {
        binding_of(self.route)
    }

    /// The layer that is bound to no route.
    pub fn new() -> (layer: Self)
        ensures
            layer.binding() is None,
    {
        ProxyGetRequestParamsLayer { route: None }
    }

    /// The layer that rewrites the requests for `path` into calls of
    /// `method`. The path must start with a slash.
    pub fn for_route(path: String, method: String) -> (made: Result<Self, RpcError>)
        ensures
            match made {
                Ok(layer) => path@.len() > 0 && path@[0] == '/' && layer.binding() == Some(
                    (path@, method@),
                ),
                Err(e) => !(path@.len() > 0 && path@[0] == '/') && e@ == RpcErrorData::Custom(
                    params_layer_path_fault(),
                ),
            },
    {
        if !starts_with(path.as_str(), '/') {
            return Err(
                RpcError::Custom("ProxyGetRequestParamsLayer path must start with `/`".to_owned()),
            );
        }
        Ok(ProxyGetRequestParamsLayer { route: Some((path, method)) })
    }

    /// This layer around the service `inner`.
    pub fn layer<S>(&self, inner: S) -> (service: ProxyGetRequestParams<S>)
        ensures
            service.inner == inner,
            service.binding() == self.binding(),
    {
        ProxyGetRequestParams { inner, route: copy_route(&self.route) }
    }
}

/// The service that rewrites GET requests with query parameters into
/// JSON-RPC calls before it hands them to the service `inner`.
#[derive(Debug, PartialEq, Eq)]
pub struct ProxyGetRequestParams<S> {
    pub inner: S,
    pub route: Option<(String, String)>,
}

impl<S: Clone> Clone for ProxyGetRequestParams<S> {
    fn clone(&self) -> (copy: Self)
        ensures
            copy.binding() == self.binding(),
            cloned(self.inner, copy.inner),
    {
        ProxyGetRequestParams { inner: self.inner.clone(), route: copy_route(&self.route) }
    }
}

impl<S> ProxyGetRequestParams<S> {
    /// The route that the service is bound to.
    pub open spec fn binding(&self) -> Binding {
        binding_of(self.route)
    }

    /// The service around `inner` that is bound to no route.
    pub fn new(inner: S) -> (service: Self)
        ensures
            service.inner == inner,
            service.binding() is None,
    {
        ProxyGetRequestParams { inner, route: None }
    }

    /// What the request with the path `path` and the query `query` becomes
    /// before it is handed on: `None` where it is handed on as it is.
    pub fn call(&self, is_get: bool, path: &str, query: Option<&str>) -> (request: Option<
        RewrittenRequest,
    >)
        ensures
            match request {
                Some(r) => rewritten(self.binding(), is_get, path@, view_of(query)) == Some(r@),
                None => rewritten(self.binding(), is_get, path@, view_of(query)) is None,
            },
    {
        if !is_get || same_text(path, "/") {
            return None;
        }
        let rpc_method = match &self.route {
            Some(route) => {
                if !same_text(path, route.0.as_str()) {
                    return None;
                }
                route.1.clone()
            },
            None => trim_start_matches(path, '/').to_owned(),
        };
        let params = match query {
            Some(q) => params_of_pairs(&parse_query(q)),
            None => Vec::new(),
        };
        assert(params.deep_view() =~= query_params(view_of(query)));
        let body = request_text(REWRITE_ID, rpc_method.as_str(), &params);
        Some(
            RewrittenRequest {
                method: "POST".to_owned(),
                uri: "/".to_owned(),
                content_type: "application/json".to_owned(),
                accept: "application/json".to_owned(),
                rpc_method,
                params: members_of_params(&params),
                body,
            },
        )
    }
}

/// A response that is made without asking the JSON-RPC server, as a
/// mathematical value.
pub struct StaticData {
    pub status: u16,
    pub content_type: Seq<char>,
    pub body: Seq<char>,
}

/// A response that is made without asking the JSON-RPC server.
#[derive(Debug, PartialEq, Eq)]
pub struct StaticResponse {
    pub status: u16,
    /// The `Content-Type` header.
    pub content_type: String,
    pub body: String,
}

impl Clone for StaticResponse {
    fn clone(&self) -> (copy: Self)
        ensures
            copy == *self,
    {
        StaticResponse {
            status: self.status,
            content_type: self.content_type.clone(),
            body: self.body.clone(),
        }
    }
}

impl View for StaticResponse {
    type V = StaticData;

    open spec fn view(&self) -> StaticData {
        StaticData { status: self.status, content_type: self.content_type@, body: self.body@ }
    }
}

/// The media type of the static content.
pub open spec fn html_type() -> Seq<char> {
    "text/html"@
}

/// The message that refuses a layer for a path without a slash in front.
pub open spec fn custom_layer_path_fault() -> Seq<char> {
    "ProxyGetRequestCustomLayer path must start with `/`"@
}

/// The message that refuses a service for the path `path`, which has no
/// slash in front.
pub open spec fn custom_path_fault(path: Seq<char>) -> Seq<char> {
    "ProxyGetRequestCustom path must start with `/`, got: "@ + path
}

/// Tells whether `path` starts with a slash.
pub open spec fn is_rooted(path: Seq<char>) -> bool {
    path.len() > 0 && path[0] == '/'
}

/// What the service for `own_path` answers to a request: the content with
/// the status 200 to a GET request for its path, whatever the query, and
/// nothing to any other request, which goes on to the next service.
pub open spec fn served(
    own_path: Seq<char>,
    is_get: bool,
    path: Seq<char>,
    content: Seq<char>,
) -> Option<StaticData> {
    if is_get && path == own_path {
        Some(StaticData { status: 200, content_type: html_type(), body: content })
    } else {
        None
    }
}

/// The layer that answers GET requests for one path with static content.
/// Its path starts with a slash.
#[derive(Debug, PartialEq, Eq)]
pub struct ProxyGetRequestCustomLayer {
    path: String,
}

impl Clone for ProxyGetRequestCustomLayer {
    fn clone(&self) -> (copy: Self)
        ensures
            copy.path() == self.path(),
    {
        proof {
            use_type_invariant(self);
        }
        ProxyGetRequestCustomLayer { path: self.path.clone() }
    }
}

impl ProxyGetRequestCustomLayer {
    #[verifier::type_invariant]
    spec fn rooted(&self) -> bool {
        is_rooted(self.path@)
    }

    /// The path that the layer answers.
    pub closed spec fn path(&self) -> Seq<char> {
        self.path@
    }

    /// The layer for `path`, which must start with a slash.
    pub fn new(path: &str) -> (made: Result<Self, RpcError>)
        ensures
            match made {
                Ok(layer) => is_rooted(path@) && layer.path() == path@,
                Err(e) => !is_rooted(path@) && e@ == RpcErrorData::Custom(
                    custom_layer_path_fault(),
                ),
            },
    {
        if !starts_with(path, '/') {
            return Err(
                RpcError::Custom("ProxyGetRequestCustomLayer path must start with `/`".to_owned()),
            );
        }
        Ok(ProxyGetRequestCustomLayer { path: path.to_owned() })
    }

    /// This layer around the service `inner`.
    pub fn layer<S>(&self, inner: S) -> (service: ProxyGetRequestCustom<S>)
        ensures
            service.path() == self.path(),
            service.inner_view() == inner,
    {
        proof {
            use_type_invariant(self);
        }
        ProxyGetRequestCustom { inner, path: self.path.clone() }
    }
}

/// The service that answers GET requests for one path with static content
/// and hands every other request to the service `inner`. Its path starts
/// with a slash.
#[derive(Debug, PartialEq, Eq)]
pub struct ProxyGetRequestCustom<S> {
    inner: S,
    path: String,
}

impl<S: Clone> Clone for ProxyGetRequestCustom<S> {
    fn clone(&self) -> (copy: Self)
        ensures
            copy.path() == self.path(),
            cloned(self.inner_view(), copy.inner_view()),
    {
        proof {
            use_type_invariant(self);
        }
        ProxyGetRequestCustom { inner: self.inner.clone(), path: self.path.clone() }
    }
}

impl<S> ProxyGetRequestCustom<S> {
    #[verifier::type_invariant]
    spec fn rooted(&self) -> bool {
        is_rooted(self.path@)
    }

    /// The path that the service answers.
    pub closed spec fn path(&self) -> Seq<char> {
        self.path@
    }

    /// The service that the other requests go to.
    pub closed spec fn inner_view(&self) -> S {
        self.inner
    }

    /// The service for `path`, which must start with a slash, around `inner`.
    pub fn new(inner: S, path: &str) -> (made: Result<Self, RpcError>)
        ensures
            match made {
                Ok(service) => is_rooted(path@) && service.path() == path@ && service.inner_view()
                    == inner,
                Err(e) => !is_rooted(path@) && e@ == RpcErrorData::Custom(custom_path_fault(path@)),
            },
    {
        if !starts_with(path, '/') {
            let mut message = "ProxyGetRequestCustom path must start with `/`, got: ".to_owned();
            message.append(path);
            return Err(RpcError::Custom(message));
        }
        Ok(ProxyGetRequestCustom { inner, path: path.to_owned() })
    }

    /// The service that the other requests go to.
    pub fn inner(&self) -> (inner: &S)
        ensures
            *inner == self.inner_view(),
    {
        &self.inner
    }

    /// Tells whether the service answers the request itself.
    pub fn intercepts(&self, is_get: bool, path: &str) -> (r: bool)
        ensures
            r == (is_get && path@ == self.path()),
    {
        is_get && same_text(path, self.path.as_str())
    }

    /// What the service answers to a request, where `content` is the static
    /// content for it: `None` where the request goes on to the next service.
    pub fn call(&self, is_get: bool, path: &str, content: String) -> (response: Option<
        StaticResponse,
    >)
        ensures
            match response {
                Some(r) => served(self.path(), is_get, path@, content@) == Some(r@),
                None => served(self.path(), is_get, path@, content@) is None,
            },
    {
        if self.intercepts(is_get, path) {
            Some(
                StaticResponse { status: 200, content_type: "text/html".to_owned(), body: content },
            )
        } else {
            None
        }
    }
}

/// The text of a query, where there is one.
pub open spec fn view_of(query: Option<&str>) -> Option<Seq<char>> {
    match query {
        Some(q) => Some(q@),
        None => None,
    }
}

} // verus!
