//! The gateway in front of a CometBFT 0.34 node: the shape of the node's
//! status, the identity that the gateway shows in place of the node's own,
//! and the handling of each method.

use crate::assoc::{assoc, distinct_keys, find_value, lemma_last_index_none, put, set_value};
use crate::config::Config;
use crate::error::{RpcError, RpcErrorData};
use crate::json::{JsonData, JsonValue};
use crate::page::{base_for, index_page, root_page, root_page_for};
use crate::proxy::view_of;
use crate::registry::{handle, handled, RouteBehavior};
use crate::routes::{
    lemma_upstream_routes_distinct, owned_names, upstream_route_list, upstream_routes, Routes,
};
use crate::search::{constrained_search, tx_search_plan};
use crate::text::{contains_text, distinct, first_occurrences, holds_text, same_text, unique_texts};
use crate::upstream::{
    copy_names, forward, forward_plan, given, plan_of, Plan, UpstreamCall,
};
use rand::distributions::Distribution;
use rand::Rng;
use vstd::prelude::*;

verus! {

/// What stands in place of a redacted field.
pub open spec fn redacted() -> Seq<char> {
    "REDACTED"@
}

/// The key scheme that a synthetic validator identity names.
pub open spec fn key_scheme() -> Seq<char> {
    "tendermint/PubKeyEd25519"@
}

/// The characters that a synthetic validator address is drawn from.
pub open spec fn address_alphabet() -> Seq<char> {
    seq!['A', 'B', 'C', 'D', 'E', 'F', '0', '1', '2', '3', '4', '5', '6', '7', '8', '9']
}

/// The text that `rbase64::encode` gives for `bytes`.
pub uninterp spec fn base64_text(bytes: Seq<u8>) -> Seq<char>;

/// The versions of the protocols that a node speaks.
#[derive(Debug, PartialEq, Eq)]
pub struct Comet34ProtocolVersion {
    pub p2p: String,
    pub block: String,
    pub app: String,
}

impl Clone for Comet34ProtocolVersion {
    fn clone(&self) -> (copy: Self)
        ensures
            copy == *self,
    {
        Comet34ProtocolVersion {
            p2p: self.p2p.clone(),
            block: self.block.clone(),
            app: self.app.clone(),
        }
    }
}

/// What else a node tells of itself.
#[derive(Debug, PartialEq, Eq)]
pub struct Comet34Other {
    pub tx_index: String,
    pub rpc_address: String,
}

impl Clone for Comet34Other {
    fn clone(&self) -> (copy: Self)
        ensures
            copy == *self,
    {
        Comet34Other { tx_index: self.tx_index.clone(), rpc_address: self.rpc_address.clone() }
    }
}

/// What a node tells of itself.
#[derive(Debug, PartialEq, Eq)]
pub struct Comet34NodeInfo {
    pub protocol_version: Comet34ProtocolVersion,
    pub id: String,
    pub listen_addr: String,
    pub network: String,
    pub version: String,
    pub channels: String,
    pub moniker: String,
    pub other: Comet34Other,
}

impl Clone for Comet34NodeInfo {
    fn clone(&self) -> (copy: Self)
        ensures
            copy == *self,
    {
        Comet34NodeInfo {
            protocol_version: self.protocol_version.clone(),
            id: self.id.clone(),
            listen_addr: self.listen_addr.clone(),
            network: self.network.clone(),
            version: self.version.clone(),
            channels: self.channels.clone(),
            moniker: self.moniker.clone(),
            other: self.other.clone(),
        }
    }
}

/// How far a node has come in following the chain.
#[derive(Debug, PartialEq, Eq)]
pub struct Comet34SyncInfo {
    pub latest_block_hash: String,
    pub latest_app_hash: String,
    pub latest_block_height: String,
    pub latest_block_time: String,
    pub earliest_block_hash: String,
    pub earliest_app_hash: String,
    pub earliest_block_height: String,
    pub earliest_block_time: String,
    pub catching_up: bool,
}

impl Clone for Comet34SyncInfo {
    fn clone(&self) -> (copy: Self)
        ensures
            copy == *self,
    {
        Comet34SyncInfo {
            latest_block_hash: self.latest_block_hash.clone(),
            latest_app_hash: self.latest_app_hash.clone(),
            latest_block_height: self.latest_block_height.clone(),
            latest_block_time: self.latest_block_time.clone(),
            earliest_block_hash: self.earliest_block_hash.clone(),
            earliest_app_hash: self.earliest_app_hash.clone(),
            earliest_block_height: self.earliest_block_height.clone(),
            earliest_block_time: self.earliest_block_time.clone(),
            catching_up: self.catching_up,
        }
    }
}

/// A public key: the name of its scheme and its value in base64.
#[derive(Debug, PartialEq, Eq)]
pub struct Comet34PubKey {
    pub type_: String,
    pub value: String,
}

impl Clone for Comet34PubKey {
    fn clone(&self) -> (copy: Self)
        ensures
            copy == *self,
    {
        Comet34PubKey { type_: self.type_.clone(), value: self.value.clone() }
    }
}

/// The validator that a node runs as.
#[derive(Debug, PartialEq, Eq)]
pub struct Comet34ValidatorInfo {
    pub address: String,
    pub pub_key: Comet34PubKey,
    pub voting_power: String,
}

impl Clone for Comet34ValidatorInfo {
    fn clone(&self) -> (copy: Self)
        ensures
            copy == *self,
    {
        Comet34ValidatorInfo {
            address: self.address.clone(),
            pub_key: self.pub_key.clone(),
            voting_power: self.voting_power.clone(),
        }
    }
}

/// Why no validator identity could be made.
#[derive(Clone, Copy, Debug, PartialEq, Eq, Structural)]
pub enum IdentityError {
    /// There is no character to draw an address from.
    EmptyAlphabet,
}

/// Draws `count` characters from `alphabet` with `rand::distributions::Slice`
/// and the operating system's generator, `rand_core::OsRng`. `Slice::new`
/// refuses an empty slice, and only then; each sample is an item of the
/// slice. Which items are drawn is not known. Where the operating system
/// gives no random bytes, the generator stops the process.
#[verifier::external_body]
fn sample_chars(alphabet: &Vec<char>, count: usize) -> (drawn: Option<String>)
    ensures
        drawn is None <==> alphabet@.len() == 0,
        drawn matches Some(s) ==> s@.len() == count && forall|i: int|
            0 <= i < s@.len() ==> alphabet@.contains(#[trigger] s@[i]),
{
    let slice = rand::distributions::Slice::new(alphabet).ok()?;
    Some(slice.sample_iter(rand_core::OsRng).take(count).collect())
}

/// Takes 32 bytes from the operating system's generator, `rand_core::OsRng`,
/// through `rand::Rng::gen`. Nothing is known of the bytes. Where the
/// operating system gives no random bytes, the generator stops the process.
#[verifier::external_body]
fn random_key() -> (bytes: [u8; 32]) {
    rand_core::OsRng.gen::<[u8; 32]>()
}

/// Encodes `bytes` with `rbase64::encode`. The text is believed to depend
/// on the bytes alone; of what it is, only its length is stated: four
/// characters for every three bytes or part of three bytes.
#[verifier::external_body]
fn base64_encode(bytes: &[u8]) -> (text: String)
    ensures
        text@ == base64_text(bytes@),
        text@.len() == 4 * ((bytes@.len() + 2) / 3),
{
    rbase64::encode(bytes)
}

impl Comet34ValidatorInfo {
    /// This identity is one that `from_random` makes of `address` and `key`.
    pub open spec fn made_of(&self, address: Seq<char>, key: Seq<u8>) -> bool {
        &&& self.address@ == address
        &&& self.pub_key.type_@ == key_scheme()
        &&& self.pub_key.value@ == base64_text(key)
        &&& self.voting_power@ == "0"@
    }

    /// This identity is a synthetic one: an address of 40 characters of the
    /// address alphabet, a key of the fixed scheme whose value is the
    /// encoding of some 32 bytes, and no voting power.
    pub open spec fn is_synthetic(&self) -> bool {
        self.is_drawn_from(address_alphabet())
    }

    /// The characters that an address is drawn from.
    pub fn addr_chars() -> (chars: Vec<char>)
        ensures
            chars@ == address_alphabet(),
    {
        let chars = vec![
            'A',
            'B',
            'C',
            'D',
            'E',
            'F',
            '0',
            '1',
            '2',
            '3',
            '4',
            '5',
            '6',
            '7',
            '8',
            '9',
        ];
        assert(chars@ =~= address_alphabet());
        chars
    }

    /// The identity with the address `address` and the key `key`.
    pub fn from_random(address: String, key: &[u8]) -> (info: Self)
        ensures
            info.made_of(address@, key@),
            info.pub_key.value@.len() == 4 * ((key@.len() + 2) / 3),
    {
        Comet34ValidatorInfo {
            address,
            pub_key: Comet34PubKey {
                type_: "tendermint/PubKeyEd25519".to_owned(),
                value: base64_encode(key),
            },
            voting_power: "0".to_owned(),
        }
    }

    /// This identity is a fresh one with an address drawn from `alphabet`: an
    /// address of 40 characters of the alphabet, a key of the fixed scheme
    /// whose value is the encoding of some 32 bytes and so has 44
    /// characters, and no voting power.
    pub open spec fn is_drawn_from(&self, alphabet: Seq<char>) -> bool {
        &&& self.address@.len() == 40
        &&& forall|i: int|
            0 <= i < self.address@.len() ==> alphabet.contains(#[trigger] self.address@[i])
        &&& exists|key: Seq<u8>| key.len() == 32 && #[trigger] self.made_of(self.address@, key)
        &&& self.pub_key.value@.len() == 44
    }

    /// A fresh identity whose address is drawn from `alphabet`, which must
    /// not be empty. Address and key come from the operating system's generator.
    pub fn drawn_from(alphabet: &Vec<char>) -> (made: Result<Self, IdentityError>)
        ensures
            match made {
                Ok(info) => alphabet@.len() > 0 && info.is_drawn_from(alphabet@),
                Err(e) => alphabet@.len() == 0 && e == IdentityError::EmptyAlphabet,
            },
    {
        match sample_chars(alphabet, 40) {
            None => Err(IdentityError::EmptyAlphabet),
            Some(address) => {
                let key = random_key();
                let info = Self::from_random(address, key.as_slice());
                assert(info.made_of(info.address@, key@));
                Ok(info)
            },
        }
    }

    /// A fresh synthetic identity, drawn from the operating system's generator.
    pub fn new() -> (made: Result<Self, IdentityError>)
        ensures
            made matches Ok(info) && info.is_synthetic(),
    {
        Self::drawn_from(&Self::addr_chars())
    }
}

/// The status of a node, as it answers the method `status`.
#[derive(Debug, PartialEq, Eq)]
pub struct Comet34Status {
    pub node_info: Comet34NodeInfo,
    pub sync_info: Comet34SyncInfo,
    pub validator_info: Comet34ValidatorInfo,
}

impl Clone for Comet34Status {
    fn clone(&self) -> (copy: Self)
        ensures
            copy == *self,
    {
        Comet34Status {
            node_info: self.node_info.clone(),
            sync_info: self.sync_info.clone(),
            validator_info: self.validator_info.clone(),
        }
    }
}

impl Comet34Status {
    /// `shown` is this status as the gateway shows it: moniker, listen
    /// address, RPC address and version are redacted, the validator is
    /// `validator_info` where one is given, and all else is as it is here.
    pub open spec fn redacted_as(
        &self,
        validator_info: Option<&Comet34ValidatorInfo>,
        shown: Comet34Status,
    ) -> bool {
        &&& shown.node_info.moniker@ == redacted()
        &&& shown.node_info.listen_addr@ == redacted()
        &&& shown.node_info.other.rpc_address@ == redacted()
        &&& shown.node_info.version@ == redacted()
        &&& shown.node_info.protocol_version == self.node_info.protocol_version
        &&& shown.node_info.id == self.node_info.id
        &&& shown.node_info.network == self.node_info.network
        &&& shown.node_info.channels == self.node_info.channels
        &&& shown.node_info.other.tx_index == self.node_info.other.tx_index
        &&& shown.sync_info == self.sync_info
        &&& shown.validator_info == match validator_info {
            Some(v) => *v,
            None => self.validator_info,
        }
    }

    /// This status without what tells of the operator's infrastructure, and
    /// with `validator_info`, where one is given, in place of the validator.
    pub fn strip_sensitive_info(&self, validator_info: Option<&Comet34ValidatorInfo>) -> (shown:
        Self)
        ensures
            self.redacted_as(validator_info, shown),
    {
        let mut status = self.clone();
        status.node_info.moniker = "REDACTED".to_owned();
        status.node_info.listen_addr = "REDACTED".to_owned();
        status.node_info.other.rpc_address = "REDACTED".to_owned();
        status.node_info.version = "REDACTED".to_owned();
        match validator_info {
            Some(v) => {
                status.validator_info = v.clone();
            },
            None => {},
        }
        status
    }
}

/// The names of the parameters of a method, in the order in which the
/// upstream node takes them.
pub type Comet34Params = Vec<String>;

/// Owned copies of `params`.
pub fn make_params(params: Vec<&str>) -> (names: Comet34Params)
    ensures
        names.deep_view() == params.deep_view(),
{
    owned_names(params)
}

/// What is done with the calls of `method` when `blocked` are the blocked
/// routes: blocking comes first, then the two methods with a handling of
/// their own, then the generic proxy.
pub open spec fn behavior_for(blocked: Seq<Seq<char>>, method: Seq<char>) -> RouteBehavior {
    if holds_text(blocked, method) {
        RouteBehavior::Blocked
    } else if method == "status"@ {
        RouteBehavior::Status
    } else if method == "tx_search"@ {
        RouteBehavior::ConstrainedSearch
    } else {
        RouteBehavior::GenericProxy
    }
}

/// What the gateway decides on a call of `method` with `params`, when
/// `table` is its route table and `blocked` are its blocked routes: a method
/// without a route is not found, and a method with one is handled as
/// `behavior_for` says.
pub open spec fn gateway_plan(
    table: Routes,
    blocked: Seq<Seq<char>>,
    method: Seq<char>,
    params: Option<JsonData>,
) -> Plan {
    match assoc(table, method) {
        None => Err(RpcErrorData::MethodNotFound(method)),
        Some(names) => handled(behavior_for(blocked, method), method, names, params),
    }
}

/// The generic proxy behind a route table: a method without a route is not
/// found, and the call of a method with one is forwarded as `forward_plan` says.
pub open spec fn proxy_plan(
    table: Routes,
    method: Seq<char>,
    params: Option<JsonData>,
) -> Plan {
    match assoc(table, method) {
        None => Err(RpcErrorData::MethodNotFound(method)),
        Some(names) => forward_plan(method, names, params),
    }
}

/// The gateway in front of one upstream node. The connection to the node is
/// not part of it: the gateway decides, and its caller talks to the node.
#[derive(Debug, PartialEq, Eq)]
pub struct Comet34Backend {
    /// The methods that are answered with an error, each once.
    pub blocked_routes: Vec<String>,
    pub listen_addr: String,
    /// The route table, each method once.
    pub routes: Vec<(String, Comet34Params)>,
    pub url: String,
    pub max_connections: u32,
    pub max_subscriptions_per_connection: u32,
    pub max_request_body_size_bytes: u32,
    pub max_response_body_size_bytes: u32,
    pub ws_ping_interval_seconds: u32,
    /// The identity that is shown in place of the node's validator.
    pub validator_info: Comet34ValidatorInfo,
}

impl Comet34Backend {
    /// The route table.
    pub open spec fn table(&self) -> Routes {
        self.routes.deep_view()
    }

    /// The blocked routes.
    pub open spec fn blocked(&self) -> Seq<Seq<char>> {
        self.blocked_routes.deep_view()
    }

    /// No method has two routes, and no route is blocked twice.
    pub open spec fn wf(&self) -> bool {
        distinct_keys(self.table()) && distinct(self.blocked())
    }

    /// Everything but the route table is the same here and in `other`.
    pub open spec fn same_settings(&self, other: &Comet34Backend) -> bool {
        &&& self.blocked_routes == other.blocked_routes
        &&& self.listen_addr == other.listen_addr
        &&& self.url == other.url
        &&& self.max_connections == other.max_connections
        &&& self.max_subscriptions_per_connection == other.max_subscriptions_per_connection
        &&& self.max_request_body_size_bytes == other.max_request_body_size_bytes
        &&& self.max_response_body_size_bytes == other.max_response_body_size_bytes
        &&& self.ws_ping_interval_seconds == other.ws_ping_interval_seconds
        &&& self.validator_info == other.validator_info
    }

    /// What this gateway decides on a call of `method` with `params`.
    pub open spec fn plan(&self, method: Seq<char>, params: Option<JsonData>) -> Plan {
        gateway_plan(self.table(), self.blocked(), method, params)
    }

    /// A gateway with the route table of the upstream node. Routes that
    /// `blocked_routes` names more than once are blocked once.
    pub fn new(
        url: &str,
        listen_addr: &str,
        blocked_routes: &Vec<String>,
        max_connections: u32,
        max_subscriptions_per_connection: u32,
        max_request_body_size_bytes: u32,
        max_response_body_size_bytes: u32,
        ws_ping_interval_seconds: u32,
        validator_info: Comet34ValidatorInfo,
    ) -> (backend: Self)
        ensures
            backend.wf(),
            backend.table() == upstream_routes(),
            backend.blocked() == first_occurrences(blocked_routes.deep_view()),
            backend.url@ == url@,
            backend.listen_addr@ == listen_addr@,
            backend.max_connections == max_connections,
            backend.max_subscriptions_per_connection == max_subscriptions_per_connection,
            backend.max_request_body_size_bytes == max_request_body_size_bytes,
            backend.max_response_body_size_bytes == max_response_body_size_bytes,
            backend.ws_ping_interval_seconds == ws_ping_interval_seconds,
            backend.validator_info == validator_info,
    {
        let mut backend = Comet34Backend {
            blocked_routes: unique_texts(blocked_routes),
            listen_addr: listen_addr.to_owned(),
            routes: Vec::new(),
            url: url.to_owned(),
            max_connections,
            max_subscriptions_per_connection,
            max_request_body_size_bytes,
            max_response_body_size_bytes,
            ws_ping_interval_seconds,
            validator_info,
        };
        let list = upstream_route_list();
        let ghost start = backend;
        proof {
            lemma_upstream_routes_distinct();
            assert(backend.table() =~= upstream_routes().subrange(0, 0));
        }
        let mut i: usize = 0;
        while i < list.len()
            invariant
                i <= list.len(),
                list.deep_view() == upstream_routes(),
                distinct_keys(upstream_routes()),
                distinct(backend.blocked()),
                backend.table() == upstream_routes().subrange(0, i as int),
                backend.same_settings(&start),
            decreases list.len() - i,
        {
            let ghost before = backend.table();
            let ghost entry = upstream_routes()[i as int];
            proof {
                assert(entry == (list@[i as int].0@, list@[i as int].1.deep_view()));
                assert forall|k: int| 0 <= k < before.len() implies before[k].0 != entry.0 by {
                    assert(before[k] == upstream_routes()[k]);
                }
                lemma_last_index_none(before, entry.0);
                assert(before.push(entry) =~= upstream_routes().subrange(0, i + 1));
            }
            backend.add_route(list[i].0.as_str(), copy_names(&list[i].1));
            i += 1;
        }
        assert(upstream_routes().subrange(0, i as int) =~= upstream_routes());
        backend
    }

    /// Sets the route of `method` to `params`: in the place of the route that
    /// the method has, or at the end of the table where it has none.
    pub fn add_route(&mut self, method: &str, params: Comet34Params)
        ensures
            final(self).table() == put(old(self).table(), method@, params.deep_view()),
            final(self).same_settings(old(self)),
            old(self).wf() ==> final(self).wf(),
            forall|other: Seq<char>| #[trigger]
                assoc(final(self).table(), other) == (if other == method@ {
                    Some(params.deep_view())
                } else {
                    assoc(old(self).table(), other)
                }),
    {
        set_value(&mut self.routes, method, params);
    }

    /// The names of the parameters of `method`, where it has a route.
    pub fn lookup(&self, method: &str) -> (found: Option<&Comet34Params>)
        ensures
            match found {
                Some(names) => assoc(self.table(), method@) == Some(names.deep_view()),
                None => assoc(self.table(), method@) is None,
            },
    {
        find_value(&self.routes, method)
    }

    /// What is to be registered for `method`.
    pub fn register_route(&self, method: &str) -> (behavior: RouteBehavior)
        ensures
            behavior == behavior_for(self.blocked(), method@),
    {
        if contains_text(&self.blocked_routes, method) {
            RouteBehavior::Blocked
        } else if same_text(method, "status") {
            RouteBehavior::Status
        } else if same_text(method, "tx_search") {
            RouteBehavior::ConstrainedSearch
        } else {
            RouteBehavior::GenericProxy
        }
    }

    /// What is to be registered at the start: every method of the route
    /// table, in the order of the table, with what is done with its calls.
    pub fn registrations(&self) -> (list: Vec<(String, RouteBehavior)>)
        ensures
            list.len() == self.table().len(),
            forall|i: int|
                0 <= i < list.len() ==> (#[trigger] list@[i]).0@ == self.table()[i].0 && list@[i].1
                    == behavior_for(self.blocked(), self.table()[i].0),
    {
        let mut list: Vec<(String, RouteBehavior)> = Vec::new();
        let mut i: usize = 0;
        while i < self.routes.len()
            invariant
                i <= self.routes.len(),
                list.len() == i,
                forall|k: int|
                    0 <= k < i ==> (#[trigger] list@[k]).0@ == self.table()[k].0 && list@[k].1
                        == behavior_for(self.blocked(), self.table()[k].0),
            decreases self.routes.len() - i,
        {
            let method = self.routes[i].0.as_str();
            assert(self.table()[i as int].0 == method@);
            list.push((method.to_owned(), self.register_route(method)));
            i += 1;
        }
        list
    }

    /// The status that this gateway shows when the upstream node answers
    /// `answer`: redacted, and with the gateway's own validator identity.
    pub fn status(&self, answer: &Comet34Status) -> (shown: Comet34Status)
        ensures
            answer.redacted_as(Some(&self.validator_info), shown),
    {
        answer.strip_sensitive_info(Some(&self.validator_info))
    }

    /// The constrained search: decides what to forward when `tx_search` is
    /// called with `params`.
    pub fn tx_search(&self, params: &JsonValue) -> (outcome: Result<UpstreamCall, RpcError>)
        ensures
            plan_of(outcome) == tx_search_plan(params@),
    {
        constrained_search(params)
    }

    /// The generic proxy: decides what to forward when `method` is called
    /// with `params`, or without parameters where `params` is `None`.
    pub fn proxy_call(&self, method: &str, params: Option<&JsonValue>) -> (outcome: Result<
        UpstreamCall,
        RpcError,
    >)
        ensures
            plan_of(outcome) == proxy_plan(self.table(), method@, given(params)),
    {
        match self.lookup(method) {
            None => Err(RpcError::MethodNotFound(method.to_owned())),
            Some(names) => forward(method, names, params),
        }
    }

    /// Decides on a call of `method` with `params`, or without parameters
    /// where `params` is `None`: the call to make to the upstream node, or
    /// the error to answer with.
    pub fn dispatch(&self, method: &str, params: Option<&JsonValue>) -> (outcome: Result<
        UpstreamCall,
        RpcError,
    >)
        ensures
            plan_of(outcome) == self.plan(method@, given(params)),
    {
        match self.lookup(method) {
            None => Err(RpcError::MethodNotFound(method.to_owned())),
            Some(names) => handle(self.register_route(method), method, names, params),
        }
    }

    /// The gateway that `config` describes, with a fresh validator identity.
    pub fn try_from(config: Config) -> (made: Result<Self, IdentityError>)
        ensures
            made matches Ok(backend) && backend.wf() && backend.table() == upstream_routes()
                && backend.blocked() == first_occurrences(config@.blocked_routes)
                && backend.url@ == config@.rpc_addr && backend.listen_addr@
                == config@.listen_addr && backend.max_connections == config.max_connections
                && backend.max_subscriptions_per_connection
                == config.max_subscriptions_per_connection
                && backend.max_request_body_size_bytes == config.max_request_body_size_bytes
                && backend.max_response_body_size_bytes == config.max_response_body_size_bytes
                && backend.ws_ping_interval_seconds == config.ws_ping_interval_seconds
                && backend.validator_info.is_synthetic(),
    {
        match Comet34ValidatorInfo::new() {
            Err(e) => Err(e),
            Ok(validator_info) => Ok(
                Self::new(
                    config.rpc_addr.as_str(),
                    config.listen_addr.as_str(),
                    &config.blocked_routes,
                    config.max_connections,
                    config.max_subscriptions_per_connection,
                    config.max_request_body_size_bytes,
                    config.max_response_body_size_bytes,
                    config.ws_ping_interval_seconds,
                    validator_info,
                ),
            ),
        }
    }
}

/// The index page that is served to a request whose `Host` header is `host`.
pub fn root_html_proxy_call(host: Option<&str>) -> (page: String)
    ensures
        page@ == index_page(base_for(view_of(host)), upstream_routes()),
{
    root_page_for(host)
}

/// The index page: every method of the upstream node as a link under `base`.
pub fn root_html(base: &str) -> (page: String)
    ensures
        page@ == index_page(base@, upstream_routes()),
{
    root_page(base)
}

} // verus!
