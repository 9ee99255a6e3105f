use rpc_gateway::error::{InvalidParams, RpcError};
use rpc_gateway::json::JsonValue;
use rpc_gateway::registry::RouteBehavior;
use rpc_gateway::tendermint34::{make_params, Tendermint34Backend, Tendermint34Route};
use rpc_gateway::upstream::UpstreamCall;

fn text(s: &str) -> JsonValue {
    JsonValue::String(s.to_string())
}

fn object(members: Vec<(&str, JsonValue)>) -> JsonValue {
    JsonValue::Object(members.into_iter().map(|(k, v)| (k.to_string(), v)).collect())
}

fn strings(items: &[&str]) -> Vec<String> {
    items.iter().map(|s| s.to_string()).collect()
}

fn backend(blocked: Vec<&str>) -> Tendermint34Backend {
    Tendermint34Backend::new("http://localhost:26657", "127.0.0.1:8080", &blocked)
}

const METHODS: [&str; 29] = [
    "abci_info",
    "abci_query",
    "block",
    "block_by_hash",
    "block_results",
    "block_search",
    "blockchain",
    "broadcast_evidence",
    "broadcast_tx_async",
    "broadcast_tx_commit",
    "broadcast_tx_sync",
    "check_tx",
    "commit",
    "consensus_params",
    "consensus_state",
    "dump_consensus_state",
    "genesis",
    "genesis_chunked",
    "health",
    "net_info",
    "num_unconfirmed_txs",
    "status",
    "subscribe",
    "tx",
    "tx_search",
    "unconfirmed_txs",
    "unsubscribe",
    "unsubscribe_all",
    "validators",
];

#[test]
fn route_holds_its_method_and_parameters() {
    let route = Tendermint34Route::new("tx".to_string(), make_params(vec!["hash", "prove"]));
    assert_eq!(route.method, "tx");
    assert_eq!(route.params, strings(&["hash", "prove"]));
    assert_eq!(route.clone(), route);
    assert_eq!(make_params(vec![]), Vec::<String>::new());
}

#[test]
fn route_makes_the_layer_for_its_path() {
    let route = Tendermint34Route::new("block".to_string(), make_params(vec!["height"]));
    let layer = route.proxy_get_layer("/block".to_string()).expect("the path starts with a slash");
    assert_eq!(layer.route, Some(("/block".to_string(), "block".to_string())));
    let request = layer.layer(()).call(true, "/block", Some("height=5")).expect("rewritten");
    assert_eq!(request.rpc_method, "block");
    assert_eq!(request.params, object(vec![("height", text("5"))]));
}

#[test]
fn route_makes_no_layer_for_a_path_without_slash() {
    let route = Tendermint34Route::new("block".to_string(), make_params(vec!["height"]));
    assert_eq!(
        route.proxy_get_layer("block".to_string()),
        Err(RpcError::Custom("ProxyGetRequestParamsLayer path must start with `/`".to_string()))
    );
}

#[test]
fn table_has_every_method_under_its_path() {
    let gateway = backend(vec!["tx_search", "tx_search"]);
    assert_eq!(gateway.url, "http://localhost:26657");
    assert_eq!(gateway.listen_addr, "127.0.0.1:8080");
    assert_eq!(gateway.blocked_routes, strings(&["tx_search"]));
    assert_eq!(gateway.routes.len(), 29);
    for method in METHODS {
        let route = gateway.lookup(&format!("/{}", method)).expect("the path has a route");
        assert_eq!(route.method, method);
        assert_eq!(gateway.lookup(method), None);
    }
    assert_eq!(
        gateway.lookup("/tx_search").map(|r| r.params.clone()),
        Some(strings(&["query", "prove", "page", "per_page", "order_by", "match_events"]))
    );
    assert_eq!(
        gateway.lookup("/abci_query").map(|r| r.params.clone()),
        Some(strings(&["path", "data", "height", "prove"]))
    );
    assert_eq!(gateway.lookup("/health").map(|r| r.params.clone()), Some(vec![]));
}

#[test]
fn add_proxy_route_sets_the_route_of_a_path() {
    let mut gateway = backend(vec![]);
    gateway.add_proxy_route("/evidence", "broadcast_evidence", make_params(vec!["evidence"]));
    assert_eq!(gateway.routes.len(), 30);
    assert_eq!(
        gateway.lookup("/evidence"),
        Some(&Tendermint34Route::new("broadcast_evidence".to_string(), strings(&["evidence"])))
    );
    gateway.add_proxy_route("/block", "block_by_hash", make_params(vec!["hash"]));
    assert_eq!(gateway.routes.len(), 30);
    assert_eq!(gateway.lookup("/block").map(|r| r.method.clone()), Some("block_by_hash".to_string()));
}

#[test]
fn layer_of_a_path_without_route_is_refused() {
    let gateway = backend(vec![]);
    assert_eq!(
        gateway.route_proxy_layer("/nothing"),
        Err(RpcError::Custom("route not found: /nothing".to_string()))
    );
    assert_eq!(
        gateway.route_proxy_layer("block"),
        Err(RpcError::Custom("route not found: block".to_string()))
    );
    let layer = gateway.route_proxy_layer("/block").expect("the path has a route");
    assert_eq!(layer.route, Some(("/block".to_string(), "block".to_string())));
}

#[test]
fn layer_of_a_route_under_a_path_without_slash_is_refused() {
    let mut gateway = backend(vec![]);
    gateway.add_proxy_route("evidence", "broadcast_evidence", make_params(vec!["evidence"]));
    assert_eq!(
        gateway.route_proxy_layer("evidence"),
        Err(RpcError::Custom("ProxyGetRequestParamsLayer path must start with `/`".to_string()))
    );
}

#[test]
fn one_layer_is_installed_for_every_method() {
    let gateway = backend(vec![]);
    let layers = gateway.proxy_layers().expect("every path has a route");
    assert_eq!(layers.len(), 29);
    for (layer, method) in layers.iter().zip(METHODS) {
        assert_eq!(layer.route, Some((format!("/{}", method), method.to_string())));
    }
}

#[test]
fn layers_fail_on_the_first_path_without_route() {
    let mut gateway = backend(vec![]);
    gateway.routes.retain(|r| r.0 != "/commit" && r.0 != "/tx");
    assert_eq!(
        gateway.proxy_layers(),
        Err(RpcError::Custom("route not found: /commit".to_string()))
    );
}

#[test]
fn blocked_comes_before_the_status() {
    let gateway = backend(vec!["status", "tx_search"]);
    let status = Tendermint34Route::new("status".to_string(), vec![]);
    let search = Tendermint34Route::new("tx_search".to_string(), vec![]);
    let block = Tendermint34Route::new("block".to_string(), strings(&["height"]));
    assert_eq!(status.register_method(&gateway), RouteBehavior::Blocked);
    assert_eq!(search.register_method(&gateway), RouteBehavior::Blocked);
    assert_eq!(block.register_method(&gateway), RouteBehavior::GenericProxy);
    let open = backend(vec![]);
    assert_eq!(status.register_method(&open), RouteBehavior::Status);
    assert_eq!(block.register_method(&open), RouteBehavior::GenericProxy);
}

#[test]
fn search_for_transactions_is_treated_as_blocked() {
    let open = backend(vec![]);
    let search = Tendermint34Route::new("tx_search".to_string(), vec![]);
    let blocks = Tendermint34Route::new("block_search".to_string(), vec![]);
    assert_eq!(search.register_method(&open), RouteBehavior::Blocked);
    assert_eq!(blocks.register_method(&open), RouteBehavior::GenericProxy);
    assert_eq!(
        open.dispatch("tx_search", Some(&object(vec![("query", text("tx.height=5"))]))),
        Err(RpcError::Custom("method not supported".to_string()))
    );
    assert_eq!(
        open.dispatch("tx_search", Some(&JsonValue::Array(vec![]))),
        Err(RpcError::Custom("method not supported".to_string()))
    );
}

#[test]
fn tendermint_registrations_name_every_route_once() {
    let gateway = backend(vec!["block_search"]);
    let list = gateway.registrations();
    assert_eq!(list.len(), 29);
    for (i, (method, behavior)) in list.iter().enumerate() {
        assert_eq!(method, &gateway.routes[i].1.method);
        let expected = match method.as_str() {
            "block_search" | "tx_search" => RouteBehavior::Blocked,
            "status" => RouteBehavior::Status,
            _ => RouteBehavior::GenericProxy,
        };
        assert_eq!(*behavior, expected, "{}", method);
    }
}

#[test]
fn tendermint_gateway_blocks_and_forwards() {
    let gateway = backend(vec!["commit"]);
    assert_eq!(
        gateway.dispatch("commit", Some(&object(vec![("height", text("5"))]))),
        Err(RpcError::Custom("method not supported".to_string()))
    );
    assert_eq!(
        gateway.dispatch("block_search", Some(&object(vec![("query", text("block.height=5")), ("page", text("2"))]))),
        Ok(UpstreamCall {
            method: "block_search".to_string(),
            params: vec![
                text("block.height=5"),
                text("2"),
                JsonValue::Null,
                JsonValue::Null,
                JsonValue::Null
            ],
        })
    );
    assert_eq!(
        gateway.dispatch("status", Some(&JsonValue::Null)),
        Ok(UpstreamCall { method: "status".to_string(), params: vec![] })
    );
    assert_eq!(
        gateway.dispatch("nothing", Some(&JsonValue::Array(vec![]))),
        Err(RpcError::MethodNotFound("nothing".to_string()))
    );
}

#[test]
fn tendermint_proxy_forwards_by_the_route_of_the_path() {
    let gateway = backend(vec!["block"]);
    assert_eq!(
        gateway.proxy_call("block", Some(&JsonValue::Array(vec![text("5")]))),
        Ok(UpstreamCall { method: "block".to_string(), params: vec![text("5")] })
    );
    assert_eq!(
        gateway.proxy_call("block", Some(&JsonValue::Array(vec![text("5"), text("6")]))),
        Err(RpcError::InvalidParams(InvalidParams::WrongLength {
            expected: strings(&["height"]),
            got: 2
        }))
    );
    let search = vec![
        text("q"),
        JsonValue::Bool(true),
        text("1"),
        text("30"),
        text("asc"),
        JsonValue::Null,
    ];
    assert_eq!(
        gateway.proxy_call("tx_search", Some(&JsonValue::Array(search.iter().map(|v| v.duplicate()).collect()))),
        Ok(UpstreamCall { method: "tx_search".to_string(), params: search })
    );
    assert_eq!(
        gateway.proxy_call(
            "tx_search",
            Some(&JsonValue::Array(vec![text("q"), text("1"), text("30"), text("asc"), JsonValue::Null]))
        ),
        Err(RpcError::InvalidParams(InvalidParams::WrongLength {
            expected: strings(&["query", "prove", "page", "per_page", "order_by", "match_events"]),
            got: 5
        }))
    );
    assert_eq!(
        gateway.proxy_call("/block", Some(&JsonValue::Array(vec![text("5")]))),
        Err(RpcError::MethodNotFound("/block".to_string()))
    );
}

#[test]
fn tendermint_call_without_parameters_is_forwarded_without_arguments() {
    let gateway = backend(vec!["commit"]);
    assert_eq!(
        gateway.dispatch("block", None),
        Ok(UpstreamCall { method: "block".to_string(), params: vec![] })
    );
    assert_eq!(
        gateway.proxy_call("health", None),
        Ok(UpstreamCall { method: "health".to_string(), params: vec![] })
    );
    assert_eq!(
        gateway.dispatch("commit", None),
        Err(RpcError::Custom("method not supported".to_string()))
    );
    assert_eq!(
        gateway.dispatch("tx_search", None),
        Err(RpcError::Custom("method not supported".to_string()))
    );
}
