use rpc_gateway::comet34::Comet34Backend;
use rpc_gateway::comet34::Comet34ValidatorInfo;
use rpc_gateway::error::RpcError;
use rpc_gateway::json::JsonValue;
use rpc_gateway::proxy::{
    params_of_pairs, ProxyGetRequestCustom, ProxyGetRequestCustomLayer, ProxyGetRequestParams,
    ProxyGetRequestParamsLayer, RewrittenRequest, StaticResponse,
};

fn text(s: &str) -> JsonValue {
    JsonValue::String(s.to_string())
}

fn object(members: Vec<(&str, JsonValue)>) -> JsonValue {
    JsonValue::Object(members.into_iter().map(|(k, v)| (k.to_string(), v)).collect())
}

fn pairs(items: &[(&str, &str)]) -> Vec<(String, String)> {
    items.iter().map(|(k, v)| (k.to_string(), v.to_string())).collect()
}

fn rewritten(path: &str, query: Option<&str>) -> RewrittenRequest {
    ProxyGetRequestParams::new(())
        .call(true, path, query)
        .expect("the request is rewritten")
}

fn backend(blocked: &[&str]) -> Comet34Backend {
    let blocked: Vec<String> = blocked.iter().map(|s| s.to_string()).collect();
    let identity = Comet34ValidatorInfo::from_random("A".repeat(40), &[0u8; 32]);
    Comet34Backend::new("http://localhost:26657", "127.0.0.1:8080", &blocked, 1, 2, 3, 4, 5, identity)
}

#[test]
fn get_request_becomes_a_json_rpc_call() {
    let request = rewritten("/block", Some("height=5"));
    assert_eq!(request.method, "POST");
    assert_eq!(request.uri, "/");
    assert_eq!(request.content_type, "application/json");
    assert_eq!(request.accept, "application/json");
    assert_eq!(request.rpc_method, "block");
    assert_eq!(request.params, object(vec![("height", text("5"))]));
    assert_eq!(
        request.body,
        "{\"jsonrpc\":\"2.0\",\"id\":0,\"method\":\"block\",\"params\":{\"height\":\"5\"}}"
    );
}

#[test]
fn body_is_the_call_that_the_fields_describe() {
    let request = rewritten("/abci_query", Some("path=%2Fstore&data=0x01&prove=false"));
    let body: serde_json::Value = serde_json::from_str(&request.body).expect("the body is JSON");
    assert_eq!(body["jsonrpc"], serde_json::Value::String("2.0".to_string()));
    assert_eq!(body["id"], serde_json::Value::from(0u64));
    assert_eq!(body["method"], serde_json::Value::String("abci_query".to_string()));
    let params = body["params"].as_object().expect("the parameters are an object");
    assert_eq!(params.len(), 3);
    assert_eq!(params["path"], serde_json::Value::String("/store".to_string()));
    assert_eq!(params["data"], serde_json::Value::String("0x01".to_string()));
    assert_eq!(params["prove"], serde_json::Value::String("false".to_string()));
    assert_eq!(
        request.params,
        object(vec![("path", text("/store")), ("data", text("0x01")), ("prove", text("false"))])
    );
}

#[test]
fn request_without_query_has_no_parameters() {
    let request = rewritten("/health", None);
    assert_eq!(request.rpc_method, "health");
    assert_eq!(request.params, object(vec![]));
    assert_eq!(
        request.body,
        "{\"jsonrpc\":\"2.0\",\"id\":0,\"method\":\"health\",\"params\":{}}"
    );
    assert_eq!(rewritten("/health", Some("")).body, request.body);
}

#[test]
fn query_is_decoded_and_freed_of_double_quotes() {
    let request = rewritten("/tx_search", Some("query=%22tx.hash%3D%27AB%27%22&page=\"1\"&note=a+b"));
    assert_eq!(
        request.params,
        object(vec![("query", text("tx.hash='AB'")), ("page", text("1")), ("note", text("a b"))])
    );
}

#[test]
fn last_of_the_pairs_with_one_name_counts() {
    let request = rewritten("/block", Some("height=1&x=2&height=3"));
    assert_eq!(request.params, object(vec![("x", text("2")), ("height", text("3"))]));
    let body: serde_json::Value = serde_json::from_str(&request.body).expect("the body is JSON");
    assert_eq!(body["params"]["height"], serde_json::Value::String("3".to_string()));
    assert_eq!(body["params"].as_object().map(|o| o.len()), Some(2));
}

#[test]
fn params_of_pairs_keeps_the_last_value_of_each_name() {
    assert_eq!(
        params_of_pairs(&pairs(&[("a", "\"1\""), ("b", "2"), ("a", "3\""), ("c", "\"\"")])),
        pairs(&[("b", "2"), ("a", "3"), ("c", "")])
    );
    assert_eq!(params_of_pairs(&Vec::new()), Vec::new());
}

#[test]
fn method_is_the_path_without_leading_slashes() {
    assert_eq!(rewritten("//status", None).rpc_method, "status");
    assert_eq!(rewritten("/a/b", None).rpc_method, "a/b");
    assert_eq!(rewritten("/unknown_method", None).rpc_method, "unknown_method");
}

#[test]
fn root_path_is_never_rewritten() {
    let service = ProxyGetRequestParams::new(());
    assert_eq!(service.call(true, "/", None), None);
    assert_eq!(service.call(true, "/", Some("height=5")), None);
    assert_eq!(service.call(true, "/", Some("")), None);
}

#[test]
fn other_requests_than_get_are_never_rewritten() {
    let service = ProxyGetRequestParams::new(());
    assert_eq!(service.call(false, "/block", Some("height=5")), None);
    assert_eq!(service.call(false, "/", None), None);
}

#[test]
fn layer_hands_its_route_to_the_service() {
    let free = ProxyGetRequestParamsLayer::new();
    assert_eq!(free.route, None);
    assert_eq!(free.layer(7u8).inner, 7);
    assert_eq!(free.layer(7u8).route, None);
    let bound = ProxyGetRequestParamsLayer::for_route("/block".to_string(), "block".to_string())
        .expect("the path starts with a slash");
    let service = bound.layer(());
    assert_eq!(service.route, Some(("/block".to_string(), "block".to_string())));
    assert_eq!(bound.clone(), bound);
}

#[test]
fn bound_service_rewrites_its_own_path_only() {
    let bound = ProxyGetRequestParamsLayer::for_route("/b".to_string(), "block".to_string())
        .expect("the path starts with a slash");
    let service = bound.layer(());
    let request = service.call(true, "/b", Some("height=5")).expect("the request is rewritten");
    assert_eq!(request.rpc_method, "block");
    assert_eq!(request.params, object(vec![("height", text("5"))]));
    assert_eq!(service.call(true, "/block", Some("height=5")), None);
    assert_eq!(service.call(false, "/b", Some("height=5")), None);
}

#[test]
fn layer_for_a_path_without_slash_is_refused() {
    assert_eq!(
        ProxyGetRequestParamsLayer::for_route("block".to_string(), "block".to_string()),
        Err(RpcError::Custom("ProxyGetRequestParamsLayer path must start with `/`".to_string()))
    );
    assert_eq!(
        ProxyGetRequestParamsLayer::for_route(String::new(), "block".to_string()),
        Err(RpcError::Custom("ProxyGetRequestParamsLayer path must start with `/`".to_string()))
    );
}

#[test]
fn get_and_post_with_the_same_keyed_parameters_give_the_same_arguments() {
    let gateway = backend(&[]);
    let cases: Vec<(&str, &str, JsonValue)> = vec![
        ("/block", "height=5", object(vec![("height", text("5"))])),
        (
            "/abci_query",
            "prove=true&path=\"/a\"&unknown=1",
            object(vec![("unknown", text("1")), ("path", text("/a")), ("prove", text("true"))]),
        ),
        ("/validators", "page=2", object(vec![("page", text("1")), ("page", text("2"))])),
        ("/health", "", object(vec![])),
        ("/blockchain", "maxHeight=9&minHeight=1", object(vec![("minHeight", text("1")), ("maxHeight", text("9"))])),
    ];
    for (path, query, posted) in cases {
        let request = rewritten(path, Some(query));
        let by_get = gateway.dispatch(&request.rpc_method, Some(&request.params));
        let by_post = gateway.dispatch(&path[1..], Some(&posted));
        assert!(by_get.is_ok(), "{}", path);
        assert_eq!(by_get, by_post, "{}", path);
    }
    let request = rewritten("/abci_query", Some("prove=true&path=\"/a\"&unknown=1"));
    let call = gateway.dispatch(&request.rpc_method, Some(&request.params)).expect("the call is forwarded");
    assert_eq!(call.method, "abci_query");
    assert_eq!(call.params, vec![text("/a"), JsonValue::Null, JsonValue::Null, text("true")]);
}

#[test]
fn every_method_is_reached_alike_by_get_and_by_post() {
    let gateway = backend(&[]);
    for (method, names) in gateway.routes.iter() {
        if method == "tx_search" {
            continue;
        }
        let query: Vec<String> = names.iter().map(|n| format!("{}=v_{}", n, n)).collect();
        let posted = JsonValue::Object(
            names.iter().rev().map(|n| (n.clone(), text(&format!("v_{}", n)))).collect(),
        );
        let request = rewritten(&format!("/{}", method), Some(&query.join("&")));
        let by_get = gateway.dispatch(&request.rpc_method, Some(&request.params));
        let by_post = gateway.dispatch(method, Some(&posted));
        assert_eq!(by_get, by_post, "{}", method);
        if method != "status" {
            let call = by_get.expect("the call is forwarded");
            let expected: Vec<JsonValue> = names.iter().map(|n| text(&format!("v_{}", n))).collect();
            assert_eq!(call.params, expected, "{}", method);
        }
    }
}

#[test]
fn same_get_request_gives_the_same_call_each_time() {
    let gateway = backend(&["block_search"]);
    let service = ProxyGetRequestParams::new(());
    let first = service.call(true, "/tx", Some("hash=0xAB&prove=true")).expect("rewritten");
    let first_call = gateway.dispatch(&first.rpc_method, Some(&first.params));
    for _ in 0..5 {
        let again = service.call(true, "/tx", Some("hash=0xAB&prove=true")).expect("rewritten");
        assert_eq!(again, first);
        assert_eq!(gateway.dispatch(&again.rpc_method, Some(&again.params)), first_call);
    }
    assert_eq!(gateway, backend(&["block_search"]));
}

#[test]
fn custom_layer_wants_a_path_with_a_slash_in_front() {
    assert!(ProxyGetRequestCustomLayer::new("/").is_ok());
    assert!(ProxyGetRequestCustomLayer::new("/index").is_ok());
    assert_eq!(
        ProxyGetRequestCustomLayer::new("index"),
        Err(RpcError::Custom("ProxyGetRequestCustomLayer path must start with `/`".to_string()))
    );
    assert_eq!(
        ProxyGetRequestCustomLayer::new(""),
        Err(RpcError::Custom("ProxyGetRequestCustomLayer path must start with `/`".to_string()))
    );
}

#[test]
fn custom_service_wants_a_path_with_a_slash_in_front() {
    assert!(ProxyGetRequestCustom::new((), "/").is_ok());
    assert_eq!(
        ProxyGetRequestCustom::new((), "index"),
        Err(RpcError::Custom(
            "ProxyGetRequestCustom path must start with `/`, got: index".to_string()
        ))
    );
}

#[test]
fn root_path_gets_the_static_content_whatever_the_query() {
    let layer = ProxyGetRequestCustomLayer::new("/").expect("the path starts with a slash");
    let service = layer.layer(3u8);
    assert_eq!(*service.inner(), 3);
    let expected = StaticResponse {
        status: 200,
        content_type: "text/html".to_string(),
        body: "<html></html>".to_string(),
    };
    assert!(service.intercepts(true, "/"));
    assert_eq!(service.call(true, "/", "<html></html>".to_string()), Some(expected.clone()));
    assert_eq!(expected.clone(), expected);
    let rewriting = ProxyGetRequestParams::new(());
    for query in [None, Some(""), Some("a=b"), Some("height=5&x")] {
        assert_eq!(rewriting.call(true, "/", query), None);
        assert_eq!(service.call(true, "/", "<html></html>".to_string()), Some(expected.clone()));
    }
}

#[test]
fn custom_service_lets_other_requests_pass() {
    let service = ProxyGetRequestCustom::new((), "/").expect("the path starts with a slash");
    assert!(!service.intercepts(false, "/"));
    assert!(!service.intercepts(true, "/status"));
    assert_eq!(service.call(false, "/", "x".to_string()), None);
    assert_eq!(service.call(true, "/status", "x".to_string()), None);
    assert_eq!(service.call(true, "", "x".to_string()), None);
}

#[test]
fn get_request_for_an_unknown_method_is_not_found() {
    let gateway = backend(&[]);
    let request = rewritten("/unknown_method", Some("a=b"));
    assert_eq!(
        gateway.dispatch(&request.rpc_method, Some(&request.params)),
        Err(RpcError::MethodNotFound("unknown_method".to_string()))
    );
}

#[test]
fn get_request_for_a_blocked_method_is_never_forwarded() {
    let gateway = backend(&["block", "tx_search"]);
    for (path, query) in [("/block", "height=5"), ("/block", ""), ("/tx_search", "query=\"tx.hash='AB'\"")] {
        let request = rewritten(path, Some(query));
        assert_eq!(
            gateway.dispatch(&request.rpc_method, Some(&request.params)),
            Err(RpcError::Custom("method not supported".to_string())),
            "{}?{}",
            path,
            query
        );
    }
}

#[test]
fn get_request_for_the_status_asks_for_the_status() {
    let gateway = backend(&[]);
    let request = rewritten("/status", Some("x=1"));
    let call = gateway.dispatch(&request.rpc_method, Some(&request.params)).expect("the call is forwarded");
    assert_eq!(call.method, "status");
    assert_eq!(call.params, Vec::<JsonValue>::new());
}

#[test]
fn get_request_for_a_search_by_hash_is_forwarded() {
    let gateway = backend(&[]);
    let hash = "ab".repeat(32);
    let request = rewritten("/tx_search", Some(&format!("query=\"tx.hash='{}'\"", hash)));
    let call = gateway.dispatch(&request.rpc_method, Some(&request.params)).expect("the call is forwarded");
    assert_eq!(call.method, "tx_search");
    assert_eq!(
        call.params,
        vec![
            text(&format!("tx.hash='{}'", hash)),
            JsonValue::Null,
            JsonValue::Null,
            JsonValue::Null,
            JsonValue::Null,
            JsonValue::Null
        ]
    );
}

#[test]
fn positional_search_lets_a_proof_flag_pass_and_drops_it() {
    let gateway = backend(&[]);
    let query = format!("tx.hash={}", "0".repeat(64));
    let params = JsonValue::Array(vec![
        text(&query),
        JsonValue::Bool(true),
        JsonValue::Null,
        JsonValue::Null,
        JsonValue::Null,
        JsonValue::Null,
    ]);
    let call = gateway.dispatch("tx_search", Some(&params)).expect("the call is forwarded");
    assert_eq!(call.params[1], JsonValue::Null);
    assert_eq!(call.params[0], text(&query));
}
