use rpc_gateway::page::{render, root_page, root_page_for, write_endpoint, write_example_query};

const PAGE: &str = r#"<html><body><br>Available endpoints:<br><br>Endpoints that require arguments:<br><a href="{base_url}/abci_info?">{base_url}/abci_info?</a></br><a href="{base_url}/abci_query?path=_&data=_&height=_&prove=_">{base_url}/abci_query?path=_&data=_&height=_&prove=_</a></br><a href="{base_url}/block?height=_">{base_url}/block?height=_</a></br><a href="{base_url}/block_by_hash?hash=_">{base_url}/block_by_hash?hash=_</a></br><a href="{base_url}/block_results?height=_">{base_url}/block_results?height=_</a></br><a href="{base_url}/block_search?query=_&page=_&per_page=_&order_by=_&match_events=_">{base_url}/block_search?query=_&page=_&per_page=_&order_by=_&match_events=_</a></br><a href="{base_url}/blockchain?minHeight=_&maxHeight=_">{base_url}/blockchain?minHeight=_&maxHeight=_</a></br><a href="{base_url}/broadcast_evidence?evidence=_">{base_url}/broadcast_evidence?evidence=_</a></br><a href="{base_url}/broadcast_tx_async?tx=_">{base_url}/broadcast_tx_async?tx=_</a></br><a href="{base_url}/broadcast_tx_commit?tx=_">{base_url}/broadcast_tx_commit?tx=_</a></br><a href="{base_url}/broadcast_tx_sync?tx=_">{base_url}/broadcast_tx_sync?tx=_</a></br><a href="{base_url}/check_tx?tx=_">{base_url}/check_tx?tx=_</a></br><a href="{base_url}/commit?height=_">{base_url}/commit?height=_</a></br><a href="{base_url}/consensus_params?height=_">{base_url}/consensus_params?height=_</a></br><a href="{base_url}/consensus_state?">{base_url}/consensus_state?</a></br><a href="{base_url}/dump_consensus_state?">{base_url}/dump_consensus_state?</a></br><a href="{base_url}/genesis?">{base_url}/genesis?</a></br><a href="{base_url}/genesis_chunked?chunk=_">{base_url}/genesis_chunked?chunk=_</a></br><a href="{base_url}/health?">{base_url}/health?</a></br><a href="{base_url}/net_info?">{base_url}/net_info?</a></br><a href="{base_url}/num_unconfirmed_txs?">{base_url}/num_unconfirmed_txs?</a></br><a href="{base_url}/status?">{base_url}/status?</a></br><a href="{base_url}/subscribe?query=_">{base_url}/subscribe?query=_</a></br><a href="{base_url}/tx?hash=_&prove=_">{base_url}/tx?hash=_&prove=_</a></br><a href="{base_url}/tx_search?query=_&prove=_&page=_&per_page=_&order_by=_&match_events=_">{base_url}/tx_search?query=_&prove=_&page=_&per_page=_&order_by=_&match_events=_</a></br><a href="{base_url}/unconfirmed_txs?limit=_">{base_url}/unconfirmed_txs?limit=_</a></br><a href="{base_url}/unsubscribe?query=_">{base_url}/unsubscribe?query=_</a></br><a href="{base_url}/unsubscribe_all?">{base_url}/unsubscribe_all?</a></br><a href="{base_url}/validators?height=_&page=_&per_page=_">{base_url}/validators?height=_&page=_&per_page=_</a></br></body></html>"#;

fn page(base: &str) -> String {
    PAGE.replace("{base_url}", base)
}

fn strings(items: &[&str]) -> Vec<String> {
    items.iter().map(|s| s.to_string()).collect()
}

#[test]
fn index_page_lists_every_method_under_the_base() {
    assert_eq!(rpc_gateway::comet34::root_html("//example.org:8080"), page("//example.org:8080"));
    assert_eq!(rpc_gateway::comet34::root_html(""), page(""));
    assert_eq!(root_page("http://h"), page("http://h"));
}

#[test]
fn tendermint_index_page_is_the_same_page() {
    assert_eq!(rpc_gateway::tendermint34::root_html("//example.org"), page("//example.org"));
    assert_eq!(
        rpc_gateway::tendermint34::root_html_proxy_call(Some("example.org")),
        page("//example.org")
    );
}

#[test]
fn index_page_for_a_host_links_to_that_host() {
    assert_eq!(rpc_gateway::comet34::root_html_proxy_call(Some("node.example:26657")), page("//node.example:26657"));
    assert_eq!(root_page_for(Some("h")), page("//h"));
}

#[test]
fn index_page_without_host_links_to_nothing_but_the_slashes() {
    assert_eq!(rpc_gateway::comet34::root_html_proxy_call(None), page("//"));
    assert_eq!(rpc_gateway::comet34::root_html_proxy_call(Some("")), page("//"));
}

#[test]
fn page_of_no_routes_is_head_and_foot() {
    assert_eq!(
        render("//h", &Vec::new()),
        "<html><body><br>Available endpoints:<br><br>Endpoints that require arguments:<br></body></html>"
    );
}

#[test]
fn page_of_one_route_has_one_link() {
    let routes = vec![("tx".to_string(), strings(&["hash", "prove"]))];
    assert_eq!(
        render("//h", &routes),
        "<html><body><br>Available endpoints:<br><br>Endpoints that require arguments:<br><a href=\"//h/tx?hash=_&prove=_\">//h/tx?hash=_&prove=_</a></br></body></html>"
    );
}

#[test]
fn example_query_sets_every_parameter_to_an_underscore() {
    let mut out = "x".to_string();
    write_example_query(&mut out, &strings(&["a", "b", "c"]));
    assert_eq!(out, "xa=_&b=_&c=_");
    let mut out = "x".to_string();
    write_example_query(&mut out, &strings(&["a"]));
    assert_eq!(out, "xa=_");
    let mut out = "x".to_string();
    write_example_query(&mut out, &Vec::new());
    assert_eq!(out, "x");
}

#[test]
fn endpoint_is_base_method_and_example_query() {
    let mut out = String::new();
    write_endpoint(&mut out, "//h", "block", &strings(&["height"]));
    assert_eq!(out, "//h/block?height=_");
    write_endpoint(&mut out, "", "health", &Vec::new());
    assert_eq!(out, "//h/block?height=_/health?");
}
