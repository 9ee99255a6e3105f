//! The route table: for each method of the upstream node, the names of its
//! parameters in the order in which the node takes them.

use crate::assoc::distinct_keys;
use crate::text::{ascending, lemma_ascending_distinct, parts_at, precedes};
use vstd::prelude::*;

verus! {

/// A route table as a mathematical value: method names with the names of
/// their parameters.
pub type Routes = Seq<(Seq<char>, Seq<Seq<char>>)>;

/// The methods of the upstream node with their parameters.
pub open spec fn upstream_routes() -> Routes {
    seq![
        ("abci_info"@, seq![]),
        ("abci_query"@, seq!["path"@, "data"@, "height"@, "prove"@]),
        ("block"@, seq!["height"@]),
        ("block_by_hash"@, seq!["hash"@]),
        ("block_results"@, seq!["height"@]),
        ("block_search"@, seq!["query"@, "page"@, "per_page"@, "order_by"@, "match_events"@]),
        ("blockchain"@, seq!["minHeight"@, "maxHeight"@]),
        ("broadcast_evidence"@, seq!["evidence"@]),
        ("broadcast_tx_async"@, seq!["tx"@]),
        ("broadcast_tx_commit"@, seq!["tx"@]),
        ("broadcast_tx_sync"@, seq!["tx"@]),
        ("check_tx"@, seq!["tx"@]),
        ("commit"@, seq!["height"@]),
        ("consensus_params"@, seq!["height"@]),
        ("consensus_state"@, seq![]),
        ("dump_consensus_state"@, seq![]),
        ("genesis"@, seq![]),
        ("genesis_chunked"@, seq!["chunk"@]),
        ("health"@, seq![]),
        ("net_info"@, seq![]),
        ("num_unconfirmed_txs"@, seq![]),
        ("status"@, seq![]),
        ("subscribe"@, seq!["query"@]),
        ("tx"@, seq!["hash"@, "prove"@]),
        (
            "tx_search"@,
            seq!["query"@, "prove"@, "page"@, "per_page"@, "order_by"@, "match_events"@],
        ),
        ("unconfirmed_txs"@, seq!["limit"@]),
        ("unsubscribe"@, seq!["query"@]),
        ("unsubscribe_all"@, seq![]),
        ("validators"@, seq!["height"@, "page"@, "per_page"@]),
    ]
}

/// The names of the methods of `routes`, in their order.
pub open spec fn names_of(routes: Routes) -> Seq<Seq<char>> {
    Seq::new(routes.len(), |i: int| routes[i].0)
}

/// A route table whose names are in ascending order has no method twice.
pub proof fn lemma_ascending_routes_distinct(routes: Routes)
    requires
        ascending(names_of(routes)),
    ensures
        distinct_keys(routes),
{
    lemma_ascending_distinct(names_of(routes));
    assert forall|i: int, j: int| 0 <= i < j < routes.len() implies routes[i].0 != routes[j].0 by {
        assert(names_of(routes)[i] != names_of(routes)[j]);
    }
}

/// The names of the methods of the upstream node are in the order of the
/// dictionary.
pub proof fn lemma_upstream_names_ascending()
    ensures
        ascending(names_of(upstream_routes())),
{
    assert(precedes("abci_info"@, "abci_query"@)) by {
        reveal_strlit("abci_info");
        reveal_strlit("abci_query");
        assert(parts_at("abci_info"@, "abci_query"@, 5));
    }
    assert(precedes("abci_query"@, "block"@)) by {
        reveal_strlit("abci_query");
        reveal_strlit("block");
        assert(parts_at("abci_query"@, "block"@, 0));
    }
    assert(precedes("block"@, "block_by_hash"@)) by {
        reveal_strlit("block");
        reveal_strlit("block_by_hash");
        assert(parts_at("block"@, "block_by_hash"@, 5));
    }
    assert(precedes("block_by_hash"@, "block_results"@)) by {
        reveal_strlit("block_by_hash");
        reveal_strlit("block_results");
        assert(parts_at("block_by_hash"@, "block_results"@, 6));
    }
    assert(precedes("block_results"@, "block_search"@)) by {
        reveal_strlit("block_results");
        reveal_strlit("block_search");
        assert(parts_at("block_results"@, "block_search"@, 6));
    }
    assert(precedes("block_search"@, "blockchain"@)) by {
        reveal_strlit("block_search");
        reveal_strlit("blockchain");
        assert(parts_at("block_search"@, "blockchain"@, 5));
    }
    assert(precedes("blockchain"@, "broadcast_evidence"@)) by {
        reveal_strlit("blockchain");
        reveal_strlit("broadcast_evidence");
        assert(parts_at("blockchain"@, "broadcast_evidence"@, 1));
    }
    assert(precedes("broadcast_evidence"@, "broadcast_tx_async"@)) by {
        reveal_strlit("broadcast_evidence");
        reveal_strlit("broadcast_tx_async");
        assert(parts_at("broadcast_evidence"@, "broadcast_tx_async"@, 10));
    }
    assert(precedes("broadcast_tx_async"@, "broadcast_tx_commit"@)) by {
        reveal_strlit("broadcast_tx_async");
        reveal_strlit("broadcast_tx_commit");
        assert(parts_at("broadcast_tx_async"@, "broadcast_tx_commit"@, 13));
    }
    assert(precedes("broadcast_tx_commit"@, "broadcast_tx_sync"@)) by {
        reveal_strlit("broadcast_tx_commit");
        reveal_strlit("broadcast_tx_sync");
        assert(parts_at("broadcast_tx_commit"@, "broadcast_tx_sync"@, 13));
    }
    assert(precedes("broadcast_tx_sync"@, "check_tx"@)) by {
        reveal_strlit("broadcast_tx_sync");
        reveal_strlit("check_tx");
        assert(parts_at("broadcast_tx_sync"@, "check_tx"@, 0));
    }
    assert(precedes("check_tx"@, "commit"@)) by {
        reveal_strlit("check_tx");
        reveal_strlit("commit");
        assert(parts_at("check_tx"@, "commit"@, 1));
    }
    assert(precedes("commit"@, "consensus_params"@)) by {
        reveal_strlit("commit");
        reveal_strlit("consensus_params");
        assert(parts_at("commit"@, "consensus_params"@, 2));
    }
    assert(precedes("consensus_params"@, "consensus_state"@)) by {
        reveal_strlit("consensus_params");
        reveal_strlit("consensus_state");
        assert(parts_at("consensus_params"@, "consensus_state"@, 10));
    }
    assert(precedes("consensus_state"@, "dump_consensus_state"@)) by {
        reveal_strlit("consensus_state");
        reveal_strlit("dump_consensus_state");
        assert(parts_at("consensus_state"@, "dump_consensus_state"@, 0));
    }
    assert(precedes("dump_consensus_state"@, "genesis"@)) by {
        reveal_strlit("dump_consensus_state");
        reveal_strlit("genesis");
        assert(parts_at("dump_consensus_state"@, "genesis"@, 0));
    }
    assert(precedes("genesis"@, "genesis_chunked"@)) by {
        reveal_strlit("genesis");
        reveal_strlit("genesis_chunked");
        assert(parts_at("genesis"@, "genesis_chunked"@, 7));
    }
    assert(precedes("genesis_chunked"@, "health"@)) by {
        reveal_strlit("genesis_chunked");
        reveal_strlit("health");
        assert(parts_at("genesis_chunked"@, "health"@, 0));
    }
    assert(precedes("health"@, "net_info"@)) by {
        reveal_strlit("health");
        reveal_strlit("net_info");
        assert(parts_at("health"@, "net_info"@, 0));
    }
    assert(precedes("net_info"@, "num_unconfirmed_txs"@)) by {
        reveal_strlit("net_info");
        reveal_strlit("num_unconfirmed_txs");
        assert(parts_at("net_info"@, "num_unconfirmed_txs"@, 1));
    }
    assert(precedes("num_unconfirmed_txs"@, "status"@)) by {
        reveal_strlit("num_unconfirmed_txs");
        reveal_strlit("status");
        assert(parts_at("num_unconfirmed_txs"@, "status"@, 0));
    }
    assert(precedes("status"@, "subscribe"@)) by {
        reveal_strlit("status");
        reveal_strlit("subscribe");
        assert(parts_at("status"@, "subscribe"@, 1));
    }
    assert(precedes("subscribe"@, "tx"@)) by {
        reveal_strlit("subscribe");
        reveal_strlit("tx");
        assert(parts_at("subscribe"@, "tx"@, 0));
    }
    assert(precedes("tx"@, "tx_search"@)) by {
        reveal_strlit("tx");
        reveal_strlit("tx_search");
        assert(parts_at("tx"@, "tx_search"@, 2));
    }
    assert(precedes("tx_search"@, "unconfirmed_txs"@)) by {
        reveal_strlit("tx_search");
        reveal_strlit("unconfirmed_txs");
        assert(parts_at("tx_search"@, "unconfirmed_txs"@, 0));
    }
    assert(precedes("unconfirmed_txs"@, "unsubscribe"@)) by {
        reveal_strlit("unconfirmed_txs");
        reveal_strlit("unsubscribe");
        assert(parts_at("unconfirmed_txs"@, "unsubscribe"@, 2));
    }
    assert(precedes("unsubscribe"@, "unsubscribe_all"@)) by {
        reveal_strlit("unsubscribe");
        reveal_strlit("unsubscribe_all");
        assert(parts_at("unsubscribe"@, "unsubscribe_all"@, 11));
    }
    assert(precedes("unsubscribe_all"@, "validators"@)) by {
        reveal_strlit("unsubscribe_all");
        reveal_strlit("validators");
        assert(parts_at("unsubscribe_all"@, "validators"@, 0));
    }
    let names = names_of(upstream_routes());
    assert forall|i: int| 0 <= i < names.len() - 1 implies precedes(
        #[trigger] names[i],
        names[i + 1],
    ) by {
        if i == 0 {
            assert(names[0] == "abci_info"@ && names[1] == "abci_query"@);
        }
        if i == 1 {
            assert(names[1] == "abci_query"@ && names[2] == "block"@);
        }
        if i == 2 {
            assert(names[2] == "block"@ && names[3] == "block_by_hash"@);
        }
        if i == 3 {
            assert(names[3] == "block_by_hash"@ && names[4] == "block_results"@);
        }
        if i == 4 {
            assert(names[4] == "block_results"@ && names[5] == "block_search"@);
        }
        if i == 5 {
            assert(names[5] == "block_search"@ && names[6] == "blockchain"@);
        }
        if i == 6 {
            assert(names[6] == "blockchain"@ && names[7] == "broadcast_evidence"@);
        }
        if i == 7 {
            assert(names[7] == "broadcast_evidence"@ && names[8] == "broadcast_tx_async"@);
        }
        if i == 8 {
            assert(names[8] == "broadcast_tx_async"@ && names[9] == "broadcast_tx_commit"@);
        }
        if i == 9 {
            assert(names[9] == "broadcast_tx_commit"@ && names[10] == "broadcast_tx_sync"@);
        }
        if i == 10 {
            assert(names[10] == "broadcast_tx_sync"@ && names[11] == "check_tx"@);
        }
        if i == 11 {
            assert(names[11] == "check_tx"@ && names[12] == "commit"@);
        }
        if i == 12 {
            assert(names[12] == "commit"@ && names[13] == "consensus_params"@);
        }
        if i == 13 {
            assert(names[13] == "consensus_params"@ && names[14] == "consensus_state"@);
        }
        if i == 14 {
            assert(names[14] == "consensus_state"@ && names[15] == "dump_consensus_state"@);
        }
        if i == 15 {
            assert(names[15] == "dump_consensus_state"@ && names[16] == "genesis"@);
        }
        if i == 16 {
            assert(names[16] == "genesis"@ && names[17] == "genesis_chunked"@);
        }
        if i == 17 {
            assert(names[17] == "genesis_chunked"@ && names[18] == "health"@);
        }
        if i == 18 {
            assert(names[18] == "health"@ && names[19] == "net_info"@);
        }
        if i == 19 {
            assert(names[19] == "net_info"@ && names[20] == "num_unconfirmed_txs"@);
        }
        if i == 20 {
            assert(names[20] == "num_unconfirmed_txs"@ && names[21] == "status"@);
        }
        if i == 21 {
            assert(names[21] == "status"@ && names[22] == "subscribe"@);
        }
        if i == 22 {
            assert(names[22] == "subscribe"@ && names[23] == "tx"@);
        }
        if i == 23 {
            assert(names[23] == "tx"@ && names[24] == "tx_search"@);
        }
        if i == 24 {
            assert(names[24] == "tx_search"@ && names[25] == "unconfirmed_txs"@);
        }
        if i == 25 {
            assert(names[25] == "unconfirmed_txs"@ && names[26] == "unsubscribe"@);
        }
        if i == 26 {
            assert(names[26] == "unsubscribe"@ && names[27] == "unsubscribe_all"@);
        }
        if i == 27 {
            assert(names[27] == "unsubscribe_all"@ && names[28] == "validators"@);
        }
    }
}

/// No method occurs twice among the methods of the upstream node.
pub proof fn lemma_upstream_routes_distinct()
    ensures
        distinct_keys(upstream_routes()),
{
    lemma_upstream_names_ascending();
    lemma_ascending_routes_distinct(upstream_routes());
}

/// Owned copies of `params`.
pub fn owned_names(params: Vec<&str>) -> (names: Vec<String>)
    ensures
        names.deep_view() == params.deep_view(),
{
    let mut names: Vec<String> = Vec::new();
    let mut i: usize = 0;
    while i < params.len()
        invariant
            i <= params.len(),
            names.len() == i,
            forall|k: int| 0 <= k < i ==> names@[k]@ == params@[k]@,
        decreases params.len() - i,
    {
        names.push(params[i].to_owned());
        i += 1;
    }
    assert(names.deep_view() =~= params.deep_view());
    names
}

/// One entry of a route table.
pub fn route(method: &str, params: Vec<&str>) -> (entry: (String, Vec<String>))
    ensures
        entry.deep_view() == (method@, params.deep_view()),
{
    (method.to_owned(), owned_names(params))
}

/// The methods of the upstream node with their parameters.
pub fn upstream_route_list() -> (list: Vec<(String, Vec<String>)>)
    ensures
        list.deep_view() == upstream_routes(),
{
    let mut list: Vec<(String, Vec<String>)> = Vec::new();
    list.push(route("abci_info", vec![]));
    list.push(route("abci_query", vec!["path", "data", "height", "prove"]));
    list.push(route("block", vec!["height"]));
    list.push(route("block_by_hash", vec!["hash"]));
    list.push(route("block_results", vec!["height"]));
    list.push(route("block_search", vec!["query", "page", "per_page", "order_by", "match_events"]));
    list.push(route("blockchain", vec!["minHeight", "maxHeight"]));
    list.push(route("broadcast_evidence", vec!["evidence"]));
    list.push(route("broadcast_tx_async", vec!["tx"]));
    list.push(route("broadcast_tx_commit", vec!["tx"]));
    list.push(route("broadcast_tx_sync", vec!["tx"]));
    list.push(route("check_tx", vec!["tx"]));
    list.push(route("commit", vec!["height"]));
    list.push(route("consensus_params", vec!["height"]));
    list.push(route("consensus_state", vec![]));
    list.push(route("dump_consensus_state", vec![]));
    list.push(route("genesis", vec![]));
    list.push(route("genesis_chunked", vec!["chunk"]));
    list.push(route("health", vec![]));
    list.push(route("net_info", vec![]));
    list.push(route("num_unconfirmed_txs", vec![]));
    list.push(route("status", vec![]));
    list.push(route("subscribe", vec!["query"]));
    list.push(route("tx", vec!["hash", "prove"]));
    list.push(
        route("tx_search", vec!["query", "prove", "page", "per_page", "order_by", "match_events"]),
    );
    list.push(route("unconfirmed_txs", vec!["limit"]));
    list.push(route("unsubscribe", vec!["query"]));
    list.push(route("unsubscribe_all", vec![]));
    list.push(route("validators", vec!["height", "page", "per_page"]));
    assert(list.deep_view() =~~= upstream_routes());
    list
}

} // verus!
