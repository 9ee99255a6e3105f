//! The constrained transaction search: the only searches that reach the
//! upstream node are lookups of one transaction by its hash.

use crate::assoc::assoc;
use crate::error::{InvalidParams, InvalidParamsData, RpcError, RpcErrorData};
use crate::json::{find_member, lemma_array_view, lemma_object_view, JsonData, JsonValue};
use crate::text::{all_hex, chars_of, hex_digit, same_text, split, split_on, trim, trim_matches};
use crate::upstream::{plan_of, Plan, UpstreamCall, UpstreamCallData};
use vstd::prelude::*;

verus! {

/// The parameters of the upstream search, by name and in order.
pub open spec fn tx_search_names() -> Seq<Seq<char>> {
    seq!["query"@, "prove"@, "page"@, "per_page"@, "order_by"@, "match_events"@]
}

/// A transaction hash: 64 hexadecimal digits.
pub open spec fn is_tx_hash(s: Seq<char>) -> bool {
    s.len() == 64 && all_hex(s)
}

/// The index of the first item at or after `from` that is not `null`, or the
/// length of `items` when there is none.
pub open spec fn first_set(items: Seq<JsonData>, from: int) -> int
    decreases items.len() - from,
{
    if from >= items.len() {
        items.len() as int
    } else if !(items[from] is Null) {
        from
    } else {
        first_set(items, from + 1)
    }
}

/// The query of a keyed search, or why the search is refused. None of
/// `prove`, `per_page`, `order_by` and `match_events` may be present; `page`,
/// where present, must be the string `1`; `query` must be present.
pub open spec fn keyed_query(members: Seq<(Seq<char>, JsonData)>) -> Result<
    JsonData,
    InvalidParamsData,
> {
    if assoc(members, "prove"@) is Some || assoc(members, "per_page"@) is Some || assoc(
        members,
        "order_by"@,
    ) is Some || assoc(members, "match_events"@) is Some {
        Err(InvalidParamsData::UnsupportedParameters)
    } else if assoc(members, "page"@) is Some && assoc(members, "page"@) != Some(
        JsonData::String("1"@),
    ) {
        Err(InvalidParamsData::PaginationNotSupported)
    } else {
        match assoc(members, "query"@) {
            Some(q) => Ok(q),
            None => Err(InvalidParamsData::MissingQuery),
        }
    }
}

/// The query of a positional search, or why the search is refused. There
/// must be six items; those at the positions 2 to 5 must be `null`, and the
/// first of them that is not is the one the refusal names; the query is the
/// item at position 0.
pub open spec fn positional_query(items: Seq<JsonData>) -> Result<JsonData, InvalidParamsData> {
    if items.len() != 6 {
        Err(InvalidParamsData::WrongLength { expected: tx_search_names(), got: items.len() })
    } else if first_set(items, 2) < 6 {
        Err(InvalidParamsData::UnsupportedParameter(items[first_set(items, 2)]))
    } else {
        Ok(items[0])
    }
}

/// What is wrong with the query of a search, if anything. The query must be
/// a string that splits at `=` into exactly two parts: `tx.hash`, and a
/// transaction hash, which may stand in single quotes.
pub open spec fn query_fault(query: JsonData) -> Option<InvalidParamsData> {
    match query {
        JsonData::String(text) => {
            let parts = split_on(text, '=');
            if parts.len() != 2 {
                Some(InvalidParamsData::QueryNotKeyValue)
            } else if parts[0] != "tx.hash"@ {
                Some(InvalidParamsData::QueryKeyNotTxHash)
            } else if !is_tx_hash(trim(parts[1], '\'')) {
                Some(InvalidParamsData::InvalidTxHash)
            } else {
                None
            }
        },
        _ => Some(InvalidParamsData::QueryNotString),
    }
}

/// The query that the parameters of a search hold, or why the search is refused.
pub open spec fn search_query(params: JsonData) -> Result<JsonData, InvalidParamsData> {
    match params {
        JsonData::Object(members) => keyed_query(members),
        JsonData::Array(items) => positional_query(items),
        _ => Err(InvalidParamsData::ExpectedObjectOrArray(params)),
    }
}

/// The constrained search: what is forwarded when `tx_search` is called with
/// `params`. An accepted search is forwarded with the query as it was given
/// and `null` for each of the five parameters after it.
pub open spec fn tx_search_plan(params: JsonData) -> Plan {
    match search_query(params) {
        Err(e) => Err(RpcErrorData::InvalidParams(e)),
        Ok(query) => match query_fault(query) {
            Some(e) => Err(RpcErrorData::InvalidParams(e)),
            None => Ok(
                UpstreamCallData {
                    method: "tx_search"@,
                    params: seq![
                        query,
                        JsonData::Null,
                        JsonData::Null,
                        JsonData::Null,
                        JsonData::Null,
                        JsonData::Null,
                    ],
                },
            ),
        },
    }
}

/// The names of the parameters of the upstream search.
pub fn search_names() -> (names: Vec<String>)
    ensures
        names.deep_view() == tx_search_names(),
{
    let names = vec![
        "query".to_owned(),
        "prove".to_owned(),
        "page".to_owned(),
        "per_page".to_owned(),
        "order_by".to_owned(),
        "match_events".to_owned(),
    ];
    assert(names.deep_view() =~= tx_search_names());
    names
}

/// Tells whether `text` is a transaction hash.
pub fn tx_hash(text: &str) -> (r: bool)
    ensures
        r == is_tx_hash(text@),
{
    let chars = chars_of(text);
    if chars.len() != 64 {
        return false;
    }
    let mut i: usize = 0;
    while i < chars.len()
        invariant
            i <= chars.len(),
            chars@ == text@,
            forall|k: int| 0 <= k < i ==> crate::text::is_hex_digit(#[trigger] chars@[k]),
        decreases chars.len() - i,
    {
        if !hex_digit(chars[i]) {
            return false;
        }
        i += 1;
    }
    true
}

/// Checks the query of a search.
pub fn check_query(query: &JsonValue) -> (fault: Option<InvalidParams>)
    ensures
        match fault {
            Some(e) => query_fault(query@) == Some(e@),
            None => query_fault(query@) is None,
        },
{
    match query.as_str() {
        None => Some(InvalidParams::QueryNotString),
        Some(text) => {
            let parts = split(text, '=');
            if parts.len() != 2 {
                return Some(InvalidParams::QueryNotKeyValue);
            }
            assert(parts.deep_view()[0] == parts@[0]@);
            assert(parts.deep_view()[1] == parts@[1]@);
            if !same_text(parts[0].as_str(), "tx.hash") {
                return Some(InvalidParams::QueryKeyNotTxHash);
            }
            if !tx_hash(trim_matches(parts[1].as_str(), '\'')) {
                return Some(InvalidParams::InvalidTxHash);
            }
            None
        },
    }
}

/// Tells whether `value` is the string `text`.
pub fn is_text(value: &JsonValue, text: &str) -> (r: bool)
    ensures
        r == (value@ == JsonData::String(text@)),
{
    match value.as_str() {
        Some(s) => same_text(s, text),
        None => false,
    }
}

/// Takes the query out of the keyed parameters of a search.
pub fn query_of_members<'a>(members: &'a Vec<(String, JsonValue)>) -> (r: Result<
    &'a JsonValue,
    InvalidParams,
>)
    ensures
        match r {
            Ok(q) => keyed_query(members.deep_view()) == Ok::<JsonData, InvalidParamsData>(q@),
            Err(e) => keyed_query(members.deep_view()) == Err::<JsonData, InvalidParamsData>(e@),
        },
{
    if find_member(members, "prove").is_some() || find_member(members, "per_page").is_some()
        || find_member(members, "order_by").is_some() || find_member(
        members,
        "match_events",
    ).is_some() {
        return Err(InvalidParams::UnsupportedParameters);
    }
    match find_member(members, "page") {
        Some(page) => {
            if !is_text(page, "1") {
                return Err(InvalidParams::PaginationNotSupported);
            }
        },
        None => {},
    }
    match find_member(members, "query") {
        Some(q) => Ok(q),
        None => Err(InvalidParams::MissingQuery),
    }
}

/// Takes the query out of the positional parameters of a search.
pub fn query_of_items<'a>(items: &'a Vec<JsonValue>) -> (r: Result<&'a JsonValue, InvalidParams>)
    ensures
        match r {
            Ok(q) => positional_query(items.deep_view()) == Ok::<JsonData, InvalidParamsData>(q@),
            Err(e) => positional_query(items.deep_view()) == Err::<JsonData, InvalidParamsData>(
                e@,
            ),
        },
{
    if items.len() != 6 {
        return Err(InvalidParams::WrongLength { expected: search_names(), got: items.len() });
    }
    let ghost data = items.deep_view();
    let mut i: usize = 2;
    while i < 6
        invariant
            2 <= i <= 6,
            items.len() == 6,
            data == items.deep_view(),
            first_set(data, 2) == first_set(data, i as int),
        decreases 6 - i,
    {
        assert(data[i as int] == items@[i as int]@);
        if !items[i].is_null() {
            return Err(InvalidParams::UnsupportedParameter(items[i].duplicate()));
        }
        i += 1;
    }
    assert(data[0] == items@[0]@);
    Ok(&items[0])
}

/// The constrained search: decides what to forward when `tx_search` is
/// called with `params`.
pub fn constrained_search(params: &JsonValue) -> (outcome: Result<UpstreamCall, RpcError>)
    ensures
        plan_of(outcome) == tx_search_plan(params@),
{
    let found = match params {
        JsonValue::Object(members) => {
            proof {
                lemma_object_view(*members);
            }
            query_of_members(members)
        },
        JsonValue::Array(items) => {
            proof {
                lemma_array_view(*items);
            }
            query_of_items(items)
        },
        _ => Err(InvalidParams::ExpectedObjectOrArray(params.duplicate())),
    };
    match found {
        Err(e) => Err(RpcError::InvalidParams(e)),
        Ok(query) => match check_query(query) {
            Some(e) => Err(RpcError::InvalidParams(e)),
            None => {
                let args = vec![
                    query.duplicate(),
                    JsonValue::Null,
                    JsonValue::Null,
                    JsonValue::Null,
                    JsonValue::Null,
                    JsonValue::Null,
                ];
                let call = UpstreamCall { method: "tx_search".to_owned(), params: args };
                assert(call@.params =~= seq![
                    query@,
                    JsonData::Null,
                    JsonData::Null,
                    JsonData::Null,
                    JsonData::Null,
                    JsonData::Null,
                ]);
                Ok(call)
            },
        },
    }
}

} // verus!
