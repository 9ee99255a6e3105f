//! Calls to the upstream node, and the generic way from the parameters of an
//! incoming call to the arguments of the call that is forwarded.

use crate::assoc::assoc;
use crate::error::{InvalidParams, InvalidParamsData, RpcError, RpcErrorData};
use crate::json::{find_member, lemma_array_view, lemma_object_view, JsonData, JsonValue};
use vstd::prelude::*;

verus! {

/// A call to the upstream node, as a mathematical value.
pub struct UpstreamCallData {
    pub method: Seq<char>,
    pub params: Seq<JsonData>,
}

/// A call that is to be made to the upstream node: a method name and its
/// arguments by position.
#[derive(Debug, PartialEq, Eq)]
pub struct UpstreamCall {
    pub method: String,
    pub params: Vec<JsonValue>,
}

impl View for UpstreamCall {
    type V = UpstreamCallData;

    open spec fn view(&self) -> UpstreamCallData {
        UpstreamCallData { method: self.method@, params: self.params.deep_view() }
    }
}

/// What a handler of the gateway decides: the call to forward, or the error
/// to answer with.
pub type Plan = Result<UpstreamCallData, RpcErrorData>;

/// The decision that `outcome` holds.
pub open spec fn plan_of(outcome: Result<UpstreamCall, RpcError>) -> Plan {
    match outcome {
        Ok(call) => Ok(call@),
        Err(e) => Err(e@),
    }
}

/// The arguments by position that keyed parameters stand for: for each name
/// of `names`, in order, the member of that name, or `null` where it is
/// missing.
pub open spec fn positional(names: Seq<Seq<char>>, members: Seq<(Seq<char>, JsonData)>) -> Seq<
    JsonData,
> {
    Seq::new(
        names.len(),
        |i: int|
            match assoc(members, names[i]) {
                Some(v) => v,
                None => JsonData::Null,
            },
    )
}

/// The parameters that a call was given, as a mathematical value: `None`
/// where the call has no parameters at all.
pub open spec fn given(params: Option<&JsonValue>) -> Option<JsonData> {
    match params {
        Some(p) => Some(p@),
        None => None,
    }
}

/// The generic proxy: what is forwarded for `method`, whose parameters by
/// name are `names`, when it is called with `params`. A call without
/// parameters is forwarded without arguments; keyed parameters are brought
/// into the order of `names`, a missing one becoming `null`; positional
/// parameters are forwarded as they are when their number is that of
/// `names`, and refused otherwise; parameters of any other kind are refused.
pub open spec fn forward_plan(
    method: Seq<char>,
    names: Seq<Seq<char>>,
    params: Option<JsonData>,
) -> Plan {
    match params {
        None => Ok(UpstreamCallData { method, params: Seq::empty() }),
        Some(JsonData::Object(members)) => Ok(
            UpstreamCallData { method, params: positional(names, members) },
        ),
        Some(JsonData::Array(items)) => if items.len() == names.len() {
            Ok(UpstreamCallData { method, params: items })
        } else {
            Err(
                RpcErrorData::InvalidParams(
                    InvalidParamsData::WrongLength { expected: names, got: items.len() },
                ),
            )
        },
        Some(other) => Err(
            RpcErrorData::InvalidParams(InvalidParamsData::ExpectedObjectOrArray(other)),
        ),
    }
}

/// A copy of `names`.
pub fn copy_names(names: &Vec<String>) -> (copy: Vec<String>)
    ensures
        copy.deep_view() == names.deep_view(),
{
    let mut copy: Vec<String> = Vec::new();
    let mut i: usize = 0;
    while i < names.len()
        invariant
            i <= names.len(),
            copy.len() == i,
            forall|k: int| 0 <= k < i ==> copy@[k]@ == names@[k]@,
        decreases names.len() - i,
    {
        copy.push(names[i].clone());
        i += 1;
    }
    assert(copy.deep_view() =~= names.deep_view());
    copy
}

/// A copy of `items`.
pub fn copy_items(items: &Vec<JsonValue>) -> (copy: Vec<JsonValue>)
    ensures
        copy.deep_view() == items.deep_view(),
{
    let mut copy: Vec<JsonValue> = Vec::new();
    let mut i: usize = 0;
    while i < items.len()
        invariant
            i <= items.len(),
            copy.len() == i,
            forall|k: int| 0 <= k < i ==> copy@[k]@ == items@[k]@,
        decreases items.len() - i,
    {
        copy.push(items[i].duplicate());
        i += 1;
    }
    assert(copy.deep_view() =~= items.deep_view());
    copy
}

/// Projects keyed parameters onto the positions that `names` gives.
pub fn project(names: &Vec<String>, members: &Vec<(String, JsonValue)>) -> (args: Vec<JsonValue>)
    ensures
        args.deep_view() == positional(names.deep_view(), members.deep_view()),
{
    let mut args: Vec<JsonValue> = Vec::new();
    let mut i: usize = 0;
    while i < names.len()
        invariant
            i <= names.len(),
            args.len() == i,
            forall|k: int|
                0 <= k < i ==> args@[k]@ == positional(names.deep_view(), members.deep_view())[k],
        decreases names.len() - i,
    {
        let arg = match find_member(members, names[i].as_str()) {
            Some(v) => v.duplicate(),
            None => JsonValue::Null,
        };
        assert(names.deep_view()[i as int] == names@[i as int]@);
        args.push(arg);
        i += 1;
    }
    assert(args.deep_view() =~= positional(names.deep_view(), members.deep_view()));
    args
}

/// The generic proxy: decides what to forward for `method`, whose parameters
/// by name are `names`, when it is called with `params`, or without
/// parameters where `params` is `None`.
pub fn forward(method: &str, names: &Vec<String>, params: Option<&JsonValue>) -> (outcome: Result<
    UpstreamCall,
    RpcError,
>)
    ensures
        plan_of(outcome) == forward_plan(method@, names.deep_view(), given(params)),
{
    match params {
        None => {
            let call = UpstreamCall { method: method.to_owned(), params: Vec::new() };
            assert(call@.params =~= Seq::empty());
            Ok(call)
        },
        Some(JsonValue::Object(members)) => {
            proof {
                lemma_object_view(*members);
            }
            Ok(UpstreamCall { method: method.to_owned(), params: project(names, members) })
        },
        Some(JsonValue::Array(items)) => {
            proof {
                lemma_array_view(*items);
            }
            if items.len() == names.len() {
                Ok(UpstreamCall { method: method.to_owned(), params: copy_items(items) })
            } else {
                Err(
                    RpcError::InvalidParams(
                        InvalidParams::WrongLength {
                            expected: copy_names(names),
                            got: items.len(),
                        },
                    ),
                )
            }
        },
        Some(other) => Err(
            RpcError::InvalidParams(InvalidParams::ExpectedObjectOrArray(other.duplicate())),
        ),
    }
}

} // verus!
