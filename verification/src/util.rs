//! The skeleton of a model: which keypoints the engine joins by an edge.

use vstd::prelude::*;
use crate::model::Model;
use crate::pose_detector::{Call, Outcome};
use crate::value::{list_view, DynValue, Number, Value};

verus! {

/// Why the pairs of a model could not be had.
#[derive(Debug)]
pub enum QueryError {
    /// The engine has no method that gives the pairs.
    MethodMissing,
    /// The engine raised the error that is given.
    InvocationFailed(wasm_bindgen::JsValue),
    /// What the engine returned is no list.
    NotAList,
    /// The element at the place that is given is no pair of indices.
    NotAPair(usize),
}

/// The call that asks the engine for the adjacent keypoints of a model. No
/// detector is needed for it.
pub fn get_adjacent_pairs(model: Model) -> (call: Call)
    ensures
        call.is("getAdjacentPairs"@, seq![model.spec_config()]),
{
    let mut args: Vec<DynValue> = Vec::new();
    args.push(model.get_config());
    assert(list_view(args@) =~= seq![model.spec_config()]);
    Call { method: "getAdjacentPairs", args }
}

/// The index that a value stands for: a whole number that fits 32 bits
/// without a sign.
pub open spec fn index_of(v: Value) -> Option<u32> {
    match v {
        Value::Num(Number::Int(n)) => if 0 <= n <= u32::MAX {
            Some(n as u32)
        } else {
            None
        },
        _ => None,
    }
}

/// The pair that a value stands for: a list of exactly two indices.
pub open spec fn pair_of(v: Value) -> Option<(u32, u32)> {
    match v {
        Value::List(items) => if items.len() == 2 && index_of(items[0]) is Some && index_of(
            items[1],
        ) is Some {
            Some((index_of(items[0])->0, index_of(items[1])->0))
        } else {
            None
        },
        _ => None,
    }
}

/// The pairs that a list of values stands for, or the place of the first
/// value that is no pair.
pub open spec fn pairs_of(items: Seq<Value>) -> Result<Seq<(u32, u32)>, int>
    decreases items.len(),
{
    if items.len() == 0 {
        Ok(Seq::empty())
    } else {
        match pairs_of(items.drop_last()) {
            Err(i) => Err(i),
            Ok(ps) => match pair_of(items.last()) {
                None => Err(items.len() - 1),
                Some(p) => Ok(ps.push(p)),
            },
        }
    }
}

/// A failure among the first elements is the failure of the whole list.
pub proof fn lemma_pairs_prefix_err(items: Seq<Value>, n: int)
    requires
        0 <= n <= items.len(),
        pairs_of(items.take(n)) is Err,
    ensures
        pairs_of(items) == pairs_of(items.take(n)),
    decreases items.len() - n,
{
    if n < items.len() {
        assert(items.take(n + 1).drop_last() =~= items.take(n));
        lemma_pairs_prefix_err(items, n + 1);
    } else {
        assert(items.take(n) =~= items);
    }
}

/// What the query gives for each way its call can end.
pub open spec fn queried(outcome: Outcome) -> Result<Seq<(u32, u32)>, QueryError> {
    match outcome {
        Outcome::MethodMissing => Err(QueryError::MethodMissing),
        Outcome::Threw(cause) => Err(QueryError::InvocationFailed(cause)),
        Outcome::Returned(DynValue::List(raw)) => match pairs_of(list_view(raw@)) {
            Ok(ps) => Ok(ps),
            Err(i) => Err(QueryError::NotAPair(i as usize)),
        },
        Outcome::Returned(_) => Err(QueryError::NotAList),
    }
}

fn decode_index(v: &DynValue) -> (o: Option<u32>)
    ensures
        o == index_of(v@),
{
    match v {
        DynValue::Num(Number::Int(n)) => {
            if 0 <= *n && *n <= 0xFFFF_FFFF {
                Some(*n as u32)
            } else {
                None
            }
        },
        _ => None,
    }
}

fn decode_pair(v: &DynValue) -> (o: Option<(u32, u32)>)
    ensures
        o == pair_of(v@),
{
    match v {
        DynValue::List(items) => {
            if items.len() != 2 {
                return None;
            }
            assert(list_view(items@)[0] == items@[0]@);
            assert(list_view(items@)[1] == items@[1]@);
            match (decode_index(&items[0]), decode_index(&items[1])) {
                (Some(a), Some(b)) => Some((a, b)),
                _ => None,
            }
        },
        _ => None,
    }
}

/// The adjacent pairs of a query whose call has ended, or why there are
/// none.
pub fn adjacent_pairs_result(outcome: Outcome) -> (r: Result<Vec<(u32, u32)>, QueryError>)
    ensures
        match r {
            Ok(ps) => queried(outcome) == Ok::<Seq<(u32, u32)>, QueryError>(ps@),
            Err(e) => queried(outcome) == Err::<Seq<(u32, u32)>, QueryError>(e),
        },
{
    match outcome {
        Outcome::MethodMissing => Err(QueryError::MethodMissing),
        Outcome::Threw(cause) => Err(QueryError::InvocationFailed(cause)),
        Outcome::Returned(DynValue::List(raw)) => {
            let ghost all = list_view(raw@);
            let mut out: Vec<(u32, u32)> = Vec::new();
            let mut i: usize = 0;
            assert(all.take(0) =~= Seq::empty());
            while i < raw.len()
                invariant
                    i <= raw.len(),
                    all == list_view(raw@),
                    outcome == Outcome::Returned(DynValue::List(raw)),
                    pairs_of(all.take(i as int)) == Ok::<Seq<(u32, u32)>, int>(out@),
                decreases raw.len() - i,
            {
                proof {
                    assert(all.take(i + 1).drop_last() =~= all.take(i as int));
                    assert(all.take(i + 1).last() == raw@[i as int]@);
                }
                match decode_pair(&raw[i]) {
                    Some(p) => {
                        out.push(p);
                    },
                    None => {
                        proof {
                            lemma_pairs_prefix_err(all, i + 1);
                        }
                        return Err(QueryError::NotAPair(i));
                    },
                }
                i += 1;
            }
            assert(all.take(i as int) =~= all);
            Ok(out)
        },
        Outcome::Returned(_) => Err(QueryError::NotAList),
    }
}

} // verus!
