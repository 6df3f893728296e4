//! Attributes of a resource as the detail pane shows them: a key and a
//! value, with a fallback for what the backend left out.

use vstd::prelude::*;
use vstd::string::*;
use crate::text::{concat, signed_decimal, signed_decimal_string};

verus! {

/// The text of `value`, or `fallback` where there is none.
pub open spec fn or_text(value: Option<String>, fallback: Seq<char>) -> Seq<char> {
    match value {
        Some(text) => text@,
        None => fallback,
    }
}

/// The number `value` followed by `unit`, or `fallback` where there is none.
pub open spec fn or_amount(value: Option<i32>, unit: Seq<char>, fallback: Seq<char>) -> Seq<char> {
    match value {
        Some(n) => signed_decimal(n as int) + unit,
        None => fallback,
    }
}

/// The text of `value`, or `fallback`.
pub fn text_or(value: &Option<String>, fallback: &str) -> (text: String)
    ensures
        text@ == or_text(*value, fallback@),
{
    match value {
        Some(v) => v.clone(),
        None => String::from_str(fallback),
    }
}

/// The attribute `key` with the text of `value`, or with `fallback`.
pub fn attribute(key: &str, value: &Option<String>, fallback: &str) -> (pair: (String, String))
    ensures
        pair.0@ == key@,
        pair.1@ == or_text(*value, fallback@),
{
    (String::from_str(key), text_or(value, fallback))
}

/// The attribute `key` with the number `value` and its unit, or with
/// `fallback`.
pub fn amount(key: &str, value: Option<i32>, unit: &str, fallback: &str) -> (pair: (
    String,
    String,
))
    ensures
        pair.0@ == key@,
        pair.1@ == or_amount(value, unit@, fallback@),
{
    let text = match value {
        Some(n) => concat(signed_decimal_string(n as i64).as_str(), unit),
        None => String::from_str(fallback),
    };
    (String::from_str(key), text)
}

/// Appends the attributes of `part` to `details`.
pub fn extend(details: &mut Vec<(String, String)>, part: Vec<(String, String)>)
    ensures
        final(details).deep_view() == old(details).deep_view() + part.deep_view(),
{
    let mut part = part;
    let ghost added = part.deep_view();
    let ghost given = part@;
    details.append(&mut part);
    proof {
        let target = old(details).deep_view() + added;
        assert(details.deep_view().len() == target.len());
        assert forall|j: int| 0 <= j < target.len() implies details.deep_view()[j] == target[j] by {
            if j < old(details).len() {
                assert(details@[j] == old(details)@[j]);
            } else {
                assert(details@[j] == given[j - old(details).len()]);
            }
        }
        assert(details.deep_view() =~= target);
    }
}

/// The attribute `key` with `value`.
pub fn pair(key: &str, value: &str) -> (p: (String, String))
    ensures
        p.0@ == key@,
        p.1@ == value@,
{
    (String::from_str(key), String::from_str(value))
}

} // verus!
