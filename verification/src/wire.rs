//! Quantities as they stand in JSON documents.
//!
//! A probability is a number between zero and one, kept to the millionth. An
//! amount is a number from zero up, kept to the thousandth. Both are rounded
//! down; a number outside the range is a fault in the document.

use vstd::prelude::*;
use crate::json::{left_out, Json};
use crate::units::{Amount, Probability, MILLION};

verus! {

/// The probability that the member `key` of `j` states.
pub open spec fn probability_at(j: Json, key: Seq<char>) -> Option<Probability> {
    match j.fixed_at(key, 6, MILLION as nat) {
        Some(p) => Some(Probability { millionths: p as u32 }),
        None => None,
    }
}

/// The probability that the member `key` of `j` states, which may be left out.
pub open spec fn optional_probability_at(j: Json, key: Seq<char>) -> Option<Option<Probability>> {
    if left_out(j.member(key)) {
        Some(None)
    } else {
        match probability_at(j, key) {
            Some(p) => Some(Some(p)),
            None => None,
        }
    }
}

/// The amount that the member `key` of `j` states.
pub open spec fn amount_at(j: Json, key: Seq<char>) -> Option<Amount> {
    match j.fixed_at(key, 3, u64::MAX as nat) {
        Some(a) => Some(Amount { thousandths: a as u64 }),
        None => None,
    }
}

/// The amount that the member `key` of `j` states, which may be left out.
pub open spec fn optional_amount_at(j: Json, key: Seq<char>) -> Option<Option<Amount>> {
    if left_out(j.member(key)) {
        Some(None)
    } else {
        match amount_at(j, key) {
            Some(a) => Some(Some(a)),
            None => None,
        }
    }
}

/// Reads the probability that the member `key` of `j` states.
pub fn probability_member(j: &Json, key: &str) -> (r: Option<Probability>)
    ensures
        r == probability_at(*j, key@),
        r matches Some(p) ==> p.wf(),
{
    match j.fixed_member(key, 6, MILLION as u64) {
        Some(p) => Some(Probability { millionths: p as u32 }),
        None => None,
    }
}

/// Reads the probability that the member `key` of `j` states, which may be left
/// out.
pub fn optional_probability_member(j: &Json, key: &str) -> (r: Option<Option<Probability>>)
    ensures
        r == optional_probability_at(*j, key@),
        r matches Some(Some(p)) ==> p.wf(),
{
    if j.leaves_out(key) {
        Some(None)
    } else {
        match probability_member(j, key) {
            Some(p) => Some(Some(p)),
            None => None,
        }
    }
}

/// Reads the amount that the member `key` of `j` states.
pub fn amount_member(j: &Json, key: &str) -> (r: Option<Amount>)
    ensures
        r == amount_at(*j, key@),
{
    match j.fixed_member(key, 3, u64::MAX) {
        Some(a) => Some(Amount { thousandths: a }),
        None => None,
    }
}

/// Reads the amount that the member `key` of `j` states, which may be left out.
pub fn optional_amount_member(j: &Json, key: &str) -> (r: Option<Option<Amount>>)
    ensures
        r == optional_amount_at(*j, key@),
{
    if j.leaves_out(key) {
        Some(None)
    } else {
        match amount_member(j, key) {
            Some(a) => Some(Some(a)),
            None => None,
        }
    }
}

} // verus!
