//! JSON documents as trees of plain values.
//!
//! Text is turned into a tree by `serde_json`; everything that reads the tree
//! is verified here. A number keeps the decimal text that `serde_json` prints
//! for it, so that no precision is lost before the fixed-point readers of
//! `decimal` see it.

use vstd::prelude::*;
use crate::decimal::{fixed_point, parse_fixed, parse_whole, whole_number};
use crate::text::{chars_of, same_text};

verus! {

/// A JSON document.
#[derive(Debug)]
pub enum Json {
    Null,
    Bool(bool),
    /// A number, as the decimal numeral that stands for it.
    Number(String),
    Text(String),
    Array(Vec<Json>),
    /// The members of an object, each with its name.
    Object(Vec<(String, Json)>),
}

/// `serde_json::Value`, the tree that `serde_json` builds. It is only carried
/// from the parser to the conversion below; nothing is claimed of what it
/// holds.
#[verifier::external_type_specification]
#[verifier::external_body]
pub struct ExValue(serde_json::Value);

/// The tree that `serde_json` reads from `text`, or `None` where `text` is not
/// one JSON document.
pub uninterp spec fn json_of(text: Seq<char>) -> Option<Json>;

/// Moves a `serde_json::Value` into a `Json`, variant by variant. A number is
/// carried over as the text that `serde_json::Number` displays: the digits of an
/// integer, or the shortest decimal numeral that reads back as the same float.
#[verifier::external_body]
fn json_from_value(value: serde_json::Value) -> Json {
    match value {
        serde_json::Value::Null => Json::Null,
        serde_json::Value::Bool(b) => Json::Bool(b),
        serde_json::Value::Number(n) => Json::Number(n.to_string()),
        serde_json::Value::String(s) => Json::Text(s),
        serde_json::Value::Array(a) => Json::Array(a.into_iter().map(json_from_value).collect()),
        serde_json::Value::Object(m) => Json::Object(
            m.into_iter().map(|(k, v)| (k, json_from_value(v))).collect(),
        ),
    }
}

/// Calls `serde_json::from_str` to read `text` as one JSON document. The
/// outcome depends on `text` alone: the tree of the document, or `None` where
/// `serde_json` reports an error.
#[verifier::external_body]
fn read_json(text: &str) -> (r: Option<Json>)
    ensures
        r == json_of(text@),
{
    match serde_json::from_str::<serde_json::Value>(text) {
        Ok(value) => Some(json_from_value(value)),
        Err(_) => None,
    }
}

/// The first member named `key` among `members`.
pub open spec fn find_member(members: Seq<(String, Json)>, key: Seq<char>) -> Option<Json>
    decreases members.len(),
{
    if members.len() == 0 {
        None
    } else if members[0].0@ == key {
        Some(members[0].1)
    } else {
        find_member(members.skip(1), key)
    }
}

impl Json {
    /// Reads `text` as one JSON document.
    pub fn parse(text: &str) -> (r: Option<Json>)
        ensures
            r == json_of(text@),
    {
        read_json(text)
    }

    /// The member named `key`, where this is an object that has one.
    pub open spec fn member(self, key: Seq<char>) -> Option<Json> {
        match self {
            Json::Object(members) => find_member(members@, key),
            _ => None,
        }
    }

    /// The text of a string.
    pub open spec fn text(self) -> Option<Seq<char>> {
        match self {
            Json::Text(s) => Some(s@),
            _ => None,
        }
    }

    /// The numeral of a number.
    pub open spec fn numeral(self) -> Option<Seq<char>> {
        match self {
            Json::Number(s) => Some(s@),
            _ => None,
        }
    }

    /// The truth value of a boolean.
    pub open spec fn truth(self) -> Option<bool> {
        match self {
            Json::Bool(b) => Some(b),
            _ => None,
        }
    }

    /// The member named `key`, where this is an object that has one.
    pub fn get(&self, key: &str) -> (r: Option<&Json>)
        ensures
            match r {
                Some(j) => self.member(key@) == Some(*j),
                None => self.member(key@) is None,
            },
    {
        match self {
            Json::Object(members) => {
                let mut i: usize = 0;
                assert(members@.skip(0) == members@);
                while i < members.len()
                    invariant
                        i <= members.len(),
                        self.member(key@) == find_member(members@.skip(i as int), key@),
                    decreases members.len() - i,
                {
                    assert(members@.skip(i as int)[0] == members@[i as int]);
                    if same_text(members[i].0.as_str(), key) {
                        return Some(&members[i].1);
                    }
                    assert(members@.skip(i as int).skip(1) == members@.skip(i + 1));
                    i += 1;
                }
                None
            },
            _ => None,
        }
    }

    /// The truth value of a boolean.
    pub fn as_bool(&self) -> (r: Option<bool>)
        ensures
            r == self.truth(),
    {
        match self {
            Json::Bool(b) => Some(*b),
            _ => None,
        }
    }

    /// The value of a number that is written as a whole number.
    pub open spec fn whole(self) -> Option<u64> {
        match self {
            Json::Number(s) => whole_number(s@),
            _ => None,
        }
    }

    /// The value of a number that is written as a whole number.
    pub fn as_whole(&self) -> (r: Option<u64>)
        ensures
            r == self.whole(),
    {
        match self {
            Json::Number(s) => {
                let chars = chars_of(s.as_str());
                parse_whole(chars.as_slice())
            },
            _ => None,
        }
    }

    /// The value of a number in `10^-shift` parts, rounded down, where this is
    /// a number between zero and `limit` parts.
    pub open spec fn fixed(self, shift: nat, limit: nat) -> Option<nat> {
        match self {
            Json::Number(s) => fixed_point(s@, shift, limit),
            _ => None,
        }
    }

    /// The value of a number in `10^-shift` parts, rounded down, where this is
    /// a number between zero and `limit` parts.
    pub fn as_fixed(&self, shift: u8, limit: u64) -> (r: Option<u64>)
        ensures
            match self.fixed(shift as nat, limit as nat) {
                Some(p) => r == Some(p as u64) && p <= limit,
                None => r is None,
            },
    {
        match self {
            Json::Number(s) => {
                let chars = chars_of(s.as_str());
                parse_fixed(chars.as_slice(), shift, limit)
            },
            _ => None,
        }
    }
}

/// Whether a member is left out: an object may omit it or give it as null.
pub open spec fn left_out(member: Option<Json>) -> bool {
    member is None || member == Some(Json::Null)
}

impl Json {
    /// The text of the member `key`, which must be a string.
    pub open spec fn text_at(self, key: Seq<char>) -> Option<Seq<char>> {
        match self.member(key) {
            Some(j) => j.text(),
            None => None,
        }
    }

    /// The text of the member `key`, which may be left out and must else be a
    /// string. The outer `None` tells of a member of another kind.
    pub open spec fn optional_text_at(self, key: Seq<char>) -> Option<Option<Seq<char>>> {
        if left_out(self.member(key)) {
            Some(None)
        } else {
            match self.text_at(key) {
                Some(t) => Some(Some(t)),
                None => None,
            }
        }
    }

    /// The truth value of the member `key`, which must be a boolean.
    pub open spec fn truth_at(self, key: Seq<char>) -> Option<bool> {
        match self.member(key) {
            Some(j) => j.truth(),
            None => None,
        }
    }

    /// The value of the member `key`, which must be a whole number.
    pub open spec fn whole_at(self, key: Seq<char>) -> Option<u64> {
        match self.member(key) {
            Some(j) => j.whole(),
            None => None,
        }
    }

    /// The value of the member `key`, which may be left out and must else be a
    /// whole number.
    pub open spec fn optional_whole_at(self, key: Seq<char>) -> Option<Option<u64>> {
        if left_out(self.member(key)) {
            Some(None)
        } else {
            match self.whole_at(key) {
                Some(n) => Some(Some(n)),
                None => None,
            }
        }
    }

    /// The value of the member `key` in `10^-shift` parts, which must be a
    /// number between zero and `limit` parts.
    pub open spec fn fixed_at(self, key: Seq<char>, shift: nat, limit: nat) -> Option<nat> {
        match self.member(key) {
            Some(j) => j.fixed(shift, limit),
            None => None,
        }
    }

    /// The value of the member `key` in `10^-shift` parts, which may be left out
    /// and must else be a number between zero and `limit` parts.
    pub open spec fn optional_fixed_at(self, key: Seq<char>, shift: nat, limit: nat) -> Option<
        Option<nat>,
    > {
        if left_out(self.member(key)) {
            Some(None)
        } else {
            match self.fixed_at(key, shift, limit) {
                Some(n) => Some(Some(n)),
                None => None,
            }
        }
    }

    /// Whether the member `key` is left out.
    pub fn leaves_out(&self, key: &str) -> (r: bool)
        ensures
            r == left_out(self.member(key@)),
    {
        match self.get(key) {
            None => true,
            Some(Json::Null) => true,
            Some(_) => false,
        }
    }

    /// A copy of the text of the member `key`, which must be a string.
    pub fn text_member(&self, key: &str) -> (r: Option<String>)
        ensures
            match r {
                Some(s) => self.text_at(key@) == Some(s@),
                None => self.text_at(key@) is None,
            },
    {
        match self.get(key) {
            Some(Json::Text(s)) => Some(s.clone()),
            _ => None,
        }
    }

    /// A copy of the text of the member `key`, which may be left out.
    pub fn optional_text_member(&self, key: &str) -> (r: Option<Option<String>>)
        ensures
            match r {
                Some(Some(s)) => self.optional_text_at(key@) == Some(Some(s@)),
                Some(None) => self.optional_text_at(key@) == Some(None::<Seq<char>>),
                None => self.optional_text_at(key@) is None,
            },
    {
        if self.leaves_out(key) {
            Some(None)
        } else {
            match self.text_member(key) {
                Some(s) => Some(Some(s)),
                None => None,
            }
        }
    }

    /// The truth value of the member `key`, which must be a boolean.
    pub fn truth_member(&self, key: &str) -> (r: Option<bool>)
        ensures
            r == self.truth_at(key@),
    {
        match self.get(key) {
            Some(j) => j.as_bool(),
            None => None,
        }
    }

    /// The value of the member `key`, which must be a whole number.
    pub fn whole_member(&self, key: &str) -> (r: Option<u64>)
        ensures
            r == self.whole_at(key@),
    {
        match self.get(key) {
            Some(j) => j.as_whole(),
            None => None,
        }
    }

    /// The value of the member `key`, which may be left out and must else be a
    /// whole number.
    pub fn optional_whole_member(&self, key: &str) -> (r: Option<Option<u64>>)
        ensures
            r == self.optional_whole_at(key@),
    {
        if self.leaves_out(key) {
            Some(None)
        } else {
            match self.whole_member(key) {
                Some(n) => Some(Some(n)),
                None => None,
            }
        }
    }

    /// The value of the member `key` in `10^-shift` parts.
    pub fn fixed_member(&self, key: &str, shift: u8, limit: u64) -> (r: Option<u64>)
        ensures
            match self.fixed_at(key@, shift as nat, limit as nat) {
                Some(p) => r == Some(p as u64) && p <= limit,
                None => r is None,
            },
    {
        match self.get(key) {
            Some(j) => j.as_fixed(shift, limit),
            None => None,
        }
    }

    /// The value of the member `key` in `10^-shift` parts, which may be left
    /// out.
    pub fn optional_fixed_member(&self, key: &str, shift: u8, limit: u64) -> (r: Option<
        Option<u64>,
    >)
        ensures
            match self.optional_fixed_at(key@, shift as nat, limit as nat) {
                Some(Some(p)) => r == Some(Some(p as u64)) && p <= limit,
                Some(None) => r == Some(None::<u64>),
                None => r is None,
            },
    {
        if self.leaves_out(key) {
            Some(None)
        } else {
            match self.fixed_member(key, shift, limit) {
                Some(n) => Some(Some(n)),
                None => None,
            }
        }
    }

    /// Takes the member `key` out of this document, which is given up.
    pub fn into_member(self, key: &str) -> (r: Option<Json>)
        ensures
            r == self.member(key@),
    {
        let ghost wanted = self.member(key@);
        match self {
            Json::Object(members) => {
                let mut members = members;
                let ghost all = members@;
                let mut i: usize = 0;
                assert(all.skip(0) == all);
                while i < members.len()
                    invariant
                        i <= all.len(),
                        members@ == all,
                        wanted == self.member(key@),
                        wanted == find_member(all.skip(i as int), key@),
                    decreases all.len() - i,
                {
                    assert(all.skip(i as int)[0] == all[i as int]);
                    if same_text(members[i].0.as_str(), key) {
                        let taken = members.swap_remove(i);
                        return Some(taken.1);
                    }
                    assert(all.skip(i as int).skip(1) == all.skip(i + 1));
                    i += 1;
                }
                None
            },
            _ => None,
        }
    }
}

} // verus!
