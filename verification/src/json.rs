//! JSON documents as the response parsers read them.

use vstd::prelude::*;
use vstd::string::*;

use crate::text::{chars_of, decimal, digit_char, same_text};

verus! {

/// A JSON value. Object members keep the order in which the parser gave them.
#[derive(Debug)]
pub enum Json {
    Null,
    Bool(bool),
    /// A number, in the text form that `serde_json` writes for it.
    Number(String),
    String(String),
    Array(Vec<Json>),
    Object(Vec<(String, Json)>),
}

/// What `serde_json::from_str::<serde_json::Value>` gives for a text: the
/// document, or the error's message.
pub uninterp spec fn parsed_json(text: Seq<char>) -> Result<Json, Seq<char>>;

/// A parse outcome with its error message viewed as a sequence.
pub open spec fn json_outcome(res: Result<Json, String>) -> Result<Json, Seq<char>> {
    match res {
        Ok(document) => Ok(document),
        Err(message) => Err(message@),
    }
}

/// Parses `text` with `serde_json::from_str` into a `serde_json::Value` and
/// converts it node by node, or gives the error's `Display` text. The contract
/// only names the outcome, [`parsed_json`], as a function of the text: JSON
/// syntax is not restated here.
#[verifier::external_body]
pub fn parse_json_text(text: &str) -> (res: Result<Json, String>)
    ensures
        json_outcome(res) == parsed_json(text@),
{
    match serde_json::from_str::<serde_json::Value>(text) {
        Ok(value) => Ok(json_from_value(value)),
        Err(error) => Err(error.to_string()),
    }
}

/// `serde_json::Value`, opaque here: only the converter below reads it.
#[verifier::external_type_specification]
#[verifier::external_body]
pub struct ExJsonValue(serde_json::Value);

/// Converts a `serde_json::Value` into a [`Json`], variant for variant.
#[verifier::external_body]
fn json_from_value(value: serde_json::Value) -> Json {
    match value {
        serde_json::Value::Null => Json::Null,
        serde_json::Value::Bool(flag) => Json::Bool(flag),
        serde_json::Value::Number(number) => Json::Number(number.to_string()),
        serde_json::Value::String(text) => Json::String(text),
        serde_json::Value::Array(items) => Json::Array(items.into_iter().map(json_from_value).collect()),
        serde_json::Value::Object(members) => Json::Object(
            members.into_iter().map(|(key, item)| (key, json_from_value(item))).collect(),
        ),
    }
}

/// The string inside a JSON string (`Value::as_str`).
pub open spec fn as_text(value: Json) -> Option<Seq<char>> {
    match value {
        Json::String(text) => Some(text@),
        _ => None,
    }
}

/// The value of the first member named `key`.
pub open spec fn member(members: Seq<(String, Json)>, key: Seq<char>) -> Option<Json>
    decreases members.len(),
{
    if members.len() == 0 {
        None
    } else if members[0].0@ == key {
        Some(members[0].1)
    } else {
        member(members.drop_first(), key)
    }
}

/// The member `key` of an object (`Value::get` with a string).
pub open spec fn get_key(value: Json, key: Seq<char>) -> Option<Json> {
    match value {
        Json::Object(members) => member(members@, key),
        _ => None,
    }
}

/// The item at `index` of an array (`Value::get` with an index).
pub open spec fn get_index(value: Json, index: int) -> Option<Json> {
    match value {
        Json::Array(items) => if 0 <= index < items@.len() {
            Some(items@[index])
        } else {
            None
        },
        _ => None,
    }
}

/// The array index that a JSON-pointer token names: the token must be the
/// decimal form, without leading zeros, of a `usize`.
pub open spec fn index_token(token: Seq<char>) -> Option<nat> {
    if exists|n: nat| n <= usize::MAX && decimal(n) == token {
        Some(choose|n: nat| n <= usize::MAX && decimal(n) == token)
    } else {
        None
    }
}

/// One JSON-pointer step: an object's member named `token`, or an array's item
/// at the index that `token` names.
pub open spec fn step(value: Json, token: Seq<char>) -> Option<Json> {
    match value {
        Json::Object(members) => member(members@, token),
        Json::Array(items) => match index_token(token) {
            Some(index) => if index < items@.len() {
                Some(items@[index as int])
            } else {
                None
            },
            None => None,
        },
        _ => None,
    }
}

/// The value that a JSON pointer made of `path`'s tokens addresses
/// (`Value::pointer`, for tokens without `~` escapes).
pub open spec fn at_path(value: Json, path: Seq<Seq<char>>) -> Option<Json>
    decreases path.len(),
{
    if path.len() == 0 {
        Some(value)
    } else {
        match step(value, path[0]) {
            Some(next) => at_path(next, path.drop_first()),
            None => None,
        }
    }
}

/// Whether `c` is an ASCII digit.
pub open spec fn is_digit(c: char) -> bool {
    '0' <= c && c <= '9'
}

/// The value of an ASCII digit.
pub open spec fn digit_value(c: char) -> nat {
    ((c as u32) - ('0' as u32)) as nat
}

/// The value of a run of ASCII digits.
pub open spec fn digits_value(s: Seq<char>) -> nat
    decreases s.len(),
{
    if s.len() == 0 {
        0
    } else {
        digits_value(s.drop_last()) * 10 + digit_value(s.last())
    }
}

proof fn lemma_digit_round_trip(d: nat)
    requires
        d < 10,
    ensures
        is_digit(digit_char(d)),
        digit_value(digit_char(d)) == d,
{
}

proof fn lemma_digit_char_of(c: char)
    requires
        is_digit(c),
    ensures
        digit_char(digit_value(c)) == c,
        digit_value(c) < 10,
{
}

/// The decimal form of `n` is all digits, starts with `0` only for zero, and
/// reads back as `n`.
proof fn lemma_decimal_shape(n: nat)
    ensures
        decimal(n).len() > 0,
        forall|i: int| 0 <= i < decimal(n).len() ==> is_digit(#[trigger] decimal(n)[i]),
        decimal(n)[0] == '0' ==> n == 0 && decimal(n).len() == 1,
        digits_value(decimal(n)) == n,
    decreases n,
{
    if n < 10 {
        lemma_digit_round_trip(n);
        assert(decimal(n).drop_last() =~= Seq::<char>::empty());
        assert(digits_value(decimal(n)) == digits_value(decimal(n).drop_last()) * 10
            + digit_value(decimal(n).last()));
    } else {
        lemma_decimal_shape(n / 10);
        lemma_digit_round_trip(n % 10);
        let d = decimal(n);
        assert(d.drop_last() =~= decimal(n / 10));
        assert(d[0] == decimal(n / 10)[0]);
        assert(d.last() == digit_char(n % 10));
        assert(digits_value(d) == digits_value(d.drop_last()) * 10 + digit_value(d.last()));
        assert((n / 10) * 10 + n % 10 == n);
    }
}

/// A run of digits without a leading zero is the decimal form of its value.
proof fn lemma_digits_are_decimal(s: Seq<char>)
    requires
        s.len() > 0,
        forall|i: int| 0 <= i < s.len() ==> is_digit(#[trigger] s[i]),
        s[0] == '0' ==> s.len() == 1,
    ensures
        decimal(digits_value(s)) == s,
        s[0] != '0' ==> digits_value(s) > 0,
    decreases s.len(),
{
    if s.len() == 1 {
        lemma_digit_char_of(s[0]);
        assert(s.drop_last() =~= Seq::<char>::empty());
        assert(digits_value(s) == digits_value(s.drop_last()) * 10 + digit_value(s.last()));
        assert(digits_value(s) == digit_value(s[0]));
        assert(decimal(digits_value(s)) == seq![digit_char(digit_value(s[0]))]);
        assert(decimal(digits_value(s)) =~= s);
    } else {
        let p = s.drop_last();
        assert(p[0] == s[0]);
        lemma_digits_are_decimal(p);
        lemma_digit_char_of(s.last());
        let v: nat = digits_value(s);
        assert(v == digits_value(p) * 10 + digit_value(s.last()));
        assert(v / 10 == digits_value(p));
        assert(v % 10 == digit_value(s.last()));
        assert(decimal(v) =~= s);
    }
}

/// Appending digits never makes the value smaller.
proof fn lemma_digits_grow(s: Seq<char>, k: int)
    requires
        0 <= k <= s.len(),
    ensures
        digits_value(s.take(k)) <= digits_value(s),
    decreases s.len() - k,
{
    if k < s.len() {
        lemma_digits_grow(s, k + 1);
        assert(s.take(k + 1).drop_last() =~= s.take(k));
    } else {
        assert(s.take(k) =~= s);
    }
}

/// Reads a JSON-pointer token as an array index (see [`index_token`]).
pub fn parse_index(token: &str) -> (res: Option<usize>)
    ensures
        match (res, index_token(token@)) {
            (Some(i), Some(n)) => i as nat == n,
            (None, None) => true,
            _ => false,
        },
{
    let chars = chars_of(token);
    let ghost t = token@;
    if chars.len() == 0 {
        proof {
            if exists|n: nat| n <= usize::MAX && decimal(n) == t {
                let n = choose|n: nat| n <= usize::MAX && decimal(n) == t;
                lemma_decimal_shape(n);
            }
        }
        return None;
    }
    if chars[0] == '0' && chars.len() != 1 {
        proof {
            if exists|n: nat| n <= usize::MAX && decimal(n) == t {
                let n = choose|n: nat| n <= usize::MAX && decimal(n) == t;
                lemma_decimal_shape(n);
            }
        }
        return None;
    }
    let mut value: usize = 0;
    let mut i: usize = 0;
    while i < chars.len()
        invariant
            i <= chars.len(),
            chars@ == t,
            t == token@,
            t.len() > 0,
            t[0] == '0' ==> t.len() == 1,
            forall|k: int| 0 <= k < i ==> is_digit(#[trigger] t[k]),
            value as nat == digits_value(t.take(i as int)),
        decreases chars.len() - i,
    {
        let c = chars[i];
        if !('0' <= c && c <= '9') {
            proof {
                if exists|n: nat| n <= usize::MAX && decimal(n) == t {
                    let n = choose|n: nat| n <= usize::MAX && decimal(n) == t;
                    lemma_decimal_shape(n);
                    assert(is_digit(decimal(n)[i as int]));
                }
            }
            return None;
        }
        let d: usize = (c as u32 - '0' as u32) as usize;
        assert(t.take(i + 1).drop_last() =~= t.take(i as int));
        match value.checked_mul(10) {
            Some(scaled) => match scaled.checked_add(d) {
                Some(next) => {
                    value = next;
                },
                None => {
                    proof {
                        lemma_digits_grow(t, i + 1);
                        if exists|n: nat| n <= usize::MAX && decimal(n) == t {
                            let n = choose|n: nat| n <= usize::MAX && decimal(n) == t;
                            lemma_decimal_shape(n);
                        }
                    }
                    return None;
                },
            },
            None => {
                proof {
                    lemma_digits_grow(t, i + 1);
                    if exists|n: nat| n <= usize::MAX && decimal(n) == t {
                        let n = choose|n: nat| n <= usize::MAX && decimal(n) == t;
                        lemma_decimal_shape(n);
                    }
                }
                return None;
            },
        }
        i = i + 1;
    }
    proof {
        assert(t.take(i as int) =~= t);
        lemma_digits_are_decimal(t);
        assert(decimal(value as nat) == t);
        let n = choose|n: nat| n <= usize::MAX && decimal(n) == t;
        lemma_decimal_shape(n);
        lemma_decimal_shape(value as nat);
    }
    Some(value)
}


/// The JSON pointer path `path` with each token viewed as characters.
pub open spec fn path_view(path: Seq<&str>) -> Seq<Seq<char>> {
    path.map_values(|token: &str| token@)
}

impl Json {
    /// The string inside a JSON string (`Value::as_str`).
    pub fn as_str(&self) -> (res: Option<&str>)
        ensures
            match res {
                Some(text) => as_text(*self) == Some(text@),
                None => as_text(*self) is None,
            },
    {
        match self {
            Json::String(text) => Some(text.as_str()),
            _ => None,
        }
    }

    /// The items of a JSON array (`Value::as_array`).
    pub fn as_array(&self) -> (res: Option<&Vec<Json>>)
        ensures
            match res {
                Some(items) => *self == Json::Array(*items),
                None => !(*self is Array),
            },
    {
        match self {
            Json::Array(items) => Some(items),
            _ => None,
        }
    }

    /// The member `key` of an object (`Value::get` with a string).
    pub fn get_member(&self, key: &str) -> (res: Option<&Json>)
        ensures
            match res {
                Some(value) => get_key(*self, key@) == Some(*value),
                None => get_key(*self, key@) is None,
            },
    {
        match self {
            Json::Object(members) => find_member(members, key),
            _ => None,
        }
    }

    /// The item at `index` of an array (`Value::get` with an index).
    pub fn get_item(&self, index: usize) -> (res: Option<&Json>)
        ensures
            match res {
                Some(value) => get_index(*self, index as int) == Some(*value),
                None => get_index(*self, index as int) is None,
            },
    {
        match self {
            Json::Array(items) => if index < items.len() {
                Some(&items[index])
            } else {
                None
            },
            _ => None,
        }
    }

    /// One JSON-pointer step (see [`step`]).
    pub fn step(&self, token: &str) -> (res: Option<&Json>)
        ensures
            match res {
                Some(value) => step(*self, token@) == Some(*value),
                None => step(*self, token@) is None,
            },
    {
        match self {
            Json::Object(members) => find_member(members, token),
            Json::Array(items) => match parse_index(token) {
                Some(index) => if index < items.len() {
                    Some(&items[index])
                } else {
                    None
                },
                None => None,
            },
            _ => None,
        }
    }

    /// The value that the JSON pointer made of `path`'s tokens addresses
    /// (see [`at_path`]).
    pub fn pointer(&self, path: &[&str]) -> (res: Option<&Json>)
        ensures
            match res {
                Some(value) => at_path(*self, path_view(path@)) == Some(*value),
                None => at_path(*self, path_view(path@)) is None,
            },
    {
        let mut current: &Json = self;
        let mut i: usize = 0;
        let ghost full = path_view(path@);
        assert(full.skip(0) =~= full);
        while i < path.len()
            invariant
                i <= path@.len(),
                full == path_view(path@),
                at_path(*self, full) == at_path(*current, full.skip(i as int)),
            decreases path.len() - i,
        {
            assert(full.skip(i as int)[0] == path@[i as int]@);
            assert(full.skip(i as int).drop_first() =~= full.skip(i + 1));
            match current.step(path[i]) {
                Some(next) => {
                    current = next;
                },
                None => {
                    return None;
                },
            }
            i = i + 1;
        }
        assert(full.skip(i as int) =~= Seq::<Seq<char>>::empty());
        Some(current)
    }
}

/// The value of the first member named `key`.
fn find_member<'a>(members: &'a Vec<(String, Json)>, key: &str) -> (res: Option<&'a Json>)
    ensures
        match res {
            Some(value) => member(members@, key@) == Some(*value),
            None => member(members@, key@) is None,
        },
{
    let mut i: usize = 0;
    assert(members@.skip(0) =~= members@);
    while i < members.len()
        invariant
            i <= members@.len(),
            member(members@, key@) == member(members@.skip(i as int), key@),
        decreases members.len() - i,
    {
        assert(members@.skip(i as int).drop_first() =~= members@.skip(i + 1));
        if same_text(members[i].0.as_str(), key) {
            return Some(&members[i].1);
        }
        i = i + 1;
    }
    None
}

} // verus!
