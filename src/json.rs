//! A JSON document model of plain values, and the parser that produces it.
use vstd::prelude::*;

verus! {

/// A JSON number as it arrived on the wire.
///
/// Integers keep their exact value; any other number is kept as the decimal
/// text that names it, so that no precision is lost in transit.
#[derive(Debug, Clone, PartialEq)]
pub enum JsonNumber {
    /// A non-negative integer.
    Unsigned(u64),
    /// A negative integer.
    Signed(i64),
    /// Any other number (a fraction, an exponent, or an integer beyond 64
    /// bits), as decimal text.
    Float(String),
}

/// A JSON value.
///
/// Objects keep their members as a list of `(key, value)` pairs; a parsed
/// object never repeats a key.
#[derive(Debug, PartialEq)]
pub enum Json {
    Null,
    Bool(bool),
    Number(JsonNumber),
    String(String),
    Array(Vec<Json>),
    Object(Vec<(String, Json)>),
}

#[verifier::external_type_specification]
#[verifier::external_body]
pub struct ExValue(serde_json::Value);

#[verifier::external_type_specification]
#[verifier::external_body]
pub struct ExNumber(serde_json::Number);

/// The document that a JSON text denotes, or `None` where the parser refuses
/// the text.
pub uninterp spec fn json_of_text(text: Seq<char>) -> Option<Json>;

/// Relies on `serde_json::from_str::<serde_json::Value>`: the document is a
/// function of the text alone. The parser refuses text that is not JSON, and
/// also JSON nested deeper than its limit; the error is its message.
#[verifier::external_body]
pub(crate) fn parse_json(text: &str) -> (r: Result<Json, String>)
    ensures
        match r {
            Ok(j) => json_of_text(text@) == Some(j),
            Err(_) => json_of_text(text@) is None,
        },
{
    serde_json::from_str::<serde_json::Value>(text).map(json_from_value).map_err(|e| e.to_string())
}

/// Relies on the variants of `serde_json::Value`: moves each into the variant
/// of the same name here, member order and all. This is the conversion step
/// of [`parse_json`] and is used nowhere else.
#[verifier::external_body]
fn json_from_value(v: serde_json::Value) -> Json {
    match v {
        serde_json::Value::Null => Json::Null,
        serde_json::Value::Bool(b) => Json::Bool(b),
        serde_json::Value::Number(n) => Json::Number(number_from_value(n)),
        serde_json::Value::String(s) => Json::String(s),
        serde_json::Value::Array(a) => Json::Array(a.into_iter().map(json_from_value).collect()),
        serde_json::Value::Object(m) => Json::Object(
            m.into_iter().map(|(k, x)| (k, json_from_value(x))).collect(),
        ),
    }
}

/// Relies on `serde_json::Number::{as_u64, as_i64}` and its `Display`: an
/// integer that fits keeps its value, any other number its decimal text.
#[verifier::external_body]
fn number_from_value(n: serde_json::Number) -> JsonNumber {
    match (n.as_u64(), n.as_i64()) {
        (Some(u), _) => JsonNumber::Unsigned(u),
        (None, Some(i)) => JsonNumber::Signed(i),
        (None, None) => JsonNumber::Float(n.to_string()),
    }
}

/// Whether `j` is the array of the strings `v`, in order.
pub open spec fn strings_json(j: Json, v: Seq<String>) -> bool {
    match j {
        Json::Array(items) => items@.len() == v.len() && forall|i: int|
            0 <= i < v.len() ==> #[trigger] items@[i] == Json::String(v[i]),
        _ => false,
    }
}

/// Whether `j` is the array of the integers `v`, in order.
pub open spec fn ints_json(j: Json, v: Seq<i32>) -> bool {
    match j {
        Json::Array(items) => items@.len() == v.len() && forall|i: int|
            0 <= i < v.len() ==> #[trigger] integer_value(items@[i]) == Some(v[i] as int),
        _ => false,
    }
}

/// What a member of an outgoing object must carry.
pub enum WireValue {
    Str(String),
    Bool(bool),
    Num(JsonNumber),
    Ints(Seq<i32>),
    Strs(Seq<String>),
}

/// Whether `j` carries `w`.
pub open spec fn carries(j: Json, w: WireValue) -> bool {
    match w {
        WireValue::Str(s) => j == Json::String(s),
        WireValue::Bool(b) => j == Json::Bool(b),
        WireValue::Num(n) => j == Json::Number(n),
        WireValue::Ints(v) => ints_json(j, v),
        WireValue::Strs(v) => strings_json(j, v),
    }
}

/// Whether `entries` are, in order, the members `expected`.
#[verifier::opaque]
pub open spec fn has_members(
    entries: Seq<(String, Json)>,
    expected: Seq<(Seq<char>, WireValue)>,
) -> bool {
    entries.len() == expected.len() && forall|i: int|
        0 <= i < entries.len() ==> #[trigger] entries[i].0@ == expected[i].0 && carries(
            entries[i].1,
            expected[i].1,
        )
}

pub open spec fn str_member(key: Seq<char>, v: Option<String>) -> Seq<(Seq<char>, WireValue)> {
    match v {
        Some(s) => seq![(key, WireValue::Str(s))],
        None => Seq::empty(),
    }
}

pub open spec fn bool_member(key: Seq<char>, v: Option<bool>) -> Seq<(Seq<char>, WireValue)> {
    match v {
        Some(b) => seq![(key, WireValue::Bool(b))],
        None => Seq::empty(),
    }
}

pub open spec fn num_member(key: Seq<char>, v: Option<JsonNumber>) -> Seq<(Seq<char>, WireValue)> {
    match v {
        Some(n) => seq![(key, WireValue::Num(n))],
        None => Seq::empty(),
    }
}

pub open spec fn u32_member(key: Seq<char>, v: Option<u32>) -> Seq<(Seq<char>, WireValue)> {
    match v {
        Some(c) => seq![(key, WireValue::Num(JsonNumber::Unsigned(c as u64)))],
        None => Seq::empty(),
    }
}

pub open spec fn ints_member(key: Seq<char>, v: Option<Vec<i32>>) -> Seq<(Seq<char>, WireValue)> {
    match v {
        Some(p) => seq![(key, WireValue::Ints(p@))],
        None => Seq::empty(),
    }
}

pub open spec fn strs_member(key: Seq<char>, v: Option<Vec<String>>) -> Seq<(Seq<char>, WireValue)> {
    match v {
        Some(p) => seq![(key, WireValue::Strs(p@))],
        None => Seq::empty(),
    }
}

/// Nothing appended leaves the members as they were.
pub proof fn lemma_has_members_extend_empty(
    entries: Seq<(String, Json)>,
    expected: Seq<(Seq<char>, WireValue)>,
)
    requires
        has_members(entries, expected),
    ensures
        has_members(entries, expected + Seq::<(Seq<char>, WireValue)>::empty()),
{
    assert(expected + Seq::<(Seq<char>, WireValue)>::empty() =~= expected);
}

/// An empty object has no members.
pub proof fn lemma_has_no_members(entries: Seq<(String, Json)>)
    requires
        entries.len() == 0,
    ensures
        has_members(entries, Seq::empty()),
{
    reveal(has_members);
}

/// Appends the member `key: value`, which carries `w`.
pub fn push_member(
    entries: &mut Vec<(String, Json)>,
    key: &str,
    value: Json,
    Ghost(expected): Ghost<Seq<(Seq<char>, WireValue)>>,
    Ghost(w): Ghost<WireValue>,
)
    requires
        has_members(old(entries)@, expected),
        carries(value, w),
    ensures
        has_members(final(entries)@, expected + seq![(key@, w)]),
{
    reveal(has_members);
    entries.push((key.to_owned(), value));
    assert forall|i: int| 0 <= i < entries@.len() implies #[trigger] entries@[i].0@ == (expected
        + seq![(key@, w)])[i].0 && carries(entries@[i].1, (expected + seq![(key@, w)])[i].1) by {
        if i < expected.len() {
            assert(entries@[i] == old(entries)@[i]);
        }
    }
}

/// The value of the first member of `entries` named `key`.
pub open spec fn member(entries: Seq<(String, Json)>, key: Seq<char>) -> Option<Json>
    decreases entries.len(),
{
    if entries.len() == 0 {
        None
    } else if entries[0].0@ == key {
        Some(entries[0].1)
    } else {
        member(entries.drop_first(), key)
    }
}

/// The member `key` of an object; `None` for a missing member or a value that
/// is not an object.
pub open spec fn field(j: Json, key: Seq<char>) -> Option<Json> {
    match j {
        Json::Object(entries) => member(entries@, key),
        _ => None,
    }
}

/// The member `key` of an object, where a `null` counts as missing.
pub open spec fn optional_field(j: Json, key: Seq<char>) -> Option<Json> {
    match field(j, key) {
        Some(Json::Null) => None,
        other => other,
    }
}

/// Any number, as it arrived.
pub open spec fn number_value(j: Json) -> Option<JsonNumber> {
    match j {
        Json::Number(n) => Some(n),
        _ => None,
    }
}

/// The integer that a number denotes, if it is one.
pub open spec fn integer_value(j: Json) -> Option<int> {
    match j {
        Json::Number(JsonNumber::Unsigned(u)) => Some(u as int),
        Json::Number(JsonNumber::Signed(i)) => Some(i as int),
        _ => None,
    }
}

/// An integer that lies in `lo ..= hi`.
pub open spec fn integer_in(j: Json, lo: int, hi: int) -> Option<int> {
    match integer_value(j) {
        Some(v) => if lo <= v <= hi { Some(v) } else { None },
        None => None,
    }
}

proof fn lemma_member_skip(entries: Seq<(String, Json)>, key: Seq<char>, i: int)
    requires
        0 <= i <= entries.len(),
        forall|k: int| 0 <= k < i ==> entries[k].0@ != key,
    ensures
        member(entries, key) == member(entries.subrange(i, entries.len() as int), key),
    decreases i,
{
    if i > 0 {
        let rest = entries.drop_first();
        lemma_member_skip(rest, key, i - 1);
        assert(rest.subrange(i - 1, rest.len() as int) =~= entries.subrange(i, entries.len() as int));
    } else {
        assert(entries.subrange(0, entries.len() as int) =~= entries);
    }
}

/// The position of the first member of `entries` named `key`.
pub fn find_member(entries: &Vec<(String, Json)>, key: &str) -> (r: Option<usize>)
    ensures
        match r {
            Some(i) => i < entries@.len() && entries@[i as int].0@ == key@ && member(entries@, key@)
                == Some(entries@[i as int].1),
            None => member(entries@, key@) is None,
        },
{
    let wanted = key.to_owned();
    let mut i: usize = 0;
    while i < entries.len()
        invariant
            i <= entries@.len(),
            wanted@ == key@,
            forall|k: int| 0 <= k < i ==> entries@[k].0@ != key@,
        decreases entries@.len() - i,
    {
        if entries[i].0 == wanted {
            proof {
                lemma_member_skip(entries@, key@, i as int);
            }
            return Some(i);
        }
        i = i + 1;
    }
    proof {
        lemma_member_skip(entries@, key@, i as int);
    }
    None
}

/// The member `key` of `j`, if `j` is an object that has one.
pub fn get_field<'a>(j: &'a Json, key: &str) -> (r: Option<&'a Json>)
    ensures
        match r {
            Some(x) => field(*j, key@) == Some(*x),
            None => field(*j, key@) is None,
        },
{
    match j {
        Json::Object(entries) => match find_member(entries, key) {
            Some(i) => Some(&entries[i].1),
            None => None,
        },
        _ => None,
    }
}

/// The member `key` of `j`, where a `null` counts as missing.
pub fn get_optional_field<'a>(j: &'a Json, key: &str) -> (r: Option<&'a Json>)
    ensures
        match r {
            Some(x) => optional_field(*j, key@) == Some(*x),
            None => optional_field(*j, key@) is None,
        },
{
    match get_field(j, key) {
        Some(Json::Null) => None,
        other => other,
    }
}

/// A copy of a number, text and all.
pub fn copy_number(n: &JsonNumber) -> (r: JsonNumber)
    ensures
        r == *n,
{
    match n {
        JsonNumber::Unsigned(u) => JsonNumber::Unsigned(*u),
        JsonNumber::Signed(i) => JsonNumber::Signed(*i),
        JsonNumber::Float(s) => JsonNumber::Float(s.clone()),
    }
}

pub fn to_number_value(j: &Json) -> (r: Option<JsonNumber>)
    ensures
        r == number_value(*j),
{
    match j {
        Json::Number(n) => Some(copy_number(n)),
        _ => None,
    }
}

pub fn to_u64_value(j: &Json) -> (r: Option<u64>)
    ensures
        match r {
            Some(v) => integer_in(*j, 0, u64::MAX as int) == Some(v as int),
            None => integer_in(*j, 0, u64::MAX as int) is None,
        },
{
    match j {
        Json::Number(JsonNumber::Unsigned(u)) => Some(*u),
        Json::Number(JsonNumber::Signed(i)) => if *i >= 0 {
            Some(*i as u64)
        } else {
            None
        },
        _ => None,
    }
}

pub fn to_i64_value(j: &Json) -> (r: Option<i64>)
    ensures
        match r {
            Some(v) => integer_in(*j, i64::MIN as int, i64::MAX as int) == Some(v as int),
            None => integer_in(*j, i64::MIN as int, i64::MAX as int) is None,
        },
{
    match j {
        Json::Number(JsonNumber::Unsigned(u)) => if *u <= i64::MAX as u64 {
            Some(*u as i64)
        } else {
            None
        },
        Json::Number(JsonNumber::Signed(i)) => Some(*i),
        _ => None,
    }
}

/// The array of the strings `v`.
pub fn strings_to_json(v: &Vec<String>) -> (r: Json)
    ensures
        strings_json(r, v@),
{
    let mut items: Vec<Json> = Vec::new();
    let mut i: usize = 0;
    while i < v.len()
        invariant
            i <= v@.len(),
            items@.len() == i,
            forall|k: int| 0 <= k < i ==> #[trigger] items@[k] == Json::String(v@[k]),
        decreases v@.len() - i,
    {
        items.push(Json::String(v[i].clone()));
        i = i + 1;
    }
    Json::Array(items)
}

/// An integer as a JSON number.
pub fn int_to_json(v: i64) -> (r: Json)
    ensures
        integer_value(r) == Some(v as int),
{
    if v >= 0 {
        Json::Number(JsonNumber::Unsigned(v as u64))
    } else {
        Json::Number(JsonNumber::Signed(v))
    }
}

/// The array of the integers `v`.
pub fn ints_to_json(v: &Vec<i32>) -> (r: Json)
    ensures
        ints_json(r, v@),
{
    let mut items: Vec<Json> = Vec::new();
    let mut i: usize = 0;
    while i < v.len()
        invariant
            i <= v@.len(),
            items@.len() == i,
            forall|k: int| 0 <= k < i ==> #[trigger] integer_value(items@[k]) == Some(v@[k] as int),
        decreases v@.len() - i,
    {
        items.push(int_to_json(v[i] as i64));
        i = i + 1;
    }
    Json::Array(items)
}

/// Appends the member `key` if `v` is set.
pub fn push_str_member(
    entries: &mut Vec<(String, Json)>,
    key: &str,
    v: &Option<String>,
    Ghost(expected): Ghost<Seq<(Seq<char>, WireValue)>>,
)
    requires
        has_members(old(entries)@, expected),
    ensures
        has_members(final(entries)@, expected + str_member(key@, *v)),
{
    match v {
        Some(s) => push_member(entries, key, Json::String(s.clone()), Ghost(expected), Ghost(WireValue::Str(*s))),
        None => proof { lemma_has_members_extend_empty(entries@, expected); },
    }
}

/// Appends the member `key` if `v` is set.
pub fn push_bool_member(
    entries: &mut Vec<(String, Json)>,
    key: &str,
    v: Option<bool>,
    Ghost(expected): Ghost<Seq<(Seq<char>, WireValue)>>,
)
    requires
        has_members(old(entries)@, expected),
    ensures
        has_members(final(entries)@, expected + bool_member(key@, v)),
{
    match v {
        Some(b) => push_member(entries, key, Json::Bool(b), Ghost(expected), Ghost(WireValue::Bool(b))),
        None => proof { lemma_has_members_extend_empty(entries@, expected); },
    }
}

/// Appends the member `key` if `v` is set.
pub fn push_num_member(
    entries: &mut Vec<(String, Json)>,
    key: &str,
    v: &Option<JsonNumber>,
    Ghost(expected): Ghost<Seq<(Seq<char>, WireValue)>>,
)
    requires
        has_members(old(entries)@, expected),
    ensures
        has_members(final(entries)@, expected + num_member(key@, *v)),
{
    match v {
        Some(n) => push_member(entries, key, Json::Number(copy_number(n)), Ghost(expected), Ghost(WireValue::Num(*n))),
        None => proof { lemma_has_members_extend_empty(entries@, expected); },
    }
}

/// Appends the member `key` if `v` is set.
pub fn push_u32_member(
    entries: &mut Vec<(String, Json)>,
    key: &str,
    v: Option<u32>,
    Ghost(expected): Ghost<Seq<(Seq<char>, WireValue)>>,
)
    requires
        has_members(old(entries)@, expected),
    ensures
        has_members(final(entries)@, expected + u32_member(key@, v)),
{
    match v {
        Some(c) => push_member(
            entries,
            key,
            Json::Number(JsonNumber::Unsigned(c as u64)),
            Ghost(expected),
            Ghost(WireValue::Num(JsonNumber::Unsigned(c as u64))),
        ),
        None => proof { lemma_has_members_extend_empty(entries@, expected); },
    }
}

/// Appends the member `key` if `v` is set.
pub fn push_ints_member(
    entries: &mut Vec<(String, Json)>,
    key: &str,
    v: &Option<Vec<i32>>,
    Ghost(expected): Ghost<Seq<(Seq<char>, WireValue)>>,
)
    requires
        has_members(old(entries)@, expected),
    ensures
        has_members(final(entries)@, expected + ints_member(key@, *v)),
{
    match v {
        Some(p) => push_member(entries, key, ints_to_json(p), Ghost(expected), Ghost(WireValue::Ints(p@))),
        None => proof { lemma_has_members_extend_empty(entries@, expected); },
    }
}

/// Appends the member `key` if `v` is set.
pub fn push_strs_member(
    entries: &mut Vec<(String, Json)>,
    key: &str,
    v: &Option<Vec<String>>,
    Ghost(expected): Ghost<Seq<(Seq<char>, WireValue)>>,
)
    requires
        has_members(old(entries)@, expected),
    ensures
        has_members(final(entries)@, expected + strs_member(key@, *v)),
{
    match v {
        Some(p) => push_member(entries, key, strings_to_json(p), Ghost(expected), Ghost(WireValue::Strs(p@))),
        None => proof { lemma_has_members_extend_empty(entries@, expected); },
    }
}

} // verus!
