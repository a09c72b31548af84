//! JSON values as plain data, and the calls into `serde_json` that decode and
//! render them.

use crate::text::{lemma_empty_text, owned, signed_decimal_string, signed_decimal_text};
use vstd::prelude::*;

verus! {

/// A JSON number: its text as `serde_json` prints it, and its value where that
/// is an integer that fits in `i64`.
#[derive(Debug, Clone, PartialEq, Eq)]
pub struct JsonNumber {
    pub text: String,
    pub integer: Option<i64>,
}

/// One member of a JSON object.
#[derive(Debug, PartialEq, Eq)]
pub struct JsonMember {
    pub key: String,
    pub value: Json,
}

/// A JSON value. Of two members of one object with the same key, the later
/// one counts.
#[derive(Debug, PartialEq, Eq)]
pub enum Json {
    Null,
    Bool(bool),
    Number(JsonNumber),
    Text(String),
    Array(Vec<Json>),
    Object(Vec<JsonMember>),
}

/// The mathematical value of a [`JsonNumber`].
pub struct NumberValue {
    pub text: Seq<char>,
    pub integer: Option<i64>,
}

/// The mathematical value of a [`Json`].
pub enum JsonValue {
    Null,
    Bool(bool),
    Number(NumberValue),
    Text(Seq<char>),
    Array(Seq<JsonValue>),
    Object(Seq<(Seq<char>, JsonValue)>),
}

impl View for JsonNumber {
    type V = NumberValue;

    open spec fn view(&self) -> NumberValue {
        NumberValue { text: self.text@, integer: self.integer }
    }
}

impl View for Json {
    type V = JsonValue;

    open spec fn view(&self) -> JsonValue {
        json_value(*self)
    }
}

/// The mathematical value of `j`.
pub open spec fn json_value(j: Json) -> JsonValue
    decreases j, 0nat,
{
    match j {
        Json::Null => JsonValue::Null,
        Json::Bool(b) => JsonValue::Bool(b),
        Json::Number(n) => JsonValue::Number(n@),
        Json::Text(s) => JsonValue::Text(s@),
        Json::Array(items) => JsonValue::Array(item_values(items, items@.len())),
        Json::Object(members) => JsonValue::Object(member_values(members, members@.len())),
    }
}

/// The views of the first `n` of `items`.
pub open spec fn item_values(items: Vec<Json>, n: nat) -> Seq<JsonValue>
    decreases items, n,
{
    if n == 0 || n > items@.len() {
        Seq::empty()
    } else {
        item_values(items, (n - 1) as nat).push(json_value(items@[n - 1]))
    }
}

/// The keys of the first `n` of `members`, each with the view of its value.
pub open spec fn member_values(members: Vec<JsonMember>, n: nat) -> Seq<(Seq<char>, JsonValue)>
    decreases members, n,
{
    if n == 0 || n > members@.len() {
        Seq::empty()
    } else {
        member_values(members, (n - 1) as nat).push(
            (members@[n - 1].key@, json_value(members@[n - 1].value)),
        )
    }
}

/// The value of the last of `members` whose key is `key`.
pub open spec fn last_member(members: Seq<(Seq<char>, JsonValue)>, key: Seq<char>) -> Option<
    JsonValue,
>
    decreases members.len(),
{
    if members.len() == 0 {
        None
    } else if members.last().0 == key {
        Some(members.last().1)
    } else {
        last_member(members.drop_last(), key)
    }
}

impl JsonValue {
    /// The member `key` of an object; nothing for any other value.
    pub open spec fn member(self, key: Seq<char>) -> Option<JsonValue> {
        match self {
            JsonValue::Object(members) => last_member(members, key),
            _ => None,
        }
    }

    /// The text of a string value; nothing for any other value.
    pub open spec fn as_text(self) -> Option<Seq<char>> {
        match self {
            JsonValue::Text(s) => Some(s),
            _ => None,
        }
    }

    /// The integer of a number that has one; nothing for any other value.
    pub open spec fn as_integer(self) -> Option<i64> {
        match self {
            JsonValue::Number(n) => n.integer,
            _ => None,
        }
    }

    /// The text of the member `key`, where that member is a string.
    pub open spec fn text_at(self, key: Seq<char>) -> Option<Seq<char>> {
        match self.member(key) {
            Some(v) => v.as_text(),
            None => None,
        }
    }

    /// The text of the member `key`, or `fallback` where it is no string.
    pub open spec fn text_or(self, key: Seq<char>, fallback: Seq<char>) -> Seq<char> {
        match self.text_at(key) {
            Some(s) => s,
            None => fallback,
        }
    }
}

/// `serde_json::Value`, carried between the calls into `serde_json`.
#[verifier::external_type_specification]
#[verifier::external_body]
pub struct ExOutsideValue(serde_json::Value);

/// What `serde_json::from_str` reads from `text`: the value, or nothing where
/// the text is no JSON document.
pub uninterp spec fn decoded_json(text: Seq<char>) -> Option<JsonValue>;

/// What `serde_json::from_slice` reads from `bytes`: the value, or nothing
/// where the bytes are no JSON document.
pub uninterp spec fn decoded_json_bytes(bytes: Seq<u8>) -> Option<JsonValue>;

/// What `serde_json::to_string_pretty` prints for `value`, where it prints
/// anything.
pub uninterp spec fn pretty_json_text(value: JsonValue) -> Option<Seq<char>>;

/// What `serde_json::Value`'s `Display` prints for `value`: its compact form.
pub uninterp spec fn compact_json_text(value: JsonValue) -> Seq<char>;

/// Whether a text stands as it is between the quotes of a JSON string: it
/// holds no control character, no double quote and no backslash.
pub open spec fn needs_no_escape(s: Seq<char>) -> bool {
    forall|i: int| 0 <= i < s.len() ==> (#[trigger] s[i]) as u32 >= 0x20 && s[i] != '"' && s[i] != '\\'
}

/// The JSON string of a text that needs no escape: the text between double
/// quotes.
pub open spec fn quoted(s: Seq<char>) -> Seq<char> {
    seq!['"'] + s + seq!['"']
}

/// Copies a `serde_json::Value` into a [`Json`], node by node; a number keeps
/// its printed text and what `Number::as_i64` gives.
#[verifier::external_body]
fn from_outside(value: &serde_json::Value) -> Json {
    match value {
        serde_json::Value::Null => Json::Null,
        serde_json::Value::Bool(b) => Json::Bool(*b),
        serde_json::Value::Number(n) => Json::Number(
            JsonNumber { text: n.to_string(), integer: n.as_i64() },
        ),
        serde_json::Value::String(s) => Json::Text(s.clone()),
        serde_json::Value::Array(items) => Json::Array(items.iter().map(from_outside).collect()),
        serde_json::Value::Object(map) => Json::Object(
            map.iter().map(|(k, v)| JsonMember { key: k.clone(), value: from_outside(v) }).collect(),
        ),
    }
}

/// Copies a [`Json`] into a `serde_json::Value`, node by node; a number is
/// read back from its text.
#[verifier::external_body]
fn to_outside(value: &Json) -> serde_json::Value {
    match value {
        Json::Null => serde_json::Value::Null,
        Json::Bool(b) => serde_json::Value::Bool(*b),
        Json::Number(n) => serde_json::from_str(&n.text).unwrap_or(serde_json::Value::Null),
        Json::Text(s) => serde_json::Value::String(s.clone()),
        Json::Array(items) => serde_json::Value::Array(items.iter().map(to_outside).collect()),
        Json::Object(members) => serde_json::Value::Object(
            members.iter().map(|m| (m.key.clone(), to_outside(&m.value))).collect(),
        ),
    }
}

/// `serde_json::from_str` on `text`, read as a `serde_json::Value`: the result
/// depends on the text alone.
#[verifier::external_body]
fn decode_text(text: &str) -> (r: Option<Json>)
    ensures
        decoded_json(text@) == value_of_owned(r),
{
    match serde_json::from_str::<serde_json::Value>(text) {
        Ok(value) => Some(from_outside(&value)),
        Err(_) => None,
    }
}

/// `serde_json::from_slice` on `bytes`, read as a `serde_json::Value`: the
/// result depends on the bytes alone.
#[verifier::external_body]
fn decode_slice(bytes: &[u8]) -> (r: Option<Json>)
    ensures
        decoded_json_bytes(bytes@) == value_of_owned(r),
{
    match serde_json::from_slice::<serde_json::Value>(bytes) {
        Ok(value) => Some(from_outside(&value)),
        Err(_) => None,
    }
}

/// `serde_json::to_string_pretty` on `value`: the result depends on the value
/// alone.
#[verifier::external_body]
fn pretty_text(value: &Json) -> (r: Option<String>)
    ensures
        pretty_json_text(value@) == text_of_owned(r),
{
    serde_json::to_string_pretty(&to_outside(value)).ok()
}

/// `to_string` of `value` as a `serde_json::Value`, which prints its compact
/// form: the result depends on the value alone. A string prints between
/// double quotes, and as it is where it holds nothing that JSON escapes.
#[verifier::external_body]
fn compact_text(value: &Json) -> (r: String)
    ensures
        r@ == compact_json_text(value@),
        value@ matches JsonValue::Text(s) ==> (needs_no_escape(s) ==> r@ == quoted(s)),
{
    to_outside(value).to_string()
}

/// The view of an optional value.
pub open spec fn value_of_owned(j: Option<Json>) -> Option<JsonValue> {
    match j {
        Some(j) => Some(j@),
        None => None,
    }
}

/// The view of an optional string.
pub open spec fn text_of_owned(s: Option<String>) -> Option<Seq<char>> {
    match s {
        Some(s) => Some(s@),
        None => None,
    }
}

/// How a value is shown to a reader: a string as it is, `null` as nothing,
/// any other value pretty-printed, or in compact form where that fails.
pub open spec fn display_text(value: JsonValue) -> Seq<char> {
    match value {
        JsonValue::Text(s) => s,
        JsonValue::Null => Seq::empty(),
        _ => match pretty_json_text(value) {
            Some(s) => s,
            None => compact_json_text(value),
        },
    }
}

/// The views of an optional value.
pub open spec fn value_of(j: Option<&Json>) -> Option<JsonValue> {
    match j {
        Some(j) => Some(j@),
        None => None,
    }
}

/// The view of an optional string slice.
pub open spec fn text_of_opt(s: Option<&str>) -> Option<Seq<char>> {
    match s {
        Some(s) => Some(s@),
        None => None,
    }
}

/// The first `n` members' values are `n` pairs, each of one member.
pub proof fn lemma_member_values(members: Vec<JsonMember>, n: nat)
    requires
        n <= members@.len(),
    ensures
        member_values(members, n).len() == n,
        forall|k: int|
            0 <= k < n ==> #[trigger] member_values(members, n)[k] == (
                members@[k].key@,
                members@[k].value@,
            ),
    decreases n,
{
    reveal_with_fuel(member_values, 2);
    if n > 0 {
        lemma_member_values(members, (n - 1) as nat);
    }
}

/// The first `n` items' values are `n` values, each of one item.
pub proof fn lemma_item_values(items: Vec<Json>, n: nat)
    requires
        n <= items@.len(),
    ensures
        item_values(items, n).len() == n,
        forall|k: int| 0 <= k < n ==> #[trigger] item_values(items, n)[k] == items@[k]@,
    decreases n,
{
    reveal_with_fuel(item_values, 2);
    if n > 0 {
        lemma_item_values(items, (n - 1) as nat);
    }
}

/// The view of an object holds each member's key with the view of its value.
pub proof fn lemma_object_view(members: Vec<JsonMember>)
    ensures
        Json::Object(members)@ is Object,
        Json::Object(members)@->Object_0.len() == members@.len(),
        forall|k: int|
            0 <= k < members@.len() ==> #[trigger] Json::Object(members)@->Object_0[k] == (
                members@[k].key@,
                members@[k].value@,
            ),
{
    reveal_with_fuel(json_value, 2);
    lemma_member_values(members, members@.len());
}

/// The view of an array holds the views of its items.
pub proof fn lemma_array_view(items: Vec<Json>)
    ensures
        Json::Array(items)@ is Array,
        Json::Array(items)@->Array_0.len() == items@.len(),
        forall|k: int|
            0 <= k < items@.len() ==> #[trigger] Json::Array(items)@->Array_0[k] == items@[k]@,
{
    reveal_with_fuel(json_value, 2);
    lemma_item_values(items, items@.len());
}

/// Reads `text` as a JSON document.
pub fn decode(text: &str) -> (r: Option<Json>)
    ensures
        value_of_owned(r) == decoded_json(text@),
{
    decode_text(text)
}

/// Reads `bytes` as a JSON document.
pub fn decode_bytes(bytes: &[u8]) -> (r: Option<Json>)
    ensures
        value_of_owned(r) == decoded_json_bytes(bytes@),
{
    decode_slice(bytes)
}

/// The compact JSON text of `value`.
pub fn encode(value: &Json) -> (r: String)
    ensures
        r@ == compact_json_text(value@),
        value@ matches JsonValue::Text(s) ==> (needs_no_escape(s) ==> r@ == quoted(s)),
{
    compact_text(value)
}

/// The text that shows `value` to a reader.
pub fn value_as_object_text(value: &Json) -> (r: String)
    ensures
        r@ == display_text(value@),
{
    match value {
        Json::Text(s) => s.clone(),
        Json::Null => String::new(),
        _ => match pretty_text(value) {
            Some(s) => s,
            None => compact_text(value),
        },
    }
}

impl Json {
    /// The number `n`.
    pub fn from_i64(n: i64) -> (r: Json)
        ensures
            r@ == JsonValue::Number(
                NumberValue { text: signed_decimal_text(n as int), integer: Some(n) },
            ),
    {
        Json::Number(JsonNumber { text: signed_decimal_string(n), integer: Some(n) })
    }

    /// The string `s`.
    pub fn text(s: &str) -> (r: Json)
        ensures
            r@ == JsonValue::Text(s@),
    {
        Json::Text(owned(s))
    }

    /// The member `key` of an object; nothing for any other value.
    pub fn get(&self, key: &str) -> (r: Option<&Json>)
        ensures
            value_of(r) == self@.member(key@),
    {
        match self {
            Json::Object(members) => {
                let ghost all = self@->Object_0;
                proof {
                    lemma_object_view(*members);
                    assert(all.take(all.len() as int) == all);
                }
                let mut i: usize = members.len();
                while i > 0
                    invariant
                        i <= members.len(),
                        self@.member(key@) == last_member(all, key@),
                        all.len() == members@.len(),
                        forall|k: int|
                            0 <= k < members@.len() ==> all[k] == (
                                members@[k].key@,
                                members@[k].value@,
                            ),
                        last_member(all, key@) == last_member(all.take(i as int), key@),
                    decreases i,
                {
                    i -= 1;
                    let ghost upto = all.take(i + 1);
                    assert(upto.last() == all[i as int]);
                    assert(upto.drop_last() == all.take(i as int));
                    if members[i].key.as_str().eq(key) {
                        return Some(&members[i].value);
                    }
                }
                assert(all.take(0).len() == 0);
                None
            },
            _ => None,
        }
    }

    /// The text of a string value; nothing for any other value.
    pub fn as_str(&self) -> (r: Option<&str>)
        ensures
            text_of_opt(r) == self@.as_text(),
    {
        match self {
            Json::Text(s) => Some(s.as_str()),
            _ => None,
        }
    }

    /// The integer of a number that has one; nothing for any other value.
    pub fn as_i64(&self) -> (r: Option<i64>)
        ensures
            r == self@.as_integer(),
    {
        match self {
            Json::Number(n) => n.integer,
            _ => None,
        }
    }

    /// Whether this is the value `null`.
    pub fn is_null(&self) -> (r: bool)
        ensures
            r == (self@ is Null),
    {
        match self {
            Json::Null => true,
            _ => false,
        }
    }

    /// The text of the member `key`, where that member is a string.
    pub fn str_at(&self, key: &str) -> (r: Option<&str>)
        ensures
            text_of_opt(r) == self@.text_at(key@),
    {
        match self.get(key) {
            Some(v) => v.as_str(),
            None => None,
        }
    }

    /// The text of the member `key`, or nothing where it is no string.
    pub fn str_or_empty(&self, key: &str) -> (r: &str)
        ensures
            r@ == self@.text_or(key@, Seq::empty()),
    {
        proof {
            lemma_empty_text();
        }
        match self.str_at(key) {
            Some(s) => s,
            None => "",
        }
    }

    /// The text of the member `key`, or `fallback` where it is no string.
    pub fn str_or<'a>(&'a self, key: &str, fallback: &'a str) -> (r: &'a str)
        ensures
            r@ == self@.text_or(key@, fallback@),
    {
        match self.str_at(key) {
            Some(s) => s,
            None => fallback,
        }
    }
}

/// The keys of `members`, each with the view of its value.
pub open spec fn member_pairs(members: Seq<JsonMember>) -> Seq<(Seq<char>, JsonValue)> {
    Seq::new(members.len(), |i: int| (members[i].key@, members[i].value@))
}

/// The views of `items`.
pub open spec fn item_views(items: Seq<Json>) -> Seq<JsonValue> {
    Seq::new(items.len(), |i: int| items[i]@)
}

/// Appends the member `key` with the value `value` to `members`.
pub fn push_member(members: &mut Vec<JsonMember>, key: &str, value: Json)
    ensures
        member_pairs(final(members)@) == member_pairs(old(members)@).push((key@, value@)),
{
    members.push(JsonMember { key: owned(key), value });
    assert(member_pairs(members@) =~= member_pairs(old(members)@).push((key@, value@)));
}

/// No members.
pub fn no_members() -> (r: Vec<JsonMember>)
    ensures
        member_pairs(r@) == Seq::<(Seq<char>, JsonValue)>::empty(),
{
    let r: Vec<JsonMember> = Vec::new();
    assert(member_pairs(r@) =~= Seq::<(Seq<char>, JsonValue)>::empty());
    r
}

/// The object with the members `members`.
pub fn object_of(members: Vec<JsonMember>) -> (r: Json)
    ensures
        r@ == JsonValue::Object(member_pairs(members@)),
{
    proof {
        lemma_object_view(members);
        assert(Json::Object(members)@->Object_0 =~= member_pairs(members@));
    }
    Json::Object(members)
}

/// The array with the items `items`.
pub fn array_of(items: Vec<Json>) -> (r: Json)
    ensures
        r@ == JsonValue::Array(item_views(items@)),
{
    proof {
        lemma_array_view(items);
        assert(Json::Array(items)@->Array_0 =~= item_views(items@));
    }
    Json::Array(items)
}

impl Json {
    /// The items of an array; nothing for any other value.
    pub fn as_array(&self) -> (r: Option<&Vec<Json>>)
        ensures
            match r {
                Some(items) => self@ == JsonValue::Array(item_views(items@)),
                None => !(self@ is Array),
            },
    {
        match self {
            Json::Array(items) => {
                proof {
                    lemma_array_view(*items);
                    assert(Json::Array(*items)@->Array_0 =~= item_views(items@));
                }
                Some(items)
            },
            _ => None,
        }
    }

    /// The truth value of a boolean; nothing for any other value.
    pub fn as_bool(&self) -> (r: Option<bool>)
        ensures
            r == self@.as_truth(),
    {
        match self {
            Json::Bool(b) => Some(*b),
            _ => None,
        }
    }
}

impl JsonValue {
    /// The truth value of a boolean; nothing for any other value.
    pub open spec fn as_truth(self) -> Option<bool> {
        match self {
            JsonValue::Bool(b) => Some(b),
            _ => None,
        }
    }

    /// The items of an array; nothing for any other value.
    pub open spec fn as_items(self) -> Option<Seq<JsonValue>> {
        match self {
            JsonValue::Array(items) => Some(items),
            _ => None,
        }
    }
}

/// The member `first` of `value`, or the member `second` where there is no
/// `first`.
pub open spec fn member_or(value: JsonValue, first: Seq<char>, second: Seq<char>) -> Option<
    JsonValue,
> {
    match value.member(first) {
        Some(v) => Some(v),
        None => value.member(second),
    }
}

/// The text of an optional value, or `fallback` where it is no string.
pub open spec fn text_of_or(value: Option<JsonValue>, fallback: Seq<char>) -> Seq<char> {
    match value {
        Some(v) => match v.as_text() {
            Some(s) => s,
            None => fallback,
        },
        None => fallback,
    }
}

/// How an optional value is shown: nothing where there is none.
pub open spec fn display_of(value: Option<JsonValue>) -> Seq<char> {
    match value {
        Some(v) => display_text(v),
        None => Seq::empty(),
    }
}

/// The member `first` of `value`, or the member `second` where there is no
/// `first`.
pub fn get_or<'a>(value: &'a Json, first: &str, second: &str) -> (r: Option<&'a Json>)
    ensures
        value_of(r) == member_or(value@, first@, second@),
{
    match value.get(first) {
        Some(v) => Some(v),
        None => value.get(second),
    }
}

/// The text of an optional value, or `fallback` where it is no string.
pub fn str_of_or<'a>(value: Option<&'a Json>, fallback: &'a str) -> (r: &'a str)
    ensures
        r@ == text_of_or(value_of(value), fallback@),
{
    match value {
        Some(v) => match v.as_str() {
            Some(s) => s,
            None => fallback,
        },
        None => fallback,
    }
}

/// How an optional value is shown: nothing where there is none.
pub fn show_opt(value: Option<&Json>) -> (r: String)
    ensures
        r@ == display_of(value_of(value)),
{
    match value {
        Some(v) => value_as_object_text(v),
        None => String::new(),
    }
}

} // verus!
