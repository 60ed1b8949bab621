//! JSON text: reading a document from text and writing one as text, both
//! done by `serde_json`.

use vstd::prelude::*;
use crate::error::{CodecError, CodecErrorValue, DecodeCause, DecodeError, Failure};
use crate::json::{
    items_view, lemma_array_view, lemma_object_view, members_view, Json, JsonNumber, JsonValue,
    Member, MemberValue, NumberValue,
};

verus! {

#[verifier::external_type_specification]
#[verifier::external_body]
pub struct ExValue(serde_json::Value);

#[verifier::external_type_specification]
#[verifier::external_body]
pub struct ExNumber(serde_json::Number);

#[verifier::external_type_specification]
#[verifier::external_body]
#[verifier::reject_recursive_types(K)]
#[verifier::reject_recursive_types(V)]
pub struct ExMap<K, V>(serde_json::Map<K, V>);

#[verifier::external_type_specification]
#[verifier::external_body]
pub struct ExSyntaxError(serde_json::Error);

/// The document that a `serde_json::Value` holds.
pub uninterp spec fn value_tree(v: serde_json::Value) -> JsonValue;

/// The number that a `serde_json::Number` holds: an integer, or the
/// decimal text that the number is printed as.
pub uninterp spec fn number_value(n: serde_json::Number) -> NumberValue;

/// The members that a `serde_json::Map` holds, in the order in which it
/// walks them.
pub uninterp spec fn map_members(m: serde_json::Map<String, serde_json::Value>) -> Seq<
    MemberValue,
>;

/// The document that `serde_json::from_str` reads from a text, if it
/// accepts the text.
pub uninterp spec fn parsed_document(text: Seq<char>) -> Option<JsonValue>;

/// The number that `serde_json::from_str` reads from a text, if it
/// accepts the text as a number.
pub uninterp spec fn parsed_number(text: Seq<char>) -> Option<NumberValue>;

/// The text that `serde_json::to_string` writes for a document.
pub uninterp spec fn document_text(tree: JsonValue) -> Seq<char>;

/// One level of a `serde_json::Value` that is being read.
enum Shape<'a> {
    Null,
    Bool(bool),
    Number(&'a serde_json::Number),
    Text(&'a String),
    Array(&'a Vec<serde_json::Value>),
    Object(&'a serde_json::Map<String, serde_json::Value>),
}

/// One level of a `serde_json::Value` that is being built.
enum Parts {
    Null,
    Bool(bool),
    Number(serde_json::Number),
    Text(String),
    Array(Vec<serde_json::Value>),
    Object(serde_json::Map<String, serde_json::Value>),
}

spec fn trees(items: Seq<serde_json::Value>) -> Seq<JsonValue> {
    items.map_values(|v: serde_json::Value| value_tree(v))
}

spec fn shape_tree(s: Shape) -> JsonValue {
    match s {
        Shape::Null => JsonValue::Null,
        Shape::Bool(b) => JsonValue::Bool(b),
        Shape::Number(n) => JsonValue::Number(number_value(*n)),
        Shape::Text(t) => JsonValue::Text(t@),
        Shape::Array(items) => JsonValue::Array(trees(items@)),
        Shape::Object(m) => JsonValue::Object(map_members(*m)),
    }
}

spec fn parts_tree(p: Parts) -> JsonValue {
    match p {
        Parts::Null => JsonValue::Null,
        Parts::Bool(b) => JsonValue::Bool(b),
        Parts::Number(n) => JsonValue::Number(number_value(n)),
        Parts::Text(t) => JsonValue::Text(t@),
        Parts::Array(items) => JsonValue::Array(trees(items@)),
        Parts::Object(m) => JsonValue::Object(map_members(m)),
    }
}

/// The members of an object after one more member was written into it:
/// a name that is already there keeps its place and takes the new value,
/// a new name goes to the end.
pub open spec fn inserted(members: Seq<MemberValue>, m: MemberValue) -> Seq<MemberValue>
    decreases members.len(),
{
    if members.len() == 0 {
        Seq::empty().push(m)
    } else if members.first().name == m.name {
        Seq::empty().push(m) + members.drop_first()
    } else {
        Seq::empty().push(members.first()) + inserted(members.drop_first(), m)
    }
}

/// A name that is not among the members goes to the end.
pub proof fn lemma_inserted_new(members: Seq<MemberValue>, m: MemberValue)
    requires
        forall|i: int| 0 <= i < members.len() ==> members[i].name != m.name,
    ensures
        inserted(members, m) == members.push(m),
    decreases members.len(),
{
    if members.len() > 0 {
        let rest = members.drop_first();
        assert forall|i: int| 0 <= i < rest.len() implies rest[i].name != m.name by {
            assert(rest[i] == members[i + 1]);
        }
        lemma_inserted_new(rest, m);
        assert(Seq::empty().push(members.first()) + rest.push(m) =~= members.push(m));
    } else {
        assert(Seq::<MemberValue>::empty().push(m) =~= members.push(m));
    }
}

/// `serde_json::from_str::<Value>`: the value holds the document that the
/// text is read as, and the call fails exactly on a text that is read as
/// none.
#[verifier::external_body]
fn value_from_text(text: &str) -> (r: Result<serde_json::Value, serde_json::Error>)
    ensures
        match r {
            Ok(v) => parsed_document(text@) == Some(value_tree(v)),
            Err(_) => parsed_document(text@) is None,
        },
{
    serde_json::from_str::<serde_json::Value>(text)
}

/// `serde_json::to_string` on a `Value`: it succeeds, since a `Value`
/// holds neither a map with a key that is no string nor an implementation
/// that may fail, and the text is the one written for the document that
/// the value holds.
#[verifier::external_body]
fn value_to_text(v: &serde_json::Value) -> (r: Result<String, serde_json::Error>)
    ensures
        r is Ok,
        r matches Ok(text) ==> text@ == document_text(value_tree(*v)),
{
    serde_json::to_string(v)
}

/// The variants of `serde_json::Value`, told apart: the shape holds what
/// the value holds.
#[verifier::external_body]
fn shape_of<'a>(v: &'a serde_json::Value) -> (s: Shape<'a>)
    ensures
        shape_tree(s) == value_tree(*v),
{
    match v {
        serde_json::Value::Null => Shape::Null,
        serde_json::Value::Bool(b) => Shape::Bool(*b),
        serde_json::Value::Number(n) => Shape::Number(n),
        serde_json::Value::String(t) => Shape::Text(t),
        serde_json::Value::Array(items) => Shape::Array(items),
        serde_json::Value::Object(m) => Shape::Object(m),
    }
}

/// The variants of `serde_json::Value`, built: the value holds what the
/// parts hold.
#[verifier::external_body]
fn value_of(p: Parts) -> (v: serde_json::Value)
    ensures
        value_tree(v) == parts_tree(p),
{
    match p {
        Parts::Null => serde_json::Value::Null,
        Parts::Bool(b) => serde_json::Value::Bool(b),
        Parts::Number(n) => serde_json::Value::Number(n),
        Parts::Text(t) => serde_json::Value::String(t),
        Parts::Array(items) => serde_json::Value::Array(items),
        Parts::Object(m) => serde_json::Value::Object(m),
    }
}

/// `Number::as_u64`: the integer, where the number is one that fits `u64`.
#[verifier::external_body]
fn number_as_u64(n: &serde_json::Number) -> (r: Option<u64>)
    ensures
        match r {
            Some(u) => number_value(*n) == NumberValue::Int(u as int),
            None => !(number_value(*n) matches NumberValue::Int(i) && 0 <= i <= u64::MAX),
        },
{
    n.as_u64()
}

/// `Number::as_i64`: the integer, where the number is one that fits `i64`.
#[verifier::external_body]
fn number_as_i64(n: &serde_json::Number) -> (r: Option<i64>)
    ensures
        match r {
            Some(i) => number_value(*n) == NumberValue::Int(i as int),
            None => !(number_value(*n) matches NumberValue::Int(i) && i64::MIN <= i <= i64::MAX),
        },
{
    n.as_i64()
}

/// The `Display` of `serde_json::Number`: a number is an integer that
/// fits `u64` or `i64`, or else it is held as the text that it is printed
/// as.
#[verifier::external_body]
fn number_text(n: &serde_json::Number) -> (r: String)
    ensures
        match number_value(*n) {
            NumberValue::Int(i) => i64::MIN <= i <= u64::MAX,
            NumberValue::Decimal(t) => t == r@,
        },
{
    n.to_string()
}

/// `Number::from` for `u64`: the number holds the integer.
#[verifier::external_body]
fn number_from_u64(u: u64) -> (n: serde_json::Number)
    ensures
        number_value(n) == NumberValue::Int(u as int),
{
    serde_json::Number::from(u)
}

/// `Number::from` for `i64`: the number holds the integer.
#[verifier::external_body]
fn number_from_i64(i: i64) -> (n: serde_json::Number)
    ensures
        number_value(n) == NumberValue::Int(i as int),
{
    serde_json::Number::from(i)
}

/// `serde_json::from_str::<Number>`: the number that a text is read as,
/// and `None` for a text that is read as no number.
#[verifier::external_body]
fn number_from_text(text: &str) -> (r: Option<serde_json::Number>)
    ensures
        match r {
            Some(n) => parsed_number(text@) == Some(number_value(n)),
            None => parsed_number(text@) is None,
        },
{
    serde_json::from_str::<serde_json::Number>(text).ok()
}

/// `Map::iter`: the entries come in the map's order.
#[verifier::external_body]
fn map_entries<'a>(m: &'a serde_json::Map<String, serde_json::Value>) -> (entries: Vec<
    (&'a String, &'a serde_json::Value),
>)
    ensures
        map_members(*m) == entries@.map_values(
            |e: (&String, &serde_json::Value)| MemberValue { name: e.0@, value: value_tree(*e.1) },
        ),
{
    m.iter().collect()
}

/// `Map::new`: a map without members.
#[verifier::external_body]
fn map_new() -> (m: serde_json::Map<String, serde_json::Value>)
    ensures
        map_members(m) == Seq::<MemberValue>::empty(),
{
    serde_json::Map::new()
}

/// `Map::insert`, with the map keeping the order of insertion: the value
/// of a name that is present is replaced where it stands, a new name is
/// appended.
#[verifier::external_body]
fn map_insert(
    m: &mut serde_json::Map<String, serde_json::Value>,
    name: String,
    value: serde_json::Value,
)
    ensures
        map_members(*final(m)) == inserted(
            map_members(*old(m)),
            MemberValue { name: name@, value: value_tree(value) },
        ),
{
    m.insert(name, value);
}

/// The document that is written for `j`: a decimal number is the number
/// that its text is read as, and the members of an object are written one
/// after the other into an object that holds each name once. `None` where
/// a decimal text inside `j` is read as no number.
pub open spec fn normal_form(j: JsonValue) -> Option<JsonValue>
    decreases j,
{
    match j {
        JsonValue::Number(NumberValue::Decimal(t)) => match parsed_number(t) {
            Some(n) => Some(JsonValue::Number(n)),
            None => None,
        },
        JsonValue::Array(items) => match normal_items(items) {
            Some(written) => Some(JsonValue::Array(written)),
            None => None,
        },
        JsonValue::Object(members) => match normal_members(members) {
            Some(written) => Some(JsonValue::Object(written)),
            None => None,
        },
        _ => Some(j),
    }
}

/// [`normal_form`] of each element of an array.
pub open spec fn normal_items(items: Seq<JsonValue>) -> Option<Seq<JsonValue>>
    decreases items,
{
    if items.len() == 0 {
        Some(Seq::empty())
    } else {
        match (normal_items(items.drop_last()), normal_form(items.last())) {
            (Some(front), Some(last)) => Some(front.push(last)),
            _ => None,
        }
    }
}

/// The members of an object as they are written: each in its
/// [`normal_form`], and [`inserted`] in turn.
pub open spec fn normal_members(members: Seq<MemberValue>) -> Option<Seq<MemberValue>>
    decreases members,
{
    if members.len() == 0 {
        Some(Seq::empty())
    } else {
        match (normal_members(members.drop_last()), normal_form(members.last().value)) {
            (Some(front), Some(last)) => Some(
                inserted(front, MemberValue { name: members.last().name, value: last }),
            ),
            _ => None,
        }
    }
}

/// The number that a number of `serde_json` holds, as a number of this
/// crate.
fn number_read(n: &serde_json::Number) -> (r: JsonNumber)
    ensures
        r@ == number_value(*n),
{
    match number_as_u64(n) {
        Some(u) => JsonNumber::Unsigned(u),
        None => match number_as_i64(n) {
            Some(i) => JsonNumber::Signed(i),
            None => JsonNumber::Decimal(number_text(n)),
        },
    }
}

/// A number of this crate as a number of `serde_json`, where its text is
/// read as one.
fn number_write(n: &JsonNumber) -> (r: Option<serde_json::Number>)
    ensures
        match *n {
            JsonNumber::Unsigned(u) => r matches Some(m) && number_value(m) == NumberValue::Int(
                u as int,
            ),
            JsonNumber::Signed(i) => r matches Some(m) && number_value(m) == NumberValue::Int(
                i as int,
            ),
            JsonNumber::Decimal(t) => match r {
                Some(m) => parsed_number(t@) == Some(number_value(m)),
                None => parsed_number(t@) is None,
            },
        },
{
    match n {
        JsonNumber::Unsigned(u) => Some(number_from_u64(*u)),
        JsonNumber::Signed(i) => Some(number_from_i64(*i)),
        JsonNumber::Decimal(t) => number_from_text(t.as_str()),
    }
}

/// The document that a value of `serde_json` holds, as a document of this
/// crate.
fn read_value(v: &serde_json::Value) -> (j: Json)
    ensures
        j@ == value_tree(*v),
    decreases value_tree(*v),
{
    match shape_of(v) {
        Shape::Null => Json::Null,
        Shape::Bool(b) => Json::Bool(b),
        Shape::Number(n) => Json::Number(number_read(n)),
        Shape::Text(t) => Json::Text(t.clone()),
        Shape::Array(items) => {
            let mut out: Vec<Json> = Vec::new();
            let mut i: usize = 0;
            while i < items.len()
                invariant
                    i <= items.len(),
                    out.len() == i,
                    value_tree(*v) == JsonValue::Array(trees(items@)),
                    forall|k: int| 0 <= k < i ==> out[k]@ == value_tree(items[k]),
                decreases items.len() - i,
            {
                assert(trees(items@)[i as int] == value_tree(items[i as int]));
                assert(decreases_to!(value_tree(*v) => value_tree(*v)->Array_0[i as int]));
                let item = read_value(&items[i]);
                out.push(item);
                i += 1;
            }
            proof {
                lemma_array_view(out);
                assert(items_view(out@) =~= trees(items@));
            }
            Json::Array(out)
        },
        Shape::Object(m) => {
            let entries = map_entries(m);
            let mut out: Vec<Member> = Vec::new();
            let mut i: usize = 0;
            while i < entries.len()
                invariant
                    i <= entries.len(),
                    out.len() == i,
                    value_tree(*v) == JsonValue::Object(map_members(*m)),
                    map_members(*m) == entries@.map_values(
                        |e: (&String, &serde_json::Value)|
                            MemberValue { name: e.0@, value: value_tree(*e.1) },
                    ),
                    forall|k: int| 0 <= k < i ==> out[k]@ == map_members(*m)[k],
                decreases entries.len() - i,
            {
                assert(map_members(*m)[i as int] == MemberValue {
                    name: entries[i as int].0@,
                    value: value_tree(*entries[i as int].1),
                });
                assert(decreases_to!(value_tree(*v) => value_tree(*v)->Object_0[i as int].value));
                let value = read_value(entries[i].1);
                out.push(Member { name: entries[i].0.clone(), value });
                i += 1;
            }
            proof {
                lemma_object_view(out);
                assert(members_view(out@) =~= map_members(*m));
            }
            Json::Object(out)
        },
    }
}

/// A document of this crate as a value of `serde_json`, where it can be
/// written.
fn write_value(j: &Json) -> (r: Option<serde_json::Value>)
    ensures
        match r {
            Some(v) => normal_form(j@) == Some(value_tree(v)),
            None => normal_form(j@) is None,
        },
    decreases j,
{
    match j {
        Json::Null => Some(value_of(Parts::Null)),
        Json::Bool(b) => Some(value_of(Parts::Bool(*b))),
        Json::Number(n) => match number_write(n) {
            Some(m) => Some(value_of(Parts::Number(m))),
            None => None,
        },
        Json::Text(t) => Some(value_of(Parts::Text(t.clone()))),
        Json::Array(items) => {
            let ghost all = items_view(items@);
            proof {
                lemma_array_view(*items);
            }
            let mut out: Vec<serde_json::Value> = Vec::new();
            let mut i: usize = 0;
            while i < items.len()
                invariant
                    i <= items.len(),
                    *j == Json::Array(*items),
                    j@ == JsonValue::Array(all),
                    all == items_view(items@),
                    normal_items(all.take(i as int)) == Some(trees(out@)),
                decreases items.len() - i,
            {
                proof {
                    assert(all.take(i + 1).drop_last() =~= all.take(i as int));
                    assert(all.take(i + 1).last() == items[i as int]@);
                }
                match write_value(&items[i]) {
                    Some(v) => {
                        proof {
                            assert(trees(out@.push(v)) =~= trees(out@).push(value_tree(v)));
                        }
                        out.push(v);
                    },
                    None => {
                        proof {
                            lemma_normal_items_prefix(all, i + 1);
                        }
                        return None;
                    },
                }
                i += 1;
            }
            assert(all.take(i as int) =~= all);
            Some(value_of(Parts::Array(out)))
        },
        Json::Object(members) => {
            let ghost all = members_view(members@);
            proof {
                lemma_object_view(*members);
            }
            let mut out = map_new();
            let mut i: usize = 0;
            while i < members.len()
                invariant
                    i <= members.len(),
                    *j == Json::Object(*members),
                    j@ == JsonValue::Object(all),
                    all == members_view(members@),
                    normal_members(all.take(i as int)) == Some(map_members(out)),
                decreases members.len() - i,
            {
                proof {
                    assert(all.take(i + 1).drop_last() =~= all.take(i as int));
                    assert(all.take(i + 1).last() == members[i as int]@);
                }
                match write_value(&members[i].value) {
                    Some(v) => {
                        map_insert(&mut out, members[i].name.clone(), v);
                    },
                    None => {
                        proof {
                            lemma_normal_members_prefix(all, i + 1);
                        }
                        return None;
                    },
                }
                i += 1;
            }
            assert(all.take(i as int) =~= all);
            Some(value_of(Parts::Object(out)))
        },
    }
}

/// Where a prefix of an array cannot be written, the array cannot.
proof fn lemma_normal_items_prefix(items: Seq<JsonValue>, n: int)
    requires
        0 <= n <= items.len(),
        normal_items(items.take(n)) is None,
    ensures
        normal_items(items) is None,
    decreases items.len() - n,
{
    if n < items.len() {
        assert(items.take(n + 1).drop_last() =~= items.take(n));
        lemma_normal_items_prefix(items, n + 1);
    } else {
        assert(items.take(n) =~= items);
    }
}

/// Where a prefix of an object's members cannot be written, the object
/// cannot.
proof fn lemma_normal_members_prefix(members: Seq<MemberValue>, n: int)
    requires
        0 <= n <= members.len(),
        normal_members(members.take(n)) is None,
    ensures
        normal_members(members) is None,
    decreases members.len() - n,
{
    if n < members.len() {
        assert(members.take(n + 1).drop_last() =~= members.take(n));
        lemma_normal_members_prefix(members, n + 1);
    } else {
        assert(members.take(n) =~= members);
    }
}

/// What reading a text gives, for each outcome of the parser: its
/// document, or a syntax failure at the root.
pub fn document_read(parsed: Result<Json, serde_json::Error>) -> (r: Result<Json, DecodeError>)
    ensures
        match parsed {
            Ok(j) => r == Ok::<Json, DecodeError>(j),
            Err(_) => r matches Err(e) && e@ == Failure::here(DecodeCause::Syntax),
        },
{
    match parsed {
        Ok(j) => Ok(j),
        Err(_) => Err(DecodeError::here(DecodeCause::Syntax)),
    }
}

/// What writing a document gives, for each outcome of the writer: its
/// text, or an encode failure.
pub fn document_written(written: Result<String, serde_json::Error>) -> (r: Result<
    String,
    CodecError,
>)
    ensures
        match written {
            Ok(text) => r == Ok::<String, CodecError>(text),
            Err(_) => r matches Err(e) && e@ == CodecErrorValue::EncodeFailure,
        },
{
    match written {
        Ok(text) => Ok(text),
        Err(_) => Err(CodecError::EncodeFailure),
    }
}

impl Json {
    /// Reads a JSON text. The result is the document that the text is
    /// read as; a text that is no JSON document gives a syntax failure at
    /// the root.
    pub fn from_text(text: &str) -> (r: Result<Json, DecodeError>)
        ensures
            match parsed_document(text@) {
                Some(tree) => r matches Ok(j) && j@ == tree,
                None => r matches Err(e) && e@ == Failure::here(DecodeCause::Syntax),
            },
    {
        match value_from_text(text) {
            Ok(v) => document_read(Ok(read_value(&v))),
            Err(e) => document_read(Err(e)),
        }
    }

    /// Writes the document as JSON text: the text of its [`normal_form`].
    /// A document that has none is an encode failure.
    pub fn to_text(&self) -> (r: Result<String, CodecError>)
        ensures
            match normal_form(self@) {
                Some(tree) => r matches Ok(text) && text@ == document_text(tree),
                None => r matches Err(e) && e@ == CodecErrorValue::EncodeFailure,
            },
    {
        match write_value(self) {
            Some(v) => document_written(value_to_text(&v)),
            None => Err(CodecError::EncodeFailure),
        }
    }
}

} // verus!
