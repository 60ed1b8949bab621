//! The building blocks of every codec: how a member of an object is
//! written and how it is read back, with the failure that each misshapen
//! value gives.

use vstd::prelude::*;
use crate::error::{decoded, DecodeCause, DecodeError, Failure};
use crate::json::{
    items_view, lemma_array_view, lemma_object_view, lookup, members_view, str_eq, Json,
    JsonNumber, JsonValue, Member, MemberValue, NumberValue,
};

verus! {

/// The member `name: value`.
pub open spec fn member(name: Seq<char>, value: JsonValue) -> MemberValue {
    MemberValue { name, value }
}

/// A string as a document.
pub open spec fn text(s: Seq<char>) -> JsonValue {
    JsonValue::Text(s)
}

/// A count as a document.
pub open spec fn count(n: usize) -> JsonValue {
    JsonValue::Number(NumberValue::Int(n as int))
}

/// A truth value as a document.
pub open spec fn flag(b: bool) -> JsonValue {
    JsonValue::Bool(b)
}

/// A list of strings as a document.
pub open spec fn texts(list: Seq<Seq<char>>) -> JsonValue {
    JsonValue::Array(list.map_values(|s: Seq<char>| text(s)))
}

/// An optional string as a document: `null` where there is none.
pub open spec fn opt_text(s: Option<Seq<char>>) -> JsonValue {
    match s {
        Some(s) => text(s),
        None => JsonValue::Null,
    }
}

/// An optional count as a document: `null` where there is none.
pub open spec fn opt_count(n: Option<usize>) -> JsonValue {
    match n {
        Some(n) => count(n),
        None => JsonValue::Null,
    }
}

/// An optional truth value as a document: `null` where there is none.
pub open spec fn opt_flag(b: Option<bool>) -> JsonValue {
    match b {
        Some(b) => flag(b),
        None => JsonValue::Null,
    }
}

/// The failure `e`, seen from the member `name` of the enclosing object.
pub open spec fn under<T>(name: Seq<char>, r: Result<T, Failure>) -> Result<T, Failure> {
    match r {
        Ok(v) => Ok(v),
        Err(e) => Err(e.within_key(name)),
    }
}

/// The failure `e`, seen from element `i` of the enclosing array.
pub open spec fn at<T>(i: int, r: Result<T, Failure>) -> Result<T, Failure> {
    match r {
        Ok(v) => Ok(v),
        Err(e) => Err(e.within_index(i as nat)),
    }
}

/// The member `name`, which has to be there.
pub open spec fn required(members: Seq<MemberValue>, name: Seq<char>) -> Result<JsonValue, Failure> {
    match lookup(members, name) {
        Some(v) => Ok(v),
        None => Err(Failure::here(DecodeCause::MissingField).within_key(name)),
    }
}

/// The member `name`, where it is there and not `null`.
pub open spec fn present(members: Seq<MemberValue>, name: Seq<char>) -> Option<JsonValue> {
    match lookup(members, name) {
        Some(JsonValue::Null) => None,
        Some(v) => Some(v),
        None => None,
    }
}

pub open spec fn as_text(j: JsonValue) -> Result<Seq<char>, Failure> {
    match j {
        JsonValue::Text(s) => Ok(s),
        _ => Err(Failure::here(DecodeCause::TypeMismatch)),
    }
}

pub open spec fn as_flag(j: JsonValue) -> Result<bool, Failure> {
    match j {
        JsonValue::Bool(b) => Ok(b),
        _ => Err(Failure::here(DecodeCause::TypeMismatch)),
    }
}

/// A count: an integer from 0 to the largest `usize`.
pub open spec fn as_count(j: JsonValue) -> Result<usize, Failure> {
    match j {
        JsonValue::Number(NumberValue::Int(i)) if 0 <= i <= usize::MAX => Ok(i as usize),
        _ => Err(Failure::here(DecodeCause::TypeMismatch)),
    }
}

pub open spec fn as_items(j: JsonValue) -> Result<Seq<JsonValue>, Failure> {
    match j {
        JsonValue::Array(items) => Ok(items),
        _ => Err(Failure::here(DecodeCause::TypeMismatch)),
    }
}

pub open spec fn as_members(j: JsonValue) -> Result<Seq<MemberValue>, Failure> {
    match j {
        JsonValue::Object(members) => Ok(members),
        _ => Err(Failure::here(DecodeCause::TypeMismatch)),
    }
}

/// Whether `read` accepts every element of `items`.
pub open spec fn all_read<T>(items: Seq<JsonValue>, read: spec_fn(JsonValue) -> Result<T, Failure>) -> bool {
    forall|i: int| 0 <= i < items.len() ==> (#[trigger] read(items[i])) is Ok
}

/// Whether `i` is the first element of `items` that `read` refuses.
pub open spec fn first_refused<T>(
    items: Seq<JsonValue>,
    read: spec_fn(JsonValue) -> Result<T, Failure>,
    i: int,
) -> bool {
    &&& 0 <= i < items.len()
    &&& read(items[i]) is Err
    &&& forall|k: int| 0 <= k < i ==> (#[trigger] read(items[k])) is Ok
}

/// Every element of `items`, read by `read`: the list of what was read,
/// or the failure of the first element that is refused, seen from its
/// index.
pub open spec fn read_all<T>(
    items: Seq<JsonValue>,
    read: spec_fn(JsonValue) -> Result<T, Failure>,
) -> Result<Seq<T>, Failure> {
    if all_read(items, read) {
        Ok(Seq::new(items.len(), |i: int| read(items[i])->Ok_0))
    } else {
        let i = choose|i: int| first_refused(items, read, i);
        Err(read(items[i])->Err_0.within_index(i as nat))
    }
}

/// What [`read_all`] gives once the first `n` elements were accepted and
/// element `n` is refused.
pub proof fn lemma_read_all_refused<T>(
    items: Seq<JsonValue>,
    read: spec_fn(JsonValue) -> Result<T, Failure>,
    n: int,
)
    requires
        first_refused(items, read, n),
    ensures
        read_all(items, read) == Err::<Seq<T>, Failure>(
            read(items[n])->Err_0.within_index(n as nat),
        ),
{
    let i = choose|i: int| first_refused(items, read, i);
    assert(first_refused(items, read, i));
    if i < n {
        assert(read(items[i]) is Ok);
    }
    if n < i {
        assert(read(items[n]) is Ok);
    }
}

/// What [`read_all`] gives once every element was accepted.
pub proof fn lemma_read_all_accepted<T>(
    items: Seq<JsonValue>,
    read: spec_fn(JsonValue) -> Result<T, Failure>,
    out: Seq<T>,
)
    requires
        out.len() == items.len(),
        forall|i: int| 0 <= i < items.len() ==> (#[trigger] read(items[i])) == Ok::<T, Failure>(out[i]),
    ensures
        read_all(items, read) == Ok::<Seq<T>, Failure>(out),
{
    assert(all_read(items, read));
    assert(Seq::new(items.len(), |i: int| read(items[i])->Ok_0) =~= out);
}

/// The member `name`, which has to be there, read by `read`.
pub open spec fn field_with<T>(
    members: Seq<MemberValue>,
    name: Seq<char>,
    read: spec_fn(JsonValue) -> Result<T, Failure>,
) -> Result<T, Failure> {
    match required(members, name) {
        Ok(v) => under(name, read(v)),
        Err(e) => Err(e),
    }
}

/// The member `name`, read by `read` where it is there and not `null`.
pub open spec fn opt_field_with<T>(
    members: Seq<MemberValue>,
    name: Seq<char>,
    read: spec_fn(JsonValue) -> Result<T, Failure>,
) -> Result<Option<T>, Failure> {
    match present(members, name) {
        Some(v) => match read(v) {
            Ok(x) => Ok(Some(x)),
            Err(e) => Err(e.within_key(name)),
        },
        None => Ok(None),
    }
}

/// The member `name`, which has to be an array, each element read by
/// `read`.
pub open spec fn list_field_with<T>(
    members: Seq<MemberValue>,
    name: Seq<char>,
    read: spec_fn(JsonValue) -> Result<T, Failure>,
) -> Result<Seq<T>, Failure> {
    match items_field(members, name) {
        Ok(items) => under(name, read_all(items, read)),
        Err(e) => Err(e),
    }
}

/// A list of strings.
pub open spec fn as_texts(j: JsonValue) -> Result<Seq<Seq<char>>, Failure> {
    match as_items(j) {
        Ok(items) => read_all(items, |x: JsonValue| as_text(x)),
        Err(e) => Err(e),
    }
}

/// An optional number as a document: `null` where there is none.
pub open spec fn opt_number(n: Option<NumberValue>) -> JsonValue {
    match n {
        Some(n) => JsonValue::Number(n),
        None => JsonValue::Null,
    }
}

/// An optional document as a document: `null` where there is none.
pub open spec fn opt_json(j: Option<JsonValue>) -> JsonValue {
    match j {
        Some(j) => j,
        None => JsonValue::Null,
    }
}

pub open spec fn opt_number_field(members: Seq<MemberValue>, name: Seq<char>) -> Result<
    Option<NumberValue>,
    Failure,
> {
    match present(members, name) {
        Some(v) => match as_number(v) {
            Ok(n) => Ok(Some(n)),
            Err(e) => Err(e.within_key(name)),
        },
        None => Ok(None),
    }
}

/// The member `name` as it is, where it is there and not `null`.
pub open spec fn opt_json_field(members: Seq<MemberValue>, name: Seq<char>) -> Result<
    Option<JsonValue>,
    Failure,
> {
    Ok(present(members, name))
}

/// A list of strings, or none where the member is absent or `null`.
pub open spec fn texts_or_empty_field(members: Seq<MemberValue>, name: Seq<char>) -> Result<
    Seq<Seq<char>>,
    Failure,
> {
    match present(members, name) {
        Some(v) => under(name, as_texts(v)),
        None => Ok(Seq::empty()),
    }
}

/// Named entries as a document: an object with one member for each, in
/// order.
pub open spec fn named<T>(entries: Seq<(Seq<char>, T)>, wire: spec_fn(T) -> JsonValue) -> JsonValue {
    JsonValue::Object(entries.map_values(|e: (Seq<char>, T)| member(e.0, wire(e.1))))
}

/// The place of the first entry with the given name.
pub open spec fn entry_position<T>(entries: Seq<(Seq<char>, T)>, name: Seq<char>) -> Option<int>
    decreases entries.len(),
{
    if entries.len() == 0 {
        None
    } else {
        match entry_position(entries.drop_last(), name) {
            Some(i) => Some(i),
            None => if entries.last().0 == name {
                Some(entries.len() - 1)
            } else {
                None
            },
        }
    }
}

/// The entries after `name` was given `value`: an entry with that name
/// keeps its place and takes the value, a new name goes to the end.
pub open spec fn with_named<T>(entries: Seq<(Seq<char>, T)>, name: Seq<char>, value: T) -> Seq<
    (Seq<char>, T),
> {
    match entry_position(entries, name) {
        Some(i) => entries.update(i, (name, value)),
        None => entries.push((name, value)),
    }
}

/// Whether no name occurs twice among the entries.
pub open spec fn distinct_names<T>(entries: Seq<(Seq<char>, T)>) -> bool {
    forall|i: int, j: int| 0 <= i < j < entries.len() ==> entries[i].0 != entries[j].0
}

/// The members of an object, each value read by `read` and put among the
/// entries under its name, so that a name that occurs twice keeps its
/// first place and its last value: the entries, or the failure of the
/// first value that is refused, seen from its name.
pub open spec fn read_named<T>(
    members: Seq<MemberValue>,
    read: spec_fn(JsonValue) -> Result<T, Failure>,
) -> Result<Seq<(Seq<char>, T)>, Failure>
    decreases members.len(),
{
    if members.len() == 0 {
        Ok(Seq::empty())
    } else {
        match read_named(members.drop_last(), read) {
            Ok(front) => match read(members.last().value) {
                Ok(v) => Ok(with_named(front, members.last().name, v)),
                Err(e) => Err(e.within_key(members.last().name)),
            },
            Err(e) => Err(e),
        }
    }
}

/// An object, each value read by `read`.
pub open spec fn as_named<T>(j: JsonValue, read: spec_fn(JsonValue) -> Result<T, Failure>) -> Result<
    Seq<(Seq<char>, T)>,
    Failure,
> {
    match as_members(j) {
        Ok(members) => read_named(members, read),
        Err(e) => Err(e),
    }
}

/// A list of lists of strings as a document.
pub open spec fn text_lists(lists: Seq<Seq<Seq<char>>>) -> JsonValue {
    JsonValue::Array(lists.map_values(|l: Seq<Seq<char>>| texts(l)))
}

/// A list of lists of strings.
pub open spec fn as_text_lists(j: JsonValue) -> Result<Seq<Seq<Seq<char>>>, Failure> {
    match as_items(j) {
        Ok(items) => read_all(items, |x: JsonValue| as_texts(x)),
        Err(e) => Err(e),
    }
}

pub open spec fn text_lists_field(members: Seq<MemberValue>, name: Seq<char>) -> Result<
    Seq<Seq<Seq<char>>>,
    Failure,
> {
    match required(members, name) {
        Ok(v) => under(name, as_text_lists(v)),
        Err(e) => Err(e),
    }
}

pub open spec fn text_field(members: Seq<MemberValue>, name: Seq<char>) -> Result<Seq<char>, Failure> {
    match required(members, name) {
        Ok(v) => under(name, as_text(v)),
        Err(e) => Err(e),
    }
}

pub open spec fn flag_field(members: Seq<MemberValue>, name: Seq<char>) -> Result<bool, Failure> {
    match required(members, name) {
        Ok(v) => under(name, as_flag(v)),
        Err(e) => Err(e),
    }
}

pub open spec fn count_field(members: Seq<MemberValue>, name: Seq<char>) -> Result<usize, Failure> {
    match required(members, name) {
        Ok(v) => under(name, as_count(v)),
        Err(e) => Err(e),
    }
}

pub open spec fn texts_field(members: Seq<MemberValue>, name: Seq<char>) -> Result<
    Seq<Seq<char>>,
    Failure,
> {
    match required(members, name) {
        Ok(v) => under(name, as_texts(v)),
        Err(e) => Err(e),
    }
}

pub open spec fn items_field(members: Seq<MemberValue>, name: Seq<char>) -> Result<
    Seq<JsonValue>,
    Failure,
> {
    match required(members, name) {
        Ok(v) => under(name, as_items(v)),
        Err(e) => Err(e),
    }
}

pub open spec fn opt_text_field(members: Seq<MemberValue>, name: Seq<char>) -> Result<
    Option<Seq<char>>,
    Failure,
> {
    match present(members, name) {
        Some(v) => match as_text(v) {
            Ok(s) => Ok(Some(s)),
            Err(e) => Err(e.within_key(name)),
        },
        None => Ok(None),
    }
}

pub open spec fn opt_count_field(members: Seq<MemberValue>, name: Seq<char>) -> Result<
    Option<usize>,
    Failure,
> {
    match present(members, name) {
        Some(v) => match as_count(v) {
            Ok(n) => Ok(Some(n)),
            Err(e) => Err(e.within_key(name)),
        },
        None => Ok(None),
    }
}

pub open spec fn opt_flag_field(members: Seq<MemberValue>, name: Seq<char>) -> Result<
    Option<bool>,
    Failure,
> {
    match present(members, name) {
        Some(v) => match as_flag(v) {
            Ok(b) => Ok(Some(b)),
            Err(e) => Err(e.within_key(name)),
        },
        None => Ok(None),
    }
}

/// The values of a list.
pub open spec fn list_view<T: View>(list: Seq<T>) -> Seq<T::V> {
    list.map_values(|x: T| x@)
}

/// The value of what may be there.
pub open spec fn opt_view<T: View>(o: Option<T>) -> Option<T::V> {
    match o {
        Some(x) => Some(x@),
        None => None,
    }
}

/// The value of a result whose success is a list.
pub open spec fn decoded_list<T: View>(r: Result<Vec<T>, DecodeError>) -> Result<
    Seq<T::V>,
    Failure,
> {
    match r {
        Ok(v) => Ok(list_view(v@)),
        Err(e) => Err(e@),
    }
}

/// A number, as it stands in the document.
pub open spec fn as_number(j: JsonValue) -> Result<NumberValue, Failure> {
    match j {
        JsonValue::Number(n) => Ok(n),
        _ => Err(Failure::here(DecodeCause::TypeMismatch)),
    }
}

pub open spec fn number_field(members: Seq<MemberValue>, name: Seq<char>) -> Result<
    NumberValue,
    Failure,
> {
    match required(members, name) {
        Ok(v) => under(name, as_number(v)),
        Err(e) => Err(e),
    }
}

/// The views of a list of strings.
pub open spec fn strings_view(list: Seq<String>) -> Seq<Seq<char>> {
    list.map_values(|s: String| s@)
}

/// The names and values of a list of named entries.
pub open spec fn named_view<T: View>(entries: Seq<(String, T)>) -> Seq<(Seq<char>, T::V)> {
    entries.map_values(|e: (String, T)| (e.0@, e.1@))
}

/// The value of a result whose success is a list of named entries.
pub open spec fn decoded_named<T: View>(r: Result<Vec<(String, T)>, DecodeError>) -> Result<
    Seq<(Seq<char>, T::V)>,
    Failure,
> {
    match r {
        Ok(v) => Ok(named_view(v@)),
        Err(e) => Err(e@),
    }
}

/// The views of a list of lists of strings.
pub open spec fn string_lists_view(lists: Seq<Vec<String>>) -> Seq<Seq<Seq<char>>> {
    lists.map_values(|l: Vec<String>| strings_view(l@))
}

/// The value of a result whose success is a list of lists of strings.
pub open spec fn decoded_string_lists(r: Result<Vec<Vec<String>>, DecodeError>) -> Result<
    Seq<Seq<Seq<char>>>,
    Failure,
> {
    match r {
        Ok(v) => Ok(string_lists_view(v@)),
        Err(e) => Err(e@),
    }
}

/// The views of a list of string slices.
pub open spec fn strs_view(list: Seq<&str>) -> Seq<Seq<char>> {
    list.map_values(|s: &str| s@)
}

/// The value of a result whose success is a list of strings.
pub open spec fn decoded_strings(r: Result<Vec<String>, DecodeError>) -> Result<
    Seq<Seq<char>>,
    Failure,
> {
    match r {
        Ok(v) => Ok(strings_view(v@)),
        Err(e) => Err(e@),
    }
}

/// The value of a result whose success is an optional string.
pub open spec fn decoded_opt_string(r: Result<Option<String>, DecodeError>) -> Result<
    Option<Seq<char>>,
    Failure,
> {
    match r {
        Ok(Some(s)) => Ok(Some(s@)),
        Ok(None) => Ok(None),
        Err(e) => Err(e@),
    }
}

/// The value of a result whose success is a string.
pub open spec fn decoded_string(r: Result<String, DecodeError>) -> Result<Seq<char>, Failure> {
    match r {
        Ok(s) => Ok(s@),
        Err(e) => Err(e@),
    }
}

/// The value of a result whose success is a plain value.
pub open spec fn decoded_plain<T>(r: Result<T, DecodeError>) -> Result<T, Failure> {
    match r {
        Ok(v) => Ok(v),
        Err(e) => Err(e@),
    }
}

/// A member that is absent and a member that is `null` are read alike
/// where the member is optional: as nothing.
pub proof fn lemma_null_is_absent(members: Seq<MemberValue>, name: Seq<char>)
    requires
        lookup(members, name) is None || lookup(members, name) == Some(JsonValue::Null),
    ensures
        present(members, name) is None,
        opt_text_field(members, name) == Ok::<Option<Seq<char>>, Failure>(None),
        opt_count_field(members, name) == Ok::<Option<usize>, Failure>(None),
        opt_flag_field(members, name) == Ok::<Option<bool>, Failure>(None),
        opt_number_field(members, name) == Ok::<Option<NumberValue>, Failure>(None),
        opt_json_field(members, name) == Ok::<Option<JsonValue>, Failure>(None),
        texts_or_empty_field(members, name) == Ok::<Seq<Seq<char>>, Failure>(Seq::empty()),
{
}

/// A member that is required and absent is a missing field, reported
/// under its name.
pub proof fn lemma_absent_is_missing(members: Seq<MemberValue>, name: Seq<char>)
    requires
        lookup(members, name) is None,
    ensures
        required(members, name) == Err::<JsonValue, Failure>(
            Failure::here(DecodeCause::MissingField).within_key(name),
        ),
        text_field(members, name) == Err::<Seq<char>, Failure>(
            Failure::here(DecodeCause::MissingField).within_key(name),
        ),
        count_field(members, name) == Err::<usize, Failure>(
            Failure::here(DecodeCause::MissingField).within_key(name),
        ),
        flag_field(members, name) == Err::<bool, Failure>(
            Failure::here(DecodeCause::MissingField).within_key(name),
        ),
{
}

/// A member of another name changes nothing of what is read under a
/// name, wherever it stands among the members.
pub proof fn lemma_other_member_is_passed_over(
    members: Seq<MemberValue>,
    at: int,
    other: MemberValue,
    name: Seq<char>,
)
    requires
        0 <= at <= members.len(),
        other.name != name,
    ensures
        lookup(members.insert(at, other), name) == lookup(members, name),
    decreases members.len() - at,
{
    let all = members.insert(at, other);
    if at == members.len() {
        assert(all =~= members.push(other));
        assert(all.drop_last() =~= members);
    } else {
        assert(all.last() == members.last());
        assert(all.drop_last() =~= members.drop_last().insert(at, other));
        lemma_other_member_is_passed_over_front(members, at, other, name);
    }
}

proof fn lemma_other_member_is_passed_over_front(
    members: Seq<MemberValue>,
    at: int,
    other: MemberValue,
    name: Seq<char>,
)
    requires
        0 <= at < members.len(),
        other.name != name,
    ensures
        lookup(members.drop_last().insert(at, other), name) == lookup(members.drop_last(), name),
    decreases members.len(),
{
    let front = members.drop_last();
    if at == front.len() {
        assert(front.insert(at, other) =~= front.push(other));
        assert(front.push(other).drop_last() =~= front);
    } else {
        assert(front.insert(at, other).last() == front.last());
        assert(front.insert(at, other).drop_last() =~= front.drop_last().insert(at, other));
        lemma_other_member_is_passed_over_front(front, at, other, name);
    }
}

/// [`read_all`] of no elements.
pub proof fn lemma_read_all_empty<T>(
    items: Seq<JsonValue>,
    read: spec_fn(JsonValue) -> Result<T, Failure>,
)
    requires
        items.len() == 0,
    ensures
        read_all(items, read) == Ok::<Seq<T>, Failure>(Seq::empty()),
{
    lemma_read_all_accepted(items, read, Seq::empty());
}

/// [`read_all`], one element at a time: the elements before the last are
/// read first, and their failure comes first.
pub proof fn lemma_read_all_step<T>(
    items: Seq<JsonValue>,
    read: spec_fn(JsonValue) -> Result<T, Failure>,
)
    requires
        items.len() > 0,
    ensures
        read_all(items, read) == match read_all(items.drop_last(), read) {
            Ok(front) => match read(items.last()) {
                Ok(v) => Ok(front.push(v)),
                Err(e) => Err(e.within_index((items.len() - 1) as nat)),
            },
            Err(e) => Err(e),
        },
{
    let front = items.drop_last();
    let n = items.len() - 1;
    if all_read(front, read) {
        assert forall|k: int| 0 <= k < n implies (#[trigger] read(items[k])) is Ok by {
            assert(read(front[k]) is Ok);
        }
        if read(items.last()) is Ok {
            assert(all_read(items, read));
            assert(read_all(items, read)->Ok_0 =~= read_all(front, read)->Ok_0.push(
                read(items.last())->Ok_0,
            ));
        } else {
            assert(first_refused(items, read, n));
            lemma_read_all_refused(items, read, n);
        }
    } else {
        lemma_first_refused_exists(front, read);
        let i = choose|i: int| first_refused(front, read, i);
        lemma_read_all_refused(front, read, i);
        assert(first_refused(items, read, i)) by {
            assert(read(front[i]) is Err);
            assert forall|k: int| 0 <= k < i implies (#[trigger] read(items[k])) is Ok by {
                assert(read(front[k]) is Ok);
            }
        }
        lemma_read_all_refused(items, read, i);
    }
}

/// Where not every element is accepted, one is the first to be refused.
pub proof fn lemma_first_refused_exists<T>(
    items: Seq<JsonValue>,
    read: spec_fn(JsonValue) -> Result<T, Failure>,
)
    requires
        !all_read(items, read),
    ensures
        exists|n: int| first_refused(items, read, n),
{
    let bad = choose|i: int| 0 <= i < items.len() && !((#[trigger] read(items[i])) is Ok);
    lemma_first_refused_below(items, read, bad);
}

proof fn lemma_first_refused_below<T>(
    items: Seq<JsonValue>,
    read: spec_fn(JsonValue) -> Result<T, Failure>,
    bad: int,
)
    requires
        0 <= bad < items.len(),
        read(items[bad]) is Err,
    ensures
        exists|n: int| first_refused(items, read, n),
    decreases bad,
{
    if forall|k: int| 0 <= k < bad ==> (#[trigger] read(items[k])) is Ok {
        assert(first_refused(items, read, bad));
    } else {
        let k = choose|k: int| 0 <= k < bad && !((#[trigger] read(items[k])) is Ok);
        lemma_first_refused_below(items, read, k);
    }
}

/// Reading back a list of strings that was written gives the list again.
pub proof fn lemma_texts_round_trip(list: Seq<Seq<char>>)
    ensures
        as_texts(texts(list)) == Ok::<Seq<Seq<char>>, Failure>(list),
{
    let items = list.map_values(|s: Seq<char>| text(s));
    lemma_read_all_accepted(items, |x: JsonValue| as_text(x), list);
}

/// [`entry_position`] is the first place of the name, and there is none
/// exactly where the name does not occur.
pub proof fn lemma_entry_position<T>(entries: Seq<(Seq<char>, T)>, name: Seq<char>)
    ensures
        match entry_position(entries, name) {
            Some(i) => 0 <= i < entries.len() && entries[i].0 == name && forall|k: int|
                0 <= k < i ==> entries[k].0 != name,
            None => forall|k: int| 0 <= k < entries.len() ==> entries[k].0 != name,
        },
    decreases entries.len(),
{
    if entries.len() > 0 {
        let front = entries.drop_last();
        lemma_entry_position(front, name);
        match entry_position(front, name) {
            Some(i) => {
                assert(entries[i] == front[i]);
                assert forall|k: int| 0 <= k < i implies entries[k].0 != name by {
                    assert(front[k].0 != name);
                }
            },
            None => {
                assert forall|k: int| 0 <= k < front.len() implies entries[k].0 != name by {
                    assert(front[k].0 != name);
                }
            },
        }
    }
}

/// A name that is found in a prefix is found at the same place in the
/// whole.
pub proof fn lemma_entry_position_prefix<T>(entries: Seq<(Seq<char>, T)>, name: Seq<char>, n: int)
    requires
        0 <= n <= entries.len(),
        entry_position(entries.take(n), name) is Some,
    ensures
        entry_position(entries, name) == entry_position(entries.take(n), name),
    decreases entries.len() - n,
{
    if n < entries.len() {
        assert(entries.take(n + 1).drop_last() =~= entries.take(n));
        lemma_entry_position_prefix(entries, name, n + 1);
    } else {
        assert(entries.take(n) =~= entries);
    }
}

/// Giving a name a value keeps the names apart.
pub proof fn lemma_with_named_distinct<T>(entries: Seq<(Seq<char>, T)>, name: Seq<char>, value: T)
    requires
        distinct_names(entries),
    ensures
        distinct_names(with_named(entries, name, value)),
{
    lemma_entry_position(entries, name);
}

/// What [`read_named`] gives holds no name twice.
pub proof fn lemma_read_named_distinct<T>(
    members: Seq<MemberValue>,
    read: spec_fn(JsonValue) -> Result<T, Failure>,
)
    ensures
        read_named(members, read) matches Ok(entries) ==> distinct_names(entries),
    decreases members.len(),
{
    if members.len() > 0 {
        lemma_read_named_distinct(members.drop_last(), read);
        if read_named(members, read) is Ok {
            let front = read_named(members.drop_last(), read)->Ok_0;
            lemma_with_named_distinct(
                front,
                members.last().name,
                read(members.last().value)->Ok_0,
            );
        }
    }
}

/// Reading back named entries that were written gives the entries
/// again, if no name occurs twice and each value is read back as it is.
pub proof fn lemma_named_round_trip<T>(
    entries: Seq<(Seq<char>, T)>,
    wire: spec_fn(T) -> JsonValue,
    read: spec_fn(JsonValue) -> Result<T, Failure>,
)
    requires
        distinct_names(entries),
        forall|i: int|
            0 <= i < entries.len() ==> read(wire(#[trigger] entries[i].1)) == Ok::<T, Failure>(
                entries[i].1,
            ),
    ensures
        as_named(named(entries, wire), read) == Ok::<Seq<(Seq<char>, T)>, Failure>(entries),
    decreases entries.len(),
{
    let members = entries.map_values(|e: (Seq<char>, T)| member(e.0, wire(e.1)));
    if entries.len() > 0 {
        let front = entries.drop_last();
        assert forall|i: int| 0 <= i < front.len() implies read(wire(#[trigger] front[i].1)) == Ok::<
            T,
            Failure,
        >(front[i].1) by {
            assert(front[i] == entries[i]);
        }
        assert(distinct_names(front)) by {
            assert forall|i: int, j: int| 0 <= i < j < front.len() implies front[i].0
                != front[j].0 by {
                assert(front[i] == entries[i] && front[j] == entries[j]);
            }
        }
        lemma_named_round_trip(front, wire, read);
        assert(members.drop_last() =~= front.map_values(
            |e: (Seq<char>, T)| member(e.0, wire(e.1)),
        ));
        assert(entries[entries.len() - 1] == entries.last());
        lemma_entry_position(front, entries.last().0);
        assert(entry_position(front, entries.last().0) is None) by {
            if entry_position(front, entries.last().0) is Some {
                let i = entry_position(front, entries.last().0)->Some_0;
                assert(front[i] == entries[i]);
            }
        }
        assert(front.push(entries.last()) =~= entries);
    } else {
        assert(entries =~= Seq::empty());
    }
}

/// Where a prefix of the members cannot be read, the members cannot, and
/// the failure is the same.
pub proof fn lemma_read_named_prefix<T>(
    members: Seq<MemberValue>,
    read: spec_fn(JsonValue) -> Result<T, Failure>,
    n: int,
)
    requires
        0 <= n <= members.len(),
        read_named(members.take(n), read) is Err,
    ensures
        read_named(members, read) == read_named(members.take(n), read),
    decreases members.len() - n,
{
    if n < members.len() {
        assert(members.take(n + 1).drop_last() =~= members.take(n));
        lemma_read_named_prefix(members, read, n + 1);
    } else {
        assert(members.take(n) =~= members);
    }
}

/// Reading back a list of lists of strings that was written gives the
/// list again.
pub proof fn lemma_text_lists_round_trip(lists: Seq<Seq<Seq<char>>>)
    ensures
        as_text_lists(text_lists(lists)) == Ok::<Seq<Seq<Seq<char>>>, Failure>(lists),
{
    let items = lists.map_values(|l: Seq<Seq<char>>| texts(l));
    let read = |x: JsonValue| as_texts(x);
    assert forall|i: int| 0 <= i < items.len() implies (#[trigger] read(items[i])) == Ok::<
        Seq<Seq<char>>,
        Failure,
    >(lists[i]) by {
        lemma_texts_round_trip(lists[i]);
    }
    lemma_read_all_accepted(items, read, lists);
}

/// An object is larger than the elements of an array that is one of its
/// members.
pub proof fn lemma_items_field_smaller(members: Seq<MemberValue>, name: Seq<char>)
    ensures
        items_field(members, name) matches Ok(items) ==> decreases_to!(members => items),
{
    lemma_lookup_smaller(members, name);
    if items_field(members, name) is Ok {
        let v = lookup(members, name)->Some_0;
        assert(decreases_to!(v => v->Array_0));
    }
}

/// A value is larger than what [`lookup`] finds in it.
pub proof fn lemma_lookup_smaller(members: Seq<MemberValue>, name: Seq<char>)
    ensures
        lookup(members, name) matches Some(v) ==> decreases_to!(members => v),
    decreases members.len(),
{
    if members.len() > 0 {
        if members.last().name == name {
            assert(decreases_to!(members => members[members.len() - 1].value));
        } else {
            lemma_lookup_smaller(members.drop_last(), name);
            let v = lookup(members.drop_last(), name);
            if v is Some {
                lemma_lookup_index(members.drop_last(), name);
                let k = choose|k: int|
                    0 <= k < members.drop_last().len() && members.drop_last()[k].value
                        == v->Some_0;
                assert(members[k].value == v->Some_0);
                assert(decreases_to!(members => members[k].value));
            }
        }
    }
}

/// What [`lookup`] finds is the value of one of the members.
pub proof fn lemma_lookup_index(members: Seq<MemberValue>, name: Seq<char>)
    ensures
        lookup(members, name) matches Some(v) ==> exists|k: int|
            0 <= k < members.len() && #[trigger] members[k].value == v && members[k].name == name,
    decreases members.len(),
{
    if members.len() > 0 {
        if members.last().name == name {
            assert(members[members.len() - 1].value == members.last().value);
        } else {
            lemma_lookup_index(members.drop_last(), name);
            if lookup(members.drop_last(), name) is Some {
                let v = lookup(members.drop_last(), name)->Some_0;
                let k = choose|k: int|
                    0 <= k < members.drop_last().len() && #[trigger] members.drop_last()[k].value
                        == v && members.drop_last()[k].name == name;
                assert(members[k].value == v);
            }
        }
    }
}

// ---------------------------------------------------------------------
// Writing
// ---------------------------------------------------------------------
/// A string as a document.
pub fn text_json(s: &str) -> (j: Json)
    ensures
        j@ == text(s@),
{
    Json::Text(s.to_string())
}

/// A count as a document.
pub fn count_json(n: usize) -> (j: Json)
    ensures
        j@ == count(n),
{
    Json::Number(JsonNumber::Unsigned(n as u64))
}

/// A truth value as a document.
pub fn flag_json(b: bool) -> (j: Json)
    ensures
        j@ == flag(b),
{
    Json::Bool(b)
}

/// An array of documents.
pub fn array_json(items: Vec<Json>) -> (j: Json)
    ensures
        j@ == JsonValue::Array(items_view(items@)),
{
    proof {
        lemma_array_view(items);
    }
    Json::Array(items)
}

/// An object with the given members.
pub fn object_json(members: Vec<Member>) -> (j: Json)
    ensures
        j@ == JsonValue::Object(members_view(members@)),
{
    proof {
        lemma_object_view(members);
    }
    Json::Object(members)
}

/// A list of strings as a document.
pub fn texts_json(list: &Vec<String>) -> (j: Json)
    ensures
        j@ == texts(strings_view(list@)),
{
    let mut items: Vec<Json> = Vec::new();
    let mut i: usize = 0;
    while i < list.len()
        invariant
            i <= list.len(),
            items.len() == i,
            forall|k: int| 0 <= k < i ==> items[k]@ == text(list[k]@),
        decreases list.len() - i,
    {
        items.push(Json::Text(list[i].clone()));
        i += 1;
    }
    assert(items_view(items@) =~= strings_view(list@).map_values(|s: Seq<char>| text(s)));
    array_json(items)
}

/// An optional number as a document.
pub fn opt_number_json(n: &Option<JsonNumber>) -> (j: Json)
    ensures
        j@ == opt_number(opt_view(*n)),
{
    match n {
        Some(n) => Json::Number(n.copy()),
        None => Json::Null,
    }
}

/// An optional document as a document.
pub fn opt_json_json(j: &Option<Json>) -> (out: Json)
    ensures
        out@ == opt_json(opt_view(*j)),
{
    match j {
        Some(j) => j.copy(),
        None => Json::Null,
    }
}

/// A list of lists of strings as a document.
pub fn text_lists_json(lists: &Vec<Vec<String>>) -> (j: Json)
    ensures
        j@ == text_lists(string_lists_view(lists@)),
{
    let mut items: Vec<Json> = Vec::new();
    let mut i: usize = 0;
    while i < lists.len()
        invariant
            i <= lists.len(),
            items.len() == i,
            forall|k: int| 0 <= k < i ==> items[k]@ == texts(strings_view(lists[k]@)),
        decreases lists.len() - i,
    {
        items.push(texts_json(&lists[i]));
        i += 1;
    }
    assert(items_view(items@) =~= string_lists_view(lists@).map_values(
        |l: Seq<Seq<char>>| texts(l),
    ));
    array_json(items)
}

/// An optional string as a document.
pub fn opt_text_json(s: &Option<String>) -> (j: Json)
    ensures
        j@ == opt_text(
            match *s {
                Some(s) => Some(s@),
                None => None,
            },
        ),
{
    match s {
        Some(s) => Json::Text(s.clone()),
        None => Json::Null,
    }
}

/// An optional count as a document.
pub fn opt_count_json(n: Option<usize>) -> (j: Json)
    ensures
        j@ == opt_count(n),
{
    match n {
        Some(n) => count_json(n),
        None => Json::Null,
    }
}

/// An optional truth value as a document.
pub fn opt_flag_json(b: Option<bool>) -> (j: Json)
    ensures
        j@ == opt_flag(b),
{
    match b {
        Some(b) => Json::Bool(b),
        None => Json::Null,
    }
}

/// Owned strings for a list of string slices.
pub fn to_strings(list: &Vec<&str>) -> (out: Vec<String>)
    ensures
        strings_view(out@) == strs_view(list@),
{
    let mut out: Vec<String> = Vec::new();
    let mut i: usize = 0;
    while i < list.len()
        invariant
            i <= list.len(),
            out.len() == i,
            forall|k: int| 0 <= k < i ==> out[k]@ == list[k]@,
        decreases list.len() - i,
    {
        out.push(list[i].to_string());
        i += 1;
    }
    assert(strings_view(out@) =~= strs_view(list@));
    out
}

/// The place of the first entry with the given name, if there is one.
pub fn find_entry<T: View>(entries: &Vec<(String, T)>, name: &str) -> (r: Option<usize>)
    ensures
        match r {
            Some(i) => entry_position(named_view(entries@), name@) == Some(i as int) && i
                < entries.len(),
            None => entry_position(named_view(entries@), name@) is None,
        },
{
    let ghost all = named_view(entries@);
    let mut i: usize = 0;
    assert(all.take(0) =~= Seq::empty());
    while i < entries.len()
        invariant
            i <= entries.len(),
            all == named_view(entries@),
            entry_position(all.take(i as int), name@) is None,
        decreases entries.len() - i,
    {
        proof {
            assert(all.take(i + 1).drop_last() =~= all.take(i as int));
            assert(all.take(i + 1).last() == (entries[i as int].0@, entries[i as int].1@));
        }
        if str_eq(entries[i].0.as_str(), name) {
            proof {
                lemma_entry_position_prefix(all, name@, i + 1);
            }
            return Some(i);
        }
        i += 1;
    }
    assert(all.take(i as int) =~= all);
    None
}

/// Gives `name` the value `value`: an entry with that name keeps its
/// place and takes the value, a new name goes to the end.
pub fn put_entry<T: View>(entries: &mut Vec<(String, T)>, name: String, value: T)
    ensures
        named_view(final(entries)@) == with_named(named_view(old(entries)@), name@, value@),
{
    match find_entry(entries, name.as_str()) {
        Some(i) => {
            entries[i] = (name, value);
            assert(named_view(entries@) =~= named_view(old(entries)@).update(
                i as int,
                (name@, value@),
            ));
        },
        None => {
            entries.push((name, value));
            assert(named_view(entries@) =~= named_view(old(entries)@).push((name@, value@)));
        },
    }
}

/// Named entries: none.
pub fn no_entries<T: View>() -> (entries: Vec<(String, T)>)
    ensures
        named_view(entries@) == Seq::<(Seq<char>, T::V)>::empty(),
{
    let entries: Vec<(String, T)> = Vec::new();
    assert(named_view(entries@) =~= Seq::<(Seq<char>, T::V)>::empty());
    entries
}

/// The members of an object that is about to be written: none yet.
pub fn no_members() -> (members: Vec<Member>)
    ensures
        members_view(members@) == Seq::<MemberValue>::empty(),
{
    let members: Vec<Member> = Vec::new();
    assert(members_view(members@) =~= Seq::<MemberValue>::empty());
    members
}

/// Writes one more member at the end.
pub fn put(members: &mut Vec<Member>, name: &str, value: Json)
    ensures
        members_view(final(members)@) == members_view(old(members)@).push(member(name@, value@)),
{
    members.push(Member { name: name.to_string(), value });
    assert(members_view(members@) =~= members_view(old(members)@).push(member(name@, value@)));
}

// ---------------------------------------------------------------------
// Reading
// ---------------------------------------------------------------------
/// The same result, a failure seen from the member `name` of the
/// enclosing object.
pub fn under_key<T>(r: Result<T, DecodeError>, name: &str) -> (out: Result<T, DecodeError>)
    ensures
        match (r, out) {
            (Ok(a), Ok(b)) => a == b,
            (Err(e), Err(f)) => f@ == e@.within_key(name@),
            _ => false,
        },
{
    match r {
        Ok(v) => Ok(v),
        Err(e) => Err(e.within_key(name)),
    }
}

/// The same result, a failure seen from element `i` of the enclosing
/// array.
pub fn at_index<T>(r: Result<T, DecodeError>, i: usize) -> (out: Result<T, DecodeError>)
    ensures
        match (r, out) {
            (Ok(a), Ok(b)) => a == b,
            (Err(e), Err(f)) => f@ == e@.within_index(i as nat),
            _ => false,
        },
{
    match r {
        Ok(v) => Ok(v),
        Err(e) => Err(e.within_index(i)),
    }
}

/// The member `name` of an object, if it is there.
pub fn field<'a>(members: &'a Vec<Member>, name: &str) -> (r: Option<&'a Json>)
    ensures
        match r {
            Some(v) => lookup(members_view(members@), name@) == Some(v@) && decreases_to!(
                members => v
            ),
            None => lookup(members_view(members@), name@) is None,
        },
{
    let ghost all = members_view(members@);
    let mut i: usize = members.len();
    assert(all.take(i as int) =~= all);
    while i > 0
        invariant
            i <= members.len(),
            all == members_view(members@),
            lookup(all, name@) == lookup(all.take(i as int), name@),
        decreases i,
    {
        proof {
            assert(all.take(i as int).drop_last() =~= all.take(i - 1));
            assert(all.take(i as int).last() == members[i - 1]@);
        }
        i -= 1;
        if str_eq(members[i].name.as_str(), name) {
            assert(decreases_to!(members => members[i as int]));
            assert(decreases_to!(members[i as int] => members[i as int].value));
            return Some(&members[i].value);
        }
    }
    None
}

/// The member `name`, which has to be there.
pub fn required_field<'a>(members: &'a Vec<Member>, name: &str) -> (r: Result<
    &'a Json,
    DecodeError,
>)
    ensures
        match r {
            Ok(v) => required(members_view(members@), name@) == Ok::<JsonValue, Failure>(v@)
                && decreases_to!(members => v),
            Err(e) => required(members_view(members@), name@) == Err::<JsonValue, Failure>(e@),
        },
{
    match field(members, name) {
        Some(v) => Ok(v),
        None => Err(DecodeError::here(DecodeCause::MissingField).within_key(name)),
    }
}

/// The member `name`, where it is there and not `null`.
pub fn present_field<'a>(members: &'a Vec<Member>, name: &str) -> (r: Option<&'a Json>)
    ensures
        match r {
            Some(v) => present(members_view(members@), name@) == Some(v@) && decreases_to!(
                members => v
            ),
            None => present(members_view(members@), name@) is None,
        },
{
    match field(members, name) {
        Some(Json::Null) => None,
        Some(v) => Some(v),
        None => None,
    }
}

pub fn read_text(j: &Json) -> (r: Result<String, DecodeError>)
    ensures
        decoded_string(r) == as_text(j@),
{
    match j {
        Json::Text(s) => Ok(s.clone()),
        _ => Err(DecodeError::here(DecodeCause::TypeMismatch)),
    }
}

pub fn read_str<'a>(j: &'a Json) -> (r: Result<&'a str, DecodeError>)
    ensures
        match r {
            Ok(s) => as_text(j@) == Ok::<Seq<char>, Failure>(s@),
            Err(e) => as_text(j@) == Err::<Seq<char>, Failure>(e@),
        },
{
    match j {
        Json::Text(s) => Ok(s.as_str()),
        _ => Err(DecodeError::here(DecodeCause::TypeMismatch)),
    }
}

pub fn read_flag(j: &Json) -> (r: Result<bool, DecodeError>)
    ensures
        decoded_plain(r) == as_flag(j@),
{
    match j {
        Json::Bool(b) => Ok(*b),
        _ => Err(DecodeError::here(DecodeCause::TypeMismatch)),
    }
}

pub fn read_count(j: &Json) -> (r: Result<usize, DecodeError>)
    ensures
        decoded_plain(r) == as_count(j@),
{
    match j {
        Json::Number(JsonNumber::Unsigned(n)) => {
            if *n <= usize::MAX as u64 {
                Ok(*n as usize)
            } else {
                Err(DecodeError::here(DecodeCause::TypeMismatch))
            }
        },
        Json::Number(JsonNumber::Signed(n)) => {
            if 0 <= *n && *n as u64 <= usize::MAX as u64 {
                Ok(*n as usize)
            } else {
                Err(DecodeError::here(DecodeCause::TypeMismatch))
            }
        },
        _ => Err(DecodeError::here(DecodeCause::TypeMismatch)),
    }
}

pub fn read_number(j: &Json) -> (r: Result<JsonNumber, DecodeError>)
    ensures
        decoded(r) == as_number(j@),
{
    match j {
        Json::Number(n) => Ok(n.copy()),
        _ => Err(DecodeError::here(DecodeCause::TypeMismatch)),
    }
}

pub fn number_member(members: &Vec<Member>, name: &str) -> (r: Result<JsonNumber, DecodeError>)
    ensures
        decoded(r) == number_field(members_view(members@), name@),
{
    match required_field(members, name) {
        Ok(v) => match read_number(v) {
            Ok(n) => Ok(n),
            Err(e) => Err(e.within_key(name)),
        },
        Err(e) => Err(e),
    }
}

pub fn read_items<'a>(j: &'a Json) -> (r: Result<&'a Vec<Json>, DecodeError>)
    ensures
        match r {
            Ok(items) => as_items(j@) == Ok::<Seq<JsonValue>, Failure>(items_view(items@))
                && decreases_to!(j => items),
            Err(e) => as_items(j@) == Err::<Seq<JsonValue>, Failure>(e@),
        },
{
    match j {
        Json::Array(items) => {
            proof {
                lemma_array_view(*items);
            }
            Ok(items)
        },
        _ => Err(DecodeError::here(DecodeCause::TypeMismatch)),
    }
}

pub fn read_members<'a>(j: &'a Json) -> (r: Result<&'a Vec<Member>, DecodeError>)
    ensures
        match r {
            Ok(members) => as_members(j@) == Ok::<Seq<MemberValue>, Failure>(
                members_view(members@),
            ) && decreases_to!(j => members),
            Err(e) => as_members(j@) == Err::<Seq<MemberValue>, Failure>(e@),
        },
{
    match j {
        Json::Object(members) => {
            proof {
                lemma_object_view(*members);
            }
            Ok(members)
        },
        _ => Err(DecodeError::here(DecodeCause::TypeMismatch)),
    }
}

pub fn read_texts(j: &Json) -> (r: Result<Vec<String>, DecodeError>)
    ensures
        decoded_strings(r) == as_texts(j@),
{
    let items = match read_items(j) {
        Ok(items) => items,
        Err(e) => { return Err(e); },
    };
    let ghost read = |x: JsonValue| as_text(x);
    let mut out: Vec<String> = Vec::new();
    let mut i: usize = 0;
    while i < items.len()
        invariant
            i <= items.len(),
            out.len() == i,
            as_items(j@) == Ok::<Seq<JsonValue>, Failure>(items_view(items@)),
            read == (|x: JsonValue| as_text(x)),
            forall|k: int|
                0 <= k < i ==> (#[trigger] read(items_view(items@)[k])) == Ok::<
                    Seq<char>,
                    Failure,
                >(out[k]@),
        decreases items.len() - i,
    {
        match read_text(&items[i]) {
            Ok(s) => {
                out.push(s);
            },
            Err(e) => {
                proof {
                    assert(read(items_view(items@)[i as int]) is Err);
                    lemma_read_all_refused(items_view(items@), read, i as int);
                }
                return Err(e.within_index(i));
            },
        }
        i += 1;
    }
    proof {
        lemma_read_all_accepted(items_view(items@), read, strings_view(out@));
    }
    Ok(out)
}

pub fn opt_number_member(members: &Vec<Member>, name: &str) -> (r: Result<
    Option<JsonNumber>,
    DecodeError,
>)
    ensures
        match r {
            Ok(n) => opt_number_field(members_view(members@), name@) == Ok::<
                Option<NumberValue>,
                Failure,
            >(opt_view(n)),
            Err(e) => opt_number_field(members_view(members@), name@) == Err::<
                Option<NumberValue>,
                Failure,
            >(e@),
        },
{
    match present_field(members, name) {
        Some(v) => match read_number(v) {
            Ok(n) => Ok(Some(n)),
            Err(e) => Err(e.within_key(name)),
        },
        None => Ok(None),
    }
}

pub fn opt_json_member(members: &Vec<Member>, name: &str) -> (r: Result<Option<Json>, DecodeError>)
    ensures
        match r {
            Ok(j) => opt_json_field(members_view(members@), name@) == Ok::<
                Option<JsonValue>,
                Failure,
            >(opt_view(j)),
            Err(e) => false,
        },
{
    match present_field(members, name) {
        Some(v) => Ok(Some(v.copy())),
        None => Ok(None),
    }
}

pub fn texts_or_empty_member(members: &Vec<Member>, name: &str) -> (r: Result<
    Vec<String>,
    DecodeError,
>)
    ensures
        decoded_strings(r) == texts_or_empty_field(members_view(members@), name@),
{
    match present_field(members, name) {
        Some(v) => match read_texts(v) {
            Ok(list) => Ok(list),
            Err(e) => Err(e.within_key(name)),
        },
        None => {
            let list: Vec<String> = Vec::new();
            assert(strings_view(list@) =~= Seq::empty());
            Ok(list)
        },
    }
}

pub fn read_text_lists(j: &Json) -> (r: Result<Vec<Vec<String>>, DecodeError>)
    ensures
        decoded_string_lists(r) == as_text_lists(j@),
{
    let items = match read_items(j) {
        Ok(items) => items,
        Err(e) => { return Err(e); },
    };
    let ghost read = |x: JsonValue| as_texts(x);
    let mut out: Vec<Vec<String>> = Vec::new();
    let mut i: usize = 0;
    while i < items.len()
        invariant
            i <= items.len(),
            out.len() == i,
            as_items(j@) == Ok::<Seq<JsonValue>, Failure>(items_view(items@)),
            read == (|x: JsonValue| as_texts(x)),
            forall|k: int|
                0 <= k < i ==> (#[trigger] read(items_view(items@)[k])) == Ok::<
                    Seq<Seq<char>>,
                    Failure,
                >(strings_view(out[k]@)),
        decreases items.len() - i,
    {
        match read_texts(&items[i]) {
            Ok(list) => {
                out.push(list);
            },
            Err(e) => {
                proof {
                    assert(read(items_view(items@)[i as int]) is Err);
                    lemma_read_all_refused(items_view(items@), read, i as int);
                }
                return Err(e.within_index(i));
            },
        }
        i += 1;
    }
    proof {
        lemma_read_all_accepted(items_view(items@), read, string_lists_view(out@));
    }
    Ok(out)
}

pub fn text_lists_member(members: &Vec<Member>, name: &str) -> (r: Result<
    Vec<Vec<String>>,
    DecodeError,
>)
    ensures
        decoded_string_lists(r) == text_lists_field(members_view(members@), name@),
{
    match required_field(members, name) {
        Ok(v) => match read_text_lists(v) {
            Ok(lists) => Ok(lists),
            Err(e) => Err(e.within_key(name)),
        },
        Err(e) => Err(e),
    }
}

pub fn text_member(members: &Vec<Member>, name: &str) -> (r: Result<String, DecodeError>)
    ensures
        decoded_string(r) == text_field(members_view(members@), name@),
{
    match required_field(members, name) {
        Ok(v) => match read_text(v) {
            Ok(s) => Ok(s),
            Err(e) => Err(e.within_key(name)),
        },
        Err(e) => Err(e),
    }
}

pub fn flag_member(members: &Vec<Member>, name: &str) -> (r: Result<bool, DecodeError>)
    ensures
        decoded_plain(r) == flag_field(members_view(members@), name@),
{
    match required_field(members, name) {
        Ok(v) => match read_flag(v) {
            Ok(b) => Ok(b),
            Err(e) => Err(e.within_key(name)),
        },
        Err(e) => Err(e),
    }
}

pub fn count_member(members: &Vec<Member>, name: &str) -> (r: Result<usize, DecodeError>)
    ensures
        decoded_plain(r) == count_field(members_view(members@), name@),
{
    match required_field(members, name) {
        Ok(v) => match read_count(v) {
            Ok(n) => Ok(n),
            Err(e) => Err(e.within_key(name)),
        },
        Err(e) => Err(e),
    }
}

pub fn texts_member(members: &Vec<Member>, name: &str) -> (r: Result<Vec<String>, DecodeError>)
    ensures
        decoded_strings(r) == texts_field(members_view(members@), name@),
{
    match required_field(members, name) {
        Ok(v) => match read_texts(v) {
            Ok(list) => Ok(list),
            Err(e) => Err(e.within_key(name)),
        },
        Err(e) => Err(e),
    }
}

pub fn items_member<'a>(members: &'a Vec<Member>, name: &str) -> (r: Result<
    &'a Vec<Json>,
    DecodeError,
>)
    ensures
        match r {
            Ok(items) => items_field(members_view(members@), name@) == Ok::<
                Seq<JsonValue>,
                Failure,
            >(items_view(items@)) && decreases_to!(members => items),
            Err(e) => items_field(members_view(members@), name@) == Err::<
                Seq<JsonValue>,
                Failure,
            >(e@),
        },
{
    match required_field(members, name) {
        Ok(v) => match read_items(v) {
            Ok(items) => Ok(items),
            Err(e) => Err(e.within_key(name)),
        },
        Err(e) => Err(e),
    }
}

pub fn opt_text_member(members: &Vec<Member>, name: &str) -> (r: Result<
    Option<String>,
    DecodeError,
>)
    ensures
        decoded_opt_string(r) == opt_text_field(members_view(members@), name@),
{
    match present_field(members, name) {
        Some(v) => match read_text(v) {
            Ok(s) => Ok(Some(s)),
            Err(e) => Err(e.within_key(name)),
        },
        None => Ok(None),
    }
}

pub fn opt_count_member(members: &Vec<Member>, name: &str) -> (r: Result<
    Option<usize>,
    DecodeError,
>)
    ensures
        decoded_plain(r) == opt_count_field(members_view(members@), name@),
{
    match present_field(members, name) {
        Some(v) => match read_count(v) {
            Ok(n) => Ok(Some(n)),
            Err(e) => Err(e.within_key(name)),
        },
        None => Ok(None),
    }
}

pub fn opt_flag_member(members: &Vec<Member>, name: &str) -> (r: Result<
    Option<bool>,
    DecodeError,
>)
    ensures
        decoded_plain(r) == opt_flag_field(members_view(members@), name@),
{
    match present_field(members, name) {
        Some(v) => match read_flag(v) {
            Ok(b) => Ok(Some(b)),
            Err(e) => Err(e.within_key(name)),
        },
        None => Ok(None),
    }
}

} // verus!
