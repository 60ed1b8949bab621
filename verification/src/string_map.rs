//! A map from strings to strings that keeps its entries in the order in
//! which they were put in, so that it is written the same way every time.

use vstd::prelude::*;
use crate::codec::{
    as_members, as_named, as_text, distinct_names, entry_position, find_entry,
    lemma_named_round_trip, lemma_read_named_distinct, lemma_read_named_prefix,
    lemma_with_named_distinct, member, named, named_view, object_json, put_entry, read_members,
    read_named, read_text, text, with_named,
};
use crate::error::{decoded, DecodeError, Failure};
use crate::json::{members_view, Json, JsonValue, Member, MemberValue};

verus! {

/// A map from strings to strings, in insertion order. No key occurs
/// twice.
#[derive(Debug, PartialEq)]
pub struct StringMap {
    entries: Vec<(String, String)>,
}

impl View for StringMap {
    type V = Seq<(Seq<char>, Seq<char>)>;

    closed spec fn view(&self) -> Seq<(Seq<char>, Seq<char>)> {
        named_view(self.entries@)
    }
}

/// The position of the first entry with the given key.
pub open spec fn position(entries: Seq<(Seq<char>, Seq<char>)>, key: Seq<char>) -> Option<int> {
    entry_position(entries, key)
}

/// The entries after `key` was given `value`: an entry with that key
/// keeps its place and takes the value, a new key goes to the end.
pub open spec fn with_entry(
    entries: Seq<(Seq<char>, Seq<char>)>,
    key: Seq<char>,
    value: Seq<char>,
) -> Seq<(Seq<char>, Seq<char>)> {
    with_named(entries, key, value)
}

/// Whether no key occurs twice among the entries.
pub open spec fn distinct_keys(entries: Seq<(Seq<char>, Seq<char>)>) -> bool {
    distinct_names(entries)
}

/// The wire form of a map: an object with one string member for each
/// entry, in order.
pub open spec fn map_wire(entries: Seq<(Seq<char>, Seq<char>)>) -> JsonValue {
    named(entries, |s: Seq<char>| text(s))
}

/// What a document is read as: an object whose values are strings, each
/// put into the map under its name, so that a name that occurs twice
/// keeps its first place and its last value. The first value that is no
/// string fails under its name.
pub open spec fn map_parse(j: JsonValue) -> Result<Seq<(Seq<char>, Seq<char>)>, Failure> {
    as_named(j, |x: JsonValue| as_text(x))
}

/// Reading back a map that was written gives the map again, if no key
/// occurs twice in it.
pub proof fn lemma_map_round_trip(entries: Seq<(Seq<char>, Seq<char>)>)
    requires
        distinct_keys(entries),
    ensures
        map_parse(map_wire(entries)) == Ok::<Seq<(Seq<char>, Seq<char>)>, Failure>(entries),
{
    lemma_named_round_trip(entries, |s: Seq<char>| text(s), |x: JsonValue| as_text(x));
}

/// What a map is read as holds no key twice.
pub proof fn lemma_map_parse_distinct(j: JsonValue)
    ensures
        map_parse(j) matches Ok(entries) ==> distinct_keys(entries),
{
    if j is Object {
        lemma_read_named_distinct(j->Object_0, |x: JsonValue| as_text(x));
    }
}

impl StringMap {
    #[verifier::type_invariant]
    closed spec fn well_formed(self) -> bool {
        distinct_names(named_view(self.entries@))
    }

    /// A map without entries.
    pub fn new() -> (map: StringMap)
        ensures
            map@ == Seq::<(Seq<char>, Seq<char>)>::empty(),
    {
        let entries: Vec<(String, String)> = Vec::new();
        assert(named_view(entries@) =~= Seq::empty());
        StringMap { entries }
    }

    /// The number of entries.
    pub fn len(&self) -> (n: usize)
        ensures
            n == self@.len(),
    {
        self.entries.len()
    }

    /// The entries, in order. No key occurs twice.
    pub fn entries(&self) -> (entries: &Vec<(String, String)>)
        ensures
            named_view(entries@) == self@,
            distinct_keys(self@),
    {
        proof {
            use_type_invariant(self);
        }
        &self.entries
    }

    /// The value of the entry with the given key, if there is one.
    pub fn get(&self, key: &str) -> (r: Option<&String>)
        ensures
            match r {
                Some(v) => position(self@, key@) matches Some(i) && self@[i].1 == v@,
                None => position(self@, key@) is None,
            },
    {
        match find_entry(&self.entries, key) {
            Some(i) => Some(&self.entries[i].1),
            None => None,
        }
    }

    /// Gives `key` the value `value`: an entry with that key keeps its
    /// place and takes the value, a new key goes to the end.
    pub fn insert(&mut self, key: &str, value: &str)
        ensures
            final(self)@ == with_entry(old(self)@, key@, value@),
    {
        proof {
            use_type_invariant(&*self);
            lemma_with_named_distinct(named_view(self.entries@), key@, value@);
        }
        let mut entries: Vec<(String, String)> = Vec::new();
        assert(named_view(entries@) =~= Seq::empty());
        std::mem::swap(&mut entries, &mut self.entries);
        put_entry(&mut entries, key.to_string(), value.to_string());
        std::mem::swap(&mut entries, &mut self.entries);
    }

    /// Writes the map in its wire form. It is read back as it is.
    pub fn encode(&self) -> (j: Json)
        ensures
            j@ == map_wire(self@),
            distinct_keys(self@),
            map_parse(j@) == Ok::<Seq<(Seq<char>, Seq<char>)>, Failure>(self@),
    {
        let mut members: Vec<Member> = Vec::new();
        let mut i: usize = 0;
        while i < self.entries.len()
            invariant
                i <= self.entries.len(),
                members.len() == i,
                forall|k: int|
                    0 <= k < i ==> members[k]@ == member(
                        self.entries[k].0@,
                        text(self.entries[k].1@),
                    ),
            decreases self.entries.len() - i,
        {
            members.push(
                Member {
                    name: self.entries[i].0.clone(),
                    value: Json::Text(self.entries[i].1.clone()),
                },
            );
            i += 1;
        }
        proof {
            use_type_invariant(self);
            assert(members_view(members@) =~= map_wire(self@)->Object_0);
            lemma_map_round_trip(self@);
        }
        object_json(members)
    }

    /// Reads a map from its wire form. What is read holds no key twice.
    pub fn decode(j: &Json) -> (r: Result<StringMap, DecodeError>)
        ensures
            decoded(r) == map_parse(j@),
            r matches Ok(map) ==> distinct_keys(map@),
    {
        let members = read_members(j)?;
        let ghost all = members_view(members@);
        let ghost read = |x: JsonValue| as_text(x);
        let mut entries: Vec<(String, String)> = Vec::new();
        let mut i: usize = 0;
        assert(all.take(0) =~= Seq::empty());
        assert(named_view(entries@) =~= Seq::empty());
        while i < members.len()
            invariant
                i <= members.len(),
                all == members_view(members@),
                as_members(j@) == Ok::<Seq<MemberValue>, Failure>(all),
                read == (|x: JsonValue| as_text(x)),
                read_named(all.take(i as int), read) == Ok::<
                    Seq<(Seq<char>, Seq<char>)>,
                    Failure,
                >(named_view(entries@)),
            decreases members.len() - i,
        {
            proof {
                assert(all.take(i + 1).drop_last() =~= all.take(i as int));
                assert(all.take(i + 1).last() == members[i as int]@);
            }
            match read_text(&members[i].value) {
                Ok(s) => {
                    put_entry(&mut entries, members[i].name.clone(), s);
                },
                Err(e) => {
                    proof {
                        lemma_read_named_prefix(all, read, i + 1);
                    }
                    return Err(e.within_key(members[i].name.as_str()));
                },
            }
            i += 1;
        }
        proof {
            assert(all.take(i as int) =~= all);
            lemma_read_named_distinct(all, read);
        }
        Ok(StringMap { entries })
    }
}

impl Default for StringMap {
    fn default() -> (map: StringMap)
        ensures
            map@ == Seq::<(Seq<char>, Seq<char>)>::empty(),
    {
        StringMap::new()
    }
}

} // verus!
