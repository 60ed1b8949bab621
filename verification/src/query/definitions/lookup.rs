//! Lookups that are given with the query.

use vstd::prelude::*;
use crate::codec::{
    as_members, field_with, flag, flag_field, flag_json, flag_member, member, no_members,
    object_json, put, read_members, required_field, text, text_field, text_json, text_member,
    under_key,
};
use crate::error::{decoded, DecodeCause, DecodeError, Failure};
use crate::json::{
    lemma_lookup_empty, lemma_lookup_push, members_view, str_eq, Json, JsonValue, Member,
    MemberValue,
};
use crate::string_map::{distinct_keys, lemma_map_round_trip, map_parse, map_wire, StringMap};

verus! {

/// A lookup that is given with the query: a map from values to what replaces them.
#[derive(Debug, PartialEq)]
pub struct LookupMap {
    pub map: StringMap,
    pub is_one_to_one: bool,
}

/// Mathematical value of a [`LookupMap`].
pub struct LookupMapView {
    pub map: Seq<(Seq<char>, Seq<char>)>,
    pub is_one_to_one: bool,
}

impl View for LookupMap {
    type V = LookupMapView;

    open spec fn view(&self) -> LookupMapView {
        LookupMapView {
            map: self.map@,
            is_one_to_one: self.is_one_to_one,
        }
    }
}

impl LookupMapView {
    /// The wire form.
    pub open spec fn wire(self) -> JsonValue {
        JsonValue::Object(
            Seq::empty()
                .push(member("type"@, text("map"@)))
                .push(member("map"@, map_wire(self.map)))
                .push(member("isOneToOne"@, flag(self.is_one_to_one))),
        )
    }

    /// Whether the parts that are not read back whatever they hold are
    /// read back as they are: every interval inside, and every map
    /// inside, which has to hold each key once.
    pub open spec fn reads_back(self) -> bool {
        distinct_keys(self.map)
    }

    /// What a document is read as.
    pub open spec fn parse(j: JsonValue) -> Result<LookupMapView, Failure> {
        match as_members(j) {
            Ok(m) => match text_field(m, "type"@) {
                Ok(t) => if t == "map"@ {
                    Self::parse_members(m)
                } else {
                    Err(Failure::here(DecodeCause::UnknownVariant).within_key("type"@))
                },
                Err(e) => Err(e),
            },
            Err(e) => Err(e),
        }
    }

    /// The members of the object, read.
    pub open spec fn parse_members(m: Seq<MemberValue>) -> Result<LookupMapView, Failure> {
        let map = field_with(m, "map"@, |v: JsonValue| map_parse(v));
        let is_one_to_one = flag_field(m, "isOneToOne"@);
        if map is Err {
            Err(map->Err_0)
        } else if is_one_to_one is Err {
            Err(is_one_to_one->Err_0)
        } else {
            Ok(LookupMapView { map: map->Ok_0, is_one_to_one: is_one_to_one->Ok_0 })
        }
    }

    /// What is written is never `null`.
    pub proof fn lemma_wire_not_null(self)
        ensures
            !(self.wire() is Null),
    {
    }

    /// Reading back what was written gives the value again, if the
    /// intervals and the maps inside are read back as they are.
    pub proof fn lemma_round_trip(self)
        requires
            self.reads_back(),
        ensures
            Self::parse(self.wire()) == Ok::<LookupMapView, Failure>(self),
            self.wire() is Object,
            Self::parse_members(self.wire()->Object_0) == Ok::<LookupMapView, Failure>(self),
            text_field(self.wire()->Object_0, "type"@) == Ok::<Seq<char>, Failure>("map"@),
    {
        lemma_map_round_trip(self.map);
        Self::lemma_members(self.wire(), self.map, map_wire(self.map), self.is_one_to_one);
    }

    /// The members that are written are read back as the value, given
    /// that its parts are read back from their wire forms.
    proof fn lemma_members(
        j: JsonValue,
        map: Seq<(Seq<char>, Seq<char>)>,
        map_wire: JsonValue,
        is_one_to_one: bool,
    )
        requires
            j == JsonValue::Object(
                Seq::empty()
                    .push(member("type"@, text("map"@)))
                    .push(member("map"@, map_wire))
                    .push(member("isOneToOne"@, flag(is_one_to_one))),
            ),
            map_parse(map_wire) == Ok::<Seq<(Seq<char>, Seq<char>)>, Failure>(map),
        ensures
            j is Object,
            Self::parse_members(j->Object_0) == Ok::<LookupMapView, Failure>(LookupMapView {
                map,
                is_one_to_one,
            }),
            text_field(j->Object_0, "type"@) == Ok::<Seq<char>, Failure>("map"@),
            Self::parse(j) == Ok::<LookupMapView, Failure>(LookupMapView { map, is_one_to_one }),
    {
        broadcast use {lemma_lookup_push, lemma_lookup_empty};

        lemma_keys();
    }

}

impl LookupMap {
    /// Writes the value in its wire form. It is read back as it is.
    pub fn encode(&self) -> (j: Json)
        ensures
            j@ == self@.wire(),
            self@.reads_back(),
            LookupMapView::parse(j@) == Ok::<LookupMapView, Failure>(self@),
    {
        let mut m = no_members();
        put(&mut m, "type", text_json("map"));
        put(&mut m, "map", self.map.encode());
        put(&mut m, "isOneToOne", flag_json(self.is_one_to_one));
        proof {
            self@.lemma_round_trip();
        }
        object_json(m)
    }

    /// Reads a value from its wire form.
    pub fn decode(j: &Json) -> (r: Result<LookupMap, DecodeError>)
        ensures
            decoded(r) == LookupMapView::parse(j@),
    {
        let m = read_members(j)?;
        let t = text_member(m, "type")?;
        if !str_eq(t.as_str(), "map") {
            return Err(DecodeError::here(DecodeCause::UnknownVariant).within_key("type"));
        }
        Self::decode_members(m)
    }

    /// Reads the members of the object.
    pub fn decode_members(m: &Vec<Member>) -> (r: Result<LookupMap, DecodeError>)
        ensures
            decoded(r) == LookupMapView::parse_members(members_view(m@)),
    {
        let map = under_key(StringMap::decode(required_field(m, "map")?), "map")?;
        let is_one_to_one = flag_member(m, "isOneToOne")?;
        Ok(LookupMap { map, is_one_to_one })
    }
}

/// The names of the members differ from one another.
proof fn lemma_keys()
    ensures
        "isOneToOne"@.len() == 10,
        "map"@.len() == 3,
        "type"@.len() == 4,
{
    reveal_strlit("isOneToOne");
    reveal_strlit("map");
    reveal_strlit("type");
}

} // verus!
