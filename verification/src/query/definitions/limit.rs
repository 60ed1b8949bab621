//! The limit of a grouped result.

use vstd::prelude::*;
use crate::codec::{
    array_json, as_members, count, count_field, count_json, count_member, items_field,
    items_member, list_view, member, no_members, object_json, put, read_members, text,
    text_field, text_json, text_member, under, under_key,
};
use crate::error::{decoded, DecodeCause, DecodeError, Failure};
use crate::json::{
    lemma_lookup_empty, lemma_lookup_push, members_view, str_eq, Json, JsonValue, Member,
    MemberValue,
};
use crate::query::definitions::ordering::{OrderByColumn, OrderByColumnView};

verus! {

/// How many rows of a grouped result are kept, and in which order.
#[derive(Debug, PartialEq)]
pub struct Limit {
    pub limit: usize,
    pub columns: Vec<OrderByColumn>,
}

/// Mathematical value of a [`Limit`].
pub struct LimitView {
    pub limit: usize,
    pub columns: Seq<OrderByColumnView>,
}

impl View for Limit {
    type V = LimitView;

    open spec fn view(&self) -> LimitView {
        LimitView {
            limit: self.limit,
            columns: list_view(self.columns@),
        }
    }
}

impl LimitView {
    /// The wire form.
    pub open spec fn wire(self) -> JsonValue {
        JsonValue::Object(
            Seq::empty()
                .push(member("type"@, text("default"@)))
                .push(member("limit"@, count(self.limit)))
                .push(
                    member(
                        "columns"@,
                        JsonValue::Array(OrderByColumnView::wire_list(self.columns)),
                    ),
                ),
        )
    }

    /// What a document is read as.
    pub open spec fn parse(j: JsonValue) -> Result<LimitView, Failure> {
        match as_members(j) {
            Ok(m) => match text_field(m, "type"@) {
                Ok(t) => if t == "default"@ {
                    Self::parse_members(m)
                } else {
                    Err(Failure::here(DecodeCause::UnknownVariant).within_key("type"@))
                },
                Err(e) => Err(e),
            },
            Err(e) => Err(e),
        }
    }

    /// The members of the object, read.
    pub open spec fn parse_members(m: Seq<MemberValue>) -> Result<LimitView, Failure> {
        let limit = count_field(m, "limit"@);
        let columns = match items_field(m, "columns"@) {
            Ok(items) => under("columns"@, OrderByColumnView::parse_list(items)),
            Err(e) => Err(e),
        };
        if limit is Err {
            Err(limit->Err_0)
        } else if columns is Err {
            Err(columns->Err_0)
        } else {
            Ok(LimitView { limit: limit->Ok_0, columns: columns->Ok_0 })
        }
    }

    /// What is written is never `null`.
    pub proof fn lemma_wire_not_null(self)
        ensures
            !(self.wire() is Null),
    {
    }

    /// Reading back what was written gives the value again.
    pub proof fn lemma_round_trip(self)
        ensures
            Self::parse(self.wire()) == Ok::<LimitView, Failure>(self),
            self.wire() is Object,
            Self::parse_members(self.wire()->Object_0) == Ok::<LimitView, Failure>(self),
            text_field(self.wire()->Object_0, "type"@) == Ok::<Seq<char>, Failure>("default"@),
    {
        OrderByColumnView::lemma_list_round_trip(self.columns);
        Self::lemma_members(
            self.wire(),
            self.limit,
            self.columns,
            OrderByColumnView::wire_list(self.columns),
        );
    }

    /// The members that are written are read back as the value, given
    /// that its parts are read back from their wire forms.
    proof fn lemma_members(
        j: JsonValue,
        limit: usize,
        columns: Seq<OrderByColumnView>,
        columns_items: Seq<JsonValue>,
    )
        requires
            j == JsonValue::Object(
                Seq::empty()
                    .push(member("type"@, text("default"@)))
                    .push(member("limit"@, count(limit)))
                    .push(member("columns"@, JsonValue::Array(columns_items))),
            ),
            OrderByColumnView::parse_list(columns_items)
                == Ok::<Seq<OrderByColumnView>, Failure>(columns),
        ensures
            j is Object,
            Self::parse_members(j->Object_0) == Ok::<LimitView, Failure>(LimitView {
                limit,
                columns,
            }),
            text_field(j->Object_0, "type"@) == Ok::<Seq<char>, Failure>("default"@),
            Self::parse(j) == Ok::<LimitView, Failure>(LimitView { limit, columns }),
    {
        broadcast use {lemma_lookup_push, lemma_lookup_empty};

        lemma_keys();
    }

}

impl Limit {
    /// Writes the value in its wire form.
    pub fn encode(&self) -> (j: Json)
        ensures
            j@ == self@.wire(),
    {
        let mut m = no_members();
        put(&mut m, "type", text_json("default"));
        put(&mut m, "limit", count_json(self.limit));
        put(&mut m, "columns", array_json(OrderByColumn::encode_list(&self.columns)));
        object_json(m)
    }

    /// Reads a value from its wire form.
    pub fn decode(j: &Json) -> (r: Result<Limit, DecodeError>)
        ensures
            decoded(r) == LimitView::parse(j@),
    {
        let m = read_members(j)?;
        let t = text_member(m, "type")?;
        if !str_eq(t.as_str(), "default") {
            return Err(DecodeError::here(DecodeCause::UnknownVariant).within_key("type"));
        }
        Self::decode_members(m)
    }

    /// Reads the members of the object.
    pub fn decode_members(m: &Vec<Member>) -> (r: Result<Limit, DecodeError>)
        ensures
            decoded(r) == LimitView::parse_members(members_view(m@)),
    {
        let limit = count_member(m, "limit")?;
        let columns = under_key(
            OrderByColumn::decode_list(items_member(m, "columns")?),
            "columns",
        )?;
        Ok(Limit { limit, columns })
    }
}

/// The names of the members differ from one another.
proof fn lemma_keys()
    ensures
        "columns"@.len() == 7,
        "limit"@.len() == 5,
        "type"@.len() == 4,
{
    reveal_strlit("columns");
    reveal_strlit("limit");
    reveal_strlit("type");
}

} // verus!
