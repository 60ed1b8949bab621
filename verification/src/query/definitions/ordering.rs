//! The order of rows: direction, the way in which values are compared,
//! and the two together for one column.

use vstd::prelude::*;
use crate::codec::{
    as_members, as_text, decoded_list, field_with, lemma_read_all_accepted,
    lemma_read_all_refused, list_view, member, no_members, object_json, put, read_all,
    read_members, read_str, required_field, text, text_field, text_json, text_member,
    under_key,
};
use crate::error::{decoded, DecodeCause, DecodeError, Failure};
use crate::json::{
    items_view, lemma_lookup_empty, lemma_lookup_push, members_view, str_eq, Json, JsonValue,
    Member, MemberValue,
};

verus! {

/// The direction in which rows are ordered.
#[derive(Clone, Copy, Debug, PartialEq, Eq, Structural)]
pub enum SortDirection {
    Ascending,
    Descending,
    Unsorted,
}

impl View for SortDirection {
    type V = SortDirection;

    open spec fn view(&self) -> SortDirection {
        *self
    }
}

impl SortDirection {
    /// The name that stands for the value on the wire.
    pub open spec fn name(self) -> Seq<char> {
        match self {
            SortDirection::Ascending => "ascending"@,
            SortDirection::Descending => "descending"@,
            SortDirection::Unsorted => "none"@,
        }
    }

    /// The value that a name stands for, if it stands for one.
    pub open spec fn named(s: Seq<char>) -> Option<SortDirection> {
        if s == "ascending"@ {
            Some(SortDirection::Ascending)
        } else if s == "descending"@ {
            Some(SortDirection::Descending)
        } else if s == "none"@ {
            Some(SortDirection::Unsorted)
        } else {
            None
        }
    }

    /// The wire form: the name, as a string.
    pub open spec fn wire(self) -> JsonValue {
        text(self.name())
    }

    /// What a document is read as: a string that is one of the names
    /// gives its value, any other string is an unknown variant, and
    /// anything but a string a type mismatch.
    pub open spec fn parse(j: JsonValue) -> Result<SortDirection, Failure> {
        match as_text(j) {
            Ok(s) => match Self::named(s) {
                Some(v) => Ok(v),
                None => Err(Failure::here(DecodeCause::UnknownVariant)),
            },
            Err(e) => Err(e),
        }
    }

    /// Writes the value in its wire form.
    pub fn encode(&self) -> (j: Json)
        ensures
            j@ == self.wire(),
    {
        match self {
            SortDirection::Ascending => text_json("ascending"),
            SortDirection::Descending => text_json("descending"),
            SortDirection::Unsorted => text_json("none"),
        }
    }

    /// Reads a value from its wire form.
    pub fn decode(j: &Json) -> (r: Result<SortDirection, DecodeError>)
        ensures
            decoded(r) == Self::parse(j@),
    {
        let s = match read_str(j) {
            Ok(s) => s,
            Err(e) => {
                return Err(e);
            },
        };
        if str_eq(s, "ascending") {
            Ok(SortDirection::Ascending)
        } else if str_eq(s, "descending") {
            Ok(SortDirection::Descending)
        } else if str_eq(s, "none") {
            Ok(SortDirection::Unsorted)
        } else {
            Err(DecodeError::here(DecodeCause::UnknownVariant))
        }
    }

    /// Reading back what was written gives the value again.
    pub proof fn lemma_round_trip(self)
        ensures
            Self::parse(self.wire()) == Ok::<SortDirection, Failure>(self),
    {
        lemma_tags();
    }

    /// A string that is none of the names is refused as an unknown
    /// variant.
    pub proof fn lemma_unknown_name(s: Seq<char>)
        requires
            Self::named(s) is None,
        ensures
            Self::parse(text(s)) == Err::<SortDirection, Failure>(
                Failure::here(DecodeCause::UnknownVariant),
            ),
    {
    }
}

/// The way in which the values of a dimension are compared.
#[derive(Clone, Copy, Debug, PartialEq, Eq, Structural)]
pub enum SortingOrder {
    Lexicographic,
    Alphanumeric,
    Strlen,
    Numeric,
}

impl View for SortingOrder {
    type V = SortingOrder;

    open spec fn view(&self) -> SortingOrder {
        *self
    }
}

impl SortingOrder {
    /// The name that stands for the value on the wire.
    pub open spec fn name(self) -> Seq<char> {
        match self {
            SortingOrder::Lexicographic => "lexicographic"@,
            SortingOrder::Alphanumeric => "alphanumeric"@,
            SortingOrder::Strlen => "strlen"@,
            SortingOrder::Numeric => "numeric"@,
        }
    }

    /// The value that a name stands for, if it stands for one.
    pub open spec fn named(s: Seq<char>) -> Option<SortingOrder> {
        if s == "lexicographic"@ {
            Some(SortingOrder::Lexicographic)
        } else if s == "alphanumeric"@ {
            Some(SortingOrder::Alphanumeric)
        } else if s == "strlen"@ {
            Some(SortingOrder::Strlen)
        } else if s == "numeric"@ {
            Some(SortingOrder::Numeric)
        } else {
            None
        }
    }

    /// The wire form: the name, as a string.
    pub open spec fn wire(self) -> JsonValue {
        text(self.name())
    }

    /// What a document is read as: a string that is one of the names
    /// gives its value, any other string is an unknown variant, and
    /// anything but a string a type mismatch.
    pub open spec fn parse(j: JsonValue) -> Result<SortingOrder, Failure> {
        match as_text(j) {
            Ok(s) => match Self::named(s) {
                Some(v) => Ok(v),
                None => Err(Failure::here(DecodeCause::UnknownVariant)),
            },
            Err(e) => Err(e),
        }
    }

    /// Writes the value in its wire form.
    pub fn encode(&self) -> (j: Json)
        ensures
            j@ == self.wire(),
    {
        match self {
            SortingOrder::Lexicographic => text_json("lexicographic"),
            SortingOrder::Alphanumeric => text_json("alphanumeric"),
            SortingOrder::Strlen => text_json("strlen"),
            SortingOrder::Numeric => text_json("numeric"),
        }
    }

    /// Reads a value from its wire form.
    pub fn decode(j: &Json) -> (r: Result<SortingOrder, DecodeError>)
        ensures
            decoded(r) == Self::parse(j@),
    {
        let s = match read_str(j) {
            Ok(s) => s,
            Err(e) => {
                return Err(e);
            },
        };
        if str_eq(s, "lexicographic") {
            Ok(SortingOrder::Lexicographic)
        } else if str_eq(s, "alphanumeric") {
            Ok(SortingOrder::Alphanumeric)
        } else if str_eq(s, "strlen") {
            Ok(SortingOrder::Strlen)
        } else if str_eq(s, "numeric") {
            Ok(SortingOrder::Numeric)
        } else {
            Err(DecodeError::here(DecodeCause::UnknownVariant))
        }
    }

    /// Reading back what was written gives the value again.
    pub proof fn lemma_round_trip(self)
        ensures
            Self::parse(self.wire()) == Ok::<SortingOrder, Failure>(self),
    {
        lemma_tags();
    }

    /// A string that is none of the names is refused as an unknown
    /// variant.
    pub proof fn lemma_unknown_name(s: Seq<char>)
        requires
            Self::named(s) is None,
        ensures
            Self::parse(text(s)) == Err::<SortingOrder, Failure>(
                Failure::here(DecodeCause::UnknownVariant),
            ),
    {
    }
}

/// One column of an ordering: the dimension, the direction and the way its values are compared.
#[derive(Debug, PartialEq)]
pub struct OrderByColumn {
    pub dimension: String,
    pub direction: SortDirection,
    pub dimension_order: SortingOrder,
}

/// Mathematical value of an [`OrderByColumn`].
pub struct OrderByColumnView {
    pub dimension: Seq<char>,
    pub direction: SortDirection,
    pub dimension_order: SortingOrder,
}

impl View for OrderByColumn {
    type V = OrderByColumnView;

    open spec fn view(&self) -> OrderByColumnView {
        OrderByColumnView {
            dimension: self.dimension@,
            direction: self.direction,
            dimension_order: self.dimension_order,
        }
    }
}

impl OrderByColumnView {
    /// The wire form.
    pub open spec fn wire(self) -> JsonValue {
        JsonValue::Object(
            Seq::empty()
                .push(member("dimension"@, text(self.dimension)))
                .push(member("direction"@, self.direction.wire()))
                .push(member("dimensionOrder"@, self.dimension_order.wire())),
        )
    }

    /// The wire forms of the elements of a list.
    pub open spec fn wire_list(list: Seq<OrderByColumnView>) -> Seq<JsonValue> {
        list.map_values(|x: OrderByColumnView| x.wire())
    }

    /// What a document is read as.
    pub open spec fn parse(j: JsonValue) -> Result<OrderByColumnView, Failure> {
        match as_members(j) {
            Ok(m) => Self::parse_members(m),
            Err(e) => Err(e),
        }
    }

    /// The members of the object, read.
    pub open spec fn parse_members(m: Seq<MemberValue>) -> Result<OrderByColumnView, Failure> {
        let dimension = text_field(m, "dimension"@);
        let direction = field_with(m, "direction"@, |v: JsonValue| SortDirection::parse(v));
        let dimension_order = field_with(
            m,
            "dimensionOrder"@,
            |v: JsonValue| SortingOrder::parse(v),
        );
        if dimension is Err {
            Err(dimension->Err_0)
        } else if direction is Err {
            Err(direction->Err_0)
        } else if dimension_order is Err {
            Err(dimension_order->Err_0)
        } else {
            Ok(
                OrderByColumnView {
                    dimension: dimension->Ok_0,
                    direction: direction->Ok_0,
                    dimension_order: dimension_order->Ok_0,
                },
            )
        }
    }

    /// Every element of an array, read: the list of what was read, or
    /// the failure of the first element that is refused, seen from its
    /// index.
    pub open spec fn parse_list(items: Seq<JsonValue>) -> Result<Seq<OrderByColumnView>, Failure> {
        read_all(items, |j: JsonValue| Self::parse(j))
    }

    /// What is written is never `null`.
    pub proof fn lemma_wire_not_null(self)
        ensures
            !(self.wire() is Null),
    {
    }

    /// Reading back what was written gives the value again.
    pub proof fn lemma_round_trip(self)
        ensures
            Self::parse(self.wire()) == Ok::<OrderByColumnView, Failure>(self),
            self.wire() is Object,
            Self::parse_members(self.wire()->Object_0) == Ok::<OrderByColumnView, Failure>(self),
    {
        Self::lemma_members(self.wire(), self.dimension, self.direction, self.dimension_order);
    }

    /// The members that are written are read back as the value, given
    /// that its parts are read back from their wire forms.
    proof fn lemma_members(
        j: JsonValue,
        dimension: Seq<char>,
        direction: SortDirection,
        dimension_order: SortingOrder,
    )
        requires
            j == JsonValue::Object(
                Seq::empty()
                    .push(member("dimension"@, text(dimension)))
                    .push(member("direction"@, direction.wire()))
                    .push(member("dimensionOrder"@, dimension_order.wire())),
            ),
        ensures
            j is Object,
            Self::parse_members(j->Object_0) == Ok::<OrderByColumnView, Failure>(
                OrderByColumnView { dimension, direction, dimension_order },
            ),
            Self::parse(j) == Ok::<OrderByColumnView, Failure>(
                OrderByColumnView { dimension, direction, dimension_order },
            ),
    {
        broadcast use {lemma_lookup_push, lemma_lookup_empty};

        lemma_keys();
        direction.lemma_round_trip();
        dimension_order.lemma_round_trip();
    }

    /// Reading back a list that was written gives the list again.
    pub proof fn lemma_list_round_trip(list: Seq<OrderByColumnView>)
        ensures
            Self::parse_list(Self::wire_list(list)) == Ok::<Seq<OrderByColumnView>, Failure>(list),
    {
        let items = Self::wire_list(list);
        let read = |j: JsonValue| Self::parse(j);
        assert forall|i: int| 0 <= i < items.len() implies (#[trigger] read(items[i]))
            == Ok::<OrderByColumnView, Failure>(list[i]) by {
            list[i].lemma_round_trip();
        }
        lemma_read_all_accepted(items, read, list);
    }

}

impl OrderByColumn {
    pub fn new(
        dimension: &str,
        direction: SortDirection,
        dimension_order: SortingOrder,
    ) -> (out: OrderByColumn)
        ensures
            out@ == (OrderByColumnView { dimension: dimension@, direction, dimension_order }),
    {
        OrderByColumn { dimension: dimension.to_string(), direction, dimension_order }
    }

    /// Writes the value in its wire form.
    pub fn encode(&self) -> (j: Json)
        ensures
            j@ == self@.wire(),
    {
        let mut m = no_members();
        put(&mut m, "dimension", text_json(self.dimension.as_str()));
        put(&mut m, "direction", self.direction.encode());
        put(&mut m, "dimensionOrder", self.dimension_order.encode());
        object_json(m)
    }

    /// Writes each element of a list in its wire form.
    pub fn encode_list(list: &Vec<OrderByColumn>) -> (items: Vec<Json>)
        ensures
            items_view(items@) == OrderByColumnView::wire_list(list_view(list@)),
    {
        let mut items: Vec<Json> = Vec::new();
        let mut i: usize = 0;
        while i < list.len()
            invariant
                i <= list.len(),
                items.len() == i,
                forall|k: int| 0 <= k < i ==> items[k]@ == list[k]@.wire(),
            decreases list.len() - i,
        {
            items.push(list[i].encode());
            i += 1;
        }
        assert(items_view(items@) =~= OrderByColumnView::wire_list(list_view(list@)));
        items
    }

    /// Reads a value from its wire form.
    pub fn decode(j: &Json) -> (r: Result<OrderByColumn, DecodeError>)
        ensures
            decoded(r) == OrderByColumnView::parse(j@),
    {
        let m = read_members(j)?;
        Self::decode_members(m)
    }

    /// Reads the members of the object.
    pub fn decode_members(m: &Vec<Member>) -> (r: Result<OrderByColumn, DecodeError>)
        ensures
            decoded(r) == OrderByColumnView::parse_members(members_view(m@)),
    {
        let dimension = text_member(m, "dimension")?;
        let direction = under_key(
            SortDirection::decode(required_field(m, "direction")?),
            "direction",
        )?;
        let dimension_order = under_key(
            SortingOrder::decode(required_field(m, "dimensionOrder")?),
            "dimensionOrder",
        )?;
        Ok(OrderByColumn { dimension, direction, dimension_order })
    }

    /// Reads each element of an array from its wire form.
    pub fn decode_list(items: &Vec<Json>) -> (r: Result<Vec<OrderByColumn>, DecodeError>)
        ensures
            decoded_list(r) == OrderByColumnView::parse_list(items_view(items@)),
    {
        let ghost read = |j: JsonValue| OrderByColumnView::parse(j);
        let mut out: Vec<OrderByColumn> = Vec::new();
        let mut i: usize = 0;
        while i < items.len()
            invariant
                i <= items.len(),
                out.len() == i,
                read == (|j: JsonValue| OrderByColumnView::parse(j)),
                forall|k: int|
                0 <= k < i ==>
                    (#[trigger] read(items_view(items@)[k]))
                        == Ok::<OrderByColumnView, Failure>(out[k]@),
            decreases items.len() - i,
        {
            match OrderByColumn::decode(&items[i]) {
                Ok(v) => {
                    out.push(v);
                },
                Err(e) => {
                    proof {
                        assert(read(items_view(items@)[i as int]) is Err);
                        lemma_read_all_refused(items_view(items@), read, i as int);
                    }
                    return Err(e.within_index(i));
                },
            }
            i += 1;
        }
        proof {
            lemma_read_all_accepted(items_view(items@), read, list_view(out@));
        }
        Ok(out)
    }
}

/// The names of the members differ from one another.
proof fn lemma_keys()
    ensures
        "dimension"@.len() == 9,
        "dimensionOrder"@.len() == 14,
        "direction"@.len() == 9,
        "dimension"@[2] == 'm',
        "direction"@[2] == 'r',
{
    reveal_strlit("dimension");
    reveal_strlit("dimensionOrder");
    reveal_strlit("direction");
}

/// The names that stand for the variants differ from one another.
proof fn lemma_tags()
    ensures
        "alphanumeric"@.len() == 12,
        "ascending"@.len() == 9,
        "descending"@.len() == 10,
        "lexicographic"@.len() == 13,
        "none"@.len() == 4,
        "numeric"@.len() == 7,
        "strlen"@.len() == 6,
{
    reveal_strlit("alphanumeric");
    reveal_strlit("ascending");
    reveal_strlit("descending");
    reveal_strlit("lexicographic");
    reveal_strlit("none");
    reveal_strlit("numeric");
    reveal_strlit("strlen");
}

} // verus!
