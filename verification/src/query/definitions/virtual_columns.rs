//! Virtual columns.

use vstd::prelude::*;
use crate::codec::{
    as_members, decoded_list, field_with, lemma_read_all_accepted, lemma_read_all_refused,
    list_view, member, no_members, object_json, put, read_all, read_members, required_field,
    text, text_field, text_json, text_member, under_key,
};
use crate::error::{decoded, DecodeCause, DecodeError, Failure};
use crate::json::{
    items_view, lemma_lookup_empty, lemma_lookup_push, members_view, str_eq, Json, JsonValue,
    Member, MemberValue,
};
use crate::query::definitions::output_types::OutputType;

verus! {

/// A column that is computed from others while the query runs.
#[derive(Debug, PartialEq)]
pub enum VirtualColumn {
    /// The value of an expression, read as the given type.
    Expression {
        name: String,
        expression: String,
        output_type: OutputType,
    },
}

/// Mathematical value of a [`VirtualColumn`].
pub enum VirtualColumnView {
    Expression {
        name: Seq<char>,
        expression: Seq<char>,
        output_type: OutputType,
    },
}

impl View for VirtualColumn {
    type V = VirtualColumnView;

    open spec fn view(&self) -> VirtualColumnView {
        match self {
            VirtualColumn::Expression { name, expression, output_type } => VirtualColumnView::Expression {
                name: name@,
                expression: expression@,
                output_type: *output_type,
            },
        }
    }
}

impl VirtualColumnView {
    /// The discriminator that stands for the variant on the wire.
    pub open spec fn tag(self) -> Seq<char> {
        match self {
            VirtualColumnView::Expression { .. } => "expression"@,
        }
    }

    /// Whether a discriminator stands for a variant of this family.
    pub open spec fn known_tag(t: Seq<char>) -> bool {
        t == "expression"@
    }

    /// The wire form.
    pub open spec fn wire(self) -> JsonValue {
        match self {
            VirtualColumnView::Expression { name, expression, output_type } => JsonValue::Object(
                Seq::empty()
                    .push(member("type"@, text("expression"@)))
                    .push(member("name"@, text(name)))
                    .push(member("expression"@, text(expression)))
                    .push(member("outputType"@, output_type.wire())),
            ),
        }
    }

    /// The wire forms of the elements of a list.
    pub open spec fn wire_list(list: Seq<VirtualColumnView>) -> Seq<JsonValue> {
        list.map_values(|x: VirtualColumnView| x.wire())
    }

    /// What a document is read as.
    pub open spec fn parse(j: JsonValue) -> Result<VirtualColumnView, Failure> {
        match as_members(j) {
            Ok(m) => match text_field(m, "type"@) {
                Ok(t) => if t == "expression"@ {
                    Self::parse_expression(m)
                } else {
                    Err(Failure::here(DecodeCause::UnknownVariant).within_key("type"@))
                },
                Err(e) => Err(e),
            },
            Err(e) => Err(e),
        }
    }

    /// The members of the variant `expression`, read.
    pub open spec fn parse_expression(m: Seq<MemberValue>) -> Result<VirtualColumnView, Failure> {
        let name = text_field(m, "name"@);
        let expression = text_field(m, "expression"@);
        let output_type = field_with(m, "outputType"@, |v: JsonValue| OutputType::parse(v));
        if name is Err {
            Err(name->Err_0)
        } else if expression is Err {
            Err(expression->Err_0)
        } else if output_type is Err {
            Err(output_type->Err_0)
        } else {
            Ok(
                VirtualColumnView::Expression {
                    name: name->Ok_0,
                    expression: expression->Ok_0,
                    output_type: output_type->Ok_0,
                },
            )
        }
    }

    /// Every element of an array, read: the list of what was read, or
    /// the failure of the first element that is refused, seen from its
    /// index.
    pub open spec fn parse_list(items: Seq<JsonValue>) -> Result<Seq<VirtualColumnView>, Failure> {
        read_all(items, |j: JsonValue| Self::parse(j))
    }

    /// What is written is never `null`.
    pub proof fn lemma_wire_not_null(self)
        ensures
            !(self.wire() is Null),
    {
    }

    /// Reading back what was written gives the value again.
    pub proof fn lemma_round_trip(self)
        ensures
            Self::parse(self.wire()) == Ok::<VirtualColumnView, Failure>(self),
    {
        match self {
            VirtualColumnView::Expression { name, expression, output_type } => {
                Self::lemma_members_expression(self.wire(), name, expression, output_type);
                Self::lemma_parse_expression(self.wire());
            },
        }
    }

    /// The members that are written for the variant `expression` are read
    /// back as the value, given that its parts are read back from their
    /// wire forms.
    proof fn lemma_members_expression(
        j: JsonValue,
        name: Seq<char>,
        expression: Seq<char>,
        output_type: OutputType,
    )
        requires
            j == JsonValue::Object(
                Seq::empty()
                    .push(member("type"@, text("expression"@)))
                    .push(member("name"@, text(name)))
                    .push(member("expression"@, text(expression)))
                    .push(member("outputType"@, output_type.wire())),
            ),
        ensures
            j is Object,
            Self::parse_expression(j->Object_0) == Ok::<VirtualColumnView, Failure>(
                VirtualColumnView::Expression { name, expression, output_type },
            ),
            text_field(j->Object_0, "type"@) == Ok::<Seq<char>, Failure>("expression"@),
    {
        broadcast use {lemma_lookup_push, lemma_lookup_empty};

        lemma_keys();
        output_type.lemma_round_trip();
    }

    /// An object with the discriminator `expression` is read as that variant.
    proof fn lemma_parse_expression(j: JsonValue)
        requires
            j is Object,
            text_field(j->Object_0, "type"@) == Ok::<Seq<char>, Failure>("expression"@),
        ensures
            Self::parse(j) == Self::parse_expression(j->Object_0),
    {
        lemma_tags();
    }

    /// Reading back a list that was written gives the list again.
    pub proof fn lemma_list_round_trip(list: Seq<VirtualColumnView>)
        ensures
            Self::parse_list(Self::wire_list(list)) == Ok::<Seq<VirtualColumnView>, Failure>(list),
    {
        let items = Self::wire_list(list);
        let read = |j: JsonValue| Self::parse(j);
        assert forall|i: int| 0 <= i < items.len() implies (#[trigger] read(items[i]))
            == Ok::<VirtualColumnView, Failure>(list[i]) by {
            list[i].lemma_round_trip();
        }
        lemma_read_all_accepted(items, read, list);
    }

    /// What is written for a variant carries its discriminator.
    pub proof fn lemma_tag(self)
        ensures
            self.wire() is Object,
            text_field(self.wire()->Object_0, "type"@) == Ok::<Seq<char>, Failure>(self.tag()),
            Self::known_tag(self.tag()),
    {
        broadcast use {lemma_lookup_push, lemma_lookup_empty};

        lemma_keys();
    }

    /// An object whose discriminator stands for no variant of the
    /// family is refused as an unknown variant; it is read as none.
    pub proof fn lemma_unknown_tag(j: JsonValue)
        requires
            j is Object,
            text_field(j->Object_0, "type"@) is Ok,
            !Self::known_tag(text_field(j->Object_0, "type"@)->Ok_0),
        ensures
            Self::parse(j) == Err::<VirtualColumnView, Failure>(
                Failure::here(DecodeCause::UnknownVariant).within_key("type"@),
            ),
    {
    }

}

impl VirtualColumn {
    pub fn expression(name: &str, expression: &str, output_type: OutputType) -> (out: VirtualColumn)
        ensures
            out@ == (
                VirtualColumnView::Expression { name: name@, expression: expression@, output_type }
            ),
    {
        VirtualColumn::Expression {
            name: name.to_string(),
            expression: expression.to_string(),
            output_type,
        }
    }

    /// Writes the value in its wire form.
    pub fn encode(&self) -> (j: Json)
        ensures
            j@ == self@.wire(),
    {
        let mut m = no_members();
        match self {
            VirtualColumn::Expression { name, expression, output_type } => {
                put(&mut m, "type", text_json("expression"));
                put(&mut m, "name", text_json(name.as_str()));
                put(&mut m, "expression", text_json(expression.as_str()));
                put(&mut m, "outputType", output_type.encode());
            },
        }
        object_json(m)
    }

    /// Writes each element of a list in its wire form.
    pub fn encode_list(list: &Vec<VirtualColumn>) -> (items: Vec<Json>)
        ensures
            items_view(items@) == VirtualColumnView::wire_list(list_view(list@)),
    {
        let mut items: Vec<Json> = Vec::new();
        let mut i: usize = 0;
        while i < list.len()
            invariant
                i <= list.len(),
                items.len() == i,
                forall|k: int| 0 <= k < i ==> items[k]@ == list[k]@.wire(),
            decreases list.len() - i,
        {
            items.push(list[i].encode());
            i += 1;
        }
        assert(items_view(items@) =~= VirtualColumnView::wire_list(list_view(list@)));
        items
    }

    /// Reads a value from its wire form.
    pub fn decode(j: &Json) -> (r: Result<VirtualColumn, DecodeError>)
        ensures
            decoded(r) == VirtualColumnView::parse(j@),
    {
        let m = read_members(j)?;
        let t = text_member(m, "type")?;
        if str_eq(t.as_str(), "expression") {
            Self::decode_expression(m)
        } else {
            Err(DecodeError::here(DecodeCause::UnknownVariant).within_key("type"))
        }
    }

    fn decode_expression(m: &Vec<Member>) -> (r: Result<VirtualColumn, DecodeError>)
        ensures
            decoded(r) == VirtualColumnView::parse_expression(members_view(m@)),
    {
        let name = text_member(m, "name")?;
        let expression = text_member(m, "expression")?;
        let output_type = under_key(
            OutputType::decode(required_field(m, "outputType")?),
            "outputType",
        )?;
        Ok(VirtualColumn::Expression { name, expression, output_type })
    }

    /// Reads each element of an array from its wire form.
    pub fn decode_list(items: &Vec<Json>) -> (r: Result<Vec<VirtualColumn>, DecodeError>)
        ensures
            decoded_list(r) == VirtualColumnView::parse_list(items_view(items@)),
    {
        let ghost read = |j: JsonValue| VirtualColumnView::parse(j);
        let mut out: Vec<VirtualColumn> = Vec::new();
        let mut i: usize = 0;
        while i < items.len()
            invariant
                i <= items.len(),
                out.len() == i,
                read == (|j: JsonValue| VirtualColumnView::parse(j)),
                forall|k: int|
                0 <= k < i ==>
                    (#[trigger] read(items_view(items@)[k]))
                        == Ok::<VirtualColumnView, Failure>(out[k]@),
            decreases items.len() - i,
        {
            match VirtualColumn::decode(&items[i]) {
                Ok(v) => {
                    out.push(v);
                },
                Err(e) => {
                    proof {
                        assert(read(items_view(items@)[i as int]) is Err);
                        lemma_read_all_refused(items_view(items@), read, i as int);
                    }
                    return Err(e.within_index(i));
                },
            }
            i += 1;
        }
        proof {
            lemma_read_all_accepted(items_view(items@), read, list_view(out@));
        }
        Ok(out)
    }
}

/// The names of the members differ from one another.
proof fn lemma_keys()
    ensures
        "expression"@.len() == 10,
        "name"@.len() == 4,
        "outputType"@.len() == 10,
        "type"@.len() == 4,
        "name"@[0] == 'n',
        "type"@[0] == 't',
        "expression"@[0] == 'e',
        "outputType"@[0] == 'o',
{
    reveal_strlit("expression");
    reveal_strlit("name");
    reveal_strlit("outputType");
    reveal_strlit("type");
}

/// The names that stand for the variants differ from one another.
proof fn lemma_tags()
    ensures
        "expression"@.len() == 10,
{
    reveal_strlit("expression");
}

} // verus!
