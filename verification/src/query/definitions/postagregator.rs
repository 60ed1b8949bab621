//! Post-aggregations: computations on the aggregated values of a row,
//! and the values they compute with.

use vstd::prelude::*;
use crate::codec::{
    array_json, as_members, decoded_list, items_field, items_member, lemma_items_field_smaller,
    lemma_read_all_accepted, lemma_read_all_empty, lemma_read_all_refused, lemma_read_all_step,
    lemma_texts_round_trip, list_view, member, no_members, object_json, opt_text_field,
    opt_text_member, opt_view, put, read_all, read_members, required, required_field,
    strings_view, text, text_field, text_json, text_member, texts, texts_field, texts_json,
    texts_member, under, under_key,
};
use crate::error::{decoded, DecodeCause, DecodeError, Failure};
use crate::json::{
    items_view, lemma_lookup_empty, lemma_lookup_push, members_view, str_eq, Json, JsonValue,
    Member, MemberValue,
};

verus! {

/// A value that a post-aggregation computes with: a field of the row, or a constant.
#[derive(Debug, PartialEq)]
pub enum PostAggregator {
    /// The value of an aggregation, as it is held while rows are merged.
    FieldAccess {
        name: String,
        field_name: String,
    },
    /// The value of an aggregation, finalized.
    FinalizingFieldAccess {
        name: String,
        field_name: String,
    },
    /// A constant.
    Constant {
        name: String,
        value: Json,
    },
    /// The cardinality that a hyper-unique aggregation estimated.
    HyperUniqueCardinality {
        field_name: String,
    },
}

/// Mathematical value of a [`PostAggregator`].
pub enum PostAggregatorView {
    FieldAccess {
        name: Seq<char>,
        field_name: Seq<char>,
    },
    FinalizingFieldAccess {
        name: Seq<char>,
        field_name: Seq<char>,
    },
    Constant {
        name: Seq<char>,
        value: JsonValue,
    },
    HyperUniqueCardinality {
        field_name: Seq<char>,
    },
}

impl View for PostAggregator {
    type V = PostAggregatorView;

    open spec fn view(&self) -> PostAggregatorView {
        match self {
            PostAggregator::FieldAccess { name, field_name } => PostAggregatorView::FieldAccess {
                name: name@,
                field_name: field_name@,
            },
            PostAggregator::FinalizingFieldAccess { name, field_name } => PostAggregatorView::FinalizingFieldAccess {
                name: name@,
                field_name: field_name@,
            },
            PostAggregator::Constant { name, value } => PostAggregatorView::Constant {
                name: name@,
                value: value@,
            },
            PostAggregator::HyperUniqueCardinality { field_name } => PostAggregatorView::HyperUniqueCardinality {
                field_name: field_name@,
            },
        }
    }
}

impl PostAggregatorView {
    /// The discriminator that stands for the variant on the wire.
    pub open spec fn tag(self) -> Seq<char> {
        match self {
            PostAggregatorView::FieldAccess { .. } => "fieldAccess"@,
            PostAggregatorView::FinalizingFieldAccess { .. } => "finalizingFieldAccess"@,
            PostAggregatorView::Constant { .. } => "constant"@,
            PostAggregatorView::HyperUniqueCardinality { .. } => "hyperUniqueCardinality"@,
        }
    }

    /// Whether a discriminator stands for a variant of this family.
    pub open spec fn known_tag(t: Seq<char>) -> bool {
        t == "fieldAccess"@
            || t == "finalizingFieldAccess"@
            || t == "constant"@
            || t == "hyperUniqueCardinality"@
    }

    /// The wire form.
    pub open spec fn wire(self) -> JsonValue {
        match self {
            PostAggregatorView::FieldAccess { name, field_name } => JsonValue::Object(
                Seq::empty()
                    .push(member("type"@, text("fieldAccess"@)))
                    .push(member("name"@, text(name)))
                    .push(member("fieldName"@, text(field_name))),
            ),
            PostAggregatorView::FinalizingFieldAccess { name, field_name } => JsonValue::Object(
                Seq::empty()
                    .push(member("type"@, text("finalizingFieldAccess"@)))
                    .push(member("name"@, text(name)))
                    .push(member("fieldName"@, text(field_name))),
            ),
            PostAggregatorView::Constant { name, value } => JsonValue::Object(
                Seq::empty()
                    .push(member("type"@, text("constant"@)))
                    .push(member("name"@, text(name)))
                    .push(member("value"@, value)),
            ),
            PostAggregatorView::HyperUniqueCardinality { field_name } => JsonValue::Object(
                Seq::empty()
                    .push(member("type"@, text("hyperUniqueCardinality"@)))
                    .push(member("fieldName"@, text(field_name))),
            ),
        }
    }

    /// The wire forms of the elements of a list.
    pub open spec fn wire_list(list: Seq<PostAggregatorView>) -> Seq<JsonValue> {
        list.map_values(|x: PostAggregatorView| x.wire())
    }

    /// What a document is read as.
    pub open spec fn parse(j: JsonValue) -> Result<PostAggregatorView, Failure> {
        match as_members(j) {
            Ok(m) => match text_field(m, "type"@) {
                Ok(t) => if t == "fieldAccess"@ {
                    Self::parse_field_access(m)
                } else if t == "finalizingFieldAccess"@ {
                    Self::parse_finalizing_field_access(m)
                } else if t == "constant"@ {
                    Self::parse_constant(m)
                } else if t == "hyperUniqueCardinality"@ {
                    Self::parse_hyper_unique_cardinality(m)
                } else {
                    Err(Failure::here(DecodeCause::UnknownVariant).within_key("type"@))
                },
                Err(e) => Err(e),
            },
            Err(e) => Err(e),
        }
    }

    /// The members of the variant `fieldAccess`, read.
    pub open spec fn parse_field_access(m: Seq<MemberValue>) -> Result<PostAggregatorView, Failure> {
        let name = text_field(m, "name"@);
        let field_name = text_field(m, "fieldName"@);
        if name is Err {
            Err(name->Err_0)
        } else if field_name is Err {
            Err(field_name->Err_0)
        } else {
            Ok(PostAggregatorView::FieldAccess { name: name->Ok_0, field_name: field_name->Ok_0 })
        }
    }

    /// The members of the variant `finalizingFieldAccess`, read.
    pub open spec fn parse_finalizing_field_access(m: Seq<MemberValue>) -> Result<PostAggregatorView, Failure> {
        let name = text_field(m, "name"@);
        let field_name = text_field(m, "fieldName"@);
        if name is Err {
            Err(name->Err_0)
        } else if field_name is Err {
            Err(field_name->Err_0)
        } else {
            Ok(
                PostAggregatorView::FinalizingFieldAccess {
                    name: name->Ok_0,
                    field_name: field_name->Ok_0,
                },
            )
        }
    }

    /// The members of the variant `constant`, read.
    pub open spec fn parse_constant(m: Seq<MemberValue>) -> Result<PostAggregatorView, Failure> {
        let name = text_field(m, "name"@);
        let value = required(m, "value"@);
        if name is Err {
            Err(name->Err_0)
        } else if value is Err {
            Err(value->Err_0)
        } else {
            Ok(PostAggregatorView::Constant { name: name->Ok_0, value: value->Ok_0 })
        }
    }

    /// The members of the variant `hyperUniqueCardinality`, read.
    pub open spec fn parse_hyper_unique_cardinality(m: Seq<MemberValue>) -> Result<PostAggregatorView, Failure> {
        let field_name = text_field(m, "fieldName"@);
        if field_name is Err {
            Err(field_name->Err_0)
        } else {
            Ok(PostAggregatorView::HyperUniqueCardinality { field_name: field_name->Ok_0 })
        }
    }

    /// Every element of an array, read: the list of what was read, or
    /// the failure of the first element that is refused, seen from its
    /// index.
    pub open spec fn parse_list(items: Seq<JsonValue>) -> Result<Seq<PostAggregatorView>, Failure> {
        read_all(items, |j: JsonValue| Self::parse(j))
    }

    /// What is written is never `null`.
    pub proof fn lemma_wire_not_null(self)
        ensures
            !(self.wire() is Null),
    {
    }

    /// Reading back what was written gives the value again.
    pub proof fn lemma_round_trip(self)
        ensures
            Self::parse(self.wire()) == Ok::<PostAggregatorView, Failure>(self),
    {
        match self {
            PostAggregatorView::FieldAccess { name, field_name } => {
                Self::lemma_members_field_access(self.wire(), name, field_name);
                Self::lemma_parse_field_access(self.wire());
            },
            PostAggregatorView::FinalizingFieldAccess { name, field_name } => {
                Self::lemma_members_finalizing_field_access(self.wire(), name, field_name);
                Self::lemma_parse_finalizing_field_access(self.wire());
            },
            PostAggregatorView::Constant { name, value } => {
                Self::lemma_members_constant(self.wire(), name, value);
                Self::lemma_parse_constant(self.wire());
            },
            PostAggregatorView::HyperUniqueCardinality { field_name } => {
                Self::lemma_members_hyper_unique_cardinality(self.wire(), field_name);
                Self::lemma_parse_hyper_unique_cardinality(self.wire());
            },
        }
    }

    /// The members that are written for the variant `fieldAccess` are read
    /// back as the value, given that its parts are read back from their
    /// wire forms.
    proof fn lemma_members_field_access(j: JsonValue, name: Seq<char>, field_name: Seq<char>)
        requires
            j == JsonValue::Object(
                Seq::empty()
                    .push(member("type"@, text("fieldAccess"@)))
                    .push(member("name"@, text(name)))
                    .push(member("fieldName"@, text(field_name))),
            ),
        ensures
            j is Object,
            Self::parse_field_access(j->Object_0) == Ok::<PostAggregatorView, Failure>(
                PostAggregatorView::FieldAccess { name, field_name },
            ),
            text_field(j->Object_0, "type"@) == Ok::<Seq<char>, Failure>("fieldAccess"@),
    {
        broadcast use {lemma_lookup_push, lemma_lookup_empty};

        lemma_keys();
    }

    /// An object with the discriminator `fieldAccess` is read as that variant.
    proof fn lemma_parse_field_access(j: JsonValue)
        requires
            j is Object,
            text_field(j->Object_0, "type"@) == Ok::<Seq<char>, Failure>("fieldAccess"@),
        ensures
            Self::parse(j) == Self::parse_field_access(j->Object_0),
    {
        lemma_tags();
    }

    /// The members that are written for the variant `finalizingFieldAccess` are read
    /// back as the value, given that its parts are read back from their
    /// wire forms.
    proof fn lemma_members_finalizing_field_access(
        j: JsonValue,
        name: Seq<char>,
        field_name: Seq<char>,
    )
        requires
            j == JsonValue::Object(
                Seq::empty()
                    .push(member("type"@, text("finalizingFieldAccess"@)))
                    .push(member("name"@, text(name)))
                    .push(member("fieldName"@, text(field_name))),
            ),
        ensures
            j is Object,
            Self::parse_finalizing_field_access(j->Object_0) == Ok::<PostAggregatorView, Failure>(
                PostAggregatorView::FinalizingFieldAccess { name, field_name },
            ),
            text_field(j->Object_0, "type"@) == Ok::<Seq<char>, Failure>("finalizingFieldAccess"@),
    {
        broadcast use {lemma_lookup_push, lemma_lookup_empty};

        lemma_keys();
    }

    /// An object with the discriminator `finalizingFieldAccess` is read as that variant.
    proof fn lemma_parse_finalizing_field_access(j: JsonValue)
        requires
            j is Object,
            text_field(j->Object_0, "type"@) == Ok::<Seq<char>, Failure>("finalizingFieldAccess"@),
        ensures
            Self::parse(j) == Self::parse_finalizing_field_access(j->Object_0),
    {
        lemma_tags();
    }

    /// The members that are written for the variant `constant` are read
    /// back as the value, given that its parts are read back from their
    /// wire forms.
    proof fn lemma_members_constant(j: JsonValue, name: Seq<char>, value: JsonValue)
        requires
            j == JsonValue::Object(
                Seq::empty()
                    .push(member("type"@, text("constant"@)))
                    .push(member("name"@, text(name)))
                    .push(member("value"@, value)),
            ),
        ensures
            j is Object,
            Self::parse_constant(j->Object_0) == Ok::<PostAggregatorView, Failure>(
                PostAggregatorView::Constant { name, value },
            ),
            text_field(j->Object_0, "type"@) == Ok::<Seq<char>, Failure>("constant"@),
    {
        broadcast use {lemma_lookup_push, lemma_lookup_empty};

        lemma_keys();
    }

    /// An object with the discriminator `constant` is read as that variant.
    proof fn lemma_parse_constant(j: JsonValue)
        requires
            j is Object,
            text_field(j->Object_0, "type"@) == Ok::<Seq<char>, Failure>("constant"@),
        ensures
            Self::parse(j) == Self::parse_constant(j->Object_0),
    {
        lemma_tags();
    }

    /// The members that are written for the variant `hyperUniqueCardinality` are read
    /// back as the value, given that its parts are read back from their
    /// wire forms.
    proof fn lemma_members_hyper_unique_cardinality(j: JsonValue, field_name: Seq<char>)
        requires
            j == JsonValue::Object(
                Seq::empty()
                    .push(member("type"@, text("hyperUniqueCardinality"@)))
                    .push(member("fieldName"@, text(field_name))),
            ),
        ensures
            j is Object,
            Self::parse_hyper_unique_cardinality(j->Object_0) == Ok::<PostAggregatorView, Failure>(
                PostAggregatorView::HyperUniqueCardinality { field_name },
            ),
            text_field(j->Object_0, "type"@) == Ok::<Seq<char>, Failure>("hyperUniqueCardinality"@),
    {
        broadcast use {lemma_lookup_push, lemma_lookup_empty};

        lemma_keys();
    }

    /// An object with the discriminator `hyperUniqueCardinality` is read as that variant.
    proof fn lemma_parse_hyper_unique_cardinality(j: JsonValue)
        requires
            j is Object,
            text_field(j->Object_0, "type"@) == Ok::<Seq<char>, Failure>("hyperUniqueCardinality"@),
        ensures
            Self::parse(j) == Self::parse_hyper_unique_cardinality(j->Object_0),
    {
        lemma_tags();
    }

    /// Reading back a list that was written gives the list again.
    pub proof fn lemma_list_round_trip(list: Seq<PostAggregatorView>)
        ensures
            Self::parse_list(Self::wire_list(list)) == Ok::<Seq<PostAggregatorView>, Failure>(list),
    {
        let items = Self::wire_list(list);
        let read = |j: JsonValue| Self::parse(j);
        assert forall|i: int| 0 <= i < items.len() implies (#[trigger] read(items[i]))
            == Ok::<PostAggregatorView, Failure>(list[i]) by {
            list[i].lemma_round_trip();
        }
        lemma_read_all_accepted(items, read, list);
    }

    /// What is written for a variant carries its discriminator.
    pub proof fn lemma_tag(self)
        ensures
            self.wire() is Object,
            text_field(self.wire()->Object_0, "type"@) == Ok::<Seq<char>, Failure>(self.tag()),
            Self::known_tag(self.tag()),
    {
        broadcast use {lemma_lookup_push, lemma_lookup_empty};

        lemma_keys();
    }

    /// An object whose discriminator stands for no variant of the
    /// family is refused as an unknown variant; it is read as none.
    pub proof fn lemma_unknown_tag(j: JsonValue)
        requires
            j is Object,
            text_field(j->Object_0, "type"@) is Ok,
            !Self::known_tag(text_field(j->Object_0, "type"@)->Ok_0),
        ensures
            Self::parse(j) == Err::<PostAggregatorView, Failure>(
                Failure::here(DecodeCause::UnknownVariant).within_key("type"@),
            ),
    {
    }

}

impl PostAggregator {
    pub fn field_access(name: &str, field_name: &str) -> (out: PostAggregator)
        ensures
            out@ == (PostAggregatorView::FieldAccess { name: name@, field_name: field_name@ }),
    {
        PostAggregator::FieldAccess { name: name.to_string(), field_name: field_name.to_string() }
    }

    pub fn finalized_field_access(name: &str, field_name: &str) -> (out: PostAggregator)
        ensures
            out@ == (
                PostAggregatorView::FinalizingFieldAccess { name: name@, field_name: field_name@ }
            ),
    {
        PostAggregator::FinalizingFieldAccess {
            name: name.to_string(),
            field_name: field_name.to_string(),
        }
    }

    pub fn constant(name: &str, value: Json) -> (out: PostAggregator)
        ensures
            out@ == (PostAggregatorView::Constant { name: name@, value: value@ }),
    {
        PostAggregator::Constant { name: name.to_string(), value }
    }

    pub fn hyper_unique_cardinality(field_name: &str) -> (out: PostAggregator)
        ensures
            out@ == (PostAggregatorView::HyperUniqueCardinality { field_name: field_name@ }),
    {
        PostAggregator::HyperUniqueCardinality { field_name: field_name.to_string() }
    }

    /// Writes the value in its wire form.
    pub fn encode(&self) -> (j: Json)
        ensures
            j@ == self@.wire(),
    {
        let mut m = no_members();
        match self {
            PostAggregator::FieldAccess { name, field_name } => {
                put(&mut m, "type", text_json("fieldAccess"));
                put(&mut m, "name", text_json(name.as_str()));
                put(&mut m, "fieldName", text_json(field_name.as_str()));
            },
            PostAggregator::FinalizingFieldAccess { name, field_name } => {
                put(&mut m, "type", text_json("finalizingFieldAccess"));
                put(&mut m, "name", text_json(name.as_str()));
                put(&mut m, "fieldName", text_json(field_name.as_str()));
            },
            PostAggregator::Constant { name, value } => {
                put(&mut m, "type", text_json("constant"));
                put(&mut m, "name", text_json(name.as_str()));
                put(&mut m, "value", value.copy());
            },
            PostAggregator::HyperUniqueCardinality { field_name } => {
                put(&mut m, "type", text_json("hyperUniqueCardinality"));
                put(&mut m, "fieldName", text_json(field_name.as_str()));
            },
        }
        object_json(m)
    }

    /// Writes each element of a list in its wire form.
    pub fn encode_list(list: &Vec<PostAggregator>) -> (items: Vec<Json>)
        ensures
            items_view(items@) == PostAggregatorView::wire_list(list_view(list@)),
    {
        let mut items: Vec<Json> = Vec::new();
        let mut i: usize = 0;
        while i < list.len()
            invariant
                i <= list.len(),
                items.len() == i,
                forall|k: int| 0 <= k < i ==> items[k]@ == list[k]@.wire(),
            decreases list.len() - i,
        {
            items.push(list[i].encode());
            i += 1;
        }
        assert(items_view(items@) =~= PostAggregatorView::wire_list(list_view(list@)));
        items
    }

    /// Reads a value from its wire form.
    pub fn decode(j: &Json) -> (r: Result<PostAggregator, DecodeError>)
        ensures
            decoded(r) == PostAggregatorView::parse(j@),
    {
        let m = read_members(j)?;
        let t = text_member(m, "type")?;
        if str_eq(t.as_str(), "fieldAccess") {
            Self::decode_field_access(m)
        } else if str_eq(t.as_str(), "finalizingFieldAccess") {
            Self::decode_finalizing_field_access(m)
        } else if str_eq(t.as_str(), "constant") {
            Self::decode_constant(m)
        } else if str_eq(t.as_str(), "hyperUniqueCardinality") {
            Self::decode_hyper_unique_cardinality(m)
        } else {
            Err(DecodeError::here(DecodeCause::UnknownVariant).within_key("type"))
        }
    }

    fn decode_field_access(m: &Vec<Member>) -> (r: Result<PostAggregator, DecodeError>)
        ensures
            decoded(r) == PostAggregatorView::parse_field_access(members_view(m@)),
    {
        let name = text_member(m, "name")?;
        let field_name = text_member(m, "fieldName")?;
        Ok(PostAggregator::FieldAccess { name, field_name })
    }

    fn decode_finalizing_field_access(m: &Vec<Member>) -> (r: Result<PostAggregator, DecodeError>)
        ensures
            decoded(r) == PostAggregatorView::parse_finalizing_field_access(members_view(m@)),
    {
        let name = text_member(m, "name")?;
        let field_name = text_member(m, "fieldName")?;
        Ok(PostAggregator::FinalizingFieldAccess { name, field_name })
    }

    fn decode_constant(m: &Vec<Member>) -> (r: Result<PostAggregator, DecodeError>)
        ensures
            decoded(r) == PostAggregatorView::parse_constant(members_view(m@)),
    {
        let name = text_member(m, "name")?;
        let value = required_field(m, "value")?.copy();
        Ok(PostAggregator::Constant { name, value })
    }

    fn decode_hyper_unique_cardinality(m: &Vec<Member>) -> (r: Result<PostAggregator, DecodeError>)
        ensures
            decoded(r) == PostAggregatorView::parse_hyper_unique_cardinality(members_view(m@)),
    {
        let field_name = text_member(m, "fieldName")?;
        Ok(PostAggregator::HyperUniqueCardinality { field_name })
    }

    /// Reads each element of an array from its wire form.
    pub fn decode_list(items: &Vec<Json>) -> (r: Result<Vec<PostAggregator>, DecodeError>)
        ensures
            decoded_list(r) == PostAggregatorView::parse_list(items_view(items@)),
    {
        let ghost read = |j: JsonValue| PostAggregatorView::parse(j);
        let mut out: Vec<PostAggregator> = Vec::new();
        let mut i: usize = 0;
        while i < items.len()
            invariant
                i <= items.len(),
                out.len() == i,
                read == (|j: JsonValue| PostAggregatorView::parse(j)),
                forall|k: int|
                0 <= k < i ==>
                    (#[trigger] read(items_view(items@)[k]))
                        == Ok::<PostAggregatorView, Failure>(out[k]@),
            decreases items.len() - i,
        {
            match PostAggregator::decode(&items[i]) {
                Ok(v) => {
                    out.push(v);
                },
                Err(e) => {
                    proof {
                        assert(read(items_view(items@)[i as int]) is Err);
                        lemma_read_all_refused(items_view(items@), read, i as int);
                    }
                    return Err(e.within_index(i));
                },
            }
            i += 1;
        }
        proof {
            lemma_read_all_accepted(items_view(items@), read, list_view(out@));
        }
        Ok(out)
    }
}

/// A computation on the aggregated values of a row.
#[derive(Debug, PartialEq)]
#[allow(inconsistent_fields)]
pub enum PostAggregation {
    /// An arithmetic function of the given values.
    Arithmetic {
        name: String,
        function: String,
        fields: Vec<PostAggregator>,
        ordering: Option<String>,
    },
    /// The greatest of the given values, as a double.
    DoubleGreatest {
        name: String,
        fields: Vec<PostAggregation>,
    },
    /// The greatest of the given values, as a long.
    LongGreatest {
        name: String,
        fields: Vec<PostAggregation>,
    },
    /// The least of the given values, as a long.
    LongLeast {
        name: String,
        fields: Vec<PostAggregation>,
    },
    /// The least of the given values, as a double.
    DoubleLeast {
        name: String,
        fields: Vec<PostAggregation>,
    },
    /// A JavaScript function of the named fields.
    Javascript {
        name: String,
        field_names: Vec<String>,
        function: String,
    },
}

/// Mathematical value of a [`PostAggregation`].
#[allow(inconsistent_fields)]
pub enum PostAggregationView {
    Arithmetic {
        name: Seq<char>,
        function: Seq<char>,
        fields: Seq<PostAggregatorView>,
        ordering: Option<Seq<char>>,
    },
    DoubleGreatest {
        name: Seq<char>,
        fields: Seq<PostAggregationView>,
    },
    LongGreatest {
        name: Seq<char>,
        fields: Seq<PostAggregationView>,
    },
    LongLeast {
        name: Seq<char>,
        fields: Seq<PostAggregationView>,
    },
    DoubleLeast {
        name: Seq<char>,
        fields: Seq<PostAggregationView>,
    },
    Javascript {
        name: Seq<char>,
        field_names: Seq<Seq<char>>,
        function: Seq<char>,
    },
}

impl PostAggregation {
    /// The mathematical value.
    pub open spec fn value(self) -> PostAggregationView
        decreases self,
    {
        match self {
            PostAggregation::Arithmetic { name, function, fields, ordering } => PostAggregationView::Arithmetic {
                name: name@,
                function: function@,
                fields: list_view(fields@),
                ordering: opt_view(ordering),
            },
            PostAggregation::DoubleGreatest { name, fields } => PostAggregationView::DoubleGreatest {
                name: name@,
                fields: Self::values(fields@),
            },
            PostAggregation::LongGreatest { name, fields } => PostAggregationView::LongGreatest {
                name: name@,
                fields: Self::values(fields@),
            },
            PostAggregation::LongLeast { name, fields } => PostAggregationView::LongLeast {
                name: name@,
                fields: Self::values(fields@),
            },
            PostAggregation::DoubleLeast { name, fields } => PostAggregationView::DoubleLeast {
                name: name@,
                fields: Self::values(fields@),
            },
            PostAggregation::Javascript { name, field_names, function } => PostAggregationView::Javascript {
                name: name@,
                field_names: strings_view(field_names@),
                function: function@,
            },
        }
    }

    /// The mathematical values of the elements of a list.
    pub open spec fn values(list: Seq<PostAggregation>) -> Seq<PostAggregationView>
        decreases list,
    {
        Seq::new(
            list.len(),
            |i: int| if 0 <= i < list.len() { list[i].value() } else { arbitrary() },
        )
    }

    /// [`Self::values`] is the view of the list.
    pub proof fn lemma_values(list: Seq<PostAggregation>)
        ensures
            Self::values(list) == list_view(list),
    {
        assert(Self::values(list) =~= list_view(list));
    }
}

impl View for PostAggregation {
    type V = PostAggregationView;

    open spec fn view(&self) -> PostAggregationView {
        self.value()
    }
}

impl PostAggregationView {
    /// The discriminator that stands for the variant on the wire.
    pub open spec fn tag(self) -> Seq<char> {
        match self {
            PostAggregationView::Arithmetic { .. } => "arithmetic"@,
            PostAggregationView::DoubleGreatest { .. } => "doubleGreatest"@,
            PostAggregationView::LongGreatest { .. } => "longGreatest"@,
            PostAggregationView::LongLeast { .. } => "longLeast"@,
            PostAggregationView::DoubleLeast { .. } => "doubleLeast"@,
            PostAggregationView::Javascript { .. } => "javascript"@,
        }
    }

    /// Whether a discriminator stands for a variant of this family.
    pub open spec fn known_tag(t: Seq<char>) -> bool {
        t == "arithmetic"@
            || t == "doubleGreatest"@
            || t == "longGreatest"@
            || t == "longLeast"@
            || t == "doubleLeast"@
            || t == "javascript"@
    }

    /// The wire form.
    pub open spec fn wire(self) -> JsonValue
        decreases self,
    {
        match self {
            PostAggregationView::Arithmetic { name, function, fields, ordering } => {
                let members = Seq::empty()
                    .push(member("type"@, text("arithmetic"@)))
                    .push(member("name"@, text(name)))
                    .push(member("fn"@, text(function)))
                    .push(
                        member("fields"@, JsonValue::Array(PostAggregatorView::wire_list(fields))),
                    );
                let members = match ordering {
                    Some(v) => members.push(member("ordering"@, text(v))),
                    None => members,
                };
                JsonValue::Object(members)
            },
            PostAggregationView::DoubleGreatest { name, fields } => JsonValue::Object(
                Seq::empty()
                    .push(member("type"@, text("doubleGreatest"@)))
                    .push(member("name"@, text(name)))
                    .push(
                        member("fields"@, JsonValue::Array(PostAggregationView::wire_list(fields))),
                    ),
            ),
            PostAggregationView::LongGreatest { name, fields } => JsonValue::Object(
                Seq::empty()
                    .push(member("type"@, text("longGreatest"@)))
                    .push(member("name"@, text(name)))
                    .push(
                        member("fields"@, JsonValue::Array(PostAggregationView::wire_list(fields))),
                    ),
            ),
            PostAggregationView::LongLeast { name, fields } => JsonValue::Object(
                Seq::empty()
                    .push(member("type"@, text("longLeast"@)))
                    .push(member("name"@, text(name)))
                    .push(
                        member("fields"@, JsonValue::Array(PostAggregationView::wire_list(fields))),
                    ),
            ),
            PostAggregationView::DoubleLeast { name, fields } => JsonValue::Object(
                Seq::empty()
                    .push(member("type"@, text("doubleLeast"@)))
                    .push(member("name"@, text(name)))
                    .push(
                        member("fields"@, JsonValue::Array(PostAggregationView::wire_list(fields))),
                    ),
            ),
            PostAggregationView::Javascript { name, field_names, function } => JsonValue::Object(
                Seq::empty()
                    .push(member("type"@, text("javascript"@)))
                    .push(member("name"@, text(name)))
                    .push(member("fieldNames"@, texts(field_names)))
                    .push(member("function"@, text(function))),
            ),
        }
    }

    /// The wire forms of the elements of a list.
    pub open spec fn wire_list(list: Seq<PostAggregationView>) -> Seq<JsonValue>
        decreases list,
    {
        Seq::new(
            list.len(),
            |i: int| if 0 <= i < list.len() { list[i].wire() } else { arbitrary() },
        )
    }

    /// What a document is read as.
    pub open spec fn parse(j: JsonValue) -> Result<PostAggregationView, Failure>
        decreases j,
    {
        match as_members(j) {
            Ok(m) => match text_field(m, "type"@) {
                Ok(t) => if t == "arithmetic"@ {
                    Self::parse_arithmetic(m)
                } else if t == "doubleGreatest"@ {
                    Self::parse_double_greatest(m)
                } else if t == "longGreatest"@ {
                    Self::parse_long_greatest(m)
                } else if t == "longLeast"@ {
                    Self::parse_long_least(m)
                } else if t == "doubleLeast"@ {
                    Self::parse_double_least(m)
                } else if t == "javascript"@ {
                    Self::parse_javascript(m)
                } else {
                    Err(Failure::here(DecodeCause::UnknownVariant).within_key("type"@))
                },
                Err(e) => Err(e),
            },
            Err(e) => Err(e),
        }
    }

    /// The members of the variant `arithmetic`, read.
    pub open spec fn parse_arithmetic(m: Seq<MemberValue>) -> Result<PostAggregationView, Failure>
        decreases m,
    {
        let name = text_field(m, "name"@);
        let function = text_field(m, "fn"@);
        let fields = match items_field(m, "fields"@) {
            Ok(items) => under("fields"@, PostAggregatorView::parse_list(items)),
            Err(e) => Err(e),
        };
        let ordering = opt_text_field(m, "ordering"@);
        if name is Err {
            Err(name->Err_0)
        } else if function is Err {
            Err(function->Err_0)
        } else if fields is Err {
            Err(fields->Err_0)
        } else if ordering is Err {
            Err(ordering->Err_0)
        } else {
            Ok(
                PostAggregationView::Arithmetic {
                    name: name->Ok_0,
                    function: function->Ok_0,
                    fields: fields->Ok_0,
                    ordering: ordering->Ok_0,
                },
            )
        }
    }

    /// The members of the variant `doubleGreatest`, read.
    pub open spec fn parse_double_greatest(m: Seq<MemberValue>) -> Result<PostAggregationView, Failure>
        decreases m,
    {
        let name = text_field(m, "name"@);
        let fields = match items_field(m, "fields"@) {
            Ok(items) => {
                proof { lemma_items_field_smaller(m, "fields"@); }
                under("fields"@, PostAggregationView::parse_list(items))
            },
            Err(e) => Err(e),
        };
        if name is Err {
            Err(name->Err_0)
        } else if fields is Err {
            Err(fields->Err_0)
        } else {
            Ok(PostAggregationView::DoubleGreatest { name: name->Ok_0, fields: fields->Ok_0 })
        }
    }

    /// The members of the variant `longGreatest`, read.
    pub open spec fn parse_long_greatest(m: Seq<MemberValue>) -> Result<PostAggregationView, Failure>
        decreases m,
    {
        let name = text_field(m, "name"@);
        let fields = match items_field(m, "fields"@) {
            Ok(items) => {
                proof { lemma_items_field_smaller(m, "fields"@); }
                under("fields"@, PostAggregationView::parse_list(items))
            },
            Err(e) => Err(e),
        };
        if name is Err {
            Err(name->Err_0)
        } else if fields is Err {
            Err(fields->Err_0)
        } else {
            Ok(PostAggregationView::LongGreatest { name: name->Ok_0, fields: fields->Ok_0 })
        }
    }

    /// The members of the variant `longLeast`, read.
    pub open spec fn parse_long_least(m: Seq<MemberValue>) -> Result<PostAggregationView, Failure>
        decreases m,
    {
        let name = text_field(m, "name"@);
        let fields = match items_field(m, "fields"@) {
            Ok(items) => {
                proof { lemma_items_field_smaller(m, "fields"@); }
                under("fields"@, PostAggregationView::parse_list(items))
            },
            Err(e) => Err(e),
        };
        if name is Err {
            Err(name->Err_0)
        } else if fields is Err {
            Err(fields->Err_0)
        } else {
            Ok(PostAggregationView::LongLeast { name: name->Ok_0, fields: fields->Ok_0 })
        }
    }

    /// The members of the variant `doubleLeast`, read.
    pub open spec fn parse_double_least(m: Seq<MemberValue>) -> Result<PostAggregationView, Failure>
        decreases m,
    {
        let name = text_field(m, "name"@);
        let fields = match items_field(m, "fields"@) {
            Ok(items) => {
                proof { lemma_items_field_smaller(m, "fields"@); }
                under("fields"@, PostAggregationView::parse_list(items))
            },
            Err(e) => Err(e),
        };
        if name is Err {
            Err(name->Err_0)
        } else if fields is Err {
            Err(fields->Err_0)
        } else {
            Ok(PostAggregationView::DoubleLeast { name: name->Ok_0, fields: fields->Ok_0 })
        }
    }

    /// The members of the variant `javascript`, read.
    pub open spec fn parse_javascript(m: Seq<MemberValue>) -> Result<PostAggregationView, Failure>
        decreases m,
    {
        let name = text_field(m, "name"@);
        let field_names = texts_field(m, "fieldNames"@);
        let function = text_field(m, "function"@);
        if name is Err {
            Err(name->Err_0)
        } else if field_names is Err {
            Err(field_names->Err_0)
        } else if function is Err {
            Err(function->Err_0)
        } else {
            Ok(
                PostAggregationView::Javascript {
                    name: name->Ok_0,
                    field_names: field_names->Ok_0,
                    function: function->Ok_0,
                },
            )
        }
    }

    /// Every element of an array, read: the list of what was read, or
    /// the failure of the first element that is refused, seen from its
    /// index.
    pub open spec fn parse_list(items: Seq<JsonValue>) -> Result<Seq<PostAggregationView>, Failure>
        decreases items,
    {
        if items.len() == 0 {
            Ok(Seq::empty())
        } else {
            match Self::parse_list(items.drop_last()) {
                Ok(front) => match Self::parse(items.last()) {
                    Ok(v) => Ok(front.push(v)),
                    Err(e) => Err(e.within_index((items.len() - 1) as nat)),
                },
                Err(e) => Err(e),
            }
        }
    }

    /// [`Self::wire_list`] writes each element.
    pub proof fn lemma_wire_list(list: Seq<PostAggregationView>)
        ensures
            Self::wire_list(list) == list.map_values(|x: PostAggregationView| x.wire()),
    {
        assert(Self::wire_list(list) =~= list.map_values(|x: PostAggregationView| x.wire()));
    }

    /// [`Self::parse_list`] reads each element.
    pub proof fn lemma_parse_list(items: Seq<JsonValue>)
        ensures
            Self::parse_list(items) == read_all(items, |j: JsonValue| Self::parse(j)),
        decreases items.len(),
    {
        let read = |j: JsonValue| Self::parse(j);
        if items.len() == 0 {
            lemma_read_all_empty(items, read);
        } else {
            Self::lemma_parse_list(items.drop_last());
            lemma_read_all_step(items, read);
        }
    }

    /// What is written is never `null`.
    pub proof fn lemma_wire_not_null(self)
        ensures
            !(self.wire() is Null),
    {
    }

    /// Reading back what was written gives the value again.
    pub proof fn lemma_round_trip(self)
        ensures
            Self::parse(self.wire()) == Ok::<PostAggregationView, Failure>(self),
        decreases self,
    {
        match self {
            PostAggregationView::Arithmetic { name, function, fields, ordering } => {
                PostAggregatorView::lemma_list_round_trip(fields);
                Self::lemma_members_arithmetic(
                    self.wire(),
                    name,
                    function,
                    fields,
                    PostAggregatorView::wire_list(fields),
                    ordering,
                );
                Self::lemma_parse_arithmetic(self.wire());
            },
            PostAggregationView::DoubleGreatest { name, fields } => {
                PostAggregationView::lemma_list_round_trip(fields);
                Self::lemma_members_double_greatest(
                    self.wire(),
                    name,
                    fields,
                    PostAggregationView::wire_list(fields),
                );
                Self::lemma_parse_double_greatest(self.wire());
            },
            PostAggregationView::LongGreatest { name, fields } => {
                PostAggregationView::lemma_list_round_trip(fields);
                Self::lemma_members_long_greatest(
                    self.wire(),
                    name,
                    fields,
                    PostAggregationView::wire_list(fields),
                );
                Self::lemma_parse_long_greatest(self.wire());
            },
            PostAggregationView::LongLeast { name, fields } => {
                PostAggregationView::lemma_list_round_trip(fields);
                Self::lemma_members_long_least(
                    self.wire(),
                    name,
                    fields,
                    PostAggregationView::wire_list(fields),
                );
                Self::lemma_parse_long_least(self.wire());
            },
            PostAggregationView::DoubleLeast { name, fields } => {
                PostAggregationView::lemma_list_round_trip(fields);
                Self::lemma_members_double_least(
                    self.wire(),
                    name,
                    fields,
                    PostAggregationView::wire_list(fields),
                );
                Self::lemma_parse_double_least(self.wire());
            },
            PostAggregationView::Javascript { name, field_names, function } => {
                Self::lemma_members_javascript(self.wire(), name, field_names, function);
                Self::lemma_parse_javascript(self.wire());
            },
        }
    }

    /// The members that are written for the variant `arithmetic` are read
    /// back as the value, given that its parts are read back from their
    /// wire forms.
    proof fn lemma_members_arithmetic(
        j: JsonValue,
        name: Seq<char>,
        function: Seq<char>,
        fields: Seq<PostAggregatorView>,
        fields_items: Seq<JsonValue>,
        ordering: Option<Seq<char>>,
    )
        requires
            j == ({
                    let members = Seq::empty()
                        .push(member("type"@, text("arithmetic"@)))
                        .push(member("name"@, text(name)))
                        .push(member("fn"@, text(function)))
                        .push(member("fields"@, JsonValue::Array(fields_items)));
                    let members = match ordering {
                        Some(v) => members.push(member("ordering"@, text(v))),
                        None => members,
                    };
                    JsonValue::Object(members)
            }),
            PostAggregatorView::parse_list(fields_items)
                == Ok::<Seq<PostAggregatorView>, Failure>(fields),
        ensures
            j is Object,
            Self::parse_arithmetic(j->Object_0) == Ok::<PostAggregationView, Failure>(
                PostAggregationView::Arithmetic { name, function, fields, ordering },
            ),
            text_field(j->Object_0, "type"@) == Ok::<Seq<char>, Failure>("arithmetic"@),
    {
        broadcast use {lemma_lookup_push, lemma_lookup_empty};

        lemma_keys();
    }

    /// An object with the discriminator `arithmetic` is read as that variant.
    proof fn lemma_parse_arithmetic(j: JsonValue)
        requires
            j is Object,
            text_field(j->Object_0, "type"@) == Ok::<Seq<char>, Failure>("arithmetic"@),
        ensures
            Self::parse(j) == Self::parse_arithmetic(j->Object_0),
    {
        lemma_tags();
    }

    /// The members that are written for the variant `doubleGreatest` are read
    /// back as the value, given that its parts are read back from their
    /// wire forms.
    proof fn lemma_members_double_greatest(
        j: JsonValue,
        name: Seq<char>,
        fields: Seq<PostAggregationView>,
        fields_items: Seq<JsonValue>,
    )
        requires
            j == JsonValue::Object(
                Seq::empty()
                    .push(member("type"@, text("doubleGreatest"@)))
                    .push(member("name"@, text(name)))
                    .push(member("fields"@, JsonValue::Array(fields_items))),
            ),
            PostAggregationView::parse_list(fields_items)
                == Ok::<Seq<PostAggregationView>, Failure>(fields),
        ensures
            j is Object,
            Self::parse_double_greatest(j->Object_0) == Ok::<PostAggregationView, Failure>(
                PostAggregationView::DoubleGreatest { name, fields },
            ),
            text_field(j->Object_0, "type"@) == Ok::<Seq<char>, Failure>("doubleGreatest"@),
    {
        broadcast use {lemma_lookup_push, lemma_lookup_empty};

        lemma_keys();
    }

    /// An object with the discriminator `doubleGreatest` is read as that variant.
    proof fn lemma_parse_double_greatest(j: JsonValue)
        requires
            j is Object,
            text_field(j->Object_0, "type"@) == Ok::<Seq<char>, Failure>("doubleGreatest"@),
        ensures
            Self::parse(j) == Self::parse_double_greatest(j->Object_0),
    {
        lemma_tags();
    }

    /// The members that are written for the variant `longGreatest` are read
    /// back as the value, given that its parts are read back from their
    /// wire forms.
    proof fn lemma_members_long_greatest(
        j: JsonValue,
        name: Seq<char>,
        fields: Seq<PostAggregationView>,
        fields_items: Seq<JsonValue>,
    )
        requires
            j == JsonValue::Object(
                Seq::empty()
                    .push(member("type"@, text("longGreatest"@)))
                    .push(member("name"@, text(name)))
                    .push(member("fields"@, JsonValue::Array(fields_items))),
            ),
            PostAggregationView::parse_list(fields_items)
                == Ok::<Seq<PostAggregationView>, Failure>(fields),
        ensures
            j is Object,
            Self::parse_long_greatest(j->Object_0) == Ok::<PostAggregationView, Failure>(
                PostAggregationView::LongGreatest { name, fields },
            ),
            text_field(j->Object_0, "type"@) == Ok::<Seq<char>, Failure>("longGreatest"@),
    {
        broadcast use {lemma_lookup_push, lemma_lookup_empty};

        lemma_keys();
    }

    /// An object with the discriminator `longGreatest` is read as that variant.
    proof fn lemma_parse_long_greatest(j: JsonValue)
        requires
            j is Object,
            text_field(j->Object_0, "type"@) == Ok::<Seq<char>, Failure>("longGreatest"@),
        ensures
            Self::parse(j) == Self::parse_long_greatest(j->Object_0),
    {
        lemma_tags();
    }

    /// The members that are written for the variant `longLeast` are read
    /// back as the value, given that its parts are read back from their
    /// wire forms.
    proof fn lemma_members_long_least(
        j: JsonValue,
        name: Seq<char>,
        fields: Seq<PostAggregationView>,
        fields_items: Seq<JsonValue>,
    )
        requires
            j == JsonValue::Object(
                Seq::empty()
                    .push(member("type"@, text("longLeast"@)))
                    .push(member("name"@, text(name)))
                    .push(member("fields"@, JsonValue::Array(fields_items))),
            ),
            PostAggregationView::parse_list(fields_items)
                == Ok::<Seq<PostAggregationView>, Failure>(fields),
        ensures
            j is Object,
            Self::parse_long_least(j->Object_0) == Ok::<PostAggregationView, Failure>(
                PostAggregationView::LongLeast { name, fields },
            ),
            text_field(j->Object_0, "type"@) == Ok::<Seq<char>, Failure>("longLeast"@),
    {
        broadcast use {lemma_lookup_push, lemma_lookup_empty};

        lemma_keys();
    }

    /// An object with the discriminator `longLeast` is read as that variant.
    proof fn lemma_parse_long_least(j: JsonValue)
        requires
            j is Object,
            text_field(j->Object_0, "type"@) == Ok::<Seq<char>, Failure>("longLeast"@),
        ensures
            Self::parse(j) == Self::parse_long_least(j->Object_0),
    {
        lemma_tags();
    }

    /// The members that are written for the variant `doubleLeast` are read
    /// back as the value, given that its parts are read back from their
    /// wire forms.
    proof fn lemma_members_double_least(
        j: JsonValue,
        name: Seq<char>,
        fields: Seq<PostAggregationView>,
        fields_items: Seq<JsonValue>,
    )
        requires
            j == JsonValue::Object(
                Seq::empty()
                    .push(member("type"@, text("doubleLeast"@)))
                    .push(member("name"@, text(name)))
                    .push(member("fields"@, JsonValue::Array(fields_items))),
            ),
            PostAggregationView::parse_list(fields_items)
                == Ok::<Seq<PostAggregationView>, Failure>(fields),
        ensures
            j is Object,
            Self::parse_double_least(j->Object_0) == Ok::<PostAggregationView, Failure>(
                PostAggregationView::DoubleLeast { name, fields },
            ),
            text_field(j->Object_0, "type"@) == Ok::<Seq<char>, Failure>("doubleLeast"@),
    {
        broadcast use {lemma_lookup_push, lemma_lookup_empty};

        lemma_keys();
    }

    /// An object with the discriminator `doubleLeast` is read as that variant.
    proof fn lemma_parse_double_least(j: JsonValue)
        requires
            j is Object,
            text_field(j->Object_0, "type"@) == Ok::<Seq<char>, Failure>("doubleLeast"@),
        ensures
            Self::parse(j) == Self::parse_double_least(j->Object_0),
    {
        lemma_tags();
    }

    /// The members that are written for the variant `javascript` are read
    /// back as the value, given that its parts are read back from their
    /// wire forms.
    proof fn lemma_members_javascript(
        j: JsonValue,
        name: Seq<char>,
        field_names: Seq<Seq<char>>,
        function: Seq<char>,
    )
        requires
            j == JsonValue::Object(
                Seq::empty()
                    .push(member("type"@, text("javascript"@)))
                    .push(member("name"@, text(name)))
                    .push(member("fieldNames"@, texts(field_names)))
                    .push(member("function"@, text(function))),
            ),
        ensures
            j is Object,
            Self::parse_javascript(j->Object_0) == Ok::<PostAggregationView, Failure>(
                PostAggregationView::Javascript { name, field_names, function },
            ),
            text_field(j->Object_0, "type"@) == Ok::<Seq<char>, Failure>("javascript"@),
    {
        broadcast use {lemma_lookup_push, lemma_lookup_empty};

        lemma_keys();
        lemma_texts_round_trip(field_names);
    }

    /// An object with the discriminator `javascript` is read as that variant.
    proof fn lemma_parse_javascript(j: JsonValue)
        requires
            j is Object,
            text_field(j->Object_0, "type"@) == Ok::<Seq<char>, Failure>("javascript"@),
        ensures
            Self::parse(j) == Self::parse_javascript(j->Object_0),
    {
        lemma_tags();
    }

    /// Reading back a list that was written gives the list again.
    pub proof fn lemma_list_round_trip(list: Seq<PostAggregationView>)
        ensures
            Self::parse_list(Self::wire_list(list))
                == Ok::<Seq<PostAggregationView>, Failure>(list),
        decreases list,
    {
        let items = Self::wire_list(list);
        let read = |j: JsonValue| Self::parse(j);
        assert forall|i: int| 0 <= i < items.len() implies (#[trigger] read(items[i]))
            == Ok::<PostAggregationView, Failure>(list[i]) by {
            list[i].lemma_round_trip();
        }
        lemma_read_all_accepted(items, read, list);
        Self::lemma_parse_list(items);
    }

    /// What is written for a variant carries its discriminator.
    pub proof fn lemma_tag(self)
        ensures
            self.wire() is Object,
            text_field(self.wire()->Object_0, "type"@) == Ok::<Seq<char>, Failure>(self.tag()),
            Self::known_tag(self.tag()),
    {
        broadcast use {lemma_lookup_push, lemma_lookup_empty};

        lemma_keys();
    }

    /// An object whose discriminator stands for no variant of the
    /// family is refused as an unknown variant; it is read as none.
    pub proof fn lemma_unknown_tag(j: JsonValue)
        requires
            j is Object,
            text_field(j->Object_0, "type"@) is Ok,
            !Self::known_tag(text_field(j->Object_0, "type"@)->Ok_0),
        ensures
            Self::parse(j) == Err::<PostAggregationView, Failure>(
                Failure::here(DecodeCause::UnknownVariant).within_key("type"@),
            ),
    {
    }

}

impl PostAggregation {
    /// An arithmetic post-aggregation: `function` is applied to `fields`.
    pub fn arithmetic(
        name: &str,
        function: &str,
        fields: Vec<PostAggregator>,
        ordering: Option<String>,
    ) -> (out: PostAggregation)
        ensures
            out@ == (
                PostAggregationView::Arithmetic {
                    name: name@,
                    function: function@,
                    fields: list_view(fields@),
                    ordering: opt_view(ordering),
                }
            ),
    {
        PostAggregation::Arithmetic {
            name: name.to_string(),
            function: function.to_string(),
            fields,
            ordering,
        }
    }

    /// Writes the value in its wire form.
    pub fn encode(&self) -> (j: Json)
        ensures
            j@ == self@.wire(),
        decreases self,
    {
        let mut m = no_members();
        match self {
            PostAggregation::Arithmetic { name, function, fields, ordering } => {
                put(&mut m, "type", text_json("arithmetic"));
                put(&mut m, "name", text_json(name.as_str()));
                put(&mut m, "fn", text_json(function.as_str()));
                put(&mut m, "fields", array_json(PostAggregator::encode_list(fields)));
                match ordering {
                    Some(v) => {
                        put(&mut m, "ordering", text_json(v.as_str()));
                    },
                    None => {},
                }
            },
            PostAggregation::DoubleGreatest { name, fields } => {
                proof {
                    PostAggregation::lemma_values(fields@);
                }
                put(&mut m, "type", text_json("doubleGreatest"));
                put(&mut m, "name", text_json(name.as_str()));
                put(&mut m, "fields", array_json(PostAggregation::encode_list(fields)));
            },
            PostAggregation::LongGreatest { name, fields } => {
                proof {
                    PostAggregation::lemma_values(fields@);
                }
                put(&mut m, "type", text_json("longGreatest"));
                put(&mut m, "name", text_json(name.as_str()));
                put(&mut m, "fields", array_json(PostAggregation::encode_list(fields)));
            },
            PostAggregation::LongLeast { name, fields } => {
                proof {
                    PostAggregation::lemma_values(fields@);
                }
                put(&mut m, "type", text_json("longLeast"));
                put(&mut m, "name", text_json(name.as_str()));
                put(&mut m, "fields", array_json(PostAggregation::encode_list(fields)));
            },
            PostAggregation::DoubleLeast { name, fields } => {
                proof {
                    PostAggregation::lemma_values(fields@);
                }
                put(&mut m, "type", text_json("doubleLeast"));
                put(&mut m, "name", text_json(name.as_str()));
                put(&mut m, "fields", array_json(PostAggregation::encode_list(fields)));
            },
            PostAggregation::Javascript { name, field_names, function } => {
                put(&mut m, "type", text_json("javascript"));
                put(&mut m, "name", text_json(name.as_str()));
                put(&mut m, "fieldNames", texts_json(field_names));
                put(&mut m, "function", text_json(function.as_str()));
            },
        }
        object_json(m)
    }

    /// Writes each element of a list in its wire form.
    pub fn encode_list(list: &Vec<PostAggregation>) -> (items: Vec<Json>)
        ensures
            items_view(items@) == PostAggregationView::wire_list(list_view(list@)),
        decreases list,
    {
        let mut items: Vec<Json> = Vec::new();
        let mut i: usize = 0;
        while i < list.len()
            invariant
                i <= list.len(),
                items.len() == i,
                forall|k: int| 0 <= k < i ==> items[k]@ == list[k]@.wire(),
            decreases list.len() - i,
        {
            items.push(list[i].encode());
            i += 1;
        }
        assert(items_view(items@) =~= PostAggregationView::wire_list(list_view(list@)));
        items
    }

    /// Reads a value from its wire form.
    pub fn decode(j: &Json) -> (r: Result<PostAggregation, DecodeError>)
        ensures
            decoded(r) == PostAggregationView::parse(j@),
        decreases j,
    {
        let m = read_members(j)?;
        let t = text_member(m, "type")?;
        if str_eq(t.as_str(), "arithmetic") {
            Self::decode_arithmetic(m)
        } else if str_eq(t.as_str(), "doubleGreatest") {
            Self::decode_double_greatest(m)
        } else if str_eq(t.as_str(), "longGreatest") {
            Self::decode_long_greatest(m)
        } else if str_eq(t.as_str(), "longLeast") {
            Self::decode_long_least(m)
        } else if str_eq(t.as_str(), "doubleLeast") {
            Self::decode_double_least(m)
        } else if str_eq(t.as_str(), "javascript") {
            Self::decode_javascript(m)
        } else {
            Err(DecodeError::here(DecodeCause::UnknownVariant).within_key("type"))
        }
    }

    fn decode_arithmetic(m: &Vec<Member>) -> (r: Result<PostAggregation, DecodeError>)
        ensures
            decoded(r) == PostAggregationView::parse_arithmetic(members_view(m@)),
        decreases m,
    {
        let name = text_member(m, "name")?;
        let function = text_member(m, "fn")?;
        let fields = under_key(PostAggregator::decode_list(items_member(m, "fields")?), "fields")?;
        let ordering = opt_text_member(m, "ordering")?;
        Ok(PostAggregation::Arithmetic { name, function, fields, ordering })
    }

    fn decode_double_greatest(m: &Vec<Member>) -> (r: Result<PostAggregation, DecodeError>)
        ensures
            decoded(r) == PostAggregationView::parse_double_greatest(members_view(m@)),
        decreases m,
    {
        let name = text_member(m, "name")?;
        let fields = under_key(PostAggregation::decode_list(items_member(m, "fields")?), "fields")?;
        proof {
            PostAggregation::lemma_values(fields@);
        }
        Ok(PostAggregation::DoubleGreatest { name, fields })
    }

    fn decode_long_greatest(m: &Vec<Member>) -> (r: Result<PostAggregation, DecodeError>)
        ensures
            decoded(r) == PostAggregationView::parse_long_greatest(members_view(m@)),
        decreases m,
    {
        let name = text_member(m, "name")?;
        let fields = under_key(PostAggregation::decode_list(items_member(m, "fields")?), "fields")?;
        proof {
            PostAggregation::lemma_values(fields@);
        }
        Ok(PostAggregation::LongGreatest { name, fields })
    }

    fn decode_long_least(m: &Vec<Member>) -> (r: Result<PostAggregation, DecodeError>)
        ensures
            decoded(r) == PostAggregationView::parse_long_least(members_view(m@)),
        decreases m,
    {
        let name = text_member(m, "name")?;
        let fields = under_key(PostAggregation::decode_list(items_member(m, "fields")?), "fields")?;
        proof {
            PostAggregation::lemma_values(fields@);
        }
        Ok(PostAggregation::LongLeast { name, fields })
    }

    fn decode_double_least(m: &Vec<Member>) -> (r: Result<PostAggregation, DecodeError>)
        ensures
            decoded(r) == PostAggregationView::parse_double_least(members_view(m@)),
        decreases m,
    {
        let name = text_member(m, "name")?;
        let fields = under_key(PostAggregation::decode_list(items_member(m, "fields")?), "fields")?;
        proof {
            PostAggregation::lemma_values(fields@);
        }
        Ok(PostAggregation::DoubleLeast { name, fields })
    }

    fn decode_javascript(m: &Vec<Member>) -> (r: Result<PostAggregation, DecodeError>)
        ensures
            decoded(r) == PostAggregationView::parse_javascript(members_view(m@)),
        decreases m,
    {
        let name = text_member(m, "name")?;
        let field_names = texts_member(m, "fieldNames")?;
        let function = text_member(m, "function")?;
        Ok(PostAggregation::Javascript { name, field_names, function })
    }

    /// Reads each element of an array from its wire form.
    pub fn decode_list(items: &Vec<Json>) -> (r: Result<Vec<PostAggregation>, DecodeError>)
        ensures
            decoded_list(r) == PostAggregationView::parse_list(items_view(items@)),
        decreases items,
    {
        let ghost read = |j: JsonValue| PostAggregationView::parse(j);
        let mut out: Vec<PostAggregation> = Vec::new();
        let mut i: usize = 0;
        while i < items.len()
            invariant
                i <= items.len(),
                out.len() == i,
                read == (|j: JsonValue| PostAggregationView::parse(j)),
                forall|k: int|
                0 <= k < i ==>
                    (#[trigger] read(items_view(items@)[k]))
                        == Ok::<PostAggregationView, Failure>(out[k]@),
            decreases items.len() - i,
        {
            match PostAggregation::decode(&items[i]) {
                Ok(v) => {
                    out.push(v);
                },
                Err(e) => {
                    proof {
                        assert(read(items_view(items@)[i as int]) is Err);
                        lemma_read_all_refused(items_view(items@), read, i as int);
                        PostAggregationView::lemma_parse_list(items_view(items@));
                    }
                    return Err(e.within_index(i));
                },
            }
            i += 1;
        }
        proof {
            lemma_read_all_accepted(items_view(items@), read, list_view(out@));
            PostAggregationView::lemma_parse_list(items_view(items@));
        }
        Ok(out)
    }
}

/// The names of the members differ from one another.
proof fn lemma_keys()
    ensures
        "fieldName"@.len() == 9,
        "fieldNames"@.len() == 10,
        "fields"@.len() == 6,
        "fn"@.len() == 2,
        "function"@.len() == 8,
        "name"@.len() == 4,
        "ordering"@.len() == 8,
        "type"@.len() == 4,
        "value"@.len() == 5,
        "name"@[0] == 'n',
        "type"@[0] == 't',
        "function"@[0] == 'f',
        "ordering"@[0] == 'o',
{
    reveal_strlit("fieldName");
    reveal_strlit("fieldNames");
    reveal_strlit("fields");
    reveal_strlit("fn");
    reveal_strlit("function");
    reveal_strlit("name");
    reveal_strlit("ordering");
    reveal_strlit("type");
    reveal_strlit("value");
}

/// The names that stand for the variants differ from one another.
proof fn lemma_tags()
    ensures
        "arithmetic"@.len() == 10,
        "constant"@.len() == 8,
        "doubleGreatest"@.len() == 14,
        "doubleLeast"@.len() == 11,
        "fieldAccess"@.len() == 11,
        "finalizingFieldAccess"@.len() == 21,
        "hyperUniqueCardinality"@.len() == 22,
        "javascript"@.len() == 10,
        "longGreatest"@.len() == 12,
        "longLeast"@.len() == 9,
        "arithmetic"@[0] == 'a',
        "javascript"@[0] == 'j',
        "doubleLeast"@[0] == 'd',
        "fieldAccess"@[0] == 'f',
{
    reveal_strlit("arithmetic");
    reveal_strlit("constant");
    reveal_strlit("doubleGreatest");
    reveal_strlit("doubleLeast");
    reveal_strlit("fieldAccess");
    reveal_strlit("finalizingFieldAccess");
    reveal_strlit("hyperUniqueCardinality");
    reveal_strlit("javascript");
    reveal_strlit("longGreatest");
    reveal_strlit("longLeast");
}

} // verus!
