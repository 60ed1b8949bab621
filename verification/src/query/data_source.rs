//! Data sources: what a query reads from.

use vstd::prelude::*;
use crate::codec::{
    as_members, as_text, lemma_lookup_smaller, lemma_texts_round_trip, list_view, member,
    no_members, object_json, opt_view, put, read_members, read_str, required, required_field,
    strings_view, strs_view, text, text_field, text_json, text_member, texts, texts_field,
    texts_json, texts_member, to_strings, under, under_key,
};
use crate::error::{decoded, CodecError, CodecErrorValue, DecodeCause, DecodeError, Failure};
use crate::json::{
    lemma_lookup_empty, lemma_lookup_push, members_view, str_eq, Json, JsonValue, Member,
    MemberValue,
};
use crate::query::any_query::{Query, QueryView};
use crate::string_map::{distinct_keys, lemma_map_round_trip, map_parse, map_wire, StringMap};

verus! {

/// How the rows of the two sides of a join are matched.
#[derive(Clone, Copy, Debug, PartialEq, Eq, Structural)]
pub enum JoinType {
    /// Rows that have a match on both sides.
    Inner,
    /// Every row of the left side.
    Left,
}

impl View for JoinType {
    type V = JoinType;

    open spec fn view(&self) -> JoinType {
        *self
    }
}

impl JoinType {
    /// The name that stands for the value on the wire.
    pub open spec fn name(self) -> Seq<char> {
        match self {
            JoinType::Inner => "INNER"@,
            JoinType::Left => "LEFT"@,
        }
    }

    /// The value that a name stands for, if it stands for one.
    pub open spec fn named(s: Seq<char>) -> Option<JoinType> {
        if s == "INNER"@ {
            Some(JoinType::Inner)
        } else if s == "LEFT"@ {
            Some(JoinType::Left)
        } else {
            None
        }
    }

    /// The wire form: the name, as a string.
    pub open spec fn wire(self) -> JsonValue {
        text(self.name())
    }

    /// What a document is read as: a string that is one of the names
    /// gives its value, any other string is an unknown variant, and
    /// anything but a string a type mismatch.
    pub open spec fn parse(j: JsonValue) -> Result<JoinType, Failure> {
        match as_text(j) {
            Ok(s) => match Self::named(s) {
                Some(v) => Ok(v),
                None => Err(Failure::here(DecodeCause::UnknownVariant)),
            },
            Err(e) => Err(e),
        }
    }

    /// Writes the value in its wire form.
    pub fn encode(&self) -> (j: Json)
        ensures
            j@ == self.wire(),
    {
        match self {
            JoinType::Inner => text_json("INNER"),
            JoinType::Left => text_json("LEFT"),
        }
    }

    /// Reads a value from its wire form.
    pub fn decode(j: &Json) -> (r: Result<JoinType, DecodeError>)
        ensures
            decoded(r) == Self::parse(j@),
    {
        let s = match read_str(j) {
            Ok(s) => s,
            Err(e) => {
                return Err(e);
            },
        };
        if str_eq(s, "INNER") {
            Ok(JoinType::Inner)
        } else if str_eq(s, "LEFT") {
            Ok(JoinType::Left)
        } else {
            Err(DecodeError::here(DecodeCause::UnknownVariant))
        }
    }

    /// Reading back what was written gives the value again.
    pub proof fn lemma_round_trip(self)
        ensures
            Self::parse(self.wire()) == Ok::<JoinType, Failure>(self),
    {
        lemma_tags();
    }

    /// A string that is none of the names is refused as an unknown
    /// variant.
    pub proof fn lemma_unknown_name(s: Seq<char>)
        requires
            Self::named(s) is None,
        ensures
            Self::parse(text(s)) == Err::<JoinType, Failure>(
                Failure::here(DecodeCause::UnknownVariant),
            ),
    {
    }
}

/// What a query reads from.
#[derive(Debug, PartialEq)]
pub enum DataSource {
    /// A table, by its name.
    Table {
        name: String,
    },
    /// The result of another query.
    Query {
        query: Box<Query>,
    },
    /// The rows of several tables, one table after the other.
    Union {
        data_sources: Vec<String>,
    },
    /// The rows of two data sources, joined on a condition. The columns of the right side are named with a prefix.
    Join {
        left: Box<DataSource>,
        right: Box<DataSource>,
        right_prefix: String,
        condition: String,
        join_type: JoinType,
    },
}

/// Mathematical value of a [`DataSource`].
pub enum DataSourceView {
    Table {
        name: Seq<char>,
    },
    Query {
        query: Box<QueryView>,
    },
    Union {
        data_sources: Seq<Seq<char>>,
    },
    Join {
        left: Box<DataSourceView>,
        right: Box<DataSourceView>,
        right_prefix: Seq<char>,
        condition: Seq<char>,
        join_type: JoinType,
    },
}

impl DataSource {
    /// The mathematical value.
    pub open spec fn value(self) -> DataSourceView
        decreases self,
    {
        match self {
            DataSource::Table { name } => DataSourceView::Table {
                name: name@,
            },
            DataSource::Query { query } => DataSourceView::Query {
                query: Box::new(query.value()),
            },
            DataSource::Union { data_sources } => DataSourceView::Union {
                data_sources: strings_view(data_sources@),
            },
            DataSource::Join { left, right, right_prefix, condition, join_type } => DataSourceView::Join {
                left: Box::new(left.value()),
                right: Box::new(right.value()),
                right_prefix: right_prefix@,
                condition: condition@,
                join_type: join_type,
            },
        }
    }

    /// The mathematical values of the elements of a list.
    pub open spec fn values(list: Seq<DataSource>) -> Seq<DataSourceView>
        decreases list,
    {
        Seq::new(
            list.len(),
            |i: int| if 0 <= i < list.len() { list[i].value() } else { arbitrary() },
        )
    }

    /// [`Self::values`] is the view of the list.
    pub proof fn lemma_values(list: Seq<DataSource>)
        ensures
            Self::values(list) == list_view(list),
    {
        assert(Self::values(list) =~= list_view(list));
    }
}

impl View for DataSource {
    type V = DataSourceView;

    open spec fn view(&self) -> DataSourceView {
        self.value()
    }
}

impl DataSourceView {
    /// The discriminator that stands for the variant on the wire.
    pub open spec fn tag(self) -> Seq<char> {
        match self {
            DataSourceView::Table { .. } => "table"@,
            DataSourceView::Query { .. } => "query"@,
            DataSourceView::Union { .. } => "union"@,
            DataSourceView::Join { .. } => "join"@,
        }
    }

    /// Whether a discriminator stands for a variant of this family.
    pub open spec fn known_tag(t: Seq<char>) -> bool {
        t == "table"@
            || t == "query"@
            || t == "union"@
            || t == "join"@
    }

    /// The wire form.
    pub open spec fn wire(self) -> JsonValue
        decreases self,
    {
        match self {
            DataSourceView::Table { name } => JsonValue::Object(
                Seq::empty()
                    .push(member("type"@, text("table"@)))
                    .push(member("name"@, text(name))),
            ),
            DataSourceView::Query { query } => JsonValue::Object(
                Seq::empty()
                    .push(member("type"@, text("query"@)))
                    .push(member("query"@, query.wire())),
            ),
            DataSourceView::Union { data_sources } => JsonValue::Object(
                Seq::empty()
                    .push(member("type"@, text("union"@)))
                    .push(member("dataSources"@, texts(data_sources))),
            ),
            DataSourceView::Join { left, right, right_prefix, condition, join_type } => JsonValue::Object(
                Seq::empty()
                    .push(member("type"@, text("join"@)))
                    .push(member("left"@, left.wire()))
                    .push(member("right"@, right.wire()))
                    .push(member("rightPrefix"@, text(right_prefix)))
                    .push(member("condition"@, text(condition)))
                    .push(member("joinType"@, join_type.wire())),
            ),
        }
    }

    /// Whether the parts that are not read back whatever they hold are
    /// read back as they are: every interval inside, and every map
    /// inside, which has to hold each key once.
    pub open spec fn reads_back(self) -> bool
        decreases self,
    {
        match self {
            DataSourceView::Table { .. } => true,
            DataSourceView::Query { query } => query.reads_back(),
            DataSourceView::Union { .. } => true,
            DataSourceView::Join { left, right, .. } => left.reads_back() && right.reads_back(),
        }
    }

    /// Whether no timestamp inside holds anything finer than
    /// milliseconds.
    pub open spec fn millisecond_precise(self) -> bool
        decreases self,
    {
        match self {
            DataSourceView::Table { .. } => true,
            DataSourceView::Query { query } => query.millisecond_precise(),
            DataSourceView::Union { .. } => true,
            DataSourceView::Join { left, right, .. } => left.millisecond_precise()
                && right.millisecond_precise(),
        }
    }

    /// What a document is read as.
    pub open spec fn parse(j: JsonValue) -> Result<DataSourceView, Failure>
        decreases j,
    {
        match as_members(j) {
            Ok(m) => match text_field(m, "type"@) {
                Ok(t) => if t == "table"@ {
                    Self::parse_table(m)
                } else if t == "query"@ {
                    Self::parse_query(m)
                } else if t == "union"@ {
                    Self::parse_union(m)
                } else if t == "join"@ {
                    Self::parse_join(m)
                } else {
                    Err(Failure::here(DecodeCause::UnknownVariant).within_key("type"@))
                },
                Err(e) => Err(e),
            },
            Err(e) => Err(e),
        }
    }

    /// The members of the variant `table`, read.
    pub open spec fn parse_table(m: Seq<MemberValue>) -> Result<DataSourceView, Failure>
        decreases m,
    {
        let name = text_field(m, "name"@);
        if name is Err {
            Err(name->Err_0)
        } else {
            Ok(DataSourceView::Table { name: name->Ok_0 })
        }
    }

    /// The members of the variant `query`, read.
    pub open spec fn parse_query(m: Seq<MemberValue>) -> Result<DataSourceView, Failure>
        decreases m,
    {
        let query = match required(m, "query"@) {
            Ok(v) => {
                proof { lemma_lookup_smaller(m, "query"@); }
                under("query"@, QueryView::parse(v))
            },
            Err(e) => Err(e),
        };
        if query is Err {
            Err(query->Err_0)
        } else {
            Ok(DataSourceView::Query { query: Box::new(query->Ok_0) })
        }
    }

    /// The members of the variant `union`, read.
    pub open spec fn parse_union(m: Seq<MemberValue>) -> Result<DataSourceView, Failure>
        decreases m,
    {
        let data_sources = texts_field(m, "dataSources"@);
        if data_sources is Err {
            Err(data_sources->Err_0)
        } else {
            Ok(DataSourceView::Union { data_sources: data_sources->Ok_0 })
        }
    }

    /// The members of the variant `join`, read.
    pub open spec fn parse_join(m: Seq<MemberValue>) -> Result<DataSourceView, Failure>
        decreases m,
    {
        let left = match required(m, "left"@) {
            Ok(v) => {
                proof { lemma_lookup_smaller(m, "left"@); }
                under("left"@, DataSourceView::parse(v))
            },
            Err(e) => Err(e),
        };
        let right = match required(m, "right"@) {
            Ok(v) => {
                proof { lemma_lookup_smaller(m, "right"@); }
                under("right"@, DataSourceView::parse(v))
            },
            Err(e) => Err(e),
        };
        let right_prefix = text_field(m, "rightPrefix"@);
        let condition = text_field(m, "condition"@);
        let join_type = match required(m, "joinType"@) {
            Ok(v) => under("joinType"@, JoinType::parse(v)),
            Err(e) => Err(e),
        };
        if left is Err {
            Err(left->Err_0)
        } else if right is Err {
            Err(right->Err_0)
        } else if right_prefix is Err {
            Err(right_prefix->Err_0)
        } else if condition is Err {
            Err(condition->Err_0)
        } else if join_type is Err {
            Err(join_type->Err_0)
        } else {
            Ok(
                DataSourceView::Join {
                    left: Box::new(left->Ok_0),
                    right: Box::new(right->Ok_0),
                    right_prefix: right_prefix->Ok_0,
                    condition: condition->Ok_0,
                    join_type: join_type->Ok_0,
                },
            )
        }
    }

    /// What is written is never `null`.
    pub proof fn lemma_wire_not_null(self)
        ensures
            !(self.wire() is Null),
    {
    }

    /// Reading back what was written gives the value again, if the
    /// intervals and the maps inside are read back as they are.
    pub proof fn lemma_round_trip(self)
        requires
            self.reads_back(),
        ensures
            Self::parse(self.wire()) == Ok::<DataSourceView, Failure>(self),
        decreases self,
    {
        match self {
            DataSourceView::Table { name } => {
                Self::lemma_members_table(self.wire(), name);
                Self::lemma_parse_table(self.wire());
            },
            DataSourceView::Query { query } => {
                query.lemma_round_trip();
                Self::lemma_members_query(self.wire(), *query, query.wire());
                Self::lemma_parse_query(self.wire());
            },
            DataSourceView::Union { data_sources } => {
                Self::lemma_members_union(self.wire(), data_sources);
                Self::lemma_parse_union(self.wire());
            },
            DataSourceView::Join { left, right, right_prefix, condition, join_type } => {
                left.lemma_round_trip();
                right.lemma_round_trip();
                Self::lemma_members_join(
                    self.wire(),
                    *left,
                    left.wire(),
                    *right,
                    right.wire(),
                    right_prefix,
                    condition,
                    join_type,
                );
                Self::lemma_parse_join(self.wire());
            },
        }
    }

    /// The members that are written for the variant `table` are read
    /// back as the value, given that its parts are read back from their
    /// wire forms.
    proof fn lemma_members_table(j: JsonValue, name: Seq<char>)
        requires
            j == JsonValue::Object(
                Seq::empty()
                    .push(member("type"@, text("table"@)))
                    .push(member("name"@, text(name))),
            ),
        ensures
            j is Object,
            Self::parse_table(j->Object_0)
                == Ok::<DataSourceView, Failure>(DataSourceView::Table { name }),
            text_field(j->Object_0, "type"@) == Ok::<Seq<char>, Failure>("table"@),
    {
        broadcast use {lemma_lookup_push, lemma_lookup_empty};

        lemma_keys();
    }

    /// An object with the discriminator `table` is read as that variant.
    proof fn lemma_parse_table(j: JsonValue)
        requires
            j is Object,
            text_field(j->Object_0, "type"@) == Ok::<Seq<char>, Failure>("table"@),
        ensures
            Self::parse(j) == Self::parse_table(j->Object_0),
    {
        lemma_tags();
    }

    /// The members that are written for the variant `query` are read
    /// back as the value, given that its parts are read back from their
    /// wire forms.
    proof fn lemma_members_query(j: JsonValue, query: QueryView, query_wire: JsonValue)
        requires
            j == JsonValue::Object(
                Seq::empty()
                    .push(member("type"@, text("query"@)))
                    .push(member("query"@, query_wire)),
            ),
            QueryView::parse(query_wire) == Ok::<QueryView, Failure>(query),
        ensures
            j is Object,
            Self::parse_query(j->Object_0) == Ok::<DataSourceView, Failure>(
                DataSourceView::Query { query: Box::new(query) },
            ),
            text_field(j->Object_0, "type"@) == Ok::<Seq<char>, Failure>("query"@),
    {
        broadcast use {lemma_lookup_push, lemma_lookup_empty};

        lemma_keys();
    }

    /// An object with the discriminator `query` is read as that variant.
    proof fn lemma_parse_query(j: JsonValue)
        requires
            j is Object,
            text_field(j->Object_0, "type"@) == Ok::<Seq<char>, Failure>("query"@),
        ensures
            Self::parse(j) == Self::parse_query(j->Object_0),
    {
        lemma_tags();
    }

    /// The members that are written for the variant `union` are read
    /// back as the value, given that its parts are read back from their
    /// wire forms.
    proof fn lemma_members_union(j: JsonValue, data_sources: Seq<Seq<char>>)
        requires
            j == JsonValue::Object(
                Seq::empty()
                    .push(member("type"@, text("union"@)))
                    .push(member("dataSources"@, texts(data_sources))),
            ),
        ensures
            j is Object,
            Self::parse_union(j->Object_0)
                == Ok::<DataSourceView, Failure>(DataSourceView::Union { data_sources }),
            text_field(j->Object_0, "type"@) == Ok::<Seq<char>, Failure>("union"@),
    {
        broadcast use {lemma_lookup_push, lemma_lookup_empty};

        lemma_keys();
        lemma_texts_round_trip(data_sources);
    }

    /// An object with the discriminator `union` is read as that variant.
    proof fn lemma_parse_union(j: JsonValue)
        requires
            j is Object,
            text_field(j->Object_0, "type"@) == Ok::<Seq<char>, Failure>("union"@),
        ensures
            Self::parse(j) == Self::parse_union(j->Object_0),
    {
        lemma_tags();
    }

    /// The members that are written for the variant `join` are read
    /// back as the value, given that its parts are read back from their
    /// wire forms.
    proof fn lemma_members_join(
        j: JsonValue,
        left: DataSourceView,
        left_wire: JsonValue,
        right: DataSourceView,
        right_wire: JsonValue,
        right_prefix: Seq<char>,
        condition: Seq<char>,
        join_type: JoinType,
    )
        requires
            j == JsonValue::Object(
                Seq::empty()
                    .push(member("type"@, text("join"@)))
                    .push(member("left"@, left_wire))
                    .push(member("right"@, right_wire))
                    .push(member("rightPrefix"@, text(right_prefix)))
                    .push(member("condition"@, text(condition)))
                    .push(member("joinType"@, join_type.wire())),
            ),
            DataSourceView::parse(left_wire) == Ok::<DataSourceView, Failure>(left),
            DataSourceView::parse(right_wire) == Ok::<DataSourceView, Failure>(right),
        ensures
            j is Object,
            Self::parse_join(j->Object_0) == Ok::<DataSourceView, Failure>(
                DataSourceView::Join {
                    left: Box::new(left),
                    right: Box::new(right),
                    right_prefix,
                    condition,
                    join_type,
                },
            ),
            text_field(j->Object_0, "type"@) == Ok::<Seq<char>, Failure>("join"@),
    {
        broadcast use {lemma_lookup_push, lemma_lookup_empty};

        lemma_keys();
        join_type.lemma_round_trip();
    }

    /// An object with the discriminator `join` is read as that variant.
    proof fn lemma_parse_join(j: JsonValue)
        requires
            j is Object,
            text_field(j->Object_0, "type"@) == Ok::<Seq<char>, Failure>("join"@),
        ensures
            Self::parse(j) == Self::parse_join(j->Object_0),
    {
        lemma_tags();
    }

    /// What is written for a variant carries its discriminator.
    pub proof fn lemma_tag(self)
        ensures
            self.wire() is Object,
            text_field(self.wire()->Object_0, "type"@) == Ok::<Seq<char>, Failure>(self.tag()),
            Self::known_tag(self.tag()),
    {
        broadcast use {lemma_lookup_push, lemma_lookup_empty};

        lemma_keys();
    }

    /// An object whose discriminator stands for no variant of the
    /// family is refused as an unknown variant; it is read as none.
    pub proof fn lemma_unknown_tag(j: JsonValue)
        requires
            j is Object,
            text_field(j->Object_0, "type"@) is Ok,
            !Self::known_tag(text_field(j->Object_0, "type"@)->Ok_0),
        ensures
            Self::parse(j) == Err::<DataSourceView, Failure>(
                Failure::here(DecodeCause::UnknownVariant).within_key("type"@),
            ),
    {
    }

}

impl DataSource {
    /// The table `name`.
    pub fn table(name: &str) -> (out: DataSource)
        ensures
            out@ == (DataSourceView::Table { name: name@ }),
    {
        DataSource::Table { name: name.to_string() }
    }

    /// The result of `query`.
    pub fn query(query: Query) -> (out: DataSource)
        ensures
            out@ == (DataSourceView::Query { query: Box::new(query@) }),
    {
        DataSource::Query { query: Box::new(query) }
    }

    /// The rows of the named tables, one table after the other.
    pub fn union(data_sources: Vec<&str>) -> (out: DataSource)
        ensures
            out@ == (DataSourceView::Union { data_sources: strs_view(data_sources@) }),
    {
        DataSource::Union { data_sources: to_strings(&data_sources) }
    }

    /// Starts a join of the given type. Both sides and the condition are
    /// still to be given.
    pub fn join(join_type: JoinType) -> (out: JoinBuilder)
        ensures
            out@ == (JoinBuilderView {
                    left: None,
                    right: None,
                    right_prefix: None,
                    condition: None,
                    join_type,
            }),
    {
        JoinBuilder { left: None, right: None, right_prefix: None, condition: None, join_type }
    }

    /// Writes the value in its wire form. A value whose timestamps hold
    /// nothing finer than milliseconds is read back as it is.
    pub fn encode(&self) -> (j: Json)
        ensures
            j@ == self@.wire(),
            self@.millisecond_precise() ==> self@.reads_back(),
            self@.millisecond_precise() ==>
                DataSourceView::parse(j@) == Ok::<DataSourceView, Failure>(self@),
        decreases self,
    {
        let mut m = no_members();
        match self {
            DataSource::Table { name } => {
                put(&mut m, "type", text_json("table"));
                put(&mut m, "name", text_json(name.as_str()));
            },
            DataSource::Query { query } => {
                put(&mut m, "type", text_json("query"));
                put(&mut m, "query", query.encode());
            },
            DataSource::Union { data_sources } => {
                put(&mut m, "type", text_json("union"));
                put(&mut m, "dataSources", texts_json(data_sources));
            },
            DataSource::Join { left, right, right_prefix, condition, join_type } => {
                put(&mut m, "type", text_json("join"));
                put(&mut m, "left", left.encode());
                put(&mut m, "right", right.encode());
                put(&mut m, "rightPrefix", text_json(right_prefix.as_str()));
                put(&mut m, "condition", text_json(condition.as_str()));
                put(&mut m, "joinType", join_type.encode());
            },
        }
        proof {
            if self@.millisecond_precise() {
                self@.lemma_round_trip();
            }
        }
        object_json(m)
    }

    /// Reads a value from its wire form.
    pub fn decode(j: &Json) -> (r: Result<DataSource, DecodeError>)
        ensures
            decoded(r) == DataSourceView::parse(j@),
        decreases j,
    {
        let m = read_members(j)?;
        let t = text_member(m, "type")?;
        if str_eq(t.as_str(), "table") {
            Self::decode_table(m)
        } else if str_eq(t.as_str(), "query") {
            Self::decode_query(m)
        } else if str_eq(t.as_str(), "union") {
            Self::decode_union(m)
        } else if str_eq(t.as_str(), "join") {
            Self::decode_join(m)
        } else {
            Err(DecodeError::here(DecodeCause::UnknownVariant).within_key("type"))
        }
    }

    fn decode_table(m: &Vec<Member>) -> (r: Result<DataSource, DecodeError>)
        ensures
            decoded(r) == DataSourceView::parse_table(members_view(m@)),
        decreases m,
    {
        let name = text_member(m, "name")?;
        Ok(DataSource::Table { name })
    }

    fn decode_query(m: &Vec<Member>) -> (r: Result<DataSource, DecodeError>)
        ensures
            decoded(r) == DataSourceView::parse_query(members_view(m@)),
        decreases m,
    {
        let query = Box::new(under_key(Query::decode(required_field(m, "query")?), "query")?);
        Ok(DataSource::Query { query })
    }

    fn decode_union(m: &Vec<Member>) -> (r: Result<DataSource, DecodeError>)
        ensures
            decoded(r) == DataSourceView::parse_union(members_view(m@)),
        decreases m,
    {
        let data_sources = texts_member(m, "dataSources")?;
        Ok(DataSource::Union { data_sources })
    }

    fn decode_join(m: &Vec<Member>) -> (r: Result<DataSource, DecodeError>)
        ensures
            decoded(r) == DataSourceView::parse_join(members_view(m@)),
        decreases m,
    {
        let left = Box::new(under_key(DataSource::decode(required_field(m, "left")?), "left")?);
        let right = Box::new(under_key(DataSource::decode(required_field(m, "right")?), "right")?);
        let right_prefix = text_member(m, "rightPrefix")?;
        let condition = text_member(m, "condition")?;
        let join_type = under_key(JoinType::decode(required_field(m, "joinType")?), "joinType")?;
        Ok(DataSource::Join { left, right, right_prefix, condition, join_type })
    }
}

/// A query for what the engine knows of a data source as a whole.
#[derive(Debug, PartialEq)]
pub struct DataSourceMetadata {
    pub data_source: DataSource,
    pub context: StringMap,
}

/// Mathematical value of a [`DataSourceMetadata`].
pub struct DataSourceMetadataView {
    pub data_source: DataSourceView,
    pub context: Seq<(Seq<char>, Seq<char>)>,
}

impl DataSourceMetadata {
    /// The mathematical value.
    pub open spec fn value(self) -> DataSourceMetadataView
        decreases self,
    {
        DataSourceMetadataView {
            data_source: self.data_source.value(),
            context: self.context@,
        }
    }

    /// The mathematical values of the elements of a list.
    pub open spec fn values(list: Seq<DataSourceMetadata>) -> Seq<DataSourceMetadataView>
        decreases list,
    {
        Seq::new(
            list.len(),
            |i: int| if 0 <= i < list.len() { list[i].value() } else { arbitrary() },
        )
    }

    /// [`Self::values`] is the view of the list.
    pub proof fn lemma_values(list: Seq<DataSourceMetadata>)
        ensures
            Self::values(list) == list_view(list),
    {
        assert(Self::values(list) =~= list_view(list));
    }
}

impl View for DataSourceMetadata {
    type V = DataSourceMetadataView;

    open spec fn view(&self) -> DataSourceMetadataView {
        self.value()
    }
}

impl DataSourceMetadataView {
    /// The wire form.
    pub open spec fn wire(self) -> JsonValue
        decreases self,
    {
        JsonValue::Object(
            Seq::empty()
                .push(member("queryType"@, text("dataSourceMetadata"@)))
                .push(member("dataSource"@, self.data_source.wire()))
                .push(member("context"@, map_wire(self.context))),
        )
    }

    /// Whether the parts that are not read back whatever they hold are
    /// read back as they are: every interval inside, and every map
    /// inside, which has to hold each key once.
    pub open spec fn reads_back(self) -> bool
        decreases self,
    {
        self.data_source.reads_back()
            && distinct_keys(self.context)
    }

    /// Whether no timestamp inside holds anything finer than
    /// milliseconds.
    pub open spec fn millisecond_precise(self) -> bool
        decreases self,
    {
        self.data_source.millisecond_precise()
    }

    /// What a document is read as.
    pub open spec fn parse(j: JsonValue) -> Result<DataSourceMetadataView, Failure>
        decreases j,
    {
        match as_members(j) {
            Ok(m) => match text_field(m, "queryType"@) {
                Ok(t) => if t == "dataSourceMetadata"@ {
                    Self::parse_members(m)
                } else {
                    Err(Failure::here(DecodeCause::UnknownVariant).within_key("queryType"@))
                },
                Err(e) => Err(e),
            },
            Err(e) => Err(e),
        }
    }

    /// The members of the object, read.
    pub open spec fn parse_members(m: Seq<MemberValue>) -> Result<DataSourceMetadataView, Failure>
        decreases m,
    {
        let data_source = match required(m, "dataSource"@) {
            Ok(v) => {
                proof { lemma_lookup_smaller(m, "dataSource"@); }
                under("dataSource"@, DataSourceView::parse(v))
            },
            Err(e) => Err(e),
        };
        let context = match required(m, "context"@) {
            Ok(v) => under("context"@, map_parse(v)),
            Err(e) => Err(e),
        };
        if data_source is Err {
            Err(data_source->Err_0)
        } else if context is Err {
            Err(context->Err_0)
        } else {
            Ok(DataSourceMetadataView { data_source: data_source->Ok_0, context: context->Ok_0 })
        }
    }

    /// What is written is never `null`.
    pub proof fn lemma_wire_not_null(self)
        ensures
            !(self.wire() is Null),
    {
    }

    /// Reading back what was written gives the value again, if the
    /// intervals and the maps inside are read back as they are.
    pub proof fn lemma_round_trip(self)
        requires
            self.reads_back(),
        ensures
            Self::parse(self.wire()) == Ok::<DataSourceMetadataView, Failure>(self),
            self.wire() is Object,
            Self::parse_members(self.wire()->Object_0)
                == Ok::<DataSourceMetadataView, Failure>(self),
            text_field(self.wire()->Object_0, "queryType"@)
                == Ok::<Seq<char>, Failure>("dataSourceMetadata"@),
        decreases self,
    {
        self.data_source.lemma_round_trip();
        lemma_map_round_trip(self.context);
        Self::lemma_members(
            self.wire(),
            self.data_source,
            self.data_source.wire(),
            self.context,
            map_wire(self.context),
        );
    }

    /// The members that are written are read back as the value, given
    /// that its parts are read back from their wire forms.
    proof fn lemma_members(
        j: JsonValue,
        data_source: DataSourceView,
        data_source_wire: JsonValue,
        context: Seq<(Seq<char>, Seq<char>)>,
        context_wire: JsonValue,
    )
        requires
            j == JsonValue::Object(
                Seq::empty()
                    .push(member("queryType"@, text("dataSourceMetadata"@)))
                    .push(member("dataSource"@, data_source_wire))
                    .push(member("context"@, context_wire)),
            ),
            DataSourceView::parse(data_source_wire) == Ok::<DataSourceView, Failure>(data_source),
            map_parse(context_wire) == Ok::<Seq<(Seq<char>, Seq<char>)>, Failure>(context),
        ensures
            j is Object,
            Self::parse_members(j->Object_0) == Ok::<DataSourceMetadataView, Failure>(
                DataSourceMetadataView { data_source, context },
            ),
            text_field(j->Object_0, "queryType"@)
                == Ok::<Seq<char>, Failure>("dataSourceMetadata"@),
            Self::parse(j) == Ok::<DataSourceMetadataView, Failure>(
                DataSourceMetadataView { data_source, context },
            ),
    {
        broadcast use {lemma_lookup_push, lemma_lookup_empty};

        lemma_keys();
    }

}

impl DataSourceMetadata {
    /// Writes the value in its wire form. A value whose timestamps hold
    /// nothing finer than milliseconds is read back as it is.
    pub fn encode(&self) -> (j: Json)
        ensures
            j@ == self@.wire(),
            self@.millisecond_precise() ==> self@.reads_back(),
            self@.millisecond_precise() ==>
                DataSourceMetadataView::parse(j@) == Ok::<DataSourceMetadataView, Failure>(self@),
        decreases self,
    {
        let mut m = no_members();
        put(&mut m, "queryType", text_json("dataSourceMetadata"));
        put(&mut m, "dataSource", self.data_source.encode());
        put(&mut m, "context", self.context.encode());
        proof {
            if self@.millisecond_precise() {
                self@.lemma_round_trip();
            }
        }
        object_json(m)
    }

    /// Reads a value from its wire form.
    pub fn decode(j: &Json) -> (r: Result<DataSourceMetadata, DecodeError>)
        ensures
            decoded(r) == DataSourceMetadataView::parse(j@),
        decreases j,
    {
        let m = read_members(j)?;
        let t = text_member(m, "queryType")?;
        if !str_eq(t.as_str(), "dataSourceMetadata") {
            return Err(DecodeError::here(DecodeCause::UnknownVariant).within_key("queryType"));
        }
        Self::decode_members(m)
    }

    /// Reads the members of the object.
    pub fn decode_members(m: &Vec<Member>) -> (r: Result<DataSourceMetadata, DecodeError>)
        ensures
            decoded(r) == DataSourceMetadataView::parse_members(members_view(m@)),
        decreases m,
    {
        let data_source = under_key(
            DataSource::decode(required_field(m, "dataSource")?),
            "dataSource",
        )?;
        let context = under_key(StringMap::decode(required_field(m, "context")?), "context")?;
        Ok(DataSourceMetadata { data_source, context })
    }
}

/// A join that is being put together: the sides and the condition are
/// given one by one, and [`JoinBuilder::build`] checks that none is
/// missing.
pub struct JoinBuilder {
    left: Option<DataSource>,
    right: Option<DataSource>,
    right_prefix: Option<String>,
    condition: Option<String>,
    join_type: JoinType,
}

/// Mathematical value of a [`JoinBuilder`]: what was given so far.
pub struct JoinBuilderView {
    pub left: Option<DataSourceView>,
    pub right: Option<DataSourceView>,
    pub right_prefix: Option<Seq<char>>,
    pub condition: Option<Seq<char>>,
    pub join_type: JoinType,
}

impl View for JoinBuilder {
    type V = JoinBuilderView;

    closed spec fn view(&self) -> JoinBuilderView {
        JoinBuilderView {
            left: opt_view(self.left),
            right: opt_view(self.right),
            right_prefix: opt_view(self.right_prefix),
            condition: opt_view(self.condition),
            join_type: self.join_type,
        }
    }
}

impl JoinBuilderView {
    /// Whether both sides and the condition were given.
    pub open spec fn complete(self) -> bool {
        self.left is Some && self.right is Some && self.condition is Some
    }

    /// The join of what was given.
    pub open spec fn joined(self) -> DataSourceView
        recommends
            self.complete(),
    {
        DataSourceView::Join {
            left: Box::new(self.left->Some_0),
            right: Box::new(self.right->Some_0),
            right_prefix: match self.right_prefix {
                Some(prefix) => prefix,
                None => Seq::empty(),
            },
            condition: self.condition->Some_0,
            join_type: self.join_type,
        }
    }
}

impl JoinBuilder {
    /// Gives the left side.
    pub fn left(self, data_source: DataSource) -> (out: JoinBuilder)
        ensures
            out@ == (JoinBuilderView { left: Some(data_source@), ..self@ }),
    {
        JoinBuilder {
            left: Some(data_source),
            right: self.right,
            right_prefix: self.right_prefix,
            condition: self.condition,
            join_type: self.join_type,
        }
    }

    /// Gives the right side, and the prefix under which its columns are
    /// named.
    pub fn right(self, data_source: DataSource, prefix: &str) -> (out: JoinBuilder)
        ensures
            out@ == (JoinBuilderView {
                right: Some(data_source@),
                right_prefix: Some(prefix@),
                ..self@
            }),
    {
        JoinBuilder {
            left: self.left,
            right: Some(data_source),
            right_prefix: Some(prefix.to_string()),
            condition: self.condition,
            join_type: self.join_type,
        }
    }

    /// Gives the condition.
    pub fn condition(self, condition: &str) -> (out: JoinBuilder)
        ensures
            out@ == (JoinBuilderView { condition: Some(condition@), ..self@ }),
    {
        JoinBuilder {
            left: self.left,
            right: self.right,
            right_prefix: self.right_prefix,
            condition: Some(condition.to_string()),
            join_type: self.join_type,
        }
    }

    /// The join, if both sides and the condition were given; an
    /// incomplete join otherwise.
    pub fn build(self) -> (r: Result<DataSource, CodecError>)
        ensures
            match r {
                Ok(out) => self@.complete() && out@ == self@.joined(),
                Err(e) => !self@.complete() && e@ == CodecErrorValue::IncompleteJoin,
            },
    {
        match (self.left, self.right, self.condition) {
            (Some(left), Some(right), Some(condition)) => {
                let right_prefix = match self.right_prefix {
                    Some(prefix) => prefix,
                    None => String::new(),
                };
                Ok(
                    DataSource::Join {
                        left: Box::new(left),
                        right: Box::new(right),
                        right_prefix,
                        condition,
                        join_type: self.join_type,
                    },
                )
            },
            _ => Err(CodecError::IncompleteJoin),
        }
    }
}

/// The names of the members differ from one another.
proof fn lemma_keys()
    ensures
        "condition"@.len() == 9,
        "context"@.len() == 7,
        "dataSource"@.len() == 10,
        "dataSources"@.len() == 11,
        "joinType"@.len() == 8,
        "left"@.len() == 4,
        "name"@.len() == 4,
        "query"@.len() == 5,
        "queryType"@.len() == 9,
        "right"@.len() == 5,
        "rightPrefix"@.len() == 11,
        "type"@.len() == 4,
        "left"@[0] == 'l',
        "name"@[0] == 'n',
        "type"@[0] == 't',
        "query"@[0] == 'q',
        "right"@[0] == 'r',
        "condition"@[0] == 'c',
        "queryType"@[0] == 'q',
        "dataSources"@[0] == 'd',
        "rightPrefix"@[0] == 'r',
{
    reveal_strlit("condition");
    reveal_strlit("context");
    reveal_strlit("dataSource");
    reveal_strlit("dataSources");
    reveal_strlit("joinType");
    reveal_strlit("left");
    reveal_strlit("name");
    reveal_strlit("query");
    reveal_strlit("queryType");
    reveal_strlit("right");
    reveal_strlit("rightPrefix");
    reveal_strlit("type");
}

/// The names that stand for the variants differ from one another.
proof fn lemma_tags()
    ensures
        "INNER"@.len() == 5,
        "LEFT"@.len() == 4,
        "dataSourceMetadata"@.len() == 18,
        "join"@.len() == 4,
        "query"@.len() == 5,
        "table"@.len() == 5,
        "union"@.len() == 5,
        "LEFT"@[0] == 'L',
        "join"@[0] == 'j',
        "INNER"@[0] == 'I',
        "query"@[0] == 'q',
        "table"@[0] == 't',
        "union"@[0] == 'u',
{
    reveal_strlit("INNER");
    reveal_strlit("LEFT");
    reveal_strlit("dataSourceMetadata");
    reveal_strlit("join");
    reveal_strlit("query");
    reveal_strlit("table");
    reveal_strlit("union");
}

} // verus!
