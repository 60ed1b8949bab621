//! The segment-metadata query.

use vstd::prelude::*;
use crate::codec::{
    array_json, as_members, as_text, decoded_list, flag, flag_field, flag_json, flag_member,
    items_field, items_member, lemma_lookup_smaller, lemma_read_all_accepted,
    lemma_read_all_refused, lemma_texts_round_trip, list_view, member, no_members, object_json,
    put, read_all, read_members, read_str, required, required_field, strings_view, text,
    text_field, text_json, text_member, texts, texts_field, texts_json, texts_member, under,
    under_key,
};
use crate::error::{decoded, DecodeCause, DecodeError, Failure};
use crate::json::{
    items_view, lemma_lookup_empty, lemma_lookup_push, members_view, str_eq, Json, JsonValue,
    Member, MemberValue,
};
use crate::query::definitions::intervals::{Interval, IntervalView};
use crate::query::{DataSource, DataSourceView};
use crate::string_map::{distinct_keys, lemma_map_round_trip, map_parse, map_wire, StringMap};

verus! {

/// One thing that a segment-metadata query reports.
#[derive(Clone, Copy, Debug, PartialEq, Eq, Structural)]
pub enum AnalysisType {
    Cardinality,
    Minmax,
    Size,
    Interval,
    TimestampSpec,
    QueryGranularity,
    Aggregators,
    Rollup,
}

impl View for AnalysisType {
    type V = AnalysisType;

    open spec fn view(&self) -> AnalysisType {
        *self
    }
}

impl AnalysisType {
    /// The name that stands for the value on the wire.
    pub open spec fn name(self) -> Seq<char> {
        match self {
            AnalysisType::Cardinality => "cardinality"@,
            AnalysisType::Minmax => "minmax"@,
            AnalysisType::Size => "size"@,
            AnalysisType::Interval => "interval"@,
            AnalysisType::TimestampSpec => "timestampSpec"@,
            AnalysisType::QueryGranularity => "queryGranularity"@,
            AnalysisType::Aggregators => "aggregators"@,
            AnalysisType::Rollup => "rollup"@,
        }
    }

    /// The value that a name stands for, if it stands for one.
    pub open spec fn named(s: Seq<char>) -> Option<AnalysisType> {
        if s == "cardinality"@ {
            Some(AnalysisType::Cardinality)
        } else if s == "minmax"@ {
            Some(AnalysisType::Minmax)
        } else if s == "size"@ {
            Some(AnalysisType::Size)
        } else if s == "interval"@ {
            Some(AnalysisType::Interval)
        } else if s == "timestampSpec"@ {
            Some(AnalysisType::TimestampSpec)
        } else if s == "queryGranularity"@ {
            Some(AnalysisType::QueryGranularity)
        } else if s == "aggregators"@ {
            Some(AnalysisType::Aggregators)
        } else if s == "rollup"@ {
            Some(AnalysisType::Rollup)
        } else {
            None
        }
    }

    /// The wire form: the name, as a string.
    pub open spec fn wire(self) -> JsonValue {
        text(self.name())
    }

    /// What a document is read as: a string that is one of the names
    /// gives its value, any other string is an unknown variant, and
    /// anything but a string a type mismatch.
    pub open spec fn parse(j: JsonValue) -> Result<AnalysisType, Failure> {
        match as_text(j) {
            Ok(s) => match Self::named(s) {
                Some(v) => Ok(v),
                None => Err(Failure::here(DecodeCause::UnknownVariant)),
            },
            Err(e) => Err(e),
        }
    }

    /// Writes the value in its wire form.
    pub fn encode(&self) -> (j: Json)
        ensures
            j@ == self.wire(),
    {
        match self {
            AnalysisType::Cardinality => text_json("cardinality"),
            AnalysisType::Minmax => text_json("minmax"),
            AnalysisType::Size => text_json("size"),
            AnalysisType::Interval => text_json("interval"),
            AnalysisType::TimestampSpec => text_json("timestampSpec"),
            AnalysisType::QueryGranularity => text_json("queryGranularity"),
            AnalysisType::Aggregators => text_json("aggregators"),
            AnalysisType::Rollup => text_json("rollup"),
        }
    }

    /// Reads a value from its wire form.
    pub fn decode(j: &Json) -> (r: Result<AnalysisType, DecodeError>)
        ensures
            decoded(r) == Self::parse(j@),
    {
        let s = match read_str(j) {
            Ok(s) => s,
            Err(e) => {
                return Err(e);
            },
        };
        if str_eq(s, "cardinality") {
            Ok(AnalysisType::Cardinality)
        } else if str_eq(s, "minmax") {
            Ok(AnalysisType::Minmax)
        } else if str_eq(s, "size") {
            Ok(AnalysisType::Size)
        } else if str_eq(s, "interval") {
            Ok(AnalysisType::Interval)
        } else if str_eq(s, "timestampSpec") {
            Ok(AnalysisType::TimestampSpec)
        } else if str_eq(s, "queryGranularity") {
            Ok(AnalysisType::QueryGranularity)
        } else if str_eq(s, "aggregators") {
            Ok(AnalysisType::Aggregators)
        } else if str_eq(s, "rollup") {
            Ok(AnalysisType::Rollup)
        } else {
            Err(DecodeError::here(DecodeCause::UnknownVariant))
        }
    }

    /// Reading back what was written gives the value again.
    pub proof fn lemma_round_trip(self)
        ensures
            Self::parse(self.wire()) == Ok::<AnalysisType, Failure>(self),
    {
        lemma_tags();
    }

    /// A string that is none of the names is refused as an unknown
    /// variant.
    pub proof fn lemma_unknown_name(s: Seq<char>)
        requires
            Self::named(s) is None,
        ensures
            Self::parse(text(s)) == Err::<AnalysisType, Failure>(
                Failure::here(DecodeCause::UnknownVariant),
            ),
    {
    }

    /// The wire forms of the elements of a list.
    pub open spec fn wire_list(list: Seq<AnalysisType>) -> Seq<JsonValue> {
        list.map_values(|x: AnalysisType| x.wire())
    }

    /// Every element of an array, read: the list of what was read, or
    /// the failure of the first element that is refused, seen from its
    /// index.
    pub open spec fn parse_list(items: Seq<JsonValue>) -> Result<Seq<AnalysisType>, Failure> {
        read_all(items, |j: JsonValue| Self::parse(j))
    }

    /// Reading back a list that was written gives the list again.
    pub proof fn lemma_list_round_trip(list: Seq<AnalysisType>)
        ensures
            Self::parse_list(Self::wire_list(list)) == Ok::<Seq<AnalysisType>, Failure>(list),
    {
        let items = Self::wire_list(list);
        let read = |j: JsonValue| Self::parse(j);
        assert forall|i: int| 0 <= i < items.len() implies (#[trigger] read(items[i]))
            == Ok::<AnalysisType, Failure>(list[i]) by {
            list[i].lemma_round_trip();
        }
        lemma_read_all_accepted(items, read, list);
    }

    /// Writes each element of a list in its wire form.
    pub fn encode_list(list: &Vec<AnalysisType>) -> (items: Vec<Json>)
        ensures
            items_view(items@) == Self::wire_list(list_view(list@)),
    {
        let mut items: Vec<Json> = Vec::new();
        let mut i: usize = 0;
        while i < list.len()
            invariant
                i <= list.len(),
                items.len() == i,
                forall|k: int| 0 <= k < i ==> items[k]@ == list[k].wire(),
            decreases list.len() - i,
        {
            items.push(list[i].encode());
            i += 1;
        }
        assert(items_view(items@) =~= Self::wire_list(list_view(list@)));
        items
    }

    /// Reads each element of an array from its wire form.
    pub fn decode_list(items: &Vec<Json>) -> (r: Result<Vec<AnalysisType>, DecodeError>)
        ensures
            decoded_list(r) == Self::parse_list(items_view(items@)),
    {
        let ghost read = |j: JsonValue| Self::parse(j);
        let mut out: Vec<AnalysisType> = Vec::new();
        let mut i: usize = 0;
        while i < items.len()
            invariant
                i <= items.len(),
                out.len() == i,
                read == (|j: JsonValue| Self::parse(j)),
                forall|k: int|
                    0 <= k < i ==>
                        (#[trigger] read(items_view(items@)[k]))
                            == Ok::<AnalysisType, Failure>(out[k]),
            decreases items.len() - i,
        {
            match AnalysisType::decode(&items[i]) {
                Ok(v) => {
                    out.push(v);
                },
                Err(e) => {
                    proof {
                        assert(read(items_view(items@)[i as int]) is Err);
                        lemma_read_all_refused(items_view(items@), read, i as int);
                    }
                    return Err(e.within_index(i));
                },
            }
            i += 1;
        }
        proof {
            assert(list_view(out@) =~= out@);
            lemma_read_all_accepted(items_view(items@), read, list_view(out@));
        }
        Ok(out)
    }
}

/// The columns that a segment-metadata query reports on.
#[derive(Debug, PartialEq)]
pub enum ToInclude {
    /// Every column.
    All,
    /// No column.
    Nothing,
    /// The named columns.
    List {
        columns: Vec<String>,
    },
}

/// Mathematical value of a [`ToInclude`].
pub enum ToIncludeView {
    All,
    Nothing,
    List {
        columns: Seq<Seq<char>>,
    },
}

impl View for ToInclude {
    type V = ToIncludeView;

    open spec fn view(&self) -> ToIncludeView {
        match self {
            ToInclude::All => ToIncludeView::All,
            ToInclude::Nothing => ToIncludeView::Nothing,
            ToInclude::List { columns } => ToIncludeView::List {
                columns: strings_view(columns@),
            },
        }
    }
}

impl ToIncludeView {
    /// The discriminator that stands for the variant on the wire.
    pub open spec fn tag(self) -> Seq<char> {
        match self {
            ToIncludeView::All => "all"@,
            ToIncludeView::Nothing => "none"@,
            ToIncludeView::List { .. } => "list"@,
        }
    }

    /// Whether a discriminator stands for a variant of this family.
    pub open spec fn known_tag(t: Seq<char>) -> bool {
        t == "all"@
            || t == "none"@
            || t == "list"@
    }

    /// The wire form.
    pub open spec fn wire(self) -> JsonValue {
        match self {
            ToIncludeView::All => JsonValue::Object(
                Seq::empty()
                    .push(member("type"@, text("all"@))),
            ),
            ToIncludeView::Nothing => JsonValue::Object(
                Seq::empty()
                    .push(member("type"@, text("none"@))),
            ),
            ToIncludeView::List { columns } => JsonValue::Object(
                Seq::empty()
                    .push(member("type"@, text("list"@)))
                    .push(member("columns"@, texts(columns))),
            ),
        }
    }

    /// What a document is read as.
    pub open spec fn parse(j: JsonValue) -> Result<ToIncludeView, Failure> {
        match as_members(j) {
            Ok(m) => match text_field(m, "type"@) {
                Ok(t) => if t == "all"@ {
                    Self::parse_all(m)
                } else if t == "none"@ {
                    Self::parse_nothing(m)
                } else if t == "list"@ {
                    Self::parse_list(m)
                } else {
                    Err(Failure::here(DecodeCause::UnknownVariant).within_key("type"@))
                },
                Err(e) => Err(e),
            },
            Err(e) => Err(e),
        }
    }

    /// The members of the variant `all`, read.
    pub open spec fn parse_all(m: Seq<MemberValue>) -> Result<ToIncludeView, Failure> {
        Ok(ToIncludeView::All)
    }

    /// The members of the variant `none`, read.
    pub open spec fn parse_nothing(m: Seq<MemberValue>) -> Result<ToIncludeView, Failure> {
        Ok(ToIncludeView::Nothing)
    }

    /// The members of the variant `list`, read.
    pub open spec fn parse_list(m: Seq<MemberValue>) -> Result<ToIncludeView, Failure> {
        let columns = texts_field(m, "columns"@);
        if columns is Err {
            Err(columns->Err_0)
        } else {
            Ok(ToIncludeView::List { columns: columns->Ok_0 })
        }
    }

    /// What is written is never `null`.
    pub proof fn lemma_wire_not_null(self)
        ensures
            !(self.wire() is Null),
    {
    }

    /// Reading back what was written gives the value again.
    pub proof fn lemma_round_trip(self)
        ensures
            Self::parse(self.wire()) == Ok::<ToIncludeView, Failure>(self),
    {
        match self {
            ToIncludeView::All => {
                Self::lemma_members_all(self.wire());
                Self::lemma_parse_all(self.wire());
            },
            ToIncludeView::Nothing => {
                Self::lemma_members_nothing(self.wire());
                Self::lemma_parse_nothing(self.wire());
            },
            ToIncludeView::List { columns } => {
                Self::lemma_members_list(self.wire(), columns);
                Self::lemma_parse_list(self.wire());
            },
        }
    }

    /// The members that are written for the variant `all` are read
    /// back as the value, given that its parts are read back from their
    /// wire forms.
    proof fn lemma_members_all(j: JsonValue)
        requires
            j == JsonValue::Object(
                Seq::empty()
                    .push(member("type"@, text("all"@))),
            ),
        ensures
            j is Object,
            Self::parse_all(j->Object_0) == Ok::<ToIncludeView, Failure>(ToIncludeView::All),
            text_field(j->Object_0, "type"@) == Ok::<Seq<char>, Failure>("all"@),
    {
        broadcast use {lemma_lookup_push, lemma_lookup_empty};

        lemma_keys();
    }

    /// An object with the discriminator `all` is read as that variant.
    proof fn lemma_parse_all(j: JsonValue)
        requires
            j is Object,
            text_field(j->Object_0, "type"@) == Ok::<Seq<char>, Failure>("all"@),
        ensures
            Self::parse(j) == Self::parse_all(j->Object_0),
    {
        lemma_tags();
    }

    /// The members that are written for the variant `none` are read
    /// back as the value, given that its parts are read back from their
    /// wire forms.
    proof fn lemma_members_nothing(j: JsonValue)
        requires
            j == JsonValue::Object(
                Seq::empty()
                    .push(member("type"@, text("none"@))),
            ),
        ensures
            j is Object,
            Self::parse_nothing(j->Object_0)
                == Ok::<ToIncludeView, Failure>(ToIncludeView::Nothing),
            text_field(j->Object_0, "type"@) == Ok::<Seq<char>, Failure>("none"@),
    {
        broadcast use {lemma_lookup_push, lemma_lookup_empty};

        lemma_keys();
    }

    /// An object with the discriminator `none` is read as that variant.
    proof fn lemma_parse_nothing(j: JsonValue)
        requires
            j is Object,
            text_field(j->Object_0, "type"@) == Ok::<Seq<char>, Failure>("none"@),
        ensures
            Self::parse(j) == Self::parse_nothing(j->Object_0),
    {
        lemma_tags();
    }

    /// The members that are written for the variant `list` are read
    /// back as the value, given that its parts are read back from their
    /// wire forms.
    proof fn lemma_members_list(j: JsonValue, columns: Seq<Seq<char>>)
        requires
            j == JsonValue::Object(
                Seq::empty()
                    .push(member("type"@, text("list"@)))
                    .push(member("columns"@, texts(columns))),
            ),
        ensures
            j is Object,
            Self::parse_list(j->Object_0)
                == Ok::<ToIncludeView, Failure>(ToIncludeView::List { columns }),
            text_field(j->Object_0, "type"@) == Ok::<Seq<char>, Failure>("list"@),
    {
        broadcast use {lemma_lookup_push, lemma_lookup_empty};

        lemma_keys();
        lemma_texts_round_trip(columns);
    }

    /// An object with the discriminator `list` is read as that variant.
    proof fn lemma_parse_list(j: JsonValue)
        requires
            j is Object,
            text_field(j->Object_0, "type"@) == Ok::<Seq<char>, Failure>("list"@),
        ensures
            Self::parse(j) == Self::parse_list(j->Object_0),
    {
        lemma_tags();
    }

    /// What is written for a variant carries its discriminator.
    pub proof fn lemma_tag(self)
        ensures
            self.wire() is Object,
            text_field(self.wire()->Object_0, "type"@) == Ok::<Seq<char>, Failure>(self.tag()),
            Self::known_tag(self.tag()),
    {
        broadcast use {lemma_lookup_push, lemma_lookup_empty};

        lemma_keys();
    }

    /// An object whose discriminator stands for no variant of the
    /// family is refused as an unknown variant; it is read as none.
    pub proof fn lemma_unknown_tag(j: JsonValue)
        requires
            j is Object,
            text_field(j->Object_0, "type"@) is Ok,
            !Self::known_tag(text_field(j->Object_0, "type"@)->Ok_0),
        ensures
            Self::parse(j) == Err::<ToIncludeView, Failure>(
                Failure::here(DecodeCause::UnknownVariant).within_key("type"@),
            ),
    {
    }

}

impl ToInclude {
    /// Writes the value in its wire form.
    pub fn encode(&self) -> (j: Json)
        ensures
            j@ == self@.wire(),
    {
        let mut m = no_members();
        match self {
            ToInclude::All => {
                put(&mut m, "type", text_json("all"));
            },
            ToInclude::Nothing => {
                put(&mut m, "type", text_json("none"));
            },
            ToInclude::List { columns } => {
                put(&mut m, "type", text_json("list"));
                put(&mut m, "columns", texts_json(columns));
            },
        }
        object_json(m)
    }

    /// Reads a value from its wire form.
    pub fn decode(j: &Json) -> (r: Result<ToInclude, DecodeError>)
        ensures
            decoded(r) == ToIncludeView::parse(j@),
    {
        let m = read_members(j)?;
        let t = text_member(m, "type")?;
        if str_eq(t.as_str(), "all") {
            Self::decode_all(m)
        } else if str_eq(t.as_str(), "none") {
            Self::decode_nothing(m)
        } else if str_eq(t.as_str(), "list") {
            Self::decode_list(m)
        } else {
            Err(DecodeError::here(DecodeCause::UnknownVariant).within_key("type"))
        }
    }

    fn decode_all(m: &Vec<Member>) -> (r: Result<ToInclude, DecodeError>)
        ensures
            decoded(r) == ToIncludeView::parse_all(members_view(m@)),
    {
        Ok(ToInclude::All)
    }

    fn decode_nothing(m: &Vec<Member>) -> (r: Result<ToInclude, DecodeError>)
        ensures
            decoded(r) == ToIncludeView::parse_nothing(members_view(m@)),
    {
        Ok(ToInclude::Nothing)
    }

    fn decode_list(m: &Vec<Member>) -> (r: Result<ToInclude, DecodeError>)
        ensures
            decoded(r) == ToIncludeView::parse_list(members_view(m@)),
    {
        let columns = texts_member(m, "columns")?;
        Ok(ToInclude::List { columns })
    }
}

/// A query for what the engine knows of the segments of a data source.
#[derive(Debug, PartialEq)]
pub struct SegmentMetadata {
    pub data_source: DataSource,
    pub intervals: Vec<Interval>,
    pub to_include: ToInclude,
    pub merge: bool,
    pub analysis_types: Vec<AnalysisType>,
    pub lenient_aggregator_merge: bool,
    pub context: StringMap,
}

/// Mathematical value of a [`SegmentMetadata`].
pub struct SegmentMetadataView {
    pub data_source: DataSourceView,
    pub intervals: Seq<IntervalView>,
    pub to_include: ToIncludeView,
    pub merge: bool,
    pub analysis_types: Seq<AnalysisType>,
    pub lenient_aggregator_merge: bool,
    pub context: Seq<(Seq<char>, Seq<char>)>,
}

impl SegmentMetadata {
    /// The mathematical value.
    pub open spec fn value(self) -> SegmentMetadataView
        decreases self,
    {
        SegmentMetadataView {
            data_source: self.data_source.value(),
            intervals: list_view(self.intervals@),
            to_include: self.to_include@,
            merge: self.merge,
            analysis_types: list_view(self.analysis_types@),
            lenient_aggregator_merge: self.lenient_aggregator_merge,
            context: self.context@,
        }
    }

    /// The mathematical values of the elements of a list.
    pub open spec fn values(list: Seq<SegmentMetadata>) -> Seq<SegmentMetadataView>
        decreases list,
    {
        Seq::new(
            list.len(),
            |i: int| if 0 <= i < list.len() { list[i].value() } else { arbitrary() },
        )
    }

    /// [`Self::values`] is the view of the list.
    pub proof fn lemma_values(list: Seq<SegmentMetadata>)
        ensures
            Self::values(list) == list_view(list),
    {
        assert(Self::values(list) =~= list_view(list));
    }
}

impl View for SegmentMetadata {
    type V = SegmentMetadataView;

    open spec fn view(&self) -> SegmentMetadataView {
        self.value()
    }
}

impl SegmentMetadataView {
    /// The wire form.
    pub open spec fn wire(self) -> JsonValue
        decreases self,
    {
        JsonValue::Object(
            Seq::empty()
                .push(member("queryType"@, text("segmentMetadata"@)))
                .push(member("dataSource"@, self.data_source.wire()))
                .push(
                    member("intervals"@, JsonValue::Array(IntervalView::wire_list(self.intervals))),
                )
                .push(member("toInclude"@, self.to_include.wire()))
                .push(member("merge"@, flag(self.merge)))
                .push(
                    member(
                        "analysisTypes"@,
                        JsonValue::Array(AnalysisType::wire_list(self.analysis_types)),
                    ),
                )
                .push(member("lenientAggregatorMerge"@, flag(self.lenient_aggregator_merge)))
                .push(member("context"@, map_wire(self.context))),
        )
    }

    /// Whether the parts that are not read back whatever they hold are
    /// read back as they are: every interval inside, and every map
    /// inside, which has to hold each key once.
    pub open spec fn reads_back(self) -> bool
        decreases self,
    {
        self.data_source.reads_back()
            && IntervalView::all_read_back(self.intervals)
            && distinct_keys(self.context)
    }

    /// Whether no timestamp inside holds anything finer than
    /// milliseconds.
    pub open spec fn millisecond_precise(self) -> bool
        decreases self,
    {
        self.data_source.millisecond_precise()
            && IntervalView::all_precise(self.intervals)
    }

    /// What a document is read as.
    pub open spec fn parse(j: JsonValue) -> Result<SegmentMetadataView, Failure>
        decreases j,
    {
        match as_members(j) {
            Ok(m) => match text_field(m, "queryType"@) {
                Ok(t) => if t == "segmentMetadata"@ {
                    Self::parse_members(m)
                } else {
                    Err(Failure::here(DecodeCause::UnknownVariant).within_key("queryType"@))
                },
                Err(e) => Err(e),
            },
            Err(e) => Err(e),
        }
    }

    /// The members of the object, read.
    pub open spec fn parse_members(m: Seq<MemberValue>) -> Result<SegmentMetadataView, Failure>
        decreases m,
    {
        let data_source = match required(m, "dataSource"@) {
            Ok(v) => {
                proof { lemma_lookup_smaller(m, "dataSource"@); }
                under("dataSource"@, DataSourceView::parse(v))
            },
            Err(e) => Err(e),
        };
        let intervals = match items_field(m, "intervals"@) {
            Ok(items) => under("intervals"@, IntervalView::parse_list(items)),
            Err(e) => Err(e),
        };
        let to_include = match required(m, "toInclude"@) {
            Ok(v) => under("toInclude"@, ToIncludeView::parse(v)),
            Err(e) => Err(e),
        };
        let merge = flag_field(m, "merge"@);
        let analysis_types = match items_field(m, "analysisTypes"@) {
            Ok(items) => under("analysisTypes"@, AnalysisType::parse_list(items)),
            Err(e) => Err(e),
        };
        let lenient_aggregator_merge = flag_field(m, "lenientAggregatorMerge"@);
        let context = match required(m, "context"@) {
            Ok(v) => under("context"@, map_parse(v)),
            Err(e) => Err(e),
        };
        if data_source is Err {
            Err(data_source->Err_0)
        } else if intervals is Err {
            Err(intervals->Err_0)
        } else if to_include is Err {
            Err(to_include->Err_0)
        } else if merge is Err {
            Err(merge->Err_0)
        } else if analysis_types is Err {
            Err(analysis_types->Err_0)
        } else if lenient_aggregator_merge is Err {
            Err(lenient_aggregator_merge->Err_0)
        } else if context is Err {
            Err(context->Err_0)
        } else {
            Ok(
                SegmentMetadataView {
                    data_source: data_source->Ok_0,
                    intervals: intervals->Ok_0,
                    to_include: to_include->Ok_0,
                    merge: merge->Ok_0,
                    analysis_types: analysis_types->Ok_0,
                    lenient_aggregator_merge: lenient_aggregator_merge->Ok_0,
                    context: context->Ok_0,
                },
            )
        }
    }

    /// What is written is never `null`.
    pub proof fn lemma_wire_not_null(self)
        ensures
            !(self.wire() is Null),
    {
    }

    /// Reading back what was written gives the value again, if the
    /// intervals and the maps inside are read back as they are.
    pub proof fn lemma_round_trip(self)
        requires
            self.reads_back(),
        ensures
            Self::parse(self.wire()) == Ok::<SegmentMetadataView, Failure>(self),
            self.wire() is Object,
            Self::parse_members(self.wire()->Object_0) == Ok::<SegmentMetadataView, Failure>(self),
            text_field(self.wire()->Object_0, "queryType"@)
                == Ok::<Seq<char>, Failure>("segmentMetadata"@),
        decreases self,
    {
        self.data_source.lemma_round_trip();
        IntervalView::lemma_list_round_trip(self.intervals);
        self.to_include.lemma_round_trip();
        AnalysisType::lemma_list_round_trip(self.analysis_types);
        lemma_map_round_trip(self.context);
        Self::lemma_members(
            self.wire(),
            self.data_source,
            self.data_source.wire(),
            self.intervals,
            IntervalView::wire_list(self.intervals),
            self.to_include,
            self.to_include.wire(),
            self.merge,
            self.analysis_types,
            AnalysisType::wire_list(self.analysis_types),
            self.lenient_aggregator_merge,
            self.context,
            map_wire(self.context),
        );
    }

    /// The members that are written are read back as the value, given
    /// that its parts are read back from their wire forms.
    proof fn lemma_members(
        j: JsonValue,
        data_source: DataSourceView,
        data_source_wire: JsonValue,
        intervals: Seq<IntervalView>,
        intervals_items: Seq<JsonValue>,
        to_include: ToIncludeView,
        to_include_wire: JsonValue,
        merge: bool,
        analysis_types: Seq<AnalysisType>,
        analysis_types_items: Seq<JsonValue>,
        lenient_aggregator_merge: bool,
        context: Seq<(Seq<char>, Seq<char>)>,
        context_wire: JsonValue,
    )
        requires
            j == JsonValue::Object(
                Seq::empty()
                    .push(member("queryType"@, text("segmentMetadata"@)))
                    .push(member("dataSource"@, data_source_wire))
                    .push(member("intervals"@, JsonValue::Array(intervals_items)))
                    .push(member("toInclude"@, to_include_wire))
                    .push(member("merge"@, flag(merge)))
                    .push(member("analysisTypes"@, JsonValue::Array(analysis_types_items)))
                    .push(member("lenientAggregatorMerge"@, flag(lenient_aggregator_merge)))
                    .push(member("context"@, context_wire)),
            ),
            DataSourceView::parse(data_source_wire) == Ok::<DataSourceView, Failure>(data_source),
            IntervalView::parse_list(intervals_items)
                == Ok::<Seq<IntervalView>, Failure>(intervals),
            ToIncludeView::parse(to_include_wire) == Ok::<ToIncludeView, Failure>(to_include),
            AnalysisType::parse_list(analysis_types_items)
                == Ok::<Seq<AnalysisType>, Failure>(analysis_types),
            map_parse(context_wire) == Ok::<Seq<(Seq<char>, Seq<char>)>, Failure>(context),
        ensures
            j is Object,
            Self::parse_members(j->Object_0) == Ok::<SegmentMetadataView, Failure>(
                SegmentMetadataView {
                    data_source,
                    intervals,
                    to_include,
                    merge,
                    analysis_types,
                    lenient_aggregator_merge,
                    context,
                },
            ),
            text_field(j->Object_0, "queryType"@) == Ok::<Seq<char>, Failure>("segmentMetadata"@),
            Self::parse(j) == Ok::<SegmentMetadataView, Failure>(
                SegmentMetadataView {
                    data_source,
                    intervals,
                    to_include,
                    merge,
                    analysis_types,
                    lenient_aggregator_merge,
                    context,
                },
            ),
    {
        broadcast use {lemma_lookup_push, lemma_lookup_empty};

        lemma_keys();
    }

}

impl SegmentMetadata {
    /// Writes the value in its wire form. A value whose timestamps hold
    /// nothing finer than milliseconds is read back as it is.
    pub fn encode(&self) -> (j: Json)
        ensures
            j@ == self@.wire(),
            self@.millisecond_precise() ==> self@.reads_back(),
            self@.millisecond_precise() ==>
                SegmentMetadataView::parse(j@) == Ok::<SegmentMetadataView, Failure>(self@),
        decreases self,
    {
        let mut m = no_members();
        put(&mut m, "queryType", text_json("segmentMetadata"));
        put(&mut m, "dataSource", self.data_source.encode());
        put(&mut m, "intervals", array_json(Interval::encode_list(&self.intervals)));
        put(&mut m, "toInclude", self.to_include.encode());
        put(&mut m, "merge", flag_json(self.merge));
        put(&mut m, "analysisTypes", array_json(AnalysisType::encode_list(&self.analysis_types)));
        put(&mut m, "lenientAggregatorMerge", flag_json(self.lenient_aggregator_merge));
        put(&mut m, "context", self.context.encode());
        proof {
            if self@.millisecond_precise() {
                self@.lemma_round_trip();
            }
        }
        object_json(m)
    }

    /// Reads a value from its wire form.
    pub fn decode(j: &Json) -> (r: Result<SegmentMetadata, DecodeError>)
        ensures
            decoded(r) == SegmentMetadataView::parse(j@),
        decreases j,
    {
        let m = read_members(j)?;
        let t = text_member(m, "queryType")?;
        if !str_eq(t.as_str(), "segmentMetadata") {
            return Err(DecodeError::here(DecodeCause::UnknownVariant).within_key("queryType"));
        }
        Self::decode_members(m)
    }

    /// Reads the members of the object.
    pub fn decode_members(m: &Vec<Member>) -> (r: Result<SegmentMetadata, DecodeError>)
        ensures
            decoded(r) == SegmentMetadataView::parse_members(members_view(m@)),
        decreases m,
    {
        let data_source = under_key(
            DataSource::decode(required_field(m, "dataSource")?),
            "dataSource",
        )?;
        let intervals = under_key(
            Interval::decode_list(items_member(m, "intervals")?),
            "intervals",
        )?;
        let to_include = under_key(
            ToInclude::decode(required_field(m, "toInclude")?),
            "toInclude",
        )?;
        let merge = flag_member(m, "merge")?;
        let analysis_types = under_key(
            AnalysisType::decode_list(items_member(m, "analysisTypes")?),
            "analysisTypes",
        )?;
        let lenient_aggregator_merge = flag_member(m, "lenientAggregatorMerge")?;
        let context = under_key(StringMap::decode(required_field(m, "context")?), "context")?;
        Ok(
            SegmentMetadata {
                data_source,
                intervals,
                to_include,
                merge,
                analysis_types,
                lenient_aggregator_merge,
                context,
            },
        )
    }
}

/// The names of the members differ from one another.
proof fn lemma_keys()
    ensures
        "analysisTypes"@.len() == 13,
        "columns"@.len() == 7,
        "context"@.len() == 7,
        "dataSource"@.len() == 10,
        "intervals"@.len() == 9,
        "lenientAggregatorMerge"@.len() == 22,
        "merge"@.len() == 5,
        "queryType"@.len() == 9,
        "toInclude"@.len() == 9,
        "type"@.len() == 4,
        "columns"@[2] == 'l',
        "context"@[2] == 'n',
        "intervals"@[0] == 'i',
        "queryType"@[0] == 'q',
        "toInclude"@[0] == 't',
{
    reveal_strlit("analysisTypes");
    reveal_strlit("columns");
    reveal_strlit("context");
    reveal_strlit("dataSource");
    reveal_strlit("intervals");
    reveal_strlit("lenientAggregatorMerge");
    reveal_strlit("merge");
    reveal_strlit("queryType");
    reveal_strlit("toInclude");
    reveal_strlit("type");
}

/// The names that stand for the variants differ from one another.
proof fn lemma_tags()
    ensures
        "aggregators"@.len() == 11,
        "all"@.len() == 3,
        "cardinality"@.len() == 11,
        "interval"@.len() == 8,
        "list"@.len() == 4,
        "minmax"@.len() == 6,
        "none"@.len() == 4,
        "queryGranularity"@.len() == 16,
        "rollup"@.len() == 6,
        "segmentMetadata"@.len() == 15,
        "size"@.len() == 4,
        "timestampSpec"@.len() == 13,
        "list"@[0] == 'l',
        "none"@[0] == 'n',
        "size"@[0] == 's',
        "minmax"@[0] == 'm',
        "rollup"@[0] == 'r',
        "aggregators"@[0] == 'a',
        "cardinality"@[0] == 'c',
{
    reveal_strlit("aggregators");
    reveal_strlit("all");
    reveal_strlit("cardinality");
    reveal_strlit("interval");
    reveal_strlit("list");
    reveal_strlit("minmax");
    reveal_strlit("none");
    reveal_strlit("queryGranularity");
    reveal_strlit("rollup");
    reveal_strlit("segmentMetadata");
    reveal_strlit("size");
    reveal_strlit("timestampSpec");
}

} // verus!
