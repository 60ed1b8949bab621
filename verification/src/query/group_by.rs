//! The group-by query, and a builder for it.

use vstd::prelude::*;
use crate::codec::{
    array_json, as_members, items_field, items_member, lemma_lookup_smaller,
    lemma_text_lists_round_trip, list_view, member, no_members, object_json, opt_view, present,
    present_field, put, read_members, required, required_field, string_lists_view, text,
    text_field, text_json, text_lists, text_lists_field, text_lists_json, text_lists_member,
    text_member, under, under_key,
};
use crate::error::{decoded, DecodeCause, DecodeError, Failure};
use crate::json::{
    lemma_lookup_empty, lemma_lookup_push, members_view, str_eq, Json, JsonValue, Member,
    MemberValue,
};
use crate::query::definitions::aggregators::{Aggregation, AggregationView};
use crate::query::definitions::dimensions::{Dimension, DimensionView};
use crate::query::definitions::filters::{Filter, FilterView};
use crate::query::definitions::having::{Having, HavingView};
use crate::query::definitions::intervals::{Interval, IntervalView};
use crate::query::definitions::limit::{Limit, LimitView};
use crate::query::definitions::postagregator::{PostAggregation, PostAggregationView};
use crate::query::definitions::virtual_columns::{VirtualColumn, VirtualColumnView};
use crate::query::{DataSource, DataSourceView};
use crate::query::definitions::granularitys::{Granularity, GranularityBase, GranularityView};
use crate::string_map::{
    distinct_keys,
    lemma_map_round_trip,
    map_parse,
    map_wire,
    with_entry,
    StringMap,
};

verus! {

/// A query for aggregated values, one row for each group of dimension values.
#[derive(Debug, PartialEq)]
pub struct GroupBy {
    pub data_source: DataSource,
    pub dimensions: Vec<Dimension>,
    pub limit_spec: Option<Limit>,
    pub having: Option<Having>,
    pub granularity: Granularity,
    pub filter: Option<Filter>,
    pub aggregations: Vec<Aggregation>,
    pub post_aggregations: Vec<PostAggregation>,
    pub virtual_columns: Vec<VirtualColumn>,
    pub intervals: Vec<Interval>,
    pub subtotal_spec: Vec<Vec<String>>,
    pub context: StringMap,
}

/// Mathematical value of a [`GroupBy`].
pub struct GroupByView {
    pub data_source: DataSourceView,
    pub dimensions: Seq<DimensionView>,
    pub limit_spec: Option<LimitView>,
    pub having: Option<HavingView>,
    pub granularity: GranularityView,
    pub filter: Option<FilterView>,
    pub aggregations: Seq<AggregationView>,
    pub post_aggregations: Seq<PostAggregationView>,
    pub virtual_columns: Seq<VirtualColumnView>,
    pub intervals: Seq<IntervalView>,
    pub subtotal_spec: Seq<Seq<Seq<char>>>,
    pub context: Seq<(Seq<char>, Seq<char>)>,
}

impl GroupBy {
    /// The mathematical value.
    pub open spec fn value(self) -> GroupByView
        decreases self,
    {
        GroupByView {
            data_source: self.data_source.value(),
            dimensions: list_view(self.dimensions@),
            limit_spec: opt_view(self.limit_spec),
            having: opt_view(self.having),
            granularity: self.granularity@,
            filter: opt_view(self.filter),
            aggregations: list_view(self.aggregations@),
            post_aggregations: list_view(self.post_aggregations@),
            virtual_columns: list_view(self.virtual_columns@),
            intervals: list_view(self.intervals@),
            subtotal_spec: string_lists_view(self.subtotal_spec@),
            context: self.context@,
        }
    }

    /// The mathematical values of the elements of a list.
    pub open spec fn values(list: Seq<GroupBy>) -> Seq<GroupByView>
        decreases list,
    {
        Seq::new(
            list.len(),
            |i: int| if 0 <= i < list.len() { list[i].value() } else { arbitrary() },
        )
    }

    /// [`Self::values`] is the view of the list.
    pub proof fn lemma_values(list: Seq<GroupBy>)
        ensures
            Self::values(list) == list_view(list),
    {
        assert(Self::values(list) =~= list_view(list));
    }
}

impl View for GroupBy {
    type V = GroupByView;

    open spec fn view(&self) -> GroupByView {
        self.value()
    }
}

impl GroupByView {
    /// The wire form.
    pub open spec fn wire(self) -> JsonValue
        decreases self,
    {
        JsonValue::Object(
            Seq::empty()
                .push(member("queryType"@, text("groupBy"@)))
                .push(member("dataSource"@, self.data_source.wire()))
                .push(
                    member(
                        "dimensions"@,
                        JsonValue::Array(DimensionView::wire_list(self.dimensions)),
                    ),
                )
                .push(
                    member(
                        "limitSpec"@,
                        match self.limit_spec { Some(v) => v.wire(), None => JsonValue::Null },
                    ),
                )
                .push(
                    member(
                        "having"@,
                        match self.having { Some(v) => v.wire(), None => JsonValue::Null },
                    ),
                )
                .push(member("granularity"@, self.granularity.wire()))
                .push(
                    member(
                        "filter"@,
                        match self.filter { Some(v) => v.wire(), None => JsonValue::Null },
                    ),
                )
                .push(
                    member(
                        "aggregations"@,
                        JsonValue::Array(AggregationView::wire_list(self.aggregations)),
                    ),
                )
                .push(
                    member(
                        "postAggregations"@,
                        JsonValue::Array(PostAggregationView::wire_list(self.post_aggregations)),
                    ),
                )
                .push(
                    member(
                        "virtualColumns"@,
                        JsonValue::Array(VirtualColumnView::wire_list(self.virtual_columns)),
                    ),
                )
                .push(
                    member("intervals"@, JsonValue::Array(IntervalView::wire_list(self.intervals))),
                )
                .push(member("subtotalSpec"@, text_lists(self.subtotal_spec)))
                .push(member("context"@, map_wire(self.context))),
        )
    }

    /// Whether the parts that are not read back whatever they hold are
    /// read back as they are: every interval inside, and every map
    /// inside, which has to hold each key once.
    pub open spec fn reads_back(self) -> bool
        decreases self,
    {
        self.data_source.reads_back()
            && DimensionView::all_read_back(self.dimensions)
            && (self.having matches Some(v) ==> v.reads_back())
            && (self.filter matches Some(v) ==> v.reads_back())
            && AggregationView::all_read_back(self.aggregations)
            && IntervalView::all_read_back(self.intervals)
            && distinct_keys(self.context)
    }

    /// Whether no timestamp inside holds anything finer than
    /// milliseconds.
    pub open spec fn millisecond_precise(self) -> bool
        decreases self,
    {
        self.data_source.millisecond_precise()
            && IntervalView::all_precise(self.intervals)
    }

    /// What a document is read as.
    pub open spec fn parse(j: JsonValue) -> Result<GroupByView, Failure>
        decreases j,
    {
        match as_members(j) {
            Ok(m) => match text_field(m, "queryType"@) {
                Ok(t) => if t == "groupBy"@ {
                    Self::parse_members(m)
                } else {
                    Err(Failure::here(DecodeCause::UnknownVariant).within_key("queryType"@))
                },
                Err(e) => Err(e),
            },
            Err(e) => Err(e),
        }
    }

    /// The members of the object, read.
    pub open spec fn parse_members(m: Seq<MemberValue>) -> Result<GroupByView, Failure>
        decreases m,
    {
        let data_source = match required(m, "dataSource"@) {
            Ok(v) => {
                proof { lemma_lookup_smaller(m, "dataSource"@); }
                under("dataSource"@, DataSourceView::parse(v))
            },
            Err(e) => Err(e),
        };
        let dimensions = match items_field(m, "dimensions"@) {
            Ok(items) => under("dimensions"@, DimensionView::parse_list(items)),
            Err(e) => Err(e),
        };
        let limit_spec = match present(m, "limitSpec"@) {
            Some(v) => match LimitView::parse(v) {
                Ok(x) => Ok(Some(x)),
                Err(e) => Err(e.within_key("limitSpec"@)),
            },
            None => Ok(None),
        };
        let having = match present(m, "having"@) {
            Some(v) => match HavingView::parse(v) {
                Ok(x) => Ok(Some(x)),
                Err(e) => Err(e.within_key("having"@)),
            },
            None => Ok(None),
        };
        let granularity = match required(m, "granularity"@) {
            Ok(v) => under("granularity"@, GranularityView::parse(v)),
            Err(e) => Err(e),
        };
        let filter = match present(m, "filter"@) {
            Some(v) => match FilterView::parse(v) {
                Ok(x) => Ok(Some(x)),
                Err(e) => Err(e.within_key("filter"@)),
            },
            None => Ok(None),
        };
        let aggregations = match items_field(m, "aggregations"@) {
            Ok(items) => under("aggregations"@, AggregationView::parse_list(items)),
            Err(e) => Err(e),
        };
        let post_aggregations = match items_field(m, "postAggregations"@) {
            Ok(items) => under("postAggregations"@, PostAggregationView::parse_list(items)),
            Err(e) => Err(e),
        };
        let virtual_columns = match items_field(m, "virtualColumns"@) {
            Ok(items) => under("virtualColumns"@, VirtualColumnView::parse_list(items)),
            Err(e) => Err(e),
        };
        let intervals = match items_field(m, "intervals"@) {
            Ok(items) => under("intervals"@, IntervalView::parse_list(items)),
            Err(e) => Err(e),
        };
        let subtotal_spec = text_lists_field(m, "subtotalSpec"@);
        let context = match required(m, "context"@) {
            Ok(v) => under("context"@, map_parse(v)),
            Err(e) => Err(e),
        };
        if data_source is Err {
            Err(data_source->Err_0)
        } else if dimensions is Err {
            Err(dimensions->Err_0)
        } else if limit_spec is Err {
            Err(limit_spec->Err_0)
        } else if having is Err {
            Err(having->Err_0)
        } else if granularity is Err {
            Err(granularity->Err_0)
        } else if filter is Err {
            Err(filter->Err_0)
        } else if aggregations is Err {
            Err(aggregations->Err_0)
        } else if post_aggregations is Err {
            Err(post_aggregations->Err_0)
        } else if virtual_columns is Err {
            Err(virtual_columns->Err_0)
        } else if intervals is Err {
            Err(intervals->Err_0)
        } else if subtotal_spec is Err {
            Err(subtotal_spec->Err_0)
        } else if context is Err {
            Err(context->Err_0)
        } else {
            Ok(
                GroupByView {
                    data_source: data_source->Ok_0,
                    dimensions: dimensions->Ok_0,
                    limit_spec: limit_spec->Ok_0,
                    having: having->Ok_0,
                    granularity: granularity->Ok_0,
                    filter: filter->Ok_0,
                    aggregations: aggregations->Ok_0,
                    post_aggregations: post_aggregations->Ok_0,
                    virtual_columns: virtual_columns->Ok_0,
                    intervals: intervals->Ok_0,
                    subtotal_spec: subtotal_spec->Ok_0,
                    context: context->Ok_0,
                },
            )
        }
    }

    /// What is written is never `null`.
    pub proof fn lemma_wire_not_null(self)
        ensures
            !(self.wire() is Null),
    {
    }

    /// Reading back what was written gives the value again, if the
    /// intervals and the maps inside are read back as they are.
    pub proof fn lemma_round_trip(self)
        requires
            self.reads_back(),
        ensures
            Self::parse(self.wire()) == Ok::<GroupByView, Failure>(self),
            self.wire() is Object,
            Self::parse_members(self.wire()->Object_0) == Ok::<GroupByView, Failure>(self),
            text_field(self.wire()->Object_0, "queryType"@) == Ok::<Seq<char>, Failure>("groupBy"@),
        decreases self,
    {
        self.data_source.lemma_round_trip();
        DimensionView::lemma_list_round_trip(self.dimensions);
        if self.limit_spec is Some {
            self.limit_spec->Some_0.lemma_round_trip();
            self.limit_spec->Some_0.lemma_wire_not_null();
        }
        if self.having is Some {
            self.having->Some_0.lemma_round_trip();
            self.having->Some_0.lemma_wire_not_null();
        }
        self.granularity.lemma_round_trip();
        if self.filter is Some {
            self.filter->Some_0.lemma_round_trip();
            self.filter->Some_0.lemma_wire_not_null();
        }
        AggregationView::lemma_list_round_trip(self.aggregations);
        PostAggregationView::lemma_list_round_trip(self.post_aggregations);
        VirtualColumnView::lemma_list_round_trip(self.virtual_columns);
        IntervalView::lemma_list_round_trip(self.intervals);
        lemma_map_round_trip(self.context);
        Self::lemma_members(
            self.wire(),
            self.data_source,
            self.data_source.wire(),
            self.dimensions,
            DimensionView::wire_list(self.dimensions),
            self.limit_spec,
            match self.limit_spec { Some(v) => v.wire(), None => JsonValue::Null },
            self.having,
            match self.having { Some(v) => v.wire(), None => JsonValue::Null },
            self.granularity,
            self.granularity.wire(),
            self.filter,
            match self.filter { Some(v) => v.wire(), None => JsonValue::Null },
            self.aggregations,
            AggregationView::wire_list(self.aggregations),
            self.post_aggregations,
            PostAggregationView::wire_list(self.post_aggregations),
            self.virtual_columns,
            VirtualColumnView::wire_list(self.virtual_columns),
            self.intervals,
            IntervalView::wire_list(self.intervals),
            self.subtotal_spec,
            self.context,
            map_wire(self.context),
        );
    }

    /// The members that are written are read back as the value, given
    /// that its parts are read back from their wire forms.
    proof fn lemma_members(
        j: JsonValue,
        data_source: DataSourceView,
        data_source_wire: JsonValue,
        dimensions: Seq<DimensionView>,
        dimensions_items: Seq<JsonValue>,
        limit_spec: Option<LimitView>,
        limit_spec_wire: JsonValue,
        having: Option<HavingView>,
        having_wire: JsonValue,
        granularity: GranularityView,
        granularity_wire: JsonValue,
        filter: Option<FilterView>,
        filter_wire: JsonValue,
        aggregations: Seq<AggregationView>,
        aggregations_items: Seq<JsonValue>,
        post_aggregations: Seq<PostAggregationView>,
        post_aggregations_items: Seq<JsonValue>,
        virtual_columns: Seq<VirtualColumnView>,
        virtual_columns_items: Seq<JsonValue>,
        intervals: Seq<IntervalView>,
        intervals_items: Seq<JsonValue>,
        subtotal_spec: Seq<Seq<Seq<char>>>,
        context: Seq<(Seq<char>, Seq<char>)>,
        context_wire: JsonValue,
    )
        requires
            j == JsonValue::Object(
                Seq::empty()
                    .push(member("queryType"@, text("groupBy"@)))
                    .push(member("dataSource"@, data_source_wire))
                    .push(member("dimensions"@, JsonValue::Array(dimensions_items)))
                    .push(
                        member(
                            "limitSpec"@,
                            match limit_spec {
                                Some(_) => limit_spec_wire,
                                None => JsonValue::Null,
                            },
                        ),
                    )
                    .push(
                        member(
                            "having"@,
                            match having { Some(_) => having_wire, None => JsonValue::Null },
                        ),
                    )
                    .push(member("granularity"@, granularity_wire))
                    .push(
                        member(
                            "filter"@,
                            match filter { Some(_) => filter_wire, None => JsonValue::Null },
                        ),
                    )
                    .push(member("aggregations"@, JsonValue::Array(aggregations_items)))
                    .push(member("postAggregations"@, JsonValue::Array(post_aggregations_items)))
                    .push(member("virtualColumns"@, JsonValue::Array(virtual_columns_items)))
                    .push(member("intervals"@, JsonValue::Array(intervals_items)))
                    .push(member("subtotalSpec"@, text_lists(subtotal_spec)))
                    .push(member("context"@, context_wire)),
            ),
            DataSourceView::parse(data_source_wire) == Ok::<DataSourceView, Failure>(data_source),
            DimensionView::parse_list(dimensions_items)
                == Ok::<Seq<DimensionView>, Failure>(dimensions),
            limit_spec matches Some(v) ==>
                LimitView::parse(limit_spec_wire) == Ok::<LimitView, Failure>(v),
            limit_spec is Some ==> !(limit_spec_wire is Null),
            having matches Some(v) ==>
                HavingView::parse(having_wire) == Ok::<HavingView, Failure>(v),
            having is Some ==> !(having_wire is Null),
            GranularityView::parse(granularity_wire) == Ok::<GranularityView, Failure>(granularity),
            filter matches Some(v) ==>
                FilterView::parse(filter_wire) == Ok::<FilterView, Failure>(v),
            filter is Some ==> !(filter_wire is Null),
            AggregationView::parse_list(aggregations_items)
                == Ok::<Seq<AggregationView>, Failure>(aggregations),
            PostAggregationView::parse_list(post_aggregations_items)
                == Ok::<Seq<PostAggregationView>, Failure>(post_aggregations),
            VirtualColumnView::parse_list(virtual_columns_items)
                == Ok::<Seq<VirtualColumnView>, Failure>(virtual_columns),
            IntervalView::parse_list(intervals_items)
                == Ok::<Seq<IntervalView>, Failure>(intervals),
            map_parse(context_wire) == Ok::<Seq<(Seq<char>, Seq<char>)>, Failure>(context),
        ensures
            j is Object,
            Self::parse_members(j->Object_0) == Ok::<GroupByView, Failure>(
                GroupByView {
                    data_source,
                    dimensions,
                    limit_spec,
                    having,
                    granularity,
                    filter,
                    aggregations,
                    post_aggregations,
                    virtual_columns,
                    intervals,
                    subtotal_spec,
                    context,
                },
            ),
            text_field(j->Object_0, "queryType"@) == Ok::<Seq<char>, Failure>("groupBy"@),
            Self::parse(j) == Ok::<GroupByView, Failure>(
                GroupByView {
                    data_source,
                    dimensions,
                    limit_spec,
                    having,
                    granularity,
                    filter,
                    aggregations,
                    post_aggregations,
                    virtual_columns,
                    intervals,
                    subtotal_spec,
                    context,
                },
            ),
    {
        broadcast use {lemma_lookup_push, lemma_lookup_empty};

        lemma_keys();
        lemma_text_lists_round_trip(subtotal_spec);
    }

}

impl GroupBy {
    /// Writes the value in its wire form. A value whose timestamps hold
    /// nothing finer than milliseconds is read back as it is.
    pub fn encode(&self) -> (j: Json)
        ensures
            j@ == self@.wire(),
            self@.millisecond_precise() ==> self@.reads_back(),
            self@.millisecond_precise() ==>
                GroupByView::parse(j@) == Ok::<GroupByView, Failure>(self@),
        decreases self,
    {
        let mut m = no_members();
        put(&mut m, "queryType", text_json("groupBy"));
        put(&mut m, "dataSource", self.data_source.encode());
        put(&mut m, "dimensions", array_json(Dimension::encode_list(&self.dimensions)));
        put(
            &mut m,
            "limitSpec",
            match &self.limit_spec { Some(v) => v.encode(), None => Json::Null },
        );
        put(&mut m, "having", match &self.having { Some(v) => v.encode(), None => Json::Null });
        put(&mut m, "granularity", self.granularity.encode());
        put(&mut m, "filter", match &self.filter { Some(v) => v.encode(), None => Json::Null });
        put(&mut m, "aggregations", array_json(Aggregation::encode_list(&self.aggregations)));
        put(
            &mut m,
            "postAggregations",
            array_json(PostAggregation::encode_list(&self.post_aggregations)),
        );
        put(
            &mut m,
            "virtualColumns",
            array_json(VirtualColumn::encode_list(&self.virtual_columns)),
        );
        put(&mut m, "intervals", array_json(Interval::encode_list(&self.intervals)));
        put(&mut m, "subtotalSpec", text_lists_json(&self.subtotal_spec));
        put(&mut m, "context", self.context.encode());
        proof {
            if self@.millisecond_precise() {
                self@.lemma_round_trip();
            }
        }
        object_json(m)
    }

    /// Reads a value from its wire form.
    pub fn decode(j: &Json) -> (r: Result<GroupBy, DecodeError>)
        ensures
            decoded(r) == GroupByView::parse(j@),
        decreases j,
    {
        let m = read_members(j)?;
        let t = text_member(m, "queryType")?;
        if !str_eq(t.as_str(), "groupBy") {
            return Err(DecodeError::here(DecodeCause::UnknownVariant).within_key("queryType"));
        }
        Self::decode_members(m)
    }

    /// Reads the members of the object.
    pub fn decode_members(m: &Vec<Member>) -> (r: Result<GroupBy, DecodeError>)
        ensures
            decoded(r) == GroupByView::parse_members(members_view(m@)),
        decreases m,
    {
        let data_source = under_key(
            DataSource::decode(required_field(m, "dataSource")?),
            "dataSource",
        )?;
        let dimensions = under_key(
            Dimension::decode_list(items_member(m, "dimensions")?),
            "dimensions",
        )?;
        let limit_spec = match present_field(m, "limitSpec") {
            Some(v) => Some(under_key(Limit::decode(v), "limitSpec")?),
            None => None,
        };
        let having = match present_field(m, "having") {
            Some(v) => Some(under_key(Having::decode(v), "having")?),
            None => None,
        };
        let granularity = under_key(
            Granularity::decode(required_field(m, "granularity")?),
            "granularity",
        )?;
        let filter = match present_field(m, "filter") {
            Some(v) => Some(under_key(Filter::decode(v), "filter")?),
            None => None,
        };
        let aggregations = under_key(
            Aggregation::decode_list(items_member(m, "aggregations")?),
            "aggregations",
        )?;
        let post_aggregations = under_key(
            PostAggregation::decode_list(items_member(m, "postAggregations")?),
            "postAggregations",
        )?;
        let virtual_columns = under_key(
            VirtualColumn::decode_list(items_member(m, "virtualColumns")?),
            "virtualColumns",
        )?;
        let intervals = under_key(
            Interval::decode_list(items_member(m, "intervals")?),
            "intervals",
        )?;
        let subtotal_spec = text_lists_member(m, "subtotalSpec")?;
        let context = under_key(StringMap::decode(required_field(m, "context")?), "context")?;
        Ok(
            GroupBy {
                data_source,
                dimensions,
                limit_spec,
                having,
                granularity,
                filter,
                aggregations,
                post_aggregations,
                virtual_columns,
                intervals,
                subtotal_spec,
                context,
            },
        )
    }
}

/// Builds a [`GroupBy`] step by step. What is not set stays as
/// [`GroupByBuilder::new`] left it.
pub struct GroupByBuilder {
    query: GroupBy,
}

impl View for GroupByBuilder {
    type V = GroupByView;

    closed spec fn view(&self) -> GroupByView {
        self.query@
    }
}

impl GroupByBuilder {
    /// A query on `data_source` with granularity `all` and nothing else.
    pub fn new(data_source: DataSource) -> (out: GroupByBuilder)
        ensures
            out@ == (GroupByView {
                data_source: data_source@,
                dimensions: Seq::empty(),
                limit_spec: None,
                having: None,
                granularity: GranularityView::Base(GranularityBase::All),
                filter: None,
                aggregations: Seq::empty(),
                post_aggregations: Seq::empty(),
                virtual_columns: Seq::empty(),
                intervals: Seq::empty(),
                subtotal_spec: Seq::empty(),
                context: Seq::empty(),
            }),
    {
        let query = GroupBy {
            data_source,
            dimensions: Vec::new(),
            limit_spec: None,
            having: None,
            granularity: Granularity::all(),
            filter: None,
            aggregations: Vec::new(),
            post_aggregations: Vec::new(),
            virtual_columns: Vec::new(),
            intervals: Vec::new(),
            subtotal_spec: Vec::new(),
            context: StringMap::new(),
        };
        proof {
            assert(query@.dimensions =~= Seq::empty());
            assert(query@.aggregations =~= Seq::empty());
            assert(query@.post_aggregations =~= Seq::empty());
            assert(query@.virtual_columns =~= Seq::empty());
            assert(query@.intervals =~= Seq::empty());
            assert(query@.subtotal_spec =~= Seq::empty());
        }
        GroupByBuilder { query }
    }

    pub fn dimensions(self, dimensions: Vec<Dimension>) -> (out: GroupByBuilder)
        ensures
            out@ == (GroupByView { dimensions: list_view(dimensions@), ..self@ }),
    {
        let mut query = self.query;
        query.dimensions = dimensions;
        GroupByBuilder { query }
    }

    pub fn limit(self, limit: Limit) -> (out: GroupByBuilder)
        ensures
            out@ == (GroupByView { limit_spec: Some(limit@), ..self@ }),
    {
        let mut query = self.query;
        query.limit_spec = Some(limit);
        GroupByBuilder { query }
    }

    pub fn having(self, having: Having) -> (out: GroupByBuilder)
        ensures
            out@ == (GroupByView { having: Some(having@), ..self@ }),
    {
        let mut query = self.query;
        query.having = Some(having);
        GroupByBuilder { query }
    }

    pub fn granularity(self, granularity: Granularity) -> (out: GroupByBuilder)
        ensures
            out@ == (GroupByView { granularity: granularity@, ..self@ }),
    {
        let mut query = self.query;
        query.granularity = granularity;
        GroupByBuilder { query }
    }

    pub fn filter(self, filter: Filter) -> (out: GroupByBuilder)
        ensures
            out@ == (GroupByView { filter: Some(filter@), ..self@ }),
    {
        let mut query = self.query;
        query.filter = Some(filter);
        GroupByBuilder { query }
    }

    pub fn aggregations(self, aggr: Vec<Aggregation>) -> (out: GroupByBuilder)
        ensures
            out@ == (GroupByView { aggregations: list_view(aggr@), ..self@ }),
    {
        let mut query = self.query;
        query.aggregations = aggr;
        GroupByBuilder { query }
    }

    pub fn post_aggregations(self, aggr: Vec<PostAggregation>) -> (out: GroupByBuilder)
        ensures
            out@ == (GroupByView { post_aggregations: list_view(aggr@), ..self@ }),
    {
        let mut query = self.query;
        query.post_aggregations = aggr;
        GroupByBuilder { query }
    }

    pub fn virtual_columns(self, columns: Vec<VirtualColumn>) -> (out: GroupByBuilder)
        ensures
            out@ == (GroupByView { virtual_columns: list_view(columns@), ..self@ }),
    {
        let mut query = self.query;
        query.virtual_columns = columns;
        GroupByBuilder { query }
    }

    pub fn intervals(self, intervals: Vec<Interval>) -> (out: GroupByBuilder)
        ensures
            out@ == (GroupByView { intervals: list_view(intervals@), ..self@ }),
    {
        let mut query = self.query;
        query.intervals = intervals;
        GroupByBuilder { query }
    }

    pub fn subtotal_spec(self, subtotals: Vec<Vec<String>>) -> (out: GroupByBuilder)
        ensures
            out@ == (GroupByView { subtotal_spec: string_lists_view(subtotals@), ..self@ }),
    {
        let mut query = self.query;
        query.subtotal_spec = subtotals;
        GroupByBuilder { query }
    }

    pub fn context(self, context: StringMap) -> (out: GroupByBuilder)
        ensures
            out@ == (GroupByView { context: context@, ..self@ }),
    {
        let mut query = self.query;
        query.context = context;
        GroupByBuilder { query }
    }

    /// Gives the context key `key` the value `value`.
    pub fn add_context(self, key: &str, value: &str) -> (out: GroupByBuilder)
        ensures
            out@ == (GroupByView { context: with_entry(self@.context, key@, value@), ..self@ }),
    {
        let mut query = self.query;
        query.context.insert(key, value);
        GroupByBuilder { query }
    }

    /// The query that was built.
    pub fn build(self) -> (out: GroupBy)
        ensures
            out@ == self@,
    {
        self.query
    }
}

/// The names of the members differ from one another.
proof fn lemma_keys()
    ensures
        "aggregations"@.len() == 12,
        "context"@.len() == 7,
        "dataSource"@.len() == 10,
        "dimensions"@.len() == 10,
        "filter"@.len() == 6,
        "granularity"@.len() == 11,
        "having"@.len() == 6,
        "intervals"@.len() == 9,
        "limitSpec"@.len() == 9,
        "postAggregations"@.len() == 16,
        "queryType"@.len() == 9,
        "subtotalSpec"@.len() == 12,
        "virtualColumns"@.len() == 14,
        "filter"@[0] == 'f',
        "having"@[0] == 'h',
        "intervals"@[0] == 'i',
        "limitSpec"@[0] == 'l',
        "queryType"@[0] == 'q',
        "dataSource"@[1] == 'a',
        "dimensions"@[1] == 'i',
        "aggregations"@[0] == 'a',
        "subtotalSpec"@[0] == 's',
{
    reveal_strlit("aggregations");
    reveal_strlit("context");
    reveal_strlit("dataSource");
    reveal_strlit("dimensions");
    reveal_strlit("filter");
    reveal_strlit("granularity");
    reveal_strlit("having");
    reveal_strlit("intervals");
    reveal_strlit("limitSpec");
    reveal_strlit("postAggregations");
    reveal_strlit("queryType");
    reveal_strlit("subtotalSpec");
    reveal_strlit("virtualColumns");
}

} // verus!
