//! The timeseries query.

use vstd::prelude::*;
use crate::codec::{
    array_json, as_members, flag, flag_field, flag_json, flag_member, items_field,
    items_member, lemma_lookup_smaller, list_view, member, no_members, object_json, opt_count,
    opt_count_field, opt_count_json, opt_count_member, opt_view, present, present_field, put,
    read_members, required, required_field, text, text_field, text_json, text_member, under,
    under_key,
};
use crate::error::{decoded, DecodeCause, DecodeError, Failure};
use crate::json::{
    lemma_lookup_empty, lemma_lookup_push, members_view, str_eq, Json, JsonValue, Member,
    MemberValue,
};
use crate::query::definitions::aggregators::{Aggregation, AggregationView};
use crate::query::definitions::filters::{Filter, FilterView};
use crate::query::definitions::granularitys::{Granularity, GranularityView};
use crate::query::definitions::intervals::{Interval, IntervalView};
use crate::query::definitions::postagregator::{PostAggregation, PostAggregationView};
use crate::query::definitions::virtual_columns::{VirtualColumn, VirtualColumnView};
use crate::query::{DataSource, DataSourceView};
use crate::string_map::{distinct_keys, lemma_map_round_trip, map_parse, map_wire, StringMap};

verus! {

/// A query for aggregated values, one row for each time bucket.
#[derive(Debug, PartialEq)]
pub struct Timeseries {
    pub data_source: DataSource,
    pub granularity: Granularity,
    pub descending: bool,
    pub intervals: Vec<Interval>,
    pub filter: Option<Filter>,
    pub aggregations: Vec<Aggregation>,
    pub post_aggregations: Vec<PostAggregation>,
    pub virtual_columns: Vec<VirtualColumn>,
    pub limit: Option<usize>,
    pub context: StringMap,
}

/// Mathematical value of a [`Timeseries`].
pub struct TimeseriesView {
    pub data_source: DataSourceView,
    pub granularity: GranularityView,
    pub descending: bool,
    pub intervals: Seq<IntervalView>,
    pub filter: Option<FilterView>,
    pub aggregations: Seq<AggregationView>,
    pub post_aggregations: Seq<PostAggregationView>,
    pub virtual_columns: Seq<VirtualColumnView>,
    pub limit: Option<usize>,
    pub context: Seq<(Seq<char>, Seq<char>)>,
}

impl Timeseries {
    /// The mathematical value.
    pub open spec fn value(self) -> TimeseriesView
        decreases self,
    {
        TimeseriesView {
            data_source: self.data_source.value(),
            granularity: self.granularity@,
            descending: self.descending,
            intervals: list_view(self.intervals@),
            filter: opt_view(self.filter),
            aggregations: list_view(self.aggregations@),
            post_aggregations: list_view(self.post_aggregations@),
            virtual_columns: list_view(self.virtual_columns@),
            limit: self.limit,
            context: self.context@,
        }
    }

    /// The mathematical values of the elements of a list.
    pub open spec fn values(list: Seq<Timeseries>) -> Seq<TimeseriesView>
        decreases list,
    {
        Seq::new(
            list.len(),
            |i: int| if 0 <= i < list.len() { list[i].value() } else { arbitrary() },
        )
    }

    /// [`Self::values`] is the view of the list.
    pub proof fn lemma_values(list: Seq<Timeseries>)
        ensures
            Self::values(list) == list_view(list),
    {
        assert(Self::values(list) =~= list_view(list));
    }
}

impl View for Timeseries {
    type V = TimeseriesView;

    open spec fn view(&self) -> TimeseriesView {
        self.value()
    }
}

impl TimeseriesView {
    /// The wire form.
    pub open spec fn wire(self) -> JsonValue
        decreases self,
    {
        JsonValue::Object(
            Seq::empty()
                .push(member("queryType"@, text("timeseries"@)))
                .push(member("dataSource"@, self.data_source.wire()))
                .push(member("granularity"@, self.granularity.wire()))
                .push(member("descending"@, flag(self.descending)))
                .push(
                    member("intervals"@, JsonValue::Array(IntervalView::wire_list(self.intervals))),
                )
                .push(
                    member(
                        "filter"@,
                        match self.filter { Some(v) => v.wire(), None => JsonValue::Null },
                    ),
                )
                .push(
                    member(
                        "aggregations"@,
                        JsonValue::Array(AggregationView::wire_list(self.aggregations)),
                    ),
                )
                .push(
                    member(
                        "postAggregations"@,
                        JsonValue::Array(PostAggregationView::wire_list(self.post_aggregations)),
                    ),
                )
                .push(
                    member(
                        "virtualColumns"@,
                        JsonValue::Array(VirtualColumnView::wire_list(self.virtual_columns)),
                    ),
                )
                .push(member("limit"@, opt_count(self.limit)))
                .push(member("context"@, map_wire(self.context))),
        )
    }

    /// Whether the parts that are not read back whatever they hold are
    /// read back as they are: every interval inside, and every map
    /// inside, which has to hold each key once.
    pub open spec fn reads_back(self) -> bool
        decreases self,
    {
        self.data_source.reads_back()
            && IntervalView::all_read_back(self.intervals)
            && (self.filter matches Some(v) ==> v.reads_back())
            && AggregationView::all_read_back(self.aggregations)
            && distinct_keys(self.context)
    }

    /// Whether no timestamp inside holds anything finer than
    /// milliseconds.
    pub open spec fn millisecond_precise(self) -> bool
        decreases self,
    {
        self.data_source.millisecond_precise()
            && IntervalView::all_precise(self.intervals)
    }

    /// What a document is read as.
    pub open spec fn parse(j: JsonValue) -> Result<TimeseriesView, Failure>
        decreases j,
    {
        match as_members(j) {
            Ok(m) => match text_field(m, "queryType"@) {
                Ok(t) => if t == "timeseries"@ {
                    Self::parse_members(m)
                } else {
                    Err(Failure::here(DecodeCause::UnknownVariant).within_key("queryType"@))
                },
                Err(e) => Err(e),
            },
            Err(e) => Err(e),
        }
    }

    /// The members of the object, read.
    pub open spec fn parse_members(m: Seq<MemberValue>) -> Result<TimeseriesView, Failure>
        decreases m,
    {
        let data_source = match required(m, "dataSource"@) {
            Ok(v) => {
                proof { lemma_lookup_smaller(m, "dataSource"@); }
                under("dataSource"@, DataSourceView::parse(v))
            },
            Err(e) => Err(e),
        };
        let granularity = match required(m, "granularity"@) {
            Ok(v) => under("granularity"@, GranularityView::parse(v)),
            Err(e) => Err(e),
        };
        let descending = flag_field(m, "descending"@);
        let intervals = match items_field(m, "intervals"@) {
            Ok(items) => under("intervals"@, IntervalView::parse_list(items)),
            Err(e) => Err(e),
        };
        let filter = match present(m, "filter"@) {
            Some(v) => match FilterView::parse(v) {
                Ok(x) => Ok(Some(x)),
                Err(e) => Err(e.within_key("filter"@)),
            },
            None => Ok(None),
        };
        let aggregations = match items_field(m, "aggregations"@) {
            Ok(items) => under("aggregations"@, AggregationView::parse_list(items)),
            Err(e) => Err(e),
        };
        let post_aggregations = match items_field(m, "postAggregations"@) {
            Ok(items) => under("postAggregations"@, PostAggregationView::parse_list(items)),
            Err(e) => Err(e),
        };
        let virtual_columns = match items_field(m, "virtualColumns"@) {
            Ok(items) => under("virtualColumns"@, VirtualColumnView::parse_list(items)),
            Err(e) => Err(e),
        };
        let limit = opt_count_field(m, "limit"@);
        let context = match required(m, "context"@) {
            Ok(v) => under("context"@, map_parse(v)),
            Err(e) => Err(e),
        };
        if data_source is Err {
            Err(data_source->Err_0)
        } else if granularity is Err {
            Err(granularity->Err_0)
        } else if descending is Err {
            Err(descending->Err_0)
        } else if intervals is Err {
            Err(intervals->Err_0)
        } else if filter is Err {
            Err(filter->Err_0)
        } else if aggregations is Err {
            Err(aggregations->Err_0)
        } else if post_aggregations is Err {
            Err(post_aggregations->Err_0)
        } else if virtual_columns is Err {
            Err(virtual_columns->Err_0)
        } else if limit is Err {
            Err(limit->Err_0)
        } else if context is Err {
            Err(context->Err_0)
        } else {
            Ok(
                TimeseriesView {
                    data_source: data_source->Ok_0,
                    granularity: granularity->Ok_0,
                    descending: descending->Ok_0,
                    intervals: intervals->Ok_0,
                    filter: filter->Ok_0,
                    aggregations: aggregations->Ok_0,
                    post_aggregations: post_aggregations->Ok_0,
                    virtual_columns: virtual_columns->Ok_0,
                    limit: limit->Ok_0,
                    context: context->Ok_0,
                },
            )
        }
    }

    /// What is written is never `null`.
    pub proof fn lemma_wire_not_null(self)
        ensures
            !(self.wire() is Null),
    {
    }

    /// Reading back what was written gives the value again, if the
    /// intervals and the maps inside are read back as they are.
    pub proof fn lemma_round_trip(self)
        requires
            self.reads_back(),
        ensures
            Self::parse(self.wire()) == Ok::<TimeseriesView, Failure>(self),
            self.wire() is Object,
            Self::parse_members(self.wire()->Object_0) == Ok::<TimeseriesView, Failure>(self),
            text_field(self.wire()->Object_0, "queryType"@)
                == Ok::<Seq<char>, Failure>("timeseries"@),
        decreases self,
    {
        self.data_source.lemma_round_trip();
        self.granularity.lemma_round_trip();
        IntervalView::lemma_list_round_trip(self.intervals);
        if self.filter is Some {
            self.filter->Some_0.lemma_round_trip();
            self.filter->Some_0.lemma_wire_not_null();
        }
        AggregationView::lemma_list_round_trip(self.aggregations);
        PostAggregationView::lemma_list_round_trip(self.post_aggregations);
        VirtualColumnView::lemma_list_round_trip(self.virtual_columns);
        lemma_map_round_trip(self.context);
        Self::lemma_members(
            self.wire(),
            self.data_source,
            self.data_source.wire(),
            self.granularity,
            self.granularity.wire(),
            self.descending,
            self.intervals,
            IntervalView::wire_list(self.intervals),
            self.filter,
            match self.filter { Some(v) => v.wire(), None => JsonValue::Null },
            self.aggregations,
            AggregationView::wire_list(self.aggregations),
            self.post_aggregations,
            PostAggregationView::wire_list(self.post_aggregations),
            self.virtual_columns,
            VirtualColumnView::wire_list(self.virtual_columns),
            self.limit,
            self.context,
            map_wire(self.context),
        );
    }

    /// The members that are written are read back as the value, given
    /// that its parts are read back from their wire forms.
    proof fn lemma_members(
        j: JsonValue,
        data_source: DataSourceView,
        data_source_wire: JsonValue,
        granularity: GranularityView,
        granularity_wire: JsonValue,
        descending: bool,
        intervals: Seq<IntervalView>,
        intervals_items: Seq<JsonValue>,
        filter: Option<FilterView>,
        filter_wire: JsonValue,
        aggregations: Seq<AggregationView>,
        aggregations_items: Seq<JsonValue>,
        post_aggregations: Seq<PostAggregationView>,
        post_aggregations_items: Seq<JsonValue>,
        virtual_columns: Seq<VirtualColumnView>,
        virtual_columns_items: Seq<JsonValue>,
        limit: Option<usize>,
        context: Seq<(Seq<char>, Seq<char>)>,
        context_wire: JsonValue,
    )
        requires
            j == JsonValue::Object(
                Seq::empty()
                    .push(member("queryType"@, text("timeseries"@)))
                    .push(member("dataSource"@, data_source_wire))
                    .push(member("granularity"@, granularity_wire))
                    .push(member("descending"@, flag(descending)))
                    .push(member("intervals"@, JsonValue::Array(intervals_items)))
                    .push(
                        member(
                            "filter"@,
                            match filter { Some(_) => filter_wire, None => JsonValue::Null },
                        ),
                    )
                    .push(member("aggregations"@, JsonValue::Array(aggregations_items)))
                    .push(member("postAggregations"@, JsonValue::Array(post_aggregations_items)))
                    .push(member("virtualColumns"@, JsonValue::Array(virtual_columns_items)))
                    .push(member("limit"@, opt_count(limit)))
                    .push(member("context"@, context_wire)),
            ),
            DataSourceView::parse(data_source_wire) == Ok::<DataSourceView, Failure>(data_source),
            GranularityView::parse(granularity_wire) == Ok::<GranularityView, Failure>(granularity),
            IntervalView::parse_list(intervals_items)
                == Ok::<Seq<IntervalView>, Failure>(intervals),
            filter matches Some(v) ==>
                FilterView::parse(filter_wire) == Ok::<FilterView, Failure>(v),
            filter is Some ==> !(filter_wire is Null),
            AggregationView::parse_list(aggregations_items)
                == Ok::<Seq<AggregationView>, Failure>(aggregations),
            PostAggregationView::parse_list(post_aggregations_items)
                == Ok::<Seq<PostAggregationView>, Failure>(post_aggregations),
            VirtualColumnView::parse_list(virtual_columns_items)
                == Ok::<Seq<VirtualColumnView>, Failure>(virtual_columns),
            map_parse(context_wire) == Ok::<Seq<(Seq<char>, Seq<char>)>, Failure>(context),
        ensures
            j is Object,
            Self::parse_members(j->Object_0) == Ok::<TimeseriesView, Failure>(
                TimeseriesView {
                    data_source,
                    granularity,
                    descending,
                    intervals,
                    filter,
                    aggregations,
                    post_aggregations,
                    virtual_columns,
                    limit,
                    context,
                },
            ),
            text_field(j->Object_0, "queryType"@) == Ok::<Seq<char>, Failure>("timeseries"@),
            Self::parse(j) == Ok::<TimeseriesView, Failure>(
                TimeseriesView {
                    data_source,
                    granularity,
                    descending,
                    intervals,
                    filter,
                    aggregations,
                    post_aggregations,
                    virtual_columns,
                    limit,
                    context,
                },
            ),
    {
        broadcast use {lemma_lookup_push, lemma_lookup_empty};

        lemma_keys();
    }

}

impl Timeseries {
    /// Writes the value in its wire form. A value whose timestamps hold
    /// nothing finer than milliseconds is read back as it is.
    pub fn encode(&self) -> (j: Json)
        ensures
            j@ == self@.wire(),
            self@.millisecond_precise() ==> self@.reads_back(),
            self@.millisecond_precise() ==>
                TimeseriesView::parse(j@) == Ok::<TimeseriesView, Failure>(self@),
        decreases self,
    {
        let mut m = no_members();
        put(&mut m, "queryType", text_json("timeseries"));
        put(&mut m, "dataSource", self.data_source.encode());
        put(&mut m, "granularity", self.granularity.encode());
        put(&mut m, "descending", flag_json(self.descending));
        put(&mut m, "intervals", array_json(Interval::encode_list(&self.intervals)));
        put(&mut m, "filter", match &self.filter { Some(v) => v.encode(), None => Json::Null });
        put(&mut m, "aggregations", array_json(Aggregation::encode_list(&self.aggregations)));
        put(
            &mut m,
            "postAggregations",
            array_json(PostAggregation::encode_list(&self.post_aggregations)),
        );
        put(
            &mut m,
            "virtualColumns",
            array_json(VirtualColumn::encode_list(&self.virtual_columns)),
        );
        put(&mut m, "limit", opt_count_json(self.limit));
        put(&mut m, "context", self.context.encode());
        proof {
            if self@.millisecond_precise() {
                self@.lemma_round_trip();
            }
        }
        object_json(m)
    }

    /// Reads a value from its wire form.
    pub fn decode(j: &Json) -> (r: Result<Timeseries, DecodeError>)
        ensures
            decoded(r) == TimeseriesView::parse(j@),
        decreases j,
    {
        let m = read_members(j)?;
        let t = text_member(m, "queryType")?;
        if !str_eq(t.as_str(), "timeseries") {
            return Err(DecodeError::here(DecodeCause::UnknownVariant).within_key("queryType"));
        }
        Self::decode_members(m)
    }

    /// Reads the members of the object.
    pub fn decode_members(m: &Vec<Member>) -> (r: Result<Timeseries, DecodeError>)
        ensures
            decoded(r) == TimeseriesView::parse_members(members_view(m@)),
        decreases m,
    {
        let data_source = under_key(
            DataSource::decode(required_field(m, "dataSource")?),
            "dataSource",
        )?;
        let granularity = under_key(
            Granularity::decode(required_field(m, "granularity")?),
            "granularity",
        )?;
        let descending = flag_member(m, "descending")?;
        let intervals = under_key(
            Interval::decode_list(items_member(m, "intervals")?),
            "intervals",
        )?;
        let filter = match present_field(m, "filter") {
            Some(v) => Some(under_key(Filter::decode(v), "filter")?),
            None => None,
        };
        let aggregations = under_key(
            Aggregation::decode_list(items_member(m, "aggregations")?),
            "aggregations",
        )?;
        let post_aggregations = under_key(
            PostAggregation::decode_list(items_member(m, "postAggregations")?),
            "postAggregations",
        )?;
        let virtual_columns = under_key(
            VirtualColumn::decode_list(items_member(m, "virtualColumns")?),
            "virtualColumns",
        )?;
        let limit = opt_count_member(m, "limit")?;
        let context = under_key(StringMap::decode(required_field(m, "context")?), "context")?;
        Ok(
            Timeseries {
                data_source,
                granularity,
                descending,
                intervals,
                filter,
                aggregations,
                post_aggregations,
                virtual_columns,
                limit,
                context,
            },
        )
    }
}

/// The names of the members differ from one another.
proof fn lemma_keys()
    ensures
        "aggregations"@.len() == 12,
        "context"@.len() == 7,
        "dataSource"@.len() == 10,
        "descending"@.len() == 10,
        "filter"@.len() == 6,
        "granularity"@.len() == 11,
        "intervals"@.len() == 9,
        "limit"@.len() == 5,
        "postAggregations"@.len() == 16,
        "queryType"@.len() == 9,
        "virtualColumns"@.len() == 14,
        "intervals"@[0] == 'i',
        "queryType"@[0] == 'q',
        "dataSource"@[1] == 'a',
        "descending"@[1] == 'e',
{
    reveal_strlit("aggregations");
    reveal_strlit("context");
    reveal_strlit("dataSource");
    reveal_strlit("descending");
    reveal_strlit("filter");
    reveal_strlit("granularity");
    reveal_strlit("intervals");
    reveal_strlit("limit");
    reveal_strlit("postAggregations");
    reveal_strlit("queryType");
    reveal_strlit("virtualColumns");
}

} // verus!
