//! The top-N query.

use vstd::prelude::*;
use crate::codec::{
    array_json, as_members, count, count_field, count_json, count_member, items_field,
    items_member, lemma_lookup_smaller, list_view, member, no_members, object_json, put,
    read_members, required, required_field, text, text_field, text_json, text_member, under,
    under_key,
};
use crate::error::{decoded, DecodeCause, DecodeError, Failure};
use crate::json::{
    lemma_lookup_empty, lemma_lookup_push, members_view, str_eq, Json, JsonValue, Member,
    MemberValue,
};
use crate::query::definitions::aggregators::{Aggregation, AggregationView};
use crate::query::definitions::dimensions::{Dimension, DimensionView};
use crate::query::definitions::granularitys::{Granularity, GranularityView};
use crate::query::definitions::intervals::{Interval, IntervalView};
use crate::query::definitions::virtual_columns::{VirtualColumn, VirtualColumnView};
use crate::query::{DataSource, DataSourceView};
use crate::string_map::{distinct_keys, lemma_map_round_trip, map_parse, map_wire, StringMap};

verus! {

/// A query for the rows that rank highest by a metric, for each time bucket.
#[derive(Debug, PartialEq)]
pub struct TopN {
    pub data_source: DataSource,
    pub dimension: Dimension,
    pub threshold: usize,
    pub metric: String,
    pub aggregations: Vec<Aggregation>,
    pub virtual_columns: Vec<VirtualColumn>,
    pub intervals: Vec<Interval>,
    pub granularity: Granularity,
    pub context: StringMap,
}

/// Mathematical value of a [`TopN`].
pub struct TopNView {
    pub data_source: DataSourceView,
    pub dimension: DimensionView,
    pub threshold: usize,
    pub metric: Seq<char>,
    pub aggregations: Seq<AggregationView>,
    pub virtual_columns: Seq<VirtualColumnView>,
    pub intervals: Seq<IntervalView>,
    pub granularity: GranularityView,
    pub context: Seq<(Seq<char>, Seq<char>)>,
}

impl TopN {
    /// The mathematical value.
    pub open spec fn value(self) -> TopNView
        decreases self,
    {
        TopNView {
            data_source: self.data_source.value(),
            dimension: self.dimension@,
            threshold: self.threshold,
            metric: self.metric@,
            aggregations: list_view(self.aggregations@),
            virtual_columns: list_view(self.virtual_columns@),
            intervals: list_view(self.intervals@),
            granularity: self.granularity@,
            context: self.context@,
        }
    }

    /// The mathematical values of the elements of a list.
    pub open spec fn values(list: Seq<TopN>) -> Seq<TopNView>
        decreases list,
    {
        Seq::new(
            list.len(),
            |i: int| if 0 <= i < list.len() { list[i].value() } else { arbitrary() },
        )
    }

    /// [`Self::values`] is the view of the list.
    pub proof fn lemma_values(list: Seq<TopN>)
        ensures
            Self::values(list) == list_view(list),
    {
        assert(Self::values(list) =~= list_view(list));
    }
}

impl View for TopN {
    type V = TopNView;

    open spec fn view(&self) -> TopNView {
        self.value()
    }
}

impl TopNView {
    /// The wire form.
    pub open spec fn wire(self) -> JsonValue
        decreases self,
    {
        JsonValue::Object(
            Seq::empty()
                .push(member("queryType"@, text("topN"@)))
                .push(member("dataSource"@, self.data_source.wire()))
                .push(member("dimension"@, self.dimension.wire()))
                .push(member("threshold"@, count(self.threshold)))
                .push(member("metric"@, text(self.metric)))
                .push(
                    member(
                        "aggregations"@,
                        JsonValue::Array(AggregationView::wire_list(self.aggregations)),
                    ),
                )
                .push(
                    member(
                        "virtualColumns"@,
                        JsonValue::Array(VirtualColumnView::wire_list(self.virtual_columns)),
                    ),
                )
                .push(
                    member("intervals"@, JsonValue::Array(IntervalView::wire_list(self.intervals))),
                )
                .push(member("granularity"@, self.granularity.wire()))
                .push(member("context"@, map_wire(self.context))),
        )
    }

    /// Whether the parts that are not read back whatever they hold are
    /// read back as they are: every interval inside, and every map
    /// inside, which has to hold each key once.
    pub open spec fn reads_back(self) -> bool
        decreases self,
    {
        self.data_source.reads_back()
            && self.dimension.reads_back()
            && AggregationView::all_read_back(self.aggregations)
            && IntervalView::all_read_back(self.intervals)
            && distinct_keys(self.context)
    }

    /// Whether no timestamp inside holds anything finer than
    /// milliseconds.
    pub open spec fn millisecond_precise(self) -> bool
        decreases self,
    {
        self.data_source.millisecond_precise()
            && IntervalView::all_precise(self.intervals)
    }

    /// What a document is read as.
    pub open spec fn parse(j: JsonValue) -> Result<TopNView, Failure>
        decreases j,
    {
        match as_members(j) {
            Ok(m) => match text_field(m, "queryType"@) {
                Ok(t) => if t == "topN"@ {
                    Self::parse_members(m)
                } else {
                    Err(Failure::here(DecodeCause::UnknownVariant).within_key("queryType"@))
                },
                Err(e) => Err(e),
            },
            Err(e) => Err(e),
        }
    }

    /// The members of the object, read.
    pub open spec fn parse_members(m: Seq<MemberValue>) -> Result<TopNView, Failure>
        decreases m,
    {
        let data_source = match required(m, "dataSource"@) {
            Ok(v) => {
                proof { lemma_lookup_smaller(m, "dataSource"@); }
                under("dataSource"@, DataSourceView::parse(v))
            },
            Err(e) => Err(e),
        };
        let dimension = match required(m, "dimension"@) {
            Ok(v) => under("dimension"@, DimensionView::parse(v)),
            Err(e) => Err(e),
        };
        let threshold = count_field(m, "threshold"@);
        let metric = text_field(m, "metric"@);
        let aggregations = match items_field(m, "aggregations"@) {
            Ok(items) => under("aggregations"@, AggregationView::parse_list(items)),
            Err(e) => Err(e),
        };
        let virtual_columns = match items_field(m, "virtualColumns"@) {
            Ok(items) => under("virtualColumns"@, VirtualColumnView::parse_list(items)),
            Err(e) => Err(e),
        };
        let intervals = match items_field(m, "intervals"@) {
            Ok(items) => under("intervals"@, IntervalView::parse_list(items)),
            Err(e) => Err(e),
        };
        let granularity = match required(m, "granularity"@) {
            Ok(v) => under("granularity"@, GranularityView::parse(v)),
            Err(e) => Err(e),
        };
        let context = match required(m, "context"@) {
            Ok(v) => under("context"@, map_parse(v)),
            Err(e) => Err(e),
        };
        if data_source is Err {
            Err(data_source->Err_0)
        } else if dimension is Err {
            Err(dimension->Err_0)
        } else if threshold is Err {
            Err(threshold->Err_0)
        } else if metric is Err {
            Err(metric->Err_0)
        } else if aggregations is Err {
            Err(aggregations->Err_0)
        } else if virtual_columns is Err {
            Err(virtual_columns->Err_0)
        } else if intervals is Err {
            Err(intervals->Err_0)
        } else if granularity is Err {
            Err(granularity->Err_0)
        } else if context is Err {
            Err(context->Err_0)
        } else {
            Ok(
                TopNView {
                    data_source: data_source->Ok_0,
                    dimension: dimension->Ok_0,
                    threshold: threshold->Ok_0,
                    metric: metric->Ok_0,
                    aggregations: aggregations->Ok_0,
                    virtual_columns: virtual_columns->Ok_0,
                    intervals: intervals->Ok_0,
                    granularity: granularity->Ok_0,
                    context: context->Ok_0,
                },
            )
        }
    }

    /// What is written is never `null`.
    pub proof fn lemma_wire_not_null(self)
        ensures
            !(self.wire() is Null),
    {
    }

    /// Reading back what was written gives the value again, if the
    /// intervals and the maps inside are read back as they are.
    pub proof fn lemma_round_trip(self)
        requires
            self.reads_back(),
        ensures
            Self::parse(self.wire()) == Ok::<TopNView, Failure>(self),
            self.wire() is Object,
            Self::parse_members(self.wire()->Object_0) == Ok::<TopNView, Failure>(self),
            text_field(self.wire()->Object_0, "queryType"@) == Ok::<Seq<char>, Failure>("topN"@),
        decreases self,
    {
        self.data_source.lemma_round_trip();
        self.dimension.lemma_round_trip();
        AggregationView::lemma_list_round_trip(self.aggregations);
        VirtualColumnView::lemma_list_round_trip(self.virtual_columns);
        IntervalView::lemma_list_round_trip(self.intervals);
        self.granularity.lemma_round_trip();
        lemma_map_round_trip(self.context);
        Self::lemma_members(
            self.wire(),
            self.data_source,
            self.data_source.wire(),
            self.dimension,
            self.dimension.wire(),
            self.threshold,
            self.metric,
            self.aggregations,
            AggregationView::wire_list(self.aggregations),
            self.virtual_columns,
            VirtualColumnView::wire_list(self.virtual_columns),
            self.intervals,
            IntervalView::wire_list(self.intervals),
            self.granularity,
            self.granularity.wire(),
            self.context,
            map_wire(self.context),
        );
    }

    /// The members that are written are read back as the value, given
    /// that its parts are read back from their wire forms.
    proof fn lemma_members(
        j: JsonValue,
        data_source: DataSourceView,
        data_source_wire: JsonValue,
        dimension: DimensionView,
        dimension_wire: JsonValue,
        threshold: usize,
        metric: Seq<char>,
        aggregations: Seq<AggregationView>,
        aggregations_items: Seq<JsonValue>,
        virtual_columns: Seq<VirtualColumnView>,
        virtual_columns_items: Seq<JsonValue>,
        intervals: Seq<IntervalView>,
        intervals_items: Seq<JsonValue>,
        granularity: GranularityView,
        granularity_wire: JsonValue,
        context: Seq<(Seq<char>, Seq<char>)>,
        context_wire: JsonValue,
    )
        requires
            j == JsonValue::Object(
                Seq::empty()
                    .push(member("queryType"@, text("topN"@)))
                    .push(member("dataSource"@, data_source_wire))
                    .push(member("dimension"@, dimension_wire))
                    .push(member("threshold"@, count(threshold)))
                    .push(member("metric"@, text(metric)))
                    .push(member("aggregations"@, JsonValue::Array(aggregations_items)))
                    .push(member("virtualColumns"@, JsonValue::Array(virtual_columns_items)))
                    .push(member("intervals"@, JsonValue::Array(intervals_items)))
                    .push(member("granularity"@, granularity_wire))
                    .push(member("context"@, context_wire)),
            ),
            DataSourceView::parse(data_source_wire) == Ok::<DataSourceView, Failure>(data_source),
            DimensionView::parse(dimension_wire) == Ok::<DimensionView, Failure>(dimension),
            AggregationView::parse_list(aggregations_items)
                == Ok::<Seq<AggregationView>, Failure>(aggregations),
            VirtualColumnView::parse_list(virtual_columns_items)
                == Ok::<Seq<VirtualColumnView>, Failure>(virtual_columns),
            IntervalView::parse_list(intervals_items)
                == Ok::<Seq<IntervalView>, Failure>(intervals),
            GranularityView::parse(granularity_wire) == Ok::<GranularityView, Failure>(granularity),
            map_parse(context_wire) == Ok::<Seq<(Seq<char>, Seq<char>)>, Failure>(context),
        ensures
            j is Object,
            Self::parse_members(j->Object_0) == Ok::<TopNView, Failure>(
                TopNView {
                    data_source,
                    dimension,
                    threshold,
                    metric,
                    aggregations,
                    virtual_columns,
                    intervals,
                    granularity,
                    context,
                },
            ),
            text_field(j->Object_0, "queryType"@) == Ok::<Seq<char>, Failure>("topN"@),
            Self::parse(j) == Ok::<TopNView, Failure>(
                TopNView {
                    data_source,
                    dimension,
                    threshold,
                    metric,
                    aggregations,
                    virtual_columns,
                    intervals,
                    granularity,
                    context,
                },
            ),
    {
        broadcast use {lemma_lookup_push, lemma_lookup_empty};

        lemma_keys();
    }

}

impl TopN {
    /// Writes the value in its wire form. A value whose timestamps hold
    /// nothing finer than milliseconds is read back as it is.
    pub fn encode(&self) -> (j: Json)
        ensures
            j@ == self@.wire(),
            self@.millisecond_precise() ==> self@.reads_back(),
            self@.millisecond_precise() ==> TopNView::parse(j@) == Ok::<TopNView, Failure>(self@),
        decreases self,
    {
        let mut m = no_members();
        put(&mut m, "queryType", text_json("topN"));
        put(&mut m, "dataSource", self.data_source.encode());
        put(&mut m, "dimension", self.dimension.encode());
        put(&mut m, "threshold", count_json(self.threshold));
        put(&mut m, "metric", text_json(self.metric.as_str()));
        put(&mut m, "aggregations", array_json(Aggregation::encode_list(&self.aggregations)));
        put(
            &mut m,
            "virtualColumns",
            array_json(VirtualColumn::encode_list(&self.virtual_columns)),
        );
        put(&mut m, "intervals", array_json(Interval::encode_list(&self.intervals)));
        put(&mut m, "granularity", self.granularity.encode());
        put(&mut m, "context", self.context.encode());
        proof {
            if self@.millisecond_precise() {
                self@.lemma_round_trip();
            }
        }
        object_json(m)
    }

    /// Reads a value from its wire form.
    pub fn decode(j: &Json) -> (r: Result<TopN, DecodeError>)
        ensures
            decoded(r) == TopNView::parse(j@),
        decreases j,
    {
        let m = read_members(j)?;
        let t = text_member(m, "queryType")?;
        if !str_eq(t.as_str(), "topN") {
            return Err(DecodeError::here(DecodeCause::UnknownVariant).within_key("queryType"));
        }
        Self::decode_members(m)
    }

    /// Reads the members of the object.
    pub fn decode_members(m: &Vec<Member>) -> (r: Result<TopN, DecodeError>)
        ensures
            decoded(r) == TopNView::parse_members(members_view(m@)),
        decreases m,
    {
        let data_source = under_key(
            DataSource::decode(required_field(m, "dataSource")?),
            "dataSource",
        )?;
        let dimension = under_key(Dimension::decode(required_field(m, "dimension")?), "dimension")?;
        let threshold = count_member(m, "threshold")?;
        let metric = text_member(m, "metric")?;
        let aggregations = under_key(
            Aggregation::decode_list(items_member(m, "aggregations")?),
            "aggregations",
        )?;
        let virtual_columns = under_key(
            VirtualColumn::decode_list(items_member(m, "virtualColumns")?),
            "virtualColumns",
        )?;
        let intervals = under_key(
            Interval::decode_list(items_member(m, "intervals")?),
            "intervals",
        )?;
        let granularity = under_key(
            Granularity::decode(required_field(m, "granularity")?),
            "granularity",
        )?;
        let context = under_key(StringMap::decode(required_field(m, "context")?), "context")?;
        Ok(
            TopN {
                data_source,
                dimension,
                threshold,
                metric,
                aggregations,
                virtual_columns,
                intervals,
                granularity,
                context,
            },
        )
    }
}

/// The names of the members differ from one another.
proof fn lemma_keys()
    ensures
        "aggregations"@.len() == 12,
        "context"@.len() == 7,
        "dataSource"@.len() == 10,
        "dimension"@.len() == 9,
        "granularity"@.len() == 11,
        "intervals"@.len() == 9,
        "metric"@.len() == 6,
        "queryType"@.len() == 9,
        "threshold"@.len() == 9,
        "virtualColumns"@.len() == 14,
        "dimension"@[0] == 'd',
        "intervals"@[0] == 'i',
        "queryType"@[0] == 'q',
        "threshold"@[0] == 't',
{
    reveal_strlit("aggregations");
    reveal_strlit("context");
    reveal_strlit("dataSource");
    reveal_strlit("dimension");
    reveal_strlit("granularity");
    reveal_strlit("intervals");
    reveal_strlit("metric");
    reveal_strlit("queryType");
    reveal_strlit("threshold");
    reveal_strlit("virtualColumns");
}

} // verus!
