//! Aggregations: the values that are computed over the rows of a group.

use vstd::prelude::*;
use crate::codec::{
    as_members, count, count_field, count_json, count_member, decoded_list, field_with, flag,
    flag_field, flag_json, flag_member, lemma_lookup_smaller, lemma_read_all_accepted,
    lemma_read_all_empty, lemma_read_all_refused, lemma_read_all_step, lemma_texts_round_trip,
    list_view, member, no_members, object_json, put, read_all, read_members, required,
    required_field, strings_view, text, text_field, text_json, text_member, texts, texts_field,
    texts_json, texts_member, under, under_key,
};
use crate::error::{decoded, DecodeCause, DecodeError, Failure};
use crate::json::{
    items_view, lemma_lookup_empty, lemma_lookup_push, members_view, str_eq, Json, JsonValue,
    Member, MemberValue,
};
use crate::query::definitions::filters::{Filter, FilterView};
use crate::query::definitions::hll_sketch::HllType;

verus! {

/// A value that is computed over the rows of a group.
#[derive(Debug, PartialEq)]
pub enum Aggregation {
    /// The number of rows.
    Count {
        name: String,
    },
    /// The sum of a field, as a long.
    LongSum {
        name: String,
        field_name: String,
    },
    /// The sum of a field, as a double.
    DoubleSum {
        name: String,
        field_name: String,
    },
    /// The sum of a field, as a float.
    FloatSum {
        name: String,
        field_name: String,
    },
    /// The greatest value of a field, as a long.
    LongMax {
        name: String,
        field_name: String,
    },
    /// The greatest value of a field, as a double.
    DoubleMax {
        name: String,
        field_name: String,
    },
    /// The greatest value of a field, as a float.
    FloatMax {
        name: String,
        field_name: String,
    },
    /// The least value of a field, as a long.
    LongMin {
        name: String,
        field_name: String,
    },
    /// The least value of a field, as a float.
    FloatMin {
        name: String,
        field_name: String,
    },
    /// The least value of a field, as a double.
    DoubleMin {
        name: String,
        field_name: String,
    },
    /// The value of a field in the earliest row, as a long.
    LongFirst {
        name: String,
        field_name: String,
    },
    /// The value of a field in the earliest row, as a float.
    FloatFirst {
        name: String,
        field_name: String,
    },
    /// The value of a field in the earliest row, as a double.
    DoubleFirst {
        name: String,
        field_name: String,
    },
    /// The value of a field in the latest row, as a long.
    LongLast {
        name: String,
        field_name: String,
    },
    /// The value of a field in the latest row, as a float.
    FloatLast {
        name: String,
        field_name: String,
    },
    /// The value of a field in the latest row, as a double.
    DoubleLast {
        name: String,
        field_name: String,
    },
    /// The value of a field in the earliest row, as a string of bounded length.
    StringFirst {
        name: String,
        field_name: String,
        max_string_bytes: usize,
    },
    /// The value of a field in the latest row, as a string of bounded length.
    StringLast {
        name: String,
        field_name: String,
        max_string_bytes: usize,
    },
    /// Any value of a field, as a double.
    DoubleAny {
        name: String,
        field_name: String,
    },
    /// Any value of a field, as a float.
    FloatAny {
        name: String,
        field_name: String,
    },
    /// Any value of a field, as a long.
    LongAny {
        name: String,
        field_name: String,
    },
    /// Any value of a field, as a string.
    StringAny {
        name: String,
        field_name: String,
    },
    /// An aggregation written in JavaScript.
    Javascript {
        name: String,
        field_names: Vec<String>,
        fn_aggregate: String,
        fn_combine: String,
        fn_reset: String,
    },
    /// A theta sketch of a field.
    ThetaSketch {
        name: String,
        field_name: String,
        is_input_theta_sketch: bool,
        size: usize,
    },
    /// An HLL sketch of a field.
    HLLSketchBuild {
        name: String,
        field_name: String,
        lg_k: usize,
        lgt_hll_type: HllType,
        round: bool,
    },
    /// The number of distinct values of some fields.
    Cardinality {
        name: String,
        fields: Vec<String>,
        by_row: bool,
        round: bool,
    },
    /// The number of distinct values of a field that was indexed for it.
    HyperUnique {
        name: String,
        field_name: String,
        is_input_hyper_unique: bool,
        round: bool,
    },
    /// An aggregation over the rows of the group that pass a filter.
    Filtered {
        filter: Filter,
        aggregator: Box<Aggregation>,
    },
}

/// Mathematical value of an [`Aggregation`].
pub enum AggregationView {
    Count {
        name: Seq<char>,
    },
    LongSum {
        name: Seq<char>,
        field_name: Seq<char>,
    },
    DoubleSum {
        name: Seq<char>,
        field_name: Seq<char>,
    },
    FloatSum {
        name: Seq<char>,
        field_name: Seq<char>,
    },
    LongMax {
        name: Seq<char>,
        field_name: Seq<char>,
    },
    DoubleMax {
        name: Seq<char>,
        field_name: Seq<char>,
    },
    FloatMax {
        name: Seq<char>,
        field_name: Seq<char>,
    },
    LongMin {
        name: Seq<char>,
        field_name: Seq<char>,
    },
    FloatMin {
        name: Seq<char>,
        field_name: Seq<char>,
    },
    DoubleMin {
        name: Seq<char>,
        field_name: Seq<char>,
    },
    LongFirst {
        name: Seq<char>,
        field_name: Seq<char>,
    },
    FloatFirst {
        name: Seq<char>,
        field_name: Seq<char>,
    },
    DoubleFirst {
        name: Seq<char>,
        field_name: Seq<char>,
    },
    LongLast {
        name: Seq<char>,
        field_name: Seq<char>,
    },
    FloatLast {
        name: Seq<char>,
        field_name: Seq<char>,
    },
    DoubleLast {
        name: Seq<char>,
        field_name: Seq<char>,
    },
    StringFirst {
        name: Seq<char>,
        field_name: Seq<char>,
        max_string_bytes: usize,
    },
    StringLast {
        name: Seq<char>,
        field_name: Seq<char>,
        max_string_bytes: usize,
    },
    DoubleAny {
        name: Seq<char>,
        field_name: Seq<char>,
    },
    FloatAny {
        name: Seq<char>,
        field_name: Seq<char>,
    },
    LongAny {
        name: Seq<char>,
        field_name: Seq<char>,
    },
    StringAny {
        name: Seq<char>,
        field_name: Seq<char>,
    },
    Javascript {
        name: Seq<char>,
        field_names: Seq<Seq<char>>,
        fn_aggregate: Seq<char>,
        fn_combine: Seq<char>,
        fn_reset: Seq<char>,
    },
    ThetaSketch {
        name: Seq<char>,
        field_name: Seq<char>,
        is_input_theta_sketch: bool,
        size: usize,
    },
    HLLSketchBuild {
        name: Seq<char>,
        field_name: Seq<char>,
        lg_k: usize,
        lgt_hll_type: HllType,
        round: bool,
    },
    Cardinality {
        name: Seq<char>,
        fields: Seq<Seq<char>>,
        by_row: bool,
        round: bool,
    },
    HyperUnique {
        name: Seq<char>,
        field_name: Seq<char>,
        is_input_hyper_unique: bool,
        round: bool,
    },
    Filtered {
        filter: FilterView,
        aggregator: Box<AggregationView>,
    },
}

impl Aggregation {
    /// The mathematical value.
    pub open spec fn value(self) -> AggregationView
        decreases self,
    {
        match self {
            Aggregation::Count { name } => AggregationView::Count {
                name: name@,
            },
            Aggregation::LongSum { name, field_name } => AggregationView::LongSum {
                name: name@,
                field_name: field_name@,
            },
            Aggregation::DoubleSum { name, field_name } => AggregationView::DoubleSum {
                name: name@,
                field_name: field_name@,
            },
            Aggregation::FloatSum { name, field_name } => AggregationView::FloatSum {
                name: name@,
                field_name: field_name@,
            },
            Aggregation::LongMax { name, field_name } => AggregationView::LongMax {
                name: name@,
                field_name: field_name@,
            },
            Aggregation::DoubleMax { name, field_name } => AggregationView::DoubleMax {
                name: name@,
                field_name: field_name@,
            },
            Aggregation::FloatMax { name, field_name } => AggregationView::FloatMax {
                name: name@,
                field_name: field_name@,
            },
            Aggregation::LongMin { name, field_name } => AggregationView::LongMin {
                name: name@,
                field_name: field_name@,
            },
            Aggregation::FloatMin { name, field_name } => AggregationView::FloatMin {
                name: name@,
                field_name: field_name@,
            },
            Aggregation::DoubleMin { name, field_name } => AggregationView::DoubleMin {
                name: name@,
                field_name: field_name@,
            },
            Aggregation::LongFirst { name, field_name } => AggregationView::LongFirst {
                name: name@,
                field_name: field_name@,
            },
            Aggregation::FloatFirst { name, field_name } => AggregationView::FloatFirst {
                name: name@,
                field_name: field_name@,
            },
            Aggregation::DoubleFirst { name, field_name } => AggregationView::DoubleFirst {
                name: name@,
                field_name: field_name@,
            },
            Aggregation::LongLast { name, field_name } => AggregationView::LongLast {
                name: name@,
                field_name: field_name@,
            },
            Aggregation::FloatLast { name, field_name } => AggregationView::FloatLast {
                name: name@,
                field_name: field_name@,
            },
            Aggregation::DoubleLast { name, field_name } => AggregationView::DoubleLast {
                name: name@,
                field_name: field_name@,
            },
            Aggregation::StringFirst { name, field_name, max_string_bytes } => AggregationView::StringFirst {
                name: name@,
                field_name: field_name@,
                max_string_bytes: max_string_bytes,
            },
            Aggregation::StringLast { name, field_name, max_string_bytes } => AggregationView::StringLast {
                name: name@,
                field_name: field_name@,
                max_string_bytes: max_string_bytes,
            },
            Aggregation::DoubleAny { name, field_name } => AggregationView::DoubleAny {
                name: name@,
                field_name: field_name@,
            },
            Aggregation::FloatAny { name, field_name } => AggregationView::FloatAny {
                name: name@,
                field_name: field_name@,
            },
            Aggregation::LongAny { name, field_name } => AggregationView::LongAny {
                name: name@,
                field_name: field_name@,
            },
            Aggregation::StringAny { name, field_name } => AggregationView::StringAny {
                name: name@,
                field_name: field_name@,
            },
            Aggregation::Javascript { name, field_names, fn_aggregate, fn_combine, fn_reset } => AggregationView::Javascript {
                name: name@,
                field_names: strings_view(field_names@),
                fn_aggregate: fn_aggregate@,
                fn_combine: fn_combine@,
                fn_reset: fn_reset@,
            },
            Aggregation::ThetaSketch { name, field_name, is_input_theta_sketch, size } => AggregationView::ThetaSketch {
                name: name@,
                field_name: field_name@,
                is_input_theta_sketch: is_input_theta_sketch,
                size: size,
            },
            Aggregation::HLLSketchBuild { name, field_name, lg_k, lgt_hll_type, round } => AggregationView::HLLSketchBuild {
                name: name@,
                field_name: field_name@,
                lg_k: lg_k,
                lgt_hll_type: lgt_hll_type,
                round: round,
            },
            Aggregation::Cardinality { name, fields, by_row, round } => AggregationView::Cardinality {
                name: name@,
                fields: strings_view(fields@),
                by_row: by_row,
                round: round,
            },
            Aggregation::HyperUnique { name, field_name, is_input_hyper_unique, round } => AggregationView::HyperUnique {
                name: name@,
                field_name: field_name@,
                is_input_hyper_unique: is_input_hyper_unique,
                round: round,
            },
            Aggregation::Filtered { filter, aggregator } => AggregationView::Filtered {
                filter: filter@,
                aggregator: Box::new(aggregator.value()),
            },
        }
    }

    /// The mathematical values of the elements of a list.
    pub open spec fn values(list: Seq<Aggregation>) -> Seq<AggregationView>
        decreases list,
    {
        Seq::new(
            list.len(),
            |i: int| if 0 <= i < list.len() { list[i].value() } else { arbitrary() },
        )
    }

    /// [`Self::values`] is the view of the list.
    pub proof fn lemma_values(list: Seq<Aggregation>)
        ensures
            Self::values(list) == list_view(list),
    {
        assert(Self::values(list) =~= list_view(list));
    }
}

impl View for Aggregation {
    type V = AggregationView;

    open spec fn view(&self) -> AggregationView {
        self.value()
    }
}

impl AggregationView {
    /// The discriminator that stands for the variant on the wire.
    pub open spec fn tag(self) -> Seq<char> {
        match self {
            AggregationView::Count { .. } => "count"@,
            AggregationView::LongSum { .. } => "longSum"@,
            AggregationView::DoubleSum { .. } => "doubleSum"@,
            AggregationView::FloatSum { .. } => "floatSum"@,
            AggregationView::LongMax { .. } => "longMax"@,
            AggregationView::DoubleMax { .. } => "doubleMax"@,
            AggregationView::FloatMax { .. } => "floatMax"@,
            AggregationView::LongMin { .. } => "longMin"@,
            AggregationView::FloatMin { .. } => "floatMin"@,
            AggregationView::DoubleMin { .. } => "doubleMin"@,
            AggregationView::LongFirst { .. } => "longFirst"@,
            AggregationView::FloatFirst { .. } => "floatFirst"@,
            AggregationView::DoubleFirst { .. } => "doubleFirst"@,
            AggregationView::LongLast { .. } => "longLast"@,
            AggregationView::FloatLast { .. } => "floatLast"@,
            AggregationView::DoubleLast { .. } => "doubleLast"@,
            AggregationView::StringFirst { .. } => "stringFirst"@,
            AggregationView::StringLast { .. } => "stringLast"@,
            AggregationView::DoubleAny { .. } => "doubleAny"@,
            AggregationView::FloatAny { .. } => "floatAny"@,
            AggregationView::LongAny { .. } => "longAny"@,
            AggregationView::StringAny { .. } => "stringAny"@,
            AggregationView::Javascript { .. } => "javascript"@,
            AggregationView::ThetaSketch { .. } => "thetaSketch"@,
            AggregationView::HLLSketchBuild { .. } => "hLLSketchBuild"@,
            AggregationView::Cardinality { .. } => "cardinality"@,
            AggregationView::HyperUnique { .. } => "hyperUnique"@,
            AggregationView::Filtered { .. } => "filtered"@,
        }
    }

    /// Whether a discriminator stands for a variant of this family.
    pub open spec fn known_tag(t: Seq<char>) -> bool {
        t == "count"@
            || t == "longSum"@
            || t == "doubleSum"@
            || t == "floatSum"@
            || t == "longMax"@
            || t == "doubleMax"@
            || t == "floatMax"@
            || t == "longMin"@
            || t == "floatMin"@
            || t == "doubleMin"@
            || t == "longFirst"@
            || t == "floatFirst"@
            || t == "doubleFirst"@
            || t == "longLast"@
            || t == "floatLast"@
            || t == "doubleLast"@
            || t == "stringFirst"@
            || t == "stringLast"@
            || t == "doubleAny"@
            || t == "floatAny"@
            || t == "longAny"@
            || t == "stringAny"@
            || t == "javascript"@
            || t == "thetaSketch"@
            || t == "hLLSketchBuild"@
            || t == "cardinality"@
            || t == "hyperUnique"@
            || t == "filtered"@
    }

    /// The wire form.
    pub open spec fn wire(self) -> JsonValue
        decreases self,
    {
        match self {
            AggregationView::Count { name } => JsonValue::Object(
                Seq::empty()
                    .push(member("type"@, text("count"@)))
                    .push(member("name"@, text(name))),
            ),
            AggregationView::LongSum { name, field_name } => JsonValue::Object(
                Seq::empty()
                    .push(member("type"@, text("longSum"@)))
                    .push(member("name"@, text(name)))
                    .push(member("fieldName"@, text(field_name))),
            ),
            AggregationView::DoubleSum { name, field_name } => JsonValue::Object(
                Seq::empty()
                    .push(member("type"@, text("doubleSum"@)))
                    .push(member("name"@, text(name)))
                    .push(member("fieldName"@, text(field_name))),
            ),
            AggregationView::FloatSum { name, field_name } => JsonValue::Object(
                Seq::empty()
                    .push(member("type"@, text("floatSum"@)))
                    .push(member("name"@, text(name)))
                    .push(member("fieldName"@, text(field_name))),
            ),
            AggregationView::LongMax { name, field_name } => JsonValue::Object(
                Seq::empty()
                    .push(member("type"@, text("longMax"@)))
                    .push(member("name"@, text(name)))
                    .push(member("fieldName"@, text(field_name))),
            ),
            AggregationView::DoubleMax { name, field_name } => JsonValue::Object(
                Seq::empty()
                    .push(member("type"@, text("doubleMax"@)))
                    .push(member("name"@, text(name)))
                    .push(member("fieldName"@, text(field_name))),
            ),
            AggregationView::FloatMax { name, field_name } => JsonValue::Object(
                Seq::empty()
                    .push(member("type"@, text("floatMax"@)))
                    .push(member("name"@, text(name)))
                    .push(member("fieldName"@, text(field_name))),
            ),
            AggregationView::LongMin { name, field_name } => JsonValue::Object(
                Seq::empty()
                    .push(member("type"@, text("longMin"@)))
                    .push(member("name"@, text(name)))
                    .push(member("fieldName"@, text(field_name))),
            ),
            AggregationView::FloatMin { name, field_name } => JsonValue::Object(
                Seq::empty()
                    .push(member("type"@, text("floatMin"@)))
                    .push(member("name"@, text(name)))
                    .push(member("fieldName"@, text(field_name))),
            ),
            AggregationView::DoubleMin { name, field_name } => JsonValue::Object(
                Seq::empty()
                    .push(member("type"@, text("doubleMin"@)))
                    .push(member("name"@, text(name)))
                    .push(member("fieldName"@, text(field_name))),
            ),
            AggregationView::LongFirst { name, field_name } => JsonValue::Object(
                Seq::empty()
                    .push(member("type"@, text("longFirst"@)))
                    .push(member("name"@, text(name)))
                    .push(member("fieldName"@, text(field_name))),
            ),
            AggregationView::FloatFirst { name, field_name } => JsonValue::Object(
                Seq::empty()
                    .push(member("type"@, text("floatFirst"@)))
                    .push(member("name"@, text(name)))
                    .push(member("fieldName"@, text(field_name))),
            ),
            AggregationView::DoubleFirst { name, field_name } => JsonValue::Object(
                Seq::empty()
                    .push(member("type"@, text("doubleFirst"@)))
                    .push(member("name"@, text(name)))
                    .push(member("fieldName"@, text(field_name))),
            ),
            AggregationView::LongLast { name, field_name } => JsonValue::Object(
                Seq::empty()
                    .push(member("type"@, text("longLast"@)))
                    .push(member("name"@, text(name)))
                    .push(member("fieldName"@, text(field_name))),
            ),
            AggregationView::FloatLast { name, field_name } => JsonValue::Object(
                Seq::empty()
                    .push(member("type"@, text("floatLast"@)))
                    .push(member("name"@, text(name)))
                    .push(member("fieldName"@, text(field_name))),
            ),
            AggregationView::DoubleLast { name, field_name } => JsonValue::Object(
                Seq::empty()
                    .push(member("type"@, text("doubleLast"@)))
                    .push(member("name"@, text(name)))
                    .push(member("fieldName"@, text(field_name))),
            ),
            AggregationView::StringFirst { name, field_name, max_string_bytes } => JsonValue::Object(
                Seq::empty()
                    .push(member("type"@, text("stringFirst"@)))
                    .push(member("name"@, text(name)))
                    .push(member("fieldName"@, text(field_name)))
                    .push(member("maxStringBytes"@, count(max_string_bytes))),
            ),
            AggregationView::StringLast { name, field_name, max_string_bytes } => JsonValue::Object(
                Seq::empty()
                    .push(member("type"@, text("stringLast"@)))
                    .push(member("name"@, text(name)))
                    .push(member("fieldName"@, text(field_name)))
                    .push(member("maxStringBytes"@, count(max_string_bytes))),
            ),
            AggregationView::DoubleAny { name, field_name } => JsonValue::Object(
                Seq::empty()
                    .push(member("type"@, text("doubleAny"@)))
                    .push(member("name"@, text(name)))
                    .push(member("fieldName"@, text(field_name))),
            ),
            AggregationView::FloatAny { name, field_name } => JsonValue::Object(
                Seq::empty()
                    .push(member("type"@, text("floatAny"@)))
                    .push(member("name"@, text(name)))
                    .push(member("fieldName"@, text(field_name))),
            ),
            AggregationView::LongAny { name, field_name } => JsonValue::Object(
                Seq::empty()
                    .push(member("type"@, text("longAny"@)))
                    .push(member("name"@, text(name)))
                    .push(member("fieldName"@, text(field_name))),
            ),
            AggregationView::StringAny { name, field_name } => JsonValue::Object(
                Seq::empty()
                    .push(member("type"@, text("stringAny"@)))
                    .push(member("name"@, text(name)))
                    .push(member("fieldName"@, text(field_name))),
            ),
            AggregationView::Javascript { name, field_names, fn_aggregate, fn_combine, fn_reset } => JsonValue::Object(
                Seq::empty()
                    .push(member("type"@, text("javascript"@)))
                    .push(member("name"@, text(name)))
                    .push(member("fieldNames"@, texts(field_names)))
                    .push(member("fnAggregate"@, text(fn_aggregate)))
                    .push(member("fnCombine"@, text(fn_combine)))
                    .push(member("fnReset"@, text(fn_reset))),
            ),
            AggregationView::ThetaSketch { name, field_name, is_input_theta_sketch, size } => JsonValue::Object(
                Seq::empty()
                    .push(member("type"@, text("thetaSketch"@)))
                    .push(member("name"@, text(name)))
                    .push(member("fieldName"@, text(field_name)))
                    .push(member("isInputThetaSketch"@, flag(is_input_theta_sketch)))
                    .push(member("size"@, count(size))),
            ),
            AggregationView::HLLSketchBuild { name, field_name, lg_k, lgt_hll_type, round } => JsonValue::Object(
                Seq::empty()
                    .push(member("type"@, text("hLLSketchBuild"@)))
                    .push(member("name"@, text(name)))
                    .push(member("fieldName"@, text(field_name)))
                    .push(member("lgK"@, count(lg_k)))
                    .push(member("lgtHllType"@, lgt_hll_type.wire()))
                    .push(member("round"@, flag(round))),
            ),
            AggregationView::Cardinality { name, fields, by_row, round } => JsonValue::Object(
                Seq::empty()
                    .push(member("type"@, text("cardinality"@)))
                    .push(member("name"@, text(name)))
                    .push(member("fields"@, texts(fields)))
                    .push(member("byRow"@, flag(by_row)))
                    .push(member("round"@, flag(round))),
            ),
            AggregationView::HyperUnique { name, field_name, is_input_hyper_unique, round } => JsonValue::Object(
                Seq::empty()
                    .push(member("type"@, text("hyperUnique"@)))
                    .push(member("name"@, text(name)))
                    .push(member("fieldName"@, text(field_name)))
                    .push(member("isInputHyperUnique"@, flag(is_input_hyper_unique)))
                    .push(member("round"@, flag(round))),
            ),
            AggregationView::Filtered { filter, aggregator } => JsonValue::Object(
                Seq::empty()
                    .push(member("type"@, text("filtered"@)))
                    .push(member("filter"@, filter.wire()))
                    .push(member("aggregator"@, aggregator.wire())),
            ),
        }
    }

    /// The wire forms of the elements of a list.
    pub open spec fn wire_list(list: Seq<AggregationView>) -> Seq<JsonValue>
        decreases list,
    {
        Seq::new(
            list.len(),
            |i: int| if 0 <= i < list.len() { list[i].wire() } else { arbitrary() },
        )
    }

    /// Whether the parts that are not read back whatever they hold are
    /// read back as they are: every interval inside, and every map
    /// inside, which has to hold each key once.
    pub open spec fn reads_back(self) -> bool
        decreases self,
    {
        match self {
            AggregationView::Count { .. } => true,
            AggregationView::LongSum { .. } => true,
            AggregationView::DoubleSum { .. } => true,
            AggregationView::FloatSum { .. } => true,
            AggregationView::LongMax { .. } => true,
            AggregationView::DoubleMax { .. } => true,
            AggregationView::FloatMax { .. } => true,
            AggregationView::LongMin { .. } => true,
            AggregationView::FloatMin { .. } => true,
            AggregationView::DoubleMin { .. } => true,
            AggregationView::LongFirst { .. } => true,
            AggregationView::FloatFirst { .. } => true,
            AggregationView::DoubleFirst { .. } => true,
            AggregationView::LongLast { .. } => true,
            AggregationView::FloatLast { .. } => true,
            AggregationView::DoubleLast { .. } => true,
            AggregationView::StringFirst { .. } => true,
            AggregationView::StringLast { .. } => true,
            AggregationView::DoubleAny { .. } => true,
            AggregationView::FloatAny { .. } => true,
            AggregationView::LongAny { .. } => true,
            AggregationView::StringAny { .. } => true,
            AggregationView::Javascript { .. } => true,
            AggregationView::ThetaSketch { .. } => true,
            AggregationView::HLLSketchBuild { .. } => true,
            AggregationView::Cardinality { .. } => true,
            AggregationView::HyperUnique { .. } => true,
            AggregationView::Filtered { filter, aggregator } => filter.reads_back()
                && aggregator.reads_back(),
        }
    }

    /// Whether every element of a list is read back as it is.
    pub open spec fn all_read_back(list: Seq<AggregationView>) -> bool
        decreases list,
    {
        forall|i: int| 0 <= i < list.len() ==> (#[trigger] list[i]).reads_back()
    }

    /// What a document is read as.
    pub open spec fn parse(j: JsonValue) -> Result<AggregationView, Failure>
        decreases j,
    {
        match as_members(j) {
            Ok(m) => match text_field(m, "type"@) {
                Ok(t) => if t == "count"@ {
                    Self::parse_count(m)
                } else if t == "longSum"@ {
                    Self::parse_long_sum(m)
                } else if t == "doubleSum"@ {
                    Self::parse_double_sum(m)
                } else if t == "floatSum"@ {
                    Self::parse_float_sum(m)
                } else if t == "longMax"@ {
                    Self::parse_long_max(m)
                } else if t == "doubleMax"@ {
                    Self::parse_double_max(m)
                } else if t == "floatMax"@ {
                    Self::parse_float_max(m)
                } else if t == "longMin"@ {
                    Self::parse_long_min(m)
                } else if t == "floatMin"@ {
                    Self::parse_float_min(m)
                } else if t == "doubleMin"@ {
                    Self::parse_double_min(m)
                } else if t == "longFirst"@ {
                    Self::parse_long_first(m)
                } else if t == "floatFirst"@ {
                    Self::parse_float_first(m)
                } else if t == "doubleFirst"@ {
                    Self::parse_double_first(m)
                } else if t == "longLast"@ {
                    Self::parse_long_last(m)
                } else if t == "floatLast"@ {
                    Self::parse_float_last(m)
                } else if t == "doubleLast"@ {
                    Self::parse_double_last(m)
                } else if t == "stringFirst"@ {
                    Self::parse_string_first(m)
                } else if t == "stringLast"@ {
                    Self::parse_string_last(m)
                } else if t == "doubleAny"@ {
                    Self::parse_double_any(m)
                } else if t == "floatAny"@ {
                    Self::parse_float_any(m)
                } else if t == "longAny"@ {
                    Self::parse_long_any(m)
                } else if t == "stringAny"@ {
                    Self::parse_string_any(m)
                } else if t == "javascript"@ {
                    Self::parse_javascript(m)
                } else if t == "thetaSketch"@ {
                    Self::parse_theta_sketch(m)
                } else if t == "hLLSketchBuild"@ {
                    Self::parse_h_l_l_sketch_build(m)
                } else if t == "cardinality"@ {
                    Self::parse_cardinality(m)
                } else if t == "hyperUnique"@ {
                    Self::parse_hyper_unique(m)
                } else if t == "filtered"@ {
                    Self::parse_filtered(m)
                } else {
                    Err(Failure::here(DecodeCause::UnknownVariant).within_key("type"@))
                },
                Err(e) => Err(e),
            },
            Err(e) => Err(e),
        }
    }

    /// The members of the variant `count`, read.
    pub open spec fn parse_count(m: Seq<MemberValue>) -> Result<AggregationView, Failure>
        decreases m,
    {
        let name = text_field(m, "name"@);
        if name is Err {
            Err(name->Err_0)
        } else {
            Ok(AggregationView::Count { name: name->Ok_0 })
        }
    }

    /// The members of the variant `longSum`, read.
    pub open spec fn parse_long_sum(m: Seq<MemberValue>) -> Result<AggregationView, Failure>
        decreases m,
    {
        let name = text_field(m, "name"@);
        let field_name = text_field(m, "fieldName"@);
        if name is Err {
            Err(name->Err_0)
        } else if field_name is Err {
            Err(field_name->Err_0)
        } else {
            Ok(AggregationView::LongSum { name: name->Ok_0, field_name: field_name->Ok_0 })
        }
    }

    /// The members of the variant `doubleSum`, read.
    pub open spec fn parse_double_sum(m: Seq<MemberValue>) -> Result<AggregationView, Failure>
        decreases m,
    {
        let name = text_field(m, "name"@);
        let field_name = text_field(m, "fieldName"@);
        if name is Err {
            Err(name->Err_0)
        } else if field_name is Err {
            Err(field_name->Err_0)
        } else {
            Ok(AggregationView::DoubleSum { name: name->Ok_0, field_name: field_name->Ok_0 })
        }
    }

    /// The members of the variant `floatSum`, read.
    pub open spec fn parse_float_sum(m: Seq<MemberValue>) -> Result<AggregationView, Failure>
        decreases m,
    {
        let name = text_field(m, "name"@);
        let field_name = text_field(m, "fieldName"@);
        if name is Err {
            Err(name->Err_0)
        } else if field_name is Err {
            Err(field_name->Err_0)
        } else {
            Ok(AggregationView::FloatSum { name: name->Ok_0, field_name: field_name->Ok_0 })
        }
    }

    /// The members of the variant `longMax`, read.
    pub open spec fn parse_long_max(m: Seq<MemberValue>) -> Result<AggregationView, Failure>
        decreases m,
    {
        let name = text_field(m, "name"@);
        let field_name = text_field(m, "fieldName"@);
        if name is Err {
            Err(name->Err_0)
        } else if field_name is Err {
            Err(field_name->Err_0)
        } else {
            Ok(AggregationView::LongMax { name: name->Ok_0, field_name: field_name->Ok_0 })
        }
    }

    /// The members of the variant `doubleMax`, read.
    pub open spec fn parse_double_max(m: Seq<MemberValue>) -> Result<AggregationView, Failure>
        decreases m,
    {
        let name = text_field(m, "name"@);
        let field_name = text_field(m, "fieldName"@);
        if name is Err {
            Err(name->Err_0)
        } else if field_name is Err {
            Err(field_name->Err_0)
        } else {
            Ok(AggregationView::DoubleMax { name: name->Ok_0, field_name: field_name->Ok_0 })
        }
    }

    /// The members of the variant `floatMax`, read.
    pub open spec fn parse_float_max(m: Seq<MemberValue>) -> Result<AggregationView, Failure>
        decreases m,
    {
        let name = text_field(m, "name"@);
        let field_name = text_field(m, "fieldName"@);
        if name is Err {
            Err(name->Err_0)
        } else if field_name is Err {
            Err(field_name->Err_0)
        } else {
            Ok(AggregationView::FloatMax { name: name->Ok_0, field_name: field_name->Ok_0 })
        }
    }

    /// The members of the variant `longMin`, read.
    pub open spec fn parse_long_min(m: Seq<MemberValue>) -> Result<AggregationView, Failure>
        decreases m,
    {
        let name = text_field(m, "name"@);
        let field_name = text_field(m, "fieldName"@);
        if name is Err {
            Err(name->Err_0)
        } else if field_name is Err {
            Err(field_name->Err_0)
        } else {
            Ok(AggregationView::LongMin { name: name->Ok_0, field_name: field_name->Ok_0 })
        }
    }

    /// The members of the variant `floatMin`, read.
    pub open spec fn parse_float_min(m: Seq<MemberValue>) -> Result<AggregationView, Failure>
        decreases m,
    {
        let name = text_field(m, "name"@);
        let field_name = text_field(m, "fieldName"@);
        if name is Err {
            Err(name->Err_0)
        } else if field_name is Err {
            Err(field_name->Err_0)
        } else {
            Ok(AggregationView::FloatMin { name: name->Ok_0, field_name: field_name->Ok_0 })
        }
    }

    /// The members of the variant `doubleMin`, read.
    pub open spec fn parse_double_min(m: Seq<MemberValue>) -> Result<AggregationView, Failure>
        decreases m,
    {
        let name = text_field(m, "name"@);
        let field_name = text_field(m, "fieldName"@);
        if name is Err {
            Err(name->Err_0)
        } else if field_name is Err {
            Err(field_name->Err_0)
        } else {
            Ok(AggregationView::DoubleMin { name: name->Ok_0, field_name: field_name->Ok_0 })
        }
    }

    /// The members of the variant `longFirst`, read.
    pub open spec fn parse_long_first(m: Seq<MemberValue>) -> Result<AggregationView, Failure>
        decreases m,
    {
        let name = text_field(m, "name"@);
        let field_name = text_field(m, "fieldName"@);
        if name is Err {
            Err(name->Err_0)
        } else if field_name is Err {
            Err(field_name->Err_0)
        } else {
            Ok(AggregationView::LongFirst { name: name->Ok_0, field_name: field_name->Ok_0 })
        }
    }

    /// The members of the variant `floatFirst`, read.
    pub open spec fn parse_float_first(m: Seq<MemberValue>) -> Result<AggregationView, Failure>
        decreases m,
    {
        let name = text_field(m, "name"@);
        let field_name = text_field(m, "fieldName"@);
        if name is Err {
            Err(name->Err_0)
        } else if field_name is Err {
            Err(field_name->Err_0)
        } else {
            Ok(AggregationView::FloatFirst { name: name->Ok_0, field_name: field_name->Ok_0 })
        }
    }

    /// The members of the variant `doubleFirst`, read.
    pub open spec fn parse_double_first(m: Seq<MemberValue>) -> Result<AggregationView, Failure>
        decreases m,
    {
        let name = text_field(m, "name"@);
        let field_name = text_field(m, "fieldName"@);
        if name is Err {
            Err(name->Err_0)
        } else if field_name is Err {
            Err(field_name->Err_0)
        } else {
            Ok(AggregationView::DoubleFirst { name: name->Ok_0, field_name: field_name->Ok_0 })
        }
    }

    /// The members of the variant `longLast`, read.
    pub open spec fn parse_long_last(m: Seq<MemberValue>) -> Result<AggregationView, Failure>
        decreases m,
    {
        let name = text_field(m, "name"@);
        let field_name = text_field(m, "fieldName"@);
        if name is Err {
            Err(name->Err_0)
        } else if field_name is Err {
            Err(field_name->Err_0)
        } else {
            Ok(AggregationView::LongLast { name: name->Ok_0, field_name: field_name->Ok_0 })
        }
    }

    /// The members of the variant `floatLast`, read.
    pub open spec fn parse_float_last(m: Seq<MemberValue>) -> Result<AggregationView, Failure>
        decreases m,
    {
        let name = text_field(m, "name"@);
        let field_name = text_field(m, "fieldName"@);
        if name is Err {
            Err(name->Err_0)
        } else if field_name is Err {
            Err(field_name->Err_0)
        } else {
            Ok(AggregationView::FloatLast { name: name->Ok_0, field_name: field_name->Ok_0 })
        }
    }

    /// The members of the variant `doubleLast`, read.
    pub open spec fn parse_double_last(m: Seq<MemberValue>) -> Result<AggregationView, Failure>
        decreases m,
    {
        let name = text_field(m, "name"@);
        let field_name = text_field(m, "fieldName"@);
        if name is Err {
            Err(name->Err_0)
        } else if field_name is Err {
            Err(field_name->Err_0)
        } else {
            Ok(AggregationView::DoubleLast { name: name->Ok_0, field_name: field_name->Ok_0 })
        }
    }

    /// The members of the variant `stringFirst`, read.
    pub open spec fn parse_string_first(m: Seq<MemberValue>) -> Result<AggregationView, Failure>
        decreases m,
    {
        let name = text_field(m, "name"@);
        let field_name = text_field(m, "fieldName"@);
        let max_string_bytes = count_field(m, "maxStringBytes"@);
        if name is Err {
            Err(name->Err_0)
        } else if field_name is Err {
            Err(field_name->Err_0)
        } else if max_string_bytes is Err {
            Err(max_string_bytes->Err_0)
        } else {
            Ok(
                AggregationView::StringFirst {
                    name: name->Ok_0,
                    field_name: field_name->Ok_0,
                    max_string_bytes: max_string_bytes->Ok_0,
                },
            )
        }
    }

    /// The members of the variant `stringLast`, read.
    pub open spec fn parse_string_last(m: Seq<MemberValue>) -> Result<AggregationView, Failure>
        decreases m,
    {
        let name = text_field(m, "name"@);
        let field_name = text_field(m, "fieldName"@);
        let max_string_bytes = count_field(m, "maxStringBytes"@);
        if name is Err {
            Err(name->Err_0)
        } else if field_name is Err {
            Err(field_name->Err_0)
        } else if max_string_bytes is Err {
            Err(max_string_bytes->Err_0)
        } else {
            Ok(
                AggregationView::StringLast {
                    name: name->Ok_0,
                    field_name: field_name->Ok_0,
                    max_string_bytes: max_string_bytes->Ok_0,
                },
            )
        }
    }

    /// The members of the variant `doubleAny`, read.
    pub open spec fn parse_double_any(m: Seq<MemberValue>) -> Result<AggregationView, Failure>
        decreases m,
    {
        let name = text_field(m, "name"@);
        let field_name = text_field(m, "fieldName"@);
        if name is Err {
            Err(name->Err_0)
        } else if field_name is Err {
            Err(field_name->Err_0)
        } else {
            Ok(AggregationView::DoubleAny { name: name->Ok_0, field_name: field_name->Ok_0 })
        }
    }

    /// The members of the variant `floatAny`, read.
    pub open spec fn parse_float_any(m: Seq<MemberValue>) -> Result<AggregationView, Failure>
        decreases m,
    {
        let name = text_field(m, "name"@);
        let field_name = text_field(m, "fieldName"@);
        if name is Err {
            Err(name->Err_0)
        } else if field_name is Err {
            Err(field_name->Err_0)
        } else {
            Ok(AggregationView::FloatAny { name: name->Ok_0, field_name: field_name->Ok_0 })
        }
    }

    /// The members of the variant `longAny`, read.
    pub open spec fn parse_long_any(m: Seq<MemberValue>) -> Result<AggregationView, Failure>
        decreases m,
    {
        let name = text_field(m, "name"@);
        let field_name = text_field(m, "fieldName"@);
        if name is Err {
            Err(name->Err_0)
        } else if field_name is Err {
            Err(field_name->Err_0)
        } else {
            Ok(AggregationView::LongAny { name: name->Ok_0, field_name: field_name->Ok_0 })
        }
    }

    /// The members of the variant `stringAny`, read.
    pub open spec fn parse_string_any(m: Seq<MemberValue>) -> Result<AggregationView, Failure>
        decreases m,
    {
        let name = text_field(m, "name"@);
        let field_name = text_field(m, "fieldName"@);
        if name is Err {
            Err(name->Err_0)
        } else if field_name is Err {
            Err(field_name->Err_0)
        } else {
            Ok(AggregationView::StringAny { name: name->Ok_0, field_name: field_name->Ok_0 })
        }
    }

    /// The members of the variant `javascript`, read.
    pub open spec fn parse_javascript(m: Seq<MemberValue>) -> Result<AggregationView, Failure>
        decreases m,
    {
        let name = text_field(m, "name"@);
        let field_names = texts_field(m, "fieldNames"@);
        let fn_aggregate = text_field(m, "fnAggregate"@);
        let fn_combine = text_field(m, "fnCombine"@);
        let fn_reset = text_field(m, "fnReset"@);
        if name is Err {
            Err(name->Err_0)
        } else if field_names is Err {
            Err(field_names->Err_0)
        } else if fn_aggregate is Err {
            Err(fn_aggregate->Err_0)
        } else if fn_combine is Err {
            Err(fn_combine->Err_0)
        } else if fn_reset is Err {
            Err(fn_reset->Err_0)
        } else {
            Ok(
                AggregationView::Javascript {
                    name: name->Ok_0,
                    field_names: field_names->Ok_0,
                    fn_aggregate: fn_aggregate->Ok_0,
                    fn_combine: fn_combine->Ok_0,
                    fn_reset: fn_reset->Ok_0,
                },
            )
        }
    }

    /// The members of the variant `thetaSketch`, read.
    pub open spec fn parse_theta_sketch(m: Seq<MemberValue>) -> Result<AggregationView, Failure>
        decreases m,
    {
        let name = text_field(m, "name"@);
        let field_name = text_field(m, "fieldName"@);
        let is_input_theta_sketch = flag_field(m, "isInputThetaSketch"@);
        let size = count_field(m, "size"@);
        if name is Err {
            Err(name->Err_0)
        } else if field_name is Err {
            Err(field_name->Err_0)
        } else if is_input_theta_sketch is Err {
            Err(is_input_theta_sketch->Err_0)
        } else if size is Err {
            Err(size->Err_0)
        } else {
            Ok(
                AggregationView::ThetaSketch {
                    name: name->Ok_0,
                    field_name: field_name->Ok_0,
                    is_input_theta_sketch: is_input_theta_sketch->Ok_0,
                    size: size->Ok_0,
                },
            )
        }
    }

    /// The members of the variant `hLLSketchBuild`, read.
    pub open spec fn parse_h_l_l_sketch_build(m: Seq<MemberValue>) -> Result<AggregationView, Failure>
        decreases m,
    {
        let name = text_field(m, "name"@);
        let field_name = text_field(m, "fieldName"@);
        let lg_k = count_field(m, "lgK"@);
        let lgt_hll_type = field_with(m, "lgtHllType"@, |v: JsonValue| HllType::parse(v));
        let round = flag_field(m, "round"@);
        if name is Err {
            Err(name->Err_0)
        } else if field_name is Err {
            Err(field_name->Err_0)
        } else if lg_k is Err {
            Err(lg_k->Err_0)
        } else if lgt_hll_type is Err {
            Err(lgt_hll_type->Err_0)
        } else if round is Err {
            Err(round->Err_0)
        } else {
            Ok(
                AggregationView::HLLSketchBuild {
                    name: name->Ok_0,
                    field_name: field_name->Ok_0,
                    lg_k: lg_k->Ok_0,
                    lgt_hll_type: lgt_hll_type->Ok_0,
                    round: round->Ok_0,
                },
            )
        }
    }

    /// The members of the variant `cardinality`, read.
    pub open spec fn parse_cardinality(m: Seq<MemberValue>) -> Result<AggregationView, Failure>
        decreases m,
    {
        let name = text_field(m, "name"@);
        let fields = texts_field(m, "fields"@);
        let by_row = flag_field(m, "byRow"@);
        let round = flag_field(m, "round"@);
        if name is Err {
            Err(name->Err_0)
        } else if fields is Err {
            Err(fields->Err_0)
        } else if by_row is Err {
            Err(by_row->Err_0)
        } else if round is Err {
            Err(round->Err_0)
        } else {
            Ok(
                AggregationView::Cardinality {
                    name: name->Ok_0,
                    fields: fields->Ok_0,
                    by_row: by_row->Ok_0,
                    round: round->Ok_0,
                },
            )
        }
    }

    /// The members of the variant `hyperUnique`, read.
    pub open spec fn parse_hyper_unique(m: Seq<MemberValue>) -> Result<AggregationView, Failure>
        decreases m,
    {
        let name = text_field(m, "name"@);
        let field_name = text_field(m, "fieldName"@);
        let is_input_hyper_unique = flag_field(m, "isInputHyperUnique"@);
        let round = flag_field(m, "round"@);
        if name is Err {
            Err(name->Err_0)
        } else if field_name is Err {
            Err(field_name->Err_0)
        } else if is_input_hyper_unique is Err {
            Err(is_input_hyper_unique->Err_0)
        } else if round is Err {
            Err(round->Err_0)
        } else {
            Ok(
                AggregationView::HyperUnique {
                    name: name->Ok_0,
                    field_name: field_name->Ok_0,
                    is_input_hyper_unique: is_input_hyper_unique->Ok_0,
                    round: round->Ok_0,
                },
            )
        }
    }

    /// The members of the variant `filtered`, read.
    pub open spec fn parse_filtered(m: Seq<MemberValue>) -> Result<AggregationView, Failure>
        decreases m,
    {
        let filter = match required(m, "filter"@) {
            Ok(v) => under("filter"@, FilterView::parse(v)),
            Err(e) => Err(e),
        };
        let aggregator = match required(m, "aggregator"@) {
            Ok(v) => {
                proof { lemma_lookup_smaller(m, "aggregator"@); }
                under("aggregator"@, AggregationView::parse(v))
            },
            Err(e) => Err(e),
        };
        if filter is Err {
            Err(filter->Err_0)
        } else if aggregator is Err {
            Err(aggregator->Err_0)
        } else {
            Ok(
                AggregationView::Filtered {
                    filter: filter->Ok_0,
                    aggregator: Box::new(aggregator->Ok_0),
                },
            )
        }
    }

    /// Every element of an array, read: the list of what was read, or
    /// the failure of the first element that is refused, seen from its
    /// index.
    pub open spec fn parse_list(items: Seq<JsonValue>) -> Result<Seq<AggregationView>, Failure>
        decreases items,
    {
        if items.len() == 0 {
            Ok(Seq::empty())
        } else {
            match Self::parse_list(items.drop_last()) {
                Ok(front) => match Self::parse(items.last()) {
                    Ok(v) => Ok(front.push(v)),
                    Err(e) => Err(e.within_index((items.len() - 1) as nat)),
                },
                Err(e) => Err(e),
            }
        }
    }

    /// [`Self::wire_list`] writes each element.
    pub proof fn lemma_wire_list(list: Seq<AggregationView>)
        ensures
            Self::wire_list(list) == list.map_values(|x: AggregationView| x.wire()),
    {
        assert(Self::wire_list(list) =~= list.map_values(|x: AggregationView| x.wire()));
    }

    /// [`Self::parse_list`] reads each element.
    pub proof fn lemma_parse_list(items: Seq<JsonValue>)
        ensures
            Self::parse_list(items) == read_all(items, |j: JsonValue| Self::parse(j)),
        decreases items.len(),
    {
        let read = |j: JsonValue| Self::parse(j);
        if items.len() == 0 {
            lemma_read_all_empty(items, read);
        } else {
            Self::lemma_parse_list(items.drop_last());
            lemma_read_all_step(items, read);
        }
    }

    /// What is written is never `null`.
    pub proof fn lemma_wire_not_null(self)
        ensures
            !(self.wire() is Null),
    {
    }

    /// Reading back what was written gives the value again, if the
    /// intervals and the maps inside are read back as they are.
    pub proof fn lemma_round_trip(self)
        requires
            self.reads_back(),
        ensures
            Self::parse(self.wire()) == Ok::<AggregationView, Failure>(self),
        decreases self,
    {
        match self {
            AggregationView::Count { name } => {
                Self::lemma_members_count(self.wire(), name);
                Self::lemma_parse_count(self.wire());
            },
            AggregationView::LongSum { name, field_name } => {
                Self::lemma_members_long_sum(self.wire(), name, field_name);
                Self::lemma_parse_long_sum(self.wire());
            },
            AggregationView::DoubleSum { name, field_name } => {
                Self::lemma_members_double_sum(self.wire(), name, field_name);
                Self::lemma_parse_double_sum(self.wire());
            },
            AggregationView::FloatSum { name, field_name } => {
                Self::lemma_members_float_sum(self.wire(), name, field_name);
                Self::lemma_parse_float_sum(self.wire());
            },
            AggregationView::LongMax { name, field_name } => {
                Self::lemma_members_long_max(self.wire(), name, field_name);
                Self::lemma_parse_long_max(self.wire());
            },
            AggregationView::DoubleMax { name, field_name } => {
                Self::lemma_members_double_max(self.wire(), name, field_name);
                Self::lemma_parse_double_max(self.wire());
            },
            AggregationView::FloatMax { name, field_name } => {
                Self::lemma_members_float_max(self.wire(), name, field_name);
                Self::lemma_parse_float_max(self.wire());
            },
            AggregationView::LongMin { name, field_name } => {
                Self::lemma_members_long_min(self.wire(), name, field_name);
                Self::lemma_parse_long_min(self.wire());
            },
            AggregationView::FloatMin { name, field_name } => {
                Self::lemma_members_float_min(self.wire(), name, field_name);
                Self::lemma_parse_float_min(self.wire());
            },
            AggregationView::DoubleMin { name, field_name } => {
                Self::lemma_members_double_min(self.wire(), name, field_name);
                Self::lemma_parse_double_min(self.wire());
            },
            AggregationView::LongFirst { name, field_name } => {
                Self::lemma_members_long_first(self.wire(), name, field_name);
                Self::lemma_parse_long_first(self.wire());
            },
            AggregationView::FloatFirst { name, field_name } => {
                Self::lemma_members_float_first(self.wire(), name, field_name);
                Self::lemma_parse_float_first(self.wire());
            },
            AggregationView::DoubleFirst { name, field_name } => {
                Self::lemma_members_double_first(self.wire(), name, field_name);
                Self::lemma_parse_double_first(self.wire());
            },
            AggregationView::LongLast { name, field_name } => {
                Self::lemma_members_long_last(self.wire(), name, field_name);
                Self::lemma_parse_long_last(self.wire());
            },
            AggregationView::FloatLast { name, field_name } => {
                Self::lemma_members_float_last(self.wire(), name, field_name);
                Self::lemma_parse_float_last(self.wire());
            },
            AggregationView::DoubleLast { name, field_name } => {
                Self::lemma_members_double_last(self.wire(), name, field_name);
                Self::lemma_parse_double_last(self.wire());
            },
            AggregationView::StringFirst { name, field_name, max_string_bytes } => {
                Self::lemma_members_string_first(self.wire(), name, field_name, max_string_bytes);
                Self::lemma_parse_string_first(self.wire());
            },
            AggregationView::StringLast { name, field_name, max_string_bytes } => {
                Self::lemma_members_string_last(self.wire(), name, field_name, max_string_bytes);
                Self::lemma_parse_string_last(self.wire());
            },
            AggregationView::DoubleAny { name, field_name } => {
                Self::lemma_members_double_any(self.wire(), name, field_name);
                Self::lemma_parse_double_any(self.wire());
            },
            AggregationView::FloatAny { name, field_name } => {
                Self::lemma_members_float_any(self.wire(), name, field_name);
                Self::lemma_parse_float_any(self.wire());
            },
            AggregationView::LongAny { name, field_name } => {
                Self::lemma_members_long_any(self.wire(), name, field_name);
                Self::lemma_parse_long_any(self.wire());
            },
            AggregationView::StringAny { name, field_name } => {
                Self::lemma_members_string_any(self.wire(), name, field_name);
                Self::lemma_parse_string_any(self.wire());
            },
            AggregationView::Javascript {
                name,
                field_names,
                fn_aggregate,
                fn_combine,
                fn_reset,
            } => {
                Self::lemma_members_javascript(
                    self.wire(),
                    name,
                    field_names,
                    fn_aggregate,
                    fn_combine,
                    fn_reset,
                );
                Self::lemma_parse_javascript(self.wire());
            },
            AggregationView::ThetaSketch { name, field_name, is_input_theta_sketch, size } => {
                Self::lemma_members_theta_sketch(
                    self.wire(),
                    name,
                    field_name,
                    is_input_theta_sketch,
                    size,
                );
                Self::lemma_parse_theta_sketch(self.wire());
            },
            AggregationView::HLLSketchBuild { name, field_name, lg_k, lgt_hll_type, round } => {
                Self::lemma_members_h_l_l_sketch_build(
                    self.wire(),
                    name,
                    field_name,
                    lg_k,
                    lgt_hll_type,
                    round,
                );
                Self::lemma_parse_h_l_l_sketch_build(self.wire());
            },
            AggregationView::Cardinality { name, fields, by_row, round } => {
                Self::lemma_members_cardinality(self.wire(), name, fields, by_row, round);
                Self::lemma_parse_cardinality(self.wire());
            },
            AggregationView::HyperUnique { name, field_name, is_input_hyper_unique, round } => {
                Self::lemma_members_hyper_unique(
                    self.wire(),
                    name,
                    field_name,
                    is_input_hyper_unique,
                    round,
                );
                Self::lemma_parse_hyper_unique(self.wire());
            },
            AggregationView::Filtered { filter, aggregator } => {
                filter.lemma_round_trip();
                aggregator.lemma_round_trip();
                Self::lemma_members_filtered(
                    self.wire(),
                    filter,
                    filter.wire(),
                    *aggregator,
                    aggregator.wire(),
                );
                Self::lemma_parse_filtered(self.wire());
            },
        }
    }

    /// The members that are written for the variant `count` are read
    /// back as the value, given that its parts are read back from their
    /// wire forms.
    proof fn lemma_members_count(j: JsonValue, name: Seq<char>)
        requires
            j == JsonValue::Object(
                Seq::empty()
                    .push(member("type"@, text("count"@)))
                    .push(member("name"@, text(name))),
            ),
        ensures
            j is Object,
            Self::parse_count(j->Object_0)
                == Ok::<AggregationView, Failure>(AggregationView::Count { name }),
            text_field(j->Object_0, "type"@) == Ok::<Seq<char>, Failure>("count"@),
    {
        broadcast use {lemma_lookup_push, lemma_lookup_empty};

        lemma_keys();
    }

    /// An object with the discriminator `count` is read as that variant.
    proof fn lemma_parse_count(j: JsonValue)
        requires
            j is Object,
            text_field(j->Object_0, "type"@) == Ok::<Seq<char>, Failure>("count"@),
        ensures
            Self::parse(j) == Self::parse_count(j->Object_0),
    {
        lemma_tags();
    }

    /// The members that are written for the variant `longSum` are read
    /// back as the value, given that its parts are read back from their
    /// wire forms.
    proof fn lemma_members_long_sum(j: JsonValue, name: Seq<char>, field_name: Seq<char>)
        requires
            j == JsonValue::Object(
                Seq::empty()
                    .push(member("type"@, text("longSum"@)))
                    .push(member("name"@, text(name)))
                    .push(member("fieldName"@, text(field_name))),
            ),
        ensures
            j is Object,
            Self::parse_long_sum(j->Object_0) == Ok::<AggregationView, Failure>(
                AggregationView::LongSum { name, field_name },
            ),
            text_field(j->Object_0, "type"@) == Ok::<Seq<char>, Failure>("longSum"@),
    {
        broadcast use {lemma_lookup_push, lemma_lookup_empty};

        lemma_keys();
    }

    /// An object with the discriminator `longSum` is read as that variant.
    proof fn lemma_parse_long_sum(j: JsonValue)
        requires
            j is Object,
            text_field(j->Object_0, "type"@) == Ok::<Seq<char>, Failure>("longSum"@),
        ensures
            Self::parse(j) == Self::parse_long_sum(j->Object_0),
    {
        lemma_tags();
    }

    /// The members that are written for the variant `doubleSum` are read
    /// back as the value, given that its parts are read back from their
    /// wire forms.
    proof fn lemma_members_double_sum(j: JsonValue, name: Seq<char>, field_name: Seq<char>)
        requires
            j == JsonValue::Object(
                Seq::empty()
                    .push(member("type"@, text("doubleSum"@)))
                    .push(member("name"@, text(name)))
                    .push(member("fieldName"@, text(field_name))),
            ),
        ensures
            j is Object,
            Self::parse_double_sum(j->Object_0) == Ok::<AggregationView, Failure>(
                AggregationView::DoubleSum { name, field_name },
            ),
            text_field(j->Object_0, "type"@) == Ok::<Seq<char>, Failure>("doubleSum"@),
    {
        broadcast use {lemma_lookup_push, lemma_lookup_empty};

        lemma_keys();
    }

    /// An object with the discriminator `doubleSum` is read as that variant.
    proof fn lemma_parse_double_sum(j: JsonValue)
        requires
            j is Object,
            text_field(j->Object_0, "type"@) == Ok::<Seq<char>, Failure>("doubleSum"@),
        ensures
            Self::parse(j) == Self::parse_double_sum(j->Object_0),
    {
        lemma_tags();
    }

    /// The members that are written for the variant `floatSum` are read
    /// back as the value, given that its parts are read back from their
    /// wire forms.
    proof fn lemma_members_float_sum(j: JsonValue, name: Seq<char>, field_name: Seq<char>)
        requires
            j == JsonValue::Object(
                Seq::empty()
                    .push(member("type"@, text("floatSum"@)))
                    .push(member("name"@, text(name)))
                    .push(member("fieldName"@, text(field_name))),
            ),
        ensures
            j is Object,
            Self::parse_float_sum(j->Object_0) == Ok::<AggregationView, Failure>(
                AggregationView::FloatSum { name, field_name },
            ),
            text_field(j->Object_0, "type"@) == Ok::<Seq<char>, Failure>("floatSum"@),
    {
        broadcast use {lemma_lookup_push, lemma_lookup_empty};

        lemma_keys();
    }

    /// An object with the discriminator `floatSum` is read as that variant.
    proof fn lemma_parse_float_sum(j: JsonValue)
        requires
            j is Object,
            text_field(j->Object_0, "type"@) == Ok::<Seq<char>, Failure>("floatSum"@),
        ensures
            Self::parse(j) == Self::parse_float_sum(j->Object_0),
    {
        lemma_tags();
    }

    /// The members that are written for the variant `longMax` are read
    /// back as the value, given that its parts are read back from their
    /// wire forms.
    proof fn lemma_members_long_max(j: JsonValue, name: Seq<char>, field_name: Seq<char>)
        requires
            j == JsonValue::Object(
                Seq::empty()
                    .push(member("type"@, text("longMax"@)))
                    .push(member("name"@, text(name)))
                    .push(member("fieldName"@, text(field_name))),
            ),
        ensures
            j is Object,
            Self::parse_long_max(j->Object_0) == Ok::<AggregationView, Failure>(
                AggregationView::LongMax { name, field_name },
            ),
            text_field(j->Object_0, "type"@) == Ok::<Seq<char>, Failure>("longMax"@),
    {
        broadcast use {lemma_lookup_push, lemma_lookup_empty};

        lemma_keys();
    }

    /// An object with the discriminator `longMax` is read as that variant.
    proof fn lemma_parse_long_max(j: JsonValue)
        requires
            j is Object,
            text_field(j->Object_0, "type"@) == Ok::<Seq<char>, Failure>("longMax"@),
        ensures
            Self::parse(j) == Self::parse_long_max(j->Object_0),
    {
        lemma_tags();
    }

    /// The members that are written for the variant `doubleMax` are read
    /// back as the value, given that its parts are read back from their
    /// wire forms.
    proof fn lemma_members_double_max(j: JsonValue, name: Seq<char>, field_name: Seq<char>)
        requires
            j == JsonValue::Object(
                Seq::empty()
                    .push(member("type"@, text("doubleMax"@)))
                    .push(member("name"@, text(name)))
                    .push(member("fieldName"@, text(field_name))),
            ),
        ensures
            j is Object,
            Self::parse_double_max(j->Object_0) == Ok::<AggregationView, Failure>(
                AggregationView::DoubleMax { name, field_name },
            ),
            text_field(j->Object_0, "type"@) == Ok::<Seq<char>, Failure>("doubleMax"@),
    {
        broadcast use {lemma_lookup_push, lemma_lookup_empty};

        lemma_keys();
    }

    /// An object with the discriminator `doubleMax` is read as that variant.
    proof fn lemma_parse_double_max(j: JsonValue)
        requires
            j is Object,
            text_field(j->Object_0, "type"@) == Ok::<Seq<char>, Failure>("doubleMax"@),
        ensures
            Self::parse(j) == Self::parse_double_max(j->Object_0),
    {
        lemma_tags();
    }

    /// The members that are written for the variant `floatMax` are read
    /// back as the value, given that its parts are read back from their
    /// wire forms.
    proof fn lemma_members_float_max(j: JsonValue, name: Seq<char>, field_name: Seq<char>)
        requires
            j == JsonValue::Object(
                Seq::empty()
                    .push(member("type"@, text("floatMax"@)))
                    .push(member("name"@, text(name)))
                    .push(member("fieldName"@, text(field_name))),
            ),
        ensures
            j is Object,
            Self::parse_float_max(j->Object_0) == Ok::<AggregationView, Failure>(
                AggregationView::FloatMax { name, field_name },
            ),
            text_field(j->Object_0, "type"@) == Ok::<Seq<char>, Failure>("floatMax"@),
    {
        broadcast use {lemma_lookup_push, lemma_lookup_empty};

        lemma_keys();
    }

    /// An object with the discriminator `floatMax` is read as that variant.
    proof fn lemma_parse_float_max(j: JsonValue)
        requires
            j is Object,
            text_field(j->Object_0, "type"@) == Ok::<Seq<char>, Failure>("floatMax"@),
        ensures
            Self::parse(j) == Self::parse_float_max(j->Object_0),
    {
        lemma_tags();
    }

    /// The members that are written for the variant `longMin` are read
    /// back as the value, given that its parts are read back from their
    /// wire forms.
    proof fn lemma_members_long_min(j: JsonValue, name: Seq<char>, field_name: Seq<char>)
        requires
            j == JsonValue::Object(
                Seq::empty()
                    .push(member("type"@, text("longMin"@)))
                    .push(member("name"@, text(name)))
                    .push(member("fieldName"@, text(field_name))),
            ),
        ensures
            j is Object,
            Self::parse_long_min(j->Object_0) == Ok::<AggregationView, Failure>(
                AggregationView::LongMin { name, field_name },
            ),
            text_field(j->Object_0, "type"@) == Ok::<Seq<char>, Failure>("longMin"@),
    {
        broadcast use {lemma_lookup_push, lemma_lookup_empty};

        lemma_keys();
    }

    /// An object with the discriminator `longMin` is read as that variant.
    proof fn lemma_parse_long_min(j: JsonValue)
        requires
            j is Object,
            text_field(j->Object_0, "type"@) == Ok::<Seq<char>, Failure>("longMin"@),
        ensures
            Self::parse(j) == Self::parse_long_min(j->Object_0),
    {
        lemma_tags();
    }

    /// The members that are written for the variant `floatMin` are read
    /// back as the value, given that its parts are read back from their
    /// wire forms.
    proof fn lemma_members_float_min(j: JsonValue, name: Seq<char>, field_name: Seq<char>)
        requires
            j == JsonValue::Object(
                Seq::empty()
                    .push(member("type"@, text("floatMin"@)))
                    .push(member("name"@, text(name)))
                    .push(member("fieldName"@, text(field_name))),
            ),
        ensures
            j is Object,
            Self::parse_float_min(j->Object_0) == Ok::<AggregationView, Failure>(
                AggregationView::FloatMin { name, field_name },
            ),
            text_field(j->Object_0, "type"@) == Ok::<Seq<char>, Failure>("floatMin"@),
    {
        broadcast use {lemma_lookup_push, lemma_lookup_empty};

        lemma_keys();
    }

    /// An object with the discriminator `floatMin` is read as that variant.
    proof fn lemma_parse_float_min(j: JsonValue)
        requires
            j is Object,
            text_field(j->Object_0, "type"@) == Ok::<Seq<char>, Failure>("floatMin"@),
        ensures
            Self::parse(j) == Self::parse_float_min(j->Object_0),
    {
        lemma_tags();
    }

    /// The members that are written for the variant `doubleMin` are read
    /// back as the value, given that its parts are read back from their
    /// wire forms.
    proof fn lemma_members_double_min(j: JsonValue, name: Seq<char>, field_name: Seq<char>)
        requires
            j == JsonValue::Object(
                Seq::empty()
                    .push(member("type"@, text("doubleMin"@)))
                    .push(member("name"@, text(name)))
                    .push(member("fieldName"@, text(field_name))),
            ),
        ensures
            j is Object,
            Self::parse_double_min(j->Object_0) == Ok::<AggregationView, Failure>(
                AggregationView::DoubleMin { name, field_name },
            ),
            text_field(j->Object_0, "type"@) == Ok::<Seq<char>, Failure>("doubleMin"@),
    {
        broadcast use {lemma_lookup_push, lemma_lookup_empty};

        lemma_keys();
    }

    /// An object with the discriminator `doubleMin` is read as that variant.
    proof fn lemma_parse_double_min(j: JsonValue)
        requires
            j is Object,
            text_field(j->Object_0, "type"@) == Ok::<Seq<char>, Failure>("doubleMin"@),
        ensures
            Self::parse(j) == Self::parse_double_min(j->Object_0),
    {
        lemma_tags();
    }

    /// The members that are written for the variant `longFirst` are read
    /// back as the value, given that its parts are read back from their
    /// wire forms.
    proof fn lemma_members_long_first(j: JsonValue, name: Seq<char>, field_name: Seq<char>)
        requires
            j == JsonValue::Object(
                Seq::empty()
                    .push(member("type"@, text("longFirst"@)))
                    .push(member("name"@, text(name)))
                    .push(member("fieldName"@, text(field_name))),
            ),
        ensures
            j is Object,
            Self::parse_long_first(j->Object_0) == Ok::<AggregationView, Failure>(
                AggregationView::LongFirst { name, field_name },
            ),
            text_field(j->Object_0, "type"@) == Ok::<Seq<char>, Failure>("longFirst"@),
    {
        broadcast use {lemma_lookup_push, lemma_lookup_empty};

        lemma_keys();
    }

    /// An object with the discriminator `longFirst` is read as that variant.
    proof fn lemma_parse_long_first(j: JsonValue)
        requires
            j is Object,
            text_field(j->Object_0, "type"@) == Ok::<Seq<char>, Failure>("longFirst"@),
        ensures
            Self::parse(j) == Self::parse_long_first(j->Object_0),
    {
        lemma_tags();
    }

    /// The members that are written for the variant `floatFirst` are read
    /// back as the value, given that its parts are read back from their
    /// wire forms.
    proof fn lemma_members_float_first(j: JsonValue, name: Seq<char>, field_name: Seq<char>)
        requires
            j == JsonValue::Object(
                Seq::empty()
                    .push(member("type"@, text("floatFirst"@)))
                    .push(member("name"@, text(name)))
                    .push(member("fieldName"@, text(field_name))),
            ),
        ensures
            j is Object,
            Self::parse_float_first(j->Object_0) == Ok::<AggregationView, Failure>(
                AggregationView::FloatFirst { name, field_name },
            ),
            text_field(j->Object_0, "type"@) == Ok::<Seq<char>, Failure>("floatFirst"@),
    {
        broadcast use {lemma_lookup_push, lemma_lookup_empty};

        lemma_keys();
    }

    /// An object with the discriminator `floatFirst` is read as that variant.
    proof fn lemma_parse_float_first(j: JsonValue)
        requires
            j is Object,
            text_field(j->Object_0, "type"@) == Ok::<Seq<char>, Failure>("floatFirst"@),
        ensures
            Self::parse(j) == Self::parse_float_first(j->Object_0),
    {
        lemma_tags();
    }

    /// The members that are written for the variant `doubleFirst` are read
    /// back as the value, given that its parts are read back from their
    /// wire forms.
    proof fn lemma_members_double_first(j: JsonValue, name: Seq<char>, field_name: Seq<char>)
        requires
            j == JsonValue::Object(
                Seq::empty()
                    .push(member("type"@, text("doubleFirst"@)))
                    .push(member("name"@, text(name)))
                    .push(member("fieldName"@, text(field_name))),
            ),
        ensures
            j is Object,
            Self::parse_double_first(j->Object_0) == Ok::<AggregationView, Failure>(
                AggregationView::DoubleFirst { name, field_name },
            ),
            text_field(j->Object_0, "type"@) == Ok::<Seq<char>, Failure>("doubleFirst"@),
    {
        broadcast use {lemma_lookup_push, lemma_lookup_empty};

        lemma_keys();
    }

    /// An object with the discriminator `doubleFirst` is read as that variant.
    proof fn lemma_parse_double_first(j: JsonValue)
        requires
            j is Object,
            text_field(j->Object_0, "type"@) == Ok::<Seq<char>, Failure>("doubleFirst"@),
        ensures
            Self::parse(j) == Self::parse_double_first(j->Object_0),
    {
        lemma_tags();
    }

    /// The members that are written for the variant `longLast` are read
    /// back as the value, given that its parts are read back from their
    /// wire forms.
    proof fn lemma_members_long_last(j: JsonValue, name: Seq<char>, field_name: Seq<char>)
        requires
            j == JsonValue::Object(
                Seq::empty()
                    .push(member("type"@, text("longLast"@)))
                    .push(member("name"@, text(name)))
                    .push(member("fieldName"@, text(field_name))),
            ),
        ensures
            j is Object,
            Self::parse_long_last(j->Object_0) == Ok::<AggregationView, Failure>(
                AggregationView::LongLast { name, field_name },
            ),
            text_field(j->Object_0, "type"@) == Ok::<Seq<char>, Failure>("longLast"@),
    {
        broadcast use {lemma_lookup_push, lemma_lookup_empty};

        lemma_keys();
    }

    /// An object with the discriminator `longLast` is read as that variant.
    proof fn lemma_parse_long_last(j: JsonValue)
        requires
            j is Object,
            text_field(j->Object_0, "type"@) == Ok::<Seq<char>, Failure>("longLast"@),
        ensures
            Self::parse(j) == Self::parse_long_last(j->Object_0),
    {
        lemma_tags();
    }

    /// The members that are written for the variant `floatLast` are read
    /// back as the value, given that its parts are read back from their
    /// wire forms.
    proof fn lemma_members_float_last(j: JsonValue, name: Seq<char>, field_name: Seq<char>)
        requires
            j == JsonValue::Object(
                Seq::empty()
                    .push(member("type"@, text("floatLast"@)))
                    .push(member("name"@, text(name)))
                    .push(member("fieldName"@, text(field_name))),
            ),
        ensures
            j is Object,
            Self::parse_float_last(j->Object_0) == Ok::<AggregationView, Failure>(
                AggregationView::FloatLast { name, field_name },
            ),
            text_field(j->Object_0, "type"@) == Ok::<Seq<char>, Failure>("floatLast"@),
    {
        broadcast use {lemma_lookup_push, lemma_lookup_empty};

        lemma_keys();
    }

    /// An object with the discriminator `floatLast` is read as that variant.
    proof fn lemma_parse_float_last(j: JsonValue)
        requires
            j is Object,
            text_field(j->Object_0, "type"@) == Ok::<Seq<char>, Failure>("floatLast"@),
        ensures
            Self::parse(j) == Self::parse_float_last(j->Object_0),
    {
        lemma_tags();
    }

    /// The members that are written for the variant `doubleLast` are read
    /// back as the value, given that its parts are read back from their
    /// wire forms.
    proof fn lemma_members_double_last(j: JsonValue, name: Seq<char>, field_name: Seq<char>)
        requires
            j == JsonValue::Object(
                Seq::empty()
                    .push(member("type"@, text("doubleLast"@)))
                    .push(member("name"@, text(name)))
                    .push(member("fieldName"@, text(field_name))),
            ),
        ensures
            j is Object,
            Self::parse_double_last(j->Object_0) == Ok::<AggregationView, Failure>(
                AggregationView::DoubleLast { name, field_name },
            ),
            text_field(j->Object_0, "type"@) == Ok::<Seq<char>, Failure>("doubleLast"@),
    {
        broadcast use {lemma_lookup_push, lemma_lookup_empty};

        lemma_keys();
    }

    /// An object with the discriminator `doubleLast` is read as that variant.
    proof fn lemma_parse_double_last(j: JsonValue)
        requires
            j is Object,
            text_field(j->Object_0, "type"@) == Ok::<Seq<char>, Failure>("doubleLast"@),
        ensures
            Self::parse(j) == Self::parse_double_last(j->Object_0),
    {
        lemma_tags();
    }

    /// The members that are written for the variant `stringFirst` are read
    /// back as the value, given that its parts are read back from their
    /// wire forms.
    proof fn lemma_members_string_first(
        j: JsonValue,
        name: Seq<char>,
        field_name: Seq<char>,
        max_string_bytes: usize,
    )
        requires
            j == JsonValue::Object(
                Seq::empty()
                    .push(member("type"@, text("stringFirst"@)))
                    .push(member("name"@, text(name)))
                    .push(member("fieldName"@, text(field_name)))
                    .push(member("maxStringBytes"@, count(max_string_bytes))),
            ),
        ensures
            j is Object,
            Self::parse_string_first(j->Object_0) == Ok::<AggregationView, Failure>(
                AggregationView::StringFirst { name, field_name, max_string_bytes },
            ),
            text_field(j->Object_0, "type"@) == Ok::<Seq<char>, Failure>("stringFirst"@),
    {
        broadcast use {lemma_lookup_push, lemma_lookup_empty};

        lemma_keys();
    }

    /// An object with the discriminator `stringFirst` is read as that variant.
    proof fn lemma_parse_string_first(j: JsonValue)
        requires
            j is Object,
            text_field(j->Object_0, "type"@) == Ok::<Seq<char>, Failure>("stringFirst"@),
        ensures
            Self::parse(j) == Self::parse_string_first(j->Object_0),
    {
        lemma_tags();
    }

    /// The members that are written for the variant `stringLast` are read
    /// back as the value, given that its parts are read back from their
    /// wire forms.
    proof fn lemma_members_string_last(
        j: JsonValue,
        name: Seq<char>,
        field_name: Seq<char>,
        max_string_bytes: usize,
    )
        requires
            j == JsonValue::Object(
                Seq::empty()
                    .push(member("type"@, text("stringLast"@)))
                    .push(member("name"@, text(name)))
                    .push(member("fieldName"@, text(field_name)))
                    .push(member("maxStringBytes"@, count(max_string_bytes))),
            ),
        ensures
            j is Object,
            Self::parse_string_last(j->Object_0) == Ok::<AggregationView, Failure>(
                AggregationView::StringLast { name, field_name, max_string_bytes },
            ),
            text_field(j->Object_0, "type"@) == Ok::<Seq<char>, Failure>("stringLast"@),
    {
        broadcast use {lemma_lookup_push, lemma_lookup_empty};

        lemma_keys();
    }

    /// An object with the discriminator `stringLast` is read as that variant.
    proof fn lemma_parse_string_last(j: JsonValue)
        requires
            j is Object,
            text_field(j->Object_0, "type"@) == Ok::<Seq<char>, Failure>("stringLast"@),
        ensures
            Self::parse(j) == Self::parse_string_last(j->Object_0),
    {
        lemma_tags();
    }

    /// The members that are written for the variant `doubleAny` are read
    /// back as the value, given that its parts are read back from their
    /// wire forms.
    proof fn lemma_members_double_any(j: JsonValue, name: Seq<char>, field_name: Seq<char>)
        requires
            j == JsonValue::Object(
                Seq::empty()
                    .push(member("type"@, text("doubleAny"@)))
                    .push(member("name"@, text(name)))
                    .push(member("fieldName"@, text(field_name))),
            ),
        ensures
            j is Object,
            Self::parse_double_any(j->Object_0) == Ok::<AggregationView, Failure>(
                AggregationView::DoubleAny { name, field_name },
            ),
            text_field(j->Object_0, "type"@) == Ok::<Seq<char>, Failure>("doubleAny"@),
    {
        broadcast use {lemma_lookup_push, lemma_lookup_empty};

        lemma_keys();
    }

    /// An object with the discriminator `doubleAny` is read as that variant.
    proof fn lemma_parse_double_any(j: JsonValue)
        requires
            j is Object,
            text_field(j->Object_0, "type"@) == Ok::<Seq<char>, Failure>("doubleAny"@),
        ensures
            Self::parse(j) == Self::parse_double_any(j->Object_0),
    {
        lemma_tags();
    }

    /// The members that are written for the variant `floatAny` are read
    /// back as the value, given that its parts are read back from their
    /// wire forms.
    proof fn lemma_members_float_any(j: JsonValue, name: Seq<char>, field_name: Seq<char>)
        requires
            j == JsonValue::Object(
                Seq::empty()
                    .push(member("type"@, text("floatAny"@)))
                    .push(member("name"@, text(name)))
                    .push(member("fieldName"@, text(field_name))),
            ),
        ensures
            j is Object,
            Self::parse_float_any(j->Object_0) == Ok::<AggregationView, Failure>(
                AggregationView::FloatAny { name, field_name },
            ),
            text_field(j->Object_0, "type"@) == Ok::<Seq<char>, Failure>("floatAny"@),
    {
        broadcast use {lemma_lookup_push, lemma_lookup_empty};

        lemma_keys();
    }

    /// An object with the discriminator `floatAny` is read as that variant.
    proof fn lemma_parse_float_any(j: JsonValue)
        requires
            j is Object,
            text_field(j->Object_0, "type"@) == Ok::<Seq<char>, Failure>("floatAny"@),
        ensures
            Self::parse(j) == Self::parse_float_any(j->Object_0),
    {
        lemma_tags();
    }

    /// The members that are written for the variant `longAny` are read
    /// back as the value, given that its parts are read back from their
    /// wire forms.
    proof fn lemma_members_long_any(j: JsonValue, name: Seq<char>, field_name: Seq<char>)
        requires
            j == JsonValue::Object(
                Seq::empty()
                    .push(member("type"@, text("longAny"@)))
                    .push(member("name"@, text(name)))
                    .push(member("fieldName"@, text(field_name))),
            ),
        ensures
            j is Object,
            Self::parse_long_any(j->Object_0) == Ok::<AggregationView, Failure>(
                AggregationView::LongAny { name, field_name },
            ),
            text_field(j->Object_0, "type"@) == Ok::<Seq<char>, Failure>("longAny"@),
    {
        broadcast use {lemma_lookup_push, lemma_lookup_empty};

        lemma_keys();
    }

    /// An object with the discriminator `longAny` is read as that variant.
    proof fn lemma_parse_long_any(j: JsonValue)
        requires
            j is Object,
            text_field(j->Object_0, "type"@) == Ok::<Seq<char>, Failure>("longAny"@),
        ensures
            Self::parse(j) == Self::parse_long_any(j->Object_0),
    {
        lemma_tags();
    }

    /// The members that are written for the variant `stringAny` are read
    /// back as the value, given that its parts are read back from their
    /// wire forms.
    proof fn lemma_members_string_any(j: JsonValue, name: Seq<char>, field_name: Seq<char>)
        requires
            j == JsonValue::Object(
                Seq::empty()
                    .push(member("type"@, text("stringAny"@)))
                    .push(member("name"@, text(name)))
                    .push(member("fieldName"@, text(field_name))),
            ),
        ensures
            j is Object,
            Self::parse_string_any(j->Object_0) == Ok::<AggregationView, Failure>(
                AggregationView::StringAny { name, field_name },
            ),
            text_field(j->Object_0, "type"@) == Ok::<Seq<char>, Failure>("stringAny"@),
    {
        broadcast use {lemma_lookup_push, lemma_lookup_empty};

        lemma_keys();
    }

    /// An object with the discriminator `stringAny` is read as that variant.
    proof fn lemma_parse_string_any(j: JsonValue)
        requires
            j is Object,
            text_field(j->Object_0, "type"@) == Ok::<Seq<char>, Failure>("stringAny"@),
        ensures
            Self::parse(j) == Self::parse_string_any(j->Object_0),
    {
        lemma_tags();
    }

    /// The members that are written for the variant `javascript` are read
    /// back as the value, given that its parts are read back from their
    /// wire forms.
    proof fn lemma_members_javascript(
        j: JsonValue,
        name: Seq<char>,
        field_names: Seq<Seq<char>>,
        fn_aggregate: Seq<char>,
        fn_combine: Seq<char>,
        fn_reset: Seq<char>,
    )
        requires
            j == JsonValue::Object(
                Seq::empty()
                    .push(member("type"@, text("javascript"@)))
                    .push(member("name"@, text(name)))
                    .push(member("fieldNames"@, texts(field_names)))
                    .push(member("fnAggregate"@, text(fn_aggregate)))
                    .push(member("fnCombine"@, text(fn_combine)))
                    .push(member("fnReset"@, text(fn_reset))),
            ),
        ensures
            j is Object,
            Self::parse_javascript(j->Object_0) == Ok::<AggregationView, Failure>(
                AggregationView::Javascript {
                    name,
                    field_names,
                    fn_aggregate,
                    fn_combine,
                    fn_reset,
                },
            ),
            text_field(j->Object_0, "type"@) == Ok::<Seq<char>, Failure>("javascript"@),
    {
        broadcast use {lemma_lookup_push, lemma_lookup_empty};

        lemma_keys();
        lemma_texts_round_trip(field_names);
    }

    /// An object with the discriminator `javascript` is read as that variant.
    proof fn lemma_parse_javascript(j: JsonValue)
        requires
            j is Object,
            text_field(j->Object_0, "type"@) == Ok::<Seq<char>, Failure>("javascript"@),
        ensures
            Self::parse(j) == Self::parse_javascript(j->Object_0),
    {
        lemma_tags();
    }

    /// The members that are written for the variant `thetaSketch` are read
    /// back as the value, given that its parts are read back from their
    /// wire forms.
    proof fn lemma_members_theta_sketch(
        j: JsonValue,
        name: Seq<char>,
        field_name: Seq<char>,
        is_input_theta_sketch: bool,
        size: usize,
    )
        requires
            j == JsonValue::Object(
                Seq::empty()
                    .push(member("type"@, text("thetaSketch"@)))
                    .push(member("name"@, text(name)))
                    .push(member("fieldName"@, text(field_name)))
                    .push(member("isInputThetaSketch"@, flag(is_input_theta_sketch)))
                    .push(member("size"@, count(size))),
            ),
        ensures
            j is Object,
            Self::parse_theta_sketch(j->Object_0) == Ok::<AggregationView, Failure>(
                AggregationView::ThetaSketch { name, field_name, is_input_theta_sketch, size },
            ),
            text_field(j->Object_0, "type"@) == Ok::<Seq<char>, Failure>("thetaSketch"@),
    {
        broadcast use {lemma_lookup_push, lemma_lookup_empty};

        lemma_keys();
    }

    /// An object with the discriminator `thetaSketch` is read as that variant.
    proof fn lemma_parse_theta_sketch(j: JsonValue)
        requires
            j is Object,
            text_field(j->Object_0, "type"@) == Ok::<Seq<char>, Failure>("thetaSketch"@),
        ensures
            Self::parse(j) == Self::parse_theta_sketch(j->Object_0),
    {
        lemma_tags();
    }

    /// The members that are written for the variant `hLLSketchBuild` are read
    /// back as the value, given that its parts are read back from their
    /// wire forms.
    proof fn lemma_members_h_l_l_sketch_build(
        j: JsonValue,
        name: Seq<char>,
        field_name: Seq<char>,
        lg_k: usize,
        lgt_hll_type: HllType,
        round: bool,
    )
        requires
            j == JsonValue::Object(
                Seq::empty()
                    .push(member("type"@, text("hLLSketchBuild"@)))
                    .push(member("name"@, text(name)))
                    .push(member("fieldName"@, text(field_name)))
                    .push(member("lgK"@, count(lg_k)))
                    .push(member("lgtHllType"@, lgt_hll_type.wire()))
                    .push(member("round"@, flag(round))),
            ),
        ensures
            j is Object,
            Self::parse_h_l_l_sketch_build(j->Object_0) == Ok::<AggregationView, Failure>(
                AggregationView::HLLSketchBuild { name, field_name, lg_k, lgt_hll_type, round },
            ),
            text_field(j->Object_0, "type"@) == Ok::<Seq<char>, Failure>("hLLSketchBuild"@),
    {
        broadcast use {lemma_lookup_push, lemma_lookup_empty};

        lemma_keys();
        lgt_hll_type.lemma_round_trip();
    }

    /// An object with the discriminator `hLLSketchBuild` is read as that variant.
    proof fn lemma_parse_h_l_l_sketch_build(j: JsonValue)
        requires
            j is Object,
            text_field(j->Object_0, "type"@) == Ok::<Seq<char>, Failure>("hLLSketchBuild"@),
        ensures
            Self::parse(j) == Self::parse_h_l_l_sketch_build(j->Object_0),
    {
        lemma_tags();
    }

    /// The members that are written for the variant `cardinality` are read
    /// back as the value, given that its parts are read back from their
    /// wire forms.
    proof fn lemma_members_cardinality(
        j: JsonValue,
        name: Seq<char>,
        fields: Seq<Seq<char>>,
        by_row: bool,
        round: bool,
    )
        requires
            j == JsonValue::Object(
                Seq::empty()
                    .push(member("type"@, text("cardinality"@)))
                    .push(member("name"@, text(name)))
                    .push(member("fields"@, texts(fields)))
                    .push(member("byRow"@, flag(by_row)))
                    .push(member("round"@, flag(round))),
            ),
        ensures
            j is Object,
            Self::parse_cardinality(j->Object_0) == Ok::<AggregationView, Failure>(
                AggregationView::Cardinality { name, fields, by_row, round },
            ),
            text_field(j->Object_0, "type"@) == Ok::<Seq<char>, Failure>("cardinality"@),
    {
        broadcast use {lemma_lookup_push, lemma_lookup_empty};

        lemma_keys();
        lemma_texts_round_trip(fields);
    }

    /// An object with the discriminator `cardinality` is read as that variant.
    proof fn lemma_parse_cardinality(j: JsonValue)
        requires
            j is Object,
            text_field(j->Object_0, "type"@) == Ok::<Seq<char>, Failure>("cardinality"@),
        ensures
            Self::parse(j) == Self::parse_cardinality(j->Object_0),
    {
        lemma_tags();
    }

    /// The members that are written for the variant `hyperUnique` are read
    /// back as the value, given that its parts are read back from their
    /// wire forms.
    proof fn lemma_members_hyper_unique(
        j: JsonValue,
        name: Seq<char>,
        field_name: Seq<char>,
        is_input_hyper_unique: bool,
        round: bool,
    )
        requires
            j == JsonValue::Object(
                Seq::empty()
                    .push(member("type"@, text("hyperUnique"@)))
                    .push(member("name"@, text(name)))
                    .push(member("fieldName"@, text(field_name)))
                    .push(member("isInputHyperUnique"@, flag(is_input_hyper_unique)))
                    .push(member("round"@, flag(round))),
            ),
        ensures
            j is Object,
            Self::parse_hyper_unique(j->Object_0) == Ok::<AggregationView, Failure>(
                AggregationView::HyperUnique { name, field_name, is_input_hyper_unique, round },
            ),
            text_field(j->Object_0, "type"@) == Ok::<Seq<char>, Failure>("hyperUnique"@),
    {
        broadcast use {lemma_lookup_push, lemma_lookup_empty};

        lemma_keys();
    }

    /// An object with the discriminator `hyperUnique` is read as that variant.
    proof fn lemma_parse_hyper_unique(j: JsonValue)
        requires
            j is Object,
            text_field(j->Object_0, "type"@) == Ok::<Seq<char>, Failure>("hyperUnique"@),
        ensures
            Self::parse(j) == Self::parse_hyper_unique(j->Object_0),
    {
        lemma_tags();
    }

    /// The members that are written for the variant `filtered` are read
    /// back as the value, given that its parts are read back from their
    /// wire forms.
    proof fn lemma_members_filtered(
        j: JsonValue,
        filter: FilterView,
        filter_wire: JsonValue,
        aggregator: AggregationView,
        aggregator_wire: JsonValue,
    )
        requires
            j == JsonValue::Object(
                Seq::empty()
                    .push(member("type"@, text("filtered"@)))
                    .push(member("filter"@, filter_wire))
                    .push(member("aggregator"@, aggregator_wire)),
            ),
            FilterView::parse(filter_wire) == Ok::<FilterView, Failure>(filter),
            AggregationView::parse(aggregator_wire) == Ok::<AggregationView, Failure>(aggregator),
        ensures
            j is Object,
            Self::parse_filtered(j->Object_0) == Ok::<AggregationView, Failure>(
                AggregationView::Filtered { filter, aggregator: Box::new(aggregator) },
            ),
            text_field(j->Object_0, "type"@) == Ok::<Seq<char>, Failure>("filtered"@),
    {
        broadcast use {lemma_lookup_push, lemma_lookup_empty};

        lemma_keys();
    }

    /// An object with the discriminator `filtered` is read as that variant.
    proof fn lemma_parse_filtered(j: JsonValue)
        requires
            j is Object,
            text_field(j->Object_0, "type"@) == Ok::<Seq<char>, Failure>("filtered"@),
        ensures
            Self::parse(j) == Self::parse_filtered(j->Object_0),
    {
        lemma_tags();
    }

    /// Reading back a list that was written gives the list again, if
    /// each element is read back as it is.
    pub proof fn lemma_list_round_trip(list: Seq<AggregationView>)
        requires
            Self::all_read_back(list),
        ensures
            Self::parse_list(Self::wire_list(list)) == Ok::<Seq<AggregationView>, Failure>(list),
        decreases list,
    {
        let items = Self::wire_list(list);
        let read = |j: JsonValue| Self::parse(j);
        assert forall|i: int| 0 <= i < items.len() implies (#[trigger] read(items[i]))
            == Ok::<AggregationView, Failure>(list[i]) by {
            assert(list[i].reads_back());
            list[i].lemma_round_trip();
        }
        lemma_read_all_accepted(items, read, list);
        Self::lemma_parse_list(items);
    }

    /// What is written for a variant carries its discriminator.
    pub proof fn lemma_tag(self)
        ensures
            self.wire() is Object,
            text_field(self.wire()->Object_0, "type"@) == Ok::<Seq<char>, Failure>(self.tag()),
            Self::known_tag(self.tag()),
    {
        broadcast use {lemma_lookup_push, lemma_lookup_empty};

        lemma_keys();
    }

    /// An object whose discriminator stands for no variant of the
    /// family is refused as an unknown variant; it is read as none.
    pub proof fn lemma_unknown_tag(j: JsonValue)
        requires
            j is Object,
            text_field(j->Object_0, "type"@) is Ok,
            !Self::known_tag(text_field(j->Object_0, "type"@)->Ok_0),
        ensures
            Self::parse(j) == Err::<AggregationView, Failure>(
                Failure::here(DecodeCause::UnknownVariant).within_key("type"@),
            ),
    {
    }

}

impl Aggregation {
    pub fn count(name: &str) -> (out: Aggregation)
        ensures
            out@ == (AggregationView::Count { name: name@ }),
    {
        Aggregation::Count { name: name.to_string() }
    }

    pub fn long_sum(name: &str, field_name: &str) -> (out: Aggregation)
        ensures
            out@ == (AggregationView::LongSum { name: name@, field_name: field_name@ }),
    {
        Aggregation::LongSum { name: name.to_string(), field_name: field_name.to_string() }
    }

    pub fn double_sum(name: &str, field_name: &str) -> (out: Aggregation)
        ensures
            out@ == (AggregationView::DoubleSum { name: name@, field_name: field_name@ }),
    {
        Aggregation::DoubleSum { name: name.to_string(), field_name: field_name.to_string() }
    }

    pub fn float_sum(name: &str, field_name: &str) -> (out: Aggregation)
        ensures
            out@ == (AggregationView::FloatSum { name: name@, field_name: field_name@ }),
    {
        Aggregation::FloatSum { name: name.to_string(), field_name: field_name.to_string() }
    }

    pub fn long_max(name: &str, field_name: &str) -> (out: Aggregation)
        ensures
            out@ == (AggregationView::LongMax { name: name@, field_name: field_name@ }),
    {
        Aggregation::LongMax { name: name.to_string(), field_name: field_name.to_string() }
    }

    pub fn double_max(name: &str, field_name: &&str) -> (out: Aggregation)
        ensures
            out@ == (AggregationView::DoubleMax { name: name@, field_name: (*field_name)@ }),
    {
        Aggregation::DoubleMax { name: name.to_string(), field_name: (*field_name).to_string() }
    }

    pub fn float_max(name: &str, field_name: &str) -> (out: Aggregation)
        ensures
            out@ == (AggregationView::FloatMax { name: name@, field_name: field_name@ }),
    {
        Aggregation::FloatMax { name: name.to_string(), field_name: field_name.to_string() }
    }

    pub fn long_min(name: &str, field_name: &str) -> (out: Aggregation)
        ensures
            out@ == (AggregationView::LongMin { name: name@, field_name: field_name@ }),
    {
        Aggregation::LongMin { name: name.to_string(), field_name: field_name.to_string() }
    }

    pub fn float_min(name: &str, field_name: &str) -> (out: Aggregation)
        ensures
            out@ == (AggregationView::FloatMin { name: name@, field_name: field_name@ }),
    {
        Aggregation::FloatMin { name: name.to_string(), field_name: field_name.to_string() }
    }

    pub fn double_min(name: &str, field_name: &str) -> (out: Aggregation)
        ensures
            out@ == (AggregationView::DoubleMin { name: name@, field_name: field_name@ }),
    {
        Aggregation::DoubleMin { name: name.to_string(), field_name: field_name.to_string() }
    }

    pub fn long_first(name: &str, field_name: &str) -> (out: Aggregation)
        ensures
            out@ == (AggregationView::LongFirst { name: name@, field_name: field_name@ }),
    {
        Aggregation::LongFirst { name: name.to_string(), field_name: field_name.to_string() }
    }

    pub fn float_first(name: &str, field_name: &str) -> (out: Aggregation)
        ensures
            out@ == (AggregationView::FloatFirst { name: name@, field_name: field_name@ }),
    {
        Aggregation::FloatFirst { name: name.to_string(), field_name: field_name.to_string() }
    }

    pub fn double_first(name: &str, field_name: &str) -> (out: Aggregation)
        ensures
            out@ == (AggregationView::DoubleFirst { name: name@, field_name: field_name@ }),
    {
        Aggregation::DoubleFirst { name: name.to_string(), field_name: field_name.to_string() }
    }

    pub fn long_last(name: &str, field_name: &str) -> (out: Aggregation)
        ensures
            out@ == (AggregationView::LongLast { name: name@, field_name: field_name@ }),
    {
        Aggregation::LongLast { name: name.to_string(), field_name: field_name.to_string() }
    }

    pub fn float_last(name: &str, field_name: &str) -> (out: Aggregation)
        ensures
            out@ == (AggregationView::FloatLast { name: name@, field_name: field_name@ }),
    {
        Aggregation::FloatLast { name: name.to_string(), field_name: field_name.to_string() }
    }

    pub fn double_last(name: &str, field_name: &str) -> (out: Aggregation)
        ensures
            out@ == (AggregationView::DoubleLast { name: name@, field_name: field_name@ }),
    {
        Aggregation::DoubleLast { name: name.to_string(), field_name: field_name.to_string() }
    }

    pub fn string_first(name: &str, field_name: &str, max_string_bytes: usize) -> (out: Aggregation)
        ensures
            out@ == (
                AggregationView::StringFirst {
                    name: name@,
                    field_name: field_name@,
                    max_string_bytes,
                }
            ),
    {
        Aggregation::StringFirst {
            name: name.to_string(),
            field_name: field_name.to_string(),
            max_string_bytes,
        }
    }

    pub fn string_last(name: &str, field_name: &str, max_string_bytes: usize) -> (out: Aggregation)
        ensures
            out@ == (
                AggregationView::StringLast {
                    name: name@,
                    field_name: field_name@,
                    max_string_bytes,
                }
            ),
    {
        Aggregation::StringLast {
            name: name.to_string(),
            field_name: field_name.to_string(),
            max_string_bytes,
        }
    }

    /// Writes the value in its wire form. It is read back as it is.
    pub fn encode(&self) -> (j: Json)
        ensures
            j@ == self@.wire(),
            self@.reads_back(),
            AggregationView::parse(j@) == Ok::<AggregationView, Failure>(self@),
        decreases self,
    {
        let mut m = no_members();
        match self {
            Aggregation::Count { name } => {
                put(&mut m, "type", text_json("count"));
                put(&mut m, "name", text_json(name.as_str()));
            },
            Aggregation::LongSum { name, field_name } => {
                put(&mut m, "type", text_json("longSum"));
                put(&mut m, "name", text_json(name.as_str()));
                put(&mut m, "fieldName", text_json(field_name.as_str()));
            },
            Aggregation::DoubleSum { name, field_name } => {
                put(&mut m, "type", text_json("doubleSum"));
                put(&mut m, "name", text_json(name.as_str()));
                put(&mut m, "fieldName", text_json(field_name.as_str()));
            },
            Aggregation::FloatSum { name, field_name } => {
                put(&mut m, "type", text_json("floatSum"));
                put(&mut m, "name", text_json(name.as_str()));
                put(&mut m, "fieldName", text_json(field_name.as_str()));
            },
            Aggregation::LongMax { name, field_name } => {
                put(&mut m, "type", text_json("longMax"));
                put(&mut m, "name", text_json(name.as_str()));
                put(&mut m, "fieldName", text_json(field_name.as_str()));
            },
            Aggregation::DoubleMax { name, field_name } => {
                put(&mut m, "type", text_json("doubleMax"));
                put(&mut m, "name", text_json(name.as_str()));
                put(&mut m, "fieldName", text_json(field_name.as_str()));
            },
            Aggregation::FloatMax { name, field_name } => {
                put(&mut m, "type", text_json("floatMax"));
                put(&mut m, "name", text_json(name.as_str()));
                put(&mut m, "fieldName", text_json(field_name.as_str()));
            },
            Aggregation::LongMin { name, field_name } => {
                put(&mut m, "type", text_json("longMin"));
                put(&mut m, "name", text_json(name.as_str()));
                put(&mut m, "fieldName", text_json(field_name.as_str()));
            },
            Aggregation::FloatMin { name, field_name } => {
                put(&mut m, "type", text_json("floatMin"));
                put(&mut m, "name", text_json(name.as_str()));
                put(&mut m, "fieldName", text_json(field_name.as_str()));
            },
            Aggregation::DoubleMin { name, field_name } => {
                put(&mut m, "type", text_json("doubleMin"));
                put(&mut m, "name", text_json(name.as_str()));
                put(&mut m, "fieldName", text_json(field_name.as_str()));
            },
            Aggregation::LongFirst { name, field_name } => {
                put(&mut m, "type", text_json("longFirst"));
                put(&mut m, "name", text_json(name.as_str()));
                put(&mut m, "fieldName", text_json(field_name.as_str()));
            },
            Aggregation::FloatFirst { name, field_name } => {
                put(&mut m, "type", text_json("floatFirst"));
                put(&mut m, "name", text_json(name.as_str()));
                put(&mut m, "fieldName", text_json(field_name.as_str()));
            },
            Aggregation::DoubleFirst { name, field_name } => {
                put(&mut m, "type", text_json("doubleFirst"));
                put(&mut m, "name", text_json(name.as_str()));
                put(&mut m, "fieldName", text_json(field_name.as_str()));
            },
            Aggregation::LongLast { name, field_name } => {
                put(&mut m, "type", text_json("longLast"));
                put(&mut m, "name", text_json(name.as_str()));
                put(&mut m, "fieldName", text_json(field_name.as_str()));
            },
            Aggregation::FloatLast { name, field_name } => {
                put(&mut m, "type", text_json("floatLast"));
                put(&mut m, "name", text_json(name.as_str()));
                put(&mut m, "fieldName", text_json(field_name.as_str()));
            },
            Aggregation::DoubleLast { name, field_name } => {
                put(&mut m, "type", text_json("doubleLast"));
                put(&mut m, "name", text_json(name.as_str()));
                put(&mut m, "fieldName", text_json(field_name.as_str()));
            },
            Aggregation::StringFirst { name, field_name, max_string_bytes } => {
                put(&mut m, "type", text_json("stringFirst"));
                put(&mut m, "name", text_json(name.as_str()));
                put(&mut m, "fieldName", text_json(field_name.as_str()));
                put(&mut m, "maxStringBytes", count_json(*max_string_bytes));
            },
            Aggregation::StringLast { name, field_name, max_string_bytes } => {
                put(&mut m, "type", text_json("stringLast"));
                put(&mut m, "name", text_json(name.as_str()));
                put(&mut m, "fieldName", text_json(field_name.as_str()));
                put(&mut m, "maxStringBytes", count_json(*max_string_bytes));
            },
            Aggregation::DoubleAny { name, field_name } => {
                put(&mut m, "type", text_json("doubleAny"));
                put(&mut m, "name", text_json(name.as_str()));
                put(&mut m, "fieldName", text_json(field_name.as_str()));
            },
            Aggregation::FloatAny { name, field_name } => {
                put(&mut m, "type", text_json("floatAny"));
                put(&mut m, "name", text_json(name.as_str()));
                put(&mut m, "fieldName", text_json(field_name.as_str()));
            },
            Aggregation::LongAny { name, field_name } => {
                put(&mut m, "type", text_json("longAny"));
                put(&mut m, "name", text_json(name.as_str()));
                put(&mut m, "fieldName", text_json(field_name.as_str()));
            },
            Aggregation::StringAny { name, field_name } => {
                put(&mut m, "type", text_json("stringAny"));
                put(&mut m, "name", text_json(name.as_str()));
                put(&mut m, "fieldName", text_json(field_name.as_str()));
            },
            Aggregation::Javascript { name, field_names, fn_aggregate, fn_combine, fn_reset } => {
                put(&mut m, "type", text_json("javascript"));
                put(&mut m, "name", text_json(name.as_str()));
                put(&mut m, "fieldNames", texts_json(field_names));
                put(&mut m, "fnAggregate", text_json(fn_aggregate.as_str()));
                put(&mut m, "fnCombine", text_json(fn_combine.as_str()));
                put(&mut m, "fnReset", text_json(fn_reset.as_str()));
            },
            Aggregation::ThetaSketch { name, field_name, is_input_theta_sketch, size } => {
                put(&mut m, "type", text_json("thetaSketch"));
                put(&mut m, "name", text_json(name.as_str()));
                put(&mut m, "fieldName", text_json(field_name.as_str()));
                put(&mut m, "isInputThetaSketch", flag_json(*is_input_theta_sketch));
                put(&mut m, "size", count_json(*size));
            },
            Aggregation::HLLSketchBuild { name, field_name, lg_k, lgt_hll_type, round } => {
                put(&mut m, "type", text_json("hLLSketchBuild"));
                put(&mut m, "name", text_json(name.as_str()));
                put(&mut m, "fieldName", text_json(field_name.as_str()));
                put(&mut m, "lgK", count_json(*lg_k));
                put(&mut m, "lgtHllType", lgt_hll_type.encode());
                put(&mut m, "round", flag_json(*round));
            },
            Aggregation::Cardinality { name, fields, by_row, round } => {
                put(&mut m, "type", text_json("cardinality"));
                put(&mut m, "name", text_json(name.as_str()));
                put(&mut m, "fields", texts_json(fields));
                put(&mut m, "byRow", flag_json(*by_row));
                put(&mut m, "round", flag_json(*round));
            },
            Aggregation::HyperUnique { name, field_name, is_input_hyper_unique, round } => {
                put(&mut m, "type", text_json("hyperUnique"));
                put(&mut m, "name", text_json(name.as_str()));
                put(&mut m, "fieldName", text_json(field_name.as_str()));
                put(&mut m, "isInputHyperUnique", flag_json(*is_input_hyper_unique));
                put(&mut m, "round", flag_json(*round));
            },
            Aggregation::Filtered { filter, aggregator } => {
                put(&mut m, "type", text_json("filtered"));
                put(&mut m, "filter", filter.encode());
                put(&mut m, "aggregator", aggregator.encode());
            },
        }
        proof {
            self@.lemma_round_trip();
        }
        object_json(m)
    }

    /// Writes each element of a list in its wire form. Each is read
    /// back as it is.
    pub fn encode_list(list: &Vec<Aggregation>) -> (items: Vec<Json>)
        ensures
            items_view(items@) == AggregationView::wire_list(list_view(list@)),
            AggregationView::all_read_back(list_view(list@)),
        decreases list,
    {
        let mut items: Vec<Json> = Vec::new();
        let mut i: usize = 0;
        while i < list.len()
            invariant
                i <= list.len(),
                items.len() == i,
                forall|k: int| 0 <= k < i ==> items[k]@ == list[k]@.wire(),
                forall|k: int| 0 <= k < i ==> (#[trigger] list[k]@).reads_back(),
            decreases list.len() - i,
        {
            items.push(list[i].encode());
            i += 1;
        }
        assert(items_view(items@) =~= AggregationView::wire_list(list_view(list@)));
        assert forall|k: int| 0 <= k < list.len() implies (#[trigger] list_view(list@)[k]).reads_back() by {
            assert(list[k]@.reads_back());
        }
        items
    }

    /// Reads a value from its wire form.
    pub fn decode(j: &Json) -> (r: Result<Aggregation, DecodeError>)
        ensures
            decoded(r) == AggregationView::parse(j@),
        decreases j,
    {
        let m = read_members(j)?;
        let t = text_member(m, "type")?;
        if str_eq(t.as_str(), "count") {
            Self::decode_count(m)
        } else if str_eq(t.as_str(), "longSum") {
            Self::decode_long_sum(m)
        } else if str_eq(t.as_str(), "doubleSum") {
            Self::decode_double_sum(m)
        } else if str_eq(t.as_str(), "floatSum") {
            Self::decode_float_sum(m)
        } else if str_eq(t.as_str(), "longMax") {
            Self::decode_long_max(m)
        } else if str_eq(t.as_str(), "doubleMax") {
            Self::decode_double_max(m)
        } else if str_eq(t.as_str(), "floatMax") {
            Self::decode_float_max(m)
        } else if str_eq(t.as_str(), "longMin") {
            Self::decode_long_min(m)
        } else if str_eq(t.as_str(), "floatMin") {
            Self::decode_float_min(m)
        } else if str_eq(t.as_str(), "doubleMin") {
            Self::decode_double_min(m)
        } else if str_eq(t.as_str(), "longFirst") {
            Self::decode_long_first(m)
        } else if str_eq(t.as_str(), "floatFirst") {
            Self::decode_float_first(m)
        } else if str_eq(t.as_str(), "doubleFirst") {
            Self::decode_double_first(m)
        } else if str_eq(t.as_str(), "longLast") {
            Self::decode_long_last(m)
        } else if str_eq(t.as_str(), "floatLast") {
            Self::decode_float_last(m)
        } else if str_eq(t.as_str(), "doubleLast") {
            Self::decode_double_last(m)
        } else if str_eq(t.as_str(), "stringFirst") {
            Self::decode_string_first(m)
        } else if str_eq(t.as_str(), "stringLast") {
            Self::decode_string_last(m)
        } else if str_eq(t.as_str(), "doubleAny") {
            Self::decode_double_any(m)
        } else if str_eq(t.as_str(), "floatAny") {
            Self::decode_float_any(m)
        } else if str_eq(t.as_str(), "longAny") {
            Self::decode_long_any(m)
        } else if str_eq(t.as_str(), "stringAny") {
            Self::decode_string_any(m)
        } else if str_eq(t.as_str(), "javascript") {
            Self::decode_javascript(m)
        } else if str_eq(t.as_str(), "thetaSketch") {
            Self::decode_theta_sketch(m)
        } else if str_eq(t.as_str(), "hLLSketchBuild") {
            Self::decode_h_l_l_sketch_build(m)
        } else if str_eq(t.as_str(), "cardinality") {
            Self::decode_cardinality(m)
        } else if str_eq(t.as_str(), "hyperUnique") {
            Self::decode_hyper_unique(m)
        } else if str_eq(t.as_str(), "filtered") {
            Self::decode_filtered(m)
        } else {
            Err(DecodeError::here(DecodeCause::UnknownVariant).within_key("type"))
        }
    }

    fn decode_count(m: &Vec<Member>) -> (r: Result<Aggregation, DecodeError>)
        ensures
            decoded(r) == AggregationView::parse_count(members_view(m@)),
        decreases m,
    {
        let name = text_member(m, "name")?;
        Ok(Aggregation::Count { name })
    }

    fn decode_long_sum(m: &Vec<Member>) -> (r: Result<Aggregation, DecodeError>)
        ensures
            decoded(r) == AggregationView::parse_long_sum(members_view(m@)),
        decreases m,
    {
        let name = text_member(m, "name")?;
        let field_name = text_member(m, "fieldName")?;
        Ok(Aggregation::LongSum { name, field_name })
    }

    fn decode_double_sum(m: &Vec<Member>) -> (r: Result<Aggregation, DecodeError>)
        ensures
            decoded(r) == AggregationView::parse_double_sum(members_view(m@)),
        decreases m,
    {
        let name = text_member(m, "name")?;
        let field_name = text_member(m, "fieldName")?;
        Ok(Aggregation::DoubleSum { name, field_name })
    }

    fn decode_float_sum(m: &Vec<Member>) -> (r: Result<Aggregation, DecodeError>)
        ensures
            decoded(r) == AggregationView::parse_float_sum(members_view(m@)),
        decreases m,
    {
        let name = text_member(m, "name")?;
        let field_name = text_member(m, "fieldName")?;
        Ok(Aggregation::FloatSum { name, field_name })
    }

    fn decode_long_max(m: &Vec<Member>) -> (r: Result<Aggregation, DecodeError>)
        ensures
            decoded(r) == AggregationView::parse_long_max(members_view(m@)),
        decreases m,
    {
        let name = text_member(m, "name")?;
        let field_name = text_member(m, "fieldName")?;
        Ok(Aggregation::LongMax { name, field_name })
    }

    fn decode_double_max(m: &Vec<Member>) -> (r: Result<Aggregation, DecodeError>)
        ensures
            decoded(r) == AggregationView::parse_double_max(members_view(m@)),
        decreases m,
    {
        let name = text_member(m, "name")?;
        let field_name = text_member(m, "fieldName")?;
        Ok(Aggregation::DoubleMax { name, field_name })
    }

    fn decode_float_max(m: &Vec<Member>) -> (r: Result<Aggregation, DecodeError>)
        ensures
            decoded(r) == AggregationView::parse_float_max(members_view(m@)),
        decreases m,
    {
        let name = text_member(m, "name")?;
        let field_name = text_member(m, "fieldName")?;
        Ok(Aggregation::FloatMax { name, field_name })
    }

    fn decode_long_min(m: &Vec<Member>) -> (r: Result<Aggregation, DecodeError>)
        ensures
            decoded(r) == AggregationView::parse_long_min(members_view(m@)),
        decreases m,
    {
        let name = text_member(m, "name")?;
        let field_name = text_member(m, "fieldName")?;
        Ok(Aggregation::LongMin { name, field_name })
    }

    fn decode_float_min(m: &Vec<Member>) -> (r: Result<Aggregation, DecodeError>)
        ensures
            decoded(r) == AggregationView::parse_float_min(members_view(m@)),
        decreases m,
    {
        let name = text_member(m, "name")?;
        let field_name = text_member(m, "fieldName")?;
        Ok(Aggregation::FloatMin { name, field_name })
    }

    fn decode_double_min(m: &Vec<Member>) -> (r: Result<Aggregation, DecodeError>)
        ensures
            decoded(r) == AggregationView::parse_double_min(members_view(m@)),
        decreases m,
    {
        let name = text_member(m, "name")?;
        let field_name = text_member(m, "fieldName")?;
        Ok(Aggregation::DoubleMin { name, field_name })
    }

    fn decode_long_first(m: &Vec<Member>) -> (r: Result<Aggregation, DecodeError>)
        ensures
            decoded(r) == AggregationView::parse_long_first(members_view(m@)),
        decreases m,
    {
        let name = text_member(m, "name")?;
        let field_name = text_member(m, "fieldName")?;
        Ok(Aggregation::LongFirst { name, field_name })
    }

    fn decode_float_first(m: &Vec<Member>) -> (r: Result<Aggregation, DecodeError>)
        ensures
            decoded(r) == AggregationView::parse_float_first(members_view(m@)),
        decreases m,
    {
        let name = text_member(m, "name")?;
        let field_name = text_member(m, "fieldName")?;
        Ok(Aggregation::FloatFirst { name, field_name })
    }

    fn decode_double_first(m: &Vec<Member>) -> (r: Result<Aggregation, DecodeError>)
        ensures
            decoded(r) == AggregationView::parse_double_first(members_view(m@)),
        decreases m,
    {
        let name = text_member(m, "name")?;
        let field_name = text_member(m, "fieldName")?;
        Ok(Aggregation::DoubleFirst { name, field_name })
    }

    fn decode_long_last(m: &Vec<Member>) -> (r: Result<Aggregation, DecodeError>)
        ensures
            decoded(r) == AggregationView::parse_long_last(members_view(m@)),
        decreases m,
    {
        let name = text_member(m, "name")?;
        let field_name = text_member(m, "fieldName")?;
        Ok(Aggregation::LongLast { name, field_name })
    }

    fn decode_float_last(m: &Vec<Member>) -> (r: Result<Aggregation, DecodeError>)
        ensures
            decoded(r) == AggregationView::parse_float_last(members_view(m@)),
        decreases m,
    {
        let name = text_member(m, "name")?;
        let field_name = text_member(m, "fieldName")?;
        Ok(Aggregation::FloatLast { name, field_name })
    }

    fn decode_double_last(m: &Vec<Member>) -> (r: Result<Aggregation, DecodeError>)
        ensures
            decoded(r) == AggregationView::parse_double_last(members_view(m@)),
        decreases m,
    {
        let name = text_member(m, "name")?;
        let field_name = text_member(m, "fieldName")?;
        Ok(Aggregation::DoubleLast { name, field_name })
    }

    fn decode_string_first(m: &Vec<Member>) -> (r: Result<Aggregation, DecodeError>)
        ensures
            decoded(r) == AggregationView::parse_string_first(members_view(m@)),
        decreases m,
    {
        let name = text_member(m, "name")?;
        let field_name = text_member(m, "fieldName")?;
        let max_string_bytes = count_member(m, "maxStringBytes")?;
        Ok(Aggregation::StringFirst { name, field_name, max_string_bytes })
    }

    fn decode_string_last(m: &Vec<Member>) -> (r: Result<Aggregation, DecodeError>)
        ensures
            decoded(r) == AggregationView::parse_string_last(members_view(m@)),
        decreases m,
    {
        let name = text_member(m, "name")?;
        let field_name = text_member(m, "fieldName")?;
        let max_string_bytes = count_member(m, "maxStringBytes")?;
        Ok(Aggregation::StringLast { name, field_name, max_string_bytes })
    }

    fn decode_double_any(m: &Vec<Member>) -> (r: Result<Aggregation, DecodeError>)
        ensures
            decoded(r) == AggregationView::parse_double_any(members_view(m@)),
        decreases m,
    {
        let name = text_member(m, "name")?;
        let field_name = text_member(m, "fieldName")?;
        Ok(Aggregation::DoubleAny { name, field_name })
    }

    fn decode_float_any(m: &Vec<Member>) -> (r: Result<Aggregation, DecodeError>)
        ensures
            decoded(r) == AggregationView::parse_float_any(members_view(m@)),
        decreases m,
    {
        let name = text_member(m, "name")?;
        let field_name = text_member(m, "fieldName")?;
        Ok(Aggregation::FloatAny { name, field_name })
    }

    fn decode_long_any(m: &Vec<Member>) -> (r: Result<Aggregation, DecodeError>)
        ensures
            decoded(r) == AggregationView::parse_long_any(members_view(m@)),
        decreases m,
    {
        let name = text_member(m, "name")?;
        let field_name = text_member(m, "fieldName")?;
        Ok(Aggregation::LongAny { name, field_name })
    }

    fn decode_string_any(m: &Vec<Member>) -> (r: Result<Aggregation, DecodeError>)
        ensures
            decoded(r) == AggregationView::parse_string_any(members_view(m@)),
        decreases m,
    {
        let name = text_member(m, "name")?;
        let field_name = text_member(m, "fieldName")?;
        Ok(Aggregation::StringAny { name, field_name })
    }

    fn decode_javascript(m: &Vec<Member>) -> (r: Result<Aggregation, DecodeError>)
        ensures
            decoded(r) == AggregationView::parse_javascript(members_view(m@)),
        decreases m,
    {
        let name = text_member(m, "name")?;
        let field_names = texts_member(m, "fieldNames")?;
        let fn_aggregate = text_member(m, "fnAggregate")?;
        let fn_combine = text_member(m, "fnCombine")?;
        let fn_reset = text_member(m, "fnReset")?;
        Ok(Aggregation::Javascript { name, field_names, fn_aggregate, fn_combine, fn_reset })
    }

    fn decode_theta_sketch(m: &Vec<Member>) -> (r: Result<Aggregation, DecodeError>)
        ensures
            decoded(r) == AggregationView::parse_theta_sketch(members_view(m@)),
        decreases m,
    {
        let name = text_member(m, "name")?;
        let field_name = text_member(m, "fieldName")?;
        let is_input_theta_sketch = flag_member(m, "isInputThetaSketch")?;
        let size = count_member(m, "size")?;
        Ok(Aggregation::ThetaSketch { name, field_name, is_input_theta_sketch, size })
    }

    fn decode_h_l_l_sketch_build(m: &Vec<Member>) -> (r: Result<Aggregation, DecodeError>)
        ensures
            decoded(r) == AggregationView::parse_h_l_l_sketch_build(members_view(m@)),
        decreases m,
    {
        let name = text_member(m, "name")?;
        let field_name = text_member(m, "fieldName")?;
        let lg_k = count_member(m, "lgK")?;
        let lgt_hll_type = under_key(
            HllType::decode(required_field(m, "lgtHllType")?),
            "lgtHllType",
        )?;
        let round = flag_member(m, "round")?;
        Ok(Aggregation::HLLSketchBuild { name, field_name, lg_k, lgt_hll_type, round })
    }

    fn decode_cardinality(m: &Vec<Member>) -> (r: Result<Aggregation, DecodeError>)
        ensures
            decoded(r) == AggregationView::parse_cardinality(members_view(m@)),
        decreases m,
    {
        let name = text_member(m, "name")?;
        let fields = texts_member(m, "fields")?;
        let by_row = flag_member(m, "byRow")?;
        let round = flag_member(m, "round")?;
        Ok(Aggregation::Cardinality { name, fields, by_row, round })
    }

    fn decode_hyper_unique(m: &Vec<Member>) -> (r: Result<Aggregation, DecodeError>)
        ensures
            decoded(r) == AggregationView::parse_hyper_unique(members_view(m@)),
        decreases m,
    {
        let name = text_member(m, "name")?;
        let field_name = text_member(m, "fieldName")?;
        let is_input_hyper_unique = flag_member(m, "isInputHyperUnique")?;
        let round = flag_member(m, "round")?;
        Ok(Aggregation::HyperUnique { name, field_name, is_input_hyper_unique, round })
    }

    fn decode_filtered(m: &Vec<Member>) -> (r: Result<Aggregation, DecodeError>)
        ensures
            decoded(r) == AggregationView::parse_filtered(members_view(m@)),
        decreases m,
    {
        let filter = under_key(Filter::decode(required_field(m, "filter")?), "filter")?;
        let aggregator = Box::new(
            under_key(Aggregation::decode(required_field(m, "aggregator")?), "aggregator")?,
        );
        Ok(Aggregation::Filtered { filter, aggregator })
    }

    /// Reads each element of an array from its wire form.
    pub fn decode_list(items: &Vec<Json>) -> (r: Result<Vec<Aggregation>, DecodeError>)
        ensures
            decoded_list(r) == AggregationView::parse_list(items_view(items@)),
        decreases items,
    {
        let ghost read = |j: JsonValue| AggregationView::parse(j);
        let mut out: Vec<Aggregation> = Vec::new();
        let mut i: usize = 0;
        while i < items.len()
            invariant
                i <= items.len(),
                out.len() == i,
                read == (|j: JsonValue| AggregationView::parse(j)),
                forall|k: int|
                0 <= k < i ==>
                    (#[trigger] read(items_view(items@)[k]))
                        == Ok::<AggregationView, Failure>(out[k]@),
            decreases items.len() - i,
        {
            match Aggregation::decode(&items[i]) {
                Ok(v) => {
                    out.push(v);
                },
                Err(e) => {
                    proof {
                        assert(read(items_view(items@)[i as int]) is Err);
                        lemma_read_all_refused(items_view(items@), read, i as int);
                        AggregationView::lemma_parse_list(items_view(items@));
                    }
                    return Err(e.within_index(i));
                },
            }
            i += 1;
        }
        proof {
            lemma_read_all_accepted(items_view(items@), read, list_view(out@));
            AggregationView::lemma_parse_list(items_view(items@));
        }
        Ok(out)
    }
}

/// The names of the members differ from one another.
proof fn lemma_keys()
    ensures
        "aggregator"@.len() == 10,
        "byRow"@.len() == 5,
        "fieldName"@.len() == 9,
        "fieldNames"@.len() == 10,
        "fields"@.len() == 6,
        "filter"@.len() == 6,
        "fnAggregate"@.len() == 11,
        "fnCombine"@.len() == 9,
        "fnReset"@.len() == 7,
        "isInputHyperUnique"@.len() == 18,
        "isInputThetaSketch"@.len() == 18,
        "lgK"@.len() == 3,
        "lgtHllType"@.len() == 10,
        "maxStringBytes"@.len() == 14,
        "name"@.len() == 4,
        "round"@.len() == 5,
        "size"@.len() == 4,
        "type"@.len() == 4,
        "name"@[0] == 'n',
        "size"@[0] == 's',
        "type"@[0] == 't',
        "byRow"@[0] == 'b',
        "round"@[0] == 'r',
        "fields"@[2] == 'e',
        "filter"@[2] == 'l',
        "fieldName"@[1] == 'i',
        "fnCombine"@[1] == 'n',
        "aggregator"@[0] == 'a',
        "fieldNames"@[0] == 'f',
        "lgtHllType"@[0] == 'l',
        "isInputHyperUnique"@[7] == 'H',
        "isInputThetaSketch"@[7] == 'T',
{
    reveal_strlit("aggregator");
    reveal_strlit("byRow");
    reveal_strlit("fieldName");
    reveal_strlit("fieldNames");
    reveal_strlit("fields");
    reveal_strlit("filter");
    reveal_strlit("fnAggregate");
    reveal_strlit("fnCombine");
    reveal_strlit("fnReset");
    reveal_strlit("isInputHyperUnique");
    reveal_strlit("isInputThetaSketch");
    reveal_strlit("lgK");
    reveal_strlit("lgtHllType");
    reveal_strlit("maxStringBytes");
    reveal_strlit("name");
    reveal_strlit("round");
    reveal_strlit("size");
    reveal_strlit("type");
}

/// The names that stand for the variants differ from one another.
proof fn lemma_tags()
    ensures
        "cardinality"@.len() == 11,
        "count"@.len() == 5,
        "doubleAny"@.len() == 9,
        "doubleFirst"@.len() == 11,
        "doubleLast"@.len() == 10,
        "doubleMax"@.len() == 9,
        "doubleMin"@.len() == 9,
        "doubleSum"@.len() == 9,
        "filtered"@.len() == 8,
        "floatAny"@.len() == 8,
        "floatFirst"@.len() == 10,
        "floatLast"@.len() == 9,
        "floatMax"@.len() == 8,
        "floatMin"@.len() == 8,
        "floatSum"@.len() == 8,
        "hLLSketchBuild"@.len() == 14,
        "hyperUnique"@.len() == 11,
        "javascript"@.len() == 10,
        "longAny"@.len() == 7,
        "longFirst"@.len() == 9,
        "longLast"@.len() == 8,
        "longMax"@.len() == 7,
        "longMin"@.len() == 7,
        "longSum"@.len() == 7,
        "stringAny"@.len() == 9,
        "stringFirst"@.len() == 11,
        "stringLast"@.len() == 10,
        "thetaSketch"@.len() == 11,
        "longAny"@[5] == 'n',
        "longMax"@[5] == 'a',
        "longMin"@[5] == 'i',
        "longSum"@[5] == 'u',
        "filtered"@[6] == 'e',
        "floatAny"@[6] == 'n',
        "floatMax"@[6] == 'a',
        "floatMin"@[6] == 'i',
        "floatSum"@[6] == 'u',
        "longLast"@[6] == 's',
        "doubleAny"@[0] == 'd',
        "doubleAny"@[6] == 'A',
        "doubleAny"@[7] == 'n',
        "doubleMax"@[0] == 'd',
        "doubleMax"@[6] == 'M',
        "doubleMax"@[7] == 'a',
        "doubleMin"@[0] == 'd',
        "doubleMin"@[6] == 'M',
        "doubleMin"@[7] == 'i',
        "doubleSum"@[0] == 'd',
        "doubleSum"@[6] == 'S',
        "doubleSum"@[7] == 'u',
        "floatLast"@[0] == 'f',
        "floatLast"@[6] == 'a',
        "floatLast"@[7] == 's',
        "longFirst"@[0] == 'l',
        "longFirst"@[6] == 'r',
        "longFirst"@[7] == 's',
        "stringAny"@[0] == 's',
        "stringAny"@[6] == 'A',
        "stringAny"@[7] == 'n',
        "doubleLast"@[0] == 'd',
        "floatFirst"@[0] == 'f',
        "javascript"@[0] == 'j',
        "stringLast"@[0] == 's',
        "cardinality"@[0] == 'c',
        "doubleFirst"@[0] == 'd',
        "hyperUnique"@[0] == 'h',
        "stringFirst"@[0] == 's',
        "thetaSketch"@[0] == 't',
{
    reveal_strlit("cardinality");
    reveal_strlit("count");
    reveal_strlit("doubleAny");
    reveal_strlit("doubleFirst");
    reveal_strlit("doubleLast");
    reveal_strlit("doubleMax");
    reveal_strlit("doubleMin");
    reveal_strlit("doubleSum");
    reveal_strlit("filtered");
    reveal_strlit("floatAny");
    reveal_strlit("floatFirst");
    reveal_strlit("floatLast");
    reveal_strlit("floatMax");
    reveal_strlit("floatMin");
    reveal_strlit("floatSum");
    reveal_strlit("hLLSketchBuild");
    reveal_strlit("hyperUnique");
    reveal_strlit("javascript");
    reveal_strlit("longAny");
    reveal_strlit("longFirst");
    reveal_strlit("longLast");
    reveal_strlit("longMax");
    reveal_strlit("longMin");
    reveal_strlit("longSum");
    reveal_strlit("stringAny");
    reveal_strlit("stringFirst");
    reveal_strlit("stringLast");
    reveal_strlit("thetaSketch");
}

} // verus!
