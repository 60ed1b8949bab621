//! Having: conditions on the rows of a grouped result.

use vstd::prelude::*;
use crate::codec::{
    array_json, as_members, decoded_list, field_with, items_field, items_member,
    lemma_items_field_smaller, lemma_lookup_smaller, lemma_read_all_accepted,
    lemma_read_all_empty, lemma_read_all_refused, lemma_read_all_step, list_view, member,
    no_members, number_field, number_member, object_json, put, read_all, read_members,
    required, required_field, text, text_field, text_json, text_member, under, under_key,
};
use crate::error::{decoded, DecodeCause, DecodeError, Failure};
use crate::json::{
    items_view, lemma_lookup_empty, lemma_lookup_push, members_view, str_eq, Json, JsonNumber,
    JsonValue, Member, MemberValue, NumberValue,
};
use crate::query::definitions::dimensions::{Dimension, DimensionView};
use crate::query::definitions::filters::{Filter, FilterView};

verus! {

/// A condition on the rows of a grouped result.
#[derive(Debug, PartialEq)]
#[allow(inconsistent_fields)]
pub enum Having {
    /// A filter holds of the row.
    Filter {
        filter: Filter,
    },
    /// An aggregated value is greater than a number.
    GreaterThan {
        aggregation: String,
        value: JsonNumber,
    },
    /// An aggregated value equals a number.
    EqualTo {
        aggregation: String,
        value: JsonNumber,
    },
    /// An aggregated value is less than a number.
    LessThan {
        aggregation: String,
        value: JsonNumber,
    },
    /// A dimension has a value.
    DimSelector {
        dimension: Dimension,
        value: Json,
    },
    /// Every one of the conditions holds.
    And {
        having_specs: Vec<Having>,
    },
    /// One of the conditions holds.
    Or {
        having_specs: Vec<Having>,
    },
    /// The condition does not hold.
    Not {
        having_specs: Box<Having>,
    },
}

/// Mathematical value of a [`Having`].
#[allow(inconsistent_fields)]
pub enum HavingView {
    Filter {
        filter: FilterView,
    },
    GreaterThan {
        aggregation: Seq<char>,
        value: NumberValue,
    },
    EqualTo {
        aggregation: Seq<char>,
        value: NumberValue,
    },
    LessThan {
        aggregation: Seq<char>,
        value: NumberValue,
    },
    DimSelector {
        dimension: DimensionView,
        value: JsonValue,
    },
    And {
        having_specs: Seq<HavingView>,
    },
    Or {
        having_specs: Seq<HavingView>,
    },
    Not {
        having_specs: Box<HavingView>,
    },
}

impl Having {
    /// The mathematical value.
    pub open spec fn value(self) -> HavingView
        decreases self,
    {
        match self {
            Having::Filter { filter } => HavingView::Filter {
                filter: filter@,
            },
            Having::GreaterThan { aggregation, value } => HavingView::GreaterThan {
                aggregation: aggregation@,
                value: value@,
            },
            Having::EqualTo { aggregation, value } => HavingView::EqualTo {
                aggregation: aggregation@,
                value: value@,
            },
            Having::LessThan { aggregation, value } => HavingView::LessThan {
                aggregation: aggregation@,
                value: value@,
            },
            Having::DimSelector { dimension, value } => HavingView::DimSelector {
                dimension: dimension@,
                value: value@,
            },
            Having::And { having_specs } => HavingView::And {
                having_specs: Self::values(having_specs@),
            },
            Having::Or { having_specs } => HavingView::Or {
                having_specs: Self::values(having_specs@),
            },
            Having::Not { having_specs } => HavingView::Not {
                having_specs: Box::new(having_specs.value()),
            },
        }
    }

    /// The mathematical values of the elements of a list.
    pub open spec fn values(list: Seq<Having>) -> Seq<HavingView>
        decreases list,
    {
        Seq::new(
            list.len(),
            |i: int| if 0 <= i < list.len() { list[i].value() } else { arbitrary() },
        )
    }

    /// [`Self::values`] is the view of the list.
    pub proof fn lemma_values(list: Seq<Having>)
        ensures
            Self::values(list) == list_view(list),
    {
        assert(Self::values(list) =~= list_view(list));
    }
}

impl View for Having {
    type V = HavingView;

    open spec fn view(&self) -> HavingView {
        self.value()
    }
}

impl HavingView {
    /// The discriminator that stands for the variant on the wire.
    pub open spec fn tag(self) -> Seq<char> {
        match self {
            HavingView::Filter { .. } => "filter"@,
            HavingView::GreaterThan { .. } => "greaterThan"@,
            HavingView::EqualTo { .. } => "equalTo"@,
            HavingView::LessThan { .. } => "lessThan"@,
            HavingView::DimSelector { .. } => "dimSelector"@,
            HavingView::And { .. } => "and"@,
            HavingView::Or { .. } => "or"@,
            HavingView::Not { .. } => "not"@,
        }
    }

    /// Whether a discriminator stands for a variant of this family.
    pub open spec fn known_tag(t: Seq<char>) -> bool {
        t == "filter"@
            || t == "greaterThan"@
            || t == "equalTo"@
            || t == "lessThan"@
            || t == "dimSelector"@
            || t == "and"@
            || t == "or"@
            || t == "not"@
    }

    /// The wire form.
    pub open spec fn wire(self) -> JsonValue
        decreases self,
    {
        match self {
            HavingView::Filter { filter } => JsonValue::Object(
                Seq::empty()
                    .push(member("type"@, text("filter"@)))
                    .push(member("filter"@, filter.wire())),
            ),
            HavingView::GreaterThan { aggregation, value } => JsonValue::Object(
                Seq::empty()
                    .push(member("type"@, text("greaterThan"@)))
                    .push(member("aggregation"@, text(aggregation)))
                    .push(member("value"@, JsonValue::Number(value))),
            ),
            HavingView::EqualTo { aggregation, value } => JsonValue::Object(
                Seq::empty()
                    .push(member("type"@, text("equalTo"@)))
                    .push(member("aggregation"@, text(aggregation)))
                    .push(member("value"@, JsonValue::Number(value))),
            ),
            HavingView::LessThan { aggregation, value } => JsonValue::Object(
                Seq::empty()
                    .push(member("type"@, text("lessThan"@)))
                    .push(member("aggregation"@, text(aggregation)))
                    .push(member("value"@, JsonValue::Number(value))),
            ),
            HavingView::DimSelector { dimension, value } => JsonValue::Object(
                Seq::empty()
                    .push(member("type"@, text("dimSelector"@)))
                    .push(member("dimension"@, dimension.wire()))
                    .push(member("value"@, value)),
            ),
            HavingView::And { having_specs } => JsonValue::Object(
                Seq::empty()
                    .push(member("type"@, text("and"@)))
                    .push(
                        member(
                            "havingSpecs"@,
                            JsonValue::Array(HavingView::wire_list(having_specs)),
                        ),
                    ),
            ),
            HavingView::Or { having_specs } => JsonValue::Object(
                Seq::empty()
                    .push(member("type"@, text("or"@)))
                    .push(
                        member(
                            "havingSpecs"@,
                            JsonValue::Array(HavingView::wire_list(having_specs)),
                        ),
                    ),
            ),
            HavingView::Not { having_specs } => JsonValue::Object(
                Seq::empty()
                    .push(member("type"@, text("not"@)))
                    .push(member("havingSpecs"@, having_specs.wire())),
            ),
        }
    }

    /// The wire forms of the elements of a list.
    pub open spec fn wire_list(list: Seq<HavingView>) -> Seq<JsonValue>
        decreases list,
    {
        Seq::new(
            list.len(),
            |i: int| if 0 <= i < list.len() { list[i].wire() } else { arbitrary() },
        )
    }

    /// Whether the parts that are not read back whatever they hold are
    /// read back as they are: every interval inside, and every map
    /// inside, which has to hold each key once.
    pub open spec fn reads_back(self) -> bool
        decreases self,
    {
        match self {
            HavingView::Filter { filter } => filter.reads_back(),
            HavingView::GreaterThan { .. } => true,
            HavingView::EqualTo { .. } => true,
            HavingView::LessThan { .. } => true,
            HavingView::DimSelector { dimension, .. } => dimension.reads_back(),
            HavingView::And { having_specs } => Self::all_read_back(having_specs),
            HavingView::Or { having_specs } => Self::all_read_back(having_specs),
            HavingView::Not { having_specs } => having_specs.reads_back(),
        }
    }

    /// Whether every element of a list is read back as it is.
    pub open spec fn all_read_back(list: Seq<HavingView>) -> bool
        decreases list,
    {
        forall|i: int| 0 <= i < list.len() ==> (#[trigger] list[i]).reads_back()
    }

    /// What a document is read as.
    pub open spec fn parse(j: JsonValue) -> Result<HavingView, Failure>
        decreases j,
    {
        match as_members(j) {
            Ok(m) => match text_field(m, "type"@) {
                Ok(t) => if t == "filter"@ {
                    Self::parse_filter(m)
                } else if t == "greaterThan"@ {
                    Self::parse_greater_than(m)
                } else if t == "equalTo"@ {
                    Self::parse_equal_to(m)
                } else if t == "lessThan"@ {
                    Self::parse_less_than(m)
                } else if t == "dimSelector"@ {
                    Self::parse_dim_selector(m)
                } else if t == "and"@ {
                    Self::parse_and(m)
                } else if t == "or"@ {
                    Self::parse_or(m)
                } else if t == "not"@ {
                    Self::parse_not(m)
                } else {
                    Err(Failure::here(DecodeCause::UnknownVariant).within_key("type"@))
                },
                Err(e) => Err(e),
            },
            Err(e) => Err(e),
        }
    }

    /// The members of the variant `filter`, read.
    pub open spec fn parse_filter(m: Seq<MemberValue>) -> Result<HavingView, Failure>
        decreases m,
    {
        let filter = field_with(m, "filter"@, |v: JsonValue| FilterView::parse(v));
        if filter is Err {
            Err(filter->Err_0)
        } else {
            Ok(HavingView::Filter { filter: filter->Ok_0 })
        }
    }

    /// The members of the variant `greaterThan`, read.
    pub open spec fn parse_greater_than(m: Seq<MemberValue>) -> Result<HavingView, Failure>
        decreases m,
    {
        let aggregation = text_field(m, "aggregation"@);
        let value = number_field(m, "value"@);
        if aggregation is Err {
            Err(aggregation->Err_0)
        } else if value is Err {
            Err(value->Err_0)
        } else {
            Ok(HavingView::GreaterThan { aggregation: aggregation->Ok_0, value: value->Ok_0 })
        }
    }

    /// The members of the variant `equalTo`, read.
    pub open spec fn parse_equal_to(m: Seq<MemberValue>) -> Result<HavingView, Failure>
        decreases m,
    {
        let aggregation = text_field(m, "aggregation"@);
        let value = number_field(m, "value"@);
        if aggregation is Err {
            Err(aggregation->Err_0)
        } else if value is Err {
            Err(value->Err_0)
        } else {
            Ok(HavingView::EqualTo { aggregation: aggregation->Ok_0, value: value->Ok_0 })
        }
    }

    /// The members of the variant `lessThan`, read.
    pub open spec fn parse_less_than(m: Seq<MemberValue>) -> Result<HavingView, Failure>
        decreases m,
    {
        let aggregation = text_field(m, "aggregation"@);
        let value = number_field(m, "value"@);
        if aggregation is Err {
            Err(aggregation->Err_0)
        } else if value is Err {
            Err(value->Err_0)
        } else {
            Ok(HavingView::LessThan { aggregation: aggregation->Ok_0, value: value->Ok_0 })
        }
    }

    /// The members of the variant `dimSelector`, read.
    pub open spec fn parse_dim_selector(m: Seq<MemberValue>) -> Result<HavingView, Failure>
        decreases m,
    {
        let dimension = field_with(m, "dimension"@, |v: JsonValue| DimensionView::parse(v));
        let value = required(m, "value"@);
        if dimension is Err {
            Err(dimension->Err_0)
        } else if value is Err {
            Err(value->Err_0)
        } else {
            Ok(HavingView::DimSelector { dimension: dimension->Ok_0, value: value->Ok_0 })
        }
    }

    /// The members of the variant `and`, read.
    pub open spec fn parse_and(m: Seq<MemberValue>) -> Result<HavingView, Failure>
        decreases m,
    {
        let having_specs = match items_field(m, "havingSpecs"@) {
            Ok(items) => {
                proof { lemma_items_field_smaller(m, "havingSpecs"@); }
                under("havingSpecs"@, HavingView::parse_list(items))
            },
            Err(e) => Err(e),
        };
        if having_specs is Err {
            Err(having_specs->Err_0)
        } else {
            Ok(HavingView::And { having_specs: having_specs->Ok_0 })
        }
    }

    /// The members of the variant `or`, read.
    pub open spec fn parse_or(m: Seq<MemberValue>) -> Result<HavingView, Failure>
        decreases m,
    {
        let having_specs = match items_field(m, "havingSpecs"@) {
            Ok(items) => {
                proof { lemma_items_field_smaller(m, "havingSpecs"@); }
                under("havingSpecs"@, HavingView::parse_list(items))
            },
            Err(e) => Err(e),
        };
        if having_specs is Err {
            Err(having_specs->Err_0)
        } else {
            Ok(HavingView::Or { having_specs: having_specs->Ok_0 })
        }
    }

    /// The members of the variant `not`, read.
    pub open spec fn parse_not(m: Seq<MemberValue>) -> Result<HavingView, Failure>
        decreases m,
    {
        let having_specs = match required(m, "havingSpecs"@) {
            Ok(v) => {
                proof { lemma_lookup_smaller(m, "havingSpecs"@); }
                under("havingSpecs"@, HavingView::parse(v))
            },
            Err(e) => Err(e),
        };
        if having_specs is Err {
            Err(having_specs->Err_0)
        } else {
            Ok(HavingView::Not { having_specs: Box::new(having_specs->Ok_0) })
        }
    }

    /// Every element of an array, read: the list of what was read, or
    /// the failure of the first element that is refused, seen from its
    /// index.
    pub open spec fn parse_list(items: Seq<JsonValue>) -> Result<Seq<HavingView>, Failure>
        decreases items,
    {
        if items.len() == 0 {
            Ok(Seq::empty())
        } else {
            match Self::parse_list(items.drop_last()) {
                Ok(front) => match Self::parse(items.last()) {
                    Ok(v) => Ok(front.push(v)),
                    Err(e) => Err(e.within_index((items.len() - 1) as nat)),
                },
                Err(e) => Err(e),
            }
        }
    }

    /// [`Self::wire_list`] writes each element.
    pub proof fn lemma_wire_list(list: Seq<HavingView>)
        ensures
            Self::wire_list(list) == list.map_values(|x: HavingView| x.wire()),
    {
        assert(Self::wire_list(list) =~= list.map_values(|x: HavingView| x.wire()));
    }

    /// [`Self::parse_list`] reads each element.
    pub proof fn lemma_parse_list(items: Seq<JsonValue>)
        ensures
            Self::parse_list(items) == read_all(items, |j: JsonValue| Self::parse(j)),
        decreases items.len(),
    {
        let read = |j: JsonValue| Self::parse(j);
        if items.len() == 0 {
            lemma_read_all_empty(items, read);
        } else {
            Self::lemma_parse_list(items.drop_last());
            lemma_read_all_step(items, read);
        }
    }

    /// What is written is never `null`.
    pub proof fn lemma_wire_not_null(self)
        ensures
            !(self.wire() is Null),
    {
    }

    /// Reading back what was written gives the value again, if the
    /// intervals and the maps inside are read back as they are.
    pub proof fn lemma_round_trip(self)
        requires
            self.reads_back(),
        ensures
            Self::parse(self.wire()) == Ok::<HavingView, Failure>(self),
        decreases self,
    {
        match self {
            HavingView::Filter { filter } => {
                filter.lemma_round_trip();
                Self::lemma_members_filter(self.wire(), filter, filter.wire());
                Self::lemma_parse_filter(self.wire());
            },
            HavingView::GreaterThan { aggregation, value } => {
                Self::lemma_members_greater_than(self.wire(), aggregation, value);
                Self::lemma_parse_greater_than(self.wire());
            },
            HavingView::EqualTo { aggregation, value } => {
                Self::lemma_members_equal_to(self.wire(), aggregation, value);
                Self::lemma_parse_equal_to(self.wire());
            },
            HavingView::LessThan { aggregation, value } => {
                Self::lemma_members_less_than(self.wire(), aggregation, value);
                Self::lemma_parse_less_than(self.wire());
            },
            HavingView::DimSelector { dimension, value } => {
                dimension.lemma_round_trip();
                Self::lemma_members_dim_selector(self.wire(), dimension, dimension.wire(), value);
                Self::lemma_parse_dim_selector(self.wire());
            },
            HavingView::And { having_specs } => {
                HavingView::lemma_list_round_trip(having_specs);
                Self::lemma_members_and(
                    self.wire(),
                    having_specs,
                    HavingView::wire_list(having_specs),
                );
                Self::lemma_parse_and(self.wire());
            },
            HavingView::Or { having_specs } => {
                HavingView::lemma_list_round_trip(having_specs);
                Self::lemma_members_or(
                    self.wire(),
                    having_specs,
                    HavingView::wire_list(having_specs),
                );
                Self::lemma_parse_or(self.wire());
            },
            HavingView::Not { having_specs } => {
                having_specs.lemma_round_trip();
                Self::lemma_members_not(self.wire(), *having_specs, having_specs.wire());
                Self::lemma_parse_not(self.wire());
            },
        }
    }

    /// The members that are written for the variant `filter` are read
    /// back as the value, given that its parts are read back from their
    /// wire forms.
    proof fn lemma_members_filter(j: JsonValue, filter: FilterView, filter_wire: JsonValue)
        requires
            j == JsonValue::Object(
                Seq::empty()
                    .push(member("type"@, text("filter"@)))
                    .push(member("filter"@, filter_wire)),
            ),
            FilterView::parse(filter_wire) == Ok::<FilterView, Failure>(filter),
        ensures
            j is Object,
            Self::parse_filter(j->Object_0)
                == Ok::<HavingView, Failure>(HavingView::Filter { filter }),
            text_field(j->Object_0, "type"@) == Ok::<Seq<char>, Failure>("filter"@),
    {
        broadcast use {lemma_lookup_push, lemma_lookup_empty};

        lemma_keys();
    }

    /// An object with the discriminator `filter` is read as that variant.
    proof fn lemma_parse_filter(j: JsonValue)
        requires
            j is Object,
            text_field(j->Object_0, "type"@) == Ok::<Seq<char>, Failure>("filter"@),
        ensures
            Self::parse(j) == Self::parse_filter(j->Object_0),
    {
        lemma_tags();
    }

    /// The members that are written for the variant `greaterThan` are read
    /// back as the value, given that its parts are read back from their
    /// wire forms.
    proof fn lemma_members_greater_than(j: JsonValue, aggregation: Seq<char>, value: NumberValue)
        requires
            j == JsonValue::Object(
                Seq::empty()
                    .push(member("type"@, text("greaterThan"@)))
                    .push(member("aggregation"@, text(aggregation)))
                    .push(member("value"@, JsonValue::Number(value))),
            ),
        ensures
            j is Object,
            Self::parse_greater_than(j->Object_0) == Ok::<HavingView, Failure>(
                HavingView::GreaterThan { aggregation, value },
            ),
            text_field(j->Object_0, "type"@) == Ok::<Seq<char>, Failure>("greaterThan"@),
    {
        broadcast use {lemma_lookup_push, lemma_lookup_empty};

        lemma_keys();
    }

    /// An object with the discriminator `greaterThan` is read as that variant.
    proof fn lemma_parse_greater_than(j: JsonValue)
        requires
            j is Object,
            text_field(j->Object_0, "type"@) == Ok::<Seq<char>, Failure>("greaterThan"@),
        ensures
            Self::parse(j) == Self::parse_greater_than(j->Object_0),
    {
        lemma_tags();
    }

    /// The members that are written for the variant `equalTo` are read
    /// back as the value, given that its parts are read back from their
    /// wire forms.
    proof fn lemma_members_equal_to(j: JsonValue, aggregation: Seq<char>, value: NumberValue)
        requires
            j == JsonValue::Object(
                Seq::empty()
                    .push(member("type"@, text("equalTo"@)))
                    .push(member("aggregation"@, text(aggregation)))
                    .push(member("value"@, JsonValue::Number(value))),
            ),
        ensures
            j is Object,
            Self::parse_equal_to(j->Object_0) == Ok::<HavingView, Failure>(
                HavingView::EqualTo { aggregation, value },
            ),
            text_field(j->Object_0, "type"@) == Ok::<Seq<char>, Failure>("equalTo"@),
    {
        broadcast use {lemma_lookup_push, lemma_lookup_empty};

        lemma_keys();
    }

    /// An object with the discriminator `equalTo` is read as that variant.
    proof fn lemma_parse_equal_to(j: JsonValue)
        requires
            j is Object,
            text_field(j->Object_0, "type"@) == Ok::<Seq<char>, Failure>("equalTo"@),
        ensures
            Self::parse(j) == Self::parse_equal_to(j->Object_0),
    {
        lemma_tags();
    }

    /// The members that are written for the variant `lessThan` are read
    /// back as the value, given that its parts are read back from their
    /// wire forms.
    proof fn lemma_members_less_than(j: JsonValue, aggregation: Seq<char>, value: NumberValue)
        requires
            j == JsonValue::Object(
                Seq::empty()
                    .push(member("type"@, text("lessThan"@)))
                    .push(member("aggregation"@, text(aggregation)))
                    .push(member("value"@, JsonValue::Number(value))),
            ),
        ensures
            j is Object,
            Self::parse_less_than(j->Object_0) == Ok::<HavingView, Failure>(
                HavingView::LessThan { aggregation, value },
            ),
            text_field(j->Object_0, "type"@) == Ok::<Seq<char>, Failure>("lessThan"@),
    {
        broadcast use {lemma_lookup_push, lemma_lookup_empty};

        lemma_keys();
    }

    /// An object with the discriminator `lessThan` is read as that variant.
    proof fn lemma_parse_less_than(j: JsonValue)
        requires
            j is Object,
            text_field(j->Object_0, "type"@) == Ok::<Seq<char>, Failure>("lessThan"@),
        ensures
            Self::parse(j) == Self::parse_less_than(j->Object_0),
    {
        lemma_tags();
    }

    /// The members that are written for the variant `dimSelector` are read
    /// back as the value, given that its parts are read back from their
    /// wire forms.
    proof fn lemma_members_dim_selector(
        j: JsonValue,
        dimension: DimensionView,
        dimension_wire: JsonValue,
        value: JsonValue,
    )
        requires
            j == JsonValue::Object(
                Seq::empty()
                    .push(member("type"@, text("dimSelector"@)))
                    .push(member("dimension"@, dimension_wire))
                    .push(member("value"@, value)),
            ),
            DimensionView::parse(dimension_wire) == Ok::<DimensionView, Failure>(dimension),
        ensures
            j is Object,
            Self::parse_dim_selector(j->Object_0) == Ok::<HavingView, Failure>(
                HavingView::DimSelector { dimension, value },
            ),
            text_field(j->Object_0, "type"@) == Ok::<Seq<char>, Failure>("dimSelector"@),
    {
        broadcast use {lemma_lookup_push, lemma_lookup_empty};

        lemma_keys();
    }

    /// An object with the discriminator `dimSelector` is read as that variant.
    proof fn lemma_parse_dim_selector(j: JsonValue)
        requires
            j is Object,
            text_field(j->Object_0, "type"@) == Ok::<Seq<char>, Failure>("dimSelector"@),
        ensures
            Self::parse(j) == Self::parse_dim_selector(j->Object_0),
    {
        lemma_tags();
    }

    /// The members that are written for the variant `and` are read
    /// back as the value, given that its parts are read back from their
    /// wire forms.
    proof fn lemma_members_and(
        j: JsonValue,
        having_specs: Seq<HavingView>,
        having_specs_items: Seq<JsonValue>,
    )
        requires
            j == JsonValue::Object(
                Seq::empty()
                    .push(member("type"@, text("and"@)))
                    .push(member("havingSpecs"@, JsonValue::Array(having_specs_items))),
            ),
            HavingView::parse_list(having_specs_items)
                == Ok::<Seq<HavingView>, Failure>(having_specs),
        ensures
            j is Object,
            Self::parse_and(j->Object_0)
                == Ok::<HavingView, Failure>(HavingView::And { having_specs }),
            text_field(j->Object_0, "type"@) == Ok::<Seq<char>, Failure>("and"@),
    {
        broadcast use {lemma_lookup_push, lemma_lookup_empty};

        lemma_keys();
    }

    /// An object with the discriminator `and` is read as that variant.
    proof fn lemma_parse_and(j: JsonValue)
        requires
            j is Object,
            text_field(j->Object_0, "type"@) == Ok::<Seq<char>, Failure>("and"@),
        ensures
            Self::parse(j) == Self::parse_and(j->Object_0),
    {
        lemma_tags();
    }

    /// The members that are written for the variant `or` are read
    /// back as the value, given that its parts are read back from their
    /// wire forms.
    proof fn lemma_members_or(
        j: JsonValue,
        having_specs: Seq<HavingView>,
        having_specs_items: Seq<JsonValue>,
    )
        requires
            j == JsonValue::Object(
                Seq::empty()
                    .push(member("type"@, text("or"@)))
                    .push(member("havingSpecs"@, JsonValue::Array(having_specs_items))),
            ),
            HavingView::parse_list(having_specs_items)
                == Ok::<Seq<HavingView>, Failure>(having_specs),
        ensures
            j is Object,
            Self::parse_or(j->Object_0)
                == Ok::<HavingView, Failure>(HavingView::Or { having_specs }),
            text_field(j->Object_0, "type"@) == Ok::<Seq<char>, Failure>("or"@),
    {
        broadcast use {lemma_lookup_push, lemma_lookup_empty};

        lemma_keys();
    }

    /// An object with the discriminator `or` is read as that variant.
    proof fn lemma_parse_or(j: JsonValue)
        requires
            j is Object,
            text_field(j->Object_0, "type"@) == Ok::<Seq<char>, Failure>("or"@),
        ensures
            Self::parse(j) == Self::parse_or(j->Object_0),
    {
        lemma_tags();
    }

    /// The members that are written for the variant `not` are read
    /// back as the value, given that its parts are read back from their
    /// wire forms.
    proof fn lemma_members_not(j: JsonValue, having_specs: HavingView, having_specs_wire: JsonValue)
        requires
            j == JsonValue::Object(
                Seq::empty()
                    .push(member("type"@, text("not"@)))
                    .push(member("havingSpecs"@, having_specs_wire)),
            ),
            HavingView::parse(having_specs_wire) == Ok::<HavingView, Failure>(having_specs),
        ensures
            j is Object,
            Self::parse_not(j->Object_0) == Ok::<HavingView, Failure>(
                HavingView::Not { having_specs: Box::new(having_specs) },
            ),
            text_field(j->Object_0, "type"@) == Ok::<Seq<char>, Failure>("not"@),
    {
        broadcast use {lemma_lookup_push, lemma_lookup_empty};

        lemma_keys();
    }

    /// An object with the discriminator `not` is read as that variant.
    proof fn lemma_parse_not(j: JsonValue)
        requires
            j is Object,
            text_field(j->Object_0, "type"@) == Ok::<Seq<char>, Failure>("not"@),
        ensures
            Self::parse(j) == Self::parse_not(j->Object_0),
    {
        lemma_tags();
    }

    /// Reading back a list that was written gives the list again, if
    /// each element is read back as it is.
    pub proof fn lemma_list_round_trip(list: Seq<HavingView>)
        requires
            Self::all_read_back(list),
        ensures
            Self::parse_list(Self::wire_list(list)) == Ok::<Seq<HavingView>, Failure>(list),
        decreases list,
    {
        let items = Self::wire_list(list);
        let read = |j: JsonValue| Self::parse(j);
        assert forall|i: int| 0 <= i < items.len() implies (#[trigger] read(items[i]))
            == Ok::<HavingView, Failure>(list[i]) by {
            assert(list[i].reads_back());
            list[i].lemma_round_trip();
        }
        lemma_read_all_accepted(items, read, list);
        Self::lemma_parse_list(items);
    }

    /// What is written for a variant carries its discriminator.
    pub proof fn lemma_tag(self)
        ensures
            self.wire() is Object,
            text_field(self.wire()->Object_0, "type"@) == Ok::<Seq<char>, Failure>(self.tag()),
            Self::known_tag(self.tag()),
    {
        broadcast use {lemma_lookup_push, lemma_lookup_empty};

        lemma_keys();
    }

    /// An object whose discriminator stands for no variant of the
    /// family is refused as an unknown variant; it is read as none.
    pub proof fn lemma_unknown_tag(j: JsonValue)
        requires
            j is Object,
            text_field(j->Object_0, "type"@) is Ok,
            !Self::known_tag(text_field(j->Object_0, "type"@)->Ok_0),
        ensures
            Self::parse(j) == Err::<HavingView, Failure>(
                Failure::here(DecodeCause::UnknownVariant).within_key("type"@),
            ),
    {
    }

}

impl Having {
    pub fn filter(filter: Filter) -> (out: Having)
        ensures
            out@ == (HavingView::Filter { filter: filter@ }),
    {
        Having::Filter { filter }
    }

    pub fn greater_than(aggregation: &str, value: JsonNumber) -> (out: Having)
        ensures
            out@ == (HavingView::GreaterThan { aggregation: aggregation@, value: value@ }),
    {
        Having::GreaterThan { aggregation: aggregation.to_string(), value }
    }

    pub fn equal_to(aggregation: &str, value: JsonNumber) -> (out: Having)
        ensures
            out@ == (HavingView::EqualTo { aggregation: aggregation@, value: value@ }),
    {
        Having::EqualTo { aggregation: aggregation.to_string(), value }
    }

    pub fn less_than(aggregation: &str, value: JsonNumber) -> (out: Having)
        ensures
            out@ == (HavingView::LessThan { aggregation: aggregation@, value: value@ }),
    {
        Having::LessThan { aggregation: aggregation.to_string(), value }
    }

    /// Writes the value in its wire form. It is read back as it is.
    pub fn encode(&self) -> (j: Json)
        ensures
            j@ == self@.wire(),
            self@.reads_back(),
            HavingView::parse(j@) == Ok::<HavingView, Failure>(self@),
        decreases self,
    {
        let mut m = no_members();
        match self {
            Having::Filter { filter } => {
                put(&mut m, "type", text_json("filter"));
                put(&mut m, "filter", filter.encode());
            },
            Having::GreaterThan { aggregation, value } => {
                put(&mut m, "type", text_json("greaterThan"));
                put(&mut m, "aggregation", text_json(aggregation.as_str()));
                put(&mut m, "value", Json::Number(value.copy()));
            },
            Having::EqualTo { aggregation, value } => {
                put(&mut m, "type", text_json("equalTo"));
                put(&mut m, "aggregation", text_json(aggregation.as_str()));
                put(&mut m, "value", Json::Number(value.copy()));
            },
            Having::LessThan { aggregation, value } => {
                put(&mut m, "type", text_json("lessThan"));
                put(&mut m, "aggregation", text_json(aggregation.as_str()));
                put(&mut m, "value", Json::Number(value.copy()));
            },
            Having::DimSelector { dimension, value } => {
                put(&mut m, "type", text_json("dimSelector"));
                put(&mut m, "dimension", dimension.encode());
                put(&mut m, "value", value.copy());
            },
            Having::And { having_specs } => {
                proof {
                    Having::lemma_values(having_specs@);
                }
                put(&mut m, "type", text_json("and"));
                put(&mut m, "havingSpecs", array_json(Having::encode_list(having_specs)));
            },
            Having::Or { having_specs } => {
                proof {
                    Having::lemma_values(having_specs@);
                }
                put(&mut m, "type", text_json("or"));
                put(&mut m, "havingSpecs", array_json(Having::encode_list(having_specs)));
            },
            Having::Not { having_specs } => {
                put(&mut m, "type", text_json("not"));
                put(&mut m, "havingSpecs", having_specs.encode());
            },
        }
        proof {
            self@.lemma_round_trip();
        }
        object_json(m)
    }

    /// Writes each element of a list in its wire form. Each is read
    /// back as it is.
    pub fn encode_list(list: &Vec<Having>) -> (items: Vec<Json>)
        ensures
            items_view(items@) == HavingView::wire_list(list_view(list@)),
            HavingView::all_read_back(list_view(list@)),
        decreases list,
    {
        let mut items: Vec<Json> = Vec::new();
        let mut i: usize = 0;
        while i < list.len()
            invariant
                i <= list.len(),
                items.len() == i,
                forall|k: int| 0 <= k < i ==> items[k]@ == list[k]@.wire(),
                forall|k: int| 0 <= k < i ==> (#[trigger] list[k]@).reads_back(),
            decreases list.len() - i,
        {
            items.push(list[i].encode());
            i += 1;
        }
        assert(items_view(items@) =~= HavingView::wire_list(list_view(list@)));
        assert forall|k: int| 0 <= k < list.len() implies (#[trigger] list_view(list@)[k]).reads_back() by {
            assert(list[k]@.reads_back());
        }
        items
    }

    /// Reads a value from its wire form.
    pub fn decode(j: &Json) -> (r: Result<Having, DecodeError>)
        ensures
            decoded(r) == HavingView::parse(j@),
        decreases j,
    {
        let m = read_members(j)?;
        let t = text_member(m, "type")?;
        if str_eq(t.as_str(), "filter") {
            Self::decode_filter(m)
        } else if str_eq(t.as_str(), "greaterThan") {
            Self::decode_greater_than(m)
        } else if str_eq(t.as_str(), "equalTo") {
            Self::decode_equal_to(m)
        } else if str_eq(t.as_str(), "lessThan") {
            Self::decode_less_than(m)
        } else if str_eq(t.as_str(), "dimSelector") {
            Self::decode_dim_selector(m)
        } else if str_eq(t.as_str(), "and") {
            Self::decode_and(m)
        } else if str_eq(t.as_str(), "or") {
            Self::decode_or(m)
        } else if str_eq(t.as_str(), "not") {
            Self::decode_not(m)
        } else {
            Err(DecodeError::here(DecodeCause::UnknownVariant).within_key("type"))
        }
    }

    fn decode_filter(m: &Vec<Member>) -> (r: Result<Having, DecodeError>)
        ensures
            decoded(r) == HavingView::parse_filter(members_view(m@)),
        decreases m,
    {
        let filter = under_key(Filter::decode(required_field(m, "filter")?), "filter")?;
        Ok(Having::Filter { filter })
    }

    fn decode_greater_than(m: &Vec<Member>) -> (r: Result<Having, DecodeError>)
        ensures
            decoded(r) == HavingView::parse_greater_than(members_view(m@)),
        decreases m,
    {
        let aggregation = text_member(m, "aggregation")?;
        let value = number_member(m, "value")?;
        Ok(Having::GreaterThan { aggregation, value })
    }

    fn decode_equal_to(m: &Vec<Member>) -> (r: Result<Having, DecodeError>)
        ensures
            decoded(r) == HavingView::parse_equal_to(members_view(m@)),
        decreases m,
    {
        let aggregation = text_member(m, "aggregation")?;
        let value = number_member(m, "value")?;
        Ok(Having::EqualTo { aggregation, value })
    }

    fn decode_less_than(m: &Vec<Member>) -> (r: Result<Having, DecodeError>)
        ensures
            decoded(r) == HavingView::parse_less_than(members_view(m@)),
        decreases m,
    {
        let aggregation = text_member(m, "aggregation")?;
        let value = number_member(m, "value")?;
        Ok(Having::LessThan { aggregation, value })
    }

    fn decode_dim_selector(m: &Vec<Member>) -> (r: Result<Having, DecodeError>)
        ensures
            decoded(r) == HavingView::parse_dim_selector(members_view(m@)),
        decreases m,
    {
        let dimension = under_key(Dimension::decode(required_field(m, "dimension")?), "dimension")?;
        let value = required_field(m, "value")?.copy();
        Ok(Having::DimSelector { dimension, value })
    }

    fn decode_and(m: &Vec<Member>) -> (r: Result<Having, DecodeError>)
        ensures
            decoded(r) == HavingView::parse_and(members_view(m@)),
        decreases m,
    {
        let having_specs = under_key(
            Having::decode_list(items_member(m, "havingSpecs")?),
            "havingSpecs",
        )?;
        proof {
            Having::lemma_values(having_specs@);
        }
        Ok(Having::And { having_specs })
    }

    fn decode_or(m: &Vec<Member>) -> (r: Result<Having, DecodeError>)
        ensures
            decoded(r) == HavingView::parse_or(members_view(m@)),
        decreases m,
    {
        let having_specs = under_key(
            Having::decode_list(items_member(m, "havingSpecs")?),
            "havingSpecs",
        )?;
        proof {
            Having::lemma_values(having_specs@);
        }
        Ok(Having::Or { having_specs })
    }

    fn decode_not(m: &Vec<Member>) -> (r: Result<Having, DecodeError>)
        ensures
            decoded(r) == HavingView::parse_not(members_view(m@)),
        decreases m,
    {
        let having_specs = Box::new(
            under_key(Having::decode(required_field(m, "havingSpecs")?), "havingSpecs")?,
        );
        Ok(Having::Not { having_specs })
    }

    /// Reads each element of an array from its wire form.
    pub fn decode_list(items: &Vec<Json>) -> (r: Result<Vec<Having>, DecodeError>)
        ensures
            decoded_list(r) == HavingView::parse_list(items_view(items@)),
        decreases items,
    {
        let ghost read = |j: JsonValue| HavingView::parse(j);
        let mut out: Vec<Having> = Vec::new();
        let mut i: usize = 0;
        while i < items.len()
            invariant
                i <= items.len(),
                out.len() == i,
                read == (|j: JsonValue| HavingView::parse(j)),
                forall|k: int|
                0 <= k < i ==>
                    (#[trigger] read(items_view(items@)[k])) == Ok::<HavingView, Failure>(out[k]@),
            decreases items.len() - i,
        {
            match Having::decode(&items[i]) {
                Ok(v) => {
                    out.push(v);
                },
                Err(e) => {
                    proof {
                        assert(read(items_view(items@)[i as int]) is Err);
                        lemma_read_all_refused(items_view(items@), read, i as int);
                        HavingView::lemma_parse_list(items_view(items@));
                    }
                    return Err(e.within_index(i));
                },
            }
            i += 1;
        }
        proof {
            lemma_read_all_accepted(items_view(items@), read, list_view(out@));
            HavingView::lemma_parse_list(items_view(items@));
        }
        Ok(out)
    }
}

/// The names of the members differ from one another.
proof fn lemma_keys()
    ensures
        "aggregation"@.len() == 11,
        "dimension"@.len() == 9,
        "filter"@.len() == 6,
        "havingSpecs"@.len() == 11,
        "type"@.len() == 4,
        "value"@.len() == 5,
        "aggregation"@[0] == 'a',
        "havingSpecs"@[0] == 'h',
{
    reveal_strlit("aggregation");
    reveal_strlit("dimension");
    reveal_strlit("filter");
    reveal_strlit("havingSpecs");
    reveal_strlit("type");
    reveal_strlit("value");
}

/// The names that stand for the variants differ from one another.
proof fn lemma_tags()
    ensures
        "and"@.len() == 3,
        "dimSelector"@.len() == 11,
        "equalTo"@.len() == 7,
        "filter"@.len() == 6,
        "greaterThan"@.len() == 11,
        "lessThan"@.len() == 8,
        "not"@.len() == 3,
        "or"@.len() == 2,
        "and"@[0] == 'a',
        "not"@[0] == 'n',
        "dimSelector"@[0] == 'd',
        "greaterThan"@[0] == 'g',
{
    reveal_strlit("and");
    reveal_strlit("dimSelector");
    reveal_strlit("equalTo");
    reveal_strlit("filter");
    reveal_strlit("greaterThan");
    reveal_strlit("lessThan");
    reveal_strlit("not");
    reveal_strlit("or");
}

} // verus!
