//! Filters: conditions on the rows that a query reads.

use vstd::prelude::*;
use crate::codec::{
    array_json, as_members, decoded_list, field_with, flag, flag_field, flag_json, flag_member,
    items_field, items_member, lemma_items_field_smaller, lemma_lookup_smaller,
    lemma_read_all_accepted, lemma_read_all_empty, lemma_read_all_refused, lemma_read_all_step,
    lemma_texts_round_trip, list_view, member, no_members, object_json, opt_field_with,
    opt_text_field, opt_text_member, opt_view, present_field, put, read_all, read_members,
    required, required_field, strings_view, strs_view, text, text_field, text_json,
    text_member, texts, texts_field, texts_json, texts_member, to_strings, under, under_key,
};
use crate::error::{decoded, DecodeCause, DecodeError, Failure};
use crate::json::{
    items_view, lemma_lookup_empty, lemma_lookup_push, members_view, str_eq, Json, JsonValue,
    Member, MemberValue,
};
use crate::query::definitions::extraction_functions::{ExtractFN, ExtractFNView};
use crate::query::definitions::ordering::SortingOrder;

verus! {

/// What a search filter looks for.
#[derive(Debug, PartialEq)]
pub enum FilterQuerySpec {
    /// The value occurs in the dimension.
    Contains {
        value: String,
        case_sensitive: bool,
    },
    /// The value occurs in the dimension, whatever the case.
    InsensitiveContains {
        value: String,
    },
    /// Every one of the values occurs in the dimension.
    Fragment {
        values: Vec<String>,
        case_sensitive: bool,
    },
}

/// Mathematical value of a [`FilterQuerySpec`].
pub enum FilterQuerySpecView {
    Contains {
        value: Seq<char>,
        case_sensitive: bool,
    },
    InsensitiveContains {
        value: Seq<char>,
    },
    Fragment {
        values: Seq<Seq<char>>,
        case_sensitive: bool,
    },
}

impl View for FilterQuerySpec {
    type V = FilterQuerySpecView;

    open spec fn view(&self) -> FilterQuerySpecView {
        match self {
            FilterQuerySpec::Contains { value, case_sensitive } => FilterQuerySpecView::Contains {
                value: value@,
                case_sensitive: *case_sensitive,
            },
            FilterQuerySpec::InsensitiveContains { value } => FilterQuerySpecView::InsensitiveContains {
                value: value@,
            },
            FilterQuerySpec::Fragment { values, case_sensitive } => FilterQuerySpecView::Fragment {
                values: strings_view(values@),
                case_sensitive: *case_sensitive,
            },
        }
    }
}

impl FilterQuerySpecView {
    /// The discriminator that stands for the variant on the wire.
    pub open spec fn tag(self) -> Seq<char> {
        match self {
            FilterQuerySpecView::Contains { .. } => "contains"@,
            FilterQuerySpecView::InsensitiveContains { .. } => "insensitive_contains"@,
            FilterQuerySpecView::Fragment { .. } => "fragment"@,
        }
    }

    /// Whether a discriminator stands for a variant of this family.
    pub open spec fn known_tag(t: Seq<char>) -> bool {
        t == "contains"@
            || t == "insensitive_contains"@
            || t == "fragment"@
    }

    /// The wire form.
    pub open spec fn wire(self) -> JsonValue {
        match self {
            FilterQuerySpecView::Contains { value, case_sensitive } => JsonValue::Object(
                Seq::empty()
                    .push(member("type"@, text("contains"@)))
                    .push(member("value"@, text(value)))
                    .push(member("caseSensitive"@, flag(case_sensitive))),
            ),
            FilterQuerySpecView::InsensitiveContains { value } => JsonValue::Object(
                Seq::empty()
                    .push(member("type"@, text("insensitive_contains"@)))
                    .push(member("value"@, text(value))),
            ),
            FilterQuerySpecView::Fragment { values, case_sensitive } => JsonValue::Object(
                Seq::empty()
                    .push(member("type"@, text("fragment"@)))
                    .push(member("values"@, texts(values)))
                    .push(member("caseSensitive"@, flag(case_sensitive))),
            ),
        }
    }

    /// What a document is read as.
    pub open spec fn parse(j: JsonValue) -> Result<FilterQuerySpecView, Failure> {
        match as_members(j) {
            Ok(m) => match text_field(m, "type"@) {
                Ok(t) => if t == "contains"@ {
                    Self::parse_contains(m)
                } else if t == "insensitive_contains"@ {
                    Self::parse_insensitive_contains(m)
                } else if t == "fragment"@ {
                    Self::parse_fragment(m)
                } else {
                    Err(Failure::here(DecodeCause::UnknownVariant).within_key("type"@))
                },
                Err(e) => Err(e),
            },
            Err(e) => Err(e),
        }
    }

    /// The members of the variant `contains`, read.
    pub open spec fn parse_contains(m: Seq<MemberValue>) -> Result<FilterQuerySpecView, Failure> {
        let value = text_field(m, "value"@);
        let case_sensitive = flag_field(m, "caseSensitive"@);
        if value is Err {
            Err(value->Err_0)
        } else if case_sensitive is Err {
            Err(case_sensitive->Err_0)
        } else {
            Ok(
                FilterQuerySpecView::Contains {
                    value: value->Ok_0,
                    case_sensitive: case_sensitive->Ok_0,
                },
            )
        }
    }

    /// The members of the variant `insensitive_contains`, read.
    pub open spec fn parse_insensitive_contains(m: Seq<MemberValue>) -> Result<FilterQuerySpecView, Failure> {
        let value = text_field(m, "value"@);
        if value is Err {
            Err(value->Err_0)
        } else {
            Ok(FilterQuerySpecView::InsensitiveContains { value: value->Ok_0 })
        }
    }

    /// The members of the variant `fragment`, read.
    pub open spec fn parse_fragment(m: Seq<MemberValue>) -> Result<FilterQuerySpecView, Failure> {
        let values = texts_field(m, "values"@);
        let case_sensitive = flag_field(m, "caseSensitive"@);
        if values is Err {
            Err(values->Err_0)
        } else if case_sensitive is Err {
            Err(case_sensitive->Err_0)
        } else {
            Ok(
                FilterQuerySpecView::Fragment {
                    values: values->Ok_0,
                    case_sensitive: case_sensitive->Ok_0,
                },
            )
        }
    }

    /// What is written is never `null`.
    pub proof fn lemma_wire_not_null(self)
        ensures
            !(self.wire() is Null),
    {
    }

    /// Reading back what was written gives the value again.
    pub proof fn lemma_round_trip(self)
        ensures
            Self::parse(self.wire()) == Ok::<FilterQuerySpecView, Failure>(self),
    {
        match self {
            FilterQuerySpecView::Contains { value, case_sensitive } => {
                Self::lemma_members_contains(self.wire(), value, case_sensitive);
                Self::lemma_parse_contains(self.wire());
            },
            FilterQuerySpecView::InsensitiveContains { value } => {
                Self::lemma_members_insensitive_contains(self.wire(), value);
                Self::lemma_parse_insensitive_contains(self.wire());
            },
            FilterQuerySpecView::Fragment { values, case_sensitive } => {
                Self::lemma_members_fragment(self.wire(), values, case_sensitive);
                Self::lemma_parse_fragment(self.wire());
            },
        }
    }

    /// The members that are written for the variant `contains` are read
    /// back as the value, given that its parts are read back from their
    /// wire forms.
    proof fn lemma_members_contains(j: JsonValue, value: Seq<char>, case_sensitive: bool)
        requires
            j == JsonValue::Object(
                Seq::empty()
                    .push(member("type"@, text("contains"@)))
                    .push(member("value"@, text(value)))
                    .push(member("caseSensitive"@, flag(case_sensitive))),
            ),
        ensures
            j is Object,
            Self::parse_contains(j->Object_0) == Ok::<FilterQuerySpecView, Failure>(
                FilterQuerySpecView::Contains { value, case_sensitive },
            ),
            text_field(j->Object_0, "type"@) == Ok::<Seq<char>, Failure>("contains"@),
    {
        broadcast use {lemma_lookup_push, lemma_lookup_empty};

        lemma_keys();
    }

    /// An object with the discriminator `contains` is read as that variant.
    proof fn lemma_parse_contains(j: JsonValue)
        requires
            j is Object,
            text_field(j->Object_0, "type"@) == Ok::<Seq<char>, Failure>("contains"@),
        ensures
            Self::parse(j) == Self::parse_contains(j->Object_0),
    {
        lemma_tags();
    }

    /// The members that are written for the variant `insensitive_contains` are read
    /// back as the value, given that its parts are read back from their
    /// wire forms.
    proof fn lemma_members_insensitive_contains(j: JsonValue, value: Seq<char>)
        requires
            j == JsonValue::Object(
                Seq::empty()
                    .push(member("type"@, text("insensitive_contains"@)))
                    .push(member("value"@, text(value))),
            ),
        ensures
            j is Object,
            Self::parse_insensitive_contains(j->Object_0) == Ok::<FilterQuerySpecView, Failure>(
                FilterQuerySpecView::InsensitiveContains { value },
            ),
            text_field(j->Object_0, "type"@) == Ok::<Seq<char>, Failure>("insensitive_contains"@),
    {
        broadcast use {lemma_lookup_push, lemma_lookup_empty};

        lemma_keys();
    }

    /// An object with the discriminator `insensitive_contains` is read as that variant.
    proof fn lemma_parse_insensitive_contains(j: JsonValue)
        requires
            j is Object,
            text_field(j->Object_0, "type"@) == Ok::<Seq<char>, Failure>("insensitive_contains"@),
        ensures
            Self::parse(j) == Self::parse_insensitive_contains(j->Object_0),
    {
        lemma_tags();
    }

    /// The members that are written for the variant `fragment` are read
    /// back as the value, given that its parts are read back from their
    /// wire forms.
    proof fn lemma_members_fragment(j: JsonValue, values: Seq<Seq<char>>, case_sensitive: bool)
        requires
            j == JsonValue::Object(
                Seq::empty()
                    .push(member("type"@, text("fragment"@)))
                    .push(member("values"@, texts(values)))
                    .push(member("caseSensitive"@, flag(case_sensitive))),
            ),
        ensures
            j is Object,
            Self::parse_fragment(j->Object_0) == Ok::<FilterQuerySpecView, Failure>(
                FilterQuerySpecView::Fragment { values, case_sensitive },
            ),
            text_field(j->Object_0, "type"@) == Ok::<Seq<char>, Failure>("fragment"@),
    {
        broadcast use {lemma_lookup_push, lemma_lookup_empty};

        lemma_keys();
        lemma_texts_round_trip(values);
    }

    /// An object with the discriminator `fragment` is read as that variant.
    proof fn lemma_parse_fragment(j: JsonValue)
        requires
            j is Object,
            text_field(j->Object_0, "type"@) == Ok::<Seq<char>, Failure>("fragment"@),
        ensures
            Self::parse(j) == Self::parse_fragment(j->Object_0),
    {
        lemma_tags();
    }

    /// What is written for a variant carries its discriminator.
    pub proof fn lemma_tag(self)
        ensures
            self.wire() is Object,
            text_field(self.wire()->Object_0, "type"@) == Ok::<Seq<char>, Failure>(self.tag()),
            Self::known_tag(self.tag()),
    {
        broadcast use {lemma_lookup_push, lemma_lookup_empty};

        lemma_keys();
    }

    /// An object whose discriminator stands for no variant of the
    /// family is refused as an unknown variant; it is read as none.
    pub proof fn lemma_unknown_tag(j: JsonValue)
        requires
            j is Object,
            text_field(j->Object_0, "type"@) is Ok,
            !Self::known_tag(text_field(j->Object_0, "type"@)->Ok_0),
        ensures
            Self::parse(j) == Err::<FilterQuerySpecView, Failure>(
                Failure::here(DecodeCause::UnknownVariant).within_key("type"@),
            ),
    {
    }

}

impl FilterQuerySpec {
    /// Writes the value in its wire form.
    pub fn encode(&self) -> (j: Json)
        ensures
            j@ == self@.wire(),
    {
        let mut m = no_members();
        match self {
            FilterQuerySpec::Contains { value, case_sensitive } => {
                put(&mut m, "type", text_json("contains"));
                put(&mut m, "value", text_json(value.as_str()));
                put(&mut m, "caseSensitive", flag_json(*case_sensitive));
            },
            FilterQuerySpec::InsensitiveContains { value } => {
                put(&mut m, "type", text_json("insensitive_contains"));
                put(&mut m, "value", text_json(value.as_str()));
            },
            FilterQuerySpec::Fragment { values, case_sensitive } => {
                put(&mut m, "type", text_json("fragment"));
                put(&mut m, "values", texts_json(values));
                put(&mut m, "caseSensitive", flag_json(*case_sensitive));
            },
        }
        object_json(m)
    }

    /// Reads a value from its wire form.
    pub fn decode(j: &Json) -> (r: Result<FilterQuerySpec, DecodeError>)
        ensures
            decoded(r) == FilterQuerySpecView::parse(j@),
    {
        let m = read_members(j)?;
        let t = text_member(m, "type")?;
        if str_eq(t.as_str(), "contains") {
            Self::decode_contains(m)
        } else if str_eq(t.as_str(), "insensitive_contains") {
            Self::decode_insensitive_contains(m)
        } else if str_eq(t.as_str(), "fragment") {
            Self::decode_fragment(m)
        } else {
            Err(DecodeError::here(DecodeCause::UnknownVariant).within_key("type"))
        }
    }

    fn decode_contains(m: &Vec<Member>) -> (r: Result<FilterQuerySpec, DecodeError>)
        ensures
            decoded(r) == FilterQuerySpecView::parse_contains(members_view(m@)),
    {
        let value = text_member(m, "value")?;
        let case_sensitive = flag_member(m, "caseSensitive")?;
        Ok(FilterQuerySpec::Contains { value, case_sensitive })
    }

    fn decode_insensitive_contains(m: &Vec<Member>) -> (r: Result<FilterQuerySpec, DecodeError>)
        ensures
            decoded(r) == FilterQuerySpecView::parse_insensitive_contains(members_view(m@)),
    {
        let value = text_member(m, "value")?;
        Ok(FilterQuerySpec::InsensitiveContains { value })
    }

    fn decode_fragment(m: &Vec<Member>) -> (r: Result<FilterQuerySpec, DecodeError>)
        ensures
            decoded(r) == FilterQuerySpecView::parse_fragment(members_view(m@)),
    {
        let values = texts_member(m, "values")?;
        let case_sensitive = flag_member(m, "caseSensitive")?;
        Ok(FilterQuerySpec::Fragment { values, case_sensitive })
    }
}

/// A condition on the rows that a query reads.
#[derive(Debug, PartialEq)]
pub enum Filter {
    /// The dimension has the value.
    Selector {
        dimension: String,
        value: String,
        extract_fn: Option<ExtractFN>,
    },
    /// The dimensions have the same value.
    ColumnComparison {
        dimensions: Vec<String>,
    },
    /// The dimension matches a regular expression.
    Regex {
        dimension: String,
        pattern: String,
    },
    /// Every one of the filters holds.
    And {
        fields: Vec<Filter>,
    },
    /// One of the filters holds.
    Or {
        fields: Vec<Filter>,
    },
    /// The filter does not hold.
    Not {
        field: Box<Filter>,
    },
    /// A JavaScript function of the dimension is true.
    Javascript {
        dimension: String,
        function: String,
    },
    /// The dimension holds what is searched for.
    Search {
        dimension: String,
        query: FilterQuerySpec,
    },
    /// The dimension has one of the values.
    In {
        dimension: String,
        values: Vec<String>,
    },
    /// The dimension matches a pattern with wildcards.
    Like {
        dimension: String,
        pattern: String,
        escape: Option<String>,
        extraction_fn: Option<ExtractFN>,
    },
    /// The dimension lies between two bounds. Nothing here asks that the lower bound is the smaller one.
    Bound {
        dimension: String,
        lower: String,
        upper: String,
        lower_strict: bool,
        upper_strict: bool,
        ordering: SortingOrder,
        extraction_fn: Option<ExtractFN>,
    },
    /// The dimension, read as a time, lies in one of the intervals.
    Interval {
        dimension: String,
        intervals: Vec<String>,
        extraction_fn: Option<ExtractFN>,
    },
    /// Every row.
    True,
}

/// Mathematical value of a [`Filter`].
pub enum FilterView {
    Selector {
        dimension: Seq<char>,
        value: Seq<char>,
        extract_fn: Option<ExtractFNView>,
    },
    ColumnComparison {
        dimensions: Seq<Seq<char>>,
    },
    Regex {
        dimension: Seq<char>,
        pattern: Seq<char>,
    },
    And {
        fields: Seq<FilterView>,
    },
    Or {
        fields: Seq<FilterView>,
    },
    Not {
        field: Box<FilterView>,
    },
    Javascript {
        dimension: Seq<char>,
        function: Seq<char>,
    },
    Search {
        dimension: Seq<char>,
        query: FilterQuerySpecView,
    },
    In {
        dimension: Seq<char>,
        values: Seq<Seq<char>>,
    },
    Like {
        dimension: Seq<char>,
        pattern: Seq<char>,
        escape: Option<Seq<char>>,
        extraction_fn: Option<ExtractFNView>,
    },
    Bound {
        dimension: Seq<char>,
        lower: Seq<char>,
        upper: Seq<char>,
        lower_strict: bool,
        upper_strict: bool,
        ordering: SortingOrder,
        extraction_fn: Option<ExtractFNView>,
    },
    Interval {
        dimension: Seq<char>,
        intervals: Seq<Seq<char>>,
        extraction_fn: Option<ExtractFNView>,
    },
    True,
}

impl Filter {
    /// The mathematical value.
    pub open spec fn value(self) -> FilterView
        decreases self,
    {
        match self {
            Filter::Selector { dimension, value, extract_fn } => FilterView::Selector {
                dimension: dimension@,
                value: value@,
                extract_fn: opt_view(extract_fn),
            },
            Filter::ColumnComparison { dimensions } => FilterView::ColumnComparison {
                dimensions: strings_view(dimensions@),
            },
            Filter::Regex { dimension, pattern } => FilterView::Regex {
                dimension: dimension@,
                pattern: pattern@,
            },
            Filter::And { fields } => FilterView::And {
                fields: Self::values(fields@),
            },
            Filter::Or { fields } => FilterView::Or {
                fields: Self::values(fields@),
            },
            Filter::Not { field } => FilterView::Not {
                field: Box::new(field.value()),
            },
            Filter::Javascript { dimension, function } => FilterView::Javascript {
                dimension: dimension@,
                function: function@,
            },
            Filter::Search { dimension, query } => FilterView::Search {
                dimension: dimension@,
                query: query@,
            },
            Filter::In { dimension, values } => FilterView::In {
                dimension: dimension@,
                values: strings_view(values@),
            },
            Filter::Like { dimension, pattern, escape, extraction_fn } => FilterView::Like {
                dimension: dimension@,
                pattern: pattern@,
                escape: opt_view(escape),
                extraction_fn: opt_view(extraction_fn),
            },
            Filter::Bound { dimension, lower, upper, lower_strict, upper_strict, ordering, extraction_fn } => FilterView::Bound {
                dimension: dimension@,
                lower: lower@,
                upper: upper@,
                lower_strict: lower_strict,
                upper_strict: upper_strict,
                ordering: ordering,
                extraction_fn: opt_view(extraction_fn),
            },
            Filter::Interval { dimension, intervals, extraction_fn } => FilterView::Interval {
                dimension: dimension@,
                intervals: strings_view(intervals@),
                extraction_fn: opt_view(extraction_fn),
            },
            Filter::True => FilterView::True,
        }
    }

    /// The mathematical values of the elements of a list.
    pub open spec fn values(list: Seq<Filter>) -> Seq<FilterView>
        decreases list,
    {
        Seq::new(
            list.len(),
            |i: int| if 0 <= i < list.len() { list[i].value() } else { arbitrary() },
        )
    }

    /// [`Self::values`] is the view of the list.
    pub proof fn lemma_values(list: Seq<Filter>)
        ensures
            Self::values(list) == list_view(list),
    {
        assert(Self::values(list) =~= list_view(list));
    }
}

impl View for Filter {
    type V = FilterView;

    open spec fn view(&self) -> FilterView {
        self.value()
    }
}

impl FilterView {
    /// The discriminator that stands for the variant on the wire.
    pub open spec fn tag(self) -> Seq<char> {
        match self {
            FilterView::Selector { .. } => "selector"@,
            FilterView::ColumnComparison { .. } => "columnComparison"@,
            FilterView::Regex { .. } => "regex"@,
            FilterView::And { .. } => "and"@,
            FilterView::Or { .. } => "or"@,
            FilterView::Not { .. } => "not"@,
            FilterView::Javascript { .. } => "javascript"@,
            FilterView::Search { .. } => "search"@,
            FilterView::In { .. } => "in"@,
            FilterView::Like { .. } => "like"@,
            FilterView::Bound { .. } => "bound"@,
            FilterView::Interval { .. } => "interval"@,
            FilterView::True => "true"@,
        }
    }

    /// Whether a discriminator stands for a variant of this family.
    pub open spec fn known_tag(t: Seq<char>) -> bool {
        t == "selector"@
            || t == "columnComparison"@
            || t == "regex"@
            || t == "and"@
            || t == "or"@
            || t == "not"@
            || t == "javascript"@
            || t == "search"@
            || t == "in"@
            || t == "like"@
            || t == "bound"@
            || t == "interval"@
            || t == "true"@
    }

    /// The wire form.
    pub open spec fn wire(self) -> JsonValue
        decreases self,
    {
        match self {
            FilterView::Selector { dimension, value, extract_fn } => {
                let members = Seq::empty()
                    .push(member("type"@, text("selector"@)))
                    .push(member("dimension"@, text(dimension)))
                    .push(member("value"@, text(value)));
                let members = match extract_fn {
                    Some(v) => members.push(member("extractFn"@, v.wire())),
                    None => members,
                };
                JsonValue::Object(members)
            },
            FilterView::ColumnComparison { dimensions } => JsonValue::Object(
                Seq::empty()
                    .push(member("type"@, text("columnComparison"@)))
                    .push(member("dimensions"@, texts(dimensions))),
            ),
            FilterView::Regex { dimension, pattern } => JsonValue::Object(
                Seq::empty()
                    .push(member("type"@, text("regex"@)))
                    .push(member("dimension"@, text(dimension)))
                    .push(member("pattern"@, text(pattern))),
            ),
            FilterView::And { fields } => JsonValue::Object(
                Seq::empty()
                    .push(member("type"@, text("and"@)))
                    .push(member("fields"@, JsonValue::Array(FilterView::wire_list(fields)))),
            ),
            FilterView::Or { fields } => JsonValue::Object(
                Seq::empty()
                    .push(member("type"@, text("or"@)))
                    .push(member("fields"@, JsonValue::Array(FilterView::wire_list(fields)))),
            ),
            FilterView::Not { field } => JsonValue::Object(
                Seq::empty()
                    .push(member("type"@, text("not"@)))
                    .push(member("field"@, field.wire())),
            ),
            FilterView::Javascript { dimension, function } => JsonValue::Object(
                Seq::empty()
                    .push(member("type"@, text("javascript"@)))
                    .push(member("dimension"@, text(dimension)))
                    .push(member("function"@, text(function))),
            ),
            FilterView::Search { dimension, query } => JsonValue::Object(
                Seq::empty()
                    .push(member("type"@, text("search"@)))
                    .push(member("dimension"@, text(dimension)))
                    .push(member("query"@, query.wire())),
            ),
            FilterView::In { dimension, values } => JsonValue::Object(
                Seq::empty()
                    .push(member("type"@, text("in"@)))
                    .push(member("dimension"@, text(dimension)))
                    .push(member("values"@, texts(values))),
            ),
            FilterView::Like { dimension, pattern, escape, extraction_fn } => {
                let members = Seq::empty()
                    .push(member("type"@, text("like"@)))
                    .push(member("dimension"@, text(dimension)))
                    .push(member("pattern"@, text(pattern)));
                let members = match escape {
                    Some(v) => members.push(member("escape"@, text(v))),
                    None => members,
                };
                let members = match extraction_fn {
                    Some(v) => members.push(member("extractionFn"@, v.wire())),
                    None => members,
                };
                JsonValue::Object(members)
            },
            FilterView::Bound {
                dimension,
                lower,
                upper,
                lower_strict,
                upper_strict,
                ordering,
                extraction_fn,
            } => {
                let members = Seq::empty()
                    .push(member("type"@, text("bound"@)))
                    .push(member("dimension"@, text(dimension)))
                    .push(member("lower"@, text(lower)))
                    .push(member("upper"@, text(upper)))
                    .push(member("lowerStrict"@, flag(lower_strict)))
                    .push(member("upperStrict"@, flag(upper_strict)))
                    .push(member("ordering"@, ordering.wire()));
                let members = match extraction_fn {
                    Some(v) => members.push(member("extractionFn"@, v.wire())),
                    None => members,
                };
                JsonValue::Object(members)
            },
            FilterView::Interval { dimension, intervals, extraction_fn } => {
                let members = Seq::empty()
                    .push(member("type"@, text("interval"@)))
                    .push(member("dimension"@, text(dimension)))
                    .push(member("intervals"@, texts(intervals)));
                let members = match extraction_fn {
                    Some(v) => members.push(member("extractionFn"@, v.wire())),
                    None => members,
                };
                JsonValue::Object(members)
            },
            FilterView::True => JsonValue::Object(
                Seq::empty()
                    .push(member("type"@, text("true"@))),
            ),
        }
    }

    /// The wire forms of the elements of a list.
    pub open spec fn wire_list(list: Seq<FilterView>) -> Seq<JsonValue>
        decreases list,
    {
        Seq::new(
            list.len(),
            |i: int| if 0 <= i < list.len() { list[i].wire() } else { arbitrary() },
        )
    }

    /// Whether the parts that are not read back whatever they hold are
    /// read back as they are: every interval inside, and every map
    /// inside, which has to hold each key once.
    pub open spec fn reads_back(self) -> bool
        decreases self,
    {
        match self {
            FilterView::Selector { extract_fn, .. } => (
                extract_fn matches Some(v) ==> v.reads_back()
            ),
            FilterView::ColumnComparison { .. } => true,
            FilterView::Regex { .. } => true,
            FilterView::And { fields } => Self::all_read_back(fields),
            FilterView::Or { fields } => Self::all_read_back(fields),
            FilterView::Not { field } => field.reads_back(),
            FilterView::Javascript { .. } => true,
            FilterView::Search { .. } => true,
            FilterView::In { .. } => true,
            FilterView::Like { extraction_fn, .. } => (
                extraction_fn matches Some(v) ==> v.reads_back()
            ),
            FilterView::Bound { extraction_fn, .. } => (
                extraction_fn matches Some(v) ==> v.reads_back()
            ),
            FilterView::Interval { extraction_fn, .. } => (
                extraction_fn matches Some(v) ==> v.reads_back()
            ),
            FilterView::True => true,
        }
    }

    /// Whether every element of a list is read back as it is.
    pub open spec fn all_read_back(list: Seq<FilterView>) -> bool
        decreases list,
    {
        forall|i: int| 0 <= i < list.len() ==> (#[trigger] list[i]).reads_back()
    }

    /// What a document is read as.
    pub open spec fn parse(j: JsonValue) -> Result<FilterView, Failure>
        decreases j,
    {
        match as_members(j) {
            Ok(m) => match text_field(m, "type"@) {
                Ok(t) => if t == "selector"@ {
                    Self::parse_selector(m)
                } else if t == "columnComparison"@ {
                    Self::parse_column_comparison(m)
                } else if t == "regex"@ {
                    Self::parse_regex(m)
                } else if t == "and"@ {
                    Self::parse_and(m)
                } else if t == "or"@ {
                    Self::parse_or(m)
                } else if t == "not"@ {
                    Self::parse_not(m)
                } else if t == "javascript"@ {
                    Self::parse_javascript(m)
                } else if t == "search"@ {
                    Self::parse_search(m)
                } else if t == "in"@ {
                    Self::parse_in(m)
                } else if t == "like"@ {
                    Self::parse_like(m)
                } else if t == "bound"@ {
                    Self::parse_bound(m)
                } else if t == "interval"@ {
                    Self::parse_interval(m)
                } else if t == "true"@ {
                    Self::parse_true(m)
                } else {
                    Err(Failure::here(DecodeCause::UnknownVariant).within_key("type"@))
                },
                Err(e) => Err(e),
            },
            Err(e) => Err(e),
        }
    }

    /// The members of the variant `selector`, read.
    pub open spec fn parse_selector(m: Seq<MemberValue>) -> Result<FilterView, Failure>
        decreases m,
    {
        let dimension = text_field(m, "dimension"@);
        let value = text_field(m, "value"@);
        let extract_fn = opt_field_with(m, "extractFn"@, |v: JsonValue| ExtractFNView::parse(v));
        if dimension is Err {
            Err(dimension->Err_0)
        } else if value is Err {
            Err(value->Err_0)
        } else if extract_fn is Err {
            Err(extract_fn->Err_0)
        } else {
            Ok(
                FilterView::Selector {
                    dimension: dimension->Ok_0,
                    value: value->Ok_0,
                    extract_fn: extract_fn->Ok_0,
                },
            )
        }
    }

    /// The members of the variant `columnComparison`, read.
    pub open spec fn parse_column_comparison(m: Seq<MemberValue>) -> Result<FilterView, Failure>
        decreases m,
    {
        let dimensions = texts_field(m, "dimensions"@);
        if dimensions is Err {
            Err(dimensions->Err_0)
        } else {
            Ok(FilterView::ColumnComparison { dimensions: dimensions->Ok_0 })
        }
    }

    /// The members of the variant `regex`, read.
    pub open spec fn parse_regex(m: Seq<MemberValue>) -> Result<FilterView, Failure>
        decreases m,
    {
        let dimension = text_field(m, "dimension"@);
        let pattern = text_field(m, "pattern"@);
        if dimension is Err {
            Err(dimension->Err_0)
        } else if pattern is Err {
            Err(pattern->Err_0)
        } else {
            Ok(FilterView::Regex { dimension: dimension->Ok_0, pattern: pattern->Ok_0 })
        }
    }

    /// The members of the variant `and`, read.
    pub open spec fn parse_and(m: Seq<MemberValue>) -> Result<FilterView, Failure>
        decreases m,
    {
        let fields = match items_field(m, "fields"@) {
            Ok(items) => {
                proof { lemma_items_field_smaller(m, "fields"@); }
                under("fields"@, FilterView::parse_list(items))
            },
            Err(e) => Err(e),
        };
        if fields is Err {
            Err(fields->Err_0)
        } else {
            Ok(FilterView::And { fields: fields->Ok_0 })
        }
    }

    /// The members of the variant `or`, read.
    pub open spec fn parse_or(m: Seq<MemberValue>) -> Result<FilterView, Failure>
        decreases m,
    {
        let fields = match items_field(m, "fields"@) {
            Ok(items) => {
                proof { lemma_items_field_smaller(m, "fields"@); }
                under("fields"@, FilterView::parse_list(items))
            },
            Err(e) => Err(e),
        };
        if fields is Err {
            Err(fields->Err_0)
        } else {
            Ok(FilterView::Or { fields: fields->Ok_0 })
        }
    }

    /// The members of the variant `not`, read.
    pub open spec fn parse_not(m: Seq<MemberValue>) -> Result<FilterView, Failure>
        decreases m,
    {
        let field = match required(m, "field"@) {
            Ok(v) => {
                proof { lemma_lookup_smaller(m, "field"@); }
                under("field"@, FilterView::parse(v))
            },
            Err(e) => Err(e),
        };
        if field is Err {
            Err(field->Err_0)
        } else {
            Ok(FilterView::Not { field: Box::new(field->Ok_0) })
        }
    }

    /// The members of the variant `javascript`, read.
    pub open spec fn parse_javascript(m: Seq<MemberValue>) -> Result<FilterView, Failure>
        decreases m,
    {
        let dimension = text_field(m, "dimension"@);
        let function = text_field(m, "function"@);
        if dimension is Err {
            Err(dimension->Err_0)
        } else if function is Err {
            Err(function->Err_0)
        } else {
            Ok(FilterView::Javascript { dimension: dimension->Ok_0, function: function->Ok_0 })
        }
    }

    /// The members of the variant `search`, read.
    pub open spec fn parse_search(m: Seq<MemberValue>) -> Result<FilterView, Failure>
        decreases m,
    {
        let dimension = text_field(m, "dimension"@);
        let query = field_with(m, "query"@, |v: JsonValue| FilterQuerySpecView::parse(v));
        if dimension is Err {
            Err(dimension->Err_0)
        } else if query is Err {
            Err(query->Err_0)
        } else {
            Ok(FilterView::Search { dimension: dimension->Ok_0, query: query->Ok_0 })
        }
    }

    /// The members of the variant `in`, read.
    pub open spec fn parse_in(m: Seq<MemberValue>) -> Result<FilterView, Failure>
        decreases m,
    {
        let dimension = text_field(m, "dimension"@);
        let values = texts_field(m, "values"@);
        if dimension is Err {
            Err(dimension->Err_0)
        } else if values is Err {
            Err(values->Err_0)
        } else {
            Ok(FilterView::In { dimension: dimension->Ok_0, values: values->Ok_0 })
        }
    }

    /// The members of the variant `like`, read.
    pub open spec fn parse_like(m: Seq<MemberValue>) -> Result<FilterView, Failure>
        decreases m,
    {
        let dimension = text_field(m, "dimension"@);
        let pattern = text_field(m, "pattern"@);
        let escape = opt_text_field(m, "escape"@);
        let extraction_fn = opt_field_with(
            m,
            "extractionFn"@,
            |v: JsonValue| ExtractFNView::parse(v),
        );
        if dimension is Err {
            Err(dimension->Err_0)
        } else if pattern is Err {
            Err(pattern->Err_0)
        } else if escape is Err {
            Err(escape->Err_0)
        } else if extraction_fn is Err {
            Err(extraction_fn->Err_0)
        } else {
            Ok(
                FilterView::Like {
                    dimension: dimension->Ok_0,
                    pattern: pattern->Ok_0,
                    escape: escape->Ok_0,
                    extraction_fn: extraction_fn->Ok_0,
                },
            )
        }
    }

    /// The members of the variant `bound`, read.
    pub open spec fn parse_bound(m: Seq<MemberValue>) -> Result<FilterView, Failure>
        decreases m,
    {
        let dimension = text_field(m, "dimension"@);
        let lower = text_field(m, "lower"@);
        let upper = text_field(m, "upper"@);
        let lower_strict = flag_field(m, "lowerStrict"@);
        let upper_strict = flag_field(m, "upperStrict"@);
        let ordering = field_with(m, "ordering"@, |v: JsonValue| SortingOrder::parse(v));
        let extraction_fn = opt_field_with(
            m,
            "extractionFn"@,
            |v: JsonValue| ExtractFNView::parse(v),
        );
        if dimension is Err {
            Err(dimension->Err_0)
        } else if lower is Err {
            Err(lower->Err_0)
        } else if upper is Err {
            Err(upper->Err_0)
        } else if lower_strict is Err {
            Err(lower_strict->Err_0)
        } else if upper_strict is Err {
            Err(upper_strict->Err_0)
        } else if ordering is Err {
            Err(ordering->Err_0)
        } else if extraction_fn is Err {
            Err(extraction_fn->Err_0)
        } else {
            Ok(
                FilterView::Bound {
                    dimension: dimension->Ok_0,
                    lower: lower->Ok_0,
                    upper: upper->Ok_0,
                    lower_strict: lower_strict->Ok_0,
                    upper_strict: upper_strict->Ok_0,
                    ordering: ordering->Ok_0,
                    extraction_fn: extraction_fn->Ok_0,
                },
            )
        }
    }

    /// The members of the variant `interval`, read.
    pub open spec fn parse_interval(m: Seq<MemberValue>) -> Result<FilterView, Failure>
        decreases m,
    {
        let dimension = text_field(m, "dimension"@);
        let intervals = texts_field(m, "intervals"@);
        let extraction_fn = opt_field_with(
            m,
            "extractionFn"@,
            |v: JsonValue| ExtractFNView::parse(v),
        );
        if dimension is Err {
            Err(dimension->Err_0)
        } else if intervals is Err {
            Err(intervals->Err_0)
        } else if extraction_fn is Err {
            Err(extraction_fn->Err_0)
        } else {
            Ok(
                FilterView::Interval {
                    dimension: dimension->Ok_0,
                    intervals: intervals->Ok_0,
                    extraction_fn: extraction_fn->Ok_0,
                },
            )
        }
    }

    /// The members of the variant `true`, read.
    pub open spec fn parse_true(m: Seq<MemberValue>) -> Result<FilterView, Failure>
        decreases m,
    {
        Ok(FilterView::True)
    }

    /// Every element of an array, read: the list of what was read, or
    /// the failure of the first element that is refused, seen from its
    /// index.
    pub open spec fn parse_list(items: Seq<JsonValue>) -> Result<Seq<FilterView>, Failure>
        decreases items,
    {
        if items.len() == 0 {
            Ok(Seq::empty())
        } else {
            match Self::parse_list(items.drop_last()) {
                Ok(front) => match Self::parse(items.last()) {
                    Ok(v) => Ok(front.push(v)),
                    Err(e) => Err(e.within_index((items.len() - 1) as nat)),
                },
                Err(e) => Err(e),
            }
        }
    }

    /// [`Self::wire_list`] writes each element.
    pub proof fn lemma_wire_list(list: Seq<FilterView>)
        ensures
            Self::wire_list(list) == list.map_values(|x: FilterView| x.wire()),
    {
        assert(Self::wire_list(list) =~= list.map_values(|x: FilterView| x.wire()));
    }

    /// [`Self::parse_list`] reads each element.
    pub proof fn lemma_parse_list(items: Seq<JsonValue>)
        ensures
            Self::parse_list(items) == read_all(items, |j: JsonValue| Self::parse(j)),
        decreases items.len(),
    {
        let read = |j: JsonValue| Self::parse(j);
        if items.len() == 0 {
            lemma_read_all_empty(items, read);
        } else {
            Self::lemma_parse_list(items.drop_last());
            lemma_read_all_step(items, read);
        }
    }

    /// What is written is never `null`.
    pub proof fn lemma_wire_not_null(self)
        ensures
            !(self.wire() is Null),
    {
    }

    /// Reading back what was written gives the value again, if the
    /// intervals and the maps inside are read back as they are.
    pub proof fn lemma_round_trip(self)
        requires
            self.reads_back(),
        ensures
            Self::parse(self.wire()) == Ok::<FilterView, Failure>(self),
        decreases self,
    {
        match self {
            FilterView::Selector { dimension, value, extract_fn } => {
                if extract_fn is Some {
                    extract_fn->Some_0.lemma_round_trip();
                    extract_fn->Some_0.lemma_wire_not_null();
                }
                Self::lemma_members_selector(
                    self.wire(),
                    dimension,
                    value,
                    extract_fn,
                    match extract_fn { Some(v) => v.wire(), None => JsonValue::Null },
                );
                Self::lemma_parse_selector(self.wire());
            },
            FilterView::ColumnComparison { dimensions } => {
                Self::lemma_members_column_comparison(self.wire(), dimensions);
                Self::lemma_parse_column_comparison(self.wire());
            },
            FilterView::Regex { dimension, pattern } => {
                Self::lemma_members_regex(self.wire(), dimension, pattern);
                Self::lemma_parse_regex(self.wire());
            },
            FilterView::And { fields } => {
                FilterView::lemma_list_round_trip(fields);
                Self::lemma_members_and(self.wire(), fields, FilterView::wire_list(fields));
                Self::lemma_parse_and(self.wire());
            },
            FilterView::Or { fields } => {
                FilterView::lemma_list_round_trip(fields);
                Self::lemma_members_or(self.wire(), fields, FilterView::wire_list(fields));
                Self::lemma_parse_or(self.wire());
            },
            FilterView::Not { field } => {
                field.lemma_round_trip();
                Self::lemma_members_not(self.wire(), *field, field.wire());
                Self::lemma_parse_not(self.wire());
            },
            FilterView::Javascript { dimension, function } => {
                Self::lemma_members_javascript(self.wire(), dimension, function);
                Self::lemma_parse_javascript(self.wire());
            },
            FilterView::Search { dimension, query } => {
                query.lemma_round_trip();
                Self::lemma_members_search(self.wire(), dimension, query, query.wire());
                Self::lemma_parse_search(self.wire());
            },
            FilterView::In { dimension, values } => {
                Self::lemma_members_in(self.wire(), dimension, values);
                Self::lemma_parse_in(self.wire());
            },
            FilterView::Like { dimension, pattern, escape, extraction_fn } => {
                if extraction_fn is Some {
                    extraction_fn->Some_0.lemma_round_trip();
                    extraction_fn->Some_0.lemma_wire_not_null();
                }
                Self::lemma_members_like(
                    self.wire(),
                    dimension,
                    pattern,
                    escape,
                    extraction_fn,
                    match extraction_fn { Some(v) => v.wire(), None => JsonValue::Null },
                );
                Self::lemma_parse_like(self.wire());
            },
            FilterView::Bound {
                dimension,
                lower,
                upper,
                lower_strict,
                upper_strict,
                ordering,
                extraction_fn,
            } => {
                if extraction_fn is Some {
                    extraction_fn->Some_0.lemma_round_trip();
                    extraction_fn->Some_0.lemma_wire_not_null();
                }
                Self::lemma_members_bound(
                    self.wire(),
                    dimension,
                    lower,
                    upper,
                    lower_strict,
                    upper_strict,
                    ordering,
                    extraction_fn,
                    match extraction_fn { Some(v) => v.wire(), None => JsonValue::Null },
                );
                Self::lemma_parse_bound(self.wire());
            },
            FilterView::Interval { dimension, intervals, extraction_fn } => {
                if extraction_fn is Some {
                    extraction_fn->Some_0.lemma_round_trip();
                    extraction_fn->Some_0.lemma_wire_not_null();
                }
                Self::lemma_members_interval(
                    self.wire(),
                    dimension,
                    intervals,
                    extraction_fn,
                    match extraction_fn { Some(v) => v.wire(), None => JsonValue::Null },
                );
                Self::lemma_parse_interval(self.wire());
            },
            FilterView::True => {
                Self::lemma_members_true(self.wire());
                Self::lemma_parse_true(self.wire());
            },
        }
    }

    /// The members that are written for the variant `selector` are read
    /// back as the value, given that its parts are read back from their
    /// wire forms.
    proof fn lemma_members_selector(
        j: JsonValue,
        dimension: Seq<char>,
        value: Seq<char>,
        extract_fn: Option<ExtractFNView>,
        extract_fn_wire: JsonValue,
    )
        requires
            j == ({
                    let members = Seq::empty()
                        .push(member("type"@, text("selector"@)))
                        .push(member("dimension"@, text(dimension)))
                        .push(member("value"@, text(value)));
                    let members = match extract_fn {
                        Some(_) => members.push(member("extractFn"@, extract_fn_wire)),
                        None => members,
                    };
                    JsonValue::Object(members)
            }),
            extract_fn matches Some(v) ==>
                ExtractFNView::parse(extract_fn_wire) == Ok::<ExtractFNView, Failure>(v),
            extract_fn is Some ==> !(extract_fn_wire is Null),
        ensures
            j is Object,
            Self::parse_selector(j->Object_0) == Ok::<FilterView, Failure>(
                FilterView::Selector { dimension, value, extract_fn },
            ),
            text_field(j->Object_0, "type"@) == Ok::<Seq<char>, Failure>("selector"@),
    {
        broadcast use {lemma_lookup_push, lemma_lookup_empty};

        lemma_keys();
    }

    /// An object with the discriminator `selector` is read as that variant.
    proof fn lemma_parse_selector(j: JsonValue)
        requires
            j is Object,
            text_field(j->Object_0, "type"@) == Ok::<Seq<char>, Failure>("selector"@),
        ensures
            Self::parse(j) == Self::parse_selector(j->Object_0),
    {
        lemma_tags();
    }

    /// The members that are written for the variant `columnComparison` are read
    /// back as the value, given that its parts are read back from their
    /// wire forms.
    proof fn lemma_members_column_comparison(j: JsonValue, dimensions: Seq<Seq<char>>)
        requires
            j == JsonValue::Object(
                Seq::empty()
                    .push(member("type"@, text("columnComparison"@)))
                    .push(member("dimensions"@, texts(dimensions))),
            ),
        ensures
            j is Object,
            Self::parse_column_comparison(j->Object_0) == Ok::<FilterView, Failure>(
                FilterView::ColumnComparison { dimensions },
            ),
            text_field(j->Object_0, "type"@) == Ok::<Seq<char>, Failure>("columnComparison"@),
    {
        broadcast use {lemma_lookup_push, lemma_lookup_empty};

        lemma_keys();
        lemma_texts_round_trip(dimensions);
    }

    /// An object with the discriminator `columnComparison` is read as that variant.
    proof fn lemma_parse_column_comparison(j: JsonValue)
        requires
            j is Object,
            text_field(j->Object_0, "type"@) == Ok::<Seq<char>, Failure>("columnComparison"@),
        ensures
            Self::parse(j) == Self::parse_column_comparison(j->Object_0),
    {
        lemma_tags();
    }

    /// The members that are written for the variant `regex` are read
    /// back as the value, given that its parts are read back from their
    /// wire forms.
    proof fn lemma_members_regex(j: JsonValue, dimension: Seq<char>, pattern: Seq<char>)
        requires
            j == JsonValue::Object(
                Seq::empty()
                    .push(member("type"@, text("regex"@)))
                    .push(member("dimension"@, text(dimension)))
                    .push(member("pattern"@, text(pattern))),
            ),
        ensures
            j is Object,
            Self::parse_regex(j->Object_0) == Ok::<FilterView, Failure>(FilterView::Regex {
                dimension,
                pattern,
            }),
            text_field(j->Object_0, "type"@) == Ok::<Seq<char>, Failure>("regex"@),
    {
        broadcast use {lemma_lookup_push, lemma_lookup_empty};

        lemma_keys();
    }

    /// An object with the discriminator `regex` is read as that variant.
    proof fn lemma_parse_regex(j: JsonValue)
        requires
            j is Object,
            text_field(j->Object_0, "type"@) == Ok::<Seq<char>, Failure>("regex"@),
        ensures
            Self::parse(j) == Self::parse_regex(j->Object_0),
    {
        lemma_tags();
    }

    /// The members that are written for the variant `and` are read
    /// back as the value, given that its parts are read back from their
    /// wire forms.
    proof fn lemma_members_and(j: JsonValue, fields: Seq<FilterView>, fields_items: Seq<JsonValue>)
        requires
            j == JsonValue::Object(
                Seq::empty()
                    .push(member("type"@, text("and"@)))
                    .push(member("fields"@, JsonValue::Array(fields_items))),
            ),
            FilterView::parse_list(fields_items) == Ok::<Seq<FilterView>, Failure>(fields),
        ensures
            j is Object,
            Self::parse_and(j->Object_0) == Ok::<FilterView, Failure>(FilterView::And { fields }),
            text_field(j->Object_0, "type"@) == Ok::<Seq<char>, Failure>("and"@),
    {
        broadcast use {lemma_lookup_push, lemma_lookup_empty};

        lemma_keys();
    }

    /// An object with the discriminator `and` is read as that variant.
    proof fn lemma_parse_and(j: JsonValue)
        requires
            j is Object,
            text_field(j->Object_0, "type"@) == Ok::<Seq<char>, Failure>("and"@),
        ensures
            Self::parse(j) == Self::parse_and(j->Object_0),
    {
        lemma_tags();
    }

    /// The members that are written for the variant `or` are read
    /// back as the value, given that its parts are read back from their
    /// wire forms.
    proof fn lemma_members_or(j: JsonValue, fields: Seq<FilterView>, fields_items: Seq<JsonValue>)
        requires
            j == JsonValue::Object(
                Seq::empty()
                    .push(member("type"@, text("or"@)))
                    .push(member("fields"@, JsonValue::Array(fields_items))),
            ),
            FilterView::parse_list(fields_items) == Ok::<Seq<FilterView>, Failure>(fields),
        ensures
            j is Object,
            Self::parse_or(j->Object_0) == Ok::<FilterView, Failure>(FilterView::Or { fields }),
            text_field(j->Object_0, "type"@) == Ok::<Seq<char>, Failure>("or"@),
    {
        broadcast use {lemma_lookup_push, lemma_lookup_empty};

        lemma_keys();
    }

    /// An object with the discriminator `or` is read as that variant.
    proof fn lemma_parse_or(j: JsonValue)
        requires
            j is Object,
            text_field(j->Object_0, "type"@) == Ok::<Seq<char>, Failure>("or"@),
        ensures
            Self::parse(j) == Self::parse_or(j->Object_0),
    {
        lemma_tags();
    }

    /// The members that are written for the variant `not` are read
    /// back as the value, given that its parts are read back from their
    /// wire forms.
    proof fn lemma_members_not(j: JsonValue, field: FilterView, field_wire: JsonValue)
        requires
            j == JsonValue::Object(
                Seq::empty()
                    .push(member("type"@, text("not"@)))
                    .push(member("field"@, field_wire)),
            ),
            FilterView::parse(field_wire) == Ok::<FilterView, Failure>(field),
        ensures
            j is Object,
            Self::parse_not(j->Object_0) == Ok::<FilterView, Failure>(
                FilterView::Not { field: Box::new(field) },
            ),
            text_field(j->Object_0, "type"@) == Ok::<Seq<char>, Failure>("not"@),
    {
        broadcast use {lemma_lookup_push, lemma_lookup_empty};

        lemma_keys();
    }

    /// An object with the discriminator `not` is read as that variant.
    proof fn lemma_parse_not(j: JsonValue)
        requires
            j is Object,
            text_field(j->Object_0, "type"@) == Ok::<Seq<char>, Failure>("not"@),
        ensures
            Self::parse(j) == Self::parse_not(j->Object_0),
    {
        lemma_tags();
    }

    /// The members that are written for the variant `javascript` are read
    /// back as the value, given that its parts are read back from their
    /// wire forms.
    proof fn lemma_members_javascript(j: JsonValue, dimension: Seq<char>, function: Seq<char>)
        requires
            j == JsonValue::Object(
                Seq::empty()
                    .push(member("type"@, text("javascript"@)))
                    .push(member("dimension"@, text(dimension)))
                    .push(member("function"@, text(function))),
            ),
        ensures
            j is Object,
            Self::parse_javascript(j->Object_0) == Ok::<FilterView, Failure>(
                FilterView::Javascript { dimension, function },
            ),
            text_field(j->Object_0, "type"@) == Ok::<Seq<char>, Failure>("javascript"@),
    {
        broadcast use {lemma_lookup_push, lemma_lookup_empty};

        lemma_keys();
    }

    /// An object with the discriminator `javascript` is read as that variant.
    proof fn lemma_parse_javascript(j: JsonValue)
        requires
            j is Object,
            text_field(j->Object_0, "type"@) == Ok::<Seq<char>, Failure>("javascript"@),
        ensures
            Self::parse(j) == Self::parse_javascript(j->Object_0),
    {
        lemma_tags();
    }

    /// The members that are written for the variant `search` are read
    /// back as the value, given that its parts are read back from their
    /// wire forms.
    proof fn lemma_members_search(
        j: JsonValue,
        dimension: Seq<char>,
        query: FilterQuerySpecView,
        query_wire: JsonValue,
    )
        requires
            j == JsonValue::Object(
                Seq::empty()
                    .push(member("type"@, text("search"@)))
                    .push(member("dimension"@, text(dimension)))
                    .push(member("query"@, query_wire)),
            ),
            FilterQuerySpecView::parse(query_wire) == Ok::<FilterQuerySpecView, Failure>(query),
        ensures
            j is Object,
            Self::parse_search(j->Object_0) == Ok::<FilterView, Failure>(FilterView::Search {
                dimension,
                query,
            }),
            text_field(j->Object_0, "type"@) == Ok::<Seq<char>, Failure>("search"@),
    {
        broadcast use {lemma_lookup_push, lemma_lookup_empty};

        lemma_keys();
    }

    /// An object with the discriminator `search` is read as that variant.
    proof fn lemma_parse_search(j: JsonValue)
        requires
            j is Object,
            text_field(j->Object_0, "type"@) == Ok::<Seq<char>, Failure>("search"@),
        ensures
            Self::parse(j) == Self::parse_search(j->Object_0),
    {
        lemma_tags();
    }

    /// The members that are written for the variant `in` are read
    /// back as the value, given that its parts are read back from their
    /// wire forms.
    proof fn lemma_members_in(j: JsonValue, dimension: Seq<char>, values: Seq<Seq<char>>)
        requires
            j == JsonValue::Object(
                Seq::empty()
                    .push(member("type"@, text("in"@)))
                    .push(member("dimension"@, text(dimension)))
                    .push(member("values"@, texts(values))),
            ),
        ensures
            j is Object,
            Self::parse_in(j->Object_0) == Ok::<FilterView, Failure>(FilterView::In {
                dimension,
                values,
            }),
            text_field(j->Object_0, "type"@) == Ok::<Seq<char>, Failure>("in"@),
    {
        broadcast use {lemma_lookup_push, lemma_lookup_empty};

        lemma_keys();
        lemma_texts_round_trip(values);
    }

    /// An object with the discriminator `in` is read as that variant.
    proof fn lemma_parse_in(j: JsonValue)
        requires
            j is Object,
            text_field(j->Object_0, "type"@) == Ok::<Seq<char>, Failure>("in"@),
        ensures
            Self::parse(j) == Self::parse_in(j->Object_0),
    {
        lemma_tags();
    }

    /// The members that are written for the variant `like` are read
    /// back as the value, given that its parts are read back from their
    /// wire forms.
    proof fn lemma_members_like(
        j: JsonValue,
        dimension: Seq<char>,
        pattern: Seq<char>,
        escape: Option<Seq<char>>,
        extraction_fn: Option<ExtractFNView>,
        extraction_fn_wire: JsonValue,
    )
        requires
            j == ({
                    let members = Seq::empty()
                        .push(member("type"@, text("like"@)))
                        .push(member("dimension"@, text(dimension)))
                        .push(member("pattern"@, text(pattern)));
                    let members = match escape {
                        Some(v) => members.push(member("escape"@, text(v))),
                        None => members,
                    };
                    let members = match extraction_fn {
                        Some(_) => members.push(member("extractionFn"@, extraction_fn_wire)),
                        None => members,
                    };
                    JsonValue::Object(members)
            }),
            extraction_fn matches Some(v) ==>
                ExtractFNView::parse(extraction_fn_wire) == Ok::<ExtractFNView, Failure>(v),
            extraction_fn is Some ==> !(extraction_fn_wire is Null),
        ensures
            j is Object,
            Self::parse_like(j->Object_0) == Ok::<FilterView, Failure>(
                FilterView::Like { dimension, pattern, escape, extraction_fn },
            ),
            text_field(j->Object_0, "type"@) == Ok::<Seq<char>, Failure>("like"@),
    {
        broadcast use {lemma_lookup_push, lemma_lookup_empty};

        lemma_keys();
    }

    /// An object with the discriminator `like` is read as that variant.
    proof fn lemma_parse_like(j: JsonValue)
        requires
            j is Object,
            text_field(j->Object_0, "type"@) == Ok::<Seq<char>, Failure>("like"@),
        ensures
            Self::parse(j) == Self::parse_like(j->Object_0),
    {
        lemma_tags();
    }

    /// The members that are written for the variant `bound` are read
    /// back as the value, given that its parts are read back from their
    /// wire forms.
    proof fn lemma_members_bound(
        j: JsonValue,
        dimension: Seq<char>,
        lower: Seq<char>,
        upper: Seq<char>,
        lower_strict: bool,
        upper_strict: bool,
        ordering: SortingOrder,
        extraction_fn: Option<ExtractFNView>,
        extraction_fn_wire: JsonValue,
    )
        requires
            j == ({
                    let members = Seq::empty()
                        .push(member("type"@, text("bound"@)))
                        .push(member("dimension"@, text(dimension)))
                        .push(member("lower"@, text(lower)))
                        .push(member("upper"@, text(upper)))
                        .push(member("lowerStrict"@, flag(lower_strict)))
                        .push(member("upperStrict"@, flag(upper_strict)))
                        .push(member("ordering"@, ordering.wire()));
                    let members = match extraction_fn {
                        Some(_) => members.push(member("extractionFn"@, extraction_fn_wire)),
                        None => members,
                    };
                    JsonValue::Object(members)
            }),
            extraction_fn matches Some(v) ==>
                ExtractFNView::parse(extraction_fn_wire) == Ok::<ExtractFNView, Failure>(v),
            extraction_fn is Some ==> !(extraction_fn_wire is Null),
        ensures
            j is Object,
            Self::parse_bound(j->Object_0) == Ok::<FilterView, Failure>(
                FilterView::Bound {
                    dimension,
                    lower,
                    upper,
                    lower_strict,
                    upper_strict,
                    ordering,
                    extraction_fn,
                },
            ),
            text_field(j->Object_0, "type"@) == Ok::<Seq<char>, Failure>("bound"@),
    {
        broadcast use {lemma_lookup_push, lemma_lookup_empty};

        lemma_keys();
        ordering.lemma_round_trip();
    }

    /// An object with the discriminator `bound` is read as that variant.
    proof fn lemma_parse_bound(j: JsonValue)
        requires
            j is Object,
            text_field(j->Object_0, "type"@) == Ok::<Seq<char>, Failure>("bound"@),
        ensures
            Self::parse(j) == Self::parse_bound(j->Object_0),
    {
        lemma_tags();
    }

    /// The members that are written for the variant `interval` are read
    /// back as the value, given that its parts are read back from their
    /// wire forms.
    proof fn lemma_members_interval(
        j: JsonValue,
        dimension: Seq<char>,
        intervals: Seq<Seq<char>>,
        extraction_fn: Option<ExtractFNView>,
        extraction_fn_wire: JsonValue,
    )
        requires
            j == ({
                    let members = Seq::empty()
                        .push(member("type"@, text("interval"@)))
                        .push(member("dimension"@, text(dimension)))
                        .push(member("intervals"@, texts(intervals)));
                    let members = match extraction_fn {
                        Some(_) => members.push(member("extractionFn"@, extraction_fn_wire)),
                        None => members,
                    };
                    JsonValue::Object(members)
            }),
            extraction_fn matches Some(v) ==>
                ExtractFNView::parse(extraction_fn_wire) == Ok::<ExtractFNView, Failure>(v),
            extraction_fn is Some ==> !(extraction_fn_wire is Null),
        ensures
            j is Object,
            Self::parse_interval(j->Object_0) == Ok::<FilterView, Failure>(
                FilterView::Interval { dimension, intervals, extraction_fn },
            ),
            text_field(j->Object_0, "type"@) == Ok::<Seq<char>, Failure>("interval"@),
    {
        broadcast use {lemma_lookup_push, lemma_lookup_empty};

        lemma_keys();
        lemma_texts_round_trip(intervals);
    }

    /// An object with the discriminator `interval` is read as that variant.
    proof fn lemma_parse_interval(j: JsonValue)
        requires
            j is Object,
            text_field(j->Object_0, "type"@) == Ok::<Seq<char>, Failure>("interval"@),
        ensures
            Self::parse(j) == Self::parse_interval(j->Object_0),
    {
        lemma_tags();
    }

    /// The members that are written for the variant `true` are read
    /// back as the value, given that its parts are read back from their
    /// wire forms.
    proof fn lemma_members_true(j: JsonValue)
        requires
            j == JsonValue::Object(
                Seq::empty()
                    .push(member("type"@, text("true"@))),
            ),
        ensures
            j is Object,
            Self::parse_true(j->Object_0) == Ok::<FilterView, Failure>(FilterView::True),
            text_field(j->Object_0, "type"@) == Ok::<Seq<char>, Failure>("true"@),
    {
        broadcast use {lemma_lookup_push, lemma_lookup_empty};

        lemma_keys();
    }

    /// An object with the discriminator `true` is read as that variant.
    proof fn lemma_parse_true(j: JsonValue)
        requires
            j is Object,
            text_field(j->Object_0, "type"@) == Ok::<Seq<char>, Failure>("true"@),
        ensures
            Self::parse(j) == Self::parse_true(j->Object_0),
    {
        lemma_tags();
    }

    /// Reading back a list that was written gives the list again, if
    /// each element is read back as it is.
    pub proof fn lemma_list_round_trip(list: Seq<FilterView>)
        requires
            Self::all_read_back(list),
        ensures
            Self::parse_list(Self::wire_list(list)) == Ok::<Seq<FilterView>, Failure>(list),
        decreases list,
    {
        let items = Self::wire_list(list);
        let read = |j: JsonValue| Self::parse(j);
        assert forall|i: int| 0 <= i < items.len() implies (#[trigger] read(items[i]))
            == Ok::<FilterView, Failure>(list[i]) by {
            assert(list[i].reads_back());
            list[i].lemma_round_trip();
        }
        lemma_read_all_accepted(items, read, list);
        Self::lemma_parse_list(items);
    }

    /// What is written for a variant carries its discriminator.
    pub proof fn lemma_tag(self)
        ensures
            self.wire() is Object,
            text_field(self.wire()->Object_0, "type"@) == Ok::<Seq<char>, Failure>(self.tag()),
            Self::known_tag(self.tag()),
    {
        broadcast use {lemma_lookup_push, lemma_lookup_empty};

        lemma_keys();
    }

    /// An object whose discriminator stands for no variant of the
    /// family is refused as an unknown variant; it is read as none.
    pub proof fn lemma_unknown_tag(j: JsonValue)
        requires
            j is Object,
            text_field(j->Object_0, "type"@) is Ok,
            !Self::known_tag(text_field(j->Object_0, "type"@)->Ok_0),
        ensures
            Self::parse(j) == Err::<FilterView, Failure>(
                Failure::here(DecodeCause::UnknownVariant).within_key("type"@),
            ),
    {
    }

}

impl Filter {
    pub fn selector(dimension: &str, value: &str) -> (out: Filter)
        ensures
            out@ == (
                FilterView::Selector { dimension: dimension@, value: value@, extract_fn: None }
            ),
    {
        Filter::Selector {
            dimension: dimension.to_string(),
            value: value.to_string(),
            extract_fn: None,
        }
    }

    pub fn column_comparison(dimensions: Vec<&str>) -> (out: Filter)
        ensures
            out@ == (FilterView::ColumnComparison { dimensions: strs_view(dimensions@) }),
    {
        Filter::ColumnComparison { dimensions: to_strings(&dimensions) }
    }

    pub fn regex(dimension: &str, pattern: &str) -> (out: Filter)
        ensures
            out@ == (FilterView::Regex { dimension: dimension@, pattern: pattern@ }),
    {
        Filter::Regex { dimension: dimension.to_string(), pattern: pattern.to_string() }
    }

    pub fn javascript(dimension: &str, javascript: &str) -> (out: Filter)
        ensures
            out@ == (FilterView::Javascript { dimension: dimension@, function: javascript@ }),
    {
        Filter::Javascript { dimension: dimension.to_string(), function: javascript.to_string() }
    }

    pub fn in_values(dimension: &str, values: Vec<&str>) -> (out: Filter)
        ensures
            out@ == (FilterView::In { dimension: dimension@, values: strs_view(values@) }),
    {
        Filter::In { dimension: dimension.to_string(), values: to_strings(&values) }
    }

    pub fn like(dimension: &str, pattern: &str) -> (out: Filter)
        ensures
            out@ == (FilterView::Like {
                    dimension: dimension@,
                    pattern: pattern@,
                    escape: None,
                    extraction_fn: None,
            }),
    {
        Filter::Like {
            dimension: dimension.to_string(),
            pattern: pattern.to_string(),
            escape: None,
            extraction_fn: None,
        }
    }

    /// Writes the value in its wire form. It is read back as it is.
    pub fn encode(&self) -> (j: Json)
        ensures
            j@ == self@.wire(),
            self@.reads_back(),
            FilterView::parse(j@) == Ok::<FilterView, Failure>(self@),
        decreases self,
    {
        let mut m = no_members();
        match self {
            Filter::Selector { dimension, value, extract_fn } => {
                put(&mut m, "type", text_json("selector"));
                put(&mut m, "dimension", text_json(dimension.as_str()));
                put(&mut m, "value", text_json(value.as_str()));
                match extract_fn {
                    Some(v) => {
                        put(&mut m, "extractFn", v.encode());
                    },
                    None => {},
                }
            },
            Filter::ColumnComparison { dimensions } => {
                put(&mut m, "type", text_json("columnComparison"));
                put(&mut m, "dimensions", texts_json(dimensions));
            },
            Filter::Regex { dimension, pattern } => {
                put(&mut m, "type", text_json("regex"));
                put(&mut m, "dimension", text_json(dimension.as_str()));
                put(&mut m, "pattern", text_json(pattern.as_str()));
            },
            Filter::And { fields } => {
                proof {
                    Filter::lemma_values(fields@);
                }
                put(&mut m, "type", text_json("and"));
                put(&mut m, "fields", array_json(Filter::encode_list(fields)));
            },
            Filter::Or { fields } => {
                proof {
                    Filter::lemma_values(fields@);
                }
                put(&mut m, "type", text_json("or"));
                put(&mut m, "fields", array_json(Filter::encode_list(fields)));
            },
            Filter::Not { field } => {
                put(&mut m, "type", text_json("not"));
                put(&mut m, "field", field.encode());
            },
            Filter::Javascript { dimension, function } => {
                put(&mut m, "type", text_json("javascript"));
                put(&mut m, "dimension", text_json(dimension.as_str()));
                put(&mut m, "function", text_json(function.as_str()));
            },
            Filter::Search { dimension, query } => {
                put(&mut m, "type", text_json("search"));
                put(&mut m, "dimension", text_json(dimension.as_str()));
                put(&mut m, "query", query.encode());
            },
            Filter::In { dimension, values } => {
                put(&mut m, "type", text_json("in"));
                put(&mut m, "dimension", text_json(dimension.as_str()));
                put(&mut m, "values", texts_json(values));
            },
            Filter::Like { dimension, pattern, escape, extraction_fn } => {
                put(&mut m, "type", text_json("like"));
                put(&mut m, "dimension", text_json(dimension.as_str()));
                put(&mut m, "pattern", text_json(pattern.as_str()));
                match escape {
                    Some(v) => {
                        put(&mut m, "escape", text_json(v.as_str()));
                    },
                    None => {},
                }
                match extraction_fn {
                    Some(v) => {
                        put(&mut m, "extractionFn", v.encode());
                    },
                    None => {},
                }
            },
            Filter::Bound {
                dimension,
                lower,
                upper,
                lower_strict,
                upper_strict,
                ordering,
                extraction_fn,
            } => {
                put(&mut m, "type", text_json("bound"));
                put(&mut m, "dimension", text_json(dimension.as_str()));
                put(&mut m, "lower", text_json(lower.as_str()));
                put(&mut m, "upper", text_json(upper.as_str()));
                put(&mut m, "lowerStrict", flag_json(*lower_strict));
                put(&mut m, "upperStrict", flag_json(*upper_strict));
                put(&mut m, "ordering", ordering.encode());
                match extraction_fn {
                    Some(v) => {
                        put(&mut m, "extractionFn", v.encode());
                    },
                    None => {},
                }
            },
            Filter::Interval { dimension, intervals, extraction_fn } => {
                put(&mut m, "type", text_json("interval"));
                put(&mut m, "dimension", text_json(dimension.as_str()));
                put(&mut m, "intervals", texts_json(intervals));
                match extraction_fn {
                    Some(v) => {
                        put(&mut m, "extractionFn", v.encode());
                    },
                    None => {},
                }
            },
            Filter::True => {
                put(&mut m, "type", text_json("true"));
            },
        }
        proof {
            self@.lemma_round_trip();
        }
        object_json(m)
    }

    /// Writes each element of a list in its wire form. Each is read
    /// back as it is.
    pub fn encode_list(list: &Vec<Filter>) -> (items: Vec<Json>)
        ensures
            items_view(items@) == FilterView::wire_list(list_view(list@)),
            FilterView::all_read_back(list_view(list@)),
        decreases list,
    {
        let mut items: Vec<Json> = Vec::new();
        let mut i: usize = 0;
        while i < list.len()
            invariant
                i <= list.len(),
                items.len() == i,
                forall|k: int| 0 <= k < i ==> items[k]@ == list[k]@.wire(),
                forall|k: int| 0 <= k < i ==> (#[trigger] list[k]@).reads_back(),
            decreases list.len() - i,
        {
            items.push(list[i].encode());
            i += 1;
        }
        assert(items_view(items@) =~= FilterView::wire_list(list_view(list@)));
        assert forall|k: int| 0 <= k < list.len() implies (#[trigger] list_view(list@)[k]).reads_back() by {
            assert(list[k]@.reads_back());
        }
        items
    }

    /// Reads a value from its wire form.
    pub fn decode(j: &Json) -> (r: Result<Filter, DecodeError>)
        ensures
            decoded(r) == FilterView::parse(j@),
        decreases j,
    {
        let m = read_members(j)?;
        let t = text_member(m, "type")?;
        if str_eq(t.as_str(), "selector") {
            Self::decode_selector(m)
        } else if str_eq(t.as_str(), "columnComparison") {
            Self::decode_column_comparison(m)
        } else if str_eq(t.as_str(), "regex") {
            Self::decode_regex(m)
        } else if str_eq(t.as_str(), "and") {
            Self::decode_and(m)
        } else if str_eq(t.as_str(), "or") {
            Self::decode_or(m)
        } else if str_eq(t.as_str(), "not") {
            Self::decode_not(m)
        } else if str_eq(t.as_str(), "javascript") {
            Self::decode_javascript(m)
        } else if str_eq(t.as_str(), "search") {
            Self::decode_search(m)
        } else if str_eq(t.as_str(), "in") {
            Self::decode_in(m)
        } else if str_eq(t.as_str(), "like") {
            Self::decode_like(m)
        } else if str_eq(t.as_str(), "bound") {
            Self::decode_bound(m)
        } else if str_eq(t.as_str(), "interval") {
            Self::decode_interval(m)
        } else if str_eq(t.as_str(), "true") {
            Self::decode_true(m)
        } else {
            Err(DecodeError::here(DecodeCause::UnknownVariant).within_key("type"))
        }
    }

    fn decode_selector(m: &Vec<Member>) -> (r: Result<Filter, DecodeError>)
        ensures
            decoded(r) == FilterView::parse_selector(members_view(m@)),
        decreases m,
    {
        let dimension = text_member(m, "dimension")?;
        let value = text_member(m, "value")?;
        let extract_fn = match present_field(m, "extractFn") {
            Some(v) => Some(under_key(ExtractFN::decode(v), "extractFn")?),
            None => None,
        };
        Ok(Filter::Selector { dimension, value, extract_fn })
    }

    fn decode_column_comparison(m: &Vec<Member>) -> (r: Result<Filter, DecodeError>)
        ensures
            decoded(r) == FilterView::parse_column_comparison(members_view(m@)),
        decreases m,
    {
        let dimensions = texts_member(m, "dimensions")?;
        Ok(Filter::ColumnComparison { dimensions })
    }

    fn decode_regex(m: &Vec<Member>) -> (r: Result<Filter, DecodeError>)
        ensures
            decoded(r) == FilterView::parse_regex(members_view(m@)),
        decreases m,
    {
        let dimension = text_member(m, "dimension")?;
        let pattern = text_member(m, "pattern")?;
        Ok(Filter::Regex { dimension, pattern })
    }

    fn decode_and(m: &Vec<Member>) -> (r: Result<Filter, DecodeError>)
        ensures
            decoded(r) == FilterView::parse_and(members_view(m@)),
        decreases m,
    {
        let fields = under_key(Filter::decode_list(items_member(m, "fields")?), "fields")?;
        proof {
            Filter::lemma_values(fields@);
        }
        Ok(Filter::And { fields })
    }

    fn decode_or(m: &Vec<Member>) -> (r: Result<Filter, DecodeError>)
        ensures
            decoded(r) == FilterView::parse_or(members_view(m@)),
        decreases m,
    {
        let fields = under_key(Filter::decode_list(items_member(m, "fields")?), "fields")?;
        proof {
            Filter::lemma_values(fields@);
        }
        Ok(Filter::Or { fields })
    }

    fn decode_not(m: &Vec<Member>) -> (r: Result<Filter, DecodeError>)
        ensures
            decoded(r) == FilterView::parse_not(members_view(m@)),
        decreases m,
    {
        let field = Box::new(under_key(Filter::decode(required_field(m, "field")?), "field")?);
        Ok(Filter::Not { field })
    }

    fn decode_javascript(m: &Vec<Member>) -> (r: Result<Filter, DecodeError>)
        ensures
            decoded(r) == FilterView::parse_javascript(members_view(m@)),
        decreases m,
    {
        let dimension = text_member(m, "dimension")?;
        let function = text_member(m, "function")?;
        Ok(Filter::Javascript { dimension, function })
    }

    fn decode_search(m: &Vec<Member>) -> (r: Result<Filter, DecodeError>)
        ensures
            decoded(r) == FilterView::parse_search(members_view(m@)),
        decreases m,
    {
        let dimension = text_member(m, "dimension")?;
        let query = under_key(FilterQuerySpec::decode(required_field(m, "query")?), "query")?;
        Ok(Filter::Search { dimension, query })
    }

    fn decode_in(m: &Vec<Member>) -> (r: Result<Filter, DecodeError>)
        ensures
            decoded(r) == FilterView::parse_in(members_view(m@)),
        decreases m,
    {
        let dimension = text_member(m, "dimension")?;
        let values = texts_member(m, "values")?;
        Ok(Filter::In { dimension, values })
    }

    fn decode_like(m: &Vec<Member>) -> (r: Result<Filter, DecodeError>)
        ensures
            decoded(r) == FilterView::parse_like(members_view(m@)),
        decreases m,
    {
        let dimension = text_member(m, "dimension")?;
        let pattern = text_member(m, "pattern")?;
        let escape = opt_text_member(m, "escape")?;
        let extraction_fn = match present_field(m, "extractionFn") {
            Some(v) => Some(under_key(ExtractFN::decode(v), "extractionFn")?),
            None => None,
        };
        Ok(Filter::Like { dimension, pattern, escape, extraction_fn })
    }

    fn decode_bound(m: &Vec<Member>) -> (r: Result<Filter, DecodeError>)
        ensures
            decoded(r) == FilterView::parse_bound(members_view(m@)),
        decreases m,
    {
        let dimension = text_member(m, "dimension")?;
        let lower = text_member(m, "lower")?;
        let upper = text_member(m, "upper")?;
        let lower_strict = flag_member(m, "lowerStrict")?;
        let upper_strict = flag_member(m, "upperStrict")?;
        let ordering = under_key(SortingOrder::decode(required_field(m, "ordering")?), "ordering")?;
        let extraction_fn = match present_field(m, "extractionFn") {
            Some(v) => Some(under_key(ExtractFN::decode(v), "extractionFn")?),
            None => None,
        };
        Ok(
            Filter::Bound {
                dimension,
                lower,
                upper,
                lower_strict,
                upper_strict,
                ordering,
                extraction_fn,
            },
        )
    }

    fn decode_interval(m: &Vec<Member>) -> (r: Result<Filter, DecodeError>)
        ensures
            decoded(r) == FilterView::parse_interval(members_view(m@)),
        decreases m,
    {
        let dimension = text_member(m, "dimension")?;
        let intervals = texts_member(m, "intervals")?;
        let extraction_fn = match present_field(m, "extractionFn") {
            Some(v) => Some(under_key(ExtractFN::decode(v), "extractionFn")?),
            None => None,
        };
        Ok(Filter::Interval { dimension, intervals, extraction_fn })
    }

    fn decode_true(m: &Vec<Member>) -> (r: Result<Filter, DecodeError>)
        ensures
            decoded(r) == FilterView::parse_true(members_view(m@)),
        decreases m,
    {
        Ok(Filter::True)
    }

    /// Reads each element of an array from its wire form.
    pub fn decode_list(items: &Vec<Json>) -> (r: Result<Vec<Filter>, DecodeError>)
        ensures
            decoded_list(r) == FilterView::parse_list(items_view(items@)),
        decreases items,
    {
        let ghost read = |j: JsonValue| FilterView::parse(j);
        let mut out: Vec<Filter> = Vec::new();
        let mut i: usize = 0;
        while i < items.len()
            invariant
                i <= items.len(),
                out.len() == i,
                read == (|j: JsonValue| FilterView::parse(j)),
                forall|k: int|
                0 <= k < i ==>
                    (#[trigger] read(items_view(items@)[k])) == Ok::<FilterView, Failure>(out[k]@),
            decreases items.len() - i,
        {
            match Filter::decode(&items[i]) {
                Ok(v) => {
                    out.push(v);
                },
                Err(e) => {
                    proof {
                        assert(read(items_view(items@)[i as int]) is Err);
                        lemma_read_all_refused(items_view(items@), read, i as int);
                        FilterView::lemma_parse_list(items_view(items@));
                    }
                    return Err(e.within_index(i));
                },
            }
            i += 1;
        }
        proof {
            lemma_read_all_accepted(items_view(items@), read, list_view(out@));
            FilterView::lemma_parse_list(items_view(items@));
        }
        Ok(out)
    }
}

/// The names of the members differ from one another.
proof fn lemma_keys()
    ensures
        "caseSensitive"@.len() == 13,
        "dimension"@.len() == 9,
        "dimensions"@.len() == 10,
        "escape"@.len() == 6,
        "extractFn"@.len() == 9,
        "extractionFn"@.len() == 12,
        "field"@.len() == 5,
        "fields"@.len() == 6,
        "function"@.len() == 8,
        "intervals"@.len() == 9,
        "lower"@.len() == 5,
        "lowerStrict"@.len() == 11,
        "ordering"@.len() == 8,
        "pattern"@.len() == 7,
        "query"@.len() == 5,
        "type"@.len() == 4,
        "upper"@.len() == 5,
        "upperStrict"@.len() == 11,
        "value"@.len() == 5,
        "values"@.len() == 6,
        "field"@[0] == 'f',
        "lower"@[0] == 'l',
        "query"@[0] == 'q',
        "upper"@[0] == 'u',
        "value"@[0] == 'v',
        "escape"@[0] == 'e',
        "fields"@[0] == 'f',
        "values"@[0] == 'v',
        "function"@[0] == 'f',
        "ordering"@[0] == 'o',
        "dimension"@[0] == 'd',
        "extractFn"@[0] == 'e',
        "intervals"@[0] == 'i',
        "lowerStrict"@[0] == 'l',
        "upperStrict"@[0] == 'u',
{
    reveal_strlit("caseSensitive");
    reveal_strlit("dimension");
    reveal_strlit("dimensions");
    reveal_strlit("escape");
    reveal_strlit("extractFn");
    reveal_strlit("extractionFn");
    reveal_strlit("field");
    reveal_strlit("fields");
    reveal_strlit("function");
    reveal_strlit("intervals");
    reveal_strlit("lower");
    reveal_strlit("lowerStrict");
    reveal_strlit("ordering");
    reveal_strlit("pattern");
    reveal_strlit("query");
    reveal_strlit("type");
    reveal_strlit("upper");
    reveal_strlit("upperStrict");
    reveal_strlit("value");
    reveal_strlit("values");
}

/// The names that stand for the variants differ from one another.
proof fn lemma_tags()
    ensures
        "and"@.len() == 3,
        "bound"@.len() == 5,
        "columnComparison"@.len() == 16,
        "contains"@.len() == 8,
        "fragment"@.len() == 8,
        "in"@.len() == 2,
        "insensitive_contains"@.len() == 20,
        "interval"@.len() == 8,
        "javascript"@.len() == 10,
        "like"@.len() == 4,
        "not"@.len() == 3,
        "or"@.len() == 2,
        "regex"@.len() == 5,
        "search"@.len() == 6,
        "selector"@.len() == 8,
        "true"@.len() == 4,
        "in"@[0] == 'i',
        "or"@[0] == 'o',
        "and"@[0] == 'a',
        "not"@[0] == 'n',
        "like"@[0] == 'l',
        "true"@[0] == 't',
        "bound"@[0] == 'b',
        "regex"@[0] == 'r',
        "contains"@[0] == 'c',
        "fragment"@[0] == 'f',
        "interval"@[0] == 'i',
        "selector"@[0] == 's',
{
    reveal_strlit("and");
    reveal_strlit("bound");
    reveal_strlit("columnComparison");
    reveal_strlit("contains");
    reveal_strlit("fragment");
    reveal_strlit("in");
    reveal_strlit("insensitive_contains");
    reveal_strlit("interval");
    reveal_strlit("javascript");
    reveal_strlit("like");
    reveal_strlit("not");
    reveal_strlit("or");
    reveal_strlit("regex");
    reveal_strlit("search");
    reveal_strlit("selector");
    reveal_strlit("true");
}

} // verus!
