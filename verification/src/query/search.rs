//! The search query.

use vstd::prelude::*;
use crate::codec::{
    array_json, as_members, count, count_field, count_json, count_member, flag, flag_field,
    flag_json, flag_member, items_field, items_member, lemma_lookup_smaller,
    lemma_texts_round_trip, list_view, member, no_members, object_json, opt_view, present,
    present_field, put, read_members, required, required_field, strings_view, text, text_field,
    text_json, text_member, texts, texts_field, texts_json, texts_member, under, under_key,
};
use crate::error::{decoded, DecodeCause, DecodeError, Failure};
use crate::json::{
    lemma_lookup_empty, lemma_lookup_push, members_view, str_eq, Json, JsonValue, Member,
    MemberValue,
};
use crate::query::definitions::filters::{Filter, FilterView};
use crate::query::definitions::granularitys::{Granularity, GranularityView};
use crate::query::definitions::intervals::{Interval, IntervalView};
use crate::query::definitions::ordering::SortingOrder;
use crate::query::{DataSource, DataSourceView};
use crate::string_map::{distinct_keys, lemma_map_round_trip, map_parse, map_wire, StringMap};

verus! {

/// What a search looks for in the dimensions.
#[derive(Debug, PartialEq)]
pub enum SearchQuerySpec {
    /// The value occurs in the dimension.
    Contains {
        value: String,
        case_sensitive: bool,
    },
    /// The value occurs in the dimension, whatever the case.
    InsensitiveContains {
        value: String,
    },
    /// Every one of the values occurs in the dimension.
    Fragment {
        values: Vec<String>,
        case_sensitive: bool,
    },
    /// The dimension matches a regular expression.
    Regex {
        pattern: String,
    },
}

/// Mathematical value of a [`SearchQuerySpec`].
pub enum SearchQuerySpecView {
    Contains {
        value: Seq<char>,
        case_sensitive: bool,
    },
    InsensitiveContains {
        value: Seq<char>,
    },
    Fragment {
        values: Seq<Seq<char>>,
        case_sensitive: bool,
    },
    Regex {
        pattern: Seq<char>,
    },
}

impl View for SearchQuerySpec {
    type V = SearchQuerySpecView;

    open spec fn view(&self) -> SearchQuerySpecView {
        match self {
            SearchQuerySpec::Contains { value, case_sensitive } => SearchQuerySpecView::Contains {
                value: value@,
                case_sensitive: *case_sensitive,
            },
            SearchQuerySpec::InsensitiveContains { value } => SearchQuerySpecView::InsensitiveContains {
                value: value@,
            },
            SearchQuerySpec::Fragment { values, case_sensitive } => SearchQuerySpecView::Fragment {
                values: strings_view(values@),
                case_sensitive: *case_sensitive,
            },
            SearchQuerySpec::Regex { pattern } => SearchQuerySpecView::Regex {
                pattern: pattern@,
            },
        }
    }
}

impl SearchQuerySpecView {
    /// The discriminator that stands for the variant on the wire.
    pub open spec fn tag(self) -> Seq<char> {
        match self {
            SearchQuerySpecView::Contains { .. } => "contains"@,
            SearchQuerySpecView::InsensitiveContains { .. } => "insensitive_contains"@,
            SearchQuerySpecView::Fragment { .. } => "fragment"@,
            SearchQuerySpecView::Regex { .. } => "regex"@,
        }
    }

    /// Whether a discriminator stands for a variant of this family.
    pub open spec fn known_tag(t: Seq<char>) -> bool {
        t == "contains"@
            || t == "insensitive_contains"@
            || t == "fragment"@
            || t == "regex"@
    }

    /// The wire form.
    pub open spec fn wire(self) -> JsonValue {
        match self {
            SearchQuerySpecView::Contains { value, case_sensitive } => JsonValue::Object(
                Seq::empty()
                    .push(member("type"@, text("contains"@)))
                    .push(member("value"@, text(value)))
                    .push(member("caseSensitive"@, flag(case_sensitive))),
            ),
            SearchQuerySpecView::InsensitiveContains { value } => JsonValue::Object(
                Seq::empty()
                    .push(member("type"@, text("insensitive_contains"@)))
                    .push(member("value"@, text(value))),
            ),
            SearchQuerySpecView::Fragment { values, case_sensitive } => JsonValue::Object(
                Seq::empty()
                    .push(member("type"@, text("fragment"@)))
                    .push(member("values"@, texts(values)))
                    .push(member("caseSensitive"@, flag(case_sensitive))),
            ),
            SearchQuerySpecView::Regex { pattern } => JsonValue::Object(
                Seq::empty()
                    .push(member("type"@, text("regex"@)))
                    .push(member("pattern"@, text(pattern))),
            ),
        }
    }

    /// What a document is read as.
    pub open spec fn parse(j: JsonValue) -> Result<SearchQuerySpecView, Failure> {
        match as_members(j) {
            Ok(m) => match text_field(m, "type"@) {
                Ok(t) => if t == "contains"@ {
                    Self::parse_contains(m)
                } else if t == "insensitive_contains"@ {
                    Self::parse_insensitive_contains(m)
                } else if t == "fragment"@ {
                    Self::parse_fragment(m)
                } else if t == "regex"@ {
                    Self::parse_regex(m)
                } else {
                    Err(Failure::here(DecodeCause::UnknownVariant).within_key("type"@))
                },
                Err(e) => Err(e),
            },
            Err(e) => Err(e),
        }
    }

    /// The members of the variant `contains`, read.
    pub open spec fn parse_contains(m: Seq<MemberValue>) -> Result<SearchQuerySpecView, Failure> {
        let value = text_field(m, "value"@);
        let case_sensitive = flag_field(m, "caseSensitive"@);
        if value is Err {
            Err(value->Err_0)
        } else if case_sensitive is Err {
            Err(case_sensitive->Err_0)
        } else {
            Ok(
                SearchQuerySpecView::Contains {
                    value: value->Ok_0,
                    case_sensitive: case_sensitive->Ok_0,
                },
            )
        }
    }

    /// The members of the variant `insensitive_contains`, read.
    pub open spec fn parse_insensitive_contains(m: Seq<MemberValue>) -> Result<SearchQuerySpecView, Failure> {
        let value = text_field(m, "value"@);
        if value is Err {
            Err(value->Err_0)
        } else {
            Ok(SearchQuerySpecView::InsensitiveContains { value: value->Ok_0 })
        }
    }

    /// The members of the variant `fragment`, read.
    pub open spec fn parse_fragment(m: Seq<MemberValue>) -> Result<SearchQuerySpecView, Failure> {
        let values = texts_field(m, "values"@);
        let case_sensitive = flag_field(m, "caseSensitive"@);
        if values is Err {
            Err(values->Err_0)
        } else if case_sensitive is Err {
            Err(case_sensitive->Err_0)
        } else {
            Ok(
                SearchQuerySpecView::Fragment {
                    values: values->Ok_0,
                    case_sensitive: case_sensitive->Ok_0,
                },
            )
        }
    }

    /// The members of the variant `regex`, read.
    pub open spec fn parse_regex(m: Seq<MemberValue>) -> Result<SearchQuerySpecView, Failure> {
        let pattern = text_field(m, "pattern"@);
        if pattern is Err {
            Err(pattern->Err_0)
        } else {
            Ok(SearchQuerySpecView::Regex { pattern: pattern->Ok_0 })
        }
    }

    /// What is written is never `null`.
    pub proof fn lemma_wire_not_null(self)
        ensures
            !(self.wire() is Null),
    {
    }

    /// Reading back what was written gives the value again.
    pub proof fn lemma_round_trip(self)
        ensures
            Self::parse(self.wire()) == Ok::<SearchQuerySpecView, Failure>(self),
    {
        match self {
            SearchQuerySpecView::Contains { value, case_sensitive } => {
                Self::lemma_members_contains(self.wire(), value, case_sensitive);
                Self::lemma_parse_contains(self.wire());
            },
            SearchQuerySpecView::InsensitiveContains { value } => {
                Self::lemma_members_insensitive_contains(self.wire(), value);
                Self::lemma_parse_insensitive_contains(self.wire());
            },
            SearchQuerySpecView::Fragment { values, case_sensitive } => {
                Self::lemma_members_fragment(self.wire(), values, case_sensitive);
                Self::lemma_parse_fragment(self.wire());
            },
            SearchQuerySpecView::Regex { pattern } => {
                Self::lemma_members_regex(self.wire(), pattern);
                Self::lemma_parse_regex(self.wire());
            },
        }
    }

    /// The members that are written for the variant `contains` are read
    /// back as the value, given that its parts are read back from their
    /// wire forms.
    proof fn lemma_members_contains(j: JsonValue, value: Seq<char>, case_sensitive: bool)
        requires
            j == JsonValue::Object(
                Seq::empty()
                    .push(member("type"@, text("contains"@)))
                    .push(member("value"@, text(value)))
                    .push(member("caseSensitive"@, flag(case_sensitive))),
            ),
        ensures
            j is Object,
            Self::parse_contains(j->Object_0) == Ok::<SearchQuerySpecView, Failure>(
                SearchQuerySpecView::Contains { value, case_sensitive },
            ),
            text_field(j->Object_0, "type"@) == Ok::<Seq<char>, Failure>("contains"@),
    {
        broadcast use {lemma_lookup_push, lemma_lookup_empty};

        lemma_keys();
    }

    /// An object with the discriminator `contains` is read as that variant.
    proof fn lemma_parse_contains(j: JsonValue)
        requires
            j is Object,
            text_field(j->Object_0, "type"@) == Ok::<Seq<char>, Failure>("contains"@),
        ensures
            Self::parse(j) == Self::parse_contains(j->Object_0),
    {
        lemma_tags();
    }

    /// The members that are written for the variant `insensitive_contains` are read
    /// back as the value, given that its parts are read back from their
    /// wire forms.
    proof fn lemma_members_insensitive_contains(j: JsonValue, value: Seq<char>)
        requires
            j == JsonValue::Object(
                Seq::empty()
                    .push(member("type"@, text("insensitive_contains"@)))
                    .push(member("value"@, text(value))),
            ),
        ensures
            j is Object,
            Self::parse_insensitive_contains(j->Object_0) == Ok::<SearchQuerySpecView, Failure>(
                SearchQuerySpecView::InsensitiveContains { value },
            ),
            text_field(j->Object_0, "type"@) == Ok::<Seq<char>, Failure>("insensitive_contains"@),
    {
        broadcast use {lemma_lookup_push, lemma_lookup_empty};

        lemma_keys();
    }

    /// An object with the discriminator `insensitive_contains` is read as that variant.
    proof fn lemma_parse_insensitive_contains(j: JsonValue)
        requires
            j is Object,
            text_field(j->Object_0, "type"@) == Ok::<Seq<char>, Failure>("insensitive_contains"@),
        ensures
            Self::parse(j) == Self::parse_insensitive_contains(j->Object_0),
    {
        lemma_tags();
    }

    /// The members that are written for the variant `fragment` are read
    /// back as the value, given that its parts are read back from their
    /// wire forms.
    proof fn lemma_members_fragment(j: JsonValue, values: Seq<Seq<char>>, case_sensitive: bool)
        requires
            j == JsonValue::Object(
                Seq::empty()
                    .push(member("type"@, text("fragment"@)))
                    .push(member("values"@, texts(values)))
                    .push(member("caseSensitive"@, flag(case_sensitive))),
            ),
        ensures
            j is Object,
            Self::parse_fragment(j->Object_0) == Ok::<SearchQuerySpecView, Failure>(
                SearchQuerySpecView::Fragment { values, case_sensitive },
            ),
            text_field(j->Object_0, "type"@) == Ok::<Seq<char>, Failure>("fragment"@),
    {
        broadcast use {lemma_lookup_push, lemma_lookup_empty};

        lemma_keys();
        lemma_texts_round_trip(values);
    }

    /// An object with the discriminator `fragment` is read as that variant.
    proof fn lemma_parse_fragment(j: JsonValue)
        requires
            j is Object,
            text_field(j->Object_0, "type"@) == Ok::<Seq<char>, Failure>("fragment"@),
        ensures
            Self::parse(j) == Self::parse_fragment(j->Object_0),
    {
        lemma_tags();
    }

    /// The members that are written for the variant `regex` are read
    /// back as the value, given that its parts are read back from their
    /// wire forms.
    proof fn lemma_members_regex(j: JsonValue, pattern: Seq<char>)
        requires
            j == JsonValue::Object(
                Seq::empty()
                    .push(member("type"@, text("regex"@)))
                    .push(member("pattern"@, text(pattern))),
            ),
        ensures
            j is Object,
            Self::parse_regex(j->Object_0)
                == Ok::<SearchQuerySpecView, Failure>(SearchQuerySpecView::Regex { pattern }),
            text_field(j->Object_0, "type"@) == Ok::<Seq<char>, Failure>("regex"@),
    {
        broadcast use {lemma_lookup_push, lemma_lookup_empty};

        lemma_keys();
    }

    /// An object with the discriminator `regex` is read as that variant.
    proof fn lemma_parse_regex(j: JsonValue)
        requires
            j is Object,
            text_field(j->Object_0, "type"@) == Ok::<Seq<char>, Failure>("regex"@),
        ensures
            Self::parse(j) == Self::parse_regex(j->Object_0),
    {
        lemma_tags();
    }

    /// What is written for a variant carries its discriminator.
    pub proof fn lemma_tag(self)
        ensures
            self.wire() is Object,
            text_field(self.wire()->Object_0, "type"@) == Ok::<Seq<char>, Failure>(self.tag()),
            Self::known_tag(self.tag()),
    {
        broadcast use {lemma_lookup_push, lemma_lookup_empty};

        lemma_keys();
    }

    /// An object whose discriminator stands for no variant of the
    /// family is refused as an unknown variant; it is read as none.
    pub proof fn lemma_unknown_tag(j: JsonValue)
        requires
            j is Object,
            text_field(j->Object_0, "type"@) is Ok,
            !Self::known_tag(text_field(j->Object_0, "type"@)->Ok_0),
        ensures
            Self::parse(j) == Err::<SearchQuerySpecView, Failure>(
                Failure::here(DecodeCause::UnknownVariant).within_key("type"@),
            ),
    {
    }

}

impl SearchQuerySpec {
    pub fn contains_insensitive(value: &str) -> (out: SearchQuerySpec)
        ensures
            out@ == (SearchQuerySpecView::InsensitiveContains { value: value@ }),
    {
        SearchQuerySpec::InsensitiveContains { value: value.to_string() }
    }

    pub fn contains(value: &str, case_sensitive: bool) -> (out: SearchQuerySpec)
        ensures
            out@ == (SearchQuerySpecView::Contains { value: value@, case_sensitive }),
    {
        SearchQuerySpec::Contains { value: value.to_string(), case_sensitive }
    }

    /// Writes the value in its wire form.
    pub fn encode(&self) -> (j: Json)
        ensures
            j@ == self@.wire(),
    {
        let mut m = no_members();
        match self {
            SearchQuerySpec::Contains { value, case_sensitive } => {
                put(&mut m, "type", text_json("contains"));
                put(&mut m, "value", text_json(value.as_str()));
                put(&mut m, "caseSensitive", flag_json(*case_sensitive));
            },
            SearchQuerySpec::InsensitiveContains { value } => {
                put(&mut m, "type", text_json("insensitive_contains"));
                put(&mut m, "value", text_json(value.as_str()));
            },
            SearchQuerySpec::Fragment { values, case_sensitive } => {
                put(&mut m, "type", text_json("fragment"));
                put(&mut m, "values", texts_json(values));
                put(&mut m, "caseSensitive", flag_json(*case_sensitive));
            },
            SearchQuerySpec::Regex { pattern } => {
                put(&mut m, "type", text_json("regex"));
                put(&mut m, "pattern", text_json(pattern.as_str()));
            },
        }
        object_json(m)
    }

    /// Reads a value from its wire form.
    pub fn decode(j: &Json) -> (r: Result<SearchQuerySpec, DecodeError>)
        ensures
            decoded(r) == SearchQuerySpecView::parse(j@),
    {
        let m = read_members(j)?;
        let t = text_member(m, "type")?;
        if str_eq(t.as_str(), "contains") {
            Self::decode_contains(m)
        } else if str_eq(t.as_str(), "insensitive_contains") {
            Self::decode_insensitive_contains(m)
        } else if str_eq(t.as_str(), "fragment") {
            Self::decode_fragment(m)
        } else if str_eq(t.as_str(), "regex") {
            Self::decode_regex(m)
        } else {
            Err(DecodeError::here(DecodeCause::UnknownVariant).within_key("type"))
        }
    }

    fn decode_contains(m: &Vec<Member>) -> (r: Result<SearchQuerySpec, DecodeError>)
        ensures
            decoded(r) == SearchQuerySpecView::parse_contains(members_view(m@)),
    {
        let value = text_member(m, "value")?;
        let case_sensitive = flag_member(m, "caseSensitive")?;
        Ok(SearchQuerySpec::Contains { value, case_sensitive })
    }

    fn decode_insensitive_contains(m: &Vec<Member>) -> (r: Result<SearchQuerySpec, DecodeError>)
        ensures
            decoded(r) == SearchQuerySpecView::parse_insensitive_contains(members_view(m@)),
    {
        let value = text_member(m, "value")?;
        Ok(SearchQuerySpec::InsensitiveContains { value })
    }

    fn decode_fragment(m: &Vec<Member>) -> (r: Result<SearchQuerySpec, DecodeError>)
        ensures
            decoded(r) == SearchQuerySpecView::parse_fragment(members_view(m@)),
    {
        let values = texts_member(m, "values")?;
        let case_sensitive = flag_member(m, "caseSensitive")?;
        Ok(SearchQuerySpec::Fragment { values, case_sensitive })
    }

    fn decode_regex(m: &Vec<Member>) -> (r: Result<SearchQuerySpec, DecodeError>)
        ensures
            decoded(r) == SearchQuerySpecView::parse_regex(members_view(m@)),
    {
        let pattern = text_member(m, "pattern")?;
        Ok(SearchQuerySpec::Regex { pattern })
    }
}

/// A query for the dimension values that match what is searched for.
#[derive(Debug, PartialEq)]
pub struct Search {
    pub data_source: DataSource,
    pub granularity: Granularity,
    pub filter: Option<Filter>,
    pub limit: usize,
    pub intervals: Vec<Interval>,
    pub search_dimensions: Vec<String>,
    pub query: SearchQuerySpec,
    pub sort: Option<SortingOrder>,
    pub context: StringMap,
}

/// Mathematical value of a [`Search`].
pub struct SearchView {
    pub data_source: DataSourceView,
    pub granularity: GranularityView,
    pub filter: Option<FilterView>,
    pub limit: usize,
    pub intervals: Seq<IntervalView>,
    pub search_dimensions: Seq<Seq<char>>,
    pub query: SearchQuerySpecView,
    pub sort: Option<SortingOrder>,
    pub context: Seq<(Seq<char>, Seq<char>)>,
}

impl Search {
    /// The mathematical value.
    pub open spec fn value(self) -> SearchView
        decreases self,
    {
        SearchView {
            data_source: self.data_source.value(),
            granularity: self.granularity@,
            filter: opt_view(self.filter),
            limit: self.limit,
            intervals: list_view(self.intervals@),
            search_dimensions: strings_view(self.search_dimensions@),
            query: self.query@,
            sort: self.sort,
            context: self.context@,
        }
    }

    /// The mathematical values of the elements of a list.
    pub open spec fn values(list: Seq<Search>) -> Seq<SearchView>
        decreases list,
    {
        Seq::new(
            list.len(),
            |i: int| if 0 <= i < list.len() { list[i].value() } else { arbitrary() },
        )
    }

    /// [`Self::values`] is the view of the list.
    pub proof fn lemma_values(list: Seq<Search>)
        ensures
            Self::values(list) == list_view(list),
    {
        assert(Self::values(list) =~= list_view(list));
    }
}

impl View for Search {
    type V = SearchView;

    open spec fn view(&self) -> SearchView {
        self.value()
    }
}

impl SearchView {
    /// The wire form.
    pub open spec fn wire(self) -> JsonValue
        decreases self,
    {
        JsonValue::Object(
            Seq::empty()
                .push(member("queryType"@, text("search"@)))
                .push(member("dataSource"@, self.data_source.wire()))
                .push(member("granularity"@, self.granularity.wire()))
                .push(
                    member(
                        "filter"@,
                        match self.filter { Some(v) => v.wire(), None => JsonValue::Null },
                    ),
                )
                .push(member("limit"@, count(self.limit)))
                .push(
                    member("intervals"@, JsonValue::Array(IntervalView::wire_list(self.intervals))),
                )
                .push(member("searchDimensions"@, texts(self.search_dimensions)))
                .push(member("query"@, self.query.wire()))
                .push(
                    member(
                        "sort"@,
                        match self.sort { Some(v) => v.wire(), None => JsonValue::Null },
                    ),
                )
                .push(member("context"@, map_wire(self.context))),
        )
    }

    /// Whether the parts that are not read back whatever they hold are
    /// read back as they are: every interval inside, and every map
    /// inside, which has to hold each key once.
    pub open spec fn reads_back(self) -> bool
        decreases self,
    {
        self.data_source.reads_back()
            && (self.filter matches Some(v) ==> v.reads_back())
            && IntervalView::all_read_back(self.intervals)
            && distinct_keys(self.context)
    }

    /// Whether no timestamp inside holds anything finer than
    /// milliseconds.
    pub open spec fn millisecond_precise(self) -> bool
        decreases self,
    {
        self.data_source.millisecond_precise()
            && IntervalView::all_precise(self.intervals)
    }

    /// What a document is read as.
    pub open spec fn parse(j: JsonValue) -> Result<SearchView, Failure>
        decreases j,
    {
        match as_members(j) {
            Ok(m) => match text_field(m, "queryType"@) {
                Ok(t) => if t == "search"@ {
                    Self::parse_members(m)
                } else {
                    Err(Failure::here(DecodeCause::UnknownVariant).within_key("queryType"@))
                },
                Err(e) => Err(e),
            },
            Err(e) => Err(e),
        }
    }

    /// The members of the object, read.
    pub open spec fn parse_members(m: Seq<MemberValue>) -> Result<SearchView, Failure>
        decreases m,
    {
        let data_source = match required(m, "dataSource"@) {
            Ok(v) => {
                proof { lemma_lookup_smaller(m, "dataSource"@); }
                under("dataSource"@, DataSourceView::parse(v))
            },
            Err(e) => Err(e),
        };
        let granularity = match required(m, "granularity"@) {
            Ok(v) => under("granularity"@, GranularityView::parse(v)),
            Err(e) => Err(e),
        };
        let filter = match present(m, "filter"@) {
            Some(v) => match FilterView::parse(v) {
                Ok(x) => Ok(Some(x)),
                Err(e) => Err(e.within_key("filter"@)),
            },
            None => Ok(None),
        };
        let limit = count_field(m, "limit"@);
        let intervals = match items_field(m, "intervals"@) {
            Ok(items) => under("intervals"@, IntervalView::parse_list(items)),
            Err(e) => Err(e),
        };
        let search_dimensions = texts_field(m, "searchDimensions"@);
        let query = match required(m, "query"@) {
            Ok(v) => under("query"@, SearchQuerySpecView::parse(v)),
            Err(e) => Err(e),
        };
        let sort = match present(m, "sort"@) {
            Some(v) => match SortingOrder::parse(v) {
                Ok(x) => Ok(Some(x)),
                Err(e) => Err(e.within_key("sort"@)),
            },
            None => Ok(None),
        };
        let context = match required(m, "context"@) {
            Ok(v) => under("context"@, map_parse(v)),
            Err(e) => Err(e),
        };
        if data_source is Err {
            Err(data_source->Err_0)
        } else if granularity is Err {
            Err(granularity->Err_0)
        } else if filter is Err {
            Err(filter->Err_0)
        } else if limit is Err {
            Err(limit->Err_0)
        } else if intervals is Err {
            Err(intervals->Err_0)
        } else if search_dimensions is Err {
            Err(search_dimensions->Err_0)
        } else if query is Err {
            Err(query->Err_0)
        } else if sort is Err {
            Err(sort->Err_0)
        } else if context is Err {
            Err(context->Err_0)
        } else {
            Ok(
                SearchView {
                    data_source: data_source->Ok_0,
                    granularity: granularity->Ok_0,
                    filter: filter->Ok_0,
                    limit: limit->Ok_0,
                    intervals: intervals->Ok_0,
                    search_dimensions: search_dimensions->Ok_0,
                    query: query->Ok_0,
                    sort: sort->Ok_0,
                    context: context->Ok_0,
                },
            )
        }
    }

    /// What is written is never `null`.
    pub proof fn lemma_wire_not_null(self)
        ensures
            !(self.wire() is Null),
    {
    }

    /// Reading back what was written gives the value again, if the
    /// intervals and the maps inside are read back as they are.
    pub proof fn lemma_round_trip(self)
        requires
            self.reads_back(),
        ensures
            Self::parse(self.wire()) == Ok::<SearchView, Failure>(self),
            self.wire() is Object,
            Self::parse_members(self.wire()->Object_0) == Ok::<SearchView, Failure>(self),
            text_field(self.wire()->Object_0, "queryType"@) == Ok::<Seq<char>, Failure>("search"@),
        decreases self,
    {
        self.data_source.lemma_round_trip();
        self.granularity.lemma_round_trip();
        if self.filter is Some {
            self.filter->Some_0.lemma_round_trip();
            self.filter->Some_0.lemma_wire_not_null();
        }
        IntervalView::lemma_list_round_trip(self.intervals);
        self.query.lemma_round_trip();
        lemma_map_round_trip(self.context);
        Self::lemma_members(
            self.wire(),
            self.data_source,
            self.data_source.wire(),
            self.granularity,
            self.granularity.wire(),
            self.filter,
            match self.filter { Some(v) => v.wire(), None => JsonValue::Null },
            self.limit,
            self.intervals,
            IntervalView::wire_list(self.intervals),
            self.search_dimensions,
            self.query,
            self.query.wire(),
            self.sort,
            self.context,
            map_wire(self.context),
        );
    }

    /// The members that are written are read back as the value, given
    /// that its parts are read back from their wire forms.
    proof fn lemma_members(
        j: JsonValue,
        data_source: DataSourceView,
        data_source_wire: JsonValue,
        granularity: GranularityView,
        granularity_wire: JsonValue,
        filter: Option<FilterView>,
        filter_wire: JsonValue,
        limit: usize,
        intervals: Seq<IntervalView>,
        intervals_items: Seq<JsonValue>,
        search_dimensions: Seq<Seq<char>>,
        query: SearchQuerySpecView,
        query_wire: JsonValue,
        sort: Option<SortingOrder>,
        context: Seq<(Seq<char>, Seq<char>)>,
        context_wire: JsonValue,
    )
        requires
            j == JsonValue::Object(
                Seq::empty()
                    .push(member("queryType"@, text("search"@)))
                    .push(member("dataSource"@, data_source_wire))
                    .push(member("granularity"@, granularity_wire))
                    .push(
                        member(
                            "filter"@,
                            match filter { Some(_) => filter_wire, None => JsonValue::Null },
                        ),
                    )
                    .push(member("limit"@, count(limit)))
                    .push(member("intervals"@, JsonValue::Array(intervals_items)))
                    .push(member("searchDimensions"@, texts(search_dimensions)))
                    .push(member("query"@, query_wire))
                    .push(
                        member(
                            "sort"@,
                            match sort { Some(v) => v.wire(), None => JsonValue::Null },
                        ),
                    )
                    .push(member("context"@, context_wire)),
            ),
            DataSourceView::parse(data_source_wire) == Ok::<DataSourceView, Failure>(data_source),
            GranularityView::parse(granularity_wire) == Ok::<GranularityView, Failure>(granularity),
            filter matches Some(v) ==>
                FilterView::parse(filter_wire) == Ok::<FilterView, Failure>(v),
            filter is Some ==> !(filter_wire is Null),
            IntervalView::parse_list(intervals_items)
                == Ok::<Seq<IntervalView>, Failure>(intervals),
            SearchQuerySpecView::parse(query_wire) == Ok::<SearchQuerySpecView, Failure>(query),
            map_parse(context_wire) == Ok::<Seq<(Seq<char>, Seq<char>)>, Failure>(context),
        ensures
            j is Object,
            Self::parse_members(j->Object_0) == Ok::<SearchView, Failure>(
                SearchView {
                    data_source,
                    granularity,
                    filter,
                    limit,
                    intervals,
                    search_dimensions,
                    query,
                    sort,
                    context,
                },
            ),
            text_field(j->Object_0, "queryType"@) == Ok::<Seq<char>, Failure>("search"@),
            Self::parse(j) == Ok::<SearchView, Failure>(
                SearchView {
                    data_source,
                    granularity,
                    filter,
                    limit,
                    intervals,
                    search_dimensions,
                    query,
                    sort,
                    context,
                },
            ),
    {
        broadcast use {lemma_lookup_push, lemma_lookup_empty};

        lemma_keys();
        lemma_texts_round_trip(search_dimensions);
        if sort is Some {
            sort->Some_0.lemma_round_trip();
        }
    }

}

impl Search {
    /// Writes the value in its wire form. A value whose timestamps hold
    /// nothing finer than milliseconds is read back as it is.
    pub fn encode(&self) -> (j: Json)
        ensures
            j@ == self@.wire(),
            self@.millisecond_precise() ==> self@.reads_back(),
            self@.millisecond_precise() ==>
                SearchView::parse(j@) == Ok::<SearchView, Failure>(self@),
        decreases self,
    {
        let mut m = no_members();
        put(&mut m, "queryType", text_json("search"));
        put(&mut m, "dataSource", self.data_source.encode());
        put(&mut m, "granularity", self.granularity.encode());
        put(&mut m, "filter", match &self.filter { Some(v) => v.encode(), None => Json::Null });
        put(&mut m, "limit", count_json(self.limit));
        put(&mut m, "intervals", array_json(Interval::encode_list(&self.intervals)));
        put(&mut m, "searchDimensions", texts_json(&self.search_dimensions));
        put(&mut m, "query", self.query.encode());
        put(&mut m, "sort", match &self.sort { Some(v) => v.encode(), None => Json::Null });
        put(&mut m, "context", self.context.encode());
        proof {
            if self@.millisecond_precise() {
                self@.lemma_round_trip();
            }
        }
        object_json(m)
    }

    /// Reads a value from its wire form.
    pub fn decode(j: &Json) -> (r: Result<Search, DecodeError>)
        ensures
            decoded(r) == SearchView::parse(j@),
        decreases j,
    {
        let m = read_members(j)?;
        let t = text_member(m, "queryType")?;
        if !str_eq(t.as_str(), "search") {
            return Err(DecodeError::here(DecodeCause::UnknownVariant).within_key("queryType"));
        }
        Self::decode_members(m)
    }

    /// Reads the members of the object.
    pub fn decode_members(m: &Vec<Member>) -> (r: Result<Search, DecodeError>)
        ensures
            decoded(r) == SearchView::parse_members(members_view(m@)),
        decreases m,
    {
        let data_source = under_key(
            DataSource::decode(required_field(m, "dataSource")?),
            "dataSource",
        )?;
        let granularity = under_key(
            Granularity::decode(required_field(m, "granularity")?),
            "granularity",
        )?;
        let filter = match present_field(m, "filter") {
            Some(v) => Some(under_key(Filter::decode(v), "filter")?),
            None => None,
        };
        let limit = count_member(m, "limit")?;
        let intervals = under_key(
            Interval::decode_list(items_member(m, "intervals")?),
            "intervals",
        )?;
        let search_dimensions = texts_member(m, "searchDimensions")?;
        let query = under_key(SearchQuerySpec::decode(required_field(m, "query")?), "query")?;
        let sort = match present_field(m, "sort") {
            Some(v) => Some(under_key(SortingOrder::decode(v), "sort")?),
            None => None,
        };
        let context = under_key(StringMap::decode(required_field(m, "context")?), "context")?;
        Ok(
            Search {
                data_source,
                granularity,
                filter,
                limit,
                intervals,
                search_dimensions,
                query,
                sort,
                context,
            },
        )
    }
}

/// The names of the members differ from one another.
proof fn lemma_keys()
    ensures
        "caseSensitive"@.len() == 13,
        "context"@.len() == 7,
        "dataSource"@.len() == 10,
        "filter"@.len() == 6,
        "granularity"@.len() == 11,
        "intervals"@.len() == 9,
        "limit"@.len() == 5,
        "pattern"@.len() == 7,
        "query"@.len() == 5,
        "queryType"@.len() == 9,
        "searchDimensions"@.len() == 16,
        "sort"@.len() == 4,
        "type"@.len() == 4,
        "value"@.len() == 5,
        "values"@.len() == 6,
        "sort"@[0] == 's',
        "type"@[0] == 't',
        "limit"@[0] == 'l',
        "query"@[0] == 'q',
        "value"@[0] == 'v',
        "filter"@[0] == 'f',
        "values"@[0] == 'v',
        "context"@[0] == 'c',
        "pattern"@[0] == 'p',
        "intervals"@[0] == 'i',
        "queryType"@[0] == 'q',
{
    reveal_strlit("caseSensitive");
    reveal_strlit("context");
    reveal_strlit("dataSource");
    reveal_strlit("filter");
    reveal_strlit("granularity");
    reveal_strlit("intervals");
    reveal_strlit("limit");
    reveal_strlit("pattern");
    reveal_strlit("query");
    reveal_strlit("queryType");
    reveal_strlit("searchDimensions");
    reveal_strlit("sort");
    reveal_strlit("type");
    reveal_strlit("value");
    reveal_strlit("values");
}

/// The names that stand for the variants differ from one another.
proof fn lemma_tags()
    ensures
        "contains"@.len() == 8,
        "fragment"@.len() == 8,
        "insensitive_contains"@.len() == 20,
        "regex"@.len() == 5,
        "search"@.len() == 6,
        "contains"@[0] == 'c',
        "fragment"@[0] == 'f',
{
    reveal_strlit("contains");
    reveal_strlit("fragment");
    reveal_strlit("insensitive_contains");
    reveal_strlit("regex");
    reveal_strlit("search");
}

} // verus!
