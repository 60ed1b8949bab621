//! Extraction functions: what is applied to the values of a dimension
//! before they are used.

use vstd::prelude::*;
use crate::codec::{
    array_json, as_members, as_text, count, count_field, count_json, count_member,
    decoded_list, field_with, flag, flag_field, flag_json, flag_member, items_field,
    items_member, lemma_items_field_smaller, lemma_read_all_accepted, lemma_read_all_empty,
    lemma_read_all_refused, lemma_read_all_step, list_view, member, no_members, object_json,
    opt_count_field, opt_count_member, opt_field_with, opt_text_field, opt_text_member,
    opt_view, present_field, put, read_all, read_members, read_str, required_field, text,
    text_field, text_json, text_member, under, under_key,
};
use crate::error::{decoded, DecodeCause, DecodeError, Failure};
use crate::json::{
    items_view, lemma_lookup_empty, lemma_lookup_push, members_view, str_eq, Json, JsonValue,
    Member, MemberValue,
};
use crate::query::definitions::granularitys::{Granularity, GranularityView};
use crate::query::definitions::lookup::{LookupMap, LookupMapView};

verus! {

/// What a format makes of a missing value.
#[derive(Clone, Copy, Debug, PartialEq, Eq, Structural)]
pub enum NullHandling {
    NullString,
    EmptyString,
    ReturnNull,
}

impl View for NullHandling {
    type V = NullHandling;

    open spec fn view(&self) -> NullHandling {
        *self
    }
}

impl NullHandling {
    /// The name that stands for the value on the wire.
    pub open spec fn name(self) -> Seq<char> {
        match self {
            NullHandling::NullString => "nullString"@,
            NullHandling::EmptyString => "emptyString"@,
            NullHandling::ReturnNull => "returnNull"@,
        }
    }

    /// The value that a name stands for, if it stands for one.
    pub open spec fn named(s: Seq<char>) -> Option<NullHandling> {
        if s == "nullString"@ {
            Some(NullHandling::NullString)
        } else if s == "emptyString"@ {
            Some(NullHandling::EmptyString)
        } else if s == "returnNull"@ {
            Some(NullHandling::ReturnNull)
        } else {
            None
        }
    }

    /// The wire form: the name, as a string.
    pub open spec fn wire(self) -> JsonValue {
        text(self.name())
    }

    /// What a document is read as: a string that is one of the names
    /// gives its value, any other string is an unknown variant, and
    /// anything but a string a type mismatch.
    pub open spec fn parse(j: JsonValue) -> Result<NullHandling, Failure> {
        match as_text(j) {
            Ok(s) => match Self::named(s) {
                Some(v) => Ok(v),
                None => Err(Failure::here(DecodeCause::UnknownVariant)),
            },
            Err(e) => Err(e),
        }
    }

    /// Writes the value in its wire form.
    pub fn encode(&self) -> (j: Json)
        ensures
            j@ == self.wire(),
    {
        match self {
            NullHandling::NullString => text_json("nullString"),
            NullHandling::EmptyString => text_json("emptyString"),
            NullHandling::ReturnNull => text_json("returnNull"),
        }
    }

    /// Reads a value from its wire form.
    pub fn decode(j: &Json) -> (r: Result<NullHandling, DecodeError>)
        ensures
            decoded(r) == Self::parse(j@),
    {
        let s = match read_str(j) {
            Ok(s) => s,
            Err(e) => {
                return Err(e);
            },
        };
        if str_eq(s, "nullString") {
            Ok(NullHandling::NullString)
        } else if str_eq(s, "emptyString") {
            Ok(NullHandling::EmptyString)
        } else if str_eq(s, "returnNull") {
            Ok(NullHandling::ReturnNull)
        } else {
            Err(DecodeError::here(DecodeCause::UnknownVariant))
        }
    }

    /// Reading back what was written gives the value again.
    pub proof fn lemma_round_trip(self)
        ensures
            Self::parse(self.wire()) == Ok::<NullHandling, Failure>(self),
    {
        lemma_tags();
    }

    /// A string that is none of the names is refused as an unknown
    /// variant.
    pub proof fn lemma_unknown_name(s: Seq<char>)
        requires
            Self::named(s) is None,
        ensures
            Self::parse(text(s)) == Err::<NullHandling, Failure>(
                Failure::here(DecodeCause::UnknownVariant),
            ),
    {
    }
}

/// A function that is applied to the values of a dimension.
#[derive(Debug, PartialEq)]
#[allow(inconsistent_fields)]
pub enum ExtractFN {
    /// The group of a regular expression that matches.
    Regex {
        expr: String,
        index: usize,
        replace_missing_value: bool,
        replace_missing_value_with: Option<String>,
    },
    /// The value itself where a regular expression matches, nothing otherwise.
    Partial {
        expr: String,
    },
    /// A part of the value.
    Substring {
        index: usize,
        length: Option<usize>,
    },
    /// The length of the value.
    Strlen,
    /// The time of the row, formatted.
    TimeFormat {
        format: Option<String>,
        time_zone: Option<String>,
        locale: Option<String>,
        granularity: Option<Granularity>,
        as_millis: bool,
    },
    /// A time that is read in one format and written in another.
    Time {
        time_format: String,
        result_format: String,
        joda: bool,
    },
    /// A JavaScript function of the value.
    Javascript {
        function: String,
    },
    /// A lookup that the engine knows by name.
    RegisteredLookup {
        lookup: String,
        retain_missing_value: bool,
    },
    /// A lookup that is given with the query.
    Lookup {
        lookup: LookupMap,
        retain_missing_value: bool,
        injective: bool,
        replace_missing_value_with: String,
    },
    /// The given functions, one after the other.
    Cascade {
        extraction_fns: Vec<ExtractFN>,
    },
    /// The value, formatted.
    StringFormat {
        format: String,
        null_handling: Option<NullHandling>,
    },
    /// The value in upper case.
    Upper {
        locale: Option<String>,
    },
    /// The value in lower case.
    Lower {
        locale: Option<String>,
    },
    /// The numeric bucket that the value falls into.
    Bucket {
        size: usize,
        offset: usize,
    },
}

/// Mathematical value of an [`ExtractFN`].
#[allow(inconsistent_fields)]
pub enum ExtractFNView {
    Regex {
        expr: Seq<char>,
        index: usize,
        replace_missing_value: bool,
        replace_missing_value_with: Option<Seq<char>>,
    },
    Partial {
        expr: Seq<char>,
    },
    Substring {
        index: usize,
        length: Option<usize>,
    },
    Strlen,
    TimeFormat {
        format: Option<Seq<char>>,
        time_zone: Option<Seq<char>>,
        locale: Option<Seq<char>>,
        granularity: Option<GranularityView>,
        as_millis: bool,
    },
    Time {
        time_format: Seq<char>,
        result_format: Seq<char>,
        joda: bool,
    },
    Javascript {
        function: Seq<char>,
    },
    RegisteredLookup {
        lookup: Seq<char>,
        retain_missing_value: bool,
    },
    Lookup {
        lookup: LookupMapView,
        retain_missing_value: bool,
        injective: bool,
        replace_missing_value_with: Seq<char>,
    },
    Cascade {
        extraction_fns: Seq<ExtractFNView>,
    },
    StringFormat {
        format: Seq<char>,
        null_handling: Option<NullHandling>,
    },
    Upper {
        locale: Option<Seq<char>>,
    },
    Lower {
        locale: Option<Seq<char>>,
    },
    Bucket {
        size: usize,
        offset: usize,
    },
}

impl ExtractFN {
    /// The mathematical value.
    pub open spec fn value(self) -> ExtractFNView
        decreases self,
    {
        match self {
            ExtractFN::Regex { expr, index, replace_missing_value, replace_missing_value_with } => ExtractFNView::Regex {
                expr: expr@,
                index: index,
                replace_missing_value: replace_missing_value,
                replace_missing_value_with: opt_view(replace_missing_value_with),
            },
            ExtractFN::Partial { expr } => ExtractFNView::Partial {
                expr: expr@,
            },
            ExtractFN::Substring { index, length } => ExtractFNView::Substring {
                index: index,
                length: length,
            },
            ExtractFN::Strlen => ExtractFNView::Strlen,
            ExtractFN::TimeFormat { format, time_zone, locale, granularity, as_millis } => ExtractFNView::TimeFormat {
                format: opt_view(format),
                time_zone: opt_view(time_zone),
                locale: opt_view(locale),
                granularity: opt_view(granularity),
                as_millis: as_millis,
            },
            ExtractFN::Time { time_format, result_format, joda } => ExtractFNView::Time {
                time_format: time_format@,
                result_format: result_format@,
                joda: joda,
            },
            ExtractFN::Javascript { function } => ExtractFNView::Javascript {
                function: function@,
            },
            ExtractFN::RegisteredLookup { lookup, retain_missing_value } => ExtractFNView::RegisteredLookup {
                lookup: lookup@,
                retain_missing_value: retain_missing_value,
            },
            ExtractFN::Lookup { lookup, retain_missing_value, injective, replace_missing_value_with } => ExtractFNView::Lookup {
                lookup: lookup@,
                retain_missing_value: retain_missing_value,
                injective: injective,
                replace_missing_value_with: replace_missing_value_with@,
            },
            ExtractFN::Cascade { extraction_fns } => ExtractFNView::Cascade {
                extraction_fns: Self::values(extraction_fns@),
            },
            ExtractFN::StringFormat { format, null_handling } => ExtractFNView::StringFormat {
                format: format@,
                null_handling: null_handling,
            },
            ExtractFN::Upper { locale } => ExtractFNView::Upper {
                locale: opt_view(locale),
            },
            ExtractFN::Lower { locale } => ExtractFNView::Lower {
                locale: opt_view(locale),
            },
            ExtractFN::Bucket { size, offset } => ExtractFNView::Bucket {
                size: size,
                offset: offset,
            },
        }
    }

    /// The mathematical values of the elements of a list.
    pub open spec fn values(list: Seq<ExtractFN>) -> Seq<ExtractFNView>
        decreases list,
    {
        Seq::new(
            list.len(),
            |i: int| if 0 <= i < list.len() { list[i].value() } else { arbitrary() },
        )
    }

    /// [`Self::values`] is the view of the list.
    pub proof fn lemma_values(list: Seq<ExtractFN>)
        ensures
            Self::values(list) == list_view(list),
    {
        assert(Self::values(list) =~= list_view(list));
    }
}

impl View for ExtractFN {
    type V = ExtractFNView;

    open spec fn view(&self) -> ExtractFNView {
        self.value()
    }
}

impl ExtractFNView {
    /// The discriminator that stands for the variant on the wire.
    pub open spec fn tag(self) -> Seq<char> {
        match self {
            ExtractFNView::Regex { .. } => "regex"@,
            ExtractFNView::Partial { .. } => "partial"@,
            ExtractFNView::Substring { .. } => "substring"@,
            ExtractFNView::Strlen => "strlen"@,
            ExtractFNView::TimeFormat { .. } => "timeFormat"@,
            ExtractFNView::Time { .. } => "time"@,
            ExtractFNView::Javascript { .. } => "javascript"@,
            ExtractFNView::RegisteredLookup { .. } => "registeredLookup"@,
            ExtractFNView::Lookup { .. } => "lookup"@,
            ExtractFNView::Cascade { .. } => "cascade"@,
            ExtractFNView::StringFormat { .. } => "stringFormat"@,
            ExtractFNView::Upper { .. } => "upper"@,
            ExtractFNView::Lower { .. } => "lower"@,
            ExtractFNView::Bucket { .. } => "bucket"@,
        }
    }

    /// Whether a discriminator stands for a variant of this family.
    pub open spec fn known_tag(t: Seq<char>) -> bool {
        t == "regex"@
            || t == "partial"@
            || t == "substring"@
            || t == "strlen"@
            || t == "timeFormat"@
            || t == "time"@
            || t == "javascript"@
            || t == "registeredLookup"@
            || t == "lookup"@
            || t == "cascade"@
            || t == "stringFormat"@
            || t == "upper"@
            || t == "lower"@
            || t == "bucket"@
    }

    /// The wire form.
    pub open spec fn wire(self) -> JsonValue
        decreases self,
    {
        match self {
            ExtractFNView::Regex {
                expr,
                index,
                replace_missing_value,
                replace_missing_value_with,
            } => {
                let members = Seq::empty()
                    .push(member("type"@, text("regex"@)))
                    .push(member("expr"@, text(expr)))
                    .push(member("index"@, count(index)))
                    .push(member("replaceMissingValue"@, flag(replace_missing_value)));
                let members = match replace_missing_value_with {
                    Some(v) => members.push(member("replaceMissingValueWith"@, text(v))),
                    None => members,
                };
                JsonValue::Object(members)
            },
            ExtractFNView::Partial { expr } => JsonValue::Object(
                Seq::empty()
                    .push(member("type"@, text("partial"@)))
                    .push(member("expr"@, text(expr))),
            ),
            ExtractFNView::Substring { index, length } => {
                let members = Seq::empty()
                    .push(member("type"@, text("substring"@)))
                    .push(member("index"@, count(index)));
                let members = match length {
                    Some(v) => members.push(member("length"@, count(v))),
                    None => members,
                };
                JsonValue::Object(members)
            },
            ExtractFNView::Strlen => JsonValue::Object(
                Seq::empty()
                    .push(member("type"@, text("strlen"@))),
            ),
            ExtractFNView::TimeFormat { format, time_zone, locale, granularity, as_millis } => {
                let members = Seq::empty()
                    .push(member("type"@, text("timeFormat"@)));
                let members = match format {
                    Some(v) => members.push(member("format"@, text(v))),
                    None => members,
                };
                let members = match time_zone {
                    Some(v) => members.push(member("timeZone"@, text(v))),
                    None => members,
                };
                let members = match locale {
                    Some(v) => members.push(member("locale"@, text(v))),
                    None => members,
                };
                let members = match granularity {
                    Some(v) => members.push(member("granularity"@, v.wire())),
                    None => members,
                };
                let members = members
                    .push(member("asMillis"@, flag(as_millis)));
                JsonValue::Object(members)
            },
            ExtractFNView::Time { time_format, result_format, joda } => JsonValue::Object(
                Seq::empty()
                    .push(member("type"@, text("time"@)))
                    .push(member("timeFormat"@, text(time_format)))
                    .push(member("resultFormat"@, text(result_format)))
                    .push(member("joda"@, flag(joda))),
            ),
            ExtractFNView::Javascript { function } => JsonValue::Object(
                Seq::empty()
                    .push(member("type"@, text("javascript"@)))
                    .push(member("function"@, text(function))),
            ),
            ExtractFNView::RegisteredLookup { lookup, retain_missing_value } => JsonValue::Object(
                Seq::empty()
                    .push(member("type"@, text("registeredLookup"@)))
                    .push(member("lookup"@, text(lookup)))
                    .push(member("retainMissingValue"@, flag(retain_missing_value))),
            ),
            ExtractFNView::Lookup { lookup, retain_missing_value, injective, replace_missing_value_with } => JsonValue::Object(
                Seq::empty()
                    .push(member("type"@, text("lookup"@)))
                    .push(member("lookup"@, lookup.wire()))
                    .push(member("retainMissingValue"@, flag(retain_missing_value)))
                    .push(member("injective"@, flag(injective)))
                    .push(member("replaceMissingValueWith"@, text(replace_missing_value_with))),
            ),
            ExtractFNView::Cascade { extraction_fns } => JsonValue::Object(
                Seq::empty()
                    .push(member("type"@, text("cascade"@)))
                    .push(
                        member(
                            "extractionFns"@,
                            JsonValue::Array(ExtractFNView::wire_list(extraction_fns)),
                        ),
                    ),
            ),
            ExtractFNView::StringFormat { format, null_handling } => {
                let members = Seq::empty()
                    .push(member("type"@, text("stringFormat"@)))
                    .push(member("format"@, text(format)));
                let members = match null_handling {
                    Some(v) => members.push(member("nullHandling"@, v.wire())),
                    None => members,
                };
                JsonValue::Object(members)
            },
            ExtractFNView::Upper { locale } => {
                let members = Seq::empty()
                    .push(member("type"@, text("upper"@)));
                let members = match locale {
                    Some(v) => members.push(member("locale"@, text(v))),
                    None => members,
                };
                JsonValue::Object(members)
            },
            ExtractFNView::Lower { locale } => {
                let members = Seq::empty()
                    .push(member("type"@, text("lower"@)));
                let members = match locale {
                    Some(v) => members.push(member("locale"@, text(v))),
                    None => members,
                };
                JsonValue::Object(members)
            },
            ExtractFNView::Bucket { size, offset } => JsonValue::Object(
                Seq::empty()
                    .push(member("type"@, text("bucket"@)))
                    .push(member("size"@, count(size)))
                    .push(member("offset"@, count(offset))),
            ),
        }
    }

    /// The wire forms of the elements of a list.
    pub open spec fn wire_list(list: Seq<ExtractFNView>) -> Seq<JsonValue>
        decreases list,
    {
        Seq::new(
            list.len(),
            |i: int| if 0 <= i < list.len() { list[i].wire() } else { arbitrary() },
        )
    }

    /// Whether the parts that are not read back whatever they hold are
    /// read back as they are: every interval inside, and every map
    /// inside, which has to hold each key once.
    pub open spec fn reads_back(self) -> bool
        decreases self,
    {
        match self {
            ExtractFNView::Regex { .. } => true,
            ExtractFNView::Partial { .. } => true,
            ExtractFNView::Substring { .. } => true,
            ExtractFNView::Strlen => true,
            ExtractFNView::TimeFormat { .. } => true,
            ExtractFNView::Time { .. } => true,
            ExtractFNView::Javascript { .. } => true,
            ExtractFNView::RegisteredLookup { .. } => true,
            ExtractFNView::Lookup { lookup, .. } => lookup.reads_back(),
            ExtractFNView::Cascade { extraction_fns } => Self::all_read_back(extraction_fns),
            ExtractFNView::StringFormat { .. } => true,
            ExtractFNView::Upper { .. } => true,
            ExtractFNView::Lower { .. } => true,
            ExtractFNView::Bucket { .. } => true,
        }
    }

    /// Whether every element of a list is read back as it is.
    pub open spec fn all_read_back(list: Seq<ExtractFNView>) -> bool
        decreases list,
    {
        forall|i: int| 0 <= i < list.len() ==> (#[trigger] list[i]).reads_back()
    }

    /// What a document is read as.
    pub open spec fn parse(j: JsonValue) -> Result<ExtractFNView, Failure>
        decreases j,
    {
        match as_members(j) {
            Ok(m) => match text_field(m, "type"@) {
                Ok(t) => if t == "regex"@ {
                    Self::parse_regex(m)
                } else if t == "partial"@ {
                    Self::parse_partial(m)
                } else if t == "substring"@ {
                    Self::parse_substring(m)
                } else if t == "strlen"@ {
                    Self::parse_strlen(m)
                } else if t == "timeFormat"@ {
                    Self::parse_time_format(m)
                } else if t == "time"@ {
                    Self::parse_time(m)
                } else if t == "javascript"@ {
                    Self::parse_javascript(m)
                } else if t == "registeredLookup"@ {
                    Self::parse_registered_lookup(m)
                } else if t == "lookup"@ {
                    Self::parse_lookup(m)
                } else if t == "cascade"@ {
                    Self::parse_cascade(m)
                } else if t == "stringFormat"@ {
                    Self::parse_string_format(m)
                } else if t == "upper"@ {
                    Self::parse_upper(m)
                } else if t == "lower"@ {
                    Self::parse_lower(m)
                } else if t == "bucket"@ {
                    Self::parse_bucket(m)
                } else {
                    Err(Failure::here(DecodeCause::UnknownVariant).within_key("type"@))
                },
                Err(e) => Err(e),
            },
            Err(e) => Err(e),
        }
    }

    /// The members of the variant `regex`, read.
    pub open spec fn parse_regex(m: Seq<MemberValue>) -> Result<ExtractFNView, Failure>
        decreases m,
    {
        let expr = text_field(m, "expr"@);
        let index = count_field(m, "index"@);
        let replace_missing_value = flag_field(m, "replaceMissingValue"@);
        let replace_missing_value_with = opt_text_field(m, "replaceMissingValueWith"@);
        if expr is Err {
            Err(expr->Err_0)
        } else if index is Err {
            Err(index->Err_0)
        } else if replace_missing_value is Err {
            Err(replace_missing_value->Err_0)
        } else if replace_missing_value_with is Err {
            Err(replace_missing_value_with->Err_0)
        } else {
            Ok(
                ExtractFNView::Regex {
                    expr: expr->Ok_0,
                    index: index->Ok_0,
                    replace_missing_value: replace_missing_value->Ok_0,
                    replace_missing_value_with: replace_missing_value_with->Ok_0,
                },
            )
        }
    }

    /// The members of the variant `partial`, read.
    pub open spec fn parse_partial(m: Seq<MemberValue>) -> Result<ExtractFNView, Failure>
        decreases m,
    {
        let expr = text_field(m, "expr"@);
        if expr is Err {
            Err(expr->Err_0)
        } else {
            Ok(ExtractFNView::Partial { expr: expr->Ok_0 })
        }
    }

    /// The members of the variant `substring`, read.
    pub open spec fn parse_substring(m: Seq<MemberValue>) -> Result<ExtractFNView, Failure>
        decreases m,
    {
        let index = count_field(m, "index"@);
        let length = opt_count_field(m, "length"@);
        if index is Err {
            Err(index->Err_0)
        } else if length is Err {
            Err(length->Err_0)
        } else {
            Ok(ExtractFNView::Substring { index: index->Ok_0, length: length->Ok_0 })
        }
    }

    /// The members of the variant `strlen`, read.
    pub open spec fn parse_strlen(m: Seq<MemberValue>) -> Result<ExtractFNView, Failure>
        decreases m,
    {
        Ok(ExtractFNView::Strlen)
    }

    /// The members of the variant `timeFormat`, read.
    pub open spec fn parse_time_format(m: Seq<MemberValue>) -> Result<ExtractFNView, Failure>
        decreases m,
    {
        let format = opt_text_field(m, "format"@);
        let time_zone = opt_text_field(m, "timeZone"@);
        let locale = opt_text_field(m, "locale"@);
        let granularity = opt_field_with(
            m,
            "granularity"@,
            |v: JsonValue| GranularityView::parse(v),
        );
        let as_millis = flag_field(m, "asMillis"@);
        if format is Err {
            Err(format->Err_0)
        } else if time_zone is Err {
            Err(time_zone->Err_0)
        } else if locale is Err {
            Err(locale->Err_0)
        } else if granularity is Err {
            Err(granularity->Err_0)
        } else if as_millis is Err {
            Err(as_millis->Err_0)
        } else {
            Ok(
                ExtractFNView::TimeFormat {
                    format: format->Ok_0,
                    time_zone: time_zone->Ok_0,
                    locale: locale->Ok_0,
                    granularity: granularity->Ok_0,
                    as_millis: as_millis->Ok_0,
                },
            )
        }
    }

    /// The members of the variant `time`, read.
    pub open spec fn parse_time(m: Seq<MemberValue>) -> Result<ExtractFNView, Failure>
        decreases m,
    {
        let time_format = text_field(m, "timeFormat"@);
        let result_format = text_field(m, "resultFormat"@);
        let joda = flag_field(m, "joda"@);
        if time_format is Err {
            Err(time_format->Err_0)
        } else if result_format is Err {
            Err(result_format->Err_0)
        } else if joda is Err {
            Err(joda->Err_0)
        } else {
            Ok(
                ExtractFNView::Time {
                    time_format: time_format->Ok_0,
                    result_format: result_format->Ok_0,
                    joda: joda->Ok_0,
                },
            )
        }
    }

    /// The members of the variant `javascript`, read.
    pub open spec fn parse_javascript(m: Seq<MemberValue>) -> Result<ExtractFNView, Failure>
        decreases m,
    {
        let function = text_field(m, "function"@);
        if function is Err {
            Err(function->Err_0)
        } else {
            Ok(ExtractFNView::Javascript { function: function->Ok_0 })
        }
    }

    /// The members of the variant `registeredLookup`, read.
    pub open spec fn parse_registered_lookup(m: Seq<MemberValue>) -> Result<ExtractFNView, Failure>
        decreases m,
    {
        let lookup = text_field(m, "lookup"@);
        let retain_missing_value = flag_field(m, "retainMissingValue"@);
        if lookup is Err {
            Err(lookup->Err_0)
        } else if retain_missing_value is Err {
            Err(retain_missing_value->Err_0)
        } else {
            Ok(
                ExtractFNView::RegisteredLookup {
                    lookup: lookup->Ok_0,
                    retain_missing_value: retain_missing_value->Ok_0,
                },
            )
        }
    }

    /// The members of the variant `lookup`, read.
    pub open spec fn parse_lookup(m: Seq<MemberValue>) -> Result<ExtractFNView, Failure>
        decreases m,
    {
        let lookup = field_with(m, "lookup"@, |v: JsonValue| LookupMapView::parse(v));
        let retain_missing_value = flag_field(m, "retainMissingValue"@);
        let injective = flag_field(m, "injective"@);
        let replace_missing_value_with = text_field(m, "replaceMissingValueWith"@);
        if lookup is Err {
            Err(lookup->Err_0)
        } else if retain_missing_value is Err {
            Err(retain_missing_value->Err_0)
        } else if injective is Err {
            Err(injective->Err_0)
        } else if replace_missing_value_with is Err {
            Err(replace_missing_value_with->Err_0)
        } else {
            Ok(
                ExtractFNView::Lookup {
                    lookup: lookup->Ok_0,
                    retain_missing_value: retain_missing_value->Ok_0,
                    injective: injective->Ok_0,
                    replace_missing_value_with: replace_missing_value_with->Ok_0,
                },
            )
        }
    }

    /// The members of the variant `cascade`, read.
    pub open spec fn parse_cascade(m: Seq<MemberValue>) -> Result<ExtractFNView, Failure>
        decreases m,
    {
        let extraction_fns = match items_field(m, "extractionFns"@) {
            Ok(items) => {
                proof { lemma_items_field_smaller(m, "extractionFns"@); }
                under("extractionFns"@, ExtractFNView::parse_list(items))
            },
            Err(e) => Err(e),
        };
        if extraction_fns is Err {
            Err(extraction_fns->Err_0)
        } else {
            Ok(ExtractFNView::Cascade { extraction_fns: extraction_fns->Ok_0 })
        }
    }

    /// The members of the variant `stringFormat`, read.
    pub open spec fn parse_string_format(m: Seq<MemberValue>) -> Result<ExtractFNView, Failure>
        decreases m,
    {
        let format = text_field(m, "format"@);
        let null_handling = opt_field_with(
            m,
            "nullHandling"@,
            |v: JsonValue| NullHandling::parse(v),
        );
        if format is Err {
            Err(format->Err_0)
        } else if null_handling is Err {
            Err(null_handling->Err_0)
        } else {
            Ok(
                ExtractFNView::StringFormat {
                    format: format->Ok_0,
                    null_handling: null_handling->Ok_0,
                },
            )
        }
    }

    /// The members of the variant `upper`, read.
    pub open spec fn parse_upper(m: Seq<MemberValue>) -> Result<ExtractFNView, Failure>
        decreases m,
    {
        let locale = opt_text_field(m, "locale"@);
        if locale is Err {
            Err(locale->Err_0)
        } else {
            Ok(ExtractFNView::Upper { locale: locale->Ok_0 })
        }
    }

    /// The members of the variant `lower`, read.
    pub open spec fn parse_lower(m: Seq<MemberValue>) -> Result<ExtractFNView, Failure>
        decreases m,
    {
        let locale = opt_text_field(m, "locale"@);
        if locale is Err {
            Err(locale->Err_0)
        } else {
            Ok(ExtractFNView::Lower { locale: locale->Ok_0 })
        }
    }

    /// The members of the variant `bucket`, read.
    pub open spec fn parse_bucket(m: Seq<MemberValue>) -> Result<ExtractFNView, Failure>
        decreases m,
    {
        let size = count_field(m, "size"@);
        let offset = count_field(m, "offset"@);
        if size is Err {
            Err(size->Err_0)
        } else if offset is Err {
            Err(offset->Err_0)
        } else {
            Ok(ExtractFNView::Bucket { size: size->Ok_0, offset: offset->Ok_0 })
        }
    }

    /// Every element of an array, read: the list of what was read, or
    /// the failure of the first element that is refused, seen from its
    /// index.
    pub open spec fn parse_list(items: Seq<JsonValue>) -> Result<Seq<ExtractFNView>, Failure>
        decreases items,
    {
        if items.len() == 0 {
            Ok(Seq::empty())
        } else {
            match Self::parse_list(items.drop_last()) {
                Ok(front) => match Self::parse(items.last()) {
                    Ok(v) => Ok(front.push(v)),
                    Err(e) => Err(e.within_index((items.len() - 1) as nat)),
                },
                Err(e) => Err(e),
            }
        }
    }

    /// [`Self::wire_list`] writes each element.
    pub proof fn lemma_wire_list(list: Seq<ExtractFNView>)
        ensures
            Self::wire_list(list) == list.map_values(|x: ExtractFNView| x.wire()),
    {
        assert(Self::wire_list(list) =~= list.map_values(|x: ExtractFNView| x.wire()));
    }

    /// [`Self::parse_list`] reads each element.
    pub proof fn lemma_parse_list(items: Seq<JsonValue>)
        ensures
            Self::parse_list(items) == read_all(items, |j: JsonValue| Self::parse(j)),
        decreases items.len(),
    {
        let read = |j: JsonValue| Self::parse(j);
        if items.len() == 0 {
            lemma_read_all_empty(items, read);
        } else {
            Self::lemma_parse_list(items.drop_last());
            lemma_read_all_step(items, read);
        }
    }

    /// What is written is never `null`.
    pub proof fn lemma_wire_not_null(self)
        ensures
            !(self.wire() is Null),
    {
    }

    /// Reading back what was written gives the value again, if the
    /// intervals and the maps inside are read back as they are.
    pub proof fn lemma_round_trip(self)
        requires
            self.reads_back(),
        ensures
            Self::parse(self.wire()) == Ok::<ExtractFNView, Failure>(self),
        decreases self,
    {
        match self {
            ExtractFNView::Regex {
                expr,
                index,
                replace_missing_value,
                replace_missing_value_with,
            } => {
                Self::lemma_members_regex(
                    self.wire(),
                    expr,
                    index,
                    replace_missing_value,
                    replace_missing_value_with,
                );
                Self::lemma_parse_regex(self.wire());
            },
            ExtractFNView::Partial { expr } => {
                Self::lemma_members_partial(self.wire(), expr);
                Self::lemma_parse_partial(self.wire());
            },
            ExtractFNView::Substring { index, length } => {
                Self::lemma_members_substring(self.wire(), index, length);
                Self::lemma_parse_substring(self.wire());
            },
            ExtractFNView::Strlen => {
                Self::lemma_members_strlen(self.wire());
                Self::lemma_parse_strlen(self.wire());
            },
            ExtractFNView::TimeFormat { format, time_zone, locale, granularity, as_millis } => {
                if granularity is Some {
                    granularity->Some_0.lemma_round_trip();
                    granularity->Some_0.lemma_wire_not_null();
                }
                Self::lemma_members_time_format(
                    self.wire(),
                    format,
                    time_zone,
                    locale,
                    granularity,
                    match granularity { Some(v) => v.wire(), None => JsonValue::Null },
                    as_millis,
                );
                Self::lemma_parse_time_format(self.wire());
            },
            ExtractFNView::Time { time_format, result_format, joda } => {
                Self::lemma_members_time(self.wire(), time_format, result_format, joda);
                Self::lemma_parse_time(self.wire());
            },
            ExtractFNView::Javascript { function } => {
                Self::lemma_members_javascript(self.wire(), function);
                Self::lemma_parse_javascript(self.wire());
            },
            ExtractFNView::RegisteredLookup { lookup, retain_missing_value } => {
                Self::lemma_members_registered_lookup(self.wire(), lookup, retain_missing_value);
                Self::lemma_parse_registered_lookup(self.wire());
            },
            ExtractFNView::Lookup {
                lookup,
                retain_missing_value,
                injective,
                replace_missing_value_with,
            } => {
                lookup.lemma_round_trip();
                Self::lemma_members_lookup(
                    self.wire(),
                    lookup,
                    lookup.wire(),
                    retain_missing_value,
                    injective,
                    replace_missing_value_with,
                );
                Self::lemma_parse_lookup(self.wire());
            },
            ExtractFNView::Cascade { extraction_fns } => {
                ExtractFNView::lemma_list_round_trip(extraction_fns);
                Self::lemma_members_cascade(
                    self.wire(),
                    extraction_fns,
                    ExtractFNView::wire_list(extraction_fns),
                );
                Self::lemma_parse_cascade(self.wire());
            },
            ExtractFNView::StringFormat { format, null_handling } => {
                Self::lemma_members_string_format(self.wire(), format, null_handling);
                Self::lemma_parse_string_format(self.wire());
            },
            ExtractFNView::Upper { locale } => {
                Self::lemma_members_upper(self.wire(), locale);
                Self::lemma_parse_upper(self.wire());
            },
            ExtractFNView::Lower { locale } => {
                Self::lemma_members_lower(self.wire(), locale);
                Self::lemma_parse_lower(self.wire());
            },
            ExtractFNView::Bucket { size, offset } => {
                Self::lemma_members_bucket(self.wire(), size, offset);
                Self::lemma_parse_bucket(self.wire());
            },
        }
    }

    /// The members that are written for the variant `regex` are read
    /// back as the value, given that its parts are read back from their
    /// wire forms.
    proof fn lemma_members_regex(
        j: JsonValue,
        expr: Seq<char>,
        index: usize,
        replace_missing_value: bool,
        replace_missing_value_with: Option<Seq<char>>,
    )
        requires
            j == ({
                    let members = Seq::empty()
                        .push(member("type"@, text("regex"@)))
                        .push(member("expr"@, text(expr)))
                        .push(member("index"@, count(index)))
                        .push(member("replaceMissingValue"@, flag(replace_missing_value)));
                    let members = match replace_missing_value_with {
                        Some(v) => members.push(member("replaceMissingValueWith"@, text(v))),
                        None => members,
                    };
                    JsonValue::Object(members)
            }),
        ensures
            j is Object,
            Self::parse_regex(j->Object_0) == Ok::<ExtractFNView, Failure>(
                ExtractFNView::Regex {
                    expr,
                    index,
                    replace_missing_value,
                    replace_missing_value_with,
                },
            ),
            text_field(j->Object_0, "type"@) == Ok::<Seq<char>, Failure>("regex"@),
    {
        broadcast use {lemma_lookup_push, lemma_lookup_empty};

        lemma_keys();
    }

    /// An object with the discriminator `regex` is read as that variant.
    proof fn lemma_parse_regex(j: JsonValue)
        requires
            j is Object,
            text_field(j->Object_0, "type"@) == Ok::<Seq<char>, Failure>("regex"@),
        ensures
            Self::parse(j) == Self::parse_regex(j->Object_0),
    {
        lemma_tags();
    }

    /// The members that are written for the variant `partial` are read
    /// back as the value, given that its parts are read back from their
    /// wire forms.
    proof fn lemma_members_partial(j: JsonValue, expr: Seq<char>)
        requires
            j == JsonValue::Object(
                Seq::empty()
                    .push(member("type"@, text("partial"@)))
                    .push(member("expr"@, text(expr))),
            ),
        ensures
            j is Object,
            Self::parse_partial(j->Object_0)
                == Ok::<ExtractFNView, Failure>(ExtractFNView::Partial { expr }),
            text_field(j->Object_0, "type"@) == Ok::<Seq<char>, Failure>("partial"@),
    {
        broadcast use {lemma_lookup_push, lemma_lookup_empty};

        lemma_keys();
    }

    /// An object with the discriminator `partial` is read as that variant.
    proof fn lemma_parse_partial(j: JsonValue)
        requires
            j is Object,
            text_field(j->Object_0, "type"@) == Ok::<Seq<char>, Failure>("partial"@),
        ensures
            Self::parse(j) == Self::parse_partial(j->Object_0),
    {
        lemma_tags();
    }

    /// The members that are written for the variant `substring` are read
    /// back as the value, given that its parts are read back from their
    /// wire forms.
    proof fn lemma_members_substring(j: JsonValue, index: usize, length: Option<usize>)
        requires
            j == ({
                    let members = Seq::empty()
                        .push(member("type"@, text("substring"@)))
                        .push(member("index"@, count(index)));
                    let members = match length {
                        Some(v) => members.push(member("length"@, count(v))),
                        None => members,
                    };
                    JsonValue::Object(members)
            }),
        ensures
            j is Object,
            Self::parse_substring(j->Object_0) == Ok::<ExtractFNView, Failure>(
                ExtractFNView::Substring { index, length },
            ),
            text_field(j->Object_0, "type"@) == Ok::<Seq<char>, Failure>("substring"@),
    {
        broadcast use {lemma_lookup_push, lemma_lookup_empty};

        lemma_keys();
    }

    /// An object with the discriminator `substring` is read as that variant.
    proof fn lemma_parse_substring(j: JsonValue)
        requires
            j is Object,
            text_field(j->Object_0, "type"@) == Ok::<Seq<char>, Failure>("substring"@),
        ensures
            Self::parse(j) == Self::parse_substring(j->Object_0),
    {
        lemma_tags();
    }

    /// The members that are written for the variant `strlen` are read
    /// back as the value, given that its parts are read back from their
    /// wire forms.
    proof fn lemma_members_strlen(j: JsonValue)
        requires
            j == JsonValue::Object(
                Seq::empty()
                    .push(member("type"@, text("strlen"@))),
            ),
        ensures
            j is Object,
            Self::parse_strlen(j->Object_0) == Ok::<ExtractFNView, Failure>(ExtractFNView::Strlen),
            text_field(j->Object_0, "type"@) == Ok::<Seq<char>, Failure>("strlen"@),
    {
        broadcast use {lemma_lookup_push, lemma_lookup_empty};

        lemma_keys();
    }

    /// An object with the discriminator `strlen` is read as that variant.
    proof fn lemma_parse_strlen(j: JsonValue)
        requires
            j is Object,
            text_field(j->Object_0, "type"@) == Ok::<Seq<char>, Failure>("strlen"@),
        ensures
            Self::parse(j) == Self::parse_strlen(j->Object_0),
    {
        lemma_tags();
    }

    /// The members that are written for the variant `timeFormat` are read
    /// back as the value, given that its parts are read back from their
    /// wire forms.
    proof fn lemma_members_time_format(
        j: JsonValue,
        format: Option<Seq<char>>,
        time_zone: Option<Seq<char>>,
        locale: Option<Seq<char>>,
        granularity: Option<GranularityView>,
        granularity_wire: JsonValue,
        as_millis: bool,
    )
        requires
            j == ({
                    let members = Seq::empty()
                        .push(member("type"@, text("timeFormat"@)));
                    let members = match format {
                        Some(v) => members.push(member("format"@, text(v))),
                        None => members,
                    };
                    let members = match time_zone {
                        Some(v) => members.push(member("timeZone"@, text(v))),
                        None => members,
                    };
                    let members = match locale {
                        Some(v) => members.push(member("locale"@, text(v))),
                        None => members,
                    };
                    let members = match granularity {
                        Some(_) => members.push(member("granularity"@, granularity_wire)),
                        None => members,
                    };
                    let members = members
                        .push(member("asMillis"@, flag(as_millis)));
                    JsonValue::Object(members)
            }),
            granularity matches Some(v) ==>
                GranularityView::parse(granularity_wire) == Ok::<GranularityView, Failure>(v),
            granularity is Some ==> !(granularity_wire is Null),
        ensures
            j is Object,
            Self::parse_time_format(j->Object_0) == Ok::<ExtractFNView, Failure>(
                ExtractFNView::TimeFormat { format, time_zone, locale, granularity, as_millis },
            ),
            text_field(j->Object_0, "type"@) == Ok::<Seq<char>, Failure>("timeFormat"@),
    {
        broadcast use {lemma_lookup_push, lemma_lookup_empty};

        lemma_keys();
    }

    /// An object with the discriminator `timeFormat` is read as that variant.
    proof fn lemma_parse_time_format(j: JsonValue)
        requires
            j is Object,
            text_field(j->Object_0, "type"@) == Ok::<Seq<char>, Failure>("timeFormat"@),
        ensures
            Self::parse(j) == Self::parse_time_format(j->Object_0),
    {
        lemma_tags();
    }

    /// The members that are written for the variant `time` are read
    /// back as the value, given that its parts are read back from their
    /// wire forms.
    proof fn lemma_members_time(
        j: JsonValue,
        time_format: Seq<char>,
        result_format: Seq<char>,
        joda: bool,
    )
        requires
            j == JsonValue::Object(
                Seq::empty()
                    .push(member("type"@, text("time"@)))
                    .push(member("timeFormat"@, text(time_format)))
                    .push(member("resultFormat"@, text(result_format)))
                    .push(member("joda"@, flag(joda))),
            ),
        ensures
            j is Object,
            Self::parse_time(j->Object_0) == Ok::<ExtractFNView, Failure>(
                ExtractFNView::Time { time_format, result_format, joda },
            ),
            text_field(j->Object_0, "type"@) == Ok::<Seq<char>, Failure>("time"@),
    {
        broadcast use {lemma_lookup_push, lemma_lookup_empty};

        lemma_keys();
    }

    /// An object with the discriminator `time` is read as that variant.
    proof fn lemma_parse_time(j: JsonValue)
        requires
            j is Object,
            text_field(j->Object_0, "type"@) == Ok::<Seq<char>, Failure>("time"@),
        ensures
            Self::parse(j) == Self::parse_time(j->Object_0),
    {
        lemma_tags();
    }

    /// The members that are written for the variant `javascript` are read
    /// back as the value, given that its parts are read back from their
    /// wire forms.
    proof fn lemma_members_javascript(j: JsonValue, function: Seq<char>)
        requires
            j == JsonValue::Object(
                Seq::empty()
                    .push(member("type"@, text("javascript"@)))
                    .push(member("function"@, text(function))),
            ),
        ensures
            j is Object,
            Self::parse_javascript(j->Object_0)
                == Ok::<ExtractFNView, Failure>(ExtractFNView::Javascript { function }),
            text_field(j->Object_0, "type"@) == Ok::<Seq<char>, Failure>("javascript"@),
    {
        broadcast use {lemma_lookup_push, lemma_lookup_empty};

        lemma_keys();
    }

    /// An object with the discriminator `javascript` is read as that variant.
    proof fn lemma_parse_javascript(j: JsonValue)
        requires
            j is Object,
            text_field(j->Object_0, "type"@) == Ok::<Seq<char>, Failure>("javascript"@),
        ensures
            Self::parse(j) == Self::parse_javascript(j->Object_0),
    {
        lemma_tags();
    }

    /// The members that are written for the variant `registeredLookup` are read
    /// back as the value, given that its parts are read back from their
    /// wire forms.
    proof fn lemma_members_registered_lookup(
        j: JsonValue,
        lookup: Seq<char>,
        retain_missing_value: bool,
    )
        requires
            j == JsonValue::Object(
                Seq::empty()
                    .push(member("type"@, text("registeredLookup"@)))
                    .push(member("lookup"@, text(lookup)))
                    .push(member("retainMissingValue"@, flag(retain_missing_value))),
            ),
        ensures
            j is Object,
            Self::parse_registered_lookup(j->Object_0) == Ok::<ExtractFNView, Failure>(
                ExtractFNView::RegisteredLookup { lookup, retain_missing_value },
            ),
            text_field(j->Object_0, "type"@) == Ok::<Seq<char>, Failure>("registeredLookup"@),
    {
        broadcast use {lemma_lookup_push, lemma_lookup_empty};

        lemma_keys();
    }

    /// An object with the discriminator `registeredLookup` is read as that variant.
    proof fn lemma_parse_registered_lookup(j: JsonValue)
        requires
            j is Object,
            text_field(j->Object_0, "type"@) == Ok::<Seq<char>, Failure>("registeredLookup"@),
        ensures
            Self::parse(j) == Self::parse_registered_lookup(j->Object_0),
    {
        lemma_tags();
    }

    /// The members that are written for the variant `lookup` are read
    /// back as the value, given that its parts are read back from their
    /// wire forms.
    proof fn lemma_members_lookup(
        j: JsonValue,
        lookup: LookupMapView,
        lookup_wire: JsonValue,
        retain_missing_value: bool,
        injective: bool,
        replace_missing_value_with: Seq<char>,
    )
        requires
            j == JsonValue::Object(
                Seq::empty()
                    .push(member("type"@, text("lookup"@)))
                    .push(member("lookup"@, lookup_wire))
                    .push(member("retainMissingValue"@, flag(retain_missing_value)))
                    .push(member("injective"@, flag(injective)))
                    .push(member("replaceMissingValueWith"@, text(replace_missing_value_with))),
            ),
            LookupMapView::parse(lookup_wire) == Ok::<LookupMapView, Failure>(lookup),
        ensures
            j is Object,
            Self::parse_lookup(j->Object_0) == Ok::<ExtractFNView, Failure>(
                ExtractFNView::Lookup {
                    lookup,
                    retain_missing_value,
                    injective,
                    replace_missing_value_with,
                },
            ),
            text_field(j->Object_0, "type"@) == Ok::<Seq<char>, Failure>("lookup"@),
    {
        broadcast use {lemma_lookup_push, lemma_lookup_empty};

        lemma_keys();
    }

    /// An object with the discriminator `lookup` is read as that variant.
    proof fn lemma_parse_lookup(j: JsonValue)
        requires
            j is Object,
            text_field(j->Object_0, "type"@) == Ok::<Seq<char>, Failure>("lookup"@),
        ensures
            Self::parse(j) == Self::parse_lookup(j->Object_0),
    {
        lemma_tags();
    }

    /// The members that are written for the variant `cascade` are read
    /// back as the value, given that its parts are read back from their
    /// wire forms.
    proof fn lemma_members_cascade(
        j: JsonValue,
        extraction_fns: Seq<ExtractFNView>,
        extraction_fns_items: Seq<JsonValue>,
    )
        requires
            j == JsonValue::Object(
                Seq::empty()
                    .push(member("type"@, text("cascade"@)))
                    .push(member("extractionFns"@, JsonValue::Array(extraction_fns_items))),
            ),
            ExtractFNView::parse_list(extraction_fns_items)
                == Ok::<Seq<ExtractFNView>, Failure>(extraction_fns),
        ensures
            j is Object,
            Self::parse_cascade(j->Object_0) == Ok::<ExtractFNView, Failure>(
                ExtractFNView::Cascade { extraction_fns },
            ),
            text_field(j->Object_0, "type"@) == Ok::<Seq<char>, Failure>("cascade"@),
    {
        broadcast use {lemma_lookup_push, lemma_lookup_empty};

        lemma_keys();
    }

    /// An object with the discriminator `cascade` is read as that variant.
    proof fn lemma_parse_cascade(j: JsonValue)
        requires
            j is Object,
            text_field(j->Object_0, "type"@) == Ok::<Seq<char>, Failure>("cascade"@),
        ensures
            Self::parse(j) == Self::parse_cascade(j->Object_0),
    {
        lemma_tags();
    }

    /// The members that are written for the variant `stringFormat` are read
    /// back as the value, given that its parts are read back from their
    /// wire forms.
    proof fn lemma_members_string_format(
        j: JsonValue,
        format: Seq<char>,
        null_handling: Option<NullHandling>,
    )
        requires
            j == ({
                    let members = Seq::empty()
                        .push(member("type"@, text("stringFormat"@)))
                        .push(member("format"@, text(format)));
                    let members = match null_handling {
                        Some(v) => members.push(member("nullHandling"@, v.wire())),
                        None => members,
                    };
                    JsonValue::Object(members)
            }),
        ensures
            j is Object,
            Self::parse_string_format(j->Object_0) == Ok::<ExtractFNView, Failure>(
                ExtractFNView::StringFormat { format, null_handling },
            ),
            text_field(j->Object_0, "type"@) == Ok::<Seq<char>, Failure>("stringFormat"@),
    {
        broadcast use {lemma_lookup_push, lemma_lookup_empty};

        lemma_keys();
        if null_handling is Some {
            null_handling->Some_0.lemma_round_trip();
        }
    }

    /// An object with the discriminator `stringFormat` is read as that variant.
    proof fn lemma_parse_string_format(j: JsonValue)
        requires
            j is Object,
            text_field(j->Object_0, "type"@) == Ok::<Seq<char>, Failure>("stringFormat"@),
        ensures
            Self::parse(j) == Self::parse_string_format(j->Object_0),
    {
        lemma_tags();
    }

    /// The members that are written for the variant `upper` are read
    /// back as the value, given that its parts are read back from their
    /// wire forms.
    proof fn lemma_members_upper(j: JsonValue, locale: Option<Seq<char>>)
        requires
            j == ({
                    let members = Seq::empty()
                        .push(member("type"@, text("upper"@)));
                    let members = match locale {
                        Some(v) => members.push(member("locale"@, text(v))),
                        None => members,
                    };
                    JsonValue::Object(members)
            }),
        ensures
            j is Object,
            Self::parse_upper(j->Object_0)
                == Ok::<ExtractFNView, Failure>(ExtractFNView::Upper { locale }),
            text_field(j->Object_0, "type"@) == Ok::<Seq<char>, Failure>("upper"@),
    {
        broadcast use {lemma_lookup_push, lemma_lookup_empty};

        lemma_keys();
    }

    /// An object with the discriminator `upper` is read as that variant.
    proof fn lemma_parse_upper(j: JsonValue)
        requires
            j is Object,
            text_field(j->Object_0, "type"@) == Ok::<Seq<char>, Failure>("upper"@),
        ensures
            Self::parse(j) == Self::parse_upper(j->Object_0),
    {
        lemma_tags();
    }

    /// The members that are written for the variant `lower` are read
    /// back as the value, given that its parts are read back from their
    /// wire forms.
    proof fn lemma_members_lower(j: JsonValue, locale: Option<Seq<char>>)
        requires
            j == ({
                    let members = Seq::empty()
                        .push(member("type"@, text("lower"@)));
                    let members = match locale {
                        Some(v) => members.push(member("locale"@, text(v))),
                        None => members,
                    };
                    JsonValue::Object(members)
            }),
        ensures
            j is Object,
            Self::parse_lower(j->Object_0)
                == Ok::<ExtractFNView, Failure>(ExtractFNView::Lower { locale }),
            text_field(j->Object_0, "type"@) == Ok::<Seq<char>, Failure>("lower"@),
    {
        broadcast use {lemma_lookup_push, lemma_lookup_empty};

        lemma_keys();
    }

    /// An object with the discriminator `lower` is read as that variant.
    proof fn lemma_parse_lower(j: JsonValue)
        requires
            j is Object,
            text_field(j->Object_0, "type"@) == Ok::<Seq<char>, Failure>("lower"@),
        ensures
            Self::parse(j) == Self::parse_lower(j->Object_0),
    {
        lemma_tags();
    }

    /// The members that are written for the variant `bucket` are read
    /// back as the value, given that its parts are read back from their
    /// wire forms.
    proof fn lemma_members_bucket(j: JsonValue, size: usize, offset: usize)
        requires
            j == JsonValue::Object(
                Seq::empty()
                    .push(member("type"@, text("bucket"@)))
                    .push(member("size"@, count(size)))
                    .push(member("offset"@, count(offset))),
            ),
        ensures
            j is Object,
            Self::parse_bucket(j->Object_0) == Ok::<ExtractFNView, Failure>(ExtractFNView::Bucket {
                size,
                offset,
            }),
            text_field(j->Object_0, "type"@) == Ok::<Seq<char>, Failure>("bucket"@),
    {
        broadcast use {lemma_lookup_push, lemma_lookup_empty};

        lemma_keys();
    }

    /// An object with the discriminator `bucket` is read as that variant.
    proof fn lemma_parse_bucket(j: JsonValue)
        requires
            j is Object,
            text_field(j->Object_0, "type"@) == Ok::<Seq<char>, Failure>("bucket"@),
        ensures
            Self::parse(j) == Self::parse_bucket(j->Object_0),
    {
        lemma_tags();
    }

    /// Reading back a list that was written gives the list again, if
    /// each element is read back as it is.
    pub proof fn lemma_list_round_trip(list: Seq<ExtractFNView>)
        requires
            Self::all_read_back(list),
        ensures
            Self::parse_list(Self::wire_list(list)) == Ok::<Seq<ExtractFNView>, Failure>(list),
        decreases list,
    {
        let items = Self::wire_list(list);
        let read = |j: JsonValue| Self::parse(j);
        assert forall|i: int| 0 <= i < items.len() implies (#[trigger] read(items[i]))
            == Ok::<ExtractFNView, Failure>(list[i]) by {
            assert(list[i].reads_back());
            list[i].lemma_round_trip();
        }
        lemma_read_all_accepted(items, read, list);
        Self::lemma_parse_list(items);
    }

    /// What is written for a variant carries its discriminator.
    pub proof fn lemma_tag(self)
        ensures
            self.wire() is Object,
            text_field(self.wire()->Object_0, "type"@) == Ok::<Seq<char>, Failure>(self.tag()),
            Self::known_tag(self.tag()),
    {
        broadcast use {lemma_lookup_push, lemma_lookup_empty};

        lemma_keys();
    }

    /// An object whose discriminator stands for no variant of the
    /// family is refused as an unknown variant; it is read as none.
    pub proof fn lemma_unknown_tag(j: JsonValue)
        requires
            j is Object,
            text_field(j->Object_0, "type"@) is Ok,
            !Self::known_tag(text_field(j->Object_0, "type"@)->Ok_0),
        ensures
            Self::parse(j) == Err::<ExtractFNView, Failure>(
                Failure::here(DecodeCause::UnknownVariant).within_key("type"@),
            ),
    {
    }

}

impl ExtractFN {
    /// Writes the value in its wire form. It is read back as it is.
    pub fn encode(&self) -> (j: Json)
        ensures
            j@ == self@.wire(),
            self@.reads_back(),
            ExtractFNView::parse(j@) == Ok::<ExtractFNView, Failure>(self@),
        decreases self,
    {
        let mut m = no_members();
        match self {
            ExtractFN::Regex { expr, index, replace_missing_value, replace_missing_value_with } => {
                put(&mut m, "type", text_json("regex"));
                put(&mut m, "expr", text_json(expr.as_str()));
                put(&mut m, "index", count_json(*index));
                put(&mut m, "replaceMissingValue", flag_json(*replace_missing_value));
                match replace_missing_value_with {
                    Some(v) => {
                        put(&mut m, "replaceMissingValueWith", text_json(v.as_str()));
                    },
                    None => {},
                }
            },
            ExtractFN::Partial { expr } => {
                put(&mut m, "type", text_json("partial"));
                put(&mut m, "expr", text_json(expr.as_str()));
            },
            ExtractFN::Substring { index, length } => {
                put(&mut m, "type", text_json("substring"));
                put(&mut m, "index", count_json(*index));
                match length {
                    Some(v) => {
                        put(&mut m, "length", count_json(*v));
                    },
                    None => {},
                }
            },
            ExtractFN::Strlen => {
                put(&mut m, "type", text_json("strlen"));
            },
            ExtractFN::TimeFormat { format, time_zone, locale, granularity, as_millis } => {
                put(&mut m, "type", text_json("timeFormat"));
                match format {
                    Some(v) => {
                        put(&mut m, "format", text_json(v.as_str()));
                    },
                    None => {},
                }
                match time_zone {
                    Some(v) => {
                        put(&mut m, "timeZone", text_json(v.as_str()));
                    },
                    None => {},
                }
                match locale {
                    Some(v) => {
                        put(&mut m, "locale", text_json(v.as_str()));
                    },
                    None => {},
                }
                match granularity {
                    Some(v) => {
                        put(&mut m, "granularity", v.encode());
                    },
                    None => {},
                }
                put(&mut m, "asMillis", flag_json(*as_millis));
            },
            ExtractFN::Time { time_format, result_format, joda } => {
                put(&mut m, "type", text_json("time"));
                put(&mut m, "timeFormat", text_json(time_format.as_str()));
                put(&mut m, "resultFormat", text_json(result_format.as_str()));
                put(&mut m, "joda", flag_json(*joda));
            },
            ExtractFN::Javascript { function } => {
                put(&mut m, "type", text_json("javascript"));
                put(&mut m, "function", text_json(function.as_str()));
            },
            ExtractFN::RegisteredLookup { lookup, retain_missing_value } => {
                put(&mut m, "type", text_json("registeredLookup"));
                put(&mut m, "lookup", text_json(lookup.as_str()));
                put(&mut m, "retainMissingValue", flag_json(*retain_missing_value));
            },
            ExtractFN::Lookup {
                lookup,
                retain_missing_value,
                injective,
                replace_missing_value_with,
            } => {
                put(&mut m, "type", text_json("lookup"));
                put(&mut m, "lookup", lookup.encode());
                put(&mut m, "retainMissingValue", flag_json(*retain_missing_value));
                put(&mut m, "injective", flag_json(*injective));
                put(
                    &mut m,
                    "replaceMissingValueWith",
                    text_json(replace_missing_value_with.as_str()),
                );
            },
            ExtractFN::Cascade { extraction_fns } => {
                proof {
                    ExtractFN::lemma_values(extraction_fns@);
                }
                put(&mut m, "type", text_json("cascade"));
                put(&mut m, "extractionFns", array_json(ExtractFN::encode_list(extraction_fns)));
            },
            ExtractFN::StringFormat { format, null_handling } => {
                put(&mut m, "type", text_json("stringFormat"));
                put(&mut m, "format", text_json(format.as_str()));
                match null_handling {
                    Some(v) => {
                        put(&mut m, "nullHandling", v.encode());
                    },
                    None => {},
                }
            },
            ExtractFN::Upper { locale } => {
                put(&mut m, "type", text_json("upper"));
                match locale {
                    Some(v) => {
                        put(&mut m, "locale", text_json(v.as_str()));
                    },
                    None => {},
                }
            },
            ExtractFN::Lower { locale } => {
                put(&mut m, "type", text_json("lower"));
                match locale {
                    Some(v) => {
                        put(&mut m, "locale", text_json(v.as_str()));
                    },
                    None => {},
                }
            },
            ExtractFN::Bucket { size, offset } => {
                put(&mut m, "type", text_json("bucket"));
                put(&mut m, "size", count_json(*size));
                put(&mut m, "offset", count_json(*offset));
            },
        }
        proof {
            self@.lemma_round_trip();
        }
        object_json(m)
    }

    /// Writes each element of a list in its wire form. Each is read
    /// back as it is.
    pub fn encode_list(list: &Vec<ExtractFN>) -> (items: Vec<Json>)
        ensures
            items_view(items@) == ExtractFNView::wire_list(list_view(list@)),
            ExtractFNView::all_read_back(list_view(list@)),
        decreases list,
    {
        let mut items: Vec<Json> = Vec::new();
        let mut i: usize = 0;
        while i < list.len()
            invariant
                i <= list.len(),
                items.len() == i,
                forall|k: int| 0 <= k < i ==> items[k]@ == list[k]@.wire(),
                forall|k: int| 0 <= k < i ==> (#[trigger] list[k]@).reads_back(),
            decreases list.len() - i,
        {
            items.push(list[i].encode());
            i += 1;
        }
        assert(items_view(items@) =~= ExtractFNView::wire_list(list_view(list@)));
        assert forall|k: int| 0 <= k < list.len() implies (#[trigger] list_view(list@)[k]).reads_back() by {
            assert(list[k]@.reads_back());
        }
        items
    }

    /// Reads a value from its wire form.
    pub fn decode(j: &Json) -> (r: Result<ExtractFN, DecodeError>)
        ensures
            decoded(r) == ExtractFNView::parse(j@),
        decreases j,
    {
        let m = read_members(j)?;
        let t = text_member(m, "type")?;
        if str_eq(t.as_str(), "regex") {
            Self::decode_regex(m)
        } else if str_eq(t.as_str(), "partial") {
            Self::decode_partial(m)
        } else if str_eq(t.as_str(), "substring") {
            Self::decode_substring(m)
        } else if str_eq(t.as_str(), "strlen") {
            Self::decode_strlen(m)
        } else if str_eq(t.as_str(), "timeFormat") {
            Self::decode_time_format(m)
        } else if str_eq(t.as_str(), "time") {
            Self::decode_time(m)
        } else if str_eq(t.as_str(), "javascript") {
            Self::decode_javascript(m)
        } else if str_eq(t.as_str(), "registeredLookup") {
            Self::decode_registered_lookup(m)
        } else if str_eq(t.as_str(), "lookup") {
            Self::decode_lookup(m)
        } else if str_eq(t.as_str(), "cascade") {
            Self::decode_cascade(m)
        } else if str_eq(t.as_str(), "stringFormat") {
            Self::decode_string_format(m)
        } else if str_eq(t.as_str(), "upper") {
            Self::decode_upper(m)
        } else if str_eq(t.as_str(), "lower") {
            Self::decode_lower(m)
        } else if str_eq(t.as_str(), "bucket") {
            Self::decode_bucket(m)
        } else {
            Err(DecodeError::here(DecodeCause::UnknownVariant).within_key("type"))
        }
    }

    fn decode_regex(m: &Vec<Member>) -> (r: Result<ExtractFN, DecodeError>)
        ensures
            decoded(r) == ExtractFNView::parse_regex(members_view(m@)),
        decreases m,
    {
        let expr = text_member(m, "expr")?;
        let index = count_member(m, "index")?;
        let replace_missing_value = flag_member(m, "replaceMissingValue")?;
        let replace_missing_value_with = opt_text_member(m, "replaceMissingValueWith")?;
        Ok(ExtractFN::Regex { expr, index, replace_missing_value, replace_missing_value_with })
    }

    fn decode_partial(m: &Vec<Member>) -> (r: Result<ExtractFN, DecodeError>)
        ensures
            decoded(r) == ExtractFNView::parse_partial(members_view(m@)),
        decreases m,
    {
        let expr = text_member(m, "expr")?;
        Ok(ExtractFN::Partial { expr })
    }

    fn decode_substring(m: &Vec<Member>) -> (r: Result<ExtractFN, DecodeError>)
        ensures
            decoded(r) == ExtractFNView::parse_substring(members_view(m@)),
        decreases m,
    {
        let index = count_member(m, "index")?;
        let length = opt_count_member(m, "length")?;
        Ok(ExtractFN::Substring { index, length })
    }

    fn decode_strlen(m: &Vec<Member>) -> (r: Result<ExtractFN, DecodeError>)
        ensures
            decoded(r) == ExtractFNView::parse_strlen(members_view(m@)),
        decreases m,
    {
        Ok(ExtractFN::Strlen)
    }

    fn decode_time_format(m: &Vec<Member>) -> (r: Result<ExtractFN, DecodeError>)
        ensures
            decoded(r) == ExtractFNView::parse_time_format(members_view(m@)),
        decreases m,
    {
        let format = opt_text_member(m, "format")?;
        let time_zone = opt_text_member(m, "timeZone")?;
        let locale = opt_text_member(m, "locale")?;
        let granularity = match present_field(m, "granularity") {
            Some(v) => Some(under_key(Granularity::decode(v), "granularity")?),
            None => None,
        };
        let as_millis = flag_member(m, "asMillis")?;
        Ok(ExtractFN::TimeFormat { format, time_zone, locale, granularity, as_millis })
    }

    fn decode_time(m: &Vec<Member>) -> (r: Result<ExtractFN, DecodeError>)
        ensures
            decoded(r) == ExtractFNView::parse_time(members_view(m@)),
        decreases m,
    {
        let time_format = text_member(m, "timeFormat")?;
        let result_format = text_member(m, "resultFormat")?;
        let joda = flag_member(m, "joda")?;
        Ok(ExtractFN::Time { time_format, result_format, joda })
    }

    fn decode_javascript(m: &Vec<Member>) -> (r: Result<ExtractFN, DecodeError>)
        ensures
            decoded(r) == ExtractFNView::parse_javascript(members_view(m@)),
        decreases m,
    {
        let function = text_member(m, "function")?;
        Ok(ExtractFN::Javascript { function })
    }

    fn decode_registered_lookup(m: &Vec<Member>) -> (r: Result<ExtractFN, DecodeError>)
        ensures
            decoded(r) == ExtractFNView::parse_registered_lookup(members_view(m@)),
        decreases m,
    {
        let lookup = text_member(m, "lookup")?;
        let retain_missing_value = flag_member(m, "retainMissingValue")?;
        Ok(ExtractFN::RegisteredLookup { lookup, retain_missing_value })
    }

    fn decode_lookup(m: &Vec<Member>) -> (r: Result<ExtractFN, DecodeError>)
        ensures
            decoded(r) == ExtractFNView::parse_lookup(members_view(m@)),
        decreases m,
    {
        let lookup = under_key(LookupMap::decode(required_field(m, "lookup")?), "lookup")?;
        let retain_missing_value = flag_member(m, "retainMissingValue")?;
        let injective = flag_member(m, "injective")?;
        let replace_missing_value_with = text_member(m, "replaceMissingValueWith")?;
        Ok(
            ExtractFN::Lookup {
                lookup,
                retain_missing_value,
                injective,
                replace_missing_value_with,
            },
        )
    }

    fn decode_cascade(m: &Vec<Member>) -> (r: Result<ExtractFN, DecodeError>)
        ensures
            decoded(r) == ExtractFNView::parse_cascade(members_view(m@)),
        decreases m,
    {
        let extraction_fns = under_key(
            ExtractFN::decode_list(items_member(m, "extractionFns")?),
            "extractionFns",
        )?;
        proof {
            ExtractFN::lemma_values(extraction_fns@);
        }
        Ok(ExtractFN::Cascade { extraction_fns })
    }

    fn decode_string_format(m: &Vec<Member>) -> (r: Result<ExtractFN, DecodeError>)
        ensures
            decoded(r) == ExtractFNView::parse_string_format(members_view(m@)),
        decreases m,
    {
        let format = text_member(m, "format")?;
        let null_handling = match present_field(m, "nullHandling") {
            Some(v) => Some(under_key(NullHandling::decode(v), "nullHandling")?),
            None => None,
        };
        Ok(ExtractFN::StringFormat { format, null_handling })
    }

    fn decode_upper(m: &Vec<Member>) -> (r: Result<ExtractFN, DecodeError>)
        ensures
            decoded(r) == ExtractFNView::parse_upper(members_view(m@)),
        decreases m,
    {
        let locale = opt_text_member(m, "locale")?;
        Ok(ExtractFN::Upper { locale })
    }

    fn decode_lower(m: &Vec<Member>) -> (r: Result<ExtractFN, DecodeError>)
        ensures
            decoded(r) == ExtractFNView::parse_lower(members_view(m@)),
        decreases m,
    {
        let locale = opt_text_member(m, "locale")?;
        Ok(ExtractFN::Lower { locale })
    }

    fn decode_bucket(m: &Vec<Member>) -> (r: Result<ExtractFN, DecodeError>)
        ensures
            decoded(r) == ExtractFNView::parse_bucket(members_view(m@)),
        decreases m,
    {
        let size = count_member(m, "size")?;
        let offset = count_member(m, "offset")?;
        Ok(ExtractFN::Bucket { size, offset })
    }

    /// Reads each element of an array from its wire form.
    pub fn decode_list(items: &Vec<Json>) -> (r: Result<Vec<ExtractFN>, DecodeError>)
        ensures
            decoded_list(r) == ExtractFNView::parse_list(items_view(items@)),
        decreases items,
    {
        let ghost read = |j: JsonValue| ExtractFNView::parse(j);
        let mut out: Vec<ExtractFN> = Vec::new();
        let mut i: usize = 0;
        while i < items.len()
            invariant
                i <= items.len(),
                out.len() == i,
                read == (|j: JsonValue| ExtractFNView::parse(j)),
                forall|k: int|
                0 <= k < i ==>
                    (#[trigger] read(items_view(items@)[k]))
                        == Ok::<ExtractFNView, Failure>(out[k]@),
            decreases items.len() - i,
        {
            match ExtractFN::decode(&items[i]) {
                Ok(v) => {
                    out.push(v);
                },
                Err(e) => {
                    proof {
                        assert(read(items_view(items@)[i as int]) is Err);
                        lemma_read_all_refused(items_view(items@), read, i as int);
                        ExtractFNView::lemma_parse_list(items_view(items@));
                    }
                    return Err(e.within_index(i));
                },
            }
            i += 1;
        }
        proof {
            lemma_read_all_accepted(items_view(items@), read, list_view(out@));
            ExtractFNView::lemma_parse_list(items_view(items@));
        }
        Ok(out)
    }
}

/// The names of the members differ from one another.
proof fn lemma_keys()
    ensures
        "asMillis"@.len() == 8,
        "expr"@.len() == 4,
        "extractionFns"@.len() == 13,
        "format"@.len() == 6,
        "function"@.len() == 8,
        "granularity"@.len() == 11,
        "index"@.len() == 5,
        "injective"@.len() == 9,
        "joda"@.len() == 4,
        "length"@.len() == 6,
        "locale"@.len() == 6,
        "lookup"@.len() == 6,
        "nullHandling"@.len() == 12,
        "offset"@.len() == 6,
        "replaceMissingValue"@.len() == 19,
        "replaceMissingValueWith"@.len() == 23,
        "resultFormat"@.len() == 12,
        "retainMissingValue"@.len() == 18,
        "size"@.len() == 4,
        "timeFormat"@.len() == 10,
        "timeZone"@.len() == 8,
        "type"@.len() == 4,
        "expr"@[0] == 'e',
        "joda"@[0] == 'j',
        "size"@[0] == 's',
        "type"@[0] == 't',
        "format"@[2] == 'r',
        "length"@[2] == 'n',
        "locale"@[2] == 'c',
        "lookup"@[2] == 'o',
        "offset"@[2] == 'f',
        "asMillis"@[0] == 'a',
        "function"@[0] == 'f',
        "timeZone"@[0] == 't',
        "nullHandling"@[0] == 'n',
        "resultFormat"@[0] == 'r',
{
    reveal_strlit("asMillis");
    reveal_strlit("expr");
    reveal_strlit("extractionFns");
    reveal_strlit("format");
    reveal_strlit("function");
    reveal_strlit("granularity");
    reveal_strlit("index");
    reveal_strlit("injective");
    reveal_strlit("joda");
    reveal_strlit("length");
    reveal_strlit("locale");
    reveal_strlit("lookup");
    reveal_strlit("nullHandling");
    reveal_strlit("offset");
    reveal_strlit("replaceMissingValue");
    reveal_strlit("replaceMissingValueWith");
    reveal_strlit("resultFormat");
    reveal_strlit("retainMissingValue");
    reveal_strlit("size");
    reveal_strlit("timeFormat");
    reveal_strlit("timeZone");
    reveal_strlit("type");
}

/// The names that stand for the variants differ from one another.
proof fn lemma_tags()
    ensures
        "bucket"@.len() == 6,
        "cascade"@.len() == 7,
        "emptyString"@.len() == 11,
        "javascript"@.len() == 10,
        "lookup"@.len() == 6,
        "lower"@.len() == 5,
        "nullString"@.len() == 10,
        "partial"@.len() == 7,
        "regex"@.len() == 5,
        "registeredLookup"@.len() == 16,
        "returnNull"@.len() == 10,
        "stringFormat"@.len() == 12,
        "strlen"@.len() == 6,
        "substring"@.len() == 9,
        "time"@.len() == 4,
        "timeFormat"@.len() == 10,
        "upper"@.len() == 5,
        "lower"@[0] == 'l',
        "regex"@[0] == 'r',
        "upper"@[0] == 'u',
        "bucket"@[0] == 'b',
        "lookup"@[0] == 'l',
        "strlen"@[0] == 's',
        "cascade"@[0] == 'c',
        "partial"@[0] == 'p',
        "javascript"@[0] == 'j',
        "nullString"@[0] == 'n',
        "returnNull"@[0] == 'r',
        "timeFormat"@[0] == 't',
{
    reveal_strlit("bucket");
    reveal_strlit("cascade");
    reveal_strlit("emptyString");
    reveal_strlit("javascript");
    reveal_strlit("lookup");
    reveal_strlit("lower");
    reveal_strlit("nullString");
    reveal_strlit("partial");
    reveal_strlit("regex");
    reveal_strlit("registeredLookup");
    reveal_strlit("returnNull");
    reveal_strlit("stringFormat");
    reveal_strlit("strlen");
    reveal_strlit("substring");
    reveal_strlit("time");
    reveal_strlit("timeFormat");
    reveal_strlit("upper");
}

} // verus!
