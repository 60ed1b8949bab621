//! Granularity: the time buckets into which rows are grouped.

use vstd::prelude::*;
use crate::codec::{
    as_members, as_text, count, count_field, count_json, count_member, member, no_members,
    object_json, put, read_members, read_str, text, text_field, text_json, text_member,
};
use crate::error::{decoded, DecodeCause, DecodeError, Failure};
use crate::json::{
    lemma_lookup_empty, lemma_lookup_push, lemma_object_view, members_view, str_eq, Json,
    JsonValue, Member, MemberValue,
};

verus! {

/// The named time buckets.
#[derive(Clone, Copy, Debug, PartialEq, Eq, Structural)]
pub enum GranularityBase {
    All,
    Unbucketed,
    Second,
    Minute,
    FifteenMinute,
    ThirtyMinute,
    Hour,
    Day,
    Week,
    Month,
    Quarter,
    Year,
    Null,
}

impl View for GranularityBase {
    type V = GranularityBase;

    open spec fn view(&self) -> GranularityBase {
        *self
    }
}

impl GranularityBase {
    /// The name that stands for the value on the wire.
    pub open spec fn name(self) -> Seq<char> {
        match self {
            GranularityBase::All => "all"@,
            GranularityBase::Unbucketed => "none"@,
            GranularityBase::Second => "second"@,
            GranularityBase::Minute => "minute"@,
            GranularityBase::FifteenMinute => "fifteen_minute"@,
            GranularityBase::ThirtyMinute => "thirty_minute"@,
            GranularityBase::Hour => "hour"@,
            GranularityBase::Day => "day"@,
            GranularityBase::Week => "week"@,
            GranularityBase::Month => "month"@,
            GranularityBase::Quarter => "quarter"@,
            GranularityBase::Year => "year"@,
            GranularityBase::Null => "null"@,
        }
    }

    /// The value that a name stands for, if it stands for one.
    pub open spec fn named(s: Seq<char>) -> Option<GranularityBase> {
        if s == "all"@ {
            Some(GranularityBase::All)
        } else if s == "none"@ {
            Some(GranularityBase::Unbucketed)
        } else if s == "second"@ {
            Some(GranularityBase::Second)
        } else if s == "minute"@ {
            Some(GranularityBase::Minute)
        } else if s == "fifteen_minute"@ {
            Some(GranularityBase::FifteenMinute)
        } else if s == "thirty_minute"@ {
            Some(GranularityBase::ThirtyMinute)
        } else if s == "hour"@ {
            Some(GranularityBase::Hour)
        } else if s == "day"@ {
            Some(GranularityBase::Day)
        } else if s == "week"@ {
            Some(GranularityBase::Week)
        } else if s == "month"@ {
            Some(GranularityBase::Month)
        } else if s == "quarter"@ {
            Some(GranularityBase::Quarter)
        } else if s == "year"@ {
            Some(GranularityBase::Year)
        } else if s == "null"@ {
            Some(GranularityBase::Null)
        } else {
            None
        }
    }

    /// The wire form: the name, as a string.
    pub open spec fn wire(self) -> JsonValue {
        text(self.name())
    }

    /// What a document is read as: a string that is one of the names
    /// gives its value, any other string is an unknown variant, and
    /// anything but a string a type mismatch.
    pub open spec fn parse(j: JsonValue) -> Result<GranularityBase, Failure> {
        match as_text(j) {
            Ok(s) => match Self::named(s) {
                Some(v) => Ok(v),
                None => Err(Failure::here(DecodeCause::UnknownVariant)),
            },
            Err(e) => Err(e),
        }
    }

    /// Writes the value in its wire form.
    pub fn encode(&self) -> (j: Json)
        ensures
            j@ == self.wire(),
    {
        match self {
            GranularityBase::All => text_json("all"),
            GranularityBase::Unbucketed => text_json("none"),
            GranularityBase::Second => text_json("second"),
            GranularityBase::Minute => text_json("minute"),
            GranularityBase::FifteenMinute => text_json("fifteen_minute"),
            GranularityBase::ThirtyMinute => text_json("thirty_minute"),
            GranularityBase::Hour => text_json("hour"),
            GranularityBase::Day => text_json("day"),
            GranularityBase::Week => text_json("week"),
            GranularityBase::Month => text_json("month"),
            GranularityBase::Quarter => text_json("quarter"),
            GranularityBase::Year => text_json("year"),
            GranularityBase::Null => text_json("null"),
        }
    }

    /// Reads a value from its wire form.
    pub fn decode(j: &Json) -> (r: Result<GranularityBase, DecodeError>)
        ensures
            decoded(r) == Self::parse(j@),
    {
        let s = match read_str(j) {
            Ok(s) => s,
            Err(e) => {
                return Err(e);
            },
        };
        if str_eq(s, "all") {
            Ok(GranularityBase::All)
        } else if str_eq(s, "none") {
            Ok(GranularityBase::Unbucketed)
        } else if str_eq(s, "second") {
            Ok(GranularityBase::Second)
        } else if str_eq(s, "minute") {
            Ok(GranularityBase::Minute)
        } else if str_eq(s, "fifteen_minute") {
            Ok(GranularityBase::FifteenMinute)
        } else if str_eq(s, "thirty_minute") {
            Ok(GranularityBase::ThirtyMinute)
        } else if str_eq(s, "hour") {
            Ok(GranularityBase::Hour)
        } else if str_eq(s, "day") {
            Ok(GranularityBase::Day)
        } else if str_eq(s, "week") {
            Ok(GranularityBase::Week)
        } else if str_eq(s, "month") {
            Ok(GranularityBase::Month)
        } else if str_eq(s, "quarter") {
            Ok(GranularityBase::Quarter)
        } else if str_eq(s, "year") {
            Ok(GranularityBase::Year)
        } else if str_eq(s, "null") {
            Ok(GranularityBase::Null)
        } else {
            Err(DecodeError::here(DecodeCause::UnknownVariant))
        }
    }

    /// Reading back what was written gives the value again.
    pub proof fn lemma_round_trip(self)
        ensures
            Self::parse(self.wire()) == Ok::<GranularityBase, Failure>(self),
    {
        lemma_tags();
    }

    /// A string that is none of the names is refused as an unknown
    /// variant.
    pub proof fn lemma_unknown_name(s: Seq<char>)
        requires
            Self::named(s) is None,
        ensures
            Self::parse(text(s)) == Err::<GranularityBase, Failure>(
                Failure::here(DecodeCause::UnknownVariant),
            ),
    {
    }
}

/// A time bucket given by its length or by a calendar period.
#[derive(Debug, PartialEq)]
pub enum GranularityTyped {
    /// Buckets of a fixed number of milliseconds.
    Duration {
        duration: usize,
    },
    /// Buckets of one calendar period in a time zone.
    Period {
        period: String,
        time_zone: String,
    },
}

/// Mathematical value of a [`GranularityTyped`].
pub enum GranularityTypedView {
    Duration {
        duration: usize,
    },
    Period {
        period: Seq<char>,
        time_zone: Seq<char>,
    },
}

impl View for GranularityTyped {
    type V = GranularityTypedView;

    open spec fn view(&self) -> GranularityTypedView {
        match self {
            GranularityTyped::Duration { duration } => GranularityTypedView::Duration {
                duration: *duration,
            },
            GranularityTyped::Period { period, time_zone } => GranularityTypedView::Period {
                period: period@,
                time_zone: time_zone@,
            },
        }
    }
}

impl GranularityTypedView {
    /// The discriminator that stands for the variant on the wire.
    pub open spec fn tag(self) -> Seq<char> {
        match self {
            GranularityTypedView::Duration { .. } => "duration"@,
            GranularityTypedView::Period { .. } => "period"@,
        }
    }

    /// Whether a discriminator stands for a variant of this family.
    pub open spec fn known_tag(t: Seq<char>) -> bool {
        t == "duration"@
            || t == "period"@
    }

    /// The wire form.
    pub open spec fn wire(self) -> JsonValue {
        match self {
            GranularityTypedView::Duration { duration } => JsonValue::Object(
                Seq::empty()
                    .push(member("type"@, text("duration"@)))
                    .push(member("duration"@, count(duration))),
            ),
            GranularityTypedView::Period { period, time_zone } => JsonValue::Object(
                Seq::empty()
                    .push(member("type"@, text("period"@)))
                    .push(member("period"@, text(period)))
                    .push(member("timeZone"@, text(time_zone))),
            ),
        }
    }

    /// What a document is read as.
    pub open spec fn parse(j: JsonValue) -> Result<GranularityTypedView, Failure> {
        match as_members(j) {
            Ok(m) => match text_field(m, "type"@) {
                Ok(t) => if t == "duration"@ {
                    Self::parse_duration(m)
                } else if t == "period"@ {
                    Self::parse_period(m)
                } else {
                    Err(Failure::here(DecodeCause::UnknownVariant).within_key("type"@))
                },
                Err(e) => Err(e),
            },
            Err(e) => Err(e),
        }
    }

    /// The members of the variant `duration`, read.
    pub open spec fn parse_duration(m: Seq<MemberValue>) -> Result<GranularityTypedView, Failure> {
        let duration = count_field(m, "duration"@);
        if duration is Err {
            Err(duration->Err_0)
        } else {
            Ok(GranularityTypedView::Duration { duration: duration->Ok_0 })
        }
    }

    /// The members of the variant `period`, read.
    pub open spec fn parse_period(m: Seq<MemberValue>) -> Result<GranularityTypedView, Failure> {
        let period = text_field(m, "period"@);
        let time_zone = text_field(m, "timeZone"@);
        if period is Err {
            Err(period->Err_0)
        } else if time_zone is Err {
            Err(time_zone->Err_0)
        } else {
            Ok(GranularityTypedView::Period { period: period->Ok_0, time_zone: time_zone->Ok_0 })
        }
    }

    /// What is written is never `null`.
    pub proof fn lemma_wire_not_null(self)
        ensures
            !(self.wire() is Null),
    {
    }

    /// Reading back what was written gives the value again.
    pub proof fn lemma_round_trip(self)
        ensures
            Self::parse(self.wire()) == Ok::<GranularityTypedView, Failure>(self),
    {
        match self {
            GranularityTypedView::Duration { duration } => {
                Self::lemma_members_duration(self.wire(), duration);
                Self::lemma_parse_duration(self.wire());
            },
            GranularityTypedView::Period { period, time_zone } => {
                Self::lemma_members_period(self.wire(), period, time_zone);
                Self::lemma_parse_period(self.wire());
            },
        }
    }

    /// The members that are written for the variant `duration` are read
    /// back as the value, given that its parts are read back from their
    /// wire forms.
    proof fn lemma_members_duration(j: JsonValue, duration: usize)
        requires
            j == JsonValue::Object(
                Seq::empty()
                    .push(member("type"@, text("duration"@)))
                    .push(member("duration"@, count(duration))),
            ),
        ensures
            j is Object,
            Self::parse_duration(j->Object_0) == Ok::<GranularityTypedView, Failure>(
                GranularityTypedView::Duration { duration },
            ),
            text_field(j->Object_0, "type"@) == Ok::<Seq<char>, Failure>("duration"@),
    {
        broadcast use {lemma_lookup_push, lemma_lookup_empty};

        lemma_keys();
    }

    /// An object with the discriminator `duration` is read as that variant.
    proof fn lemma_parse_duration(j: JsonValue)
        requires
            j is Object,
            text_field(j->Object_0, "type"@) == Ok::<Seq<char>, Failure>("duration"@),
        ensures
            Self::parse(j) == Self::parse_duration(j->Object_0),
    {
        lemma_tags();
    }

    /// The members that are written for the variant `period` are read
    /// back as the value, given that its parts are read back from their
    /// wire forms.
    proof fn lemma_members_period(j: JsonValue, period: Seq<char>, time_zone: Seq<char>)
        requires
            j == JsonValue::Object(
                Seq::empty()
                    .push(member("type"@, text("period"@)))
                    .push(member("period"@, text(period)))
                    .push(member("timeZone"@, text(time_zone))),
            ),
        ensures
            j is Object,
            Self::parse_period(j->Object_0) == Ok::<GranularityTypedView, Failure>(
                GranularityTypedView::Period { period, time_zone },
            ),
            text_field(j->Object_0, "type"@) == Ok::<Seq<char>, Failure>("period"@),
    {
        broadcast use {lemma_lookup_push, lemma_lookup_empty};

        lemma_keys();
    }

    /// An object with the discriminator `period` is read as that variant.
    proof fn lemma_parse_period(j: JsonValue)
        requires
            j is Object,
            text_field(j->Object_0, "type"@) == Ok::<Seq<char>, Failure>("period"@),
        ensures
            Self::parse(j) == Self::parse_period(j->Object_0),
    {
        lemma_tags();
    }

    /// What is written for a variant carries its discriminator.
    pub proof fn lemma_tag(self)
        ensures
            self.wire() is Object,
            text_field(self.wire()->Object_0, "type"@) == Ok::<Seq<char>, Failure>(self.tag()),
            Self::known_tag(self.tag()),
    {
        broadcast use {lemma_lookup_push, lemma_lookup_empty};

        lemma_keys();
    }

    /// An object whose discriminator stands for no variant of the
    /// family is refused as an unknown variant; it is read as none.
    pub proof fn lemma_unknown_tag(j: JsonValue)
        requires
            j is Object,
            text_field(j->Object_0, "type"@) is Ok,
            !Self::known_tag(text_field(j->Object_0, "type"@)->Ok_0),
        ensures
            Self::parse(j) == Err::<GranularityTypedView, Failure>(
                Failure::here(DecodeCause::UnknownVariant).within_key("type"@),
            ),
    {
    }

}

impl GranularityTyped {
    /// Writes the value in its wire form.
    pub fn encode(&self) -> (j: Json)
        ensures
            j@ == self@.wire(),
    {
        let mut m = no_members();
        match self {
            GranularityTyped::Duration { duration } => {
                put(&mut m, "type", text_json("duration"));
                put(&mut m, "duration", count_json(*duration));
            },
            GranularityTyped::Period { period, time_zone } => {
                put(&mut m, "type", text_json("period"));
                put(&mut m, "period", text_json(period.as_str()));
                put(&mut m, "timeZone", text_json(time_zone.as_str()));
            },
        }
        object_json(m)
    }

    /// Reads a value from its wire form.
    pub fn decode(j: &Json) -> (r: Result<GranularityTyped, DecodeError>)
        ensures
            decoded(r) == GranularityTypedView::parse(j@),
    {
        let m = read_members(j)?;
        let t = text_member(m, "type")?;
        if str_eq(t.as_str(), "duration") {
            Self::decode_duration(m)
        } else if str_eq(t.as_str(), "period") {
            Self::decode_period(m)
        } else {
            Err(DecodeError::here(DecodeCause::UnknownVariant).within_key("type"))
        }
    }

    fn decode_duration(m: &Vec<Member>) -> (r: Result<GranularityTyped, DecodeError>)
        ensures
            decoded(r) == GranularityTypedView::parse_duration(members_view(m@)),
    {
        let duration = count_member(m, "duration")?;
        Ok(GranularityTyped::Duration { duration })
    }

    fn decode_period(m: &Vec<Member>) -> (r: Result<GranularityTyped, DecodeError>)
        ensures
            decoded(r) == GranularityTypedView::parse_period(members_view(m@)),
    {
        let period = text_member(m, "period")?;
        let time_zone = text_member(m, "timeZone")?;
        Ok(GranularityTyped::Period { period, time_zone })
    }
}

/// The time buckets into which rows are grouped: one of the named
/// buckets, or a structured one.
#[derive(Debug, PartialEq)]
pub enum Granularity {
    Base(GranularityBase),
    Typed(GranularityTyped),
}

/// Mathematical value of a [`Granularity`].
pub enum GranularityView {
    Base(GranularityBase),
    Typed(GranularityTypedView),
}

impl View for Granularity {
    type V = GranularityView;

    open spec fn view(&self) -> GranularityView {
        match self {
            Granularity::Base(b) => GranularityView::Base(*b),
            Granularity::Typed(t) => GranularityView::Typed(t@),
        }
    }
}

impl GranularityView {
    /// The wire form: a named bucket is its name, a structured one its
    /// tagged object.
    pub open spec fn wire(self) -> JsonValue {
        match self {
            GranularityView::Base(b) => b.wire(),
            GranularityView::Typed(t) => t.wire(),
        }
    }

    /// What a document is read as: a string is read as a named bucket,
    /// anything else as a structured one.
    pub open spec fn parse(j: JsonValue) -> Result<GranularityView, Failure> {
        match j {
            JsonValue::Text(_) => match GranularityBase::parse(j) {
                Ok(b) => Ok(GranularityView::Base(b)),
                Err(e) => Err(e),
            },
            _ => match GranularityTypedView::parse(j) {
                Ok(t) => Ok(GranularityView::Typed(t)),
                Err(e) => Err(e),
            },
        }
    }

    /// What a document is read as where the same granularity may come as
    /// a bare name or as a tagged object: a string is read as a named
    /// bucket; an object whose `type` is the name of a bucket is that
    /// bucket, and any other object is read as a structured granularity.
    pub open spec fn parse_either(j: JsonValue) -> Result<GranularityView, Failure> {
        match j {
            JsonValue::Text(_) => Self::parse(j),
            JsonValue::Object(m) => match text_field(m, "type"@) {
                Ok(t) => match GranularityBase::named(t) {
                    Some(b) => Ok(GranularityView::Base(b)),
                    None => Self::parse(j),
                },
                Err(e) => Err(e),
            },
            _ => Err(Failure::here(DecodeCause::TypeMismatch)),
        }
    }

    /// Whatever [`Self::parse`] accepts, [`Self::parse_either`] reads as
    /// the same value.
    pub proof fn lemma_either_extends_parse(j: JsonValue)
        requires
            Self::parse(j) is Ok,
        ensures
            Self::parse_either(j) == Self::parse(j),
    {
        lemma_tags();
    }

    /// What is written is never `null`.
    pub proof fn lemma_wire_not_null(self)
        ensures
            !(self.wire() is Null),
    {
    }

    /// Reading back what was written gives the value again.
    pub proof fn lemma_round_trip(self)
        ensures
            Self::parse(self.wire()) == Ok::<GranularityView, Failure>(self),
    {
        match self {
            GranularityView::Base(b) => {
                b.lemma_round_trip();
            },
            GranularityView::Typed(t) => {
                t.lemma_round_trip();
            },
        }
    }
}

impl Granularity {
    pub fn all() -> (g: Granularity)
        ensures
            g@ == GranularityView::Base(GranularityBase::All),
    {
        Granularity::Base(GranularityBase::All)
    }

    pub fn node() -> (g: Granularity)
        ensures
            g@ == GranularityView::Base(GranularityBase::Unbucketed),
    {
        Granularity::Base(GranularityBase::Unbucketed)
    }

    pub fn second() -> (g: Granularity)
        ensures
            g@ == GranularityView::Base(GranularityBase::Second),
    {
        Granularity::Base(GranularityBase::Second)
    }

    pub fn minute() -> (g: Granularity)
        ensures
            g@ == GranularityView::Base(GranularityBase::Minute),
    {
        Granularity::Base(GranularityBase::Minute)
    }

    pub fn fifteen_minute() -> (g: Granularity)
        ensures
            g@ == GranularityView::Base(GranularityBase::FifteenMinute),
    {
        Granularity::Base(GranularityBase::FifteenMinute)
    }

    pub fn thirty_minute() -> (g: Granularity)
        ensures
            g@ == GranularityView::Base(GranularityBase::ThirtyMinute),
    {
        Granularity::Base(GranularityBase::ThirtyMinute)
    }

    pub fn hour() -> (g: Granularity)
        ensures
            g@ == GranularityView::Base(GranularityBase::Hour),
    {
        Granularity::Base(GranularityBase::Hour)
    }

    pub fn day() -> (g: Granularity)
        ensures
            g@ == GranularityView::Base(GranularityBase::Day),
    {
        Granularity::Base(GranularityBase::Day)
    }

    pub fn week() -> (g: Granularity)
        ensures
            g@ == GranularityView::Base(GranularityBase::Week),
    {
        Granularity::Base(GranularityBase::Week)
    }

    pub fn month() -> (g: Granularity)
        ensures
            g@ == GranularityView::Base(GranularityBase::Month),
    {
        Granularity::Base(GranularityBase::Month)
    }

    pub fn querter() -> (g: Granularity)
        ensures
            g@ == GranularityView::Base(GranularityBase::Quarter),
    {
        Granularity::Base(GranularityBase::Quarter)
    }

    pub fn year() -> (g: Granularity)
        ensures
            g@ == GranularityView::Base(GranularityBase::Year),
    {
        Granularity::Base(GranularityBase::Year)
    }

    pub fn duration(duration: usize) -> (g: Granularity)
        ensures
            g@ == GranularityView::Typed(GranularityTypedView::Duration { duration }),
    {
        Granularity::Typed(GranularityTyped::Duration { duration })
    }

    pub fn period(period: &str, time_zone: &str) -> (g: Granularity)
        ensures
            g@ == GranularityView::Typed(
                GranularityTypedView::Period { period: period@, time_zone: time_zone@ },
            ),
    {
        Granularity::Typed(
            GranularityTyped::Period {
                period: period.to_string(),
                time_zone: time_zone.to_string(),
            },
        )
    }

    /// Writes the value in its wire form.
    pub fn encode(&self) -> (j: Json)
        ensures
            j@ == self@.wire(),
    {
        match self {
            Granularity::Base(b) => b.encode(),
            Granularity::Typed(t) => t.encode(),
        }
    }

    /// Reads a value from its wire form.
    pub fn decode(j: &Json) -> (r: Result<Granularity, DecodeError>)
        ensures
            decoded(r) == GranularityView::parse(j@),
    {
        match j {
            Json::Text(_) => Ok(Granularity::Base(GranularityBase::decode(j)?)),
            _ => Ok(Granularity::Typed(GranularityTyped::decode(j)?)),
        }
    }
}

impl Granularity {
    /// Reads a granularity that may come as a bare name or as a tagged
    /// object.
    pub fn decode_either(j: &Json) -> (r: Result<Granularity, DecodeError>)
        ensures
            decoded(r) == GranularityView::parse_either(j@),
    {
        match j {
            Json::Text(_) => Granularity::decode(j),
            Json::Object(members) => {
                proof {
                    lemma_object_view(*members);
                }
                let t = text_member(members, "type")?;
                match GranularityBase::decode(&Json::Text(t)) {
                    Ok(b) => Ok(Granularity::Base(b)),
                    Err(_) => Granularity::decode(j),
                }
            },
            _ => Err(DecodeError::here(DecodeCause::TypeMismatch)),
        }
    }
}

impl Default for Granularity {
    fn default() -> (g: Granularity)
        ensures
            g@ == GranularityView::Base(GranularityBase::Null),
    {
        Granularity::Base(GranularityBase::Null)
    }
}

/// The names of the members differ from one another.
proof fn lemma_keys()
    ensures
        "duration"@.len() == 8,
        "period"@.len() == 6,
        "timeZone"@.len() == 8,
        "type"@.len() == 4,
        "duration"@[0] == 'd',
        "timeZone"@[0] == 't',
{
    reveal_strlit("duration");
    reveal_strlit("period");
    reveal_strlit("timeZone");
    reveal_strlit("type");
}

/// The names that stand for the variants differ from one another.
proof fn lemma_tags()
    ensures
        "all"@.len() == 3,
        "day"@.len() == 3,
        "duration"@.len() == 8,
        "fifteen_minute"@.len() == 14,
        "hour"@.len() == 4,
        "minute"@.len() == 6,
        "month"@.len() == 5,
        "none"@.len() == 4,
        "null"@.len() == 4,
        "period"@.len() == 6,
        "quarter"@.len() == 7,
        "second"@.len() == 6,
        "thirty_minute"@.len() == 13,
        "week"@.len() == 4,
        "year"@.len() == 4,
        "all"@[0] == 'a',
        "day"@[0] == 'd',
        "hour"@[2] == 'u',
        "none"@[2] == 'n',
        "null"@[2] == 'l',
        "week"@[2] == 'e',
        "year"@[2] == 'a',
        "minute"@[0] == 'm',
        "period"@[0] == 'p',
        "second"@[0] == 's',
{
    reveal_strlit("all");
    reveal_strlit("day");
    reveal_strlit("duration");
    reveal_strlit("fifteen_minute");
    reveal_strlit("hour");
    reveal_strlit("minute");
    reveal_strlit("month");
    reveal_strlit("none");
    reveal_strlit("null");
    reveal_strlit("period");
    reveal_strlit("quarter");
    reveal_strlit("second");
    reveal_strlit("thirty_minute");
    reveal_strlit("week");
    reveal_strlit("year");
}

} // verus!
