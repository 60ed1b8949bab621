//! Time intervals: two naive timestamps, written as one string with a
//! `/` between them.

use vstd::prelude::*;
use vstd::std_specs::iter::IteratorSpec;
use vstd::string::{StrSliceExecFns, StringExecFns};
use chrono::{Datelike, Timelike};
use crate::codec::{
    as_text, decoded_list, lemma_read_all_accepted, lemma_read_all_refused, list_view, read_all,
    read_str, text,
};
use crate::error::{decoded, DecodeCause, DecodeError, Failure};
use crate::json::{items_view, Json, JsonValue};

verus! {

/// Mathematical value of a timestamp: its calendar fields.
pub struct TimestampView {
    pub year: int,
    pub month: int,
    pub day: int,
    pub hour: int,
    pub minute: int,
    pub second: int,
    pub nanosecond: int,
}

/// Whether a year of the proleptic Gregorian calendar is a leap year.
pub open spec fn is_leap_year(year: int) -> bool {
    year % 4 == 0 && (year % 100 != 0 || year % 400 == 0)
}

/// The number of days of a month.
pub open spec fn days_in_month(year: int, month: int) -> int {
    if month == 2 {
        if is_leap_year(year) {
            29
        } else {
            28
        }
    } else if month == 4 || month == 6 || month == 9 || month == 11 {
        30
    } else {
        31
    }
}

impl TimestampView {
    /// Whether the fields denote a time of day on a day of the calendar,
    /// in a year that is written with four digits.
    pub open spec fn valid(self) -> bool {
        &&& 0 <= self.year <= 9999
        &&& 1 <= self.month <= 12
        &&& 1 <= self.day <= days_in_month(self.year, self.month)
        &&& 0 <= self.hour < 24
        &&& 0 <= self.minute < 60
        &&& 0 <= self.second < 60
        &&& 0 <= self.nanosecond < 1_000_000_000
    }

    /// Whether the timestamp holds nothing finer than milliseconds.
    pub open spec fn millisecond_precise(self) -> bool {
        self.nanosecond % 1_000_000 == 0
    }

    /// The timestamp, cut off after the milliseconds.
    pub open spec fn to_milliseconds(self) -> TimestampView {
        TimestampView { nanosecond: self.nanosecond - self.nanosecond % 1_000_000, ..self }
    }
}

/// The character of a decimal digit.
pub open spec fn digit(n: int) -> char {
    if n == 0 {
        '0'
    } else if n == 1 {
        '1'
    } else if n == 2 {
        '2'
    } else if n == 3 {
        '3'
    } else if n == 4 {
        '4'
    } else if n == 5 {
        '5'
    } else if n == 6 {
        '6'
    } else if n == 7 {
        '7'
    } else if n == 8 {
        '8'
    } else {
        '9'
    }
}

/// The last two decimal digits of a number.
pub open spec fn digits2(n: int) -> Seq<char> {
    Seq::empty().push(digit(n / 10 % 10)).push(digit(n % 10))
}

/// The last three decimal digits of a number.
pub open spec fn digits3(n: int) -> Seq<char> {
    Seq::empty().push(digit(n / 100 % 10)).push(digit(n / 10 % 10)).push(digit(n % 10))
}

/// The last four decimal digits of a number.
pub open spec fn digits4(n: int) -> Seq<char> {
    Seq::empty().push(digit(n / 1000 % 10)).push(digit(n / 100 % 10)).push(digit(n / 10 % 10)).push(
        digit(n % 10),
    )
}

/// The text of a timestamp: `YYYY-MM-DDTHH:MM:SS.mmm`, every field with
/// leading zeros, the fraction cut off after the milliseconds.
pub open spec fn timestamp_text(t: TimestampView) -> Seq<char> {
    digits4(t.year).push('-') + digits2(t.month).push('-') + digits2(t.day).push('T') + digits2(
        t.hour,
    ).push(':') + digits2(t.minute).push(':') + digits2(t.second).push('.') + digits3(
        t.nanosecond / 1_000_000,
    )
}

/// The fields that `chrono` reads from a text in the format
/// `%Y-%m-%dT%H:%M:%S%.f`, if it accepts the text.
pub uninterp spec fn timestamp_parsed(text: Seq<char>) -> Option<TimestampView>;

/// The timestamp that a text is read as: what `chrono` reads from it,
/// where that is a valid timestamp.
pub open spec fn timestamp_read(text: Seq<char>) -> Option<TimestampView> {
    match timestamp_parsed(text) {
        Some(t) => if t.valid() {
            Some(t)
        } else {
            None
        },
        None => None,
    }
}

/// The pieces of a text between the occurrences of a separator.
pub open spec fn split(s: Seq<char>, sep: char) -> Seq<Seq<char>>
    decreases s.len(),
{
    if s.len() == 0 {
        Seq::empty().push(Seq::empty())
    } else {
        let front = split(s.drop_last(), sep);
        if s.last() == sep {
            front.push(Seq::empty())
        } else {
            front.drop_last().push(front.last().push(s.last()))
        }
    }
}

/// How often a separator occurs in a text.
pub open spec fn occurrences(s: Seq<char>, sep: char) -> nat
    decreases s.len(),
{
    if s.len() == 0 {
        0
    } else if s.last() == sep {
        occurrences(s.drop_last(), sep) + 1
    } else {
        occurrences(s.drop_last(), sep)
    }
}

/// The fields of a timestamp as they were read, not yet checked.
#[derive(Clone, Copy, Debug, PartialEq, Eq)]
pub struct RawTimestamp {
    pub year: i32,
    pub month: u32,
    pub day: u32,
    pub hour: u32,
    pub minute: u32,
    pub second: u32,
    pub nanosecond: u32,
}

impl View for RawTimestamp {
    type V = TimestampView;

    open spec fn view(&self) -> TimestampView {
        TimestampView {
            year: self.year as int,
            month: self.month as int,
            day: self.day as int,
            hour: self.hour as int,
            minute: self.minute as int,
            second: self.second as int,
            nanosecond: self.nanosecond as int,
        }
    }
}

/// `NaiveDate::from_ymd_opt`, `NaiveDate::and_hms_nano_opt` and
/// `NaiveDateTime::format` of `chrono`, with the format
/// `%Y-%m-%dT%H:%M:%S%.3f`: every field is written with leading zeros,
/// the year with four digits and the fraction with three, and the text is
/// one that `NaiveDateTime::parse_from_str` reads back, in the format
/// `%Y-%m-%dT%H:%M:%S%.f`, as the same fields to the millisecond.
#[verifier::external_body]
fn format_fields(t: &RawTimestamp) -> (s: String)
    requires
        t@.valid(),
    ensures
        s@ == timestamp_text(t@),
        timestamp_parsed(s@) == Some(t@.to_milliseconds()),
{
    chrono::NaiveDate::from_ymd_opt(t.year, t.month, t.day)
        .unwrap()
        .and_hms_nano_opt(t.hour, t.minute, t.second, t.nanosecond)
        .unwrap()
        .format("%Y-%m-%dT%H:%M:%S%.3f")
        .to_string()
}

/// `NaiveDateTime::parse_from_str` of `chrono`, with the format
/// `%Y-%m-%dT%H:%M:%S%.f`, and the calendar fields of what it gives.
#[verifier::external_body]
fn parse_fields(s: &str) -> (r: Option<RawTimestamp>)
    ensures
        match r {
            Some(t) => timestamp_parsed(s@) == Some(t@),
            None => timestamp_parsed(s@) is None,
        },
{
    chrono::NaiveDateTime::parse_from_str(s, "%Y-%m-%dT%H:%M:%S%.f").ok().map(
        |t| RawTimestamp {
            year: t.year(),
            month: t.month(),
            day: t.day(),
            hour: t.hour(),
            minute: t.minute(),
            second: t.second(),
            nanosecond: t.nanosecond(),
        },
    )
}

/// A naive timestamp: a day of the calendar and a time of that day, with
/// no time zone. Every timestamp is valid.
#[derive(Clone, Copy, Debug, PartialEq, Eq)]
pub struct Timestamp {
    fields: RawTimestamp,
}

impl View for Timestamp {
    type V = TimestampView;

    closed spec fn view(&self) -> TimestampView {
        self.fields@
    }
}

impl Timestamp {
    #[verifier::type_invariant]
    closed spec fn well_formed(self) -> bool {
        self.fields@.valid()
    }

    /// The timestamp with the given fields, if they denote one.
    pub fn new(
        year: i32,
        month: u32,
        day: u32,
        hour: u32,
        minute: u32,
        second: u32,
        nanosecond: u32,
    ) -> (r: Option<Timestamp>)
        ensures
            match r {
                Some(t) => t@ == (RawTimestamp {
                    year,
                    month,
                    day,
                    hour,
                    minute,
                    second,
                    nanosecond,
                })@ && t@.valid(),
                None => !(RawTimestamp { year, month, day, hour, minute, second, nanosecond })@.valid(),
            },
    {
        Timestamp::checked(RawTimestamp { year, month, day, hour, minute, second, nanosecond })
    }

    /// The timestamp with the given fields and milliseconds, if they
    /// denote one.
    pub fn from_ymd_hms_milli(
        year: i32,
        month: u32,
        day: u32,
        hour: u32,
        minute: u32,
        second: u32,
        millisecond: u32,
    ) -> (r: Option<Timestamp>)
        ensures
            match r {
                Some(t) => millisecond < 1000 && t@ == (RawTimestamp {
                    year,
                    month,
                    day,
                    hour,
                    minute,
                    second,
                    nanosecond: (millisecond * 1_000_000) as u32,
                })@ && t@.valid() && t@.millisecond_precise(),
                None => millisecond >= 1000 || !(RawTimestamp {
                    year,
                    month,
                    day,
                    hour,
                    minute,
                    second,
                    nanosecond: (millisecond * 1_000_000) as u32,
                })@.valid(),
            },
    {
        if millisecond >= 1000 {
            return None;
        }
        Timestamp::new(year, month, day, hour, minute, second, millisecond * 1_000_000)
    }

    /// The fields, checked.
    fn checked(fields: RawTimestamp) -> (r: Option<Timestamp>)
        ensures
            match r {
                Some(t) => t@ == fields@ && fields@.valid(),
                None => !fields@.valid(),
            },
    {
        if fields.year < 0 || fields.year > 9999 || fields.month < 1 || fields.month > 12 {
            return None;
        }
        let leap = fields.year % 4 == 0 && (fields.year % 100 != 0 || fields.year % 400 == 0);
        let days: u32 = if fields.month == 2 {
            if leap {
                29
            } else {
                28
            }
        } else if fields.month == 4 || fields.month == 6 || fields.month == 9 || fields.month
            == 11 {
            30
        } else {
            31
        };
        if fields.day < 1 || fields.day > days || fields.hour >= 24 || fields.minute >= 60
            || fields.second >= 60 || fields.nanosecond >= 1_000_000_000 {
            return None;
        }
        Some(Timestamp { fields })
    }

    pub fn year(&self) -> (n: i32)
        ensures
            n == self@.year,
    {
        self.fields.year
    }

    pub fn month(&self) -> (n: u32)
        ensures
            n == self@.month,
    {
        self.fields.month
    }

    pub fn day(&self) -> (n: u32)
        ensures
            n == self@.day,
    {
        self.fields.day
    }

    pub fn hour(&self) -> (n: u32)
        ensures
            n == self@.hour,
    {
        self.fields.hour
    }

    pub fn minute(&self) -> (n: u32)
        ensures
            n == self@.minute,
    {
        self.fields.minute
    }

    pub fn second(&self) -> (n: u32)
        ensures
            n == self@.second,
    {
        self.fields.second
    }

    pub fn nanosecond(&self) -> (n: u32)
        ensures
            n == self@.nanosecond,
    {
        self.fields.nanosecond
    }

    /// Whether the timestamp holds nothing finer than milliseconds.
    pub fn is_millisecond_precise(&self) -> (b: bool)
        ensures
            b == self@.millisecond_precise(),
    {
        self.fields.nanosecond % 1_000_000 == 0
    }

    /// The text of the timestamp. It is read back as the timestamp, cut
    /// off after the milliseconds.
    pub fn to_text(&self) -> (s: String)
        ensures
            self@.valid(),
            s@ == timestamp_text(self@),
            timestamp_read(s@) == Some(self@.to_milliseconds()),
    {
        proof {
            use_type_invariant(self);
        }
        format_fields(&self.fields)
    }

    /// The timestamp that a text is read as.
    pub fn from_text(s: &str) -> (r: Option<Timestamp>)
        ensures
            match r {
                Some(t) => timestamp_read(s@) == Some(t@),
                None => timestamp_read(s@) is None,
            },
    {
        match parse_fields(s) {
            Some(fields) => Timestamp::checked(fields),
            None => None,
        }
    }
}

/// The time from one timestamp to another.
#[derive(Debug, PartialEq)]
pub struct Interval {
    pub from: Timestamp,
    pub to: Timestamp,
}

/// Mathematical value of an [`Interval`].
pub struct IntervalView {
    pub from: TimestampView,
    pub to: TimestampView,
}

impl View for Interval {
    type V = IntervalView;

    open spec fn view(&self) -> IntervalView {
        IntervalView { from: self.from@, to: self.to@ }
    }
}

/// The interval that a text is read as: two timestamps around one `/`.
pub open spec fn interval_read(s: Seq<char>) -> Result<IntervalView, Failure> {
    let pieces = split(s, '/');
    if pieces.len() != 2 {
        Err(Failure::here(DecodeCause::MalformedInterval))
    } else {
        match (timestamp_read(pieces[0]), timestamp_read(pieces[1])) {
            (Some(from), Some(to)) => Ok(IntervalView { from, to }),
            _ => Err(Failure::here(DecodeCause::MalformedInterval)),
        }
    }
}

impl IntervalView {
    /// The text of the interval: the texts of the two timestamps with a
    /// `/` between them.
    pub open spec fn text(self) -> Seq<char> {
        timestamp_text(self.from).push('/') + timestamp_text(self.to)
    }

    /// The wire form: the text, as a string.
    pub open spec fn wire(self) -> JsonValue {
        text(self.text())
    }

    /// The wire forms of the elements of a list.
    pub open spec fn wire_list(list: Seq<IntervalView>) -> Seq<JsonValue> {
        list.map_values(|x: IntervalView| x.wire())
    }

    /// What a document is read as: a string that is read as an interval.
    pub open spec fn parse(j: JsonValue) -> Result<IntervalView, Failure> {
        match as_text(j) {
            Ok(s) => interval_read(s),
            Err(e) => Err(e),
        }
    }

    /// Every element of an array, read: the list of what was read, or
    /// the failure of the first element that is refused, seen from its
    /// index.
    pub open spec fn parse_list(items: Seq<JsonValue>) -> Result<Seq<IntervalView>, Failure> {
        read_all(items, |j: JsonValue| Self::parse(j))
    }

    /// Whether both ends hold nothing finer than milliseconds.
    pub open spec fn millisecond_precise(self) -> bool {
        self.from.millisecond_precise() && self.to.millisecond_precise()
    }

    /// Whether what is written for the interval is read back as the
    /// interval.
    pub open spec fn reads_back(self) -> bool {
        Self::parse(self.wire()) == Ok::<IntervalView, Failure>(self)
    }

    /// Whether no interval of a list holds anything finer than
    /// milliseconds.
    pub open spec fn all_precise(list: Seq<IntervalView>) -> bool {
        forall|i: int| 0 <= i < list.len() ==> (#[trigger] list[i]).millisecond_precise()
    }

    /// Whether every interval of a list is read back as it is.
    pub open spec fn all_read_back(list: Seq<IntervalView>) -> bool {
        forall|i: int| 0 <= i < list.len() ==> (#[trigger] list[i]).reads_back()
    }

    /// Reading back a list of intervals that was written gives the list
    /// again, if each of them is read back as it is.
    pub proof fn lemma_list_round_trip(list: Seq<IntervalView>)
        requires
            Self::all_read_back(list),
        ensures
            Self::parse_list(Self::wire_list(list)) == Ok::<Seq<IntervalView>, Failure>(list),
    {
        let items = Self::wire_list(list);
        let read = |j: JsonValue| Self::parse(j);
        assert forall|i: int| 0 <= i < items.len() implies (#[trigger] read(items[i])) == Ok::<
            IntervalView,
            Failure,
        >(list[i]) by {
            assert(list[i].reads_back());
        }
        lemma_read_all_accepted(items, read, list);
    }
}

/// No character of the text of a timestamp is a `/`.
pub proof fn lemma_timestamp_text_has_no_slash(t: TimestampView)
    ensures
        timestamp_text(t).len() == 23,
        forall|i: int| 0 <= i < 23 ==> timestamp_text(t)[i] != '/',
{
    let s = timestamp_text(t);
    assert(s.len() == 23);
    assert forall|i: int| 0 <= i < 23 implies s[i] != '/' by {
        lemma_digit_is_no_slash();
    }
}

proof fn lemma_digit_is_no_slash()
    ensures
        forall|n: int| #[trigger] digit(n) != '/',
{
}

/// A text has one piece more than it has separators.
pub proof fn lemma_split_len(s: Seq<char>, sep: char)
    ensures
        split(s, sep).len() == occurrences(s, sep) + 1,
    decreases s.len(),
{
    if s.len() > 0 {
        lemma_split_len(s.drop_last(), sep);
    }
}

/// A text without the separator is one piece.
pub proof fn lemma_split_one(s: Seq<char>, sep: char)
    requires
        forall|i: int| 0 <= i < s.len() ==> s[i] != sep,
    ensures
        split(s, sep) == Seq::<Seq<char>>::empty().push(s),
    decreases s.len(),
{
    if s.len() > 0 {
        lemma_split_one(s.drop_last(), sep);
        assert(s.drop_last().push(s.last()) =~= s);
        assert(split(s, sep) =~= Seq::<Seq<char>>::empty().push(s));
    } else {
        assert(s =~= Seq::empty());
    }
}

/// Two texts without the separator, with the separator between them, are
/// two pieces.
pub proof fn lemma_split_two(a: Seq<char>, b: Seq<char>, sep: char)
    requires
        forall|i: int| 0 <= i < a.len() ==> a[i] != sep,
        forall|i: int| 0 <= i < b.len() ==> b[i] != sep,
    ensures
        split(a.push(sep) + b, sep) == Seq::<Seq<char>>::empty().push(a).push(b),
    decreases b.len(),
{
    let s = a.push(sep) + b;
    if b.len() == 0 {
        assert(s =~= a.push(sep));
        assert(s.drop_last() =~= a);
        lemma_split_one(a, sep);
        assert(b =~= Seq::empty());
    } else {
        lemma_split_two(a, b.drop_last(), sep);
        assert(s.drop_last() =~= a.push(sep) + b.drop_last());
        assert(s.last() == b.last());
        let front = split(s.drop_last(), sep);
        assert(front.last().push(s.last()) =~= b);
        assert(front.drop_last().push(b) =~= Seq::<Seq<char>>::empty().push(a).push(b));
    }
}

impl Interval {
    /// The text of the interval.
    pub fn to_text(&self) -> (s: String)
        ensures
            s@ == self@.text(),
            self@.millisecond_precise() ==> interval_read(s@) == Ok::<IntervalView, Failure>(self@),
    {
        let from = self.from.to_text();
        let to = self.to.to_text();
        let mut s = from;
        s.append("/");
        s.append(to.as_str());
        proof {
            reveal_strlit("/");
            assert(s@ =~= self@.text());
            lemma_timestamp_text_has_no_slash(self@.from);
            lemma_timestamp_text_has_no_slash(self@.to);
            lemma_split_two(timestamp_text(self@.from), timestamp_text(self@.to), '/');
        }
        s
    }

    /// The interval that a text is read as; a text that is read as none
    /// is a malformed interval.
    pub fn from_text(s: &str) -> (r: Result<Interval, DecodeError>)
        ensures
            decoded(r) == interval_read(s@),
    {
        let n = s.unicode_len();
        let mut count: usize = 0;
        let mut first: usize = 0;
        let mut idx: usize = 0;
        assert(s@.take(0) =~= Seq::empty());
        for c in it: s.chars()
            invariant
                it.seq() == s@,
                n == s@.len(),
                idx == it.index(),
                idx <= n,
                count <= idx,
                count == occurrences(s@.take(idx as int), '/'),
                count == 0 ==> forall|i: int| 0 <= i < idx ==> s@[i] != '/',
                count == 1 ==> first < idx && s@[first as int] == '/' && forall|i: int|
                    0 <= i < idx && i != first ==> s@[i] != '/',
        {
            proof {
                assert(s@.take(idx + 1).drop_last() =~= s@.take(idx as int));
                assert(s@.take(idx + 1).last() == c);
            }
            if c == '/' {
                if count == 0 {
                    first = idx;
                }
                count += 1;
            }
            idx += 1;
        }
        proof {
            assert(s@.take(idx as int) =~= s@);
            lemma_split_len(s@, '/');
        }
        if count != 1 {
            return Err(DecodeError::here(DecodeCause::MalformedInterval));
        }
        let from = s.substring_char(0, first);
        let to = s.substring_char(first + 1, n);
        proof {
            assert(s@ =~= from@.push('/') + to@);
            lemma_split_two(from@, to@, '/');
        }
        match (Timestamp::from_text(from), Timestamp::from_text(to)) {
            (Some(from), Some(to)) => Ok(Interval { from, to }),
            _ => Err(DecodeError::here(DecodeCause::MalformedInterval)),
        }
    }

    /// Writes the interval in its wire form. An interval that holds
    /// nothing finer than milliseconds is read back as it is.
    pub fn encode(&self) -> (j: Json)
        ensures
            j@ == self@.wire(),
            self@.millisecond_precise() ==> self@.reads_back(),
    {
        Json::Text(self.to_text())
    }

    /// Writes each element of a list in its wire form. Intervals that
    /// hold nothing finer than milliseconds are read back as they are.
    pub fn encode_list(list: &Vec<Interval>) -> (items: Vec<Json>)
        ensures
            items_view(items@) == IntervalView::wire_list(list_view(list@)),
            IntervalView::all_precise(list_view(list@)) ==> IntervalView::all_read_back(
                list_view(list@),
            ),
    {
        let mut items: Vec<Json> = Vec::new();
        let mut i: usize = 0;
        while i < list.len()
            invariant
                i <= list.len(),
                items.len() == i,
                forall|k: int| 0 <= k < i ==> items[k]@ == list[k]@.wire(),
                forall|k: int|
                    0 <= k < i ==> (list[k]@.millisecond_precise() ==> list[k]@.reads_back()),
            decreases list.len() - i,
        {
            items.push(list[i].encode());
            i += 1;
        }
        assert(items_view(items@) =~= IntervalView::wire_list(list_view(list@)));
        proof {
            if IntervalView::all_precise(list_view(list@)) {
                assert forall|k: int| 0 <= k < list.len() implies (#[trigger] list_view(
                    list@,
                )[k]).reads_back() by {
                    assert(list_view(list@)[k].millisecond_precise());
                }
            }
        }
        items
    }

    /// Reads an interval from its wire form.
    pub fn decode(j: &Json) -> (r: Result<Interval, DecodeError>)
        ensures
            decoded(r) == IntervalView::parse(j@),
    {
        let s = read_str(j)?;
        Interval::from_text(s)
    }

    /// Reads each element of an array from its wire form.
    pub fn decode_list(items: &Vec<Json>) -> (r: Result<Vec<Interval>, DecodeError>)
        ensures
            decoded_list(r) == IntervalView::parse_list(items_view(items@)),
    {
        let ghost read = |j: JsonValue| IntervalView::parse(j);
        let mut out: Vec<Interval> = Vec::new();
        let mut i: usize = 0;
        while i < items.len()
            invariant
                i <= items.len(),
                out.len() == i,
                read == (|j: JsonValue| IntervalView::parse(j)),
                forall|k: int|
                    0 <= k < i ==> (#[trigger] read(items_view(items@)[k])) == Ok::<
                        IntervalView,
                        Failure,
                    >(out[k]@),
            decreases items.len() - i,
        {
            match Interval::decode(&items[i]) {
                Ok(v) => {
                    out.push(v);
                },
                Err(e) => {
                    proof {
                        assert(read(items_view(items@)[i as int]) is Err);
                        lemma_read_all_refused(items_view(items@), read, i as int);
                    }
                    return Err(e.within_index(i));
                },
            }
            i += 1;
        }
        proof {
            lemma_read_all_accepted(items_view(items@), read, list_view(out@));
        }
        Ok(out)
    }
}

} // verus!
