//! The time-boundary query.

use vstd::prelude::*;
use crate::codec::{
    as_members, as_text, field, lemma_lookup_smaller, list_view, member, no_members,
    object_json, opt_view, present, present_field, put, read_members, read_str, required,
    required_field, text, text_field, text_json, text_member, under, under_key,
};
use crate::error::{decoded, DecodeCause, DecodeError, Failure};
use crate::json::{
    lemma_lookup_empty, lemma_lookup_push, lookup, members_view, str_eq, Json, JsonValue,
    Member, MemberValue,
};
use crate::query::definitions::filters::{Filter, FilterView};
use crate::query::{DataSource, DataSourceView};
use crate::string_map::{distinct_keys, lemma_map_round_trip, map_parse, map_wire, StringMap};

verus! {

/// Which end of the time of a data source is asked for.
#[derive(Clone, Copy, Debug, PartialEq, Eq, Structural)]
pub enum TimeBoundType {
    /// Only the latest time.
    MaxTime,
    /// Only the earliest time.
    MinTime,
    /// Both ends.
    MinMaxTime,
}

impl View for TimeBoundType {
    type V = TimeBoundType;

    open spec fn view(&self) -> TimeBoundType {
        *self
    }
}

impl TimeBoundType {
    /// The name that stands for the value on the wire.
    pub open spec fn name(self) -> Seq<char> {
        match self {
            TimeBoundType::MaxTime => "maxTime"@,
            TimeBoundType::MinTime => "minTime"@,
            TimeBoundType::MinMaxTime => "minMaxTime"@,
        }
    }

    /// The value that a name stands for, if it stands for one.
    pub open spec fn named(s: Seq<char>) -> Option<TimeBoundType> {
        if s == "maxTime"@ {
            Some(TimeBoundType::MaxTime)
        } else if s == "minTime"@ {
            Some(TimeBoundType::MinTime)
        } else if s == "minMaxTime"@ {
            Some(TimeBoundType::MinMaxTime)
        } else {
            None
        }
    }

    /// The wire form: the name, as a string.
    pub open spec fn wire(self) -> JsonValue {
        text(self.name())
    }

    /// What a document is read as: a string that is one of the names
    /// gives its value, any other string is an unknown variant, and
    /// anything but a string a type mismatch.
    pub open spec fn parse(j: JsonValue) -> Result<TimeBoundType, Failure> {
        match as_text(j) {
            Ok(s) => match Self::named(s) {
                Some(v) => Ok(v),
                None => Err(Failure::here(DecodeCause::UnknownVariant)),
            },
            Err(e) => Err(e),
        }
    }

    /// Writes the value in its wire form.
    pub fn encode(&self) -> (j: Json)
        ensures
            j@ == self.wire(),
    {
        match self {
            TimeBoundType::MaxTime => text_json("maxTime"),
            TimeBoundType::MinTime => text_json("minTime"),
            TimeBoundType::MinMaxTime => text_json("minMaxTime"),
        }
    }

    /// Reads a value from its wire form.
    pub fn decode(j: &Json) -> (r: Result<TimeBoundType, DecodeError>)
        ensures
            decoded(r) == Self::parse(j@),
    {
        let s = match read_str(j) {
            Ok(s) => s,
            Err(e) => {
                return Err(e);
            },
        };
        if str_eq(s, "maxTime") {
            Ok(TimeBoundType::MaxTime)
        } else if str_eq(s, "minTime") {
            Ok(TimeBoundType::MinTime)
        } else if str_eq(s, "minMaxTime") {
            Ok(TimeBoundType::MinMaxTime)
        } else {
            Err(DecodeError::here(DecodeCause::UnknownVariant))
        }
    }

    /// Reading back what was written gives the value again.
    pub proof fn lemma_round_trip(self)
        ensures
            Self::parse(self.wire()) == Ok::<TimeBoundType, Failure>(self),
    {
        lemma_tags();
    }

    /// A string that is none of the names is refused as an unknown
    /// variant.
    pub proof fn lemma_unknown_name(s: Seq<char>)
        requires
            Self::named(s) is None,
        ensures
            Self::parse(text(s)) == Err::<TimeBoundType, Failure>(
                Failure::here(DecodeCause::UnknownVariant),
            ),
    {
    }

    /// Whether both ends are asked for.
    pub fn is_both(&self) -> (b: bool)
        ensures
            b == (*self == TimeBoundType::MinMaxTime),
    {
        matches!(self, TimeBoundType::MinMaxTime)
    }
}

/// A query for the earliest and the latest time of a data source.
#[derive(Debug, PartialEq)]
pub struct TimeBoundary {
    pub data_source: DataSource,
    /// Which end is asked for. Both ends are the default, which is not written.
    pub bound: TimeBoundType,
    pub filter: Option<Filter>,
    pub context: StringMap,
}

/// Mathematical value of a [`TimeBoundary`].
pub struct TimeBoundaryView {
    pub data_source: DataSourceView,
    pub bound: TimeBoundType,
    pub filter: Option<FilterView>,
    pub context: Seq<(Seq<char>, Seq<char>)>,
}

impl TimeBoundary {
    /// The mathematical value.
    pub open spec fn value(self) -> TimeBoundaryView
        decreases self,
    {
        TimeBoundaryView {
            data_source: self.data_source.value(),
            bound: self.bound,
            filter: opt_view(self.filter),
            context: self.context@,
        }
    }

    /// The mathematical values of the elements of a list.
    pub open spec fn values(list: Seq<TimeBoundary>) -> Seq<TimeBoundaryView>
        decreases list,
    {
        Seq::new(
            list.len(),
            |i: int| if 0 <= i < list.len() { list[i].value() } else { arbitrary() },
        )
    }

    /// [`Self::values`] is the view of the list.
    pub proof fn lemma_values(list: Seq<TimeBoundary>)
        ensures
            Self::values(list) == list_view(list),
    {
        assert(Self::values(list) =~= list_view(list));
    }
}

impl View for TimeBoundary {
    type V = TimeBoundaryView;

    open spec fn view(&self) -> TimeBoundaryView {
        self.value()
    }
}

impl TimeBoundaryView {
    /// The wire form.
    pub open spec fn wire(self) -> JsonValue
        decreases self,
    {
        let members = Seq::empty()
            .push(member("queryType"@, text("timeBoundary"@)))
            .push(member("dataSource"@, self.data_source.wire()));
        let members = if self.bound == TimeBoundType::MinMaxTime {
            members
        } else {
            members.push(member("bound"@, self.bound.wire()))
        };
        let members = members
            .push(
                member(
                    "filter"@,
                    match self.filter { Some(v) => v.wire(), None => JsonValue::Null },
                ),
            )
            .push(member("context"@, map_wire(self.context)));
        JsonValue::Object(members)
    }

    /// Whether the parts that are not read back whatever they hold are
    /// read back as they are: every interval inside, and every map
    /// inside, which has to hold each key once.
    pub open spec fn reads_back(self) -> bool
        decreases self,
    {
        self.data_source.reads_back()
            && (self.filter matches Some(v) ==> v.reads_back())
            && distinct_keys(self.context)
    }

    /// Whether no timestamp inside holds anything finer than
    /// milliseconds.
    pub open spec fn millisecond_precise(self) -> bool
        decreases self,
    {
        self.data_source.millisecond_precise()
    }

    /// What a document is read as.
    pub open spec fn parse(j: JsonValue) -> Result<TimeBoundaryView, Failure>
        decreases j,
    {
        match as_members(j) {
            Ok(m) => match text_field(m, "queryType"@) {
                Ok(t) => if t == "timeBoundary"@ {
                    Self::parse_members(m)
                } else {
                    Err(Failure::here(DecodeCause::UnknownVariant).within_key("queryType"@))
                },
                Err(e) => Err(e),
            },
            Err(e) => Err(e),
        }
    }

    /// The members of the object, read.
    pub open spec fn parse_members(m: Seq<MemberValue>) -> Result<TimeBoundaryView, Failure>
        decreases m,
    {
        let data_source = match required(m, "dataSource"@) {
            Ok(v) => {
                proof { lemma_lookup_smaller(m, "dataSource"@); }
                under("dataSource"@, DataSourceView::parse(v))
            },
            Err(e) => Err(e),
        };
        let bound = match lookup(m, "bound"@) {
            Some(v) => under("bound"@, TimeBoundType::parse(v)),
            None => Ok(TimeBoundType::MinMaxTime),
        };
        let filter = match present(m, "filter"@) {
            Some(v) => match FilterView::parse(v) {
                Ok(x) => Ok(Some(x)),
                Err(e) => Err(e.within_key("filter"@)),
            },
            None => Ok(None),
        };
        let context = match required(m, "context"@) {
            Ok(v) => under("context"@, map_parse(v)),
            Err(e) => Err(e),
        };
        if data_source is Err {
            Err(data_source->Err_0)
        } else if bound is Err {
            Err(bound->Err_0)
        } else if filter is Err {
            Err(filter->Err_0)
        } else if context is Err {
            Err(context->Err_0)
        } else {
            Ok(
                TimeBoundaryView {
                    data_source: data_source->Ok_0,
                    bound: bound->Ok_0,
                    filter: filter->Ok_0,
                    context: context->Ok_0,
                },
            )
        }
    }

    /// What is written is never `null`.
    pub proof fn lemma_wire_not_null(self)
        ensures
            !(self.wire() is Null),
    {
    }

    /// Reading back what was written gives the value again, if the
    /// intervals and the maps inside are read back as they are.
    pub proof fn lemma_round_trip(self)
        requires
            self.reads_back(),
        ensures
            Self::parse(self.wire()) == Ok::<TimeBoundaryView, Failure>(self),
            self.wire() is Object,
            Self::parse_members(self.wire()->Object_0) == Ok::<TimeBoundaryView, Failure>(self),
            text_field(self.wire()->Object_0, "queryType"@)
                == Ok::<Seq<char>, Failure>("timeBoundary"@),
        decreases self,
    {
        self.data_source.lemma_round_trip();
        if self.filter is Some {
            self.filter->Some_0.lemma_round_trip();
            self.filter->Some_0.lemma_wire_not_null();
        }
        lemma_map_round_trip(self.context);
        Self::lemma_members(
            self.wire(),
            self.data_source,
            self.data_source.wire(),
            self.bound,
            self.filter,
            match self.filter { Some(v) => v.wire(), None => JsonValue::Null },
            self.context,
            map_wire(self.context),
        );
    }

    /// The members that are written are read back as the value, given
    /// that its parts are read back from their wire forms.
    proof fn lemma_members(
        j: JsonValue,
        data_source: DataSourceView,
        data_source_wire: JsonValue,
        bound: TimeBoundType,
        filter: Option<FilterView>,
        filter_wire: JsonValue,
        context: Seq<(Seq<char>, Seq<char>)>,
        context_wire: JsonValue,
    )
        requires
            j == ({
                    let members = Seq::empty()
                        .push(member("queryType"@, text("timeBoundary"@)))
                        .push(member("dataSource"@, data_source_wire));
                    let members = if bound == TimeBoundType::MinMaxTime {
                        members
                    } else {
                        members.push(member("bound"@, bound.wire()))
                    };
                    let members = members
                        .push(
                            member(
                                "filter"@,
                                match filter { Some(_) => filter_wire, None => JsonValue::Null },
                            ),
                        )
                        .push(member("context"@, context_wire));
                    JsonValue::Object(members)
            }),
            DataSourceView::parse(data_source_wire) == Ok::<DataSourceView, Failure>(data_source),
            filter matches Some(v) ==>
                FilterView::parse(filter_wire) == Ok::<FilterView, Failure>(v),
            filter is Some ==> !(filter_wire is Null),
            map_parse(context_wire) == Ok::<Seq<(Seq<char>, Seq<char>)>, Failure>(context),
        ensures
            j is Object,
            Self::parse_members(j->Object_0) == Ok::<TimeBoundaryView, Failure>(
                TimeBoundaryView { data_source, bound, filter, context },
            ),
            text_field(j->Object_0, "queryType"@) == Ok::<Seq<char>, Failure>("timeBoundary"@),
            Self::parse(j) == Ok::<TimeBoundaryView, Failure>(
                TimeBoundaryView { data_source, bound, filter, context },
            ),
    {
        broadcast use {lemma_lookup_push, lemma_lookup_empty};

        lemma_keys();
        bound.lemma_round_trip();
    }

}

impl TimeBoundary {
    /// Writes the value in its wire form. A value whose timestamps hold
    /// nothing finer than milliseconds is read back as it is.
    pub fn encode(&self) -> (j: Json)
        ensures
            j@ == self@.wire(),
            self@.millisecond_precise() ==> self@.reads_back(),
            self@.millisecond_precise() ==>
                TimeBoundaryView::parse(j@) == Ok::<TimeBoundaryView, Failure>(self@),
        decreases self,
    {
        let mut m = no_members();
        put(&mut m, "queryType", text_json("timeBoundary"));
        put(&mut m, "dataSource", self.data_source.encode());
        if !self.bound.is_both() {
            put(&mut m, "bound", self.bound.encode());
        }
        put(&mut m, "filter", match &self.filter { Some(v) => v.encode(), None => Json::Null });
        put(&mut m, "context", self.context.encode());
        proof {
            if self@.millisecond_precise() {
                self@.lemma_round_trip();
            }
        }
        object_json(m)
    }

    /// Reads a value from its wire form.
    pub fn decode(j: &Json) -> (r: Result<TimeBoundary, DecodeError>)
        ensures
            decoded(r) == TimeBoundaryView::parse(j@),
        decreases j,
    {
        let m = read_members(j)?;
        let t = text_member(m, "queryType")?;
        if !str_eq(t.as_str(), "timeBoundary") {
            return Err(DecodeError::here(DecodeCause::UnknownVariant).within_key("queryType"));
        }
        Self::decode_members(m)
    }

    /// Reads the members of the object.
    pub fn decode_members(m: &Vec<Member>) -> (r: Result<TimeBoundary, DecodeError>)
        ensures
            decoded(r) == TimeBoundaryView::parse_members(members_view(m@)),
        decreases m,
    {
        let data_source = under_key(
            DataSource::decode(required_field(m, "dataSource")?),
            "dataSource",
        )?;
        let bound = match field(m, "bound") {
            Some(v) => under_key(TimeBoundType::decode(v), "bound")?,
            None => TimeBoundType::MinMaxTime,
        };
        let filter = match present_field(m, "filter") {
            Some(v) => Some(under_key(Filter::decode(v), "filter")?),
            None => None,
        };
        let context = under_key(StringMap::decode(required_field(m, "context")?), "context")?;
        Ok(TimeBoundary { data_source, bound, filter, context })
    }
}

/// The names of the members differ from one another.
proof fn lemma_keys()
    ensures
        "bound"@.len() == 5,
        "context"@.len() == 7,
        "dataSource"@.len() == 10,
        "filter"@.len() == 6,
        "queryType"@.len() == 9,
{
    reveal_strlit("bound");
    reveal_strlit("context");
    reveal_strlit("dataSource");
    reveal_strlit("filter");
    reveal_strlit("queryType");
}

/// The names that stand for the variants differ from one another.
proof fn lemma_tags()
    ensures
        "maxTime"@.len() == 7,
        "minMaxTime"@.len() == 10,
        "minTime"@.len() == 7,
        "timeBoundary"@.len() == 12,
        "maxTime"@[1] == 'a',
        "minTime"@[1] == 'i',
{
    reveal_strlit("maxTime");
    reveal_strlit("minMaxTime");
    reveal_strlit("minTime");
    reveal_strlit("timeBoundary");
}

} // verus!
