//! Any query: one type that holds a query of whatever kind.

use vstd::prelude::*;
use crate::codec::{as_members, read_members, text_field, text_member};
use crate::error::{decoded, DecodeCause, DecodeError, Failure};
use crate::json::{members_view, str_eq, Json, JsonValue};
use crate::query::timeseries::{Timeseries, TimeseriesView};
use crate::query::top_n::{TopN, TopNView};
use crate::query::group_by::{GroupBy, GroupByView};
use crate::query::scan::{Scan, ScanView};
use crate::query::search::{Search, SearchView};
use crate::query::time_boundary::{TimeBoundary, TimeBoundaryView};
use crate::query::segment_metadata::{SegmentMetadata, SegmentMetadataView};
use crate::query::data_source::{DataSourceMetadata, DataSourceMetadataView};

verus! {

/// A query of any kind.
#[derive(Debug, PartialEq)]
pub enum Query {
    Timeseries(Timeseries),
    TopN(TopN),
    GroupBy(GroupBy),
    Scan(Scan),
    Search(Search),
    TimeBoundary(TimeBoundary),
    SegmentMetadata(SegmentMetadata),
    DataSourceMetadata(DataSourceMetadata),
}

/// Mathematical value of a [`Query`].
pub enum QueryView {
    Timeseries(TimeseriesView),
    TopN(TopNView),
    GroupBy(GroupByView),
    Scan(ScanView),
    Search(SearchView),
    TimeBoundary(TimeBoundaryView),
    SegmentMetadata(SegmentMetadataView),
    DataSourceMetadata(DataSourceMetadataView),
}

impl Query {
    /// The mathematical value.
    pub open spec fn value(self) -> QueryView
        decreases self,
    {
        match self {
            Query::Timeseries(q) => QueryView::Timeseries(q.value()),
            Query::TopN(q) => QueryView::TopN(q.value()),
            Query::GroupBy(q) => QueryView::GroupBy(q.value()),
            Query::Scan(q) => QueryView::Scan(q.value()),
            Query::Search(q) => QueryView::Search(q.value()),
            Query::TimeBoundary(q) => QueryView::TimeBoundary(q.value()),
            Query::SegmentMetadata(q) => QueryView::SegmentMetadata(q.value()),
            Query::DataSourceMetadata(q) => QueryView::DataSourceMetadata(q.value()),
        }
    }
}

impl View for Query {
    type V = QueryView;

    open spec fn view(&self) -> QueryView {
        self.value()
    }
}

impl QueryView {
    /// The name that stands for the kind of the query on the wire.
    pub open spec fn tag(self) -> Seq<char> {
        match self {
            QueryView::Timeseries(_) => "timeseries"@,
            QueryView::TopN(_) => "topN"@,
            QueryView::GroupBy(_) => "groupBy"@,
            QueryView::Scan(_) => "scan"@,
            QueryView::Search(_) => "search"@,
            QueryView::TimeBoundary(_) => "timeBoundary"@,
            QueryView::SegmentMetadata(_) => "segmentMetadata"@,
            QueryView::DataSourceMetadata(_) => "dataSourceMetadata"@,
        }
    }

    /// Whether a name stands for a kind of query.
    pub open spec fn known_tag(t: Seq<char>) -> bool {
        t == "timeseries"@
        || t == "topN"@
        || t == "groupBy"@
        || t == "scan"@
        || t == "search"@
        || t == "timeBoundary"@
        || t == "segmentMetadata"@
        || t == "dataSourceMetadata"@
    }

    /// The wire form: that of the query inside.
    pub open spec fn wire(self) -> JsonValue
        decreases self,
    {
        match self {
            QueryView::Timeseries(q) => q.wire(),
            QueryView::TopN(q) => q.wire(),
            QueryView::GroupBy(q) => q.wire(),
            QueryView::Scan(q) => q.wire(),
            QueryView::Search(q) => q.wire(),
            QueryView::TimeBoundary(q) => q.wire(),
            QueryView::SegmentMetadata(q) => q.wire(),
            QueryView::DataSourceMetadata(q) => q.wire(),
        }
    }

    /// Whether every interval inside is read back as it is.
    pub open spec fn reads_back(self) -> bool
        decreases self,
    {
        match self {
            QueryView::Timeseries(q) => q.reads_back(),
            QueryView::TopN(q) => q.reads_back(),
            QueryView::GroupBy(q) => q.reads_back(),
            QueryView::Scan(q) => q.reads_back(),
            QueryView::Search(q) => q.reads_back(),
            QueryView::TimeBoundary(q) => q.reads_back(),
            QueryView::SegmentMetadata(q) => q.reads_back(),
            QueryView::DataSourceMetadata(q) => q.reads_back(),
        }
    }

    /// Whether no timestamp inside holds anything finer than
    /// milliseconds.
    pub open spec fn millisecond_precise(self) -> bool
        decreases self,
    {
        match self {
            QueryView::Timeseries(q) => q.millisecond_precise(),
            QueryView::TopN(q) => q.millisecond_precise(),
            QueryView::GroupBy(q) => q.millisecond_precise(),
            QueryView::Scan(q) => q.millisecond_precise(),
            QueryView::Search(q) => q.millisecond_precise(),
            QueryView::TimeBoundary(q) => q.millisecond_precise(),
            QueryView::SegmentMetadata(q) => q.millisecond_precise(),
            QueryView::DataSourceMetadata(q) => q.millisecond_precise(),
        }
    }

    /// What a document is read as: an object whose `queryType` names
    /// the kind, read as a query of that kind.
    pub open spec fn parse(j: JsonValue) -> Result<QueryView, Failure>
        decreases j,
    {
        match as_members(j) {
            Ok(m) => match text_field(m, "queryType"@) {
                Ok(t) => if t == "timeseries"@ {
                    match TimeseriesView::parse_members(m) {
                        Ok(q) => Ok(QueryView::Timeseries(q)),
                        Err(e) => Err(e),
                    }
                } else if t == "topN"@ {
                    match TopNView::parse_members(m) {
                        Ok(q) => Ok(QueryView::TopN(q)),
                        Err(e) => Err(e),
                    }
                } else if t == "groupBy"@ {
                    match GroupByView::parse_members(m) {
                        Ok(q) => Ok(QueryView::GroupBy(q)),
                        Err(e) => Err(e),
                    }
                } else if t == "scan"@ {
                    match ScanView::parse_members(m) {
                        Ok(q) => Ok(QueryView::Scan(q)),
                        Err(e) => Err(e),
                    }
                } else if t == "search"@ {
                    match SearchView::parse_members(m) {
                        Ok(q) => Ok(QueryView::Search(q)),
                        Err(e) => Err(e),
                    }
                } else if t == "timeBoundary"@ {
                    match TimeBoundaryView::parse_members(m) {
                        Ok(q) => Ok(QueryView::TimeBoundary(q)),
                        Err(e) => Err(e),
                    }
                } else if t == "segmentMetadata"@ {
                    match SegmentMetadataView::parse_members(m) {
                        Ok(q) => Ok(QueryView::SegmentMetadata(q)),
                        Err(e) => Err(e),
                    }
                } else if t == "dataSourceMetadata"@ {
                    match DataSourceMetadataView::parse_members(m) {
                        Ok(q) => Ok(QueryView::DataSourceMetadata(q)),
                        Err(e) => Err(e),
                    }
                } else {
                    Err(Failure::here(DecodeCause::UnknownVariant).within_key("queryType"@))
                },
                Err(e) => Err(e),
            },
            Err(e) => Err(e),
        }
    }

    /// What is written is never `null`.
    pub proof fn lemma_wire_not_null(self)
        requires
            self.reads_back(),
        ensures
            !(self.wire() is Null),
    {
        self.lemma_round_trip();
    }

    /// Reading back what was written gives the value again, if every
    /// interval inside is read back as it is.
    pub proof fn lemma_round_trip(self)
        requires
            self.reads_back(),
        ensures
            Self::parse(self.wire()) == Ok::<QueryView, Failure>(self),
            self.wire() is Object,
            text_field(self.wire()->Object_0, "queryType"@) == Ok::<Seq<char>, Failure>(self.tag()),
        decreases self,
    {
        match self {
            QueryView::Timeseries(q) => {
                q.lemma_round_trip();
                Self::lemma_parse_timeseries(q.wire());
            },
            QueryView::TopN(q) => {
                q.lemma_round_trip();
                Self::lemma_parse_top_n(q.wire());
            },
            QueryView::GroupBy(q) => {
                q.lemma_round_trip();
                Self::lemma_parse_group_by(q.wire());
            },
            QueryView::Scan(q) => {
                q.lemma_round_trip();
                Self::lemma_parse_scan(q.wire());
            },
            QueryView::Search(q) => {
                q.lemma_round_trip();
                Self::lemma_parse_search(q.wire());
            },
            QueryView::TimeBoundary(q) => {
                q.lemma_round_trip();
                Self::lemma_parse_time_boundary(q.wire());
            },
            QueryView::SegmentMetadata(q) => {
                q.lemma_round_trip();
                Self::lemma_parse_segment_metadata(q.wire());
            },
            QueryView::DataSourceMetadata(q) => {
                q.lemma_round_trip();
                Self::lemma_parse_data_source_metadata(q.wire());
            },
        }
    }

    proof fn lemma_parse_timeseries(j: JsonValue)
        requires
            j is Object,
            text_field(j->Object_0, "queryType"@) == Ok::<Seq<char>, Failure>("timeseries"@),
        ensures
            Self::parse(j) == match TimeseriesView::parse_members(j->Object_0) {
                Ok(q) => Ok::<QueryView, Failure>(QueryView::Timeseries(q)),
                Err(e) => Err::<QueryView, Failure>(e),
            },
    {
        lemma_tags();
    }

    proof fn lemma_parse_top_n(j: JsonValue)
        requires
            j is Object,
            text_field(j->Object_0, "queryType"@) == Ok::<Seq<char>, Failure>("topN"@),
        ensures
            Self::parse(j) == match TopNView::parse_members(j->Object_0) {
                Ok(q) => Ok::<QueryView, Failure>(QueryView::TopN(q)),
                Err(e) => Err::<QueryView, Failure>(e),
            },
    {
        lemma_tags();
    }

    proof fn lemma_parse_group_by(j: JsonValue)
        requires
            j is Object,
            text_field(j->Object_0, "queryType"@) == Ok::<Seq<char>, Failure>("groupBy"@),
        ensures
            Self::parse(j) == match GroupByView::parse_members(j->Object_0) {
                Ok(q) => Ok::<QueryView, Failure>(QueryView::GroupBy(q)),
                Err(e) => Err::<QueryView, Failure>(e),
            },
    {
        lemma_tags();
    }

    proof fn lemma_parse_scan(j: JsonValue)
        requires
            j is Object,
            text_field(j->Object_0, "queryType"@) == Ok::<Seq<char>, Failure>("scan"@),
        ensures
            Self::parse(j) == match ScanView::parse_members(j->Object_0) {
                Ok(q) => Ok::<QueryView, Failure>(QueryView::Scan(q)),
                Err(e) => Err::<QueryView, Failure>(e),
            },
    {
        lemma_tags();
    }

    proof fn lemma_parse_search(j: JsonValue)
        requires
            j is Object,
            text_field(j->Object_0, "queryType"@) == Ok::<Seq<char>, Failure>("search"@),
        ensures
            Self::parse(j) == match SearchView::parse_members(j->Object_0) {
                Ok(q) => Ok::<QueryView, Failure>(QueryView::Search(q)),
                Err(e) => Err::<QueryView, Failure>(e),
            },
    {
        lemma_tags();
    }

    proof fn lemma_parse_time_boundary(j: JsonValue)
        requires
            j is Object,
            text_field(j->Object_0, "queryType"@) == Ok::<Seq<char>, Failure>("timeBoundary"@),
        ensures
            Self::parse(j) == match TimeBoundaryView::parse_members(j->Object_0) {
                Ok(q) => Ok::<QueryView, Failure>(QueryView::TimeBoundary(q)),
                Err(e) => Err::<QueryView, Failure>(e),
            },
    {
        lemma_tags();
    }

    proof fn lemma_parse_segment_metadata(j: JsonValue)
        requires
            j is Object,
            text_field(j->Object_0, "queryType"@) == Ok::<Seq<char>, Failure>("segmentMetadata"@),
        ensures
            Self::parse(j) == match SegmentMetadataView::parse_members(j->Object_0) {
                Ok(q) => Ok::<QueryView, Failure>(QueryView::SegmentMetadata(q)),
                Err(e) => Err::<QueryView, Failure>(e),
            },
    {
        lemma_tags();
    }

    proof fn lemma_parse_data_source_metadata(j: JsonValue)
        requires
            j is Object,
            text_field(j->Object_0, "queryType"@)
                == Ok::<Seq<char>, Failure>("dataSourceMetadata"@),
        ensures
            Self::parse(j) == match DataSourceMetadataView::parse_members(j->Object_0) {
                Ok(q) => Ok::<QueryView, Failure>(QueryView::DataSourceMetadata(q)),
                Err(e) => Err::<QueryView, Failure>(e),
            },
    {
        lemma_tags();
    }

    /// What is written for a query carries the name of its kind.
    pub proof fn lemma_tag(self)
        requires
            self.reads_back(),
        ensures
            self.wire() is Object,
            text_field(self.wire()->Object_0, "queryType"@) == Ok::<Seq<char>, Failure>(self.tag()),
            Self::known_tag(self.tag()),
    {
        self.lemma_round_trip();
    }

    /// An object whose `queryType` names no kind of query is refused as
    /// an unknown variant; it is read as none.
    pub proof fn lemma_unknown_tag(j: JsonValue)
        requires
            j is Object,
            text_field(j->Object_0, "queryType"@) is Ok,
            !Self::known_tag(text_field(j->Object_0, "queryType"@)->Ok_0),
        ensures
            Self::parse(j) == Err::<QueryView, Failure>(
                Failure::here(DecodeCause::UnknownVariant).within_key("queryType"@),
            ),
    {
    }
}

impl Query {
    /// Writes the query in its wire form. A query whose timestamps hold
    /// nothing finer than milliseconds is read back as it is.
    pub fn encode(&self) -> (j: Json)
        ensures
            j@ == self@.wire(),
            self@.millisecond_precise() ==> self@.reads_back(),
            self@.millisecond_precise() ==> QueryView::parse(j@) == Ok::<QueryView, Failure>(self@),
        decreases self,
    {
        let j = match self {
            Query::Timeseries(q) => q.encode(),
            Query::TopN(q) => q.encode(),
            Query::GroupBy(q) => q.encode(),
            Query::Scan(q) => q.encode(),
            Query::Search(q) => q.encode(),
            Query::TimeBoundary(q) => q.encode(),
            Query::SegmentMetadata(q) => q.encode(),
            Query::DataSourceMetadata(q) => q.encode(),
        };
        proof {
            if self@.millisecond_precise() {
                self@.lemma_round_trip();
            }
        }
        j
    }

    /// Reads a query from its wire form.
    pub fn decode(j: &Json) -> (r: Result<Query, DecodeError>)
        ensures
            decoded(r) == QueryView::parse(j@),
        decreases j,
    {
        let m = read_members(j)?;
        let t = text_member(m, "queryType")?;
        if str_eq(t.as_str(), "timeseries") {
            Ok(Query::Timeseries(Timeseries::decode_members(m)?))
        } else if str_eq(t.as_str(), "topN") {
            Ok(Query::TopN(TopN::decode_members(m)?))
        } else if str_eq(t.as_str(), "groupBy") {
            Ok(Query::GroupBy(GroupBy::decode_members(m)?))
        } else if str_eq(t.as_str(), "scan") {
            Ok(Query::Scan(Scan::decode_members(m)?))
        } else if str_eq(t.as_str(), "search") {
            Ok(Query::Search(Search::decode_members(m)?))
        } else if str_eq(t.as_str(), "timeBoundary") {
            Ok(Query::TimeBoundary(TimeBoundary::decode_members(m)?))
        } else if str_eq(t.as_str(), "segmentMetadata") {
            Ok(Query::SegmentMetadata(SegmentMetadata::decode_members(m)?))
        } else if str_eq(t.as_str(), "dataSourceMetadata") {
            Ok(Query::DataSourceMetadata(DataSourceMetadata::decode_members(m)?))
        } else {
            Err(DecodeError::here(DecodeCause::UnknownVariant).within_key("queryType"))
        }
    }
}

/// The names of the kinds of query differ from one another.
proof fn lemma_tags()
    ensures
        "dataSourceMetadata"@.len() == 18,
        "groupBy"@.len() == 7,
        "scan"@.len() == 4,
        "search"@.len() == 6,
        "segmentMetadata"@.len() == 15,
        "timeBoundary"@.len() == 12,
        "timeseries"@.len() == 10,
        "topN"@.len() == 4,
        "scan"@[0] == 's',
        "topN"@[0] == 't',
{
    reveal_strlit("dataSourceMetadata");
    reveal_strlit("groupBy");
    reveal_strlit("scan");
    reveal_strlit("search");
    reveal_strlit("segmentMetadata");
    reveal_strlit("timeBoundary");
    reveal_strlit("timeseries");
    reveal_strlit("topN");
}

} // verus!
