//! Responses: the fixed envelopes in which the engine hands back records
//! whose shape the caller defines, and the records whose shape is fixed.

use vstd::prelude::*;
use crate::codec::{
    as_items, as_members, as_named, count, count_field, count_json, count_member, decoded_list,
    decoded_named, distinct_names, field_with, flag, flag_field, flag_json, flag_member,
    items_field, items_member, lemma_read_all_accepted, lemma_read_all_refused,
    lemma_read_named_distinct, lemma_read_named_prefix, list_view, member, named, named_view,
    no_entries, no_members, object_json, opt_count, opt_count_field, opt_count_json,
    opt_count_member, opt_flag, opt_flag_field, opt_flag_json, opt_flag_member, opt_json,
    opt_json_field, opt_json_json, opt_json_member, opt_number, opt_number_field,
    opt_number_json, opt_number_member, opt_text, opt_text_field, opt_text_json,
    opt_text_member, opt_view, present, present_field, put, put_entry, read_all, read_items,
    read_members, read_named, required, required_field, strings_view, text, text_field,
    text_json, text_member, texts, texts_field, texts_json, texts_member, texts_or_empty_field,
    texts_or_empty_member, under, under_key,
};
use crate::error::{decoded, DecodeError, Failure};
use crate::json::{
    items_view, members_view, Json, JsonNumber, JsonValue, Member, MemberValue, NumberValue,
};
use crate::query::definitions::granularitys::{Granularity, GranularityView};

verus! {

/// Whether `record` may give `out` for a document of the given value.
pub open spec fn gave<T, F: Fn(&Json) -> Result<T, DecodeError>>(
    record: F,
    value: JsonValue,
    out: Result<T, DecodeError>,
) -> bool {
    exists|x: Json| x@ == value && call_ensures(record, (&x,), out)
}

/// Whether `r` is what reading every element of `items` with `record`
/// gives: the records in order, or the failure of the first element that
/// `record` refuses, seen from its index.
pub open spec fn records_read<T, F: Fn(&Json) -> Result<T, DecodeError>>(
    record: F,
    items: Seq<JsonValue>,
    r: Result<Vec<T>, DecodeError>,
) -> bool {
    match r {
        Ok(out) => out@.len() == items.len() && forall|i: int|
            0 <= i < items.len() ==> gave(
                record,
                items[i],
                Ok::<T, DecodeError>(#[trigger] out@[i]),
            ),
        Err(e) => exists|i: int, inner: DecodeError|
            0 <= i < items.len() && #[trigger] gave(record, items[i], Err::<T, DecodeError>(inner))
                && e@ == inner@.within_index(i as nat),
    }
}

/// Reads every element of an array with `record`.
pub fn decode_records<T, F: Fn(&Json) -> Result<T, DecodeError>>(
    items: &Vec<Json>,
    record: &F,
) -> (r:
    Result<Vec<T>, DecodeError>)
    requires
        forall|x: &Json| call_requires(*record, (x,)),
    ensures
        records_read(*record, items_view(items@), r),
{
    let mut out: Vec<T> = Vec::new();
    let mut i: usize = 0;
    while i < items.len()
        invariant
            i <= items.len(),
            out.len() == i,
            forall|x: &Json| call_requires(*record, (x,)),
            forall|k: int|
                0 <= k < i ==> gave(
                    *record,
                    items_view(items@)[k],
                    Ok::<T, DecodeError>(#[trigger] out@[k]),
                ),
        decreases items.len() - i,
    {
        match record(&items[i]) {
            Ok(v) => {
                assert(gave(*record, items_view(items@)[i as int], Ok::<T, DecodeError>(v))) by {
                    assert(items[i as int]@ == items_view(items@)[i as int]);
                }
                out.push(v);
            },
            Err(e) => {
                assert(gave(*record, items_view(items@)[i as int], Err::<T, DecodeError>(e))) by {
                    assert(items[i as int]@ == items_view(items@)[i as int]);
                }
                return Err(e.within_index(i));
            },
        }
        i += 1;
    }
    Ok(out)
}

/// A timestamp and the records that belong to it.
#[derive(Debug, PartialEq)]
pub struct DruidListResponse<T> {
    pub timestamp: String,
    pub result: Vec<T>,
}

impl<T> DruidListResponse<T> {
    /// The fixed part of the envelope, and what it wraps.
    pub open spec fn envelope(j: JsonValue) -> Result<(Seq<char>, Seq<JsonValue>), Failure> {
        match as_members(j) {
            Ok(m) => {
                let timestamp = text_field(m, "timestamp"@);
                let result = items_field(m, "result"@);
                if timestamp is Err {
                    Err(timestamp->Err_0)
                } else if result is Err {
                    Err(result->Err_0)
                } else {
                    Ok((timestamp->Ok_0, result->Ok_0))
                }
            },
            Err(e) => Err(e),
        }
    }

    /// Whether `r` is what reading `j` gives, with `record` reading what
    /// the envelope wraps: a failure of the envelope comes first, and a
    /// failure of `record` is seen from the member `result`.
    pub open spec fn read<F: Fn(&Json) -> Result<T, DecodeError>>(
        record: F,
        j: JsonValue,
        r: Result<DruidListResponse<T>, DecodeError>,
    ) -> bool {
        match Self::envelope(j) {
            Ok(parts) => match r {
                Ok(out) => out.timestamp@ == parts.0
                    && records_read(record, parts.1, Ok::<Vec<T>, DecodeError>(out.result)),
                Err(e) => exists|inner: DecodeError|
                    #[trigger] records_read(record, parts.1, Err::<Vec<T>, DecodeError>(inner))
                        && e@ == inner@.within_key("result"@),
            },
            Err(f) => r matches Err(e) && e@ == f,
        }
    }

    /// Whether `r` is what reading the array `j` gives, each element
    /// read as an envelope: the envelopes in order, or the failure of the
    /// first element that is refused, seen from its index.
    pub open spec fn read_list<F: Fn(&Json) -> Result<T, DecodeError>>(
        record: F,
        j: JsonValue,
        r: Result<Vec<DruidListResponse<T>>, DecodeError>,
    ) -> bool {
        match as_items(j) {
            Ok(items) => match r {
                Ok(out) => out@.len() == items.len() && forall|i: int|
                    0 <= i < items.len() ==> Self::read(
                        record,
                        items[i],
                        Ok::<DruidListResponse<T>, DecodeError>(#[trigger] out@[i]),
                    ),
                Err(e) => exists|i: int, inner: DecodeError|
                    0 <= i < items.len() && #[trigger] Self::read(
                        record,
                        items[i],
                        Err::<DruidListResponse<T>, DecodeError>(inner),
                    )
                        && e@ == inner@.within_index(i as nat),
            },
            Err(f) => r matches Err(e) && e@ == f,
        }
    }

    /// Reads one envelope; `record` reads what it wraps.
    pub fn decode<F: Fn(&Json) -> Result<T, DecodeError>>(
        j: &Json,
        record: &F,
    ) -> (r: Result<DruidListResponse<T>, DecodeError>)
        requires
            forall|x: &Json| call_requires(*record, (x,)),
        ensures
            Self::read(*record, j@, r),
    {
        let m = read_members(j)?;
        let timestamp = text_member(m, "timestamp")?;
        let items = items_member(m, "result")?;
        match decode_records(items, record) {
            Ok(result) => Ok(DruidListResponse { timestamp, result }),
            Err(inner) => {
                let ghost seen = inner;
                let e = inner.within_key("result");
                proof {
                    assert(records_read(
                        *record,
                        Self::envelope(j@)->Ok_0.1,
                        Err::<Vec<T>, DecodeError>(seen),
                    ));
                }
                Err(e)
            },
        }
    }

    /// Reads an array of envelopes; `record` reads what each wraps.
    pub fn decode_list<F: Fn(&Json) -> Result<T, DecodeError>>(
        j: &Json,
        record: &F,
    ) -> (r: Result<Vec<DruidListResponse<T>>, DecodeError>)
        requires
            forall|x: &Json| call_requires(*record, (x,)),
        ensures
            Self::read_list(*record, j@, r),
    {
        let items = read_items(j)?;
        let mut out: Vec<DruidListResponse<T>> = Vec::new();
        let mut i: usize = 0;
        while i < items.len()
            invariant
                i <= items.len(),
                out.len() == i,
                as_items(j@) == Ok::<Seq<JsonValue>, Failure>(items_view(items@)),
                forall|x: &Json| call_requires(*record, (x,)),
                forall|k: int|
                    0 <= k < i ==> Self::read(
                        *record,
                        items_view(items@)[k],
                        Ok::<DruidListResponse<T>, DecodeError>(#[trigger] out@[k]),
                    ),
            decreases items.len() - i,
        {
            assert(items[i as int]@ == items_view(items@)[i as int]);
            match Self::decode(&items[i], record) {
                Ok(v) => {
                    out.push(v);
                },
                Err(inner) => {
                    let ghost seen = inner;
                    let e = inner.within_index(i);
                    proof {
                        assert(Self::read(
                            *record,
                            items_view(items@)[i as int],
                            Err::<DruidListResponse<T>, DecodeError>(seen),
                        ));
                        assert(e@ == seen@.within_index(i as nat));
                        assert(exists|k: int, inner: DecodeError|
                            0 <= k < items_view(items@).len() && #[trigger] Self::read(
                                *record,
                                items_view(items@)[k],
                                Err::<DruidListResponse<T>, DecodeError>(inner),
                            )
                                && e@ == inner@.within_index(k as nat));
                        assert(as_items(j@)->Ok_0 == items_view(items@));
                    }
                    return Err(e);
                },
            }
            i += 1;
        }
        Ok(out)
    }
}

/// What the engine answers a top-N query with: for each time bucket, the
/// rows that rank highest.
pub type TopNResponse<T> = DruidListResponse<T>;

/// What the engine answers a search query with: for each time bucket,
/// the values that were found.
pub type SearchResponse = DruidListResponse<DimValue>;

/// A timestamp and the one record that belongs to it.
#[derive(Debug, PartialEq)]
pub struct MetadataResponse<T> {
    pub timestamp: String,
    pub result: T,
}

impl<T> MetadataResponse<T> {
    /// The fixed part of the envelope, and what it wraps.
    pub open spec fn envelope(j: JsonValue) -> Result<(Seq<char>, JsonValue), Failure> {
        match as_members(j) {
            Ok(m) => {
                let timestamp = text_field(m, "timestamp"@);
                let result = required(m, "result"@);
                if timestamp is Err {
                    Err(timestamp->Err_0)
                } else if result is Err {
                    Err(result->Err_0)
                } else {
                    Ok((timestamp->Ok_0, result->Ok_0))
                }
            },
            Err(e) => Err(e),
        }
    }

    /// Whether `r` is what reading `j` gives, with `record` reading what
    /// the envelope wraps: a failure of the envelope comes first, and a
    /// failure of `record` is seen from the member `result`.
    pub open spec fn read<F: Fn(&Json) -> Result<T, DecodeError>>(
        record: F,
        j: JsonValue,
        r: Result<MetadataResponse<T>, DecodeError>,
    ) -> bool {
        match Self::envelope(j) {
            Ok(parts) => match r {
                Ok(out) => out.timestamp@ == parts.0
                    && gave(record, parts.1, Ok::<T, DecodeError>(out.result)),
                Err(e) => exists|inner: DecodeError|
                    #[trigger] gave(record, parts.1, Err::<T, DecodeError>(inner))
                        && e@ == inner@.within_key("result"@),
            },
            Err(f) => r matches Err(e) && e@ == f,
        }
    }

    /// Whether `r` is what reading the array `j` gives, each element
    /// read as an envelope: the envelopes in order, or the failure of the
    /// first element that is refused, seen from its index.
    pub open spec fn read_list<F: Fn(&Json) -> Result<T, DecodeError>>(
        record: F,
        j: JsonValue,
        r: Result<Vec<MetadataResponse<T>>, DecodeError>,
    ) -> bool {
        match as_items(j) {
            Ok(items) => match r {
                Ok(out) => out@.len() == items.len() && forall|i: int|
                    0 <= i < items.len() ==> Self::read(
                        record,
                        items[i],
                        Ok::<MetadataResponse<T>, DecodeError>(#[trigger] out@[i]),
                    ),
                Err(e) => exists|i: int, inner: DecodeError|
                    0 <= i < items.len() && #[trigger] Self::read(
                        record,
                        items[i],
                        Err::<MetadataResponse<T>, DecodeError>(inner),
                    )
                        && e@ == inner@.within_index(i as nat),
            },
            Err(f) => r matches Err(e) && e@ == f,
        }
    }

    /// Reads one envelope; `record` reads what it wraps.
    pub fn decode<F: Fn(&Json) -> Result<T, DecodeError>>(
        j: &Json,
        record: &F,
    ) -> (r: Result<MetadataResponse<T>, DecodeError>)
        requires
            forall|x: &Json| call_requires(*record, (x,)),
        ensures
            Self::read(*record, j@, r),
    {
        let m = read_members(j)?;
        let timestamp = text_member(m, "timestamp")?;
        let payload = required_field(m, "result")?;
        match record(payload) {
            Ok(result) => Ok(MetadataResponse { timestamp, result }),
            Err(inner) => {
                let ghost seen = inner;
                let e = inner.within_key("result");
                proof {
                    assert(gave(*record, Self::envelope(j@)->Ok_0.1, Err::<T, DecodeError>(seen)));
                }
                Err(e)
            },
        }
    }

    /// Reads an array of envelopes; `record` reads what each wraps.
    pub fn decode_list<F: Fn(&Json) -> Result<T, DecodeError>>(
        j: &Json,
        record: &F,
    ) -> (r: Result<Vec<MetadataResponse<T>>, DecodeError>)
        requires
            forall|x: &Json| call_requires(*record, (x,)),
        ensures
            Self::read_list(*record, j@, r),
    {
        let items = read_items(j)?;
        let mut out: Vec<MetadataResponse<T>> = Vec::new();
        let mut i: usize = 0;
        while i < items.len()
            invariant
                i <= items.len(),
                out.len() == i,
                as_items(j@) == Ok::<Seq<JsonValue>, Failure>(items_view(items@)),
                forall|x: &Json| call_requires(*record, (x,)),
                forall|k: int|
                    0 <= k < i ==> Self::read(
                        *record,
                        items_view(items@)[k],
                        Ok::<MetadataResponse<T>, DecodeError>(#[trigger] out@[k]),
                    ),
            decreases items.len() - i,
        {
            assert(items[i as int]@ == items_view(items@)[i as int]);
            match Self::decode(&items[i], record) {
                Ok(v) => {
                    out.push(v);
                },
                Err(inner) => {
                    let ghost seen = inner;
                    let e = inner.within_index(i);
                    proof {
                        assert(Self::read(
                            *record,
                            items_view(items@)[i as int],
                            Err::<MetadataResponse<T>, DecodeError>(seen),
                        ));
                        assert(e@ == seen@.within_index(i as nat));
                        assert(exists|k: int, inner: DecodeError|
                            0 <= k < items_view(items@).len() && #[trigger] Self::read(
                                *record,
                                items_view(items@)[k],
                                Err::<MetadataResponse<T>, DecodeError>(inner),
                            )
                                && e@ == inner@.within_index(k as nat));
                        assert(as_items(j@)->Ok_0 == items_view(items@));
                    }
                    return Err(e);
                },
            }
            i += 1;
        }
        Ok(out)
    }
}

/// What the engine answers a group-by query with: one row of one group.
#[derive(Debug, PartialEq)]
pub struct GroupByResponse<T> {
    pub timestamp: String,
    pub event: T,
}

impl<T> GroupByResponse<T> {
    /// The fixed part of the envelope, and what it wraps.
    pub open spec fn envelope(j: JsonValue) -> Result<(Seq<char>, JsonValue), Failure> {
        match as_members(j) {
            Ok(m) => {
                let timestamp = text_field(m, "timestamp"@);
                let event = required(m, "event"@);
                if timestamp is Err {
                    Err(timestamp->Err_0)
                } else if event is Err {
                    Err(event->Err_0)
                } else {
                    Ok((timestamp->Ok_0, event->Ok_0))
                }
            },
            Err(e) => Err(e),
        }
    }

    /// Whether `r` is what reading `j` gives, with `record` reading what
    /// the envelope wraps: a failure of the envelope comes first, and a
    /// failure of `record` is seen from the member `event`.
    pub open spec fn read<F: Fn(&Json) -> Result<T, DecodeError>>(
        record: F,
        j: JsonValue,
        r: Result<GroupByResponse<T>, DecodeError>,
    ) -> bool {
        match Self::envelope(j) {
            Ok(parts) => match r {
                Ok(out) => out.timestamp@ == parts.0
                    && gave(record, parts.1, Ok::<T, DecodeError>(out.event)),
                Err(e) => exists|inner: DecodeError|
                    #[trigger] gave(record, parts.1, Err::<T, DecodeError>(inner))
                        && e@ == inner@.within_key("event"@),
            },
            Err(f) => r matches Err(e) && e@ == f,
        }
    }

    /// Whether `r` is what reading the array `j` gives, each element
    /// read as an envelope: the envelopes in order, or the failure of the
    /// first element that is refused, seen from its index.
    pub open spec fn read_list<F: Fn(&Json) -> Result<T, DecodeError>>(
        record: F,
        j: JsonValue,
        r: Result<Vec<GroupByResponse<T>>, DecodeError>,
    ) -> bool {
        match as_items(j) {
            Ok(items) => match r {
                Ok(out) => out@.len() == items.len() && forall|i: int|
                    0 <= i < items.len() ==> Self::read(
                        record,
                        items[i],
                        Ok::<GroupByResponse<T>, DecodeError>(#[trigger] out@[i]),
                    ),
                Err(e) => exists|i: int, inner: DecodeError|
                    0 <= i < items.len() && #[trigger] Self::read(
                        record,
                        items[i],
                        Err::<GroupByResponse<T>, DecodeError>(inner),
                    )
                        && e@ == inner@.within_index(i as nat),
            },
            Err(f) => r matches Err(e) && e@ == f,
        }
    }

    /// Reads one envelope; `record` reads what it wraps.
    pub fn decode<F: Fn(&Json) -> Result<T, DecodeError>>(
        j: &Json,
        record: &F,
    ) -> (r: Result<GroupByResponse<T>, DecodeError>)
        requires
            forall|x: &Json| call_requires(*record, (x,)),
        ensures
            Self::read(*record, j@, r),
    {
        let m = read_members(j)?;
        let timestamp = text_member(m, "timestamp")?;
        let payload = required_field(m, "event")?;
        match record(payload) {
            Ok(event) => Ok(GroupByResponse { timestamp, event }),
            Err(inner) => {
                let ghost seen = inner;
                let e = inner.within_key("event");
                proof {
                    assert(gave(*record, Self::envelope(j@)->Ok_0.1, Err::<T, DecodeError>(seen)));
                }
                Err(e)
            },
        }
    }

    /// Reads an array of envelopes; `record` reads what each wraps.
    pub fn decode_list<F: Fn(&Json) -> Result<T, DecodeError>>(
        j: &Json,
        record: &F,
    ) -> (r: Result<Vec<GroupByResponse<T>>, DecodeError>)
        requires
            forall|x: &Json| call_requires(*record, (x,)),
        ensures
            Self::read_list(*record, j@, r),
    {
        let items = read_items(j)?;
        let mut out: Vec<GroupByResponse<T>> = Vec::new();
        let mut i: usize = 0;
        while i < items.len()
            invariant
                i <= items.len(),
                out.len() == i,
                as_items(j@) == Ok::<Seq<JsonValue>, Failure>(items_view(items@)),
                forall|x: &Json| call_requires(*record, (x,)),
                forall|k: int|
                    0 <= k < i ==> Self::read(
                        *record,
                        items_view(items@)[k],
                        Ok::<GroupByResponse<T>, DecodeError>(#[trigger] out@[k]),
                    ),
            decreases items.len() - i,
        {
            assert(items[i as int]@ == items_view(items@)[i as int]);
            match Self::decode(&items[i], record) {
                Ok(v) => {
                    out.push(v);
                },
                Err(inner) => {
                    let ghost seen = inner;
                    let e = inner.within_index(i);
                    proof {
                        assert(Self::read(
                            *record,
                            items_view(items@)[i as int],
                            Err::<GroupByResponse<T>, DecodeError>(seen),
                        ));
                        assert(e@ == seen@.within_index(i as nat));
                        assert(exists|k: int, inner: DecodeError|
                            0 <= k < items_view(items@).len() && #[trigger] Self::read(
                                *record,
                                items_view(items@)[k],
                                Err::<GroupByResponse<T>, DecodeError>(inner),
                            )
                                && e@ == inner@.within_index(k as nat));
                        assert(as_items(j@)->Ok_0 == items_view(items@));
                    }
                    return Err(e);
                },
            }
            i += 1;
        }
        Ok(out)
    }
}

/// What the engine answers a scan query with: the rows of one segment.
#[derive(Debug, PartialEq)]
pub struct ScanResponse<T> {
    pub segment_id: String,
    pub columns: Vec<String>,
    pub events: Vec<T>,
}

impl<T> ScanResponse<T> {
    /// The fixed part of the envelope, and what it wraps.
    pub open spec fn envelope(j: JsonValue) -> Result<(
        Seq<char>,
        Seq<Seq<char>>,
        Seq<JsonValue>,
    ), Failure> {
        match as_members(j) {
            Ok(m) => {
                let segment_id = text_field(m, "segmentId"@);
                let columns = texts_field(m, "columns"@);
                let events = items_field(m, "events"@);
                if segment_id is Err {
                    Err(segment_id->Err_0)
                } else if columns is Err {
                    Err(columns->Err_0)
                } else if events is Err {
                    Err(events->Err_0)
                } else {
                    Ok((segment_id->Ok_0, columns->Ok_0, events->Ok_0))
                }
            },
            Err(e) => Err(e),
        }
    }

    /// Whether `r` is what reading `j` gives, with `record` reading what
    /// the envelope wraps: a failure of the envelope comes first, and a
    /// failure of `record` is seen from the member `events`.
    pub open spec fn read<F: Fn(&Json) -> Result<T, DecodeError>>(
        record: F,
        j: JsonValue,
        r: Result<ScanResponse<T>, DecodeError>,
    ) -> bool {
        match Self::envelope(j) {
            Ok(parts) => match r {
                Ok(out) => out.segment_id@ == parts.0
                    && strings_view(out.columns@) == parts.1
                    && records_read(record, parts.2, Ok::<Vec<T>, DecodeError>(out.events)),
                Err(e) => exists|inner: DecodeError|
                    #[trigger] records_read(record, parts.2, Err::<Vec<T>, DecodeError>(inner))
                        && e@ == inner@.within_key("events"@),
            },
            Err(f) => r matches Err(e) && e@ == f,
        }
    }

    /// Whether `r` is what reading the array `j` gives, each element
    /// read as an envelope: the envelopes in order, or the failure of the
    /// first element that is refused, seen from its index.
    pub open spec fn read_list<F: Fn(&Json) -> Result<T, DecodeError>>(
        record: F,
        j: JsonValue,
        r: Result<Vec<ScanResponse<T>>, DecodeError>,
    ) -> bool {
        match as_items(j) {
            Ok(items) => match r {
                Ok(out) => out@.len() == items.len() && forall|i: int|
                    0 <= i < items.len() ==> Self::read(
                        record,
                        items[i],
                        Ok::<ScanResponse<T>, DecodeError>(#[trigger] out@[i]),
                    ),
                Err(e) => exists|i: int, inner: DecodeError|
                    0 <= i < items.len() && #[trigger] Self::read(
                        record,
                        items[i],
                        Err::<ScanResponse<T>, DecodeError>(inner),
                    )
                        && e@ == inner@.within_index(i as nat),
            },
            Err(f) => r matches Err(e) && e@ == f,
        }
    }

    /// Reads one envelope; `record` reads what it wraps.
    pub fn decode<F: Fn(&Json) -> Result<T, DecodeError>>(
        j: &Json,
        record: &F,
    ) -> (r: Result<ScanResponse<T>, DecodeError>)
        requires
            forall|x: &Json| call_requires(*record, (x,)),
        ensures
            Self::read(*record, j@, r),
    {
        let m = read_members(j)?;
        let segment_id = text_member(m, "segmentId")?;
        let columns = texts_member(m, "columns")?;
        let items = items_member(m, "events")?;
        match decode_records(items, record) {
            Ok(events) => Ok(ScanResponse { segment_id, columns, events }),
            Err(inner) => {
                let ghost seen = inner;
                let e = inner.within_key("events");
                proof {
                    assert(records_read(
                        *record,
                        Self::envelope(j@)->Ok_0.2,
                        Err::<Vec<T>, DecodeError>(seen),
                    ));
                }
                Err(e)
            },
        }
    }

    /// Reads an array of envelopes; `record` reads what each wraps.
    pub fn decode_list<F: Fn(&Json) -> Result<T, DecodeError>>(
        j: &Json,
        record: &F,
    ) -> (r: Result<Vec<ScanResponse<T>>, DecodeError>)
        requires
            forall|x: &Json| call_requires(*record, (x,)),
        ensures
            Self::read_list(*record, j@, r),
    {
        let items = read_items(j)?;
        let mut out: Vec<ScanResponse<T>> = Vec::new();
        let mut i: usize = 0;
        while i < items.len()
            invariant
                i <= items.len(),
                out.len() == i,
                as_items(j@) == Ok::<Seq<JsonValue>, Failure>(items_view(items@)),
                forall|x: &Json| call_requires(*record, (x,)),
                forall|k: int|
                    0 <= k < i ==> Self::read(
                        *record,
                        items_view(items@)[k],
                        Ok::<ScanResponse<T>, DecodeError>(#[trigger] out@[k]),
                    ),
            decreases items.len() - i,
        {
            assert(items[i as int]@ == items_view(items@)[i as int]);
            match Self::decode(&items[i], record) {
                Ok(v) => {
                    out.push(v);
                },
                Err(inner) => {
                    let ghost seen = inner;
                    let e = inner.within_index(i);
                    proof {
                        assert(Self::read(
                            *record,
                            items_view(items@)[i as int],
                            Err::<ScanResponse<T>, DecodeError>(seen),
                        ));
                        assert(e@ == seen@.within_index(i as nat));
                        assert(exists|k: int, inner: DecodeError|
                            0 <= k < items_view(items@).len() && #[trigger] Self::read(
                                *record,
                                items_view(items@)[k],
                                Err::<ScanResponse<T>, DecodeError>(inner),
                            )
                                && e@ == inner@.within_index(k as nat));
                        assert(as_items(j@)->Ok_0 == items_view(items@));
                    }
                    return Err(e);
                },
            }
            i += 1;
        }
        Ok(out)
    }
}

/// What the engine answers a timeseries query with: the values of one time bucket. The row of the grand total has no timestamp.
#[derive(Debug, PartialEq)]
pub struct TimeseriesResponse<T> {
    pub timestamp: Option<String>,
    pub result: T,
}

impl<T> TimeseriesResponse<T> {
    /// The fixed part of the envelope, and what it wraps.
    pub open spec fn envelope(j: JsonValue) -> Result<(Option<Seq<char>>, JsonValue), Failure> {
        match as_members(j) {
            Ok(m) => {
                let timestamp = opt_text_field(m, "timestamp"@);
                let result = required(m, "result"@);
                if timestamp is Err {
                    Err(timestamp->Err_0)
                } else if result is Err {
                    Err(result->Err_0)
                } else {
                    Ok((timestamp->Ok_0, result->Ok_0))
                }
            },
            Err(e) => Err(e),
        }
    }

    /// Whether `r` is what reading `j` gives, with `record` reading what
    /// the envelope wraps: a failure of the envelope comes first, and a
    /// failure of `record` is seen from the member `result`.
    pub open spec fn read<F: Fn(&Json) -> Result<T, DecodeError>>(
        record: F,
        j: JsonValue,
        r: Result<TimeseriesResponse<T>, DecodeError>,
    ) -> bool {
        match Self::envelope(j) {
            Ok(parts) => match r {
                Ok(out) => opt_view(out.timestamp) == parts.0
                    && gave(record, parts.1, Ok::<T, DecodeError>(out.result)),
                Err(e) => exists|inner: DecodeError|
                    #[trigger] gave(record, parts.1, Err::<T, DecodeError>(inner))
                        && e@ == inner@.within_key("result"@),
            },
            Err(f) => r matches Err(e) && e@ == f,
        }
    }

    /// Whether `r` is what reading the array `j` gives, each element
    /// read as an envelope: the envelopes in order, or the failure of the
    /// first element that is refused, seen from its index.
    pub open spec fn read_list<F: Fn(&Json) -> Result<T, DecodeError>>(
        record: F,
        j: JsonValue,
        r: Result<Vec<TimeseriesResponse<T>>, DecodeError>,
    ) -> bool {
        match as_items(j) {
            Ok(items) => match r {
                Ok(out) => out@.len() == items.len() && forall|i: int|
                    0 <= i < items.len() ==> Self::read(
                        record,
                        items[i],
                        Ok::<TimeseriesResponse<T>, DecodeError>(#[trigger] out@[i]),
                    ),
                Err(e) => exists|i: int, inner: DecodeError|
                    0 <= i < items.len() && #[trigger] Self::read(
                        record,
                        items[i],
                        Err::<TimeseriesResponse<T>, DecodeError>(inner),
                    )
                        && e@ == inner@.within_index(i as nat),
            },
            Err(f) => r matches Err(e) && e@ == f,
        }
    }

    /// Reads one envelope; `record` reads what it wraps.
    pub fn decode<F: Fn(&Json) -> Result<T, DecodeError>>(
        j: &Json,
        record: &F,
    ) -> (r: Result<TimeseriesResponse<T>, DecodeError>)
        requires
            forall|x: &Json| call_requires(*record, (x,)),
        ensures
            Self::read(*record, j@, r),
    {
        let m = read_members(j)?;
        let timestamp = opt_text_member(m, "timestamp")?;
        let payload = required_field(m, "result")?;
        match record(payload) {
            Ok(result) => Ok(TimeseriesResponse { timestamp, result }),
            Err(inner) => {
                let ghost seen = inner;
                let e = inner.within_key("result");
                proof {
                    assert(gave(*record, Self::envelope(j@)->Ok_0.1, Err::<T, DecodeError>(seen)));
                }
                Err(e)
            },
        }
    }

    /// Reads an array of envelopes; `record` reads what each wraps.
    pub fn decode_list<F: Fn(&Json) -> Result<T, DecodeError>>(
        j: &Json,
        record: &F,
    ) -> (r: Result<Vec<TimeseriesResponse<T>>, DecodeError>)
        requires
            forall|x: &Json| call_requires(*record, (x,)),
        ensures
            Self::read_list(*record, j@, r),
    {
        let items = read_items(j)?;
        let mut out: Vec<TimeseriesResponse<T>> = Vec::new();
        let mut i: usize = 0;
        while i < items.len()
            invariant
                i <= items.len(),
                out.len() == i,
                as_items(j@) == Ok::<Seq<JsonValue>, Failure>(items_view(items@)),
                forall|x: &Json| call_requires(*record, (x,)),
                forall|k: int|
                    0 <= k < i ==> Self::read(
                        *record,
                        items_view(items@)[k],
                        Ok::<TimeseriesResponse<T>, DecodeError>(#[trigger] out@[k]),
                    ),
            decreases items.len() - i,
        {
            assert(items[i as int]@ == items_view(items@)[i as int]);
            match Self::decode(&items[i], record) {
                Ok(v) => {
                    out.push(v);
                },
                Err(inner) => {
                    let ghost seen = inner;
                    let e = inner.within_index(i);
                    proof {
                        assert(Self::read(
                            *record,
                            items_view(items@)[i as int],
                            Err::<TimeseriesResponse<T>, DecodeError>(seen),
                        ));
                        assert(e@ == seen@.within_index(i as nat));
                        assert(exists|k: int, inner: DecodeError|
                            0 <= k < items_view(items@).len() && #[trigger] Self::read(
                                *record,
                                items_view(items@)[k],
                                Err::<TimeseriesResponse<T>, DecodeError>(inner),
                            )
                                && e@ == inner@.within_index(k as nat));
                        assert(as_items(j@)->Ok_0 == items_view(items@));
                    }
                    return Err(e);
                },
            }
            i += 1;
        }
        Ok(out)
    }
}

/// One value that a search found in a dimension, and how often.
#[derive(Debug, PartialEq)]
pub struct DimValue {
    pub dimension: String,
    pub value: Json,
    pub count: usize,
}

/// Mathematical value of a [`DimValue`].
pub struct DimValueView {
    pub dimension: Seq<char>,
    pub value: JsonValue,
    pub count: usize,
}

impl View for DimValue {
    type V = DimValueView;

    open spec fn view(&self) -> DimValueView {
        DimValueView {
            dimension: self.dimension@,
            value: self.value@,
            count: self.count,
        }
    }
}

impl DimValueView {
    /// The wire form.
    pub open spec fn wire(self) -> JsonValue {
        JsonValue::Object(
            Seq::empty()
                .push(member("dimension"@, text(self.dimension)))
                .push(member("value"@, self.value))
                .push(member("count"@, count(self.count))),
        )
    }

    /// The wire forms of the elements of a list.
    pub open spec fn wire_list(list: Seq<DimValueView>) -> Seq<JsonValue> {
        list.map_values(|x: DimValueView| x.wire())
    }

    /// What a document is read as that is an array of these.
    pub open spec fn parse_all(j: JsonValue) -> Result<Seq<DimValueView>, Failure> {
        match as_items(j) {
            Ok(items) => Self::parse_list(items),
            Err(e) => Err(e),
        }
    }

    /// What a document is read as.
    pub open spec fn parse(j: JsonValue) -> Result<DimValueView, Failure> {
        match as_members(j) {
            Ok(m) => Self::parse_members(m),
            Err(e) => Err(e),
        }
    }

    /// The members of the object, read.
    pub open spec fn parse_members(m: Seq<MemberValue>) -> Result<DimValueView, Failure> {
        let dimension = text_field(m, "dimension"@);
        let value = required(m, "value"@);
        let count = count_field(m, "count"@);
        if dimension is Err {
            Err(dimension->Err_0)
        } else if value is Err {
            Err(value->Err_0)
        } else if count is Err {
            Err(count->Err_0)
        } else {
            Ok(DimValueView { dimension: dimension->Ok_0, value: value->Ok_0, count: count->Ok_0 })
        }
    }

    /// Every element of an array, read: the list of what was read, or
    /// the failure of the first element that is refused, seen from its
    /// index.
    pub open spec fn parse_list(items: Seq<JsonValue>) -> Result<Seq<DimValueView>, Failure> {
        read_all(items, |j: JsonValue| Self::parse(j))
    }

}

impl DimValue {
    /// Writes the value in its wire form.
    pub fn encode(&self) -> (j: Json)
        ensures
            j@ == self@.wire(),
    {
        let mut m = no_members();
        put(&mut m, "dimension", text_json(self.dimension.as_str()));
        put(&mut m, "value", self.value.copy());
        put(&mut m, "count", count_json(self.count));
        object_json(m)
    }

    /// Writes each element of a list in its wire form.
    pub fn encode_list(list: &Vec<DimValue>) -> (items: Vec<Json>)
        ensures
            items_view(items@) == DimValueView::wire_list(list_view(list@)),
    {
        let mut items: Vec<Json> = Vec::new();
        let mut i: usize = 0;
        while i < list.len()
            invariant
                i <= list.len(),
                items.len() == i,
                forall|k: int| 0 <= k < i ==> items[k]@ == list[k]@.wire(),
            decreases list.len() - i,
        {
            items.push(list[i].encode());
            i += 1;
        }
        assert(items_view(items@) =~= DimValueView::wire_list(list_view(list@)));
        items
    }

    /// Reads a value from its wire form.
    pub fn decode(j: &Json) -> (r: Result<DimValue, DecodeError>)
        ensures
            decoded(r) == DimValueView::parse(j@),
    {
        let m = read_members(j)?;
        Self::decode_members(m)
    }

    /// Reads the members of the object.
    pub fn decode_members(m: &Vec<Member>) -> (r: Result<DimValue, DecodeError>)
        ensures
            decoded(r) == DimValueView::parse_members(members_view(m@)),
    {
        let dimension = text_member(m, "dimension")?;
        let value = required_field(m, "value")?.copy();
        let count = count_member(m, "count")?;
        Ok(DimValue { dimension, value, count })
    }

    /// Reads each element of an array from its wire form.
    pub fn decode_list(items: &Vec<Json>) -> (r: Result<Vec<DimValue>, DecodeError>)
        ensures
            decoded_list(r) == DimValueView::parse_list(items_view(items@)),
    {
        let ghost read = |j: JsonValue| DimValueView::parse(j);
        let mut out: Vec<DimValue> = Vec::new();
        let mut i: usize = 0;
        while i < items.len()
            invariant
                i <= items.len(),
                out.len() == i,
                read == (|j: JsonValue| DimValueView::parse(j)),
                forall|k: int|
                0 <= k < i ==>
                    (#[trigger] read(items_view(items@)[k]))
                        == Ok::<DimValueView, Failure>(out[k]@),
            decreases items.len() - i,
        {
            match DimValue::decode(&items[i]) {
                Ok(v) => {
                    out.push(v);
                },
                Err(e) => {
                    proof {
                        assert(read(items_view(items@)[i as int]) is Err);
                        lemma_read_all_refused(items_view(items@), read, i as int);
                    }
                    return Err(e.within_index(i));
                },
            }
            i += 1;
        }
        proof {
            lemma_read_all_accepted(items_view(items@), read, list_view(out@));
        }
        Ok(out)
    }
}

/// The latest and the earliest time of a data source, as far as they were asked for.
#[derive(Debug, PartialEq)]
pub struct MinMaxTime {
    pub max_time: Option<String>,
    pub min_time: Option<String>,
}

/// Mathematical value of a [`MinMaxTime`].
pub struct MinMaxTimeView {
    pub max_time: Option<Seq<char>>,
    pub min_time: Option<Seq<char>>,
}

impl View for MinMaxTime {
    type V = MinMaxTimeView;

    open spec fn view(&self) -> MinMaxTimeView {
        MinMaxTimeView {
            max_time: opt_view(self.max_time),
            min_time: opt_view(self.min_time),
        }
    }
}

impl MinMaxTimeView {
    /// The wire form.
    pub open spec fn wire(self) -> JsonValue {
        JsonValue::Object(
            Seq::empty()
                .push(member("maxTime"@, opt_text(self.max_time)))
                .push(member("minTime"@, opt_text(self.min_time))),
        )
    }

    /// What a document is read as.
    pub open spec fn parse(j: JsonValue) -> Result<MinMaxTimeView, Failure> {
        match as_members(j) {
            Ok(m) => Self::parse_members(m),
            Err(e) => Err(e),
        }
    }

    /// The members of the object, read.
    pub open spec fn parse_members(m: Seq<MemberValue>) -> Result<MinMaxTimeView, Failure> {
        let max_time = opt_text_field(m, "maxTime"@);
        let min_time = opt_text_field(m, "minTime"@);
        if max_time is Err {
            Err(max_time->Err_0)
        } else if min_time is Err {
            Err(min_time->Err_0)
        } else {
            Ok(MinMaxTimeView { max_time: max_time->Ok_0, min_time: min_time->Ok_0 })
        }
    }

}

impl MinMaxTime {
    /// Writes the value in its wire form.
    pub fn encode(&self) -> (j: Json)
        ensures
            j@ == self@.wire(),
    {
        let mut m = no_members();
        put(&mut m, "maxTime", opt_text_json(&self.max_time));
        put(&mut m, "minTime", opt_text_json(&self.min_time));
        object_json(m)
    }

    /// Reads a value from its wire form.
    pub fn decode(j: &Json) -> (r: Result<MinMaxTime, DecodeError>)
        ensures
            decoded(r) == MinMaxTimeView::parse(j@),
    {
        let m = read_members(j)?;
        Self::decode_members(m)
    }

    /// Reads the members of the object.
    pub fn decode_members(m: &Vec<Member>) -> (r: Result<MinMaxTime, DecodeError>)
        ensures
            decoded(r) == MinMaxTimeView::parse_members(members_view(m@)),
    {
        let max_time = opt_text_member(m, "maxTime")?;
        let min_time = opt_text_member(m, "minTime")?;
        Ok(MinMaxTime { max_time, min_time })
    }
}

/// What the engine answers a time-boundary query with.
#[derive(Debug, PartialEq)]
pub struct TimeBoundaryResponse {
    pub timestamp: String,
    pub result: MinMaxTime,
}

/// Mathematical value of a [`TimeBoundaryResponse`].
pub struct TimeBoundaryResponseView {
    pub timestamp: Seq<char>,
    pub result: MinMaxTimeView,
}

impl View for TimeBoundaryResponse {
    type V = TimeBoundaryResponseView;

    open spec fn view(&self) -> TimeBoundaryResponseView {
        TimeBoundaryResponseView {
            timestamp: self.timestamp@,
            result: self.result@,
        }
    }
}

impl TimeBoundaryResponseView {
    /// The wire form.
    pub open spec fn wire(self) -> JsonValue {
        JsonValue::Object(
            Seq::empty()
                .push(member("timestamp"@, text(self.timestamp)))
                .push(member("result"@, self.result.wire())),
        )
    }

    /// The wire forms of the elements of a list.
    pub open spec fn wire_list(list: Seq<TimeBoundaryResponseView>) -> Seq<JsonValue> {
        list.map_values(|x: TimeBoundaryResponseView| x.wire())
    }

    /// What a document is read as that is an array of these.
    pub open spec fn parse_all(j: JsonValue) -> Result<Seq<TimeBoundaryResponseView>, Failure> {
        match as_items(j) {
            Ok(items) => Self::parse_list(items),
            Err(e) => Err(e),
        }
    }

    /// What a document is read as.
    pub open spec fn parse(j: JsonValue) -> Result<TimeBoundaryResponseView, Failure> {
        match as_members(j) {
            Ok(m) => Self::parse_members(m),
            Err(e) => Err(e),
        }
    }

    /// The members of the object, read.
    pub open spec fn parse_members(m: Seq<MemberValue>) -> Result<TimeBoundaryResponseView, Failure> {
        let timestamp = text_field(m, "timestamp"@);
        let result = field_with(m, "result"@, |v: JsonValue| MinMaxTimeView::parse(v));
        if timestamp is Err {
            Err(timestamp->Err_0)
        } else if result is Err {
            Err(result->Err_0)
        } else {
            Ok(TimeBoundaryResponseView { timestamp: timestamp->Ok_0, result: result->Ok_0 })
        }
    }

    /// Every element of an array, read: the list of what was read, or
    /// the failure of the first element that is refused, seen from its
    /// index.
    pub open spec fn parse_list(items: Seq<JsonValue>) -> Result<Seq<TimeBoundaryResponseView>, Failure> {
        read_all(items, |j: JsonValue| Self::parse(j))
    }

}

impl TimeBoundaryResponse {
    /// Writes the value in its wire form.
    pub fn encode(&self) -> (j: Json)
        ensures
            j@ == self@.wire(),
    {
        let mut m = no_members();
        put(&mut m, "timestamp", text_json(self.timestamp.as_str()));
        put(&mut m, "result", self.result.encode());
        object_json(m)
    }

    /// Writes each element of a list in its wire form.
    pub fn encode_list(list: &Vec<TimeBoundaryResponse>) -> (items: Vec<Json>)
        ensures
            items_view(items@) == TimeBoundaryResponseView::wire_list(list_view(list@)),
    {
        let mut items: Vec<Json> = Vec::new();
        let mut i: usize = 0;
        while i < list.len()
            invariant
                i <= list.len(),
                items.len() == i,
                forall|k: int| 0 <= k < i ==> items[k]@ == list[k]@.wire(),
            decreases list.len() - i,
        {
            items.push(list[i].encode());
            i += 1;
        }
        assert(items_view(items@) =~= TimeBoundaryResponseView::wire_list(list_view(list@)));
        items
    }

    /// Reads a value from its wire form.
    pub fn decode(j: &Json) -> (r: Result<TimeBoundaryResponse, DecodeError>)
        ensures
            decoded(r) == TimeBoundaryResponseView::parse(j@),
    {
        let m = read_members(j)?;
        Self::decode_members(m)
    }

    /// Reads the members of the object.
    pub fn decode_members(m: &Vec<Member>) -> (r: Result<TimeBoundaryResponse, DecodeError>)
        ensures
            decoded(r) == TimeBoundaryResponseView::parse_members(members_view(m@)),
    {
        let timestamp = text_member(m, "timestamp")?;
        let result = under_key(MinMaxTime::decode(required_field(m, "result")?), "result")?;
        Ok(TimeBoundaryResponse { timestamp, result })
    }

    /// Reads each element of an array from its wire form.
    pub fn decode_list(items: &Vec<Json>) -> (r: Result<Vec<TimeBoundaryResponse>, DecodeError>)
        ensures
            decoded_list(r) == TimeBoundaryResponseView::parse_list(items_view(items@)),
    {
        let ghost read = |j: JsonValue| TimeBoundaryResponseView::parse(j);
        let mut out: Vec<TimeBoundaryResponse> = Vec::new();
        let mut i: usize = 0;
        while i < items.len()
            invariant
                i <= items.len(),
                out.len() == i,
                read == (|j: JsonValue| TimeBoundaryResponseView::parse(j)),
                forall|k: int|
                0 <= k < i ==>
                    (#[trigger] read(items_view(items@)[k]))
                        == Ok::<TimeBoundaryResponseView, Failure>(out[k]@),
            decreases items.len() - i,
        {
            match TimeBoundaryResponse::decode(&items[i]) {
                Ok(v) => {
                    out.push(v);
                },
                Err(e) => {
                    proof {
                        assert(read(items_view(items@)[i as int]) is Err);
                        lemma_read_all_refused(items_view(items@), read, i as int);
                    }
                    return Err(e.within_index(i));
                },
            }
            i += 1;
        }
        proof {
            lemma_read_all_accepted(items_view(items@), read, list_view(out@));
        }
        Ok(out)
    }
}

/// What the engine knows of one column of a segment.
#[derive(Debug, PartialEq)]
pub struct ColumnDefinition {
    pub column_type: String,
    pub has_multiple_values: bool,
    pub size: usize,
    pub cardinality: Option<JsonNumber>,
    pub min_value: Option<Json>,
    pub max_value: Option<Json>,
    pub error_message: Option<String>,
}

/// Mathematical value of a [`ColumnDefinition`].
pub struct ColumnDefinitionView {
    pub column_type: Seq<char>,
    pub has_multiple_values: bool,
    pub size: usize,
    pub cardinality: Option<NumberValue>,
    pub min_value: Option<JsonValue>,
    pub max_value: Option<JsonValue>,
    pub error_message: Option<Seq<char>>,
}

impl View for ColumnDefinition {
    type V = ColumnDefinitionView;

    open spec fn view(&self) -> ColumnDefinitionView {
        ColumnDefinitionView {
            column_type: self.column_type@,
            has_multiple_values: self.has_multiple_values,
            size: self.size,
            cardinality: opt_view(self.cardinality),
            min_value: opt_view(self.min_value),
            max_value: opt_view(self.max_value),
            error_message: opt_view(self.error_message),
        }
    }
}

impl ColumnDefinitionView {
    /// The wire form.
    pub open spec fn wire(self) -> JsonValue {
        JsonValue::Object(
            Seq::empty()
                .push(member("type"@, text(self.column_type)))
                .push(member("hasMultipleValues"@, flag(self.has_multiple_values)))
                .push(member("size"@, count(self.size)))
                .push(member("cardinality"@, opt_number(self.cardinality)))
                .push(member("minValue"@, opt_json(self.min_value)))
                .push(member("maxValue"@, opt_json(self.max_value)))
                .push(member("errorMessage"@, opt_text(self.error_message))),
        )
    }

    /// The wire form of named entries: an object with one member for
    /// each, in order.
    pub open spec fn wire_named(entries: Seq<(Seq<char>, ColumnDefinitionView)>) -> JsonValue {
        named(entries, |x: ColumnDefinitionView| x.wire())
    }

    /// What an object is read as whose members are named entries.
    pub open spec fn parse_named(j: JsonValue) -> Result<Seq<(Seq<char>, ColumnDefinitionView)>, Failure> {
        as_named(j, |x: JsonValue| Self::parse(x))
    }

    /// What a document is read as.
    pub open spec fn parse(j: JsonValue) -> Result<ColumnDefinitionView, Failure> {
        match as_members(j) {
            Ok(m) => Self::parse_members(m),
            Err(e) => Err(e),
        }
    }

    /// The members of the object, read.
    pub open spec fn parse_members(m: Seq<MemberValue>) -> Result<ColumnDefinitionView, Failure> {
        let column_type = text_field(m, "type"@);
        let has_multiple_values = flag_field(m, "hasMultipleValues"@);
        let size = count_field(m, "size"@);
        let cardinality = opt_number_field(m, "cardinality"@);
        let min_value = opt_json_field(m, "minValue"@);
        let max_value = opt_json_field(m, "maxValue"@);
        let error_message = opt_text_field(m, "errorMessage"@);
        if column_type is Err {
            Err(column_type->Err_0)
        } else if has_multiple_values is Err {
            Err(has_multiple_values->Err_0)
        } else if size is Err {
            Err(size->Err_0)
        } else if cardinality is Err {
            Err(cardinality->Err_0)
        } else if min_value is Err {
            Err(min_value->Err_0)
        } else if max_value is Err {
            Err(max_value->Err_0)
        } else if error_message is Err {
            Err(error_message->Err_0)
        } else {
            Ok(
                ColumnDefinitionView {
                    column_type: column_type->Ok_0,
                    has_multiple_values: has_multiple_values->Ok_0,
                    size: size->Ok_0,
                    cardinality: cardinality->Ok_0,
                    min_value: min_value->Ok_0,
                    max_value: max_value->Ok_0,
                    error_message: error_message->Ok_0,
                },
            )
        }
    }

}

impl ColumnDefinition {
    /// Writes the value in its wire form.
    pub fn encode(&self) -> (j: Json)
        ensures
            j@ == self@.wire(),
    {
        let mut m = no_members();
        put(&mut m, "type", text_json(self.column_type.as_str()));
        put(&mut m, "hasMultipleValues", flag_json(self.has_multiple_values));
        put(&mut m, "size", count_json(self.size));
        put(&mut m, "cardinality", opt_number_json(&self.cardinality));
        put(&mut m, "minValue", opt_json_json(&self.min_value));
        put(&mut m, "maxValue", opt_json_json(&self.max_value));
        put(&mut m, "errorMessage", opt_text_json(&self.error_message));
        object_json(m)
    }

    /// Reads a value from its wire form.
    pub fn decode(j: &Json) -> (r: Result<ColumnDefinition, DecodeError>)
        ensures
            decoded(r) == ColumnDefinitionView::parse(j@),
    {
        let m = read_members(j)?;
        Self::decode_members(m)
    }

    /// Reads the members of the object.
    pub fn decode_members(m: &Vec<Member>) -> (r: Result<ColumnDefinition, DecodeError>)
        ensures
            decoded(r) == ColumnDefinitionView::parse_members(members_view(m@)),
    {
        let column_type = text_member(m, "type")?;
        let has_multiple_values = flag_member(m, "hasMultipleValues")?;
        let size = count_member(m, "size")?;
        let cardinality = opt_number_member(m, "cardinality")?;
        let min_value = opt_json_member(m, "minValue")?;
        let max_value = opt_json_member(m, "maxValue")?;
        let error_message = opt_text_member(m, "errorMessage")?;
        Ok(
            ColumnDefinition {
                column_type,
                has_multiple_values,
                size,
                cardinality,
                min_value,
                max_value,
                error_message,
            },
        )
    }

    /// Writes named entries as an object.
    pub fn encode_named(entries: &Vec<(String, ColumnDefinition)>) -> (j: Json)
        ensures
            j@ == ColumnDefinitionView::wire_named(named_view(entries@)),
    {
        let mut members: Vec<Member> = Vec::new();
        let mut i: usize = 0;
        while i < entries.len()
            invariant
                i <= entries.len(),
                members.len() == i,
                forall|k: int| 0 <= k < i ==> members[k]@ == member(
                    entries[k].0@,
                    entries[k].1@.wire(),
                ),
            decreases entries.len() - i,
        {
            members.push(Member { name: entries[i].0.clone(), value: entries[i].1.encode() });
            i += 1;
        }
        assert(members_view(members@) =~= named_view(entries@).map_values(|e: (Seq<char>, ColumnDefinitionView)| member(
            e.0,
            e.1.wire(),
        )));
        assert(ColumnDefinitionView::wire_named(named_view(entries@))->Object_0 =~= members_view(members@));
        object_json(members)
    }

    /// Reads the members of an object as named entries, each put in
    /// under its name: a name that occurs twice keeps its first place and
    /// its last value, so that what is read holds no name twice.
    pub fn decode_named(j: &Json) -> (r: Result<Vec<(String, ColumnDefinition)>, DecodeError>)
        ensures
            decoded_named(r) == ColumnDefinitionView::parse_named(j@),
            r matches Ok(entries) ==> distinct_names(named_view(entries@)),
    {
        let members = read_members(j)?;
        let ghost all = members_view(members@);
        let ghost read = |x: JsonValue| ColumnDefinitionView::parse(x);
        let mut entries: Vec<(String, ColumnDefinition)> = Vec::new();
        let mut i: usize = 0;
        assert(all.take(0) =~= Seq::empty());
        assert(named_view(entries@) =~= Seq::empty());
        while i < members.len()
            invariant
                i <= members.len(),
                all == members_view(members@),
                as_members(j@) == Ok::<Seq<MemberValue>, Failure>(all),
                read == (|x: JsonValue| ColumnDefinitionView::parse(x)),
                read_named(all.take(i as int), read)
                    == Ok::<Seq<(Seq<char>, ColumnDefinitionView)>, Failure>(named_view(entries@)),
            decreases members.len() - i,
        {
            proof {
                assert(all.take(i + 1).drop_last() =~= all.take(i as int));
                assert(all.take(i + 1).last() == members[i as int]@);
            }
            match ColumnDefinition::decode(&members[i].value) {
                Ok(v) => {
                    put_entry(&mut entries, members[i].name.clone(), v);
                },
                Err(e) => {
                    proof {
                        lemma_read_named_prefix(all, read, i + 1);
                    }
                    return Err(e.within_key(members[i].name.as_str()));
                },
            }
            i += 1;
        }
        proof {
            assert(all.take(i as int) =~= all);
            lemma_read_named_distinct(all, read);
        }
        Ok(entries)
    }
}

/// What the engine knows of one aggregator of a segment.
#[derive(Debug, PartialEq)]
pub struct AggregatorDefinition {
    pub aggr_type: String,
    pub name: String,
    pub field_name: String,
    pub expression: Option<String>,
}

/// Mathematical value of an [`AggregatorDefinition`].
pub struct AggregatorDefinitionView {
    pub aggr_type: Seq<char>,
    pub name: Seq<char>,
    pub field_name: Seq<char>,
    pub expression: Option<Seq<char>>,
}

impl View for AggregatorDefinition {
    type V = AggregatorDefinitionView;

    open spec fn view(&self) -> AggregatorDefinitionView {
        AggregatorDefinitionView {
            aggr_type: self.aggr_type@,
            name: self.name@,
            field_name: self.field_name@,
            expression: opt_view(self.expression),
        }
    }
}

impl AggregatorDefinitionView {
    /// The wire form.
    pub open spec fn wire(self) -> JsonValue {
        JsonValue::Object(
            Seq::empty()
                .push(member("type"@, text(self.aggr_type)))
                .push(member("name"@, text(self.name)))
                .push(member("fieldName"@, text(self.field_name)))
                .push(member("expression"@, opt_text(self.expression))),
        )
    }

    /// The wire form of named entries: an object with one member for
    /// each, in order.
    pub open spec fn wire_named(entries: Seq<(Seq<char>, AggregatorDefinitionView)>) -> JsonValue {
        named(entries, |x: AggregatorDefinitionView| x.wire())
    }

    /// What an object is read as whose members are named entries.
    pub open spec fn parse_named(j: JsonValue) -> Result<Seq<(Seq<char>, AggregatorDefinitionView)>, Failure> {
        as_named(j, |x: JsonValue| Self::parse(x))
    }

    /// What a document is read as.
    pub open spec fn parse(j: JsonValue) -> Result<AggregatorDefinitionView, Failure> {
        match as_members(j) {
            Ok(m) => Self::parse_members(m),
            Err(e) => Err(e),
        }
    }

    /// The members of the object, read.
    pub open spec fn parse_members(m: Seq<MemberValue>) -> Result<AggregatorDefinitionView, Failure> {
        let aggr_type = text_field(m, "type"@);
        let name = text_field(m, "name"@);
        let field_name = text_field(m, "fieldName"@);
        let expression = opt_text_field(m, "expression"@);
        if aggr_type is Err {
            Err(aggr_type->Err_0)
        } else if name is Err {
            Err(name->Err_0)
        } else if field_name is Err {
            Err(field_name->Err_0)
        } else if expression is Err {
            Err(expression->Err_0)
        } else {
            Ok(
                AggregatorDefinitionView {
                    aggr_type: aggr_type->Ok_0,
                    name: name->Ok_0,
                    field_name: field_name->Ok_0,
                    expression: expression->Ok_0,
                },
            )
        }
    }

}

impl AggregatorDefinition {
    /// Writes the value in its wire form.
    pub fn encode(&self) -> (j: Json)
        ensures
            j@ == self@.wire(),
    {
        let mut m = no_members();
        put(&mut m, "type", text_json(self.aggr_type.as_str()));
        put(&mut m, "name", text_json(self.name.as_str()));
        put(&mut m, "fieldName", text_json(self.field_name.as_str()));
        put(&mut m, "expression", opt_text_json(&self.expression));
        object_json(m)
    }

    /// Reads a value from its wire form.
    pub fn decode(j: &Json) -> (r: Result<AggregatorDefinition, DecodeError>)
        ensures
            decoded(r) == AggregatorDefinitionView::parse(j@),
    {
        let m = read_members(j)?;
        Self::decode_members(m)
    }

    /// Reads the members of the object.
    pub fn decode_members(m: &Vec<Member>) -> (r: Result<AggregatorDefinition, DecodeError>)
        ensures
            decoded(r) == AggregatorDefinitionView::parse_members(members_view(m@)),
    {
        let aggr_type = text_member(m, "type")?;
        let name = text_member(m, "name")?;
        let field_name = text_member(m, "fieldName")?;
        let expression = opt_text_member(m, "expression")?;
        Ok(AggregatorDefinition { aggr_type, name, field_name, expression })
    }

    /// Writes named entries as an object.
    pub fn encode_named(entries: &Vec<(String, AggregatorDefinition)>) -> (j: Json)
        ensures
            j@ == AggregatorDefinitionView::wire_named(named_view(entries@)),
    {
        let mut members: Vec<Member> = Vec::new();
        let mut i: usize = 0;
        while i < entries.len()
            invariant
                i <= entries.len(),
                members.len() == i,
                forall|k: int| 0 <= k < i ==> members[k]@ == member(
                    entries[k].0@,
                    entries[k].1@.wire(),
                ),
            decreases entries.len() - i,
        {
            members.push(Member { name: entries[i].0.clone(), value: entries[i].1.encode() });
            i += 1;
        }
        assert(members_view(members@) =~= named_view(entries@).map_values(|e: (Seq<char>, AggregatorDefinitionView)| member(
            e.0,
            e.1.wire(),
        )));
        assert(AggregatorDefinitionView::wire_named(named_view(entries@))->Object_0 =~= members_view(members@));
        object_json(members)
    }

    /// Reads the members of an object as named entries, each put in
    /// under its name: a name that occurs twice keeps its first place and
    /// its last value, so that what is read holds no name twice.
    pub fn decode_named(j: &Json) -> (r: Result<Vec<(String, AggregatorDefinition)>, DecodeError>)
        ensures
            decoded_named(r) == AggregatorDefinitionView::parse_named(j@),
            r matches Ok(entries) ==> distinct_names(named_view(entries@)),
    {
        let members = read_members(j)?;
        let ghost all = members_view(members@);
        let ghost read = |x: JsonValue| AggregatorDefinitionView::parse(x);
        let mut entries: Vec<(String, AggregatorDefinition)> = Vec::new();
        let mut i: usize = 0;
        assert(all.take(0) =~= Seq::empty());
        assert(named_view(entries@) =~= Seq::empty());
        while i < members.len()
            invariant
                i <= members.len(),
                all == members_view(members@),
                as_members(j@) == Ok::<Seq<MemberValue>, Failure>(all),
                read == (|x: JsonValue| AggregatorDefinitionView::parse(x)),
                read_named(all.take(i as int), read)
                    == Ok::<Seq<(Seq<char>, AggregatorDefinitionView)>, Failure>(named_view(entries@)),
            decreases members.len() - i,
        {
            proof {
                assert(all.take(i + 1).drop_last() =~= all.take(i as int));
                assert(all.take(i + 1).last() == members[i as int]@);
            }
            match AggregatorDefinition::decode(&members[i].value) {
                Ok(v) => {
                    put_entry(&mut entries, members[i].name.clone(), v);
                },
                Err(e) => {
                    proof {
                        lemma_read_named_prefix(all, read, i + 1);
                    }
                    return Err(e.within_key(members[i].name.as_str()));
                },
            }
            i += 1;
        }
        proof {
            assert(all.take(i as int) =~= all);
            lemma_read_named_distinct(all, read);
        }
        Ok(entries)
    }
}

/// How the time of a row was read when the segment was built.
#[derive(Debug, PartialEq)]
pub struct TimestampSpec {
    pub column: String,
    pub format: String,
    pub missing_value: Option<String>,
}

/// Mathematical value of a [`TimestampSpec`].
pub struct TimestampSpecView {
    pub column: Seq<char>,
    pub format: Seq<char>,
    pub missing_value: Option<Seq<char>>,
}

impl View for TimestampSpec {
    type V = TimestampSpecView;

    open spec fn view(&self) -> TimestampSpecView {
        TimestampSpecView {
            column: self.column@,
            format: self.format@,
            missing_value: opt_view(self.missing_value),
        }
    }
}

impl TimestampSpecView {
    /// The wire form.
    pub open spec fn wire(self) -> JsonValue {
        JsonValue::Object(
            Seq::empty()
                .push(member("column"@, text(self.column)))
                .push(member("format"@, text(self.format)))
                .push(member("missingValue"@, opt_text(self.missing_value))),
        )
    }

    /// What a document is read as.
    pub open spec fn parse(j: JsonValue) -> Result<TimestampSpecView, Failure> {
        match as_members(j) {
            Ok(m) => Self::parse_members(m),
            Err(e) => Err(e),
        }
    }

    /// The members of the object, read.
    pub open spec fn parse_members(m: Seq<MemberValue>) -> Result<TimestampSpecView, Failure> {
        let column = text_field(m, "column"@);
        let format = text_field(m, "format"@);
        let missing_value = opt_text_field(m, "missingValue"@);
        if column is Err {
            Err(column->Err_0)
        } else if format is Err {
            Err(format->Err_0)
        } else if missing_value is Err {
            Err(missing_value->Err_0)
        } else {
            Ok(
                TimestampSpecView {
                    column: column->Ok_0,
                    format: format->Ok_0,
                    missing_value: missing_value->Ok_0,
                },
            )
        }
    }

}

impl TimestampSpec {
    /// Writes the value in its wire form.
    pub fn encode(&self) -> (j: Json)
        ensures
            j@ == self@.wire(),
    {
        let mut m = no_members();
        put(&mut m, "column", text_json(self.column.as_str()));
        put(&mut m, "format", text_json(self.format.as_str()));
        put(&mut m, "missingValue", opt_text_json(&self.missing_value));
        object_json(m)
    }

    /// Reads a value from its wire form.
    pub fn decode(j: &Json) -> (r: Result<TimestampSpec, DecodeError>)
        ensures
            decoded(r) == TimestampSpecView::parse(j@),
    {
        let m = read_members(j)?;
        Self::decode_members(m)
    }

    /// Reads the members of the object.
    pub fn decode_members(m: &Vec<Member>) -> (r: Result<TimestampSpec, DecodeError>)
        ensures
            decoded(r) == TimestampSpecView::parse_members(members_view(m@)),
    {
        let column = text_member(m, "column")?;
        let format = text_member(m, "format")?;
        let missing_value = opt_text_member(m, "missingValue")?;
        Ok(TimestampSpec { column, format, missing_value })
    }
}

/// What the engine answers a segment-metadata query with. The intervals and the aggregators may be absent or `null`, and are empty then.
#[derive(Debug, PartialEq)]
pub struct SegmentMetadataResponse {
    pub id: String,
    pub intervals: Vec<String>,
    pub columns: Vec<(String, ColumnDefinition)>,
    /// The granularity of the segment. It is read from its name, from an object whose `type` is its name, or from its structured form.
    pub query_granularity: Granularity,
    pub rollup: Option<bool>,
    pub size: Option<usize>,
    pub num_rows: Option<usize>,
    pub timestamp_spec: TimestampSpec,
    pub aggregators: Vec<(String, AggregatorDefinition)>,
}

/// Mathematical value of a [`SegmentMetadataResponse`].
pub struct SegmentMetadataResponseView {
    pub id: Seq<char>,
    pub intervals: Seq<Seq<char>>,
    pub columns: Seq<(Seq<char>, ColumnDefinitionView)>,
    pub query_granularity: GranularityView,
    pub rollup: Option<bool>,
    pub size: Option<usize>,
    pub num_rows: Option<usize>,
    pub timestamp_spec: TimestampSpecView,
    pub aggregators: Seq<(Seq<char>, AggregatorDefinitionView)>,
}

impl View for SegmentMetadataResponse {
    type V = SegmentMetadataResponseView;

    open spec fn view(&self) -> SegmentMetadataResponseView {
        SegmentMetadataResponseView {
            id: self.id@,
            intervals: strings_view(self.intervals@),
            columns: named_view(self.columns@),
            query_granularity: self.query_granularity@,
            rollup: self.rollup,
            size: self.size,
            num_rows: self.num_rows,
            timestamp_spec: self.timestamp_spec@,
            aggregators: named_view(self.aggregators@),
        }
    }
}

impl SegmentMetadataResponseView {
    /// The wire form.
    pub open spec fn wire(self) -> JsonValue {
        JsonValue::Object(
            Seq::empty()
                .push(member("id"@, text(self.id)))
                .push(member("intervals"@, texts(self.intervals)))
                .push(member("columns"@, ColumnDefinitionView::wire_named(self.columns)))
                .push(member("queryGranularity"@, self.query_granularity.wire()))
                .push(member("rollup"@, opt_flag(self.rollup)))
                .push(member("size"@, opt_count(self.size)))
                .push(member("numRows"@, opt_count(self.num_rows)))
                .push(member("timestampSpec"@, self.timestamp_spec.wire()))
                .push(
                    member("aggregators"@, AggregatorDefinitionView::wire_named(self.aggregators)),
                ),
        )
    }

    /// The wire forms of the elements of a list.
    pub open spec fn wire_list(list: Seq<SegmentMetadataResponseView>) -> Seq<JsonValue> {
        list.map_values(|x: SegmentMetadataResponseView| x.wire())
    }

    /// What a document is read as that is an array of these.
    pub open spec fn parse_all(j: JsonValue) -> Result<Seq<SegmentMetadataResponseView>, Failure> {
        match as_items(j) {
            Ok(items) => Self::parse_list(items),
            Err(e) => Err(e),
        }
    }

    /// What a document is read as.
    pub open spec fn parse(j: JsonValue) -> Result<SegmentMetadataResponseView, Failure> {
        match as_members(j) {
            Ok(m) => Self::parse_members(m),
            Err(e) => Err(e),
        }
    }

    /// The members of the object, read.
    pub open spec fn parse_members(m: Seq<MemberValue>) -> Result<SegmentMetadataResponseView, Failure> {
        let id = text_field(m, "id"@);
        let intervals = texts_or_empty_field(m, "intervals"@);
        let columns = match required(m, "columns"@) {
            Ok(v) => under("columns"@, ColumnDefinitionView::parse_named(v)),
            Err(e) => Err(e),
        };
        let query_granularity = field_with(
            m,
            "queryGranularity"@,
            |v: JsonValue| GranularityView::parse_either(v),
        );
        let rollup = opt_flag_field(m, "rollup"@);
        let size = opt_count_field(m, "size"@);
        let num_rows = opt_count_field(m, "numRows"@);
        let timestamp_spec = field_with(
            m,
            "timestampSpec"@,
            |v: JsonValue| TimestampSpecView::parse(v),
        );
        let aggregators = match present(m, "aggregators"@) {
            Some(v) => under("aggregators"@, AggregatorDefinitionView::parse_named(v)),
            None => Ok(Seq::empty()),
        };
        if id is Err {
            Err(id->Err_0)
        } else if intervals is Err {
            Err(intervals->Err_0)
        } else if columns is Err {
            Err(columns->Err_0)
        } else if query_granularity is Err {
            Err(query_granularity->Err_0)
        } else if rollup is Err {
            Err(rollup->Err_0)
        } else if size is Err {
            Err(size->Err_0)
        } else if num_rows is Err {
            Err(num_rows->Err_0)
        } else if timestamp_spec is Err {
            Err(timestamp_spec->Err_0)
        } else if aggregators is Err {
            Err(aggregators->Err_0)
        } else {
            Ok(
                SegmentMetadataResponseView {
                    id: id->Ok_0,
                    intervals: intervals->Ok_0,
                    columns: columns->Ok_0,
                    query_granularity: query_granularity->Ok_0,
                    rollup: rollup->Ok_0,
                    size: size->Ok_0,
                    num_rows: num_rows->Ok_0,
                    timestamp_spec: timestamp_spec->Ok_0,
                    aggregators: aggregators->Ok_0,
                },
            )
        }
    }

    /// Every element of an array, read: the list of what was read, or
    /// the failure of the first element that is refused, seen from its
    /// index.
    pub open spec fn parse_list(items: Seq<JsonValue>) -> Result<Seq<SegmentMetadataResponseView>, Failure> {
        read_all(items, |j: JsonValue| Self::parse(j))
    }

}

impl SegmentMetadataResponse {
    /// Writes the value in its wire form.
    pub fn encode(&self) -> (j: Json)
        ensures
            j@ == self@.wire(),
    {
        let mut m = no_members();
        put(&mut m, "id", text_json(self.id.as_str()));
        put(&mut m, "intervals", texts_json(&self.intervals));
        put(&mut m, "columns", ColumnDefinition::encode_named(&self.columns));
        put(&mut m, "queryGranularity", self.query_granularity.encode());
        put(&mut m, "rollup", opt_flag_json(self.rollup));
        put(&mut m, "size", opt_count_json(self.size));
        put(&mut m, "numRows", opt_count_json(self.num_rows));
        put(&mut m, "timestampSpec", self.timestamp_spec.encode());
        put(&mut m, "aggregators", AggregatorDefinition::encode_named(&self.aggregators));
        object_json(m)
    }

    /// Writes each element of a list in its wire form.
    pub fn encode_list(list: &Vec<SegmentMetadataResponse>) -> (items: Vec<Json>)
        ensures
            items_view(items@) == SegmentMetadataResponseView::wire_list(list_view(list@)),
    {
        let mut items: Vec<Json> = Vec::new();
        let mut i: usize = 0;
        while i < list.len()
            invariant
                i <= list.len(),
                items.len() == i,
                forall|k: int| 0 <= k < i ==> items[k]@ == list[k]@.wire(),
            decreases list.len() - i,
        {
            items.push(list[i].encode());
            i += 1;
        }
        assert(items_view(items@) =~= SegmentMetadataResponseView::wire_list(list_view(list@)));
        items
    }

    /// Reads a value from its wire form.
    pub fn decode(j: &Json) -> (r: Result<SegmentMetadataResponse, DecodeError>)
        ensures
            decoded(r) == SegmentMetadataResponseView::parse(j@),
    {
        let m = read_members(j)?;
        Self::decode_members(m)
    }

    /// Reads the members of the object.
    pub fn decode_members(m: &Vec<Member>) -> (r: Result<SegmentMetadataResponse, DecodeError>)
        ensures
            decoded(r) == SegmentMetadataResponseView::parse_members(members_view(m@)),
    {
        let id = text_member(m, "id")?;
        let intervals = texts_or_empty_member(m, "intervals")?;
        let columns = under_key(
            ColumnDefinition::decode_named(required_field(m, "columns")?),
            "columns",
        )?;
        let query_granularity = under_key(
            Granularity::decode_either(required_field(m, "queryGranularity")?),
            "queryGranularity",
        )?;
        let rollup = opt_flag_member(m, "rollup")?;
        let size = opt_count_member(m, "size")?;
        let num_rows = opt_count_member(m, "numRows")?;
        let timestamp_spec = under_key(
            TimestampSpec::decode(required_field(m, "timestampSpec")?),
            "timestampSpec",
        )?;
        let aggregators = match present_field(m, "aggregators") {
            Some(v) => under_key(AggregatorDefinition::decode_named(v), "aggregators")?,
            None => no_entries(),
        };
        Ok(
            SegmentMetadataResponse {
                id,
                intervals,
                columns,
                query_granularity,
                rollup,
                size,
                num_rows,
                timestamp_spec,
                aggregators,
            },
        )
    }

    /// Reads each element of an array from its wire form.
    pub fn decode_list(items: &Vec<Json>) -> (r: Result<Vec<SegmentMetadataResponse>, DecodeError>)
        ensures
            decoded_list(r) == SegmentMetadataResponseView::parse_list(items_view(items@)),
    {
        let ghost read = |j: JsonValue| SegmentMetadataResponseView::parse(j);
        let mut out: Vec<SegmentMetadataResponse> = Vec::new();
        let mut i: usize = 0;
        while i < items.len()
            invariant
                i <= items.len(),
                out.len() == i,
                read == (|j: JsonValue| SegmentMetadataResponseView::parse(j)),
                forall|k: int|
                0 <= k < i ==>
                    (#[trigger] read(items_view(items@)[k]))
                        == Ok::<SegmentMetadataResponseView, Failure>(out[k]@),
            decreases items.len() - i,
        {
            match SegmentMetadataResponse::decode(&items[i]) {
                Ok(v) => {
                    out.push(v);
                },
                Err(e) => {
                    proof {
                        assert(read(items_view(items@)[i as int]) is Err);
                        lemma_read_all_refused(items_view(items@), read, i as int);
                    }
                    return Err(e.within_index(i));
                },
            }
            i += 1;
        }
        proof {
            lemma_read_all_accepted(items_view(items@), read, list_view(out@));
        }
        Ok(out)
    }
}

} // verus!
