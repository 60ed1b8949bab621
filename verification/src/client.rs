//! The exchange with the engine, as far as it is computed: the address a
//! query is sent to, the text that is sent, and what the text that comes
//! back is read as. Sending and receiving are left to the caller.

use vstd::prelude::*;
use vstd::string::{StrSliceExecFns, StringExecFns};
use crate::codec::{as_items, field, read_items};
use crate::error::{CodecError, CodecErrorValue, DecodeCause, DecodeError, Failure};
use crate::json::{items_view, lemma_object_view, lookup, Json, JsonValue};
use crate::query::any_query::Query;
use crate::query::response::{
    decode_records, records_read, DimValue, DruidListResponse, GroupByResponse, MetadataResponse,
    ScanResponse, SearchResponse, SegmentMetadataResponse, SegmentMetadataResponseView,
    TimeBoundaryResponse, TimeBoundaryResponseView, TimeseriesResponse, TopNResponse,
};
use crate::codec::list_view;
use crate::string_map::StringMap;
use crate::text::{document_text, normal_form, parsed_document};

verus! {

/// The address of an endpoint below a base address: the two with exactly
/// one `/` put between them where the base does not end in one.
pub open spec fn endpoint_address(url: Seq<char>, endpoint: Seq<char>) -> Seq<char> {
    if url.len() > 0 && url.last() == '/' {
        url + endpoint
    } else {
        url.push('/') + endpoint
    }
}

/// The address of `endpoint` below `url`.
pub fn endpoint_url(url: &str, endpoint: &str) -> (address: String)
    ensures
        address@ == endpoint_address(url@, endpoint@),
{
    let n = url.unicode_len();
    let mut address = String::from_str(url);
    let ends_in_slash = n > 0 && url.get_char(n - 1) == '/';
    if !ends_in_slash {
        address.append("/");
        proof {
            reveal_strlit("/");
            assert(address@ =~= url@.push('/'));
        }
    }
    address.append(endpoint);
    address
}

/// Whether a document is a failure report of the engine: an object with a
/// member `error`.
pub open spec fn reports_error(tree: JsonValue) -> bool {
    tree matches JsonValue::Object(members) && lookup(members, "error"@) is Some
}

/// What a text that came back is taken as: its document, a syntax
/// failure where it is none, and a remote error, with the text as it
/// came, where the document is a failure report.
pub open spec fn answer_document(text: Seq<char>) -> Result<JsonValue, CodecErrorValue> {
    match parsed_document(text) {
        Some(tree) => if reports_error(tree) {
            Err(CodecErrorValue::RemoteError(text))
        } else {
            Ok(tree)
        },
        None => Err(CodecErrorValue::DecodeFailure(Failure::here(DecodeCause::Syntax))),
    }
}

/// Whether a document is a failure report of the engine.
pub fn is_error_report(j: &Json) -> (b: bool)
    ensures
        b == reports_error(j@),
{
    match j {
        Json::Object(members) => {
            proof {
                lemma_object_view(*members);
            }
            field(members, "error").is_some()
        },
        _ => false,
    }
}

/// Reads the text of an answer. A document with a member `error` at the
/// top is a remote error, whatever else it holds.
pub fn response_document(text: &str) -> (r: Result<Json, CodecError>)
    ensures
        match r {
            Ok(j) => answer_document(text@) == Ok::<JsonValue, CodecErrorValue>(j@),
            Err(e) => answer_document(text@) == Err::<JsonValue, CodecErrorValue>(e@),
        },
{
    match Json::from_text(text) {
        Ok(j) => {
            if is_error_report(&j) {
                Err(CodecError::RemoteError { document: text.to_string() })
            } else {
                Ok(j)
            }
        },
        Err(e) => Err(CodecError::DecodeFailure(e)),
    }
}

/// A decode result as a result of the exchange.
pub fn exchanged<T>(r: Result<T, DecodeError>) -> (out: Result<T, CodecError>)
    ensures
        match (r, out) {
            (Ok(a), Ok(b)) => a == b,
            (Err(e), Err(f)) => f@ == CodecErrorValue::DecodeFailure(e@),
            _ => false,
        },
{
    match r {
        Ok(v) => Ok(v),
        Err(e) => Err(CodecError::DecodeFailure(e)),
    }
}

impl Query {
    /// The text that is sent for the query: the text of its wire form. A
    /// wire form that cannot be written is an encode failure.
    pub fn to_text(&self) -> (r: Result<String, CodecError>)
        ensures
            match normal_form(self@.wire()) {
                Some(tree) => r matches Ok(text) && text@ == document_text(tree),
                None => r matches Err(e) && e@ == CodecErrorValue::EncodeFailure,
            },
    {
        self.encode().to_text()
    }
}

/// Reads the answer to any query as a list of records.
pub fn query_response<T, F: Fn(&Json) -> Result<T, DecodeError>>(
    text: &str,
    record: &F,
) -> (r: Result<
    Vec<T>,
    CodecError,
>)
    requires
        forall|x: &Json| call_requires(*record, (x,)),
    ensures
        match answer_document(text@) {
            Ok(tree) => match as_items(tree) {
                Ok(items) => match r {
                    Ok(out) => records_read(*record, items, Ok::<Vec<T>, DecodeError>(out)),
                    Err(e) => exists|inner: DecodeError|
                        #[trigger] records_read(*record, items, Err::<Vec<T>, DecodeError>(inner))
                            && e@ == CodecErrorValue::DecodeFailure(inner@),
                },
                Err(f) => r matches Err(e) && e@ == CodecErrorValue::DecodeFailure(f),
            },
            Err(f) => r matches Err(e) && e@ == f,
        },
{
    let j = response_document(text)?;
    let items = match read_items(&j) {
        Ok(items) => items,
        Err(e) => {
            return Err(CodecError::DecodeFailure(e));
        },
    };
    match decode_records(items, record) {
        Ok(out) => Ok(out),
        Err(inner) => {
            proof {
                assert(as_items(j@)->Ok_0 == items_view(items@));
                assert(records_read(
                    *record,
                    items_view(items@),
                    Err::<Vec<T>, DecodeError>(inner),
                ));
            }
            Err(CodecError::DecodeFailure(inner))
        },
    }
}

/// Reads the answer to a top-N query.
pub fn top_n_response<T, F: Fn(&Json) -> Result<T, DecodeError>>(
    text: &str,
    record: &F,
) -> (r: Result<Vec<TopNResponse<T>>, CodecError>)
    requires
        forall|x: &Json| call_requires(*record, (x,)),
    ensures
        match answer_document(text@) {
            Ok(tree) => match r {
                Ok(out) => DruidListResponse::read_list(
                    *record,
                    tree,
                    Ok::<Vec<TopNResponse<T>>, DecodeError>(out),
                ),
                Err(e) => exists|inner: DecodeError|
                    #[trigger] DruidListResponse::read_list(
                        *record,
                        tree,
                        Err::<Vec<TopNResponse<T>>, DecodeError>(inner),
                    )
                        && e@ == CodecErrorValue::DecodeFailure(inner@),
            },
            Err(f) => r matches Err(e) && e@ == f,
        },
{
    let j = response_document(text)?;
    match DruidListResponse::decode_list(&j, record) {
        Ok(out) => Ok(out),
        Err(inner) => {
            proof {
                assert(DruidListResponse::read_list(
                    *record,
                    j@,
                    Err::<Vec<TopNResponse<T>>, DecodeError>(inner),
                ));
            }
            Err(CodecError::DecodeFailure(inner))
        },
    }
}

/// Reads the answer to a group-by query.
pub fn group_by_response<T, F: Fn(&Json) -> Result<T, DecodeError>>(
    text: &str,
    record: &F,
) -> (r: Result<Vec<GroupByResponse<T>>, CodecError>)
    requires
        forall|x: &Json| call_requires(*record, (x,)),
    ensures
        match answer_document(text@) {
            Ok(tree) => match r {
                Ok(out) => GroupByResponse::read_list(
                    *record,
                    tree,
                    Ok::<Vec<GroupByResponse<T>>, DecodeError>(out),
                ),
                Err(e) => exists|inner: DecodeError|
                    #[trigger] GroupByResponse::read_list(
                        *record,
                        tree,
                        Err::<Vec<GroupByResponse<T>>, DecodeError>(inner),
                    )
                        && e@ == CodecErrorValue::DecodeFailure(inner@),
            },
            Err(f) => r matches Err(e) && e@ == f,
        },
{
    let j = response_document(text)?;
    match GroupByResponse::decode_list(&j, record) {
        Ok(out) => Ok(out),
        Err(inner) => {
            proof {
                assert(GroupByResponse::read_list(
                    *record,
                    j@,
                    Err::<Vec<GroupByResponse<T>>, DecodeError>(inner),
                ));
            }
            Err(CodecError::DecodeFailure(inner))
        },
    }
}

/// Reads the answer to a scan query.
pub fn scan_response<T, F: Fn(&Json) -> Result<T, DecodeError>>(
    text: &str,
    record: &F,
) -> (r: Result<Vec<ScanResponse<T>>, CodecError>)
    requires
        forall|x: &Json| call_requires(*record, (x,)),
    ensures
        match answer_document(text@) {
            Ok(tree) => match r {
                Ok(out) => ScanResponse::read_list(
                    *record,
                    tree,
                    Ok::<Vec<ScanResponse<T>>, DecodeError>(out),
                ),
                Err(e) => exists|inner: DecodeError|
                    #[trigger] ScanResponse::read_list(
                        *record,
                        tree,
                        Err::<Vec<ScanResponse<T>>, DecodeError>(inner),
                    )
                        && e@ == CodecErrorValue::DecodeFailure(inner@),
            },
            Err(f) => r matches Err(e) && e@ == f,
        },
{
    let j = response_document(text)?;
    match ScanResponse::decode_list(&j, record) {
        Ok(out) => Ok(out),
        Err(inner) => {
            proof {
                assert(ScanResponse::read_list(
                    *record,
                    j@,
                    Err::<Vec<ScanResponse<T>>, DecodeError>(inner),
                ));
            }
            Err(CodecError::DecodeFailure(inner))
        },
    }
}

/// Reads the answer to a timeseries query.
pub fn timeseries_response<T, F: Fn(&Json) -> Result<T, DecodeError>>(
    text: &str,
    record: &F,
) -> (r: Result<Vec<TimeseriesResponse<T>>, CodecError>)
    requires
        forall|x: &Json| call_requires(*record, (x,)),
    ensures
        match answer_document(text@) {
            Ok(tree) => match r {
                Ok(out) => TimeseriesResponse::read_list(
                    *record,
                    tree,
                    Ok::<Vec<TimeseriesResponse<T>>, DecodeError>(out),
                ),
                Err(e) => exists|inner: DecodeError|
                    #[trigger] TimeseriesResponse::read_list(
                        *record,
                        tree,
                        Err::<Vec<TimeseriesResponse<T>>, DecodeError>(inner),
                    )
                        && e@ == CodecErrorValue::DecodeFailure(inner@),
            },
            Err(f) => r matches Err(e) && e@ == f,
        },
{
    let j = response_document(text)?;
    match TimeseriesResponse::decode_list(&j, record) {
        Ok(out) => Ok(out),
        Err(inner) => {
            proof {
                assert(TimeseriesResponse::read_list(
                    *record,
                    j@,
                    Err::<Vec<TimeseriesResponse<T>>, DecodeError>(inner),
                ));
            }
            Err(CodecError::DecodeFailure(inner))
        },
    }
}

/// Reads the answer to a search query.
pub fn search_response(text: &str) -> (r: Result<Vec<SearchResponse>, CodecError>)
    ensures
        match answer_document(text@) {
            Ok(tree) => match r {
                Ok(out) => DruidListResponse::read_list(
                    DimValue::decode,
                    tree,
                    Ok::<Vec<SearchResponse>, DecodeError>(out),
                ),
                Err(e) => exists|inner: DecodeError|
                    #[trigger] DruidListResponse::read_list(
                        DimValue::decode,
                        tree,
                        Err::<Vec<SearchResponse>, DecodeError>(inner),
                    )
                        && e@ == CodecErrorValue::DecodeFailure(inner@),
            },
            Err(f) => r matches Err(e) && e@ == f,
        },
{
    let j = response_document(text)?;
    match DruidListResponse::decode_list(&j, &DimValue::decode) {
        Ok(out) => Ok(out),
        Err(inner) => {
            proof {
                assert(DruidListResponse::read_list(
                    DimValue::decode,
                    j@,
                    Err::<Vec<SearchResponse>, DecodeError>(inner),
                ));
            }
            Err(CodecError::DecodeFailure(inner))
        },
    }
}

/// Reads the answer to a data-source-metadata query.
pub fn datasource_metadata_response(text: &str) -> (r: Result<Vec<MetadataResponse<StringMap>>, CodecError>)
    ensures
        match answer_document(text@) {
            Ok(tree) => match r {
                Ok(out) => MetadataResponse::read_list(
                    StringMap::decode,
                    tree,
                    Ok::<Vec<MetadataResponse<StringMap>>, DecodeError>(out),
                ),
                Err(e) => exists|inner: DecodeError|
                    #[trigger] MetadataResponse::read_list(
                        StringMap::decode,
                        tree,
                        Err::<Vec<MetadataResponse<StringMap>>, DecodeError>(inner),
                    )
                        && e@ == CodecErrorValue::DecodeFailure(inner@),
            },
            Err(f) => r matches Err(e) && e@ == f,
        },
{
    let j = response_document(text)?;
    match MetadataResponse::decode_list(&j, &StringMap::decode) {
        Ok(out) => Ok(out),
        Err(inner) => {
            proof {
                assert(MetadataResponse::read_list(
                    StringMap::decode,
                    j@,
                    Err::<Vec<MetadataResponse<StringMap>>, DecodeError>(inner),
                ));
            }
            Err(CodecError::DecodeFailure(inner))
        },
    }
}

/// Reads the answer to a time-boundary query.
pub fn time_boundary_response(text: &str) -> (r: Result<Vec<TimeBoundaryResponse>, CodecError>)
    ensures
        match answer_document(text@) {
            Ok(tree) => match TimeBoundaryResponseView::parse_all(tree) {
                Ok(list) => r matches Ok(out) && list_view(out@) == list,
                Err(f) => r matches Err(e) && e@ == CodecErrorValue::DecodeFailure(f),
            },
            Err(f) => r matches Err(e) && e@ == f,
        },
{
    let j = response_document(text)?;
    let items = match read_items(&j) {
        Ok(items) => items,
        Err(e) => {
            return Err(CodecError::DecodeFailure(e));
        },
    };
    exchanged(TimeBoundaryResponse::decode_list(items))
}

/// Reads the answer to a segment-metadata query.
pub fn segment_metadata_response(text: &str) -> (r: Result<Vec<SegmentMetadataResponse>, CodecError>)
    ensures
        match answer_document(text@) {
            Ok(tree) => match SegmentMetadataResponseView::parse_all(tree) {
                Ok(list) => r matches Ok(out) && list_view(out@) == list,
                Err(f) => r matches Err(e) && e@ == CodecErrorValue::DecodeFailure(f),
            },
            Err(f) => r matches Err(e) && e@ == f,
        },
{
    let j = response_document(text)?;
    let items = match read_items(&j) {
        Ok(items) => items,
        Err(e) => {
            return Err(CodecError::DecodeFailure(e));
        },
    };
    exchanged(SegmentMetadataResponse::decode_list(items))
}

} // verus!
