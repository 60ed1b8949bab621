//! The scan query, and a builder for it.

use vstd::prelude::*;
use crate::codec::{
    array_json, as_members, as_text, count, count_field, count_json, count_member, items_field,
    items_member, lemma_lookup_smaller, lemma_texts_round_trip, list_view, member, no_members,
    object_json, opt_count, opt_count_field, opt_count_json, opt_count_member, opt_view,
    present, present_field, put, read_members, read_str, required, required_field,
    strings_view, text, text_field, text_json, text_member, texts, texts_field, texts_json,
    texts_member, under, under_key,
};
use crate::error::{decoded, DecodeCause, DecodeError, Failure};
use crate::json::{
    lemma_lookup_empty, lemma_lookup_push, members_view, str_eq, Json, JsonValue, Member,
    MemberValue,
};
use crate::query::definitions::filters::{Filter, FilterView};
use crate::query::definitions::intervals::{Interval, IntervalView};
use crate::query::definitions::ordering::SortDirection;
use crate::query::definitions::virtual_columns::{VirtualColumn, VirtualColumnView};
use crate::query::{DataSource, DataSourceView};
use crate::string_map::{
    distinct_keys,
    lemma_map_round_trip,
    map_parse,
    map_wire,
    with_entry,
    StringMap,
};

verus! {

/// The shape in which a scan hands out its rows.
#[derive(Clone, Copy, Debug, PartialEq, Eq, Structural)]
pub enum ResultFormat {
    List,
    CompactedList,
    ValueVector,
}

impl View for ResultFormat {
    type V = ResultFormat;

    open spec fn view(&self) -> ResultFormat {
        *self
    }
}

impl ResultFormat {
    /// The name that stands for the value on the wire.
    pub open spec fn name(self) -> Seq<char> {
        match self {
            ResultFormat::List => "list"@,
            ResultFormat::CompactedList => "compactedList"@,
            ResultFormat::ValueVector => "valueVector"@,
        }
    }

    /// The value that a name stands for, if it stands for one.
    pub open spec fn named(s: Seq<char>) -> Option<ResultFormat> {
        if s == "list"@ {
            Some(ResultFormat::List)
        } else if s == "compactedList"@ {
            Some(ResultFormat::CompactedList)
        } else if s == "valueVector"@ {
            Some(ResultFormat::ValueVector)
        } else {
            None
        }
    }

    /// The wire form: the name, as a string.
    pub open spec fn wire(self) -> JsonValue {
        text(self.name())
    }

    /// What a document is read as: a string that is one of the names
    /// gives its value, any other string is an unknown variant, and
    /// anything but a string a type mismatch.
    pub open spec fn parse(j: JsonValue) -> Result<ResultFormat, Failure> {
        match as_text(j) {
            Ok(s) => match Self::named(s) {
                Some(v) => Ok(v),
                None => Err(Failure::here(DecodeCause::UnknownVariant)),
            },
            Err(e) => Err(e),
        }
    }

    /// Writes the value in its wire form.
    pub fn encode(&self) -> (j: Json)
        ensures
            j@ == self.wire(),
    {
        match self {
            ResultFormat::List => text_json("list"),
            ResultFormat::CompactedList => text_json("compactedList"),
            ResultFormat::ValueVector => text_json("valueVector"),
        }
    }

    /// Reads a value from its wire form.
    pub fn decode(j: &Json) -> (r: Result<ResultFormat, DecodeError>)
        ensures
            decoded(r) == Self::parse(j@),
    {
        let s = match read_str(j) {
            Ok(s) => s,
            Err(e) => {
                return Err(e);
            },
        };
        if str_eq(s, "list") {
            Ok(ResultFormat::List)
        } else if str_eq(s, "compactedList") {
            Ok(ResultFormat::CompactedList)
        } else if str_eq(s, "valueVector") {
            Ok(ResultFormat::ValueVector)
        } else {
            Err(DecodeError::here(DecodeCause::UnknownVariant))
        }
    }

    /// Reading back what was written gives the value again.
    pub proof fn lemma_round_trip(self)
        ensures
            Self::parse(self.wire()) == Ok::<ResultFormat, Failure>(self),
    {
        lemma_tags();
    }

    /// A string that is none of the names is refused as an unknown
    /// variant.
    pub proof fn lemma_unknown_name(s: Seq<char>)
        requires
            Self::named(s) is None,
        ensures
            Self::parse(text(s)) == Err::<ResultFormat, Failure>(
                Failure::here(DecodeCause::UnknownVariant),
            ),
    {
    }
}

/// A query for rows as they are stored.
#[derive(Debug, PartialEq)]
pub struct Scan {
    pub data_source: DataSource,
    pub intervals: Vec<Interval>,
    pub result_format: ResultFormat,
    pub filter: Option<Filter>,
    pub columns: Vec<String>,
    pub virtual_columns: Vec<VirtualColumn>,
    pub batch_size: usize,
    pub limit: Option<usize>,
    pub order: SortDirection,
    pub context: StringMap,
}

/// Mathematical value of a [`Scan`].
pub struct ScanView {
    pub data_source: DataSourceView,
    pub intervals: Seq<IntervalView>,
    pub result_format: ResultFormat,
    pub filter: Option<FilterView>,
    pub columns: Seq<Seq<char>>,
    pub virtual_columns: Seq<VirtualColumnView>,
    pub batch_size: usize,
    pub limit: Option<usize>,
    pub order: SortDirection,
    pub context: Seq<(Seq<char>, Seq<char>)>,
}

impl Scan {
    /// The mathematical value.
    pub open spec fn value(self) -> ScanView
        decreases self,
    {
        ScanView {
            data_source: self.data_source.value(),
            intervals: list_view(self.intervals@),
            result_format: self.result_format,
            filter: opt_view(self.filter),
            columns: strings_view(self.columns@),
            virtual_columns: list_view(self.virtual_columns@),
            batch_size: self.batch_size,
            limit: self.limit,
            order: self.order,
            context: self.context@,
        }
    }

    /// The mathematical values of the elements of a list.
    pub open spec fn values(list: Seq<Scan>) -> Seq<ScanView>
        decreases list,
    {
        Seq::new(
            list.len(),
            |i: int| if 0 <= i < list.len() { list[i].value() } else { arbitrary() },
        )
    }

    /// [`Self::values`] is the view of the list.
    pub proof fn lemma_values(list: Seq<Scan>)
        ensures
            Self::values(list) == list_view(list),
    {
        assert(Self::values(list) =~= list_view(list));
    }
}

impl View for Scan {
    type V = ScanView;

    open spec fn view(&self) -> ScanView {
        self.value()
    }
}

impl ScanView {
    /// The wire form.
    pub open spec fn wire(self) -> JsonValue
        decreases self,
    {
        JsonValue::Object(
            Seq::empty()
                .push(member("queryType"@, text("scan"@)))
                .push(member("dataSource"@, self.data_source.wire()))
                .push(
                    member("intervals"@, JsonValue::Array(IntervalView::wire_list(self.intervals))),
                )
                .push(member("resultFormat"@, self.result_format.wire()))
                .push(
                    member(
                        "filter"@,
                        match self.filter { Some(v) => v.wire(), None => JsonValue::Null },
                    ),
                )
                .push(member("columns"@, texts(self.columns)))
                .push(
                    member(
                        "virtualColumns"@,
                        JsonValue::Array(VirtualColumnView::wire_list(self.virtual_columns)),
                    ),
                )
                .push(member("batchSize"@, count(self.batch_size)))
                .push(member("limit"@, opt_count(self.limit)))
                .push(member("order"@, self.order.wire()))
                .push(member("context"@, map_wire(self.context))),
        )
    }

    /// Whether the parts that are not read back whatever they hold are
    /// read back as they are: every interval inside, and every map
    /// inside, which has to hold each key once.
    pub open spec fn reads_back(self) -> bool
        decreases self,
    {
        self.data_source.reads_back()
            && IntervalView::all_read_back(self.intervals)
            && (self.filter matches Some(v) ==> v.reads_back())
            && distinct_keys(self.context)
    }

    /// Whether no timestamp inside holds anything finer than
    /// milliseconds.
    pub open spec fn millisecond_precise(self) -> bool
        decreases self,
    {
        self.data_source.millisecond_precise()
            && IntervalView::all_precise(self.intervals)
    }

    /// What a document is read as.
    pub open spec fn parse(j: JsonValue) -> Result<ScanView, Failure>
        decreases j,
    {
        match as_members(j) {
            Ok(m) => match text_field(m, "queryType"@) {
                Ok(t) => if t == "scan"@ {
                    Self::parse_members(m)
                } else {
                    Err(Failure::here(DecodeCause::UnknownVariant).within_key("queryType"@))
                },
                Err(e) => Err(e),
            },
            Err(e) => Err(e),
        }
    }

    /// The members of the object, read.
    pub open spec fn parse_members(m: Seq<MemberValue>) -> Result<ScanView, Failure>
        decreases m,
    {
        let data_source = match required(m, "dataSource"@) {
            Ok(v) => {
                proof { lemma_lookup_smaller(m, "dataSource"@); }
                under("dataSource"@, DataSourceView::parse(v))
            },
            Err(e) => Err(e),
        };
        let intervals = match items_field(m, "intervals"@) {
            Ok(items) => under("intervals"@, IntervalView::parse_list(items)),
            Err(e) => Err(e),
        };
        let result_format = match required(m, "resultFormat"@) {
            Ok(v) => under("resultFormat"@, ResultFormat::parse(v)),
            Err(e) => Err(e),
        };
        let filter = match present(m, "filter"@) {
            Some(v) => match FilterView::parse(v) {
                Ok(x) => Ok(Some(x)),
                Err(e) => Err(e.within_key("filter"@)),
            },
            None => Ok(None),
        };
        let columns = texts_field(m, "columns"@);
        let virtual_columns = match items_field(m, "virtualColumns"@) {
            Ok(items) => under("virtualColumns"@, VirtualColumnView::parse_list(items)),
            Err(e) => Err(e),
        };
        let batch_size = count_field(m, "batchSize"@);
        let limit = opt_count_field(m, "limit"@);
        let order = match required(m, "order"@) {
            Ok(v) => under("order"@, SortDirection::parse(v)),
            Err(e) => Err(e),
        };
        let context = match required(m, "context"@) {
            Ok(v) => under("context"@, map_parse(v)),
            Err(e) => Err(e),
        };
        if data_source is Err {
            Err(data_source->Err_0)
        } else if intervals is Err {
            Err(intervals->Err_0)
        } else if result_format is Err {
            Err(result_format->Err_0)
        } else if filter is Err {
            Err(filter->Err_0)
        } else if columns is Err {
            Err(columns->Err_0)
        } else if virtual_columns is Err {
            Err(virtual_columns->Err_0)
        } else if batch_size is Err {
            Err(batch_size->Err_0)
        } else if limit is Err {
            Err(limit->Err_0)
        } else if order is Err {
            Err(order->Err_0)
        } else if context is Err {
            Err(context->Err_0)
        } else {
            Ok(
                ScanView {
                    data_source: data_source->Ok_0,
                    intervals: intervals->Ok_0,
                    result_format: result_format->Ok_0,
                    filter: filter->Ok_0,
                    columns: columns->Ok_0,
                    virtual_columns: virtual_columns->Ok_0,
                    batch_size: batch_size->Ok_0,
                    limit: limit->Ok_0,
                    order: order->Ok_0,
                    context: context->Ok_0,
                },
            )
        }
    }

    /// What is written is never `null`.
    pub proof fn lemma_wire_not_null(self)
        ensures
            !(self.wire() is Null),
    {
    }

    /// Reading back what was written gives the value again, if the
    /// intervals and the maps inside are read back as they are.
    pub proof fn lemma_round_trip(self)
        requires
            self.reads_back(),
        ensures
            Self::parse(self.wire()) == Ok::<ScanView, Failure>(self),
            self.wire() is Object,
            Self::parse_members(self.wire()->Object_0) == Ok::<ScanView, Failure>(self),
            text_field(self.wire()->Object_0, "queryType"@) == Ok::<Seq<char>, Failure>("scan"@),
        decreases self,
    {
        self.data_source.lemma_round_trip();
        IntervalView::lemma_list_round_trip(self.intervals);
        if self.filter is Some {
            self.filter->Some_0.lemma_round_trip();
            self.filter->Some_0.lemma_wire_not_null();
        }
        VirtualColumnView::lemma_list_round_trip(self.virtual_columns);
        lemma_map_round_trip(self.context);
        Self::lemma_members(
            self.wire(),
            self.data_source,
            self.data_source.wire(),
            self.intervals,
            IntervalView::wire_list(self.intervals),
            self.result_format,
            self.filter,
            match self.filter { Some(v) => v.wire(), None => JsonValue::Null },
            self.columns,
            self.virtual_columns,
            VirtualColumnView::wire_list(self.virtual_columns),
            self.batch_size,
            self.limit,
            self.order,
            self.context,
            map_wire(self.context),
        );
    }

    /// The members that are written are read back as the value, given
    /// that its parts are read back from their wire forms.
    proof fn lemma_members(
        j: JsonValue,
        data_source: DataSourceView,
        data_source_wire: JsonValue,
        intervals: Seq<IntervalView>,
        intervals_items: Seq<JsonValue>,
        result_format: ResultFormat,
        filter: Option<FilterView>,
        filter_wire: JsonValue,
        columns: Seq<Seq<char>>,
        virtual_columns: Seq<VirtualColumnView>,
        virtual_columns_items: Seq<JsonValue>,
        batch_size: usize,
        limit: Option<usize>,
        order: SortDirection,
        context: Seq<(Seq<char>, Seq<char>)>,
        context_wire: JsonValue,
    )
        requires
            j == JsonValue::Object(
                Seq::empty()
                    .push(member("queryType"@, text("scan"@)))
                    .push(member("dataSource"@, data_source_wire))
                    .push(member("intervals"@, JsonValue::Array(intervals_items)))
                    .push(member("resultFormat"@, result_format.wire()))
                    .push(
                        member(
                            "filter"@,
                            match filter { Some(_) => filter_wire, None => JsonValue::Null },
                        ),
                    )
                    .push(member("columns"@, texts(columns)))
                    .push(member("virtualColumns"@, JsonValue::Array(virtual_columns_items)))
                    .push(member("batchSize"@, count(batch_size)))
                    .push(member("limit"@, opt_count(limit)))
                    .push(member("order"@, order.wire()))
                    .push(member("context"@, context_wire)),
            ),
            DataSourceView::parse(data_source_wire) == Ok::<DataSourceView, Failure>(data_source),
            IntervalView::parse_list(intervals_items)
                == Ok::<Seq<IntervalView>, Failure>(intervals),
            filter matches Some(v) ==>
                FilterView::parse(filter_wire) == Ok::<FilterView, Failure>(v),
            filter is Some ==> !(filter_wire is Null),
            VirtualColumnView::parse_list(virtual_columns_items)
                == Ok::<Seq<VirtualColumnView>, Failure>(virtual_columns),
            map_parse(context_wire) == Ok::<Seq<(Seq<char>, Seq<char>)>, Failure>(context),
        ensures
            j is Object,
            Self::parse_members(j->Object_0) == Ok::<ScanView, Failure>(
                ScanView {
                    data_source,
                    intervals,
                    result_format,
                    filter,
                    columns,
                    virtual_columns,
                    batch_size,
                    limit,
                    order,
                    context,
                },
            ),
            text_field(j->Object_0, "queryType"@) == Ok::<Seq<char>, Failure>("scan"@),
            Self::parse(j) == Ok::<ScanView, Failure>(
                ScanView {
                    data_source,
                    intervals,
                    result_format,
                    filter,
                    columns,
                    virtual_columns,
                    batch_size,
                    limit,
                    order,
                    context,
                },
            ),
    {
        broadcast use {lemma_lookup_push, lemma_lookup_empty};

        lemma_keys();
        result_format.lemma_round_trip();
        lemma_texts_round_trip(columns);
        order.lemma_round_trip();
    }

}

impl Scan {
    /// Writes the value in its wire form. A value whose timestamps hold
    /// nothing finer than milliseconds is read back as it is.
    pub fn encode(&self) -> (j: Json)
        ensures
            j@ == self@.wire(),
            self@.millisecond_precise() ==> self@.reads_back(),
            self@.millisecond_precise() ==> ScanView::parse(j@) == Ok::<ScanView, Failure>(self@),
        decreases self,
    {
        let mut m = no_members();
        put(&mut m, "queryType", text_json("scan"));
        put(&mut m, "dataSource", self.data_source.encode());
        put(&mut m, "intervals", array_json(Interval::encode_list(&self.intervals)));
        put(&mut m, "resultFormat", self.result_format.encode());
        put(&mut m, "filter", match &self.filter { Some(v) => v.encode(), None => Json::Null });
        put(&mut m, "columns", texts_json(&self.columns));
        put(
            &mut m,
            "virtualColumns",
            array_json(VirtualColumn::encode_list(&self.virtual_columns)),
        );
        put(&mut m, "batchSize", count_json(self.batch_size));
        put(&mut m, "limit", opt_count_json(self.limit));
        put(&mut m, "order", self.order.encode());
        put(&mut m, "context", self.context.encode());
        proof {
            if self@.millisecond_precise() {
                self@.lemma_round_trip();
            }
        }
        object_json(m)
    }

    /// Reads a value from its wire form.
    pub fn decode(j: &Json) -> (r: Result<Scan, DecodeError>)
        ensures
            decoded(r) == ScanView::parse(j@),
        decreases j,
    {
        let m = read_members(j)?;
        let t = text_member(m, "queryType")?;
        if !str_eq(t.as_str(), "scan") {
            return Err(DecodeError::here(DecodeCause::UnknownVariant).within_key("queryType"));
        }
        Self::decode_members(m)
    }

    /// Reads the members of the object.
    pub fn decode_members(m: &Vec<Member>) -> (r: Result<Scan, DecodeError>)
        ensures
            decoded(r) == ScanView::parse_members(members_view(m@)),
        decreases m,
    {
        let data_source = under_key(
            DataSource::decode(required_field(m, "dataSource")?),
            "dataSource",
        )?;
        let intervals = under_key(
            Interval::decode_list(items_member(m, "intervals")?),
            "intervals",
        )?;
        let result_format = under_key(
            ResultFormat::decode(required_field(m, "resultFormat")?),
            "resultFormat",
        )?;
        let filter = match present_field(m, "filter") {
            Some(v) => Some(under_key(Filter::decode(v), "filter")?),
            None => None,
        };
        let columns = texts_member(m, "columns")?;
        let virtual_columns = under_key(
            VirtualColumn::decode_list(items_member(m, "virtualColumns")?),
            "virtualColumns",
        )?;
        let batch_size = count_member(m, "batchSize")?;
        let limit = opt_count_member(m, "limit")?;
        let order = under_key(SortDirection::decode(required_field(m, "order")?), "order")?;
        let context = under_key(StringMap::decode(required_field(m, "context")?), "context")?;
        Ok(
            Scan {
                data_source,
                intervals,
                result_format,
                filter,
                columns,
                virtual_columns,
                batch_size,
                limit,
                order,
                context,
            },
        )
    }
}

/// Builds a [`Scan`] step by step. What is not set stays as
/// [`ScanBuilder::new`] left it.
pub struct ScanBuilder {
    query: Scan,
}

impl View for ScanBuilder {
    type V = ScanView;

    closed spec fn view(&self) -> ScanView {
        self.query@
    }
}

impl ScanBuilder {
    /// A query for the rows of `data_source` as a list, in batches of
    /// 20480, in no order, and nothing else.
    pub fn new(data_source: DataSource) -> (out: ScanBuilder)
        ensures
            out@ == (ScanView {
                data_source: data_source@,
                intervals: Seq::empty(),
                result_format: ResultFormat::List,
                filter: None,
                columns: Seq::empty(),
                virtual_columns: Seq::empty(),
                batch_size: 20480,
                limit: None,
                order: SortDirection::Unsorted,
                context: Seq::empty(),
            }),
    {
        let query = Scan {
            data_source,
            intervals: Vec::new(),
            result_format: ResultFormat::List,
            filter: None,
            columns: Vec::new(),
            virtual_columns: Vec::new(),
            batch_size: 20480,
            limit: None,
            order: SortDirection::Unsorted,
            context: StringMap::new(),
        };
        proof {
            assert(query@.intervals =~= Seq::empty());
            assert(query@.columns =~= Seq::empty());
            assert(query@.virtual_columns =~= Seq::empty());
        }
        ScanBuilder { query }
    }

    pub fn intervals(self, intervals: Vec<Interval>) -> (out: ScanBuilder)
        ensures
            out@ == (ScanView { intervals: list_view(intervals@), ..self@ }),
    {
        let mut query = self.query;
        query.intervals = intervals;
        ScanBuilder { query }
    }

    pub fn result_format(self, result_format: ResultFormat) -> (out: ScanBuilder)
        ensures
            out@ == (ScanView { result_format, ..self@ }),
    {
        let mut query = self.query;
        query.result_format = result_format;
        ScanBuilder { query }
    }

    pub fn filter(self, filter: Filter) -> (out: ScanBuilder)
        ensures
            out@ == (ScanView { filter: Some(filter@), ..self@ }),
    {
        let mut query = self.query;
        query.filter = Some(filter);
        ScanBuilder { query }
    }

    pub fn columns(self, columns: Vec<String>) -> (out: ScanBuilder)
        ensures
            out@ == (ScanView { columns: strings_view(columns@), ..self@ }),
    {
        let mut query = self.query;
        query.columns = columns;
        ScanBuilder { query }
    }

    pub fn virtual_columns(self, virtual_columns: Vec<VirtualColumn>) -> (out: ScanBuilder)
        ensures
            out@ == (ScanView { virtual_columns: list_view(virtual_columns@), ..self@ }),
    {
        let mut query = self.query;
        query.virtual_columns = virtual_columns;
        ScanBuilder { query }
    }

    pub fn batch_size(self, batch_size: usize) -> (out: ScanBuilder)
        ensures
            out@ == (ScanView { batch_size, ..self@ }),
    {
        let mut query = self.query;
        query.batch_size = batch_size;
        ScanBuilder { query }
    }

    pub fn limit(self, limit: usize) -> (out: ScanBuilder)
        ensures
            out@ == (ScanView { limit: Some(limit), ..self@ }),
    {
        let mut query = self.query;
        query.limit = Some(limit);
        ScanBuilder { query }
    }

    pub fn order(self, order: SortDirection) -> (out: ScanBuilder)
        ensures
            out@ == (ScanView { order, ..self@ }),
    {
        let mut query = self.query;
        query.order = order;
        ScanBuilder { query }
    }

    pub fn context(self, context: StringMap) -> (out: ScanBuilder)
        ensures
            out@ == (ScanView { context: context@, ..self@ }),
    {
        let mut query = self.query;
        query.context = context;
        ScanBuilder { query }
    }

    /// Gives the context key `key` the value `value`.
    pub fn add_context(self, key: &str, value: &str) -> (out: ScanBuilder)
        ensures
            out@ == (ScanView { context: with_entry(self@.context, key@, value@), ..self@ }),
    {
        let mut query = self.query;
        query.context.insert(key, value);
        ScanBuilder { query }
    }

    /// The query that was built.
    pub fn build(self) -> (out: Scan)
        ensures
            out@ == self@,
    {
        self.query
    }
}

/// The names of the members differ from one another.
proof fn lemma_keys()
    ensures
        "batchSize"@.len() == 9,
        "columns"@.len() == 7,
        "context"@.len() == 7,
        "dataSource"@.len() == 10,
        "filter"@.len() == 6,
        "intervals"@.len() == 9,
        "limit"@.len() == 5,
        "order"@.len() == 5,
        "queryType"@.len() == 9,
        "resultFormat"@.len() == 12,
        "virtualColumns"@.len() == 14,
        "limit"@[0] == 'l',
        "order"@[0] == 'o',
        "columns"@[2] == 'l',
        "context"@[2] == 'n',
        "batchSize"@[0] == 'b',
        "intervals"@[0] == 'i',
        "queryType"@[0] == 'q',
{
    reveal_strlit("batchSize");
    reveal_strlit("columns");
    reveal_strlit("context");
    reveal_strlit("dataSource");
    reveal_strlit("filter");
    reveal_strlit("intervals");
    reveal_strlit("limit");
    reveal_strlit("order");
    reveal_strlit("queryType");
    reveal_strlit("resultFormat");
    reveal_strlit("virtualColumns");
}

/// The names that stand for the variants differ from one another.
proof fn lemma_tags()
    ensures
        "compactedList"@.len() == 13,
        "list"@.len() == 4,
        "scan"@.len() == 4,
        "valueVector"@.len() == 11,
        "list"@[0] == 'l',
        "scan"@[0] == 's',
{
    reveal_strlit("compactedList");
    reveal_strlit("list");
    reveal_strlit("scan");
    reveal_strlit("valueVector");
}

} // verus!
