//! Dimensions: the columns by which a result is grouped or listed.

use vstd::prelude::*;
use crate::codec::{
    as_members, decoded_list, field_with, flag, flag_field, flag_json, flag_member,
    lemma_lookup_smaller, lemma_read_all_accepted, lemma_read_all_empty,
    lemma_read_all_refused, lemma_read_all_step, lemma_texts_round_trip, list_view, member,
    no_members, object_json, put, read_all, read_members, required, required_field,
    strings_view, text, text_field, text_json, text_member, texts, texts_field, texts_json,
    texts_member, under, under_key,
};
use crate::error::{decoded, DecodeCause, DecodeError, Failure};
use crate::json::{
    items_view, lemma_lookup_empty, lemma_lookup_push, members_view, str_eq, Json, JsonValue,
    Member, MemberValue,
};
use crate::query::definitions::extraction_functions::{ExtractFN, ExtractFNView};
use crate::query::definitions::lookup::{LookupMap, LookupMapView};
use crate::query::definitions::output_types::OutputType;

verus! {

/// A dimension of the result: a column, possibly transformed or filtered.
#[derive(Debug, PartialEq)]
pub enum Dimension {
    /// A column as it is.
    Default {
        dimension: String,
        output_name: String,
        output_type: OutputType,
    },
    /// A column whose values go through an extraction function.
    Extraction {
        dimension: String,
        output_name: String,
        output_type: OutputType,
        extraction_fn: ExtractFN,
    },
    /// The values of a multi-value dimension that are, or are not, in a list.
    ListFiltered {
        delegate: Box<Dimension>,
        values: Vec<String>,
        is_whitelist: bool,
    },
    /// The values of a multi-value dimension that match a regular expression.
    RegexFiltered {
        delegate: Box<Dimension>,
        pattern: String,
    },
    /// The values of a multi-value dimension that start with a prefix.
    PrefixFiltered {
        delegate: Box<Dimension>,
        prefix: String,
    },
    /// A column whose values are replaced through a lookup given with the query.
    LookupMap {
        dimension: String,
        output_name: String,
        replace_missing_value_with: String,
        retain_missing_value: bool,
        lookup: LookupMap,
    },
    /// A column whose values are replaced through a lookup that the engine knows by name.
    Lookup {
        dimension: String,
        output_name: String,
        name: String,
    },
}

/// Mathematical value of a [`Dimension`].
pub enum DimensionView {
    Default {
        dimension: Seq<char>,
        output_name: Seq<char>,
        output_type: OutputType,
    },
    Extraction {
        dimension: Seq<char>,
        output_name: Seq<char>,
        output_type: OutputType,
        extraction_fn: ExtractFNView,
    },
    ListFiltered {
        delegate: Box<DimensionView>,
        values: Seq<Seq<char>>,
        is_whitelist: bool,
    },
    RegexFiltered {
        delegate: Box<DimensionView>,
        pattern: Seq<char>,
    },
    PrefixFiltered {
        delegate: Box<DimensionView>,
        prefix: Seq<char>,
    },
    LookupMap {
        dimension: Seq<char>,
        output_name: Seq<char>,
        replace_missing_value_with: Seq<char>,
        retain_missing_value: bool,
        lookup: LookupMapView,
    },
    Lookup {
        dimension: Seq<char>,
        output_name: Seq<char>,
        name: Seq<char>,
    },
}

impl Dimension {
    /// The mathematical value.
    pub open spec fn value(self) -> DimensionView
        decreases self,
    {
        match self {
            Dimension::Default { dimension, output_name, output_type } => DimensionView::Default {
                dimension: dimension@,
                output_name: output_name@,
                output_type: output_type,
            },
            Dimension::Extraction { dimension, output_name, output_type, extraction_fn } => DimensionView::Extraction {
                dimension: dimension@,
                output_name: output_name@,
                output_type: output_type,
                extraction_fn: extraction_fn@,
            },
            Dimension::ListFiltered { delegate, values, is_whitelist } => DimensionView::ListFiltered {
                delegate: Box::new(delegate.value()),
                values: strings_view(values@),
                is_whitelist: is_whitelist,
            },
            Dimension::RegexFiltered { delegate, pattern } => DimensionView::RegexFiltered {
                delegate: Box::new(delegate.value()),
                pattern: pattern@,
            },
            Dimension::PrefixFiltered { delegate, prefix } => DimensionView::PrefixFiltered {
                delegate: Box::new(delegate.value()),
                prefix: prefix@,
            },
            Dimension::LookupMap { dimension, output_name, replace_missing_value_with, retain_missing_value, lookup } => DimensionView::LookupMap {
                dimension: dimension@,
                output_name: output_name@,
                replace_missing_value_with: replace_missing_value_with@,
                retain_missing_value: retain_missing_value,
                lookup: lookup@,
            },
            Dimension::Lookup { dimension, output_name, name } => DimensionView::Lookup {
                dimension: dimension@,
                output_name: output_name@,
                name: name@,
            },
        }
    }

    /// The mathematical values of the elements of a list.
    pub open spec fn values(list: Seq<Dimension>) -> Seq<DimensionView>
        decreases list,
    {
        Seq::new(
            list.len(),
            |i: int| if 0 <= i < list.len() { list[i].value() } else { arbitrary() },
        )
    }

    /// [`Self::values`] is the view of the list.
    pub proof fn lemma_values(list: Seq<Dimension>)
        ensures
            Self::values(list) == list_view(list),
    {
        assert(Self::values(list) =~= list_view(list));
    }
}

impl View for Dimension {
    type V = DimensionView;

    open spec fn view(&self) -> DimensionView {
        self.value()
    }
}

impl DimensionView {
    /// The discriminator that stands for the variant on the wire.
    pub open spec fn tag(self) -> Seq<char> {
        match self {
            DimensionView::Default { .. } => "default"@,
            DimensionView::Extraction { .. } => "extraction"@,
            DimensionView::ListFiltered { .. } => "listFiltered"@,
            DimensionView::RegexFiltered { .. } => "regexFiltered"@,
            DimensionView::PrefixFiltered { .. } => "prefixFiltered"@,
            DimensionView::LookupMap { .. } => "lookupMap"@,
            DimensionView::Lookup { .. } => "lookup"@,
        }
    }

    /// Whether a discriminator stands for a variant of this family.
    pub open spec fn known_tag(t: Seq<char>) -> bool {
        t == "default"@
            || t == "extraction"@
            || t == "listFiltered"@
            || t == "regexFiltered"@
            || t == "prefixFiltered"@
            || t == "lookupMap"@
            || t == "lookup"@
    }

    /// The wire form.
    pub open spec fn wire(self) -> JsonValue
        decreases self,
    {
        match self {
            DimensionView::Default { dimension, output_name, output_type } => JsonValue::Object(
                Seq::empty()
                    .push(member("type"@, text("default"@)))
                    .push(member("dimension"@, text(dimension)))
                    .push(member("outputName"@, text(output_name)))
                    .push(member("outputType"@, output_type.wire())),
            ),
            DimensionView::Extraction { dimension, output_name, output_type, extraction_fn } => JsonValue::Object(
                Seq::empty()
                    .push(member("type"@, text("extraction"@)))
                    .push(member("dimension"@, text(dimension)))
                    .push(member("outputName"@, text(output_name)))
                    .push(member("outputType"@, output_type.wire()))
                    .push(member("extractionFn"@, extraction_fn.wire())),
            ),
            DimensionView::ListFiltered { delegate, values, is_whitelist } => JsonValue::Object(
                Seq::empty()
                    .push(member("type"@, text("listFiltered"@)))
                    .push(member("delegate"@, delegate.wire()))
                    .push(member("values"@, texts(values)))
                    .push(member("isWhitelist"@, flag(is_whitelist))),
            ),
            DimensionView::RegexFiltered { delegate, pattern } => JsonValue::Object(
                Seq::empty()
                    .push(member("type"@, text("regexFiltered"@)))
                    .push(member("delegate"@, delegate.wire()))
                    .push(member("pattern"@, text(pattern))),
            ),
            DimensionView::PrefixFiltered { delegate, prefix } => JsonValue::Object(
                Seq::empty()
                    .push(member("type"@, text("prefixFiltered"@)))
                    .push(member("delegate"@, delegate.wire()))
                    .push(member("prefix"@, text(prefix))),
            ),
            DimensionView::LookupMap { dimension, output_name, replace_missing_value_with, retain_missing_value, lookup } => JsonValue::Object(
                Seq::empty()
                    .push(member("type"@, text("lookupMap"@)))
                    .push(member("dimension"@, text(dimension)))
                    .push(member("outputName"@, text(output_name)))
                    .push(member("replaceMissingValueWith"@, text(replace_missing_value_with)))
                    .push(member("retainMissingValue"@, flag(retain_missing_value)))
                    .push(member("lookup"@, lookup.wire())),
            ),
            DimensionView::Lookup { dimension, output_name, name } => JsonValue::Object(
                Seq::empty()
                    .push(member("type"@, text("lookup"@)))
                    .push(member("dimension"@, text(dimension)))
                    .push(member("outputName"@, text(output_name)))
                    .push(member("name"@, text(name))),
            ),
        }
    }

    /// The wire forms of the elements of a list.
    pub open spec fn wire_list(list: Seq<DimensionView>) -> Seq<JsonValue>
        decreases list,
    {
        Seq::new(
            list.len(),
            |i: int| if 0 <= i < list.len() { list[i].wire() } else { arbitrary() },
        )
    }

    /// Whether the parts that are not read back whatever they hold are
    /// read back as they are: every interval inside, and every map
    /// inside, which has to hold each key once.
    pub open spec fn reads_back(self) -> bool
        decreases self,
    {
        match self {
            DimensionView::Default { .. } => true,
            DimensionView::Extraction { extraction_fn, .. } => extraction_fn.reads_back(),
            DimensionView::ListFiltered { delegate, .. } => delegate.reads_back(),
            DimensionView::RegexFiltered { delegate, .. } => delegate.reads_back(),
            DimensionView::PrefixFiltered { delegate, .. } => delegate.reads_back(),
            DimensionView::LookupMap { lookup, .. } => lookup.reads_back(),
            DimensionView::Lookup { .. } => true,
        }
    }

    /// Whether every element of a list is read back as it is.
    pub open spec fn all_read_back(list: Seq<DimensionView>) -> bool
        decreases list,
    {
        forall|i: int| 0 <= i < list.len() ==> (#[trigger] list[i]).reads_back()
    }

    /// What a document is read as.
    pub open spec fn parse(j: JsonValue) -> Result<DimensionView, Failure>
        decreases j,
    {
        match as_members(j) {
            Ok(m) => match text_field(m, "type"@) {
                Ok(t) => if t == "default"@ {
                    Self::parse_default(m)
                } else if t == "extraction"@ {
                    Self::parse_extraction(m)
                } else if t == "listFiltered"@ {
                    Self::parse_list_filtered(m)
                } else if t == "regexFiltered"@ {
                    Self::parse_regex_filtered(m)
                } else if t == "prefixFiltered"@ {
                    Self::parse_prefix_filtered(m)
                } else if t == "lookupMap"@ {
                    Self::parse_lookup_map(m)
                } else if t == "lookup"@ {
                    Self::parse_lookup(m)
                } else {
                    Err(Failure::here(DecodeCause::UnknownVariant).within_key("type"@))
                },
                Err(e) => Err(e),
            },
            Err(e) => Err(e),
        }
    }

    /// The members of the variant `default`, read.
    pub open spec fn parse_default(m: Seq<MemberValue>) -> Result<DimensionView, Failure>
        decreases m,
    {
        let dimension = text_field(m, "dimension"@);
        let output_name = text_field(m, "outputName"@);
        let output_type = field_with(m, "outputType"@, |v: JsonValue| OutputType::parse(v));
        if dimension is Err {
            Err(dimension->Err_0)
        } else if output_name is Err {
            Err(output_name->Err_0)
        } else if output_type is Err {
            Err(output_type->Err_0)
        } else {
            Ok(
                DimensionView::Default {
                    dimension: dimension->Ok_0,
                    output_name: output_name->Ok_0,
                    output_type: output_type->Ok_0,
                },
            )
        }
    }

    /// The members of the variant `extraction`, read.
    pub open spec fn parse_extraction(m: Seq<MemberValue>) -> Result<DimensionView, Failure>
        decreases m,
    {
        let dimension = text_field(m, "dimension"@);
        let output_name = text_field(m, "outputName"@);
        let output_type = field_with(m, "outputType"@, |v: JsonValue| OutputType::parse(v));
        let extraction_fn = field_with(m, "extractionFn"@, |v: JsonValue| ExtractFNView::parse(v));
        if dimension is Err {
            Err(dimension->Err_0)
        } else if output_name is Err {
            Err(output_name->Err_0)
        } else if output_type is Err {
            Err(output_type->Err_0)
        } else if extraction_fn is Err {
            Err(extraction_fn->Err_0)
        } else {
            Ok(
                DimensionView::Extraction {
                    dimension: dimension->Ok_0,
                    output_name: output_name->Ok_0,
                    output_type: output_type->Ok_0,
                    extraction_fn: extraction_fn->Ok_0,
                },
            )
        }
    }

    /// The members of the variant `listFiltered`, read.
    pub open spec fn parse_list_filtered(m: Seq<MemberValue>) -> Result<DimensionView, Failure>
        decreases m,
    {
        let delegate = match required(m, "delegate"@) {
            Ok(v) => {
                proof { lemma_lookup_smaller(m, "delegate"@); }
                under("delegate"@, DimensionView::parse(v))
            },
            Err(e) => Err(e),
        };
        let values = texts_field(m, "values"@);
        let is_whitelist = flag_field(m, "isWhitelist"@);
        if delegate is Err {
            Err(delegate->Err_0)
        } else if values is Err {
            Err(values->Err_0)
        } else if is_whitelist is Err {
            Err(is_whitelist->Err_0)
        } else {
            Ok(
                DimensionView::ListFiltered {
                    delegate: Box::new(delegate->Ok_0),
                    values: values->Ok_0,
                    is_whitelist: is_whitelist->Ok_0,
                },
            )
        }
    }

    /// The members of the variant `regexFiltered`, read.
    pub open spec fn parse_regex_filtered(m: Seq<MemberValue>) -> Result<DimensionView, Failure>
        decreases m,
    {
        let delegate = match required(m, "delegate"@) {
            Ok(v) => {
                proof { lemma_lookup_smaller(m, "delegate"@); }
                under("delegate"@, DimensionView::parse(v))
            },
            Err(e) => Err(e),
        };
        let pattern = text_field(m, "pattern"@);
        if delegate is Err {
            Err(delegate->Err_0)
        } else if pattern is Err {
            Err(pattern->Err_0)
        } else {
            Ok(
                DimensionView::RegexFiltered {
                    delegate: Box::new(delegate->Ok_0),
                    pattern: pattern->Ok_0,
                },
            )
        }
    }

    /// The members of the variant `prefixFiltered`, read.
    pub open spec fn parse_prefix_filtered(m: Seq<MemberValue>) -> Result<DimensionView, Failure>
        decreases m,
    {
        let delegate = match required(m, "delegate"@) {
            Ok(v) => {
                proof { lemma_lookup_smaller(m, "delegate"@); }
                under("delegate"@, DimensionView::parse(v))
            },
            Err(e) => Err(e),
        };
        let prefix = text_field(m, "prefix"@);
        if delegate is Err {
            Err(delegate->Err_0)
        } else if prefix is Err {
            Err(prefix->Err_0)
        } else {
            Ok(
                DimensionView::PrefixFiltered {
                    delegate: Box::new(delegate->Ok_0),
                    prefix: prefix->Ok_0,
                },
            )
        }
    }

    /// The members of the variant `lookupMap`, read.
    pub open spec fn parse_lookup_map(m: Seq<MemberValue>) -> Result<DimensionView, Failure>
        decreases m,
    {
        let dimension = text_field(m, "dimension"@);
        let output_name = text_field(m, "outputName"@);
        let replace_missing_value_with = text_field(m, "replaceMissingValueWith"@);
        let retain_missing_value = flag_field(m, "retainMissingValue"@);
        let lookup = field_with(m, "lookup"@, |v: JsonValue| LookupMapView::parse(v));
        if dimension is Err {
            Err(dimension->Err_0)
        } else if output_name is Err {
            Err(output_name->Err_0)
        } else if replace_missing_value_with is Err {
            Err(replace_missing_value_with->Err_0)
        } else if retain_missing_value is Err {
            Err(retain_missing_value->Err_0)
        } else if lookup is Err {
            Err(lookup->Err_0)
        } else {
            Ok(
                DimensionView::LookupMap {
                    dimension: dimension->Ok_0,
                    output_name: output_name->Ok_0,
                    replace_missing_value_with: replace_missing_value_with->Ok_0,
                    retain_missing_value: retain_missing_value->Ok_0,
                    lookup: lookup->Ok_0,
                },
            )
        }
    }

    /// The members of the variant `lookup`, read.
    pub open spec fn parse_lookup(m: Seq<MemberValue>) -> Result<DimensionView, Failure>
        decreases m,
    {
        let dimension = text_field(m, "dimension"@);
        let output_name = text_field(m, "outputName"@);
        let name = text_field(m, "name"@);
        if dimension is Err {
            Err(dimension->Err_0)
        } else if output_name is Err {
            Err(output_name->Err_0)
        } else if name is Err {
            Err(name->Err_0)
        } else {
            Ok(
                DimensionView::Lookup {
                    dimension: dimension->Ok_0,
                    output_name: output_name->Ok_0,
                    name: name->Ok_0,
                },
            )
        }
    }

    /// Every element of an array, read: the list of what was read, or
    /// the failure of the first element that is refused, seen from its
    /// index.
    pub open spec fn parse_list(items: Seq<JsonValue>) -> Result<Seq<DimensionView>, Failure>
        decreases items,
    {
        if items.len() == 0 {
            Ok(Seq::empty())
        } else {
            match Self::parse_list(items.drop_last()) {
                Ok(front) => match Self::parse(items.last()) {
                    Ok(v) => Ok(front.push(v)),
                    Err(e) => Err(e.within_index((items.len() - 1) as nat)),
                },
                Err(e) => Err(e),
            }
        }
    }

    /// [`Self::wire_list`] writes each element.
    pub proof fn lemma_wire_list(list: Seq<DimensionView>)
        ensures
            Self::wire_list(list) == list.map_values(|x: DimensionView| x.wire()),
    {
        assert(Self::wire_list(list) =~= list.map_values(|x: DimensionView| x.wire()));
    }

    /// [`Self::parse_list`] reads each element.
    pub proof fn lemma_parse_list(items: Seq<JsonValue>)
        ensures
            Self::parse_list(items) == read_all(items, |j: JsonValue| Self::parse(j)),
        decreases items.len(),
    {
        let read = |j: JsonValue| Self::parse(j);
        if items.len() == 0 {
            lemma_read_all_empty(items, read);
        } else {
            Self::lemma_parse_list(items.drop_last());
            lemma_read_all_step(items, read);
        }
    }

    /// What is written is never `null`.
    pub proof fn lemma_wire_not_null(self)
        ensures
            !(self.wire() is Null),
    {
    }

    /// Reading back what was written gives the value again, if the
    /// intervals and the maps inside are read back as they are.
    pub proof fn lemma_round_trip(self)
        requires
            self.reads_back(),
        ensures
            Self::parse(self.wire()) == Ok::<DimensionView, Failure>(self),
        decreases self,
    {
        match self {
            DimensionView::Default { dimension, output_name, output_type } => {
                Self::lemma_members_default(self.wire(), dimension, output_name, output_type);
                Self::lemma_parse_default(self.wire());
            },
            DimensionView::Extraction { dimension, output_name, output_type, extraction_fn } => {
                extraction_fn.lemma_round_trip();
                Self::lemma_members_extraction(
                    self.wire(),
                    dimension,
                    output_name,
                    output_type,
                    extraction_fn,
                    extraction_fn.wire(),
                );
                Self::lemma_parse_extraction(self.wire());
            },
            DimensionView::ListFiltered { delegate, values, is_whitelist } => {
                delegate.lemma_round_trip();
                Self::lemma_members_list_filtered(
                    self.wire(),
                    *delegate,
                    delegate.wire(),
                    values,
                    is_whitelist,
                );
                Self::lemma_parse_list_filtered(self.wire());
            },
            DimensionView::RegexFiltered { delegate, pattern } => {
                delegate.lemma_round_trip();
                Self::lemma_members_regex_filtered(
                    self.wire(),
                    *delegate,
                    delegate.wire(),
                    pattern,
                );
                Self::lemma_parse_regex_filtered(self.wire());
            },
            DimensionView::PrefixFiltered { delegate, prefix } => {
                delegate.lemma_round_trip();
                Self::lemma_members_prefix_filtered(
                    self.wire(),
                    *delegate,
                    delegate.wire(),
                    prefix,
                );
                Self::lemma_parse_prefix_filtered(self.wire());
            },
            DimensionView::LookupMap {
                dimension,
                output_name,
                replace_missing_value_with,
                retain_missing_value,
                lookup,
            } => {
                lookup.lemma_round_trip();
                Self::lemma_members_lookup_map(
                    self.wire(),
                    dimension,
                    output_name,
                    replace_missing_value_with,
                    retain_missing_value,
                    lookup,
                    lookup.wire(),
                );
                Self::lemma_parse_lookup_map(self.wire());
            },
            DimensionView::Lookup { dimension, output_name, name } => {
                Self::lemma_members_lookup(self.wire(), dimension, output_name, name);
                Self::lemma_parse_lookup(self.wire());
            },
        }
    }

    /// The members that are written for the variant `default` are read
    /// back as the value, given that its parts are read back from their
    /// wire forms.
    proof fn lemma_members_default(
        j: JsonValue,
        dimension: Seq<char>,
        output_name: Seq<char>,
        output_type: OutputType,
    )
        requires
            j == JsonValue::Object(
                Seq::empty()
                    .push(member("type"@, text("default"@)))
                    .push(member("dimension"@, text(dimension)))
                    .push(member("outputName"@, text(output_name)))
                    .push(member("outputType"@, output_type.wire())),
            ),
        ensures
            j is Object,
            Self::parse_default(j->Object_0) == Ok::<DimensionView, Failure>(
                DimensionView::Default { dimension, output_name, output_type },
            ),
            text_field(j->Object_0, "type"@) == Ok::<Seq<char>, Failure>("default"@),
    {
        broadcast use {lemma_lookup_push, lemma_lookup_empty};

        lemma_keys();
        output_type.lemma_round_trip();
    }

    /// An object with the discriminator `default` is read as that variant.
    proof fn lemma_parse_default(j: JsonValue)
        requires
            j is Object,
            text_field(j->Object_0, "type"@) == Ok::<Seq<char>, Failure>("default"@),
        ensures
            Self::parse(j) == Self::parse_default(j->Object_0),
    {
        lemma_tags();
    }

    /// The members that are written for the variant `extraction` are read
    /// back as the value, given that its parts are read back from their
    /// wire forms.
    proof fn lemma_members_extraction(
        j: JsonValue,
        dimension: Seq<char>,
        output_name: Seq<char>,
        output_type: OutputType,
        extraction_fn: ExtractFNView,
        extraction_fn_wire: JsonValue,
    )
        requires
            j == JsonValue::Object(
                Seq::empty()
                    .push(member("type"@, text("extraction"@)))
                    .push(member("dimension"@, text(dimension)))
                    .push(member("outputName"@, text(output_name)))
                    .push(member("outputType"@, output_type.wire()))
                    .push(member("extractionFn"@, extraction_fn_wire)),
            ),
            ExtractFNView::parse(extraction_fn_wire) == Ok::<ExtractFNView, Failure>(extraction_fn),
        ensures
            j is Object,
            Self::parse_extraction(j->Object_0) == Ok::<DimensionView, Failure>(
                DimensionView::Extraction { dimension, output_name, output_type, extraction_fn },
            ),
            text_field(j->Object_0, "type"@) == Ok::<Seq<char>, Failure>("extraction"@),
    {
        broadcast use {lemma_lookup_push, lemma_lookup_empty};

        lemma_keys();
        output_type.lemma_round_trip();
    }

    /// An object with the discriminator `extraction` is read as that variant.
    proof fn lemma_parse_extraction(j: JsonValue)
        requires
            j is Object,
            text_field(j->Object_0, "type"@) == Ok::<Seq<char>, Failure>("extraction"@),
        ensures
            Self::parse(j) == Self::parse_extraction(j->Object_0),
    {
        lemma_tags();
    }

    /// The members that are written for the variant `listFiltered` are read
    /// back as the value, given that its parts are read back from their
    /// wire forms.
    proof fn lemma_members_list_filtered(
        j: JsonValue,
        delegate: DimensionView,
        delegate_wire: JsonValue,
        values: Seq<Seq<char>>,
        is_whitelist: bool,
    )
        requires
            j == JsonValue::Object(
                Seq::empty()
                    .push(member("type"@, text("listFiltered"@)))
                    .push(member("delegate"@, delegate_wire))
                    .push(member("values"@, texts(values)))
                    .push(member("isWhitelist"@, flag(is_whitelist))),
            ),
            DimensionView::parse(delegate_wire) == Ok::<DimensionView, Failure>(delegate),
        ensures
            j is Object,
            Self::parse_list_filtered(j->Object_0) == Ok::<DimensionView, Failure>(
                DimensionView::ListFiltered { delegate: Box::new(delegate), values, is_whitelist },
            ),
            text_field(j->Object_0, "type"@) == Ok::<Seq<char>, Failure>("listFiltered"@),
    {
        broadcast use {lemma_lookup_push, lemma_lookup_empty};

        lemma_keys();
        lemma_texts_round_trip(values);
    }

    /// An object with the discriminator `listFiltered` is read as that variant.
    proof fn lemma_parse_list_filtered(j: JsonValue)
        requires
            j is Object,
            text_field(j->Object_0, "type"@) == Ok::<Seq<char>, Failure>("listFiltered"@),
        ensures
            Self::parse(j) == Self::parse_list_filtered(j->Object_0),
    {
        lemma_tags();
    }

    /// The members that are written for the variant `regexFiltered` are read
    /// back as the value, given that its parts are read back from their
    /// wire forms.
    proof fn lemma_members_regex_filtered(
        j: JsonValue,
        delegate: DimensionView,
        delegate_wire: JsonValue,
        pattern: Seq<char>,
    )
        requires
            j == JsonValue::Object(
                Seq::empty()
                    .push(member("type"@, text("regexFiltered"@)))
                    .push(member("delegate"@, delegate_wire))
                    .push(member("pattern"@, text(pattern))),
            ),
            DimensionView::parse(delegate_wire) == Ok::<DimensionView, Failure>(delegate),
        ensures
            j is Object,
            Self::parse_regex_filtered(j->Object_0) == Ok::<DimensionView, Failure>(
                DimensionView::RegexFiltered { delegate: Box::new(delegate), pattern },
            ),
            text_field(j->Object_0, "type"@) == Ok::<Seq<char>, Failure>("regexFiltered"@),
    {
        broadcast use {lemma_lookup_push, lemma_lookup_empty};

        lemma_keys();
    }

    /// An object with the discriminator `regexFiltered` is read as that variant.
    proof fn lemma_parse_regex_filtered(j: JsonValue)
        requires
            j is Object,
            text_field(j->Object_0, "type"@) == Ok::<Seq<char>, Failure>("regexFiltered"@),
        ensures
            Self::parse(j) == Self::parse_regex_filtered(j->Object_0),
    {
        lemma_tags();
    }

    /// The members that are written for the variant `prefixFiltered` are read
    /// back as the value, given that its parts are read back from their
    /// wire forms.
    proof fn lemma_members_prefix_filtered(
        j: JsonValue,
        delegate: DimensionView,
        delegate_wire: JsonValue,
        prefix: Seq<char>,
    )
        requires
            j == JsonValue::Object(
                Seq::empty()
                    .push(member("type"@, text("prefixFiltered"@)))
                    .push(member("delegate"@, delegate_wire))
                    .push(member("prefix"@, text(prefix))),
            ),
            DimensionView::parse(delegate_wire) == Ok::<DimensionView, Failure>(delegate),
        ensures
            j is Object,
            Self::parse_prefix_filtered(j->Object_0) == Ok::<DimensionView, Failure>(
                DimensionView::PrefixFiltered { delegate: Box::new(delegate), prefix },
            ),
            text_field(j->Object_0, "type"@) == Ok::<Seq<char>, Failure>("prefixFiltered"@),
    {
        broadcast use {lemma_lookup_push, lemma_lookup_empty};

        lemma_keys();
    }

    /// An object with the discriminator `prefixFiltered` is read as that variant.
    proof fn lemma_parse_prefix_filtered(j: JsonValue)
        requires
            j is Object,
            text_field(j->Object_0, "type"@) == Ok::<Seq<char>, Failure>("prefixFiltered"@),
        ensures
            Self::parse(j) == Self::parse_prefix_filtered(j->Object_0),
    {
        lemma_tags();
    }

    /// The members that are written for the variant `lookupMap` are read
    /// back as the value, given that its parts are read back from their
    /// wire forms.
    proof fn lemma_members_lookup_map(
        j: JsonValue,
        dimension: Seq<char>,
        output_name: Seq<char>,
        replace_missing_value_with: Seq<char>,
        retain_missing_value: bool,
        lookup: LookupMapView,
        lookup_wire: JsonValue,
    )
        requires
            j == JsonValue::Object(
                Seq::empty()
                    .push(member("type"@, text("lookupMap"@)))
                    .push(member("dimension"@, text(dimension)))
                    .push(member("outputName"@, text(output_name)))
                    .push(member("replaceMissingValueWith"@, text(replace_missing_value_with)))
                    .push(member("retainMissingValue"@, flag(retain_missing_value)))
                    .push(member("lookup"@, lookup_wire)),
            ),
            LookupMapView::parse(lookup_wire) == Ok::<LookupMapView, Failure>(lookup),
        ensures
            j is Object,
            Self::parse_lookup_map(j->Object_0) == Ok::<DimensionView, Failure>(
                DimensionView::LookupMap {
                    dimension,
                    output_name,
                    replace_missing_value_with,
                    retain_missing_value,
                    lookup,
                },
            ),
            text_field(j->Object_0, "type"@) == Ok::<Seq<char>, Failure>("lookupMap"@),
    {
        broadcast use {lemma_lookup_push, lemma_lookup_empty};

        lemma_keys();
    }

    /// An object with the discriminator `lookupMap` is read as that variant.
    proof fn lemma_parse_lookup_map(j: JsonValue)
        requires
            j is Object,
            text_field(j->Object_0, "type"@) == Ok::<Seq<char>, Failure>("lookupMap"@),
        ensures
            Self::parse(j) == Self::parse_lookup_map(j->Object_0),
    {
        lemma_tags();
    }

    /// The members that are written for the variant `lookup` are read
    /// back as the value, given that its parts are read back from their
    /// wire forms.
    proof fn lemma_members_lookup(
        j: JsonValue,
        dimension: Seq<char>,
        output_name: Seq<char>,
        name: Seq<char>,
    )
        requires
            j == JsonValue::Object(
                Seq::empty()
                    .push(member("type"@, text("lookup"@)))
                    .push(member("dimension"@, text(dimension)))
                    .push(member("outputName"@, text(output_name)))
                    .push(member("name"@, text(name))),
            ),
        ensures
            j is Object,
            Self::parse_lookup(j->Object_0) == Ok::<DimensionView, Failure>(
                DimensionView::Lookup { dimension, output_name, name },
            ),
            text_field(j->Object_0, "type"@) == Ok::<Seq<char>, Failure>("lookup"@),
    {
        broadcast use {lemma_lookup_push, lemma_lookup_empty};

        lemma_keys();
    }

    /// An object with the discriminator `lookup` is read as that variant.
    proof fn lemma_parse_lookup(j: JsonValue)
        requires
            j is Object,
            text_field(j->Object_0, "type"@) == Ok::<Seq<char>, Failure>("lookup"@),
        ensures
            Self::parse(j) == Self::parse_lookup(j->Object_0),
    {
        lemma_tags();
    }

    /// Reading back a list that was written gives the list again, if
    /// each element is read back as it is.
    pub proof fn lemma_list_round_trip(list: Seq<DimensionView>)
        requires
            Self::all_read_back(list),
        ensures
            Self::parse_list(Self::wire_list(list)) == Ok::<Seq<DimensionView>, Failure>(list),
        decreases list,
    {
        let items = Self::wire_list(list);
        let read = |j: JsonValue| Self::parse(j);
        assert forall|i: int| 0 <= i < items.len() implies (#[trigger] read(items[i]))
            == Ok::<DimensionView, Failure>(list[i]) by {
            assert(list[i].reads_back());
            list[i].lemma_round_trip();
        }
        lemma_read_all_accepted(items, read, list);
        Self::lemma_parse_list(items);
    }

    /// What is written for a variant carries its discriminator.
    pub proof fn lemma_tag(self)
        ensures
            self.wire() is Object,
            text_field(self.wire()->Object_0, "type"@) == Ok::<Seq<char>, Failure>(self.tag()),
            Self::known_tag(self.tag()),
    {
        broadcast use {lemma_lookup_push, lemma_lookup_empty};

        lemma_keys();
    }

    /// An object whose discriminator stands for no variant of the
    /// family is refused as an unknown variant; it is read as none.
    pub proof fn lemma_unknown_tag(j: JsonValue)
        requires
            j is Object,
            text_field(j->Object_0, "type"@) is Ok,
            !Self::known_tag(text_field(j->Object_0, "type"@)->Ok_0),
        ensures
            Self::parse(j) == Err::<DimensionView, Failure>(
                Failure::here(DecodeCause::UnknownVariant).within_key("type"@),
            ),
    {
    }

}

impl Dimension {
    /// The column `dimension` under its own name, read as strings.
    pub fn default(dimension: &str) -> (out: Dimension)
        ensures
            out@ == (DimensionView::Default {
                    dimension: dimension@,
                    output_name: dimension@,
                    output_type: OutputType::STRING,
            }),
    {
        Dimension::Default {
            dimension: dimension.to_string(),
            output_name: dimension.to_string(),
            output_type: OutputType::STRING,
        }
    }

    pub fn regex(dimension: Dimension, pattern: &str) -> (out: Dimension)
        ensures
            out@ == (
                DimensionView::RegexFiltered { delegate: Box::new(dimension@), pattern: pattern@ }
            ),
    {
        Dimension::RegexFiltered { pattern: pattern.to_string(), delegate: Box::new(dimension) }
    }

    pub fn prefix(dimension: Dimension, prefix: &str) -> (out: Dimension)
        ensures
            out@ == (
                DimensionView::PrefixFiltered { delegate: Box::new(dimension@), prefix: prefix@ }
            ),
    {
        Dimension::PrefixFiltered { prefix: prefix.to_string(), delegate: Box::new(dimension) }
    }

    /// Writes the value in its wire form. It is read back as it is.
    pub fn encode(&self) -> (j: Json)
        ensures
            j@ == self@.wire(),
            self@.reads_back(),
            DimensionView::parse(j@) == Ok::<DimensionView, Failure>(self@),
        decreases self,
    {
        let mut m = no_members();
        match self {
            Dimension::Default { dimension, output_name, output_type } => {
                put(&mut m, "type", text_json("default"));
                put(&mut m, "dimension", text_json(dimension.as_str()));
                put(&mut m, "outputName", text_json(output_name.as_str()));
                put(&mut m, "outputType", output_type.encode());
            },
            Dimension::Extraction { dimension, output_name, output_type, extraction_fn } => {
                put(&mut m, "type", text_json("extraction"));
                put(&mut m, "dimension", text_json(dimension.as_str()));
                put(&mut m, "outputName", text_json(output_name.as_str()));
                put(&mut m, "outputType", output_type.encode());
                put(&mut m, "extractionFn", extraction_fn.encode());
            },
            Dimension::ListFiltered { delegate, values, is_whitelist } => {
                put(&mut m, "type", text_json("listFiltered"));
                put(&mut m, "delegate", delegate.encode());
                put(&mut m, "values", texts_json(values));
                put(&mut m, "isWhitelist", flag_json(*is_whitelist));
            },
            Dimension::RegexFiltered { delegate, pattern } => {
                put(&mut m, "type", text_json("regexFiltered"));
                put(&mut m, "delegate", delegate.encode());
                put(&mut m, "pattern", text_json(pattern.as_str()));
            },
            Dimension::PrefixFiltered { delegate, prefix } => {
                put(&mut m, "type", text_json("prefixFiltered"));
                put(&mut m, "delegate", delegate.encode());
                put(&mut m, "prefix", text_json(prefix.as_str()));
            },
            Dimension::LookupMap {
                dimension,
                output_name,
                replace_missing_value_with,
                retain_missing_value,
                lookup,
            } => {
                put(&mut m, "type", text_json("lookupMap"));
                put(&mut m, "dimension", text_json(dimension.as_str()));
                put(&mut m, "outputName", text_json(output_name.as_str()));
                put(
                    &mut m,
                    "replaceMissingValueWith",
                    text_json(replace_missing_value_with.as_str()),
                );
                put(&mut m, "retainMissingValue", flag_json(*retain_missing_value));
                put(&mut m, "lookup", lookup.encode());
            },
            Dimension::Lookup { dimension, output_name, name } => {
                put(&mut m, "type", text_json("lookup"));
                put(&mut m, "dimension", text_json(dimension.as_str()));
                put(&mut m, "outputName", text_json(output_name.as_str()));
                put(&mut m, "name", text_json(name.as_str()));
            },
        }
        proof {
            self@.lemma_round_trip();
        }
        object_json(m)
    }

    /// Writes each element of a list in its wire form. Each is read
    /// back as it is.
    pub fn encode_list(list: &Vec<Dimension>) -> (items: Vec<Json>)
        ensures
            items_view(items@) == DimensionView::wire_list(list_view(list@)),
            DimensionView::all_read_back(list_view(list@)),
        decreases list,
    {
        let mut items: Vec<Json> = Vec::new();
        let mut i: usize = 0;
        while i < list.len()
            invariant
                i <= list.len(),
                items.len() == i,
                forall|k: int| 0 <= k < i ==> items[k]@ == list[k]@.wire(),
                forall|k: int| 0 <= k < i ==> (#[trigger] list[k]@).reads_back(),
            decreases list.len() - i,
        {
            items.push(list[i].encode());
            i += 1;
        }
        assert(items_view(items@) =~= DimensionView::wire_list(list_view(list@)));
        assert forall|k: int| 0 <= k < list.len() implies (#[trigger] list_view(list@)[k]).reads_back() by {
            assert(list[k]@.reads_back());
        }
        items
    }

    /// Reads a value from its wire form.
    pub fn decode(j: &Json) -> (r: Result<Dimension, DecodeError>)
        ensures
            decoded(r) == DimensionView::parse(j@),
        decreases j,
    {
        let m = read_members(j)?;
        let t = text_member(m, "type")?;
        if str_eq(t.as_str(), "default") {
            Self::decode_default(m)
        } else if str_eq(t.as_str(), "extraction") {
            Self::decode_extraction(m)
        } else if str_eq(t.as_str(), "listFiltered") {
            Self::decode_list_filtered(m)
        } else if str_eq(t.as_str(), "regexFiltered") {
            Self::decode_regex_filtered(m)
        } else if str_eq(t.as_str(), "prefixFiltered") {
            Self::decode_prefix_filtered(m)
        } else if str_eq(t.as_str(), "lookupMap") {
            Self::decode_lookup_map(m)
        } else if str_eq(t.as_str(), "lookup") {
            Self::decode_lookup(m)
        } else {
            Err(DecodeError::here(DecodeCause::UnknownVariant).within_key("type"))
        }
    }

    fn decode_default(m: &Vec<Member>) -> (r: Result<Dimension, DecodeError>)
        ensures
            decoded(r) == DimensionView::parse_default(members_view(m@)),
        decreases m,
    {
        let dimension = text_member(m, "dimension")?;
        let output_name = text_member(m, "outputName")?;
        let output_type = under_key(
            OutputType::decode(required_field(m, "outputType")?),
            "outputType",
        )?;
        Ok(Dimension::Default { dimension, output_name, output_type })
    }

    fn decode_extraction(m: &Vec<Member>) -> (r: Result<Dimension, DecodeError>)
        ensures
            decoded(r) == DimensionView::parse_extraction(members_view(m@)),
        decreases m,
    {
        let dimension = text_member(m, "dimension")?;
        let output_name = text_member(m, "outputName")?;
        let output_type = under_key(
            OutputType::decode(required_field(m, "outputType")?),
            "outputType",
        )?;
        let extraction_fn = under_key(
            ExtractFN::decode(required_field(m, "extractionFn")?),
            "extractionFn",
        )?;
        Ok(Dimension::Extraction { dimension, output_name, output_type, extraction_fn })
    }

    fn decode_list_filtered(m: &Vec<Member>) -> (r: Result<Dimension, DecodeError>)
        ensures
            decoded(r) == DimensionView::parse_list_filtered(members_view(m@)),
        decreases m,
    {
        let delegate = Box::new(
            under_key(Dimension::decode(required_field(m, "delegate")?), "delegate")?,
        );
        let values = texts_member(m, "values")?;
        let is_whitelist = flag_member(m, "isWhitelist")?;
        Ok(Dimension::ListFiltered { delegate, values, is_whitelist })
    }

    fn decode_regex_filtered(m: &Vec<Member>) -> (r: Result<Dimension, DecodeError>)
        ensures
            decoded(r) == DimensionView::parse_regex_filtered(members_view(m@)),
        decreases m,
    {
        let delegate = Box::new(
            under_key(Dimension::decode(required_field(m, "delegate")?), "delegate")?,
        );
        let pattern = text_member(m, "pattern")?;
        Ok(Dimension::RegexFiltered { delegate, pattern })
    }

    fn decode_prefix_filtered(m: &Vec<Member>) -> (r: Result<Dimension, DecodeError>)
        ensures
            decoded(r) == DimensionView::parse_prefix_filtered(members_view(m@)),
        decreases m,
    {
        let delegate = Box::new(
            under_key(Dimension::decode(required_field(m, "delegate")?), "delegate")?,
        );
        let prefix = text_member(m, "prefix")?;
        Ok(Dimension::PrefixFiltered { delegate, prefix })
    }

    fn decode_lookup_map(m: &Vec<Member>) -> (r: Result<Dimension, DecodeError>)
        ensures
            decoded(r) == DimensionView::parse_lookup_map(members_view(m@)),
        decreases m,
    {
        let dimension = text_member(m, "dimension")?;
        let output_name = text_member(m, "outputName")?;
        let replace_missing_value_with = text_member(m, "replaceMissingValueWith")?;
        let retain_missing_value = flag_member(m, "retainMissingValue")?;
        let lookup = under_key(LookupMap::decode(required_field(m, "lookup")?), "lookup")?;
        Ok(
            Dimension::LookupMap {
                dimension,
                output_name,
                replace_missing_value_with,
                retain_missing_value,
                lookup,
            },
        )
    }

    fn decode_lookup(m: &Vec<Member>) -> (r: Result<Dimension, DecodeError>)
        ensures
            decoded(r) == DimensionView::parse_lookup(members_view(m@)),
        decreases m,
    {
        let dimension = text_member(m, "dimension")?;
        let output_name = text_member(m, "outputName")?;
        let name = text_member(m, "name")?;
        Ok(Dimension::Lookup { dimension, output_name, name })
    }

    /// Reads each element of an array from its wire form.
    pub fn decode_list(items: &Vec<Json>) -> (r: Result<Vec<Dimension>, DecodeError>)
        ensures
            decoded_list(r) == DimensionView::parse_list(items_view(items@)),
        decreases items,
    {
        let ghost read = |j: JsonValue| DimensionView::parse(j);
        let mut out: Vec<Dimension> = Vec::new();
        let mut i: usize = 0;
        while i < items.len()
            invariant
                i <= items.len(),
                out.len() == i,
                read == (|j: JsonValue| DimensionView::parse(j)),
                forall|k: int|
                0 <= k < i ==>
                    (#[trigger] read(items_view(items@)[k]))
                        == Ok::<DimensionView, Failure>(out[k]@),
            decreases items.len() - i,
        {
            match Dimension::decode(&items[i]) {
                Ok(v) => {
                    out.push(v);
                },
                Err(e) => {
                    proof {
                        assert(read(items_view(items@)[i as int]) is Err);
                        lemma_read_all_refused(items_view(items@), read, i as int);
                        DimensionView::lemma_parse_list(items_view(items@));
                    }
                    return Err(e.within_index(i));
                },
            }
            i += 1;
        }
        proof {
            lemma_read_all_accepted(items_view(items@), read, list_view(out@));
            DimensionView::lemma_parse_list(items_view(items@));
        }
        Ok(out)
    }
}

/// The names of the members differ from one another.
proof fn lemma_keys()
    ensures
        "delegate"@.len() == 8,
        "dimension"@.len() == 9,
        "extractionFn"@.len() == 12,
        "isWhitelist"@.len() == 11,
        "lookup"@.len() == 6,
        "name"@.len() == 4,
        "outputName"@.len() == 10,
        "outputType"@.len() == 10,
        "pattern"@.len() == 7,
        "prefix"@.len() == 6,
        "replaceMissingValueWith"@.len() == 23,
        "retainMissingValue"@.len() == 18,
        "type"@.len() == 4,
        "values"@.len() == 6,
        "name"@[0] == 'n',
        "type"@[0] == 't',
        "lookup"@[0] == 'l',
        "prefix"@[0] == 'p',
        "values"@[0] == 'v',
        "outputName"@[6] == 'N',
        "outputType"@[6] == 'T',
{
    reveal_strlit("delegate");
    reveal_strlit("dimension");
    reveal_strlit("extractionFn");
    reveal_strlit("isWhitelist");
    reveal_strlit("lookup");
    reveal_strlit("name");
    reveal_strlit("outputName");
    reveal_strlit("outputType");
    reveal_strlit("pattern");
    reveal_strlit("prefix");
    reveal_strlit("replaceMissingValueWith");
    reveal_strlit("retainMissingValue");
    reveal_strlit("type");
    reveal_strlit("values");
}

/// The names that stand for the variants differ from one another.
proof fn lemma_tags()
    ensures
        "default"@.len() == 7,
        "extraction"@.len() == 10,
        "listFiltered"@.len() == 12,
        "lookup"@.len() == 6,
        "lookupMap"@.len() == 9,
        "prefixFiltered"@.len() == 14,
        "regexFiltered"@.len() == 13,
{
    reveal_strlit("default");
    reveal_strlit("extraction");
    reveal_strlit("listFiltered");
    reveal_strlit("lookup");
    reveal_strlit("lookupMap");
    reveal_strlit("prefixFiltered");
    reveal_strlit("regexFiltered");
}

} // verus!
