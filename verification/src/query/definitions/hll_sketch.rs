//! The parameter of the HLL sketch aggregation.

use vstd::prelude::*;
use crate::codec::{as_text, read_str, text, text_json};
use crate::error::{decoded, DecodeCause, DecodeError, Failure};
use crate::json::{str_eq, Json, JsonValue};

verus! {

/// The register width of an HLL sketch.
#[allow(non_camel_case_types)]
#[derive(Clone, Copy, Debug, PartialEq, Eq, Structural)]
pub enum HllType {
    HLL_4,
    HLL_6,
    HLL_8,
}

impl View for HllType {
    type V = HllType;

    open spec fn view(&self) -> HllType {
        *self
    }
}

impl HllType {
    /// The name that stands for the value on the wire.
    pub open spec fn name(self) -> Seq<char> {
        match self {
            HllType::HLL_4 => "HLL_4"@,
            HllType::HLL_6 => "HLL_6"@,
            HllType::HLL_8 => "HLL_8"@,
        }
    }

    /// The value that a name stands for, if it stands for one.
    pub open spec fn named(s: Seq<char>) -> Option<HllType> {
        if s == "HLL_4"@ {
            Some(HllType::HLL_4)
        } else if s == "HLL_6"@ {
            Some(HllType::HLL_6)
        } else if s == "HLL_8"@ {
            Some(HllType::HLL_8)
        } else {
            None
        }
    }

    /// The wire form: the name, as a string.
    pub open spec fn wire(self) -> JsonValue {
        text(self.name())
    }

    /// What a document is read as: a string that is one of the names
    /// gives its value, any other string is an unknown variant, and
    /// anything but a string a type mismatch.
    pub open spec fn parse(j: JsonValue) -> Result<HllType, Failure> {
        match as_text(j) {
            Ok(s) => match Self::named(s) {
                Some(v) => Ok(v),
                None => Err(Failure::here(DecodeCause::UnknownVariant)),
            },
            Err(e) => Err(e),
        }
    }

    /// Writes the value in its wire form.
    pub fn encode(&self) -> (j: Json)
        ensures
            j@ == self.wire(),
    {
        match self {
            HllType::HLL_4 => text_json("HLL_4"),
            HllType::HLL_6 => text_json("HLL_6"),
            HllType::HLL_8 => text_json("HLL_8"),
        }
    }

    /// Reads a value from its wire form.
    pub fn decode(j: &Json) -> (r: Result<HllType, DecodeError>)
        ensures
            decoded(r) == Self::parse(j@),
    {
        let s = match read_str(j) {
            Ok(s) => s,
            Err(e) => {
                return Err(e);
            },
        };
        if str_eq(s, "HLL_4") {
            Ok(HllType::HLL_4)
        } else if str_eq(s, "HLL_6") {
            Ok(HllType::HLL_6)
        } else if str_eq(s, "HLL_8") {
            Ok(HllType::HLL_8)
        } else {
            Err(DecodeError::here(DecodeCause::UnknownVariant))
        }
    }

    /// Reading back what was written gives the value again.
    pub proof fn lemma_round_trip(self)
        ensures
            Self::parse(self.wire()) == Ok::<HllType, Failure>(self),
    {
        lemma_names();
    }

    /// A string that is none of the names is refused as an unknown
    /// variant.
    pub proof fn lemma_unknown_name(s: Seq<char>)
        requires
            Self::named(s) is None,
        ensures
            Self::parse(text(s)) == Err::<HllType, Failure>(
                Failure::here(DecodeCause::UnknownVariant),
            ),
    {
    }
}

/// The names of this module differ from one another.
proof fn lemma_names()
    ensures
        "HLL_4"@.len() == 5,
        "HLL_6"@.len() == 5,
        "HLL_8"@.len() == 5,
        "HLL_4"@[4] == '4',
        "HLL_6"@[4] == '6',
        "HLL_8"@[4] == '8',
{
    reveal_strlit("HLL_4");
    reveal_strlit("HLL_6");
    reveal_strlit("HLL_8");
}

} // verus!
