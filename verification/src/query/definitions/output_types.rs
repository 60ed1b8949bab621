//! The type that a column is read as.

use vstd::prelude::*;
use crate::codec::{as_text, read_str, text, text_json};
use crate::error::{decoded, DecodeCause, DecodeError, Failure};
use crate::json::{str_eq, Json, JsonValue};

verus! {

/// The type that the values of a dimension or of a virtual column are read as.
#[derive(Clone, Copy, Debug, PartialEq, Eq, Structural)]
pub enum OutputType {
    STRING,
    LONG,
    FLOAT,
}

impl View for OutputType {
    type V = OutputType;

    open spec fn view(&self) -> OutputType {
        *self
    }
}

impl OutputType {
    /// The name that stands for the value on the wire.
    pub open spec fn name(self) -> Seq<char> {
        match self {
            OutputType::STRING => "STRING"@,
            OutputType::LONG => "LONG"@,
            OutputType::FLOAT => "FLOAT"@,
        }
    }

    /// The value that a name stands for, if it stands for one.
    pub open spec fn named(s: Seq<char>) -> Option<OutputType> {
        if s == "STRING"@ {
            Some(OutputType::STRING)
        } else if s == "LONG"@ {
            Some(OutputType::LONG)
        } else if s == "FLOAT"@ {
            Some(OutputType::FLOAT)
        } else {
            None
        }
    }

    /// The wire form: the name, as a string.
    pub open spec fn wire(self) -> JsonValue {
        text(self.name())
    }

    /// What a document is read as: a string that is one of the names
    /// gives its value, any other string is an unknown variant, and
    /// anything but a string a type mismatch.
    pub open spec fn parse(j: JsonValue) -> Result<OutputType, Failure> {
        match as_text(j) {
            Ok(s) => match Self::named(s) {
                Some(v) => Ok(v),
                None => Err(Failure::here(DecodeCause::UnknownVariant)),
            },
            Err(e) => Err(e),
        }
    }

    /// Writes the value in its wire form.
    pub fn encode(&self) -> (j: Json)
        ensures
            j@ == self.wire(),
    {
        match self {
            OutputType::STRING => text_json("STRING"),
            OutputType::LONG => text_json("LONG"),
            OutputType::FLOAT => text_json("FLOAT"),
        }
    }

    /// Reads a value from its wire form.
    pub fn decode(j: &Json) -> (r: Result<OutputType, DecodeError>)
        ensures
            decoded(r) == Self::parse(j@),
    {
        let s = match read_str(j) {
            Ok(s) => s,
            Err(e) => {
                return Err(e);
            },
        };
        if str_eq(s, "STRING") {
            Ok(OutputType::STRING)
        } else if str_eq(s, "LONG") {
            Ok(OutputType::LONG)
        } else if str_eq(s, "FLOAT") {
            Ok(OutputType::FLOAT)
        } else {
            Err(DecodeError::here(DecodeCause::UnknownVariant))
        }
    }

    /// Reading back what was written gives the value again.
    pub proof fn lemma_round_trip(self)
        ensures
            Self::parse(self.wire()) == Ok::<OutputType, Failure>(self),
    {
        lemma_names();
    }

    /// A string that is none of the names is refused as an unknown
    /// variant.
    pub proof fn lemma_unknown_name(s: Seq<char>)
        requires
            Self::named(s) is None,
        ensures
            Self::parse(text(s)) == Err::<OutputType, Failure>(
                Failure::here(DecodeCause::UnknownVariant),
            ),
    {
    }
}

/// The names of this module differ from one another.
proof fn lemma_names()
    ensures
        "FLOAT"@.len() == 5,
        "LONG"@.len() == 4,
        "STRING"@.len() == 6,
{
    reveal_strlit("FLOAT");
    reveal_strlit("LONG");
    reveal_strlit("STRING");
}

} // verus!
