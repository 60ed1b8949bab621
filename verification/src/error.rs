//! The failures that encoding and decoding can end in.

use vstd::prelude::*;

verus! {

/// Why a document could not be read as the expected shape.
#[derive(Clone, Copy, Debug, PartialEq, Eq, Structural)]
pub enum DecodeCause {
    /// The text is not a JSON document at all.
    Syntax,
    /// The discriminator names no variant of the family.
    UnknownVariant,
    /// A member that the shape requires is absent.
    MissingField,
    /// A value has another JSON type than the shape asks for.
    TypeMismatch,
    /// A time range is not two timestamps around one `/`.
    MalformedInterval,
}

/// Mathematical value of one step of a path into a document.
pub enum StepValue {
    Key(Seq<char>),
    Index(nat),
}

/// One step of a path into a document: the name of an object member or
/// the position of an array element.
#[derive(Debug, PartialEq)]
pub enum PathStep {
    Key(String),
    Index(usize),
}

impl View for PathStep {
    type V = StepValue;

    open spec fn view(&self) -> StepValue {
        match self {
            PathStep::Key(name) => StepValue::Key(name@),
            PathStep::Index(i) => StepValue::Index(*i as nat),
        }
    }
}

/// Mathematical value of a decode failure: where in the document it
/// happened, outermost step first, and why.
pub struct Failure {
    pub path: Seq<StepValue>,
    pub cause: DecodeCause,
}

impl Failure {
    /// A failure at the root of the value that was being read.
    pub open spec fn here(cause: DecodeCause) -> Failure {
        Failure { path: Seq::empty(), cause }
    }

    /// The same failure, seen from one level further out.
    pub open spec fn within(self, step: StepValue) -> Failure {
        Failure { path: seq![step] + self.path, cause: self.cause }
    }

    pub open spec fn within_key(self, name: Seq<char>) -> Failure {
        self.within(StepValue::Key(name))
    }

    pub open spec fn within_index(self, i: nat) -> Failure {
        self.within(StepValue::Index(i))
    }
}

/// A decode failure: the path to the offending value, outermost step
/// first, and the cause.
#[derive(Debug, PartialEq)]
pub struct DecodeError {
    pub path: Vec<PathStep>,
    pub cause: DecodeCause,
}

impl View for DecodeError {
    type V = Failure;

    open spec fn view(&self) -> Failure {
        Failure { path: self.path@.map_values(|s: PathStep| s@), cause: self.cause }
    }
}

impl DecodeError {
    /// A failure at the root of the value that was being read.
    pub fn here(cause: DecodeCause) -> (e: DecodeError)
        ensures
            e@ == Failure::here(cause),
    {
        let e = DecodeError { path: Vec::new(), cause };
        assert(e@.path =~= Seq::empty());
        e
    }

    /// The same failure, seen from one level further out.
    pub fn within(self, step: PathStep) -> (e: DecodeError)
        ensures
            e@ == self@.within(step@),
    {
        let mut path = self.path;
        path.insert(0, step);
        let e = DecodeError { path, cause: self.cause };
        assert(e@.path =~= self@.within(step@).path);
        e
    }

    /// The same failure, seen from the object that holds the member `name`.
    pub fn within_key(self, name: &str) -> (e: DecodeError)
        ensures
            e@ == self@.within_key(name@),
    {
        self.within(PathStep::Key(name.to_string()))
    }

    /// The same failure, seen from the array that holds element `i`.
    pub fn within_index(self, i: usize) -> (e: DecodeError)
        ensures
            e@ == self@.within_index(i as nat),
    {
        self.within(PathStep::Index(i))
    }
}

/// The value of a decode result: the view of what was read, or of the
/// failure.
pub open spec fn decoded<T: View>(r: Result<T, DecodeError>) -> Result<T::V, Failure> {
    match r {
        Ok(v) => Ok(v@),
        Err(e) => Err(e@),
    }
}

/// Mathematical value of a [`CodecError`].
pub enum CodecErrorValue {
    EncodeFailure,
    DecodeFailure(Failure),
    IncompleteJoin,
    RemoteError(Seq<char>),
}

/// Every way in which this crate fails. No failure is retried.
#[derive(Debug, PartialEq)]
pub enum CodecError {
    /// A value has no wire form.
    EncodeFailure,
    /// A document does not have the expected shape.
    DecodeFailure(DecodeError),
    /// A join was built before both sides and the condition were given.
    IncompleteJoin,
    /// The engine answered with a failure report; the document is kept as
    /// it arrived.
    RemoteError { document: String },
}

impl View for CodecError {
    type V = CodecErrorValue;

    open spec fn view(&self) -> CodecErrorValue {
        match self {
            CodecError::EncodeFailure => CodecErrorValue::EncodeFailure,
            CodecError::DecodeFailure(e) => CodecErrorValue::DecodeFailure(e@),
            CodecError::IncompleteJoin => CodecErrorValue::IncompleteJoin,
            CodecError::RemoteError { document } => CodecErrorValue::RemoteError(document@),
        }
    }
}

} // verus!
