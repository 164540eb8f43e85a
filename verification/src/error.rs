//! Error values for sequence decoding: a terminal failure kind plus a
//! stack of component annotations, so a failure inside a nested decode
//! names the frames it passed through.

use vstd::prelude::*;
use vstd::string::StringExecFns;

verus! {

/// The terminal reason a decode failed.
#[derive(Debug, Clone, PartialEq, Eq, Structural)]
pub enum DeserializeFailure {
    /// A semantic tag was present but was not the expected one.
    TagMismatch { found: u64, expected: u64 },
    /// The bytes ran out before the current item was complete.
    UnexpectedEndOfStream,
    /// A length head with a reserved or unsupported argument field.
    MalformedLengthHeader,
    /// An item of the wrong major type where another was required.
    UnexpectedType,
    /// A special-category item at an element position that is not the
    /// break marker: the only special item a sequence body may hold.
    UnexpectedSpecial,
}

/// A decode failure together with the names of the decoding frames it was
/// annotated with on its way out, innermost first.
#[derive(Debug, Clone)]
pub struct DeserializeError {
    pub failure: DeserializeFailure,
    pub annotations: Vec<String>,
}

/// Whether `e` was annotated with the name of this component as its
/// outermost decoding frame.
pub open spec fn names_this_component(e: DeserializeError) -> bool {
    e.annotations@.len() > 0 && e.annotations@.last()@ == "NonemptySet"@
}

impl DeserializeError {
    /// A fresh error with no annotations yet.
    pub fn new(failure: DeserializeFailure) -> (r: Self)
        ensures
            r.failure == failure,
            r.annotations@ == Seq::<String>::empty(),
    {
        DeserializeError { failure, annotations: Vec::new() }
    }

    /// The same error with `location` recorded as one more enclosing
    /// decoding frame.
    pub fn annotate(self, location: &str) -> (r: Self)
        ensures
            r.failure == self.failure,
            r.annotations@.len() == self.annotations@.len() + 1,
            r.annotations@.take(self.annotations@.len() as int) == self.annotations@,
            r.annotations@.last()@ == location@,
    {
        let mut annotations = self.annotations;
        annotations.push(String::from_str(location));
        DeserializeError { failure: self.failure, annotations }
    }
}

} // verus!
