use vstd::prelude::*;

verus! {

/// The side of a conversion that a failure is laid on.
#[derive(Clone, Copy, Debug, PartialEq, Eq, Structural)]
pub enum ErrorKind {
    /// The source document does not read as a value of its format.
    Parse,
    /// The source document reads, and the conversion failed all the same:
    /// the destination could not take a value that the source holds.
    Write,
}

/// Why a conversion produced no document.
#[derive(Debug, PartialEq, Eq)]
pub struct TranscodeError {
    pub kind: ErrorKind,
    /// The diagnostic of the side that failed, as that side worded it.
    pub message: String,
}

/// The mathematical content of a `TranscodeError`.
pub struct Failure {
    pub kind: ErrorKind,
    pub message: Seq<char>,
}

impl View for TranscodeError {
    type V = Failure;

    open spec fn view(&self) -> Failure {
        Failure { kind: self.kind, message: self.message@ }
    }
}

} // verus!
