use vstd::prelude::*;

verus! {

/// A textual data format that a document can be read from or written in.
#[derive(Clone, Copy, Debug, PartialEq, Eq, PartialOrd, Ord, Hash, Structural)]
pub enum Format {
    Json,
    Yaml,
}

} // verus!
