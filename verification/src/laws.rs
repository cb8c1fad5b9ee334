//! What holds of every conversion, whatever the formats' readers and
//! writers make of a document.

use crate::adapters::replayed;
use crate::error::{ErrorKind, Failure};
use crate::format::Format;
use crate::transcoder::{empty_input_message, source_reading, transcoded};
use vstd::prelude::*;

verus! {

/// A document of no bytes holds no value: whatever the two formats, its
/// conversion is a parse error, and never an empty document.
pub proof fn lemma_empty_input_is_a_parse_error(source: Format, dest: Format, input: Seq<u8>)
    requires
        input.len() == 0,
    ensures
        transcoded(source, dest, input) == Err::<Seq<u8>, Failure>(
            Failure { kind: ErrorKind::Parse, message: empty_input_message() },
        ),
{
}

/// Where a conversion fails on a document that the source's reader
/// refuses, the failure is a parse error, it carries the reader's own
/// complaint, and no document is returned.
pub proof fn lemma_unreadable_source_is_a_parse_error(
    source: Format,
    dest: Format,
    input: Seq<u8>,
)
    requires
        replayed(source, dest, input) is Err,
        source_reading(source, input) is Err,
    ensures
        transcoded(source, dest, input) is Err,
        transcoded(source, dest, input)->Err_0.kind == ErrorKind::Parse,
        input.len() > 0 ==> transcoded(source, dest, input)->Err_0.message == source_reading(
            source,
            input,
        )->Err_0,
{
}

/// A failure is laid on the destination exactly where the document is not
/// empty, its source reads, and replaying it fails; the diagnostic is then
/// the one that the replay gave.
pub proof fn lemma_write_error_means_the_source_reads(
    source: Format,
    dest: Format,
    input: Seq<u8>,
)
    ensures
        (transcoded(source, dest, input) is Err && transcoded(source, dest, input)->Err_0.kind
            == ErrorKind::Write) <==> (input.len() > 0 && replayed(source, dest, input) is Err
            && source_reading(source, input) is Ok),
        transcoded(source, dest, input) is Err && transcoded(source, dest, input)->Err_0.kind
            == ErrorKind::Write ==> transcoded(source, dest, input)->Err_0.message == replayed(
            source,
            dest,
            input,
        )->Err_0,
{
}

/// A conversion returns a document exactly where the input is not empty and
/// replaying it succeeds, and the document is the replayed one, unchanged.
pub proof fn lemma_success_is_the_replayed_document(source: Format, dest: Format, input: Seq<u8>)
    ensures
        transcoded(source, dest, input) is Ok <==> input.len() > 0 && replayed(
            source,
            dest,
            input,
        ) is Ok,
        transcoded(source, dest, input) is Ok ==> transcoded(source, dest, input)->Ok_0
            == replayed(source, dest, input)->Ok_0,
{
}

} // verus!
