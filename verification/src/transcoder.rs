//! Choosing the pair of formats, and settling what a conversion returns.

use crate::adapters::{
    document_view, json_reading, json_to_json, json_to_yaml, read_json, read_yaml, reading_view,
    replayed, yaml_reading, yaml_to_json, yaml_to_yaml,
};
use crate::error::{ErrorKind, Failure, TranscodeError};
use crate::format::Format;
use vstd::prelude::*;

verus! {

/// The verdict of the reader of `source` on `input`, read on its own.
pub open spec fn source_reading(source: Format, input: Seq<u8>) -> Result<(), Seq<char>> {
    match source {
        Format::Json => json_reading(input),
        Format::Yaml => yaml_reading(input),
    }
}

/// The diagnostic for a document of no bytes.
pub open spec fn empty_input_message() -> Seq<char> {
    "the input is empty: it holds no value"@
}

/// The failure that a failed conversion is reported as: the reader's own
/// complaint where the source does not read, else the conversion's
/// diagnostic, laid on the destination.
pub open spec fn attributed(failure: Seq<char>, reading: Result<(), Seq<char>>) -> Failure {
    match reading {
        Err(complaint) => Failure { kind: ErrorKind::Parse, message: complaint },
        Ok(()) => Failure { kind: ErrorKind::Write, message: failure },
    }
}

/// What a conversion of `input` returns, given what replaying it gave and
/// what the source's reader says of it.
pub open spec fn settled(
    input: Seq<u8>,
    replay: Result<Seq<u8>, Seq<char>>,
    reading: Result<(), Seq<char>>,
) -> Result<Seq<u8>, Failure> {
    if input.len() == 0 {
        Err(Failure { kind: ErrorKind::Parse, message: empty_input_message() })
    } else {
        match replay {
            Ok(document) => Ok(document),
            Err(failure) => Err(attributed(failure, reading)),
        }
    }
}

/// What converting `input` from `source` to `dest` returns.
pub open spec fn transcoded(source: Format, dest: Format, input: Seq<u8>) -> Result<
    Seq<u8>,
    Failure,
> {
    settled(input, replayed(source, dest, input), source_reading(source, input))
}

/// A converted document or a failure, as mathematical values.
pub open spec fn outcome_view(r: Result<Vec<u8>, TranscodeError>) -> Result<Seq<u8>, Failure> {
    match r {
        Ok(document) => Ok(document@),
        Err(e) => Err(e@),
    }
}

/// Replays a JSON document into the writer of `dest`.
fn from_json(dest: Format, input: &[u8]) -> (r: Result<Vec<u8>, String>)
    ensures
        document_view(r) == replayed(Format::Json, dest, input@),
{
    match dest {
        Format::Json => json_to_json(input),
        Format::Yaml => json_to_yaml(input),
    }
}

/// Replays a YAML document into the writer of `dest`.
fn from_yaml(dest: Format, input: &[u8]) -> (r: Result<Vec<u8>, String>)
    ensures
        document_view(r) == replayed(Format::Yaml, dest, input@),
{
    match dest {
        Format::Json => yaml_to_json(input),
        Format::Yaml => yaml_to_yaml(input),
    }
}

/// Replays the document `input`, read as `source`, into the writer of
/// `dest`, and returns what the writer put out. On failure the diagnostic
/// does not say which side failed.
pub fn replay(source: Format, dest: Format, input: &[u8]) -> (r: Result<Vec<u8>, String>)
    ensures
        document_view(r) == replayed(source, dest, input@),
{
    match source {
        Format::Json => from_json(dest, input),
        Format::Yaml => from_yaml(dest, input),
    }
}

/// Reads `input` as one document of `source`, on its own, and says whether
/// the reader takes it.
pub fn read_source(source: Format, input: &[u8]) -> (r: Result<(), String>)
    ensures
        reading_view(r) == source_reading(source, input@),
{
    match source {
        Format::Json => read_json(input),
        Format::Yaml => read_yaml(input),
    }
}

/// Lays a failed conversion on one side. `failure` is the conversion's
/// diagnostic, `reading` the verdict of the source's reader on the same
/// document.
pub fn attribute(failure: String, reading: Result<(), String>) -> (e: TranscodeError)
    ensures
        e@ == attributed(failure@, reading_view(reading)),
{
    match reading {
        Err(complaint) => TranscodeError { kind: ErrorKind::Parse, message: complaint },
        Ok(()) => TranscodeError { kind: ErrorKind::Write, message: failure },
    }
}

/// Converts the document `input` from `source` to `dest`.
///
/// A document of no bytes is refused before any reader sees it. Otherwise
/// the document is replayed once; only where that fails is the source read
/// a second time, to lay the failure on one side. No output is returned
/// with a failure.
pub fn transcode(source: Format, dest: Format, input: &[u8]) -> (r: Result<
    Vec<u8>,
    TranscodeError,
>)
    ensures
        outcome_view(r) == transcoded(source, dest, input@),
{
    if input.len() == 0 {
        let message = "the input is empty: it holds no value".to_owned();
        return Err(TranscodeError { kind: ErrorKind::Parse, message });
    }
    match replay(source, dest, input) {
        Ok(document) => Ok(document),
        Err(failure) => {
            let reading = read_source(source, input);
            Err(attribute(failure, reading))
        },
    }
}

} // verus!
