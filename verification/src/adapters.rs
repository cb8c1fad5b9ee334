//! The boundary to the formats' own readers and writers.
//!
//! Nothing in this file is proved. Each function below makes one call into
//! an outside crate, and its contract gives the call's result a name; the
//! rest of the library reasons about those names only.

use crate::format::Format;
use serde::Deserialize;
use vstd::prelude::*;

verus! {

/// What `serde_transcode::transcode` returns when it drives the reader of
/// `source` over `input` into the pretty-printing writer of `dest`: the
/// bytes that the writer has put out, or the diagnostic of the failure.
/// The call reads nothing but `input`, so the same bytes give the same
/// result.
pub uninterp spec fn replayed(source: Format, dest: Format, input: Seq<u8>) -> Result<
    Seq<u8>,
    Seq<char>,
>;

/// What deserializing a `serde_json::Value` from `input` returns, the value
/// itself left out: `Err` with the reader's diagnostic where the reader
/// refuses `input`.
pub uninterp spec fn json_reading(input: Seq<u8>) -> Result<(), Seq<char>>;

/// What deserializing a `serde_yaml::Value` from `input` returns, the value
/// itself left out: `Err` with the reader's diagnostic where the reader
/// refuses `input`.
pub uninterp spec fn yaml_reading(input: Seq<u8>) -> Result<(), Seq<char>>;

/// A document or a diagnostic, as sequences.
pub open spec fn document_view(r: Result<Vec<u8>, String>) -> Result<Seq<u8>, Seq<char>> {
    match r {
        Ok(document) => Ok(document@),
        Err(message) => Err(message@),
    }
}

/// The verdict of a reader, its diagnostic as a sequence.
pub open spec fn reading_view(r: Result<(), String>) -> Result<(), Seq<char>> {
    match r {
        Ok(()) => Ok(()),
        Err(message) => Err(message@),
    }
}

/// Calls `serde_transcode::transcode` with a `serde_json::Deserializer`
/// over `input` and a pretty `serde_json::Serializer` over a fresh buffer.
/// Trusted: the result is the one named `replayed` for this pair, the
/// buffer on success and the error's `Display` text on failure.
#[verifier::external_body]
pub(crate) fn json_to_json(input: &[u8]) -> (r: Result<Vec<u8>, String>)
    ensures
        document_view(r) == replayed(Format::Json, Format::Json, input@),
{
    let mut out = Vec::new();
    let mut de = serde_json::Deserializer::from_reader(input);
    let mut ser = serde_json::Serializer::pretty(&mut out);
    match serde_transcode::transcode(&mut de, &mut ser) {
        Ok(()) => Ok(out),
        Err(e) => Err(e.to_string()),
    }
}

/// Calls `serde_transcode::transcode` with a `serde_json::Deserializer`
/// over `input` and a `serde_yaml::Serializer` over a fresh buffer.
/// Trusted: the result is the one named `replayed` for this pair, the
/// buffer on success and the error's `Display` text on failure.
#[verifier::external_body]
pub(crate) fn json_to_yaml(input: &[u8]) -> (r: Result<Vec<u8>, String>)
    ensures
        document_view(r) == replayed(Format::Json, Format::Yaml, input@),
{
    let mut out = Vec::new();
    let mut de = serde_json::Deserializer::from_reader(input);
    let mut ser = serde_yaml::Serializer::new(&mut out);
    match serde_transcode::transcode(&mut de, &mut ser) {
        Ok(()) => Ok(out),
        Err(e) => Err(e.to_string()),
    }
}

/// Calls `serde_transcode::transcode` with a `serde_yaml::Deserializer`
/// over `input` and a pretty `serde_json::Serializer` over a fresh buffer.
/// Trusted: the result is the one named `replayed` for this pair, the
/// buffer on success and the error's `Display` text on failure.
#[verifier::external_body]
pub(crate) fn yaml_to_json(input: &[u8]) -> (r: Result<Vec<u8>, String>)
    ensures
        document_view(r) == replayed(Format::Yaml, Format::Json, input@),
{
    let mut out = Vec::new();
    let de = serde_yaml::Deserializer::from_reader(input);
    let mut ser = serde_json::Serializer::pretty(&mut out);
    match serde_transcode::transcode(de, &mut ser) {
        Ok(()) => Ok(out),
        Err(e) => Err(e.to_string()),
    }
}

/// Calls `serde_transcode::transcode` with a `serde_yaml::Deserializer`
/// over `input` and a `serde_yaml::Serializer` over a fresh buffer.
/// Trusted: the result is the one named `replayed` for this pair, the
/// buffer on success and the error's `Display` text on failure.
#[verifier::external_body]
pub(crate) fn yaml_to_yaml(input: &[u8]) -> (r: Result<Vec<u8>, String>)
    ensures
        document_view(r) == replayed(Format::Yaml, Format::Yaml, input@),
{
    let mut out = Vec::new();
    let de = serde_yaml::Deserializer::from_reader(input);
    let mut ser = serde_yaml::Serializer::new(&mut out);
    match serde_transcode::transcode(de, &mut ser) {
        Ok(()) => Ok(out),
        Err(e) => Err(e.to_string()),
    }
}

/// Calls `serde_json::Value::deserialize` on a `serde_json::Deserializer`
/// over `input` and drops the value. Trusted: the result is the one named
/// `json_reading`, the error's `Display` text on failure.
#[verifier::external_body]
pub(crate) fn read_json(input: &[u8]) -> (r: Result<(), String>)
    ensures
        reading_view(r) == json_reading(input@),
{
    let mut de = serde_json::Deserializer::from_reader(input);
    match serde_json::Value::deserialize(&mut de) {
        Ok(_) => Ok(()),
        Err(e) => Err(e.to_string()),
    }
}

/// Calls `serde_yaml::Value::deserialize` on a `serde_yaml::Deserializer`
/// over `input` and drops the value. Trusted: the result is the one named
/// `yaml_reading`, the error's `Display` text on failure.
#[verifier::external_body]
pub(crate) fn read_yaml(input: &[u8]) -> (r: Result<(), String>)
    ensures
        reading_view(r) == yaml_reading(input@),
{
    let de = serde_yaml::Deserializer::from_reader(input);
    match serde_yaml::Value::deserialize(de) {
        Ok(_) => Ok(()),
        Err(e) => Err(e.to_string()),
    }
}

} // verus!
