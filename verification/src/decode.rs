//! Decode entry points: feed a fully-materialized buffer to the external
//! JSON parser and, on failure, bundle the classified error with the buffer
//! so the diagnostic can re-display the offending line.

use vstd::prelude::*;
use vstd::string::StringSliceAdditionalSpecFns;
use crate::error::{ClassifiedError, Error, ErrorKind, SourceRecord};

verus! {

/// Relies on `serde_json::Deserializer::from_str` and `T::deserialize`:
/// decodes the text and classifies any failure, with the parser's line,
/// column and display message. What position the parser reports is its
/// own affair (`T`'s `Deserialize` impl can even forge one), so nothing is
/// promised of it; rendering checks it against the source.
#[verifier::external_body]
fn decode_str<T: serde::de::DeserializeOwned>(s: &str) -> (r: Result<T, ClassifiedError>)
{
    let mut de = serde_json::Deserializer::from_str(s);
    match T::deserialize(&mut de) {
        Ok(v) => Ok(v),
        Err(e) => {
            let kind = match e.classify() {
                serde_json::error::Category::Io => ErrorKind::Io,
                serde_json::error::Category::Eof => ErrorKind::Eof,
                serde_json::error::Category::Syntax => ErrorKind::Syntax,
                serde_json::error::Category::Data => ErrorKind::DataShape,
            };
            Err(ClassifiedError { kind, line: e.line(), column: e.column(), message: e.to_string() })
        },
    }
}

/// Relies on `serde_json::Deserializer::from_slice` and `T::deserialize`:
/// as `decode_str`, over raw bytes.
#[verifier::external_body]
fn decode_slice<T: serde::de::DeserializeOwned>(s: &[u8]) -> (r: Result<T, ClassifiedError>)
{
    let mut de = serde_json::Deserializer::from_slice(s);
    match T::deserialize(&mut de) {
        Ok(v) => Ok(v),
        Err(e) => {
            let kind = match e.classify() {
                serde_json::error::Category::Io => ErrorKind::Io,
                serde_json::error::Category::Eof => ErrorKind::Eof,
                serde_json::error::Category::Syntax => ErrorKind::Syntax,
                serde_json::error::Category::Data => ErrorKind::DataShape,
            };
            Err(ClassifiedError { kind, line: e.line(), column: e.column(), message: e.to_string() })
        },
    }
}

/// Decode a value from JSON text; on failure the whole input is retained
/// in the diagnostic, so the failing line can be re-displayed. Whether the
/// classifier's position indexes the source is checked when rendering.
pub fn from_str<T: serde::de::DeserializeOwned>(s: &str) -> (r: Result<T, Error>)
    ensures
        r matches Err(e) ==> {
            &&& e@.src == Some(s.spec_bytes())
            &&& e@.filename is None
        },
{
    match decode_str::<T>(s) {
        Ok(v) => Ok(v),
        Err(ce) => Err(
            Error::new(
                SourceRecord::Retained(vstd::slice::slice_to_vec(s.as_bytes())),
                None,
                ce,
            ),
        ),
    }
}

/// Decode a value from JSON text read out of a named file; the name is kept
/// for the diagnostic's header row.
pub fn from_str_with_filename<T: serde::de::DeserializeOwned>(s: &str, filename: String) -> (r:
    Result<T, Error>)
    ensures
        r matches Err(e) ==> {
            &&& e@.src == Some(s.spec_bytes())
            &&& e@.filename == Some(filename@)
        },
{
    match decode_str::<T>(s) {
        Ok(v) => Ok(v),
        Err(ce) => Err(
            Error::new(
                SourceRecord::Retained(vstd::slice::slice_to_vec(s.as_bytes())),
                Some(filename),
                ce,
            ),
        ),
    }
}

/// Decode a value from bytes of JSON text; on failure the whole input is
/// retained in the diagnostic, so the failing line can be re-displayed.
pub fn from_slice<T: serde::de::DeserializeOwned>(s: &[u8]) -> (r: Result<T, Error>)
    ensures
        r matches Err(e) ==> {
            &&& e@.src == Some(s@)
            &&& e@.filename is None
        },
{
    match decode_slice::<T>(s) {
        Ok(v) => Ok(v),
        Err(ce) => Err(Error::new(SourceRecord::Retained(vstd::slice::slice_to_vec(s)), None, ce)),
    }
}

} // verus!
