//! Trusted boundary to serde_json: parsing a response body and reading the
//! one field each upstream service is queried for. The named results below
//! depend on the body text alone, so the verified interpretation functions
//! can state their answers exactly in terms of these names.

use vstd::prelude::*;
use crate::model::opt_view;

verus! {

/// Marker so that `serde_json::Error` can stand in signatures; the library
/// never reads such an error, it only maps it to a parse failure of its own.
#[verifier::external_type_specification]
#[verifier::external_body]
pub struct ExSerdeError(serde_json::Error);

/// Whether serde_json parses this text as a JSON document.
pub uninterp spec fn parses_as_json(body: Seq<char>) -> bool;

/// The string at path `crate.repository` of the parsed document, if the
/// body parses and that field is present and a string.
pub uninterp spec fn repository_field(body: Seq<char>) -> Option<Seq<char>>;

/// The decimal text of the number at field `score` of the parsed document,
/// if the body parses and that field is present and a number.
pub uninterp spec fn score_field(body: Seq<char>) -> Option<Seq<char>>;

/// Relies on `serde_json::from_str::<serde_json::Value>` and
/// `Value::{get, as_str}`: parses `body` and reads the string field
/// `repository` inside the object field `crate`. Success and result are a
/// function of the body text alone.
#[verifier::external_body]
pub(crate) fn read_repository_field(body: &str) -> (r: Result<Option<String>, serde_json::Error>)
    ensures
        r is Ok <==> parses_as_json(body@),
        r matches Ok(o) ==> opt_view(o) == repository_field(body@),
{
    match serde_json::from_str::<serde_json::Value>(body) {
        Err(e) => Err(e),
        Ok(doc) => match doc.get("crate") {
            Some(c) => match c.get("repository") {
                Some(f) => match f.as_str() {
                    Some(s) => Ok(Some(s.to_owned())),
                    None => Ok(None),
                },
                None => Ok(None),
            },
            None => Ok(None),
        },
    }
}

/// Relies on `serde_json::from_str::<serde_json::Value>`,
/// `Value::{get, as_number}` and the `Display` of `serde_json::Number`:
/// parses `body` and renders the number field `score`, when there is one, as
/// its decimal text. Success and result are a function of the body text
/// alone.
#[verifier::external_body]
pub(crate) fn read_score_field(body: &str) -> (r: Result<Option<String>, serde_json::Error>)
    ensures
        r is Ok <==> parses_as_json(body@),
        r matches Ok(o) ==> opt_view(o) == score_field(body@),
{
    match serde_json::from_str::<serde_json::Value>(body) {
        Err(e) => Err(e),
        Ok(doc) => match doc.get("score") {
            Some(f) => match f.as_number() {
                Some(n) => Ok(Some(n.to_string())),
                None => Ok(None),
            },
            None => Ok(None),
        },
    }
}

} // verus!
