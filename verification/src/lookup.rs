//! The two lookup components: the repository resolver against the package
//! registry and the security scorer against the scorecard service. The
//! network transport lives with the caller; the functions here build the
//! request URLs and interpret status code and body of each answer.

use vstd::prelude::*;
use crate::json::{parses_as_json, repository_field, score_field, read_repository_field,
    read_score_field};
use crate::model::{LookupCause, LookupError, opt_view};
use crate::text::{spec_strip_scheme, strip_scheme};

verus! {

/// The registry metadata endpoint for a dependency name.
pub open spec fn spec_registry_url(name: Seq<char>) -> Seq<char> {
    "https://crates.io/api/v1/crates/"@ + name
}

/// Builds the registry metadata URL for `name`.
pub fn registry_url(name: &str) -> (r: String)
    ensures
        r@ == spec_registry_url(name@),
{
    let mut u = String::from_str("https://crates.io/api/v1/crates/");
    u.append(name);
    u
}

/// The scorecard endpoint for a repository URL: the service addresses a
/// project by host and path, so the scheme prefix is stripped first.
pub open spec fn spec_scorecard_url(repo_url: Seq<char>) -> Seq<char> {
    "https://api.securityscorecards.dev/projects/"@ + spec_strip_scheme(repo_url)
}

/// Builds the scorecard query URL for `repo_url`, stripping a leading
/// `http://` and then a leading `https://`, each once.
pub fn scorecard_url(repo_url: &str) -> (r: String)
    ensures
        r@ == spec_scorecard_url(repo_url@),
{
    let mut u = String::from_str("https://api.securityscorecards.dev/projects/");
    let stripped = strip_scheme(repo_url);
    u.append(stripped.as_str());
    u
}

/// Whether an HTTP status code lies in the success range.
pub open spec fn spec_status_success(status: u16) -> bool {
    200 <= status < 300
}

/// Tests an HTTP status code for the success range.
pub fn status_success(status: u16) -> (b: bool)
    ensures
        b == spec_status_success(status),
{
    200 <= status && status < 300
}

/// Interprets the registry's answer for `name`: a status outside the success
/// range is an `HttpStatus` error, a body serde_json cannot parse is a
/// `Parse` error, and otherwise the optional `crate.repository` field is the
/// resolution — `None` when the registry has no repository metadata.
pub fn interpret_registry_response(name: &str, status: u16, body: &str) -> (r: Result<
    Option<String>,
    LookupError,
>)
    ensures
        !spec_status_success(status) ==> (r matches Err(e) && e.subject@ == name@ && e.cause
            == LookupCause::HttpStatus(status)),
        spec_status_success(status) && !parses_as_json(body@) ==> (r matches Err(e) && e.subject@
            == name@ && e.cause == LookupCause::Parse),
        spec_status_success(status) && parses_as_json(body@) ==> (r matches Ok(o) && opt_view(o)
            == repository_field(body@)),
{
    if !status_success(status) {
        return Err(
            LookupError {
                subject: String::from_str(name),
                cause: LookupCause::HttpStatus(status),
            },
        );
    }
    match read_repository_field(body) {
        Ok(repo) => Ok(repo),
        Err(_) => Err(
            LookupError { subject: String::from_str(name), cause: LookupCause::Parse },
        ),
    }
}

/// Interprets the scorecard service's answer for `repo_url`: a status
/// outside the success range is an `HttpStatus` error, a body serde_json
/// cannot parse is a `Parse` error, and otherwise the optional numeric
/// `score` field, as its decimal text — `None` when the service has no score
/// for the repository.
pub fn interpret_scorecard_response(repo_url: &str, status: u16, body: &str) -> (r: Result<
    Option<String>,
    LookupError,
>)
    ensures
        !spec_status_success(status) ==> (r matches Err(e) && e.subject@ == repo_url@ && e.cause
            == LookupCause::HttpStatus(status)),
        spec_status_success(status) && !parses_as_json(body@) ==> (r matches Err(e) && e.subject@
            == repo_url@ && e.cause == LookupCause::Parse),
        spec_status_success(status) && parses_as_json(body@) ==> (r matches Ok(o) && opt_view(o)
            == score_field(body@)),
{
    if !status_success(status) {
        return Err(
            LookupError {
                subject: String::from_str(repo_url),
                cause: LookupCause::HttpStatus(status),
            },
        );
    }
    match read_score_field(body) {
        Ok(score) => Ok(score),
        Err(_) => Err(
            LookupError { subject: String::from_str(repo_url), cause: LookupCause::Parse },
        ),
    }
}

} // verus!
