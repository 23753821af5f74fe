//! One request's run of the pipeline: what the fetcher's outcome means for
//! the response.
//!
//! The network call itself lives outside the library; it hands in either the
//! fetched document text or one of the three failure classes below.

use vstd::prelude::*;
use crate::chart::{extract, matches_records, records_of, SelectorConfig, Song};

verus! {

/// How one fetch of the chart page failed.
#[derive(Clone, Copy, PartialEq, Eq, Structural, Debug)]
pub enum FetchError {
    /// The remote address could not be reached.
    Transport,
    /// The remote answered with the given non-success status.
    Status(u16),
    /// The response body could not be read as text.
    Decode,
}

/// Runs one request on what the fetcher produced: a fetched document is
/// extracted into ranked records, and a fetch failure is passed through
/// untouched as the request's terminal outcome.
pub fn run_pipeline(cfg: &SelectorConfig, fetched: Result<String, FetchError>) -> (r: Result<
    Vec<Song>,
    FetchError,
>)
    requires
        cfg.wf(),
    ensures
        fetched is Ok <==> r is Ok,
        fetched matches Ok(html) ==> (r matches Ok(songs) ==> matches_records(
            songs@,
            records_of(html@, cfg.title@, cfg.artist@),
        )),
        fetched matches Err(e) ==> r == Err::<Vec<Song>, FetchError>(e),
{
    match fetched {
        Ok(html) => Ok(extract(cfg, html.as_str())),
        Err(e) => Err(e),
    }
}

/// The response status for one pipeline outcome: a successful extraction,
/// even an empty one, is served as 200; any fetch failure as 500.
pub fn status_of(r: &Result<Vec<Song>, FetchError>) -> (status: u16)
    ensures
        r is Ok ==> status == 200,
        r is Err ==> status == 500,
{
    match r {
        Ok(_) => 200,
        Err(_) => 500,
    }
}

/// The safe diagnostic for each failure class: a fixed string that leaks
/// nothing of the underlying error.
pub open spec fn message_spec(e: FetchError) -> Seq<char> {
    match e {
        FetchError::Transport => "could not reach the chart source"@,
        FetchError::Status(_) => "the chart source answered with an error status"@,
        FetchError::Decode => "the chart source answered with an unreadable body"@,
    }
}

/// The diagnostic string served with a failed request.
pub fn error_message(e: &FetchError) -> (m: String)
    ensures
        m@ == message_spec(*e),
{
    match e {
        FetchError::Transport => "could not reach the chart source".to_owned(),
        FetchError::Status(_) => "the chart source answered with an error status".to_owned(),
        FetchError::Decode => "the chart source answered with an unreadable body".to_owned(),
    }
}

} // verus!
