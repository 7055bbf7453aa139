//! How outcomes become HTTP answers.
use vstd::prelude::*;

use crate::protocol::ErrorView;
use crate::protocol::ReaperError;
use crate::store::StoreError;

verus! {

/// The status that answers a Reaper error: an unreachable Reaper or an
/// unreadable reply is a server error, a failed command a bad gateway, a
/// missing setting a failed precondition, a failed script check an expectation failure.
pub open spec fn reaper_status(e: ErrorView) -> u16 {
    match e {
        ErrorView::Http(_) => 500,
        ErrorView::Command(_) => 502,
        ErrorView::Parse(_) => 500,
        ErrorView::Config(_) => 412,
        ErrorView::NonceMismatch => 417,
    }
}

pub fn reaper_error_status(e: &ReaperError) -> (s: u16)
    ensures
        s == reaper_status(e@),
{
    match e {
        ReaperError::Http(_) => 500,
        ReaperError::Command(_) => 502,
        ReaperError::Parse(_) => 500,
        ReaperError::Config(_) => 412,
        ReaperError::NonceMismatch => 417,
    }
}

pub const NONCE_MISMATCH_TEXT: &'static str =
    "Nonce verification failed. Script execution may not be as expected.";

/// The text that goes with a Reaper error in an answer.
pub open spec fn reaper_message(e: ErrorView) -> Seq<char> {
    match e {
        ErrorView::Http(m) => "Reaper HTTP error: "@ + m,
        ErrorView::Command(m) => "Reaper command error: "@ + m,
        ErrorView::Parse(m) => "Reaper response parse error: "@ + m,
        ErrorView::Config(m) => "Reaper configuration error: "@ + m,
        ErrorView::NonceMismatch => NONCE_MISMATCH_TEXT@,
    }
}

fn prefixed(prefix: &str, m: &String) -> (r: String)
    ensures
        r@ == prefix@ + m@,
{
    let mut r = String::from_str(prefix);
    r.append(m.as_str());
    r
}

pub fn reaper_error_message(e: &ReaperError) -> (r: String)
    ensures
        r@ == reaper_message(e@),
{
    match e {
        ReaperError::Http(m) => prefixed("Reaper HTTP error: ", m),
        ReaperError::Command(m) => prefixed("Reaper command error: ", m),
        ReaperError::Parse(m) => prefixed("Reaper response parse error: ", m),
        ReaperError::Config(m) => prefixed("Reaper configuration error: ", m),
        ReaperError::NonceMismatch => String::from_str(NONCE_MISMATCH_TEXT),
    }
}

/// The status that answers a store error: a missing record is not found,
/// anything else a server error.
pub fn store_error_status(e: &StoreError) -> (s: u16)
    ensures
        s == (if *e == StoreError::NotFound {
            404u16
        } else {
            500u16
        }),
{
    match e {
        StoreError::NotFound => 404,
        _ => 500,
    }
}

/// The status that answers a connection test: 204 when Reaper answered 200,
/// Reaper's own status when it is another valid one (100 to 999), and 503
/// when Reaper could not be reached or answered something else.
pub open spec fn connection_status(probe: Result<u16, ErrorView>) -> u16 {
    match probe {
        Ok(s) => if s == 200 {
            204
        } else if 100 <= s <= 999 {
            s
        } else {
            503
        },
        Err(_) => 503,
    }
}

pub fn connection_test_status(probe: &Result<u16, ReaperError>) -> (s: u16)
    ensures
        s == connection_status(
            match probe {
                Ok(c) => Ok(*c),
                Err(e) => Err(e@),
            },
        ),
{
    match probe {
        Ok(s) => {
            if *s == 200 {
                204
            } else if 100 <= *s && *s <= 999 {
                *s
            } else {
                503
            }
        },
        Err(_) => 503,
    }
}

} // verus!
