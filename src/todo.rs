//! The todo request: the text that a finished request shows, and what the
//! status line reads while one is pending.
use vstd::prelude::*;
use vstd::string::*;

verus! {

/// The quoted and escaped form in which `{:?}` writes a string.
pub uninterp spec fn debug_text(s: Seq<char>) -> Seq<char>;

/// Relies on `<str as Debug>::fmt`, through `format!`: the quoted, escaped
/// form of the text, which depends on its characters alone.
#[verifier::external_body]
fn debug_quoted(s: &str) -> (r: String)
    ensures
        r@ == debug_text(s@),
{
    format!("{:?}", s)
}

/// The text of the request made for `job`.
pub open spec fn spec_todo_text(job: Seq<char>) -> Seq<char> {
    "TODO: "@ + debug_text(job)
}

/// What a finished request for `job` yields: `TODO: ` and the job in quotes.
pub fn todo_text(job: &str) -> (r: String)
    ensures
        r@ == spec_todo_text(job@),
{
    let quoted = debug_quoted(job);
    let mut r = String::from_str("TODO: ");
    r.append(quoted.as_str());
    r
}

/// What the status line shows while a request is pending.
pub const LOADING_TEXT: &'static str = "loading...";

/// The status line: the loading text while a request is pending, else the
/// last result, if any.
pub fn todo_status(pending: bool, last: Option<String>) -> (r: Option<String>)
    ensures
        pending ==> (r matches Some(s) && s@ == LOADING_TEXT@),
        !pending ==> r == last,
{
    if pending {
        Some(String::from_str(LOADING_TEXT))
    } else {
        last
    }
}

} // verus!
