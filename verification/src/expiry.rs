//! Rendering of expiry instants.

use vstd::prelude::*;
use vstd::string::*;

verus! {

/// The UTC date and time of a Unix timestamp in whole seconds, written as
/// `YYYY-MM-DD HH:MM:SS` by `chrono`; `None` for a timestamp that `chrono` cannot
/// represent as a date.
pub uninterp spec fn utc_timestamp_text(secs: i64) -> Option<Seq<char>>;

/// Calls `NaiveDateTime::from_timestamp_opt` with no nanoseconds, which returns `None`
/// when the seconds lie outside the dates that `chrono` represents, and on a date calls
/// `NaiveDateTime::format` with the pattern `%Y-%m-%d %H:%M:%S` and collects the text.
/// The result depends on the seconds alone; the contract gives it a name and claims
/// nothing about the calendar arithmetic.
#[verifier::external_body]
#[allow(deprecated)]
pub(crate) fn render_utc_timestamp(secs: i64) -> (text: Option<String>)
    ensures
        text.deep_view() == utc_timestamp_text(secs),
{
    match chrono::NaiveDateTime::from_timestamp_opt(secs, 0) {
        Some(time) => Some(time.format("%Y-%m-%d %H:%M:%S").to_string()),
        None => None,
    }
}

/// The value of the expiry field: the rendered instant, or `none` where there is none.
pub open spec fn expiry_value(rendered: Option<Seq<char>>) -> Seq<char> {
    match rendered {
        Some(text) => text,
        None => "none"@,
    }
}

/// Chooses the value of the expiry field from a rendered instant.
pub fn expiry_field(rendered: Option<String>) -> (value: String)
    ensures
        value@ == expiry_value(rendered.deep_view()),
{
    match rendered {
        Some(text) => text,
        None => String::from_str("none"),
    }
}

/// The value of the expiry field for a Unix timestamp: its UTC date and time, or `none`
/// for a timestamp that is no date.
pub fn format_expiry(expiry: i64) -> (value: String)
    ensures
        value@ == expiry_value(utc_timestamp_text(expiry)),
{
    expiry_field(render_utc_timestamp(expiry))
}

} // verus!
