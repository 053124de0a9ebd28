//! Reading RFC 3339 instants, done by the `chrono` crate.

use vstd::prelude::*;

verus! {

#[verifier::external_type_specification]
#[verifier::external_body]
pub struct ExParseError(chrono::ParseError);

/// The instant that `chrono::DateTime::parse_from_rfc3339` reads from
/// `text`, in whole seconds since the epoch as `DateTime::timestamp` gives
/// them; `None` where the text is rejected.
pub uninterp spec fn rfc3339_timestamp(text: Seq<char>) -> Option<i64>;

/// What `DateTime::format` writes for the instant read from `text`, in the
/// offset that the text names, under the strftime `layout`; `None` where
/// the layout cannot be written.
pub uninterp spec fn rfc3339_shown(text: Seq<char>, layout: Seq<char>) -> Option<Seq<char>>;

/// Parses `text` with `chrono::DateTime::parse_from_rfc3339` and hands out
/// the instant's `timestamp` together with its text under `layout`, which
/// `DateTime::format` prepares and `DelayedFormat::write_to` writes.
///
/// Trusted: the parse error comes back exactly on the texts that chrono
/// rejects, and both parts of the result depend on the arguments alone.
#[verifier::external_body]
pub(crate) fn read_instant(text: &str, layout: &str) -> (read: Result<
    (i64, Option<String>),
    chrono::ParseError,
>)
    ensures
        read is Ok <==> rfc3339_timestamp(text@) is Some,
        read matches Ok((seconds, shown)) ==> rfc3339_timestamp(text@) == Some(seconds)
            && crate::text::optional_text(shown) == rfc3339_shown(text@, layout@),
{
    let instant = chrono::DateTime::parse_from_rfc3339(text)?;
    let mut shown = String::new();
    let written = instant.format(layout).write_to(&mut shown);
    Ok((instant.timestamp(), written.ok().map(|_| shown)))
}

/// A layout that writes nothing, for callers that want the instant alone.
pub const NO_LAYOUT: &'static str = "";

/// Reads the instant that `text` names, in seconds since the epoch; `None`
/// where the text is no RFC 3339 instant.
pub fn read_timestamp(text: &str) -> (seconds: Option<i64>)
    ensures
        seconds == rfc3339_timestamp(text@),
{
    match read_instant(text, NO_LAYOUT) {
        Ok((seconds, _)) => Some(seconds),
        Err(_) => None,
    }
}

} // verus!
