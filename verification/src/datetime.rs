use chrono::TimeZone;
use std::fmt::Write;
use vstd::prelude::*;

verus! {

/// The earliest instant chrono can represent (January 1, 262144 BCE, UTC), in
/// milliseconds since the UNIX epoch.
pub const MIN_TIMESTAMP_MILLIS: i64 = -8334601228800000i64;

/// The last millisecond chrono can represent (December 31, 262142 CE,
/// 23:59:59.999 UTC), in milliseconds since the UNIX epoch.
pub const MAX_TIMESTAMP_MILLIS: i64 = 8210266876799999i64;

/// Whether chrono turns `ts` milliseconds since the epoch into a date and time.
pub open spec fn timestamp_in_range(ts: int) -> bool {
    MIN_TIMESTAMP_MILLIS <= ts <= MAX_TIMESTAMP_MILLIS
}

/// The one-letter `strftime` specifiers that chrono formats on any date, time
/// and offset: numeric fields, names of days and months, AM/PM, the time zone
/// name and offset, their fixed compositions, newline, tab and `%%`. Specifiers
/// with a padding, width or colon modifier are not among them.
pub open spec fn plain_specifier(c: char) -> bool {
    c == 'Y' || c == 'C' || c == 'y' || c == 'G' || c == 'g' || c == 'm' || c == 'd' || c == 'e'
        || c == 'H' || c == 'I' || c == 'M' || c == 'S' || c == 'f' || c == 'j' || c == 'k'
        || c == 'l' || c == 'p' || c == 'P' || c == 'a' || c == 'A' || c == 'b' || c == 'B'
        || c == 'h' || c == 'U' || c == 'W' || c == 'V' || c == 'u' || c == 'w' || c == 'q'
        || c == 's' || c == 'Z' || c == 'z' || c == 'c' || c == 'x' || c == 'X' || c == 'r'
        || c == 'v' || c == 'F' || c == 'T' || c == 'R' || c == 'D' || c == 'n' || c == 't'
        || c == '%'
}

/// A format string in which every `%` is followed by a plain specifier: chrono
/// formats such a string without error.
pub open spec fn plain_format(fmt: Seq<char>) -> bool {
    forall|i: int|
        #![trigger fmt[i]]
        0 <= i < fmt.len() && fmt[i] == '%' ==> i + 1 < fmt.len() && plain_specifier(fmt[i + 1])
}

/// The text chrono writes for the instant `ts` (milliseconds since the UNIX
/// epoch) seen at a fixed offset of `offset_secs` seconds east of UTC, with the
/// `strftime` format `fmt`; `None` where chrono refuses the format.
pub uninterp spec fn local_datetime_text(ts: int, offset_secs: int, fmt: Seq<char>) -> Option<
    Seq<char>,
>;

/// Whether `offset_secs` is an offset chrono accepts: less than a day either way.
pub open spec fn offset_in_range(offset_secs: int) -> bool {
    -86400 < offset_secs < 86400
}

/// Whether chrono writes `fmt` for every instant and offset it represents.
pub open spec fn chrono_renders(fmt: Seq<char>) -> bool {
    forall|ts: int, offset_secs: int|
        timestamp_in_range(ts) && offset_in_range(offset_secs) ==> (#[trigger] local_datetime_text(
            ts,
            offset_secs,
            fmt,
        )) is Some
}

/// The formats that `fmt_timestamp` takes: those chrono writes, which include
/// every plain format.
pub open spec fn format_accepted(fmt: Seq<char>) -> bool {
    plain_format(fmt) || chrono_renders(fmt)
}

/// Whether `text` is what chrono writes for the instant `ts` at some offset,
/// with the format `fmt`.
pub open spec fn shows_instant(text: Seq<char>, ts: int, fmt: Seq<char>) -> bool {
    exists|offset_secs: int|
        offset_in_range(offset_secs) && #[trigger] local_datetime_text(ts, offset_secs, fmt)
            == Some(text)
}

/// The current time in milliseconds since the UNIX epoch
/// (`chrono::Local::now().timestamp_millis()`).
///
/// Claimed: the result is a timestamp that chrono can represent, and not
/// before the epoch (`Utc::now` panics on a clock set before it). Not claimed:
/// which instant it is, as that depends on the clock.
#[verifier::external_body]
pub fn get_timestamp() -> (r: i64)
    ensures
        timestamp_in_range(r as int),
        r >= 0,
{
    chrono::Local::now().timestamp_millis()
}

/// The offset from UTC, in seconds, of the machine's time zone at the instant
/// `ts` (`chrono::Local.timestamp_millis_opt(ts).unwrap().offset().local_minus_utc()`).
///
/// Claimed: the offset is less than a day either way (chrono's `FixedOffset`
/// holds no other). Not claimed: which offset it is, as that depends on the
/// machine's time zone.
#[verifier::external_body]
fn local_offset_secs(ts: i64) -> (r: i32)
    requires
        timestamp_in_range(ts as int),
    ensures
        offset_in_range(r as int),
{
    chrono::Local.timestamp_millis_opt(ts).unwrap().offset().local_minus_utc()
}

/// Formats the instant `ts` seen at the fixed offset `offset_secs` with `fmt`
/// (`FixedOffset::east_opt(offset_secs)`, `timestamp_millis_opt(ts)`, then
/// `write!` of `format(fmt)`).
///
/// Claimed: the text is the name `local_datetime_text` of the arguments, or
/// `None` exactly where that is `None`; whether chrono refuses a format
/// depends on the format alone (an unknown or malformed specifier, or `%#z`),
/// never on the instant or the offset; and chrono writes every plain format.
#[verifier::external_body]
fn format_at_offset(ts: i64, offset_secs: i32, fmt: &str) -> (r: Option<String>)
    requires
        timestamp_in_range(ts as int),
        offset_in_range(offset_secs as int),
    ensures
        r matches Some(s) ==> local_datetime_text(ts as int, offset_secs as int, fmt@) == Some(
            s@,
        ),
        r is None ==> local_datetime_text(ts as int, offset_secs as int, fmt@) is None,
        r is Some <==> chrono_renders(fmt@),
        plain_format(fmt@) ==> r is Some,
{
    let datetime = chrono::FixedOffset::east_opt(offset_secs)?.timestamp_millis_opt(ts).single()?;
    let mut text = String::new();
    match write!(text, "{}", datetime.format(fmt)) {
        Ok(()) => Some(text),
        Err(_) => None,
    }
}

/// Formats `ts` milliseconds since the UNIX epoch as a date and time with
/// `fmt`, at the offset of the machine's time zone for that instant.
///
/// Stated: the text is what chrono writes for `ts` with `fmt` at some offset
/// of less than a day. Not stated: which offset, as the machine's time zone
/// has no name here.
pub fn fmt_timestamp(ts: i64, fmt: &str) -> (r: String)
    requires
        timestamp_in_range(ts as int),
        format_accepted(fmt@),
    ensures
        shows_instant(r@, ts as int, fmt@),
{
    let offset_secs = local_offset_secs(ts);
    let text = format_at_offset(ts, offset_secs, fmt);
    let r = text.unwrap();
    assert(local_datetime_text(ts as int, offset_secs as int, fmt@) == Some(r@));
    r
}

/// Formats `ts` as `fmt_timestamp` does where chrono represents `ts` and
/// writes `fmt`; `None` elsewhere.
pub fn try_fmt_timestamp(ts: i64, fmt: &str) -> (r: Option<String>)
    ensures
        r is Some <==> timestamp_in_range(ts as int) && chrono_renders(fmt@),
        r matches Some(s) ==> shows_instant(s@, ts as int, fmt@),
{
    if ts < MIN_TIMESTAMP_MILLIS || ts > MAX_TIMESTAMP_MILLIS {
        return None;
    }
    match format_at_offset(ts, 0, fmt) {
        Some(_) => Some(fmt_timestamp(ts, fmt)),
        None => None,
    }
}

} // verus!
