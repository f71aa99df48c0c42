//! Instants with a UTC offset, held as plain values: nanoseconds since the
//! Unix epoch and the offset in seconds. Their range is the one the `time`
//! crate supports (years -9999 to 9999 in the local offset).

use vstd::prelude::*;

verus! {

/// Nanoseconds since the epoch of -9999-01-01T00:00:00Z.
pub const MIN_UNIX_NANOS: i128 = -377705116800000000000i128;

/// Nanoseconds since the epoch of 9999-12-31T23:59:59.999999999Z.
pub const MAX_UNIX_NANOS: i128 = 253402300799999999999i128;

/// Largest magnitude of a UTC offset in seconds (25:59:59).
pub const MAX_OFFSET_SECONDS: i32 = 93599i32;

/// Nanoseconds in one second.
pub const NANOS_PER_SECOND: i128 = 1000000000i128;

/// Nanoseconds in one millisecond.
pub const NANOS_PER_MILLI: i128 = 1000000i128;

/// The instant and offset can be held by `time::OffsetDateTime`: the instant
/// lies in the supported range, the offset is a valid `UtcOffset`, and the
/// local date-time in that offset lies in the supported range too.
pub open spec fn representable(unix_nanos: int, offset_seconds: int) -> bool {
    &&& MIN_UNIX_NANOS <= unix_nanos <= MAX_UNIX_NANOS
    &&& -MAX_OFFSET_SECONDS <= offset_seconds <= MAX_OFFSET_SECONDS
    &&& MIN_UNIX_NANOS <= unix_nanos + offset_seconds * NANOS_PER_SECOND <= MAX_UNIX_NANOS
}

/// Whole milliseconds in a span of `nanos` nanoseconds, truncated toward zero
/// (as `time::Duration::whole_milliseconds` counts them).
pub open spec fn whole_millis(nanos: int) -> int {
    if nanos >= 0 {
        nanos / (NANOS_PER_MILLI as int)
    } else {
        -((-nanos) / (NANOS_PER_MILLI as int))
    }
}

/// The text `OffsetDateTime::format(&Rfc3339)` gives for the instant in the
/// offset, or `None` where that formatting fails.
pub uninterp spec fn rfc3339_text(unix_nanos: int, offset_seconds: int) -> Option<Seq<char>>;

/// The text that the `Display` impl of `OffsetDateTime` gives for the instant
/// in the offset.
pub uninterp spec fn display_text(unix_nanos: int, offset_seconds: int) -> Seq<char>;

/// An instant together with the UTC offset it was written in.
#[derive(Clone, Copy, Debug)]
pub struct Timestamp {
    unix_nanos: i128,
    offset_seconds: i32,
}

impl View for Timestamp {
    /// (nanoseconds since the Unix epoch, offset in seconds)
    type V = (int, int);

    closed spec fn view(&self) -> (int, int) {
        (self.unix_nanos as int, self.offset_seconds as int)
    }
}

/// The text a timestamp is rendered as: RFC 3339, or the `Display` form of the
/// value where RFC 3339 cannot express it.
pub open spec fn timestamp_text(t: (int, int)) -> Seq<char> {
    rendered_text(rfc3339_text(t.0, t.1), t)
}

/// The text a timestamp is rendered as, given its RFC 3339 formatting: that
/// text, or the `Display` form where formatting failed.
pub open spec fn rendered_text(rfc3339: Option<Seq<char>>, t: (int, int)) -> Seq<char> {
    match rfc3339 {
        Some(s) => s,
        None => display_text(t.0, t.1),
    }
}

/// Calls `OffsetDateTime::format` with the well-known `Rfc3339` description on
/// the instant in the offset (built by `from_unix_timestamp_nanos`,
/// `UtcOffset::from_whole_seconds` and `to_offset`, which cannot fail on a
/// representable pair). The result, `None` for a formatting error, is named
/// `rfc3339_text`.
#[verifier::external_body]
fn rfc3339_format(unix_nanos: i128, offset_seconds: i32) -> (r: Option<String>)
    requires
        representable(unix_nanos as int, offset_seconds as int),
    ensures
        match r {
            Some(s) => rfc3339_text(unix_nanos as int, offset_seconds as int) == Some(s@),
            None => rfc3339_text(unix_nanos as int, offset_seconds as int) is None,
        },
{
    let utc = time::OffsetDateTime::from_unix_timestamp_nanos(unix_nanos).unwrap();
    let offset = time::UtcOffset::from_whole_seconds(offset_seconds).unwrap();
    utc.to_offset(offset).format(&time::format_description::well_known::Rfc3339).ok()
}

/// Calls `ToString::to_string` through the `Display` impl of `OffsetDateTime`
/// on the instant in the offset (built as for `rfc3339_format`). The result is
/// named `display_text`.
#[verifier::external_body]
fn display_format(unix_nanos: i128, offset_seconds: i32) -> (r: String)
    requires
        representable(unix_nanos as int, offset_seconds as int),
    ensures
        r@ == display_text(unix_nanos as int, offset_seconds as int),
{
    let utc = time::OffsetDateTime::from_unix_timestamp_nanos(unix_nanos).unwrap();
    let offset = time::UtcOffset::from_whole_seconds(offset_seconds).unwrap();
    utc.to_offset(offset).to_string()
}

impl Timestamp {
    #[verifier::type_invariant]
    spec fn inv(self) -> bool {
        representable(self.unix_nanos as int, self.offset_seconds as int)
    }

    /// The timestamp for an instant and offset, where they are representable.
    pub fn new(unix_nanos: i128, offset_seconds: i32) -> (r: Option<Timestamp>)
        ensures
            r is Some <==> representable(unix_nanos as int, offset_seconds as int),
            r matches Some(t) ==> t@ == (unix_nanos as int, offset_seconds as int),
    {
        if MIN_UNIX_NANOS <= unix_nanos && unix_nanos <= MAX_UNIX_NANOS && -MAX_OFFSET_SECONDS
            <= offset_seconds && offset_seconds <= MAX_OFFSET_SECONDS {
            let local = unix_nanos + (offset_seconds as i128) * NANOS_PER_SECOND;
            if MIN_UNIX_NANOS <= local && local <= MAX_UNIX_NANOS {
                return Some(Timestamp { unix_nanos, offset_seconds });
            }
        }
        None
    }

    /// Nanoseconds since the Unix epoch.
    pub fn unix_nanos(&self) -> (r: i128)
        ensures
            r == self@.0,
    {
        self.unix_nanos
    }

    /// The UTC offset in seconds.
    pub fn offset_seconds(&self) -> (r: i32)
        ensures
            r == self@.1,
    {
        self.offset_seconds
    }

    /// Whether `self` is a later instant than `other` (offsets play no part).
    pub fn is_after(&self, other: &Timestamp) -> (r: bool)
        ensures
            r == (self@.0 > other@.0),
    {
        self.unix_nanos > other.unix_nanos
    }

    /// Whole milliseconds from `self` to `later` (negative if `later` is
    /// earlier), truncated toward zero.
    pub fn whole_millis_until(&self, later: &Timestamp) -> (r: i128)
        ensures
            r == whole_millis(later@.0 - self@.0),
    {
        proof {
            use_type_invariant(self);
            use_type_invariant(later);
        }
        let d = later.unix_nanos - self.unix_nanos;
        if d >= 0 {
            d / NANOS_PER_MILLI
        } else {
            let m = (-d) / NANOS_PER_MILLI;
            -m
        }
    }
}

/// Renders a timestamp as RFC 3339, falling back to its `Display` form where
/// RFC 3339 cannot express it.
pub fn format_rfc3339(value: &Timestamp) -> (r: String)
    ensures
        r@ == timestamp_text(value@),
{
    proof {
        use_type_invariant(value);
    }
    render_timestamp(rfc3339_format(value.unix_nanos, value.offset_seconds), value)
}

/// Renders a timestamp given the outcome of its RFC 3339 formatting: the
/// formatted text when there is one, else the `Display` form.
pub fn render_timestamp(rfc3339: Option<String>, value: &Timestamp) -> (r: String)
    ensures
        r@ == rendered_text(
            match rfc3339 {
                Some(s) => Some(s@),
                None => None,
            },
            value@,
        ),
{
    proof {
        use_type_invariant(value);
    }
    match rfc3339 {
        Some(s) => s,
        None => display_format(value.unix_nanos, value.offset_seconds),
    }
}

} // verus!
