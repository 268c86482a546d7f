//! File times as plain values, and their RFC 3339 text.
use vstd::prelude::*;

verus! {

/// An instant as whole seconds since the Unix epoch (negative before it)
/// and the nanoseconds past that second.
#[derive(Clone, Copy, Debug, PartialEq, Eq, Structural)]
pub struct Timestamp {
    pub secs: i64,
    pub nanos: u32,
}

/// Seconds on either side of the epoch within which every instant has a
/// calendar date (about 250 000 years each way).
pub const REPRESENTABLE_SECS: i64 = 8_000_000_000_000;

impl Timestamp {
    /// A valid instant: the nanoseconds stay under one second.
    pub open spec fn wf(&self) -> bool {
        self.nanos < 1_000_000_000
    }

    /// A valid instant whose date lies within the representable range.
    pub open spec fn representable(&self) -> bool {
        &&& self.wf()
        &&& -REPRESENTABLE_SECS <= self.secs <= REPRESENTABLE_SECS
    }
}

/// An instant in nanoseconds since the epoch.
pub open spec fn instant_nanos(t: Timestamp) -> int {
    t.secs * 1_000_000_000 + t.nanos
}

/// Whether an offset from the epoch, before or after it, is a valid instant
/// whose seconds fit in an `i64`.
pub open spec fn offset_fits(before_epoch: bool, secs: u64, nanos: u32) -> bool {
    &&& nanos < 1_000_000_000
    &&& if !before_epoch {
        secs <= i64::MAX
    } else if nanos == 0 {
        secs <= 0x8000_0000_0000_0000u64
    } else {
        secs < 0x8000_0000_0000_0000u64
    }
}

/// The RFC 3339 text (UTC, offset `+00:00`, fraction digits only when the
/// nanoseconds are not zero) of an instant.
pub uninterp spec fn rfc3339_text(secs: i64, nanos: u32) -> Seq<char>;

/// Relies on chrono's `DateTime::<Utc>::from_timestamp`, which gives `None`
/// only out of its calendar range or for an invalid nanosecond count, and on
/// `DateTime::to_rfc3339`, whose text depends on the instant alone.
#[verifier::external_body]
fn rfc3339_of(secs: i64, nanos: u32) -> (r: Option<String>)
    ensures
        (Timestamp { secs, nanos }).representable() ==> r.is_some(),
        r matches Some(t) ==> t@ == rfc3339_text(secs, nanos),
{
    chrono::DateTime::<chrono::Utc>::from_timestamp(secs, nanos).map(|d| d.to_rfc3339())
}

impl Timestamp {
    /// The instant `secs` seconds and `nanos` nanoseconds before or after the
    /// epoch; `None` when that is no valid instant with `i64` seconds.
    pub fn from_epoch_offset(before_epoch: bool, secs: u64, nanos: u32) -> (r: Option<Timestamp>)
        ensures
            r is Some <==> offset_fits(before_epoch, secs, nanos),
            r matches Some(t) ==> t.wf() && instant_nanos(t) == (if before_epoch {
                -(secs * 1_000_000_000 + nanos)
            } else {
                secs * 1_000_000_000 + nanos
            }),
    {
        if nanos >= 1_000_000_000 {
            None
        } else if !before_epoch {
            if secs > i64::MAX as u64 {
                None
            } else {
                Some(Timestamp { secs: secs as i64, nanos })
            }
        } else if nanos == 0 {
            if secs > 0x8000_0000_0000_0000u64 {
                None
            } else if secs == 0x8000_0000_0000_0000u64 {
                Some(Timestamp { secs: i64::MIN, nanos: 0 })
            } else {
                Some(Timestamp { secs: -(secs as i64), nanos: 0 })
            }
        } else if secs >= 0x8000_0000_0000_0000u64 {
            None
        } else {
            Some(Timestamp { secs: -(secs as i64) - 1, nanos: 1_000_000_000 - nanos })
        }
    }

    /// The RFC 3339 text of this instant; `None` only when it lies outside
    /// the calendar's range.
    pub fn to_rfc3339(&self) -> (r: Option<String>)
        ensures
            self.representable() ==> r.is_some(),
            r matches Some(t) ==> t@ == rfc3339_text(self.secs, self.nanos),
    {
        rfc3339_of(self.secs, self.nanos)
    }
}

} // verus!
