//! Version stamps in International Atomic Time: seconds and nanoseconds since
//! the Unix epoch, ahead of UTC by a fixed offset.

use vstd::prelude::*;

use crate::text::{decimal, push_decimal};

verus! {

/// Seconds by which TAI is ahead of UTC.
pub const TAI_OFFSET_SECS: u64 = 37;

/// A point in time, in TAI.
#[derive(Debug, Clone, Copy, PartialEq, Eq, Structural)]
pub struct TaiTime {
    secs: u64,
    nanos: u32,
}

/// The text of a stamp: seconds, a colon, nanoseconds, both in decimal.
pub open spec fn tai_text(secs: u64, nanos: u32) -> Seq<char> {
    decimal(secs as nat) + seq![':'] + decimal(nanos as nat)
}

/// The seconds of the TAI stamp for a reading of `secs` Unix seconds: the
/// offset is added, and the sum stops at the largest 64-bit number.
pub open spec fn tai_secs(secs: u64) -> u64 {
    if secs + TAI_OFFSET_SECS > u64::MAX {
        u64::MAX
    } else {
        (secs + TAI_OFFSET_SECS) as u64
    }
}

/// `a` is not later than `b`.
pub open spec fn tai_le(a: TaiTime, b: TaiTime) -> bool {
    a.secs() < b.secs() || (a.secs() == b.secs() && a.nanos() <= b.nanos())
}

/// Reads the system clock with `std::time::SystemTime::now` and gives the time
/// since the Unix epoch as whole seconds and the nanoseconds of the second
/// begun, or `None` where the clock stands before the epoch. The nanoseconds
/// are below one billion, as `Duration::subsec_nanos` documents.
#[verifier::external_body]
fn unix_now() -> (r: Option<(u64, u32)>)
    ensures
        r matches Some((_, nanos)) ==> nanos < 1_000_000_000,
{
    std::time::SystemTime::now()
        .duration_since(std::time::UNIX_EPOCH)
        .ok()
        .map(|d| (d.as_secs(), d.subsec_nanos()))
}

impl TaiTime {
    /// Whole seconds since the Unix epoch, in TAI.
    pub closed spec fn secs(self) -> u64 {
        self.secs
    }

    /// Nanoseconds of the second begun.
    pub closed spec fn nanos(self) -> u32 {
        self.nanos
    }

    /// The stamp for a clock reading of `secs` seconds and `nanos`
    /// nanoseconds since the Unix epoch in UTC.
    pub fn from_unix(secs: u64, nanos: u32) -> (t: TaiTime)
        ensures
            t.secs() == tai_secs(secs),
            t.nanos() == nanos,
    {
        let secs = if secs > u64::MAX - TAI_OFFSET_SECS {
            u64::MAX
        } else {
            secs + TAI_OFFSET_SECS
        };
        TaiTime { secs, nanos }
    }

    /// The stamp for a clock reading, where `None` stands for a clock that is
    /// set before the Unix epoch: such a clock is read as the epoch itself.
    pub fn from_reading(reading: Option<(u64, u32)>) -> (t: TaiTime)
        ensures
            reading matches Some((secs, nanos)) ==> t.secs() == tai_secs(secs) && t.nanos()
                == nanos,
            reading is None ==> t.secs() == TAI_OFFSET_SECS && t.nanos() == 0,
    {
        match reading {
            Some((secs, nanos)) => TaiTime::from_unix(secs, nanos),
            None => TaiTime::from_unix(0, 0),
        }
    }

    /// The current time. Two calls may differ, and nothing orders them: see
    /// `TaiClock` for stamps that never go back.
    pub fn now() -> (t: TaiTime)
        ensures
            t.secs() >= TAI_OFFSET_SECS,
            t.nanos() < 1_000_000_000,
    {
        TaiTime::from_reading(unix_now())
    }

    /// Whole seconds since the Unix epoch, in TAI.
    pub fn seconds(&self) -> (s: u64)
        ensures
            s == self.secs(),
    {
        self.secs
    }

    /// Nanoseconds of the second begun.
    pub fn subsec_nanos(&self) -> (n: u32)
        ensures
            n == self.nanos(),
    {
        self.nanos
    }

    /// Whether `self` is not later than `other`.
    pub fn le(&self, other: &TaiTime) -> (r: bool)
        ensures
            r == tai_le(*self, *other),
    {
        self.secs < other.secs || (self.secs == other.secs && self.nanos <= other.nanos)
    }

    /// The stamp as text: `<secs>:<nanos>`.
    pub fn to_string(&self) -> (s: String)
        ensures
            s@ == tai_text(self.secs(), self.nanos()),
    {
        proof {
            reveal_strlit(":");
        }
        let mut s = String::new();
        push_decimal(&mut s, self.secs);
        s.append(":");
        push_decimal(&mut s, self.nanos as u64);
        assert(s@ =~= tai_text(self.secs(), self.nanos()));
        s
    }
}

/// A clock whose stamps never go back, whatever the system clock does.
pub struct TaiClock {
    last: Option<TaiTime>,
}

impl TaiClock {
    /// The stamp handed out last, if any was.
    pub closed spec fn last(&self) -> Option<TaiTime> {
        self.last
    }

    /// A clock that has handed out no stamp yet.
    pub fn new() -> (c: TaiClock)
        ensures
            c.last() is None,
    {
        TaiClock { last: None }
    }

    /// Takes a reading of the system clock into account and returns the stamp
    /// to use: the reading, or the stamp handed out last where the reading is
    /// earlier than that.
    pub fn tick(&mut self, reading: TaiTime) -> (t: TaiTime)
        ensures
            final(self).last() == Some(t),
            t == match old(self).last() {
                Some(last) => if tai_le(last, reading) { reading } else { last },
                None => reading,
            },
            old(self).last() matches Some(last) ==> tai_le(last, t),
            tai_le(reading, t),
    {
        let t = match self.last {
            Some(last) => if last.le(&reading) { reading } else { last },
            None => reading,
        };
        self.last = Some(t);
        t
    }

    /// The current time, not earlier than any stamp this clock handed out.
    pub fn now(&mut self) -> (t: TaiTime)
        ensures
            final(self).last() == Some(t),
            old(self).last() matches Some(last) ==> tai_le(last, t),
    {
        let reading = TaiTime::now();
        self.tick(reading)
    }
}

} // verus!
