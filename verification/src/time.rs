//! Absolute instants with nanosecond resolution.
//!
//! `Time` counts non-leap nanoseconds since the Unix epoch in an unsigned
//! 64-bit integer; `Duration` is a non-negative span of nanoseconds. Both are
//! plain immutable values. `Time` also has a canonical wire form: 8 bytes,
//! big-endian, carrying exactly its nanosecond count.

use vstd::prelude::*;

verus! {

/// Nanoseconds in one second.
pub const NANOS_PER_SEC: u64 = 1_000_000_000;

/// A non-negative span of time, counted in whole nanoseconds.
#[derive(Clone, Copy, Debug, Hash, PartialEq, Eq, PartialOrd, Ord, Structural)]
pub struct Duration {
    /// Length of the span in nanoseconds.
    pub nanos: u64,
}

/// An absolute instant: non-leap nanoseconds since the Unix epoch.
#[derive(Clone, Copy, Debug, Hash, PartialEq, Eq, PartialOrd, Ord, Structural)]
pub struct Time {
    /// Nanoseconds since the Unix epoch.
    pub nanos: u64,
}

/// Decoding a wire-form `Time` can fail; malformed bytes may come from
/// untrusted input, so this is an ordinary error value, never a panic.
#[derive(Clone, Copy, Debug, PartialEq, Eq, Structural)]
pub enum TimeDecodeError {
    /// The byte sequence does not have the fixed width of the encoding.
    WrongLength,
}

impl Duration {
    /// The span of `n` nanoseconds.
    pub fn from_nanos(n: u64) -> (r: Duration)
        ensures
            r.nanos == n,
    {
        Duration { nanos: n }
    }

    /// The span of `secs` whole seconds.
    pub fn from_secs(secs: u64) -> (r: Duration)
        requires
            secs * NANOS_PER_SEC <= u64::MAX,
        ensures
            r.nanos == secs * NANOS_PER_SEC,
    {
        Duration { nanos: secs * NANOS_PER_SEC }
    }

    /// The length of the span in nanoseconds.
    pub fn as_nanos(self) -> (r: u64)
        ensures
            r == self.nanos,
    {
        self.nanos
    }
}

impl Time {
    /// What `add` returns: the instant `d` after `self`.
    pub open spec fn spec_add(self, d: Duration) -> Time {
        Time { nanos: (self.nanos + d.nanos) as u64 }
    }

    /// What `duration_since` returns: the magnitude of the difference,
    /// saturating to zero when `other` is after `self`.
    pub open spec fn spec_duration_since(self, other: Time) -> Duration {
        if self.nanos >= other.nanos {
            Duration { nanos: (self.nanos - other.nanos) as u64 }
        } else {
            Duration { nanos: 0 }
        }
    }

    /// The instant exactly `n` nanoseconds after the Unix epoch.
    pub fn from_nanos_since_epoch(n: u64) -> (r: Time)
        ensures
            r == (Time { nanos: n }),
    {
        Time { nanos: n }
    }

    /// The instant of a signed nanosecond reading, as chrono counts them:
    /// a non-negative count is taken as is; a reading before the epoch
    /// collapses to the epoch itself.
    pub fn from_unix_nanos(n: i64) -> (r: Time)
        ensures
            r.nanos == if n >= 0 {
                n as u64
            } else {
                0
            },
    {
        if n >= 0 {
            Time { nanos: n as u64 }
        } else {
            Time { nanos: 0 }
        }
    }

    /// The nanosecond count since the Unix epoch; the exact inverse of
    /// `from_nanos_since_epoch`.
    pub fn to_nanos_since_epoch(self) -> (r: u64)
        ensures
            r == self.nanos,
    {
        self.nanos
    }

    /// The instant `d` after `self`. Pure; the sum must stay inside the
    /// representable nanosecond range.
    pub fn add(self, d: Duration) -> (r: Time)
        requires
            self.nanos + d.nanos <= u64::MAX,
        ensures
            r == self.spec_add(d),
    {
        Time { nanos: self.nanos + d.nanos }
    }

    /// How long after `other` this instant is. The result is a magnitude:
    /// if `other` is chronologically after `self`, it saturates to zero
    /// rather than going negative or failing.
    pub fn duration_since(self, other: Time) -> (r: Duration)
        ensures
            r == self.spec_duration_since(other),
    {
        if self.nanos >= other.nanos {
            Duration { nanos: self.nanos - other.nanos }
        } else {
            Duration { nanos: 0 }
        }
    }

    /// What `to_bytes` returns: the nanosecond count as 8 big-endian bytes.
    pub open spec fn spec_encoded(self) -> Seq<u8> {
        seq![
            ((self.nanos >> 56) & 0xff) as u8,
            ((self.nanos >> 48) & 0xff) as u8,
            ((self.nanos >> 40) & 0xff) as u8,
            ((self.nanos >> 32) & 0xff) as u8,
            ((self.nanos >> 24) & 0xff) as u8,
            ((self.nanos >> 16) & 0xff) as u8,
            ((self.nanos >> 8) & 0xff) as u8,
            (self.nanos & 0xff) as u8,
        ]
    }

    /// What `from_bytes` reads out of 8 well-formed bytes: the big-endian
    /// 64-bit value they spell.
    pub open spec fn spec_decoded(s: Seq<u8>) -> u64
        recommends
            s.len() == 8,
    {
        ((s[0] as u64) << 56) | ((s[1] as u64) << 48) | ((s[2] as u64) << 40)
            | ((s[3] as u64) << 32) | ((s[4] as u64) << 24) | ((s[5] as u64) << 16)
            | ((s[6] as u64) << 8) | (s[7] as u64)
    }

    /// The canonical wire form: exactly 8 bytes, the nanosecond count since
    /// the epoch in big-endian order.
    pub fn to_bytes(self) -> (r: Vec<u8>)
        ensures
            r@ == self.spec_encoded(),
    {
        let n: u64 = self.nanos;
        proof {
            assert((n >> 56) & 0xff <= 0xff) by (bit_vector);
            assert((n >> 48) & 0xff <= 0xff) by (bit_vector);
            assert((n >> 40) & 0xff <= 0xff) by (bit_vector);
            assert((n >> 32) & 0xff <= 0xff) by (bit_vector);
            assert((n >> 24) & 0xff <= 0xff) by (bit_vector);
            assert((n >> 16) & 0xff <= 0xff) by (bit_vector);
            assert((n >> 8) & 0xff <= 0xff) by (bit_vector);
            assert(n & 0xff <= 0xff) by (bit_vector);
        }
        let mut r: Vec<u8> = Vec::new();
        r.push(((n >> 56) & 0xff) as u8);
        r.push(((n >> 48) & 0xff) as u8);
        r.push(((n >> 40) & 0xff) as u8);
        r.push(((n >> 32) & 0xff) as u8);
        r.push(((n >> 24) & 0xff) as u8);
        r.push(((n >> 16) & 0xff) as u8);
        r.push(((n >> 8) & 0xff) as u8);
        r.push((n & 0xff) as u8);
        proof {
            assert(r@ =~= self.spec_encoded());
        }
        r
    }

    /// Decodes the canonical wire form. Any byte sequence of the fixed width
    /// decodes; any other length is reported as a `WrongLength` error.
    pub fn from_bytes(bytes: &[u8]) -> (r: Result<Time, TimeDecodeError>)
        ensures
            bytes@.len() == 8 ==> r == Ok::<Time, TimeDecodeError>(
                (Time { nanos: Time::spec_decoded(bytes@) }),
            ),
            bytes@.len() != 8 ==> r == Err::<Time, TimeDecodeError>(TimeDecodeError::WrongLength),
    {
        if bytes.len() != 8 {
            return Err(TimeDecodeError::WrongLength);
        }
        let n: u64 = ((bytes[0] as u64) << 56) | ((bytes[1] as u64) << 48)
            | ((bytes[2] as u64) << 40) | ((bytes[3] as u64) << 32) | ((bytes[4] as u64) << 24)
            | ((bytes[5] as u64) << 16) | ((bytes[6] as u64) << 8) | (bytes[7] as u64);
        Ok(Time { nanos: n })
    }
}

/// Law: moving an instant forward by `d` and then measuring the distance back
/// to the start returns exactly `d`, for every duration whose sum with the
/// start stays representable.
pub proof fn lemma_add_then_duration_since(t: Time, d: Duration)
    requires
        t.nanos + d.nanos <= u64::MAX,
    ensures
        t.spec_add(d).spec_duration_since(t) == d,
{
}

/// Law: the nanosecond count round-trips exactly: rebuilding a `Time` from
/// `to_nanos_since_epoch` gives back the same instant.
pub proof fn lemma_nanos_round_trip(t: Time)
    ensures
        (Time { nanos: t.nanos }) == t,
{
}

/// Law: `duration_since` saturates at zero: an instant measured against a
/// strictly later one gives the zero duration.
pub proof fn lemma_duration_since_saturates(t1: Time, t2: Time)
    requires
        t1.nanos <= t2.nanos,
    ensures
        t1.spec_duration_since(t2) == (Duration { nanos: 0 }),
{
}

/// Law: decoding the canonical wire form of an instant gives back exactly
/// that instant.
pub proof fn lemma_wire_round_trip(t: Time)
    ensures
        Time::spec_decoded(t.spec_encoded()) == t.nanos,
{
    let n: u64 = t.nanos;
    assert(((((n >> 56) & 0xff) as u8 as u64) << 56) | ((((n >> 48) & 0xff) as u8 as u64) << 48)
        | ((((n >> 40) & 0xff) as u8 as u64) << 40) | ((((n >> 32) & 0xff) as u8 as u64) << 32)
        | ((((n >> 24) & 0xff) as u8 as u64) << 24) | ((((n >> 16) & 0xff) as u8 as u64) << 16)
        | ((((n >> 8) & 0xff) as u8 as u64) << 8) | ((n & 0xff) as u8 as u64) == n)
        by (bit_vector);
}

/// Law: the wire form is canonical: re-encoding a decoded 8-byte sequence
/// reproduces the same bytes.
pub proof fn lemma_wire_canonical(s: Seq<u8>)
    requires
        s.len() == 8,
    ensures
        (Time { nanos: Time::spec_decoded(s) }).spec_encoded() =~= s,
{
    let b0: u8 = s[0];
    let b1: u8 = s[1];
    let b2: u8 = s[2];
    let b3: u8 = s[3];
    let b4: u8 = s[4];
    let b5: u8 = s[5];
    let b6: u8 = s[6];
    let b7: u8 = s[7];
    let n: u64 = ((b0 as u64) << 56) | ((b1 as u64) << 48) | ((b2 as u64) << 40) | ((b3 as u64)
        << 32) | ((b4 as u64) << 24) | ((b5 as u64) << 16) | ((b6 as u64) << 8) | (b7 as u64);
    assert(forall|m: u64|
        m == ((b0 as u64) << 56) | ((b1 as u64) << 48) | ((b2 as u64) << 40) | ((b3 as u64) << 32)
            | ((b4 as u64) << 24) | ((b5 as u64) << 16) | ((b6 as u64) << 8) | (b7 as u64)
            ==> ((m >> 56) & 0xff) as u8 == b0 && ((m >> 48) & 0xff) as u8 == b1 && ((m >> 40)
            & 0xff) as u8 == b2 && ((m >> 32) & 0xff) as u8 == b3 && ((m >> 24) & 0xff) as u8 == b4
            && ((m >> 16) & 0xff) as u8 == b5 && ((m >> 8) & 0xff) as u8 == b6 && (m & 0xff) as u8
            == b7) by (bit_vector);
}

} // verus!
