//! The raw event record and its fixed 24-byte binary layout.
//!
//! A record is written to the device in the machine's native byte
//! order, fields in order: seconds (8 bytes), microseconds (8 bytes),
//! type (2 bytes), code (2 bytes), value (4 bytes) — a plain
//! concatenation with no padding, matching the input driver's event
//! structure.  The per-field byte images are left uninterpreted
//! because they depend on the platform's endianness; the layout is
//! specified relationally, and decoding is proved to invert encoding.

use vstd::prelude::*;
use crate::error::Error;
use crate::time::TimeVal;

verus! {

/// One raw input event: a timestamp plus the numeric type, code and
/// value triple.
#[derive(Debug, Clone, Copy, PartialEq, Eq, Structural)]
pub struct InputEvent {
    pub time: TimeVal,
    pub type_: u16,
    pub code: u16,
    pub value: i32,
}

/// The native-order memory representation of an `i64`.
pub uninterp spec fn i64_ne(x: i64) -> Seq<u8>;

/// The native-order memory representation of a `u16`.
pub uninterp spec fn u16_ne(x: u16) -> Seq<u8>;

/// The native-order memory representation of an `i32`.
pub uninterp spec fn i32_ne(x: i32) -> Seq<u8>;

/// Relies on `i64::to_ne_bytes`: the eight-byte native-order
/// representation of the argument, a function of the argument alone.
#[verifier::external_body]
fn i64_to_ne(x: i64) -> (r: [u8; 8])
    ensures
        r@ == i64_ne(x),
        r@.len() == 8,
{
    x.to_ne_bytes()
}

/// Relies on `u16::to_ne_bytes`: the two-byte native-order
/// representation of the argument, a function of the argument alone.
#[verifier::external_body]
fn u16_to_ne(x: u16) -> (r: [u8; 2])
    ensures
        r@ == u16_ne(x),
        r@.len() == 2,
{
    x.to_ne_bytes()
}

/// Relies on `i32::to_ne_bytes`: the four-byte native-order
/// representation of the argument, a function of the argument alone.
#[verifier::external_body]
fn i32_to_ne(x: i32) -> (r: [u8; 4])
    ensures
        r@ == i32_ne(x),
        r@.len() == 4,
{
    x.to_ne_bytes()
}

/// Relies on `i64::from_ne_bytes`, the documented inverse of
/// `i64::to_ne_bytes`.
#[verifier::external_body]
fn i64_from_ne(b: &[u8]) -> (r: i64)
    requires
        b@.len() == 8,
    ensures
        forall|x: i64| b@ == i64_ne(x) ==> r == x,
{
    i64::from_ne_bytes(b.try_into().unwrap())
}

/// Relies on `u16::from_ne_bytes`, the documented inverse of
/// `u16::to_ne_bytes`.
#[verifier::external_body]
fn u16_from_ne(b: &[u8]) -> (r: u16)
    requires
        b@.len() == 2,
    ensures
        forall|x: u16| b@ == u16_ne(x) ==> r == x,
{
    u16::from_ne_bytes(b.try_into().unwrap())
}

/// Relies on `i32::from_ne_bytes`, the documented inverse of
/// `i32::to_ne_bytes`.
#[verifier::external_body]
fn i32_from_ne(b: &[u8]) -> (r: i32)
    requires
        b@.len() == 4,
    ensures
        forall|x: i32| b@ == i32_ne(x) ==> r == x,
{
    i32::from_ne_bytes(b.try_into().unwrap())
}

/// How a 24-byte record lays out an event: seconds, microseconds,
/// type, code, value, each in native byte order, concatenated.
pub open spec fn is_event_bytes(e: InputEvent, b: Seq<u8>) -> bool {
    &&& b.len() == 24
    &&& b.subrange(0, 8) == i64_ne(e.time.sec)
    &&& b.subrange(8, 16) == i64_ne(e.time.usec)
    &&& b.subrange(16, 18) == u16_ne(e.type_)
    &&& b.subrange(18, 20) == u16_ne(e.code)
    &&& b.subrange(20, 24) == i32_ne(e.value)
}

/// Appends every byte of `s` to `out`, in order.
fn append_bytes(out: &mut Vec<u8>, s: &[u8])
    ensures
        final(out)@ == old(out)@ + s@,
{
    let n: usize = s.len();
    let mut i: usize = 0;
    while i < n
        invariant
            0 <= i <= n,
            n == s@.len(),
            out@ == old(out)@ + s@.take(i as int),
        decreases n - i,
    {
        out.push(s[i]);
        proof {
            assert(old(out)@ + s@.take(i + 1) =~= (old(out)@ + s@.take(i as int)).push(s@[i as int]));
        }
        i = i + 1;
    }
    proof {
        assert(s@.take(n as int) =~= s@);
    }
}

impl InputEvent {
    /// Serializes the event to its 24-byte record.
    pub fn to_ne_bytes(&self) -> (r: Vec<u8>)
        ensures
            r@.len() == 24,
            is_event_bytes(*self, r@),
    {
        let mut out: Vec<u8> = Vec::new();
        let sec = i64_to_ne(self.time.sec);
        append_bytes(&mut out, sec.as_slice());
        let usec = i64_to_ne(self.time.usec);
        append_bytes(&mut out, usec.as_slice());
        let type_ = u16_to_ne(self.type_);
        append_bytes(&mut out, type_.as_slice());
        let code = u16_to_ne(self.code);
        append_bytes(&mut out, code.as_slice());
        let value = i32_to_ne(self.value);
        append_bytes(&mut out, value.as_slice());
        proof {
            assert(out@.subrange(0, 8) =~= i64_ne(self.time.sec));
            assert(out@.subrange(8, 16) =~= i64_ne(self.time.usec));
            assert(out@.subrange(16, 18) =~= u16_ne(self.type_));
            assert(out@.subrange(18, 20) =~= u16_ne(self.code));
            assert(out@.subrange(20, 24) =~= i32_ne(self.value));
        }
        out
    }

    /// Reads the fields of a 24-byte record back: any event the bytes
    /// are a record of is the one returned, so decoding inverts
    /// [`InputEvent::to_ne_bytes`] exactly.
    pub fn from_ne_bytes(b: &[u8]) -> (r: InputEvent)
        requires
            b@.len() == 24,
        ensures
            forall|e: InputEvent| is_event_bytes(e, b@) ==> r == e,
    {
        let sec = i64_from_ne(&b[0..8]);
        let usec = i64_from_ne(&b[8..16]);
        let type_ = u16_from_ne(&b[16..18]);
        let code = u16_from_ne(&b[18..20]);
        let value = i32_from_ne(&b[20..24]);
        InputEvent { time: TimeVal { sec, usec }, type_, code, value }
    }
}

/// Appends the event's 24-byte record to a byte sink.  Writing to a
/// byte buffer cannot fail, so the result is always `Ok`; the `Result`
/// mirrors the fallible device write the buffer stands in for.
pub fn write_event(device: &mut Vec<u8>, event: &InputEvent) -> (r: Result<(), Error>)
    ensures
        r is Ok,
        final(device)@.len() == old(device)@.len() + 24 as int,
        final(device)@.subrange(0, old(device)@.len() as int) == old(device)@,
        is_event_bytes(*event, final(device)@.subrange(
            old(device)@.len() as int,
            old(device)@.len() + 24 as int,
        )),
{
    let b = event.to_ne_bytes();
    append_bytes(device, b.as_slice());
    proof {
        assert(device@.subrange(0, old(device)@.len() as int) =~= old(device)@);
        assert(device@.subrange(old(device)@.len() as int, old(device)@.len() + 24 as int) =~= b@);
    }
    Ok(())
}

} // verus!
