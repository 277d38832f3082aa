//! The kernel's fixed-size input record and its decoding from bytes.
//!
//! A record is 24 bytes in native (little-endian) order:
//! seconds `i64` at 0, microseconds `i64` at 8, type `u16` at 16,
//! code `u16` at 18 and value `i32` at 20.
use vstd::prelude::*;

verus! {

/// The size of one record in bytes.
pub const RECORD_SIZE: usize = 24;

/// Synchronization records.
pub const EV_SYN: u16 = 0x00;
/// Key and button records.
pub const EV_KEY: u16 = 0x01;
/// Absolute-axis records.
pub const EV_ABS: u16 = 0x03;

/// Multitouch: selects the slot that later fields write to.
pub const ABS_MT_SLOT: u16 = 0x2f;
/// Multitouch: the contact's tracking id, `-1` when lifted.
pub const ABS_MT_TRACKING_ID: u16 = 0x39;
/// Multitouch: X position.
pub const ABS_MT_POSITION_X: u16 = 0x35;
/// Multitouch: Y position.
pub const ABS_MT_POSITION_Y: u16 = 0x36;

/// Single touch: X position.
pub const ABS_X: u16 = 0x00;
/// Single touch: Y position.
pub const ABS_Y: u16 = 0x01;

/// The synchronization subtype that closes a frame.
pub const SYN_REPORT: u16 = 0x00;

/// The touch-contact button.
pub const BTN_TOUCH: u16 = 0x14a;

/// One decoded kernel input record.
#[derive(Clone, Copy, Debug, PartialEq, Eq, Structural)]
pub struct InputEvent {
    pub tv_sec: i64,
    pub tv_usec: i64,
    pub event_type: u16,
    pub code: u16,
    pub value: i32,
}

/// The unsigned little-endian integer held by `n` bytes of `b` from `off`.
pub open spec fn le_unsigned(b: Seq<u8>, off: int, n: nat) -> nat
    decreases n,
{
    if n == 0 {
        0
    } else {
        (b[off] as nat + 256 * le_unsigned(b, off + 1, (n - 1) as nat)) as nat
    }
}

/// Reads `n` bytes from `off` as a two's-complement signed integer.
pub open spec fn le_signed(b: Seq<u8>, off: int, n: nat) -> int {
    let u = le_unsigned(b, off, n);
    if u >= pow256(n) / 2 {
        u - pow256(n)
    } else {
        u as int
    }
}

/// `256` to the power `n`.
pub open spec fn pow256(n: nat) -> nat
    decreases n,
{
    if n == 0 {
        1
    } else {
        256 * pow256((n - 1) as nat)
    }
}

/// The record that the first `RECORD_SIZE` bytes of `b` hold.
pub open spec fn spec_decode(b: Seq<u8>) -> InputEvent {
    InputEvent {
        tv_sec: le_signed(b, 0, 8) as i64,
        tv_usec: le_signed(b, 8, 8) as i64,
        event_type: le_unsigned(b, 16, 2) as u16,
        code: le_unsigned(b, 18, 2) as u16,
        value: le_signed(b, 20, 4) as i32,
    }
}

proof fn lemma_le_bound(b: Seq<u8>, off: int, n: nat)
    requires
        0 <= off,
        off + n <= b.len(),
    ensures
        le_unsigned(b, off, n) < pow256(n),
    decreases n,
{
    if n > 0 {
        lemma_le_bound(b, off + 1, (n - 1) as nat);
    }
}

/// Reads `n` (at most 8) bytes from `off` as an unsigned little-endian integer.
fn read_le(b: &[u8], off: usize, n: usize) -> (r: u64)
    requires
        1 <= n <= 8,
        off <= 64,
        off + n <= b@.len(),
    ensures
        r as nat == le_unsigned(b@, off as int, n as nat),
{
    proof {
        reveal_with_fuel(pow256, 9);
        lemma_le_bound(b@, off as int, n as nat);
    }
    let mut acc: u64 = 0;
    let mut k: usize = n;
    while k > 0
        invariant
            0 <= k <= n <= 8,
            off <= 64,
            off + n <= b@.len(),
            acc as nat == le_unsigned(b@, (off + k) as int, (n - k) as nat),
            le_unsigned(b@, (off + k) as int, (n - k) as nat) < pow256((n - k) as nat),
        decreases k,
    {
        proof {
            lemma_pow256_monotone((n - k) as nat, 7);
            assert(pow256(7) == 0x100_0000_0000_0000) by {
                reveal_with_fuel(pow256, 8);
            }
        }
        k = k - 1;
        proof {
            lemma_le_bound(b@, (off + k) as int, (n - k) as nat);
        }
        acc = b[off + k] as u64 + 256 * acc;
    }
    acc
}

proof fn lemma_pow256_monotone(a: nat, b: nat)
    requires
        a <= b,
    ensures
        pow256(a) <= pow256(b),
    decreases b,
{
    if a < b {
        lemma_pow256_monotone(a, (b - 1) as nat);
    }
}

/// Decodes one record from the first `RECORD_SIZE` bytes of `buf`; a buffer
/// shorter than a record (a truncated read) gives `None`.
pub fn decode_record(buf: &[u8]) -> (r: Option<InputEvent>)
    ensures
        buf@.len() < RECORD_SIZE ==> r is None,
        buf@.len() >= RECORD_SIZE ==> r == Some(spec_decode(buf@)),
{
    if buf.len() < RECORD_SIZE {
        return None;
    }
    let sec: u64 = read_le(buf, 0, 8);
    let usec: u64 = read_le(buf, 8, 8);
    let event_type: u64 = read_le(buf, 16, 2);
    let code: u64 = read_le(buf, 18, 2);
    let value: u64 = read_le(buf, 20, 4);
    proof {
        reveal_with_fuel(pow256, 9);
        lemma_le_bound(buf@, 16, 2);
        lemma_le_bound(buf@, 18, 2);
        lemma_le_bound(buf@, 20, 4);
    }
    Some(InputEvent {
        tv_sec: to_signed64(sec),
        tv_usec: to_signed64(usec),
        event_type: event_type as u16,
        code: code as u16,
        value: to_signed32(value),
    })
}

fn to_signed64(u: u64) -> (r: i64)
    ensures
        r as int == (if u as nat >= pow256(8) / 2 { u - pow256(8) } else { u as int }),
{
    proof {
        reveal_with_fuel(pow256, 9);
    }
    if u >= 0x8000_0000_0000_0000 {
        (u - 0x8000_0000_0000_0000) as i64 - 0x4000_0000_0000_0000 - 0x4000_0000_0000_0000
    } else {
        u as i64
    }
}

fn to_signed32(u: u64) -> (r: i32)
    requires
        u < pow256(4),
    ensures
        r as int == (if u as nat >= pow256(4) / 2 { u - pow256(4) } else { u as int }),
{
    proof {
        reveal_with_fuel(pow256, 5);
    }
    if u >= 0x8000_0000 {
        (u as i64 - 0x1_0000_0000) as i32
    } else {
        u as i32
    }
}

} // verus!
