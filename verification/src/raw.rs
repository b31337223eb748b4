//! The raw event record: 56 bytes in which every field of an event is
//! stored at a fixed offset, integers in little-endian byte order.

use vstd::prelude::*;

verus! {

/// The size in bytes of a raw event record.
pub const RAW_EVENT_SIZE: usize = 56;

/// The unsigned 16-bit integer stored at `off` in `s`.
pub open spec fn u16_at(s: Seq<u8>, off: int) -> u16 {
    (s[off] + s[off + 1] * 256) as u16
}

/// The unsigned 32-bit integer stored at `off` in `s`.
pub open spec fn u32_at(s: Seq<u8>, off: int) -> u32 {
    (s[off] + s[off + 1] * 256 + s[off + 2] * 65536 + s[off + 3] * 16777216) as u32
}

/// The unsigned 64-bit integer stored at `off` in `s`.
pub open spec fn u64_at(s: Seq<u8>, off: int) -> u64 {
    (u32_at(s, off) + u32_at(s, off + 4) * 4294967296) as u64
}

/// The signed 16-bit integer stored (in two's complement) at `off` in `s`.
pub open spec fn i16_at(s: Seq<u8>, off: int) -> i16 {
    u16_at(s, off) as i16
}

/// The signed 32-bit integer stored (in two's complement) at `off` in `s`.
pub open spec fn i32_at(s: Seq<u8>, off: int) -> i32 {
    u32_at(s, off) as i32
}

/// The signed 64-bit integer stored (in two's complement) at `off` in `s`.
pub open spec fn i64_at(s: Seq<u8>, off: int) -> i64 {
    u64_at(s, off) as i64
}

/// The four bytes that store `x`, lowest first.
pub open spec fn le_u32(x: u32) -> Seq<u8> {
    seq![
        (x % 256) as u8,
        ((x / 256) % 256) as u8,
        ((x / 65536) % 256) as u8,
        (x / 16777216) as u8,
    ]
}

/// A record of `n` zero bytes.
pub open spec fn zeros(n: nat) -> Seq<u8> {
    Seq::new(n, |i: int| 0u8)
}

/// The bytes of `s` before its first zero byte (all of `s` where it
/// holds none), as a C string is read.
pub open spec fn take_until_nul(s: Seq<u8>) -> Seq<u8>
    decreases s.len(),
{
    if s.len() == 0 || s[0] == 0 {
        Seq::empty()
    } else {
        seq![s[0]] + take_until_nul(s.drop_first())
    }
}

/// Reading back the four bytes of `x` gives `x`.
pub proof fn lemma_u32_roundtrip(s: Seq<u8>, off: int, x: u32)
    requires
        0 <= off,
        off + 4 <= s.len(),
        s.subrange(off, off + 4) == le_u32(x),
    ensures
        u32_at(s, off) == x,
{
    assert(s[off] == s.subrange(off, off + 4)[0]);
    assert(s[off + 1] == s.subrange(off, off + 4)[1]);
    assert(s[off + 2] == s.subrange(off, off + 4)[2]);
    assert(s[off + 3] == s.subrange(off, off + 4)[3]);
    let xi = x as int;
    assert(xi % 256 + ((xi / 256) % 256) * 256 + ((xi / 65536) % 256) * 65536 + (xi / 16777216)
        * 16777216 == xi) by (nonlinear_arith)
        requires
            0 <= xi < 4294967296,
    ;
}

/// The bytes before the first zero byte of `s` are the first `i` bytes,
/// where `i` is the index of that zero byte (or the length of `s`).
pub proof fn lemma_take_until_nul(s: Seq<u8>, i: int)
    requires
        0 <= i <= s.len(),
        forall|j: int| 0 <= j < i ==> s[j] != 0,
        i == s.len() || s[i] == 0,
    ensures
        take_until_nul(s) == s.take(i),
    decreases s.len(),
{
    if s.len() == 0 || s[0] == 0 {
        assert(s.take(i) =~= Seq::<u8>::empty());
    } else {
        let t = s.drop_first();
        assert forall|j: int| 0 <= j < i - 1 implies t[j] != 0 by {
            assert(t[j] == s[j + 1]);
        }
        if i - 1 < t.len() {
            assert(t[i - 1] == s[i]);
        }
        lemma_take_until_nul(t, i - 1);
        assert(seq![s[0]] + t.take(i - 1) =~= s.take(i));
    }
}

/// The unsigned 16-bit integer stored at `off` in `raw`.
pub fn read_u16(raw: &[u8], off: usize) -> (r: u16)
    requires
        off + 2 <= raw@.len(),
    ensures
        r == u16_at(raw@, off as int),
{
    raw[off] as u16 + (raw[off + 1] as u16) * 256
}

/// The unsigned 32-bit integer stored at `off` in `raw`.
pub fn read_u32(raw: &[u8], off: usize) -> (r: u32)
    requires
        off + 4 <= raw@.len(),
    ensures
        r == u32_at(raw@, off as int),
{
    raw[off] as u32 + (raw[off + 1] as u32) * 256 + (raw[off + 2] as u32) * 65536 + (raw[off
        + 3] as u32) * 16777216
}

/// The unsigned 64-bit integer stored at `off` in `raw`.
pub fn read_u64(raw: &[u8], off: usize) -> (r: u64)
    requires
        off + 8 <= raw@.len(),
    ensures
        r == u64_at(raw@, off as int),
{
    let lo = read_u32(raw, off);
    assert(raw@.len() == raw.len());
    let hi = read_u32(raw, off + 4);
    lo as u64 + (hi as u64) * 4294967296
}

/// The signed 16-bit integer stored at `off` in `raw`.
pub fn read_i16(raw: &[u8], off: usize) -> (r: i16)
    requires
        off + 2 <= raw@.len(),
    ensures
        r == i16_at(raw@, off as int),
{
    read_u16(raw, off) as i16
}

/// The signed 32-bit integer stored at `off` in `raw`.
pub fn read_i32(raw: &[u8], off: usize) -> (r: i32)
    requires
        off + 4 <= raw@.len(),
    ensures
        r == i32_at(raw@, off as int),
{
    read_u32(raw, off) as i32
}

/// The signed 64-bit integer stored at `off` in `raw`.
pub fn read_i64(raw: &[u8], off: usize) -> (r: i64)
    requires
        off + 8 <= raw@.len(),
    ensures
        r == i64_at(raw@, off as int),
{
    read_u64(raw, off) as i64
}

/// Appends the four bytes of `x`, lowest first.
pub fn push_u32(out: &mut Vec<u8>, x: u32)
    ensures
        final(out)@ == old(out)@ + le_u32(x),
{
    out.push((x % 256) as u8);
    out.push(((x / 256) % 256) as u8);
    out.push(((x / 65536) % 256) as u8);
    out.push((x / 16777216) as u8);
    assert(final(out)@ =~= old(out)@ + le_u32(x));
}

/// Appends `n` zero bytes.
pub fn push_zeros(out: &mut Vec<u8>, n: usize)
    ensures
        final(out)@ == old(out)@ + zeros(n as nat),
{
    let ghost start = out@;
    let mut i: usize = 0;
    while i < n
        invariant
            i <= n,
            out@ =~= start + zeros(i as nat),
        decreases n - i,
    {
        out.push(0u8);
        i = i + 1;
    }
}

/// The bytes that `raw[start..end]` holds before its first zero byte.
pub fn c_string_bytes(raw: &[u8], start: usize, end: usize) -> (r: Vec<u8>)
    requires
        start <= end <= raw@.len(),
    ensures
        r@ == take_until_nul(raw@.subrange(start as int, end as int)),
{
    let ghost field = raw@.subrange(start as int, end as int);
    let mut out: Vec<u8> = Vec::new();
    let mut i: usize = start;
    while i < end && raw[i] != 0
        invariant
            start <= i <= end <= raw@.len(),
            field == raw@.subrange(start as int, end as int),
            out@ == field.take(i - start),
            forall|j: int| 0 <= j < i - start ==> field[j] != 0,
        decreases end - i,
    {
        out.push(raw[i]);
        i = i + 1;
        assert(out@ =~= field.take(i - start));
    }
    proof {
        lemma_take_until_nul(field, i - start);
    }
    out
}

/// A copy of the bytes of `s`.
pub fn copy_bytes(s: &[u8]) -> (r: Vec<u8>)
    ensures
        r@ == s@,
{
    let mut out: Vec<u8> = Vec::new();
    let mut i: usize = 0;
    while i < s.len()
        invariant
            i <= s@.len(),
            out@ == s@.take(i as int),
        decreases s@.len() - i,
    {
        out.push(s[i]);
        i = i + 1;
        assert(out@ =~= s@.take(i as int));
    }
    assert(s@.take(i as int) =~= s@);
    out
}

/// A raw event record of zero bytes, which holds no event.
pub fn null_event() -> (r: Vec<u8>)
    ensures
        r@ == zeros(RAW_EVENT_SIZE as nat),
{
    let mut r: Vec<u8> = Vec::new();
    push_zeros(&mut r, RAW_EVENT_SIZE);
    assert(r@ =~= zeros(RAW_EVENT_SIZE as nat));
    r
}

} // verus!
