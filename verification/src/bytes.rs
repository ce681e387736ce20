//! Little-endian integers in byte sequences.

use vstd::prelude::*;

verus! {

/// The two bytes of `v`, least significant first.
pub open spec fn le2(v: u16) -> Seq<u8> {
    seq![(v % 0x100) as u8, (v / 0x100) as u8]
}

/// The four bytes of `v`, least significant first.
pub open spec fn le4(v: u32) -> Seq<u8> {
    seq![
        (v % 0x100) as u8,
        (v / 0x100 % 0x100) as u8,
        (v / 0x1_0000 % 0x100) as u8,
        (v / 0x100_0000) as u8,
    ]
}

/// The eight bytes of `v`, least significant first.
pub open spec fn le8(v: u64) -> Seq<u8> {
    le4((v % 0x1_0000_0000) as u32) + le4((v / 0x1_0000_0000) as u32)
}

/// The integer whose two bytes, least significant first, stand in `s` from index `at` on.
pub open spec fn u16_at(s: Seq<u8>, at: int) -> int {
    s[at] + 0x100 * s[at + 1]
}

/// The integer whose four bytes, least significant first, stand in `s` from index `at` on.
pub open spec fn u32_at(s: Seq<u8>, at: int) -> int {
    s[at] + 0x100 * s[at + 1] + 0x1_0000 * s[at + 2] + 0x100_0000 * s[at + 3]
}

/// The integer whose eight bytes, least significant first, stand in `s` from index `at` on.
#[verifier::opaque]
pub open spec fn u64_at(s: Seq<u8>, at: int) -> int {
    u32_at(s, at) + 0x1_0000_0000 * u32_at(s, at + 4)
}

/// `s` with `part` written over it from index `at` on; what would stand past the end is lost.
pub open spec fn overwrite(s: Seq<u8>, at: int, part: Seq<u8>) -> Seq<u8> {
    Seq::new(
        s.len(),
        |i: int|
            if at <= i < at + part.len() {
                part[i - at]
            } else {
                s[i]
            },
    )
}

/// The low thirty-two bits of an integer.
pub open spec fn low_bits(v: int) -> u32 {
    (v % 0x1_0000_0000) as u32
}

/// The low thirty-two bits of a machine integer.
pub fn low_u32(v: usize) -> (w: u32)
    ensures
        w == low_bits(v as int),
{
    let wide: u64 = v as u64;
    assert(wide as u32 == wide % 0x1_0000_0000) by (bit_vector);
    wide as u32
}

/// The bytes of a `u16`, least significant first.
pub fn u16_bytes(v: u16) -> (b: [u8; 2])
    ensures
        b@ == le2(v),
{
    [(v % 0x100) as u8, (v / 0x100) as u8]
}

/// The bytes of a `u32`, least significant first.
pub fn u32_bytes(v: u32) -> (b: [u8; 4])
    ensures
        b@ == le4(v),
{
    [
        (v % 0x100) as u8,
        (v / 0x100 % 0x100) as u8,
        (v / 0x1_0000 % 0x100) as u8,
        (v / 0x100_0000) as u8,
    ]
}

/// The bytes of a `u64`, least significant first.
pub fn u64_bytes(v: u64) -> (b: [u8; 8])
    ensures
        b@ == le8(v),
{
    let lo = u32_bytes((v % 0x1_0000_0000) as u32);
    let hi = u32_bytes((v / 0x1_0000_0000) as u32);
    [lo[0], lo[1], lo[2], lo[3], hi[0], hi[1], hi[2], hi[3]]
}

/// The `u32` whose bytes, least significant first, are `b`.
pub fn u32_from_bytes(b: [u8; 4]) -> (v: u32)
    ensures
        v == u32_at(b@, 0),
{
    b[0] as u32 + 0x100 * (b[1] as u32) + 0x1_0000 * (b[2] as u32) + 0x100_0000 * (b[3] as u32)
}

/// Writing a `u16` over a sequence and reading it back gives the same integer.
pub proof fn u16_read_back(s: Seq<u8>, at: int, v: u16)
    requires
        0 <= at,
        at + 2 <= s.len(),
    ensures
        u16_at(overwrite(s, at, le2(v)), at) == v,
{
}

/// Writing a `u32` over a sequence and reading it back gives the same integer.
pub proof fn u32_read_back(s: Seq<u8>, at: int, v: u32)
    requires
        0 <= at,
        at + 4 <= s.len(),
    ensures
        u32_at(overwrite(s, at, le4(v)), at) == v,
{
}

/// Writing a `u64` over a sequence and reading it back gives the same integer.
pub proof fn u64_read_back(s: Seq<u8>, at: int, v: u64)
    requires
        0 <= at,
        at + 8 <= s.len(),
    ensures
        u64_at(overwrite(s, at, le8(v)), at) == v,
{
    reveal(u64_at);
    let lo = (v % 0x1_0000_0000) as u32;
    let hi = (v / 0x1_0000_0000) as u32;
    let t = overwrite(s, at, le8(v));
    assert(u32_at(t, at) == lo) by {
        let a = overwrite(s, at, le4(lo));
        u32_read_back(s, at, lo);
        assert(forall|k: int| at <= k < at + 4 ==> t[k] == a[k]);
    }
    assert(u32_at(t, at + 4) == hi) by {
        let a = overwrite(s, at + 4, le4(hi));
        u32_read_back(s, at + 4, hi);
        assert(forall|k: int| at + 4 <= k < at + 8 ==> t[k] == a[k]);
    }
}

/// Eight bytes alone decide the integer that stands in them.
pub proof fn u64_at_is_local(s: Seq<u8>, t: Seq<u8>, at: int)
    requires
        forall|k: int| at <= k < at + 8 ==> s[k] == t[k],
    ensures
        u64_at(s, at) == u64_at(t, at),
{
    reveal(u64_at);
}

/// Four bytes are the bytes of the integer that they encode.
pub proof fn le4_of_u32_at(s: Seq<u8>, at: int)
    requires
        0 <= at,
        at + 4 <= s.len(),
    ensures
        le4(u32_at(s, at) as u32) == s.subrange(at, at + 4),
{
    let v = u32_at(s, at);
    assert(v % 0x100 == s[at]);
    assert(v / 0x100 == s[at + 1] + 0x100 * s[at + 2] + 0x1_0000 * s[at + 3]);
    assert(v / 0x100 % 0x100 == s[at + 1]);
    assert(v / 0x1_0000 == s[at + 2] + 0x100 * s[at + 3]);
    assert(v / 0x1_0000 % 0x100 == s[at + 2]);
    assert(v / 0x100_0000 == s[at + 3]);
    assert(le4(v as u32) =~= s.subrange(at, at + 4));
}

/// The bytes of an integer are its digits in base 256, least significant first, as many as it has
/// room for.
pub proof fn bytes_are_digits(a: u16, b: u32, c: u64)
    ensures
        le2(a).len() == 2 && le2(a)[0] + 0x100 * le2(a)[1] == a,
        le4(b).len() == 4,
        le4(b)[0] + 0x100 * le4(b)[1] + 0x1_0000 * le4(b)[2] + 0x100_0000 * le4(b)[3] == b,
        le8(c).len() == 8,
        le8(c)[0] + 0x100 * le8(c)[1] + 0x1_0000 * le8(c)[2] + 0x100_0000 * le8(c)[3]
            + 0x1_0000_0000 * le8(c)[4] + 0x100_0000_0000 * le8(c)[5] + 0x1_0000_0000_0000
            * le8(c)[6] + 0x100_0000_0000_0000 * le8(c)[7] == c,
{
}

/// An integer read from bytes has them as its digits in base 256, least significant first.
pub proof fn digits_are_bytes(s: Seq<u8>, at: int)
    ensures
        u16_at(s, at) == s[at] + 0x100 * s[at + 1],
        u32_at(s, at) == s[at] + 0x100 * s[at + 1] + 0x1_0000 * s[at + 2] + 0x100_0000 * s[at + 3],
        u64_at(s, at) == s[at] + 0x100 * s[at + 1] + 0x1_0000 * s[at + 2] + 0x100_0000 * s[at + 3]
            + 0x1_0000_0000 * s[at + 4] + 0x100_0000_0000 * s[at + 5] + 0x1_0000_0000_0000 * s[at
            + 6] + 0x100_0000_0000_0000 * s[at + 7],
{
    reveal(u64_at);
}

/// The three functions that take an integer apart give its digits in base 256.
pub proof fn taken_apart_into_digits(
    a: u16,
    x: [u8; 2],
    b: u32,
    y: [u8; 4],
    c: u64,
    z: [u8; 8],
)
    requires
        call_ensures(u16_bytes, (a,), x),
        call_ensures(u32_bytes, (b,), y),
        call_ensures(u64_bytes, (c,), z),
    ensures
        x@[0] + 0x100 * x@[1] == a,
        y@[0] + 0x100 * y@[1] + 0x1_0000 * y@[2] + 0x100_0000 * y@[3] == b,
        z@[0] + 0x100 * z@[1] + 0x1_0000 * z@[2] + 0x100_0000 * z@[3] + 0x1_0000_0000 * z@[4]
            + 0x100_0000_0000 * z@[5] + 0x1_0000_0000_0000 * z@[6] + 0x100_0000_0000_0000 * z@[7]
            == c,
{
    bytes_are_digits(a, b, c);
}

/// Taking a `u32` apart and putting it together again, in either order, changes nothing.
pub proof fn apart_and_together(v: u32, b: [u8; 4], w: u32, c: [u8; 4])
    requires
        call_ensures(u32_bytes, (v,), b),
        call_ensures(u32_from_bytes, (c,), w),
    ensures
        b@ == c@ <==> v == w,
        w == c@[0] + 0x100 * c@[1] + 0x1_0000 * c@[2] + 0x100_0000 * c@[3],
{
    if v == w {
        le4_of_u32_at(c@, 0);
        assert(c@.subrange(0, 4) =~= c@);
    }
}

/// The low thirty-two bits differ from the integer by a multiple of 2^32, and fit a `u32`.
pub proof fn low_bits_are_congruent(v: usize, w: u32)
    requires
        call_ensures(low_u32, (v,), w),
    ensures
        (v - w) % 0x1_0000_0000 == 0,
        v < 0x1_0000_0000 ==> w == v,
{
}

/// Writing over a sequence puts each byte in its place, as far as the sequence goes, and changes
/// nothing else.
pub proof fn overwrite_is_local(s: Seq<u8>, at: int, part: Seq<u8>, k: int)
    ensures
        overwrite(s, at, part).len() == s.len(),
        0 <= k < part.len() && 0 <= at + k < s.len() ==> overwrite(s, at, part)[at + k] == part[k],
        0 <= k < s.len() && (k < at || at + part.len() <= k) ==> overwrite(s, at, part)[k] == s[k],
{
}

} // verus!
