//! Canonical keys of coordinates.
//!
//! A coordinate is carried as the bit pattern of an IEEE-754 binary64 number.
//! Its key is the triple (mantissa, exponent, sign) read off that pattern, and
//! keys are ordered lexicographically. Two coordinates have the same key
//! exactly when their bit patterns are the same.

use crate::symmetry::point::Point3;
use vstd::prelude::*;

verus! {

/// Two to the power 52, the number of stored fraction bits of a binary64
/// number: the weight of the implicit leading bit.
pub const IMPLICIT_BIT: u64 = 0x10_0000_0000_0000;

/// The stored fraction: the low 52 bits of the pattern.
pub open spec fn fraction_field(bits: u64) -> int {
    bits as int % IMPLICIT_BIT as int
}

/// The stored (biased) exponent: the 11 bits above the fraction.
pub open spec fn exponent_field(bits: u64) -> int {
    (bits as int / IMPLICIT_BIT as int) % 0x800
}

/// The mantissa of the key: the fraction with the implicit leading bit
/// restored for a normalized number, the fraction doubled for a subnormal one.
pub open spec fn mantissa_of(bits: u64) -> int {
    if exponent_field(bits) == 0 {
        2 * fraction_field(bits)
    } else {
        fraction_field(bits) + IMPLICIT_BIT
    }
}

/// The unbiased exponent of the key: the stored exponent less the bias 1023
/// and the 52 fraction bits, so that the magnitude of a finite number is the
/// mantissa times two to the power of this exponent.
pub open spec fn exponent_of(bits: u64) -> int {
    exponent_field(bits) - 1075
}

/// The sign of the key: `1` when the top bit is clear, `-1` when it is set.
pub open spec fn sign_of(bits: u64) -> int {
    if bits < 0x8000_0000_0000_0000 {
        1
    } else {
        -1
    }
}

/// The key of one coordinate.
pub open spec fn decode(bits: u64) -> (u64, i16, i8) {
    (mantissa_of(bits) as u64, exponent_of(bits) as i16, sign_of(bits) as i8)
}

proof fn lemma_fields(bits: u64)
    ensures
        (bits & 0xf_ffff_ffff_ffff) as int == fraction_field(bits),
        ((bits >> 52) & 0x7ff) as int == exponent_field(bits),
        (bits >> 63 == 0) <==> bits < 0x8000_0000_0000_0000,
        0 <= fraction_field(bits) < 0x10_0000_0000_0000,
        0 <= exponent_field(bits) < 0x800,
{
    assert(bits & 0xf_ffff_ffff_ffff == bits % 0x10_0000_0000_0000) by (bit_vector);
    assert((bits >> 52) & 0x7ff == (bits / 0x10_0000_0000_0000) % 0x800) by (bit_vector);
    assert((bits >> 63 == 0) <==> bits < 0x8000_0000_0000_0000) by (bit_vector);
}

/// Splits the bit pattern of a binary64 number into mantissa, exponent and
/// sign.
pub fn integer_decode(bits: u64) -> (key: (u64, i16, i8))
    ensures
        key == decode(bits),
        key.0 == mantissa_of(bits),
        key.1 == exponent_of(bits),
        key.2 == sign_of(bits),
{
    proof {
        lemma_fields(bits);
    }
    let sign: i8 = if bits >> 63 == 0 { 1 } else { -1 };
    let fraction: u64 = bits & 0xf_ffff_ffff_ffff;
    let field: u64 = (bits >> 52) & 0x7ff;
    let mut exponent: i16 = field as i16;
    let mantissa: u64 = if exponent == 0 {
        assert(fraction << 1 == 2 * fraction) by (bit_vector)
            requires
                fraction < 0x10_0000_0000_0000,
        ;
        fraction << 1
    } else {
        assert(fraction | 0x10_0000_0000_0000 == fraction + 0x10_0000_0000_0000) by (bit_vector)
            requires
                fraction < 0x10_0000_0000_0000,
        ;
        fraction | 0x10_0000_0000_0000
    };
    exponent -= 1023 + 52;
    (mantissa, exponent, sign)
}

/// The key of a point: the keys of its three coordinates, `x` first.
pub fn point3_decode(point: Point3) -> (key: [(u64, i16, i8); 3])
    ensures
        key@ == point_key(point),
{
    let key = [integer_decode(point.x), integer_decode(point.y), integer_decode(point.z)];
    assert(key@ =~= point_key(point));
    key
}

/// The key of a point as a sequence of three coordinate keys.
pub open spec fn point_key(point: Point3) -> Seq<(u64, i16, i8)> {
    seq![decode(point.x), decode(point.y), decode(point.z)]
}

/// Lexicographic order of coordinate keys: by mantissa, then exponent, then
/// sign.
pub open spec fn coord_lt(a: (u64, i16, i8), b: (u64, i16, i8)) -> bool {
    a.0 < b.0 || (a.0 == b.0 && (a.1 < b.1 || (a.1 == b.1 && a.2 < b.2)))
}

/// Lexicographic order of point keys: by the key of `x`, then of `y`, then of
/// `z`.
pub open spec fn key_lt(a: Seq<(u64, i16, i8)>, b: Seq<(u64, i16, i8)>) -> bool {
    coord_lt(a[0], b[0]) || (a[0] == b[0] && (coord_lt(a[1], b[1]) || (a[1] == b[1] && coord_lt(
        a[2],
        b[2],
    ))))
}

/// Whether `p` comes strictly before `q` in the order of their keys.
pub open spec fn point_lt(p: Point3, q: Point3) -> bool {
    key_lt(point_key(p), point_key(q))
}

fn coord_before(a: (u64, i16, i8), b: (u64, i16, i8)) -> (r: bool)
    ensures
        r == coord_lt(a, b),
{
    a.0 < b.0 || (a.0 == b.0 && (a.1 < b.1 || (a.1 == b.1 && a.2 < b.2)))
}

fn coord_same(a: (u64, i16, i8), b: (u64, i16, i8)) -> (r: bool)
    ensures
        r == (a == b),
{
    a.0 == b.0 && a.1 == b.1 && a.2 == b.2
}

/// Decides whether key `a` comes strictly before key `b`.
pub fn key_before(a: &[(u64, i16, i8); 3], b: &[(u64, i16, i8); 3]) -> (r: bool)
    ensures
        r == key_lt(a@, b@),
{
    if coord_before(a[0], b[0]) {
        true
    } else if coord_same(a[0], b[0]) {
        if coord_before(a[1], b[1]) {
            true
        } else if coord_same(a[1], b[1]) {
            coord_before(a[2], b[2])
        } else {
            false
        }
    } else {
        false
    }
}

/// Every key lies in the range that the binary64 layout allows: a mantissa
/// below 2^53, an exponent from -1075 to 972, a sign of 1 or -1.
pub proof fn lemma_decode_bounds(bits: u64)
    ensures
        0 <= mantissa_of(bits) < 0x20_0000_0000_0000,
        -1075 <= exponent_of(bits) <= 972,
        sign_of(bits) == 1 || sign_of(bits) == -1,
        decode(bits).0 == mantissa_of(bits),
        decode(bits).1 == exponent_of(bits),
        decode(bits).2 == sign_of(bits),
{
}

/// Two coordinates have the same key exactly when their bit patterns are the
/// same.
pub proof fn lemma_decode_injective(a: u64, b: u64)
    ensures
        decode(a) == decode(b) <==> a == b,
{
    lemma_decode_bounds(a);
    lemma_decode_bounds(b);
    if decode(a) == decode(b) {
        assert(exponent_field(a) == exponent_field(b));
        assert(fraction_field(a) == fraction_field(b));
        assert(sign_of(a) == sign_of(b));
        lemma_pattern_is_sum(a);
        lemma_pattern_is_sum(b);
    }
}

proof fn lemma_pattern_is_sum(bits: u64)
    ensures
        bits == (if bits < 0x8000_0000_0000_0000 {
            0int
        } else {
            0x8000_0000_0000_0000int
        }) + exponent_field(bits) * 0x10_0000_0000_0000 + fraction_field(bits),
{
}

/// Two points have the same key exactly when they agree bit for bit.
pub proof fn lemma_point_key_injective(p: Point3, q: Point3)
    ensures
        point_key(p) == point_key(q) <==> p == q,
{
    if point_key(p) == point_key(q) {
        assert(point_key(p)[0] == point_key(q)[0]);
        assert(point_key(p)[1] == point_key(q)[1]);
        assert(point_key(p)[2] == point_key(q)[2]);
        lemma_decode_injective(p.x, q.x);
        lemma_decode_injective(p.y, q.y);
        lemma_decode_injective(p.z, q.z);
    }
}

/// The order of points by key is a strict total order: no point precedes
/// itself, precedence is transitive, and of two different points one
/// precedes the other.
pub proof fn lemma_point_order(p: Point3, q: Point3, r: Point3)
    ensures
        !point_lt(p, p),
        point_lt(p, q) && point_lt(q, r) ==> point_lt(p, r),
        point_lt(p, q) ==> !point_lt(q, p),
        p != q ==> point_lt(p, q) || point_lt(q, p),
{
    lemma_decode_injective(p.x, q.x);
    lemma_decode_injective(p.y, q.y);
    lemma_decode_injective(p.z, q.z);
}

} // verus!
