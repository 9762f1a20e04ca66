//! The mount's angle format: a full revolution is `2^32` units, written on the
//! wire as eight ASCII hexadecimal digits.

use crate::error::{outcome, Fault, MountError};
use vstd::arithmetic::div_mod::lemma_mod_breakdown;
use vstd::prelude::*;
use vstd::slice::slice_subrange;

verus! {

/// Units in one full revolution.
pub const REVOLUTION: u64 = 0x1_0000_0000;

/// Digits of one angle field on the wire.
pub const ANGLE_DIGITS: usize = 8;

pub open spec fn pow16(n: nat) -> nat
    decreases n,
{
    if n == 0 {
        1
    } else {
        16 * pow16((n - 1) as nat)
    }
}

pub open spec fn is_hex_digit(b: u8) -> bool {
    (0x30 <= b <= 0x39) || (0x41 <= b <= 0x46) || (0x61 <= b <= 0x66)
}

/// Value of one hexadecimal digit, upper or lower case.
pub open spec fn hex_digit_value(b: u8) -> nat {
    if b <= 0x39 {
        (b - 0x30) as nat
    } else if b <= 0x46 {
        (b - 0x41 + 10) as nat
    } else {
        (b - 0x61 + 10) as nat
    }
}

pub open spec fn all_hex(s: Seq<u8>) -> bool {
    forall|i: int| 0 <= i < s.len() ==> #[trigger] is_hex_digit(s[i])
}

/// Big-endian value of a run of hexadecimal digits.
pub open spec fn hex_value(s: Seq<u8>) -> nat
    decreases s.len(),
{
    if s.len() == 0 {
        0
    } else {
        hex_value(s.drop_last()) * 16 + hex_digit_value(s.last())
    }
}

pub open spec fn upper_hex_digit(d: nat) -> u8 {
    if d < 10 {
        (0x30 + d) as u8
    } else {
        (0x41 + d - 10) as u8
    }
}

/// The lowest `width` hexadecimal digits of `v`, most significant first,
/// in upper case.
pub open spec fn upper_hex(v: nat, width: nat) -> Seq<u8>
    decreases width,
{
    if width == 0 {
        Seq::empty()
    } else {
        upper_hex(v / 16, (width - 1) as nat).push(upper_hex_digit(v % 16))
    }
}

/// An integer angle reduced to one revolution.
pub open spec fn wrapped(a: int) -> int {
    a % (REVOLUTION as int)
}

/// What the wire carries for an angle.
pub open spec fn angle_field(a: u32) -> Seq<u8> {
    upper_hex(a as nat, ANGLE_DIGITS as nat)
}

/// What decoding an angle field yields.
pub open spec fn angle_of(bytes: Seq<u8>) -> Result<u32, Fault> {
    if bytes.len() == ANGLE_DIGITS && all_hex(bytes) {
        Ok(hex_value(bytes) as u32)
    } else {
        Err(Fault::MalformedAngle)
    }
}

pub proof fn lemma_pow16_monotonic(i: nat, j: nat)
    requires
        i <= j,
    ensures
        pow16(i) <= pow16(j),
    decreases j,
{
    if i < j {
        lemma_pow16_monotonic(i, (j - 1) as nat);
    }
}

proof fn lemma_pow16_revolution()
    ensures
        pow16(8) == REVOLUTION,
{
    reveal_with_fuel(pow16, 9);
}

/// Encoding to `width` upper-case digits keeps the value modulo `16^width`
/// and yields only hexadecimal digits.
pub proof fn lemma_upper_hex_value(v: nat, width: nat)
    ensures
        upper_hex(v, width).len() == width,
        all_hex(upper_hex(v, width)),
        hex_value(upper_hex(v, width)) == v % pow16(width),
    decreases width,
{
    if width > 0 {
        let w1 = (width - 1) as nat;
        lemma_upper_hex_value(v / 16, w1);
        let s = upper_hex(v, width);
        assert(s.drop_last() =~= upper_hex(v / 16, w1));
        assert(pow16(w1) > 0) by {
            lemma_pow16_monotonic(0, w1);
        }
        lemma_mod_breakdown(v as int, 16, pow16(w1) as int);
        assert forall|i: int| 0 <= i < s.len() implies #[trigger] is_hex_digit(s[i]) by {
            if i < w1 {
                assert(s[i] == upper_hex(v / 16, w1)[i]);
            }
        }
    }
}

/// Decoding the field that an angle encodes to gives the angle back.
pub proof fn lemma_angle_round_trip(a: u32)
    ensures
        angle_of(angle_field(a)) == Ok::<u32, Fault>(a),
{
    lemma_upper_hex_value(a as nat, 8);
    lemma_pow16_revolution();
}

/// Separates the two fields of a coordinate pair (`,`).
pub const PAIR_SEPARATOR: u8 = 0x2C;

/// Length of a coordinate pair on the wire.
pub const PAIR_LEN: usize = 17;

/// What the wire carries for a pair of angles: two fields and a comma.
pub open spec fn angle_pair_field(a: u32, b: u32) -> Seq<u8> {
    angle_field(a) + seq![PAIR_SEPARATOR] + angle_field(b)
}

/// What decoding a coordinate pair yields. The fields are read at offsets 0
/// and 9; the byte between them is not inspected.
pub open spec fn angle_pair_of(msg: Seq<u8>) -> Result<(u32, u32), Fault> {
    if msg.len() < PAIR_LEN {
        Err(Fault::MalformedAngle)
    } else {
        match angle_of(msg.subrange(0, 8)) {
            Err(e) => Err(e),
            Ok(a) => match angle_of(msg.subrange(9, 17)) {
                Err(e) => Err(e),
                Ok(b) => Ok((a, b)),
            },
        }
    }
}

/// Decoding the pair that two angles encode to gives both back.
pub proof fn lemma_angle_pair_round_trip(a: u32, b: u32)
    ensures
        angle_pair_of(angle_pair_field(a, b)) == Ok::<(u32, u32), Fault>((a, b)),
{
    let s = angle_pair_field(a, b);
    lemma_angle_round_trip(a);
    lemma_angle_round_trip(b);
    lemma_upper_hex_value(a as nat, 8);
    lemma_upper_hex_value(b as nat, 8);
    assert(s.subrange(0, 8) =~= angle_field(a));
    assert(s.subrange(9, 17) =~= angle_field(b));
}

/// Reduces an integer angle, of any sign and size, to one revolution.
pub fn angle_from_i64(a: i64) -> (r: u32)
    ensures
        r == wrapped(a as int),
{
    if a >= 0 {
        ((a as u64) % REVOLUTION) as u32
    } else {
        // a == -n - 1, and a + (n / R + 1) * R == R - 1 - n % R lies in [0, R)
        let n: u64 = (-(a + 1)) as u64;
        let k: u64 = n % REVOLUTION;
        proof {
            let q = n as int / REVOLUTION as int;
            vstd::arithmetic::div_mod::lemma_fundamental_div_mod(n as int, REVOLUTION as int);
            vstd::arithmetic::div_mod::lemma_fundamental_div_mod_converse(
                a as int,
                REVOLUTION as int,
                -(q + 1),
                REVOLUTION - 1 - k,
            );
        }
        (0xFFFF_FFFF - k) as u32
    }
}

fn hex_digit(b: u8) -> (r: Option<u8>)
    ensures
        r == (if is_hex_digit(b) { Some(hex_digit_value(b) as u8) } else { None::<u8> }),
{
    if 0x30 <= b && b <= 0x39 {
        Some(b - 0x30)
    } else if 0x41 <= b && b <= 0x46 {
        Some(b - 0x41 + 10)
    } else if 0x61 <= b && b <= 0x66 {
        Some(b - 0x61 + 10)
    } else {
        None
    }
}

/// Parses one angle field: exactly eight hexadecimal digits, either case.
pub fn decode_angle(bytes: &[u8]) -> (r: Result<u32, MountError>)
    ensures
        outcome(r) == angle_of(bytes@),
{
    if bytes.len() != ANGLE_DIGITS {
        return Err(MountError::MalformedAngle);
    }
    let mut acc: u64 = 0;
    let mut i: usize = 0;
    while i < ANGLE_DIGITS
        invariant
            bytes@.len() == ANGLE_DIGITS,
            i <= ANGLE_DIGITS,
            all_hex(bytes@.subrange(0, i as int)),
            acc == hex_value(bytes@.subrange(0, i as int)),
            acc < pow16(i as nat),
        decreases ANGLE_DIGITS - i,
    {
        proof {
            lemma_pow16_monotonic(i as nat, 7);
            reveal_with_fuel(pow16, 8);
        }
        match hex_digit(bytes[i]) {
            None => {
                assert(!all_hex(bytes@));
                return Err(MountError::MalformedAngle);
            },
            Some(d) => {
                let ghost prev = bytes@.subrange(0, i as int);
                acc = acc * 16 + d as u64;
                i = i + 1;
                assert(bytes@.subrange(0, i as int).drop_last() =~= prev);
                assert(all_hex(bytes@.subrange(0, i as int))) by {
                    assert forall|k: int| 0 <= k < i implies #[trigger] is_hex_digit(
                        bytes@.subrange(0, i as int)[k],
                    ) by {
                        if k < i - 1 {
                            assert(bytes@.subrange(0, i as int)[k] == prev[k]);
                        }
                    }
                }
            },
        }
    }
    proof {
        lemma_pow16_revolution();
        assert(bytes@.subrange(0, 8) =~= bytes@);
    }
    Ok(acc as u32)
}

fn push_upper_hex(v: u32, width: usize, out: &mut Vec<u8>)
    ensures
        final(out)@ == old(out)@ + upper_hex(v as nat, width as nat),
    decreases width,
{
    if width > 0 {
        push_upper_hex(v / 16, width - 1, out);
        let d = (v % 16) as u8;
        let c = if d < 10 { 0x30 + d } else { 0x41 + d - 10 };
        out.push(c);
    }
}

/// Writes an angle as its eight upper-case hexadecimal digits.
pub fn encode_angle(a: u32) -> (r: Vec<u8>)
    ensures
        r@ == angle_field(a),
{
    let mut out: Vec<u8> = Vec::new();
    push_upper_hex(a, ANGLE_DIGITS, &mut out);
    assert(out@ =~= angle_field(a));
    out
}

/// Reads the two angle fields of a coordinate pair.
pub fn decode_angle_pair(msg: &[u8]) -> (r: Result<(u32, u32), MountError>)
    ensures
        outcome(r) == angle_pair_of(msg@),
{
    if msg.len() < PAIR_LEN {
        return Err(MountError::MalformedAngle);
    }
    let a = decode_angle(slice_subrange(msg, 0, 8))?;
    let b = decode_angle(slice_subrange(msg, 9, 17))?;
    Ok((a, b))
}

/// Writes two angles as a coordinate pair.
pub fn encode_angle_pair(a: u32, b: u32) -> (r: Vec<u8>)
    ensures
        r@ == angle_pair_field(a, b),
{
    let mut out = encode_angle(a);
    out.push(PAIR_SEPARATOR);
    push_upper_hex(b, ANGLE_DIGITS, &mut out);
    assert(out@ =~= angle_pair_field(a, b));
    out
}

} // verus!
