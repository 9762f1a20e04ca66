//! Firmware versions as text.

use vstd::prelude::*;

verus! {

/// The decimal digits of `n` in ASCII, most significant first.
pub open spec fn decimal(n: nat) -> Seq<u8>
    decreases n,
{
    if n < 10 {
        seq![(0x30 + n) as u8]
    } else {
        decimal(n / 10).push((0x30 + n % 10) as u8)
    }
}

/// `major.minor`, both in decimal, as ASCII bytes.
pub open spec fn version_bytes(major: u8, minor: u8) -> Seq<u8> {
    decimal(major as nat) + seq![0x2Eu8] + decimal(minor as nat)
}

/// The characters of ASCII bytes.
pub open spec fn ascii_chars(bytes: Seq<u8>) -> Seq<char> {
    bytes.map_values(|b: u8| b as char)
}

pub open spec fn is_ascii_bytes(bytes: Seq<u8>) -> bool {
    forall|i: int| 0 <= i < bytes.len() ==> #[trigger] bytes[i] < 128
}

proof fn lemma_decimal_ascii(n: nat)
    ensures
        is_ascii_bytes(decimal(n)),
    decreases n,
{
    if n >= 10 {
        lemma_decimal_ascii(n / 10);
        let s = decimal(n);
        assert forall|i: int| 0 <= i < s.len() implies #[trigger] s[i] < 128 by {
            if i < s.len() - 1 {
                assert(s[i] == decimal(n / 10)[i]);
            }
        }
    }
}

/// Relies on `String::from_utf8`: ASCII bytes are valid UTF-8, one character
/// per byte.
#[verifier::external_body]
fn ascii_string(bytes: Vec<u8>) -> (r: String)
    requires
        is_ascii_bytes(bytes@),
    ensures
        r@ == ascii_chars(bytes@),
{
    match String::from_utf8(bytes) {
        Ok(s) => s,
        Err(_) => String::new(),
    }
}

fn push_decimal(n: u8, out: &mut Vec<u8>)
    ensures
        final(out)@ == old(out)@ + decimal(n as nat),
    decreases n,
{
    if n >= 10 {
        push_decimal(n / 10, out);
    }
    out.push(0x30 + n % 10);
}

/// Writes a firmware version as `major.minor`.
pub fn version_text(major: u8, minor: u8) -> (r: String)
    ensures
        r@ == ascii_chars(version_bytes(major, minor)),
{
    let mut out: Vec<u8> = Vec::new();
    push_decimal(major, &mut out);
    out.push(0x2E);
    push_decimal(minor, &mut out);
    proof {
        assert(out@ =~= version_bytes(major, minor));
        lemma_decimal_ascii(major as nat);
        lemma_decimal_ascii(minor as nat);
        let a = decimal(major as nat);
        let b = decimal(minor as nat);
        assert forall|i: int| 0 <= i < out@.len() implies #[trigger] out@[i] < 128 by {
            if i < a.len() {
                assert(out@[i] == a[i]);
            } else if i > a.len() {
                assert(out@[i] == b[i - a.len() - 1]);
            }
        }
    }
    ascii_string(out)
}

} // verus!
