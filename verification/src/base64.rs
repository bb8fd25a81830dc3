//! Base64 with the standard alphabet and `=` padding, as HTTP Basic
//! credentials use it.

use vstd::prelude::*;

verus! {

/// The sixty-four characters of the standard alphabet, in the order of the
/// six-bit values they stand for.
pub open spec fn alphabet() -> Seq<char> {
    "ABCDEFGHIJKLMNOPQRSTUVWXYZabcdefghijklmnopqrstuvwxyz0123456789+/"@
}

/// The character that stands for the six-bit value `v`.
pub open spec fn symbol(v: int) -> char
    recommends
        0 <= v < 64,
{
    alphabet()[v]
}

/// The four characters that encode a group of three bytes.
pub open spec fn quad(b0: int, b1: int, b2: int) -> Seq<char> {
    seq![
        symbol(b0 / 4),
        symbol((b0 % 4) * 16 + b1 / 16),
        symbol((b1 % 16) * 4 + b2 / 64),
        symbol(b2 % 64),
    ]
}

/// The encoding of a byte string: every three bytes become four characters;
/// a final group of one or two bytes is filled up with zero bits, and the
/// characters that hold none of its bits are replaced by `=`.
pub open spec fn encoding(bytes: Seq<u8>) -> Seq<char>
    decreases bytes.len(),
{
    if bytes.len() == 0 {
        Seq::empty()
    } else if bytes.len() == 1 {
        quad(bytes[0] as int, 0, 0).take(2) + seq!['=', '=']
    } else if bytes.len() == 2 {
        quad(bytes[0] as int, bytes[1] as int, 0).take(3) + seq!['=']
    } else {
        quad(bytes[0] as int, bytes[1] as int, bytes[2] as int) + encoding(bytes.skip(3))
    }
}

/// The character that stands for a six-bit value.
fn sextet(v: u8) -> (c: char)
    requires
        v < 64,
    ensures
        c == symbol(v as int),
{
    proof {
        reveal_strlit("ABCDEFGHIJKLMNOPQRSTUVWXYZabcdefghijklmnopqrstuvwxyz0123456789+/");
    }
    if v < 26 {
        (v + 65) as char
    } else if v < 52 {
        (v + 71) as char
    } else if v < 62 {
        (v - 4) as char
    } else if v == 62 {
        '+'
    } else {
        '/'
    }
}

/// Encodes `bytes` in Base64.
pub fn encode(bytes: &[u8]) -> (out: String)
    ensures
        out@ == encoding(bytes@),
{
    let n = bytes.len();
    let mut out = String::new();
    let mut i: usize = 0;
    proof {
        assert(bytes@.skip(0) == bytes@);
    }
    while n - i >= 3
        invariant
            n == bytes@.len(),
            i <= n,
            out@ + encoding(bytes@.skip(i as int)) == encoding(bytes@),
        decreases n - i,
    {
        let b0 = bytes[i];
        let b1 = bytes[i + 1];
        let b2 = bytes[i + 2];
        proof {
            let rest = bytes@.skip(i as int);
            assert(rest.skip(3) == bytes@.skip(i + 3));
            assert(encoding(rest) == quad(b0 as int, b1 as int, b2 as int) + encoding(
                rest.skip(3),
            ));
        }
        out.push(sextet(b0 / 4));
        out.push(sextet((b0 % 4) * 16 + b1 / 16));
        out.push(sextet((b1 % 16) * 4 + b2 / 64));
        out.push(sextet(b2 % 64));
        i += 3;
    }
    proof {
        assert(bytes@.skip(i as int).len() == n - i);
    }
    if n - i == 1 {
        let b0 = bytes[i];
        out.push(sextet(b0 / 4));
        out.push(sextet((b0 % 4) * 16));
        out.push('=');
        out.push('=');
    } else if n - i == 2 {
        let b0 = bytes[i];
        let b1 = bytes[i + 1];
        out.push(sextet(b0 / 4));
        out.push(sextet((b0 % 4) * 16 + b1 / 16));
        out.push(sextet((b1 % 16) * 4));
        out.push('=');
    }
    out
}

} // verus!
