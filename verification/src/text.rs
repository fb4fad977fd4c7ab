//! Fixed-width hexadecimal and binary rendering of integers as ASCII bytes.

use vstd::prelude::*;
use vstd::slice::slice_to_vec;
use vstd::string::StringSliceAdditionalSpecFns;

verus! {

/// The ASCII byte of a hexadecimal digit, upper or lower case.
pub open spec fn hex_digit(d: int, upper: bool) -> u8 {
    if d < 10 {
        (48 + d) as u8
    } else if upper {
        (55 + d) as u8
    } else {
        (87 + d) as u8
    }
}

/// `v` written with exactly `width` hexadecimal digits, most significant first,
/// zero-padded on the left (as `{:0width$x}` / `{:0width$X}` do for values that fit).
pub open spec fn hex_digits(v: nat, width: nat, upper: bool) -> Seq<u8>
    decreases width,
{
    if width == 0 {
        Seq::empty()
    } else {
        hex_digits(v / 16, (width - 1) as nat, upper).push(hex_digit((v % 16) as int, upper))
    }
}

/// `v` written with exactly `width` binary digits, most significant first (as `{:0width$b}`).
pub open spec fn bin_digits(v: nat, width: nat) -> Seq<u8>
    decreases width,
{
    if width == 0 {
        Seq::empty()
    } else {
        bin_digits(v / 2, (width - 1) as nat).push(if v % 2 == 0 { 48u8 } else { 49u8 })
    }
}


/// 16 to the power `n`.
pub open spec fn pow16(n: nat) -> nat
    decreases n,
{
    if n == 0 {
        1
    } else {
        16 * pow16((n - 1) as nat)
    }
}

/// 2 to the power `n`.
pub open spec fn pow2(n: nat) -> nat
    decreases n,
{
    if n == 0 {
        1
    } else {
        2 * pow2((n - 1) as nat)
    }
}

/// The value of an ASCII hexadecimal digit, either case.
pub open spec fn hex_digit_value(c: u8) -> int {
    if 48 <= c <= 57 {
        c - 48
    } else if 65 <= c <= 70 {
        c - 55
    } else {
        c - 87
    }
}

/// The number that a sequence of hexadecimal digits denotes, most significant first.
pub open spec fn hex_value(s: Seq<u8>) -> int
    decreases s.len(),
{
    if s.len() == 0 {
        0
    } else {
        16 * hex_value(s.drop_last()) + hex_digit_value(s.last())
    }
}

/// The number that a sequence of binary digits denotes, most significant first.
pub open spec fn bin_value(s: Seq<u8>) -> int
    decreases s.len(),
{
    if s.len() == 0 {
        0
    } else {
        2 * bin_value(s.drop_last()) + (s.last() - 48)
    }
}

/// Rendering a number that fits in `width` hexadecimal digits gives exactly
/// `width` digits, each `0`-`9` or a letter of the chosen case, which read back
/// as the number.
pub proof fn law_hex_round_trip(v: nat, width: nat, upper: bool)
    requires
        v < pow16(width),
    ensures
        hex_digits(v, width, upper).len() == width,
        hex_value(hex_digits(v, width, upper)) == v,
        forall|i: int|
            0 <= i < width ==> {
                let c = #[trigger] hex_digits(v, width, upper)[i];
                (48 <= c <= 57) || (upper && 65 <= c <= 70) || (!upper && 97 <= c <= 102)
            },
    decreases width,
{
    if width > 0 {
        let w = (width - 1) as nat;
        assert(v / 16 < pow16(w));
        law_hex_round_trip(v / 16, w, upper);
        let s = hex_digits(v, width, upper);
        assert(s.drop_last() =~= hex_digits(v / 16, w, upper));
    }
}

/// Rendering a number that fits in `width` binary digits gives exactly `width`
/// digits `0` or `1`, which read back as the number.
pub proof fn law_bin_round_trip(v: nat, width: nat)
    requires
        v < pow2(width),
    ensures
        bin_digits(v, width).len() == width,
        bin_value(bin_digits(v, width)) == v,
        forall|i: int| 0 <= i < width ==> #[trigger] bin_digits(v, width)[i] == 48u8 || bin_digits(v, width)[i] == 49u8,
    decreases width,
{
    if width > 0 {
        let w = (width - 1) as nat;
        assert(v / 2 < pow2(w));
        law_bin_round_trip(v / 2, w);
        let s = bin_digits(v, width);
        assert(s.drop_last() =~= bin_digits(v / 2, w));
    }
}

/// The bytes of a string, as a vector.
pub fn ascii(s: &str) -> (out: Vec<u8>)
    ensures
        out@ == s.spec_bytes(),
{
    slice_to_vec(s.as_bytes())
}

/// Hexadecimal digits of `v`, `width` of them.
pub fn hex(v: u32, width: usize, upper: bool) -> (out: Vec<u8>)
    ensures
        out@ == hex_digits(v as nat, width as nat, upper),
    decreases width,
{
    if width == 0 {
        Vec::new()
    } else {
        let mut out = hex(v / 16, width - 1, upper);
        let d = v % 16;
        let c: u8 = if d < 10 {
            48 + d as u8
        } else if upper {
            55 + d as u8
        } else {
            87 + d as u8
        };
        out.push(c);
        out
    }
}

/// Binary digits of `v`, `width` of them.
pub fn bin(v: u32, width: usize) -> (out: Vec<u8>)
    ensures
        out@ == bin_digits(v as nat, width as nat),
    decreases width,
{
    if width == 0 {
        Vec::new()
    } else {
        let mut out = bin(v / 2, width - 1);
        let c: u8 = if v % 2 == 0 { 48 } else { 49 };
        out.push(c);
        out
    }
}

} // verus!
