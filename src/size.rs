//! Human-readable byte sizes.

use vstd::prelude::*;

use crate::text::{decimal, digit_char, digit_text, push_decimal};

verus! {

pub const KIB: u64 = 1024;

pub const MIB: u64 = 1024 * 1024;

pub const GIB: u64 = 1024 * 1024 * 1024;

/// `n / d` rounded to the nearest integer, a tie going to the even neighbour.
pub open spec fn round_half_even(n: nat, d: nat) -> nat
    recommends
        d > 0,
{
    let q = n / d;
    let r = n % d;
    if 2 * r > d || (2 * r == d && q % 2 == 1) {
        q + 1
    } else {
        q
    }
}

/// `bytes / unit` with one decimal place, rounded as fixed-precision float
/// formatting rounds.
pub open spec fn one_decimal(bytes: nat, unit: nat) -> Seq<char> {
    let tenths = round_half_even(10 * bytes, unit);
    decimal(tenths / 10) + seq!['.', digit_char(tenths % 10)]
}

/// The size label of a byte count: whole bytes below one KB, then KB, MB and
/// GB with one decimal place; zero reads `0 MB`.
pub open spec fn size_text(bytes: nat) -> Seq<char> {
    if bytes == 0 {
        seq!['0', ' ', 'M', 'B']
    } else if bytes < KIB {
        decimal(bytes) + seq![' ', 'B']
    } else if bytes < MIB {
        one_decimal(bytes, KIB as nat) + seq![' ', 'K', 'B']
    } else if bytes < GIB {
        one_decimal(bytes, MIB as nat) + seq![' ', 'M', 'B']
    } else {
        one_decimal(bytes, GIB as nat) + seq![' ', 'G', 'B']
    }
}

fn push_one_decimal(s: &mut String, bytes: u64, unit: u64)
    requires
        unit >= KIB,
    ensures
        final(s)@ == old(s)@ + one_decimal(bytes as nat, unit as nat),
{
    let n: u128 = (bytes as u128) * 10;
    let u: u128 = unit as u128;
    let q: u128 = n / u;
    let r: u128 = n % u;
    assert(q <= n / 1024) by (nonlinear_arith)
        requires
            u >= 1024,
            q == n / u,
            n >= 0,
    ;
    assert(n / 1024 < 0x10000_0000_0000_0000u128) by (nonlinear_arith)
        requires
            n <= 10 * 0xffff_ffff_ffff_ffffu128,
    ;
    let tenths: u128 = if 2 * r > u || (2 * r == u && q % 2 == 1) {
        q + 1
    } else {
        q
    };
    push_decimal(s, (tenths / 10) as u64);
    proof {
        reveal_strlit(".");
    }
    s.append(".");
    s.append(digit_text((tenths % 10) as u64));
    assert(final(s)@ =~= old(s)@ + one_decimal(bytes as nat, unit as nat));
}

/// Renders a byte count with a unit chosen by its magnitude.
pub fn format_bytes(bytes: u64) -> (r: String)
    ensures
        r@ == size_text(bytes as nat),
{
    let mut s = String::new();
    proof {
        reveal_strlit("0 MB");
        reveal_strlit(" B");
        reveal_strlit(" KB");
        reveal_strlit(" MB");
        reveal_strlit(" GB");
    }
    if bytes == 0 {
        s.append("0 MB");
    } else if bytes < KIB {
        push_decimal(&mut s, bytes);
        s.append(" B");
    } else if bytes < MIB {
        push_one_decimal(&mut s, bytes, KIB);
        s.append(" KB");
    } else if bytes < GIB {
        push_one_decimal(&mut s, bytes, MIB);
        s.append(" MB");
    } else {
        push_one_decimal(&mut s, bytes, GIB);
        s.append(" GB");
    }
    assert(s@ =~= size_text(bytes as nat));
    s
}

} // verus!
