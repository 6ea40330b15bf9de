//! Uppercase hexadecimal rendering of unsigned integers.

use vstd::prelude::*;

verus! {

/// The digit for a value below sixteen: `0`-`9`, then `A`-`F`.
pub open spec fn hex_digit(d: nat) -> char {
    "0123456789ABCDEF"@[d as int]
}

/// Whether `c` is one of the sixteen uppercase hexadecimal digits.
pub open spec fn is_upper_hex_digit(c: char) -> bool {
    ('0' <= c && c <= '9') || ('A' <= c && c <= 'F')
}

/// The value of an uppercase hexadecimal digit.
pub open spec fn hex_digit_value(c: char) -> nat {
    if '0' <= c && c <= '9' {
        (c as nat - '0' as nat) as nat
    } else {
        (c as nat - 'A' as nat + 10) as nat
    }
}

/// The uppercase hexadecimal digits of `n`, most significant first, with no
/// leading zeros (zero itself is the single digit `0`).
pub open spec fn hex_upper(n: nat) -> Seq<char>
    decreases n,
{
    if n < 16 {
        seq![hex_digit(n)]
    } else {
        hex_upper(n / 16).push(hex_digit(n % 16))
    }
}

/// The number that a string of hexadecimal digits denotes.
pub open spec fn hex_value(s: Seq<char>) -> nat
    decreases s.len(),
{
    if s.len() == 0 {
        0
    } else {
        hex_value(s.drop_last()) * 16 + hex_digit_value(s.last())
    }
}

/// Sixteen to the power `k`.
pub open spec fn pow16(k: nat) -> nat
    decreases k,
{
    if k == 0 {
        1
    } else {
        16 * pow16((k - 1) as nat)
    }
}

/// Each digit is an uppercase hexadecimal digit and reads back as its value.
pub proof fn lemma_hex_digit(d: nat)
    requires
        d < 16,
    ensures
        is_upper_hex_digit(hex_digit(d)),
        hex_digit_value(hex_digit(d)) == d,
{
    reveal_strlit("0123456789ABCDEF");
}

/// Every rendering is non-empty and made of uppercase hexadecimal digits that
/// read back as the number rendered.
pub proof fn lemma_hex_upper(n: nat)
    ensures
        hex_upper(n).len() >= 1,
        forall|i: int| 0 <= i < hex_upper(n).len() ==> is_upper_hex_digit(#[trigger] hex_upper(n)[i]),
        hex_value(hex_upper(n)) == n,
    decreases n,
{
    lemma_hex_digit(n % 16);
    if n < 16 {
        assert(hex_upper(n).drop_last() =~= Seq::<char>::empty());
        assert(hex_value(hex_upper(n)) == hex_value(Seq::<char>::empty()) * 16 + n % 16);
    } else {
        lemma_hex_upper(n / 16);
        assert(hex_upper(n).drop_last() =~= hex_upper(n / 16));
        assert(hex_value(hex_upper(n)) == (n / 16) * 16 + n % 16);
    }
}

/// A number below `16^k` takes at most `k` digits.
pub proof fn lemma_hex_upper_len(n: nat, k: nat)
    requires
        k >= 1,
        n < pow16(k),
    ensures
        hex_upper(n).len() <= k,
    decreases k,
{
    if n >= 16 {
        assert(k >= 2) by {
            if k == 1 {
                assert(pow16(1) == 16 * pow16(0));
            }
        }
        assert(n / 16 < pow16((k - 1) as nat));
        lemma_hex_upper_len(n / 16, (k - 1) as nat);
    }
}

/// Appends the uppercase hexadecimal digits of `n` to `out`.
pub fn append_hex(out: &mut String, n: u32)
    ensures
        final(out)@ == old(out)@ + hex_upper(n as nat),
    decreases n,
{
    if n >= 16 {
        append_hex(out, n / 16);
    }
    let digits = "0123456789ABCDEF";
    proof {
        reveal_strlit("0123456789ABCDEF");
    }
    let d: usize = (n % 16) as usize;
    out.append(digits.substring_char(d, d + 1));
    proof {
        assert(digits@.subrange(d as int, d + 1) =~= seq![hex_digit(d as nat)]);
        if n >= 16 {
            assert(old(out)@ + hex_upper(n as nat) =~= old(out)@ + hex_upper((n / 16) as nat) + seq![hex_digit(d as nat)]);
        } else {
            assert(old(out)@ + hex_upper(n as nat) =~= old(out)@ + seq![hex_digit(d as nat)]);
        }
    }
}

} // verus!
