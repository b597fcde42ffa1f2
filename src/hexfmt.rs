use vstd::prelude::*;

verus! {

/// The lowercase hexadecimal digit for a value below sixteen.
pub open spec fn hex_digit(d: nat) -> char {
    if d < 10 {
        (('0' as nat) + d) as char
    } else {
        (('a' as nat) + (d - 10)) as char
    }
}

/// Lowercase hexadecimal digits of `n`, most significant first, without leading zeros
/// (zero itself is the single digit `0`).
pub open spec fn hex_digits(n: nat) -> Seq<char>
    decreases n,
{
    if n < 16 {
        seq![hex_digit(n)]
    } else {
        hex_digits(n / 16).push(hex_digit(n % 16))
    }
}

/// Decimal digits of `n`, most significant first, without leading zeros.
pub open spec fn dec_digits(n: nat) -> Seq<char>
    decreases n,
{
    if n < 10 {
        seq![(('0' as nat) + n) as char]
    } else {
        dec_digits(n / 10).push((('0' as nat) + n % 10) as char)
    }
}

} // verus!

verus! {

proof fn lemma_hex_digit_lower(d: nat)
    requires
        d < 16,
    ensures
        hex_digit(d) == (if d < 10 { (48 + d) as char } else { (87 + d) as char }),
{
}

/// Appends the hexadecimal digits of `n` to `out`.
pub fn push_hex(out: &mut String, n: u64)
    ensures
        final(out)@ == old(out)@ + hex_digits(n as nat),
    decreases n,
{
    if n >= 16 {
        push_hex(out, n / 16);
    }
    let d: u64 = n % 16;
    let c: char = if d < 10 {
        ((48u64 + d) as u8) as char
    } else {
        ((87u64 + d) as u8) as char
    };
    proof {
        lemma_hex_digit_lower(d as nat);
    }
    crate::text::push_char(out, c);
    proof {
        if n >= 16 {
            assert(hex_digits(n as nat) == hex_digits((n / 16) as nat).push(hex_digit((n % 16) as nat)));
        }
    }
    assert(final(out)@ =~= old(out)@ + hex_digits(n as nat));
}

/// Appends the decimal digits of `n` to `out`.
pub fn push_dec(out: &mut String, n: u64)
    ensures
        final(out)@ == old(out)@ + dec_digits(n as nat),
    decreases n,
{
    if n >= 10 {
        push_dec(out, n / 10);
    }
    let d: u64 = n % 10;
    let c: char = ((48u64 + d) as u8) as char;
    crate::text::push_char(out, c);
    assert(final(out)@ =~= old(out)@ + dec_digits(n as nat));
}

/// The chain id as `0x` followed by lowercase hexadecimal digits.
pub open spec fn hex_id(n: u64) -> Seq<char> {
    seq!['0', 'x'] + hex_digits(n as nat)
}

/// Formats a chain id as `0x` and its lowercase hexadecimal digits.
pub fn format_hex_id(n: u64) -> (r: String)
    ensures
        r@ == hex_id(n),
{
    let mut s = String::new();
    crate::text::push_char(&mut s, '0');
    crate::text::push_char(&mut s, 'x');
    push_hex(&mut s, n);
    assert(s@ =~= hex_id(n));
    s
}

} // verus!
