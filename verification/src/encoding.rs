//! Textual encodings used by the hashed payload, by the digest and by the
//! messages: decimal numerals and lowercase hexadecimal, both in ASCII.

use vstd::prelude::*;

verus! {

/// The ASCII code of `'0'`.
pub const ASCII_ZERO: u8 = 48;

/// The ASCII code of `'a'`.
pub const ASCII_LOWER_A: u8 = 97;

/// The ASCII code of the decimal digit of value `d`.
pub open spec fn decimal_digit(d: nat) -> u8
    recommends
        d < 10,
{
    (ASCII_ZERO + d) as u8
}

/// The significant decimal digits of `n`, most significant first; none for
/// zero.
pub open spec fn significant_digits(n: nat) -> Seq<u8>
    decreases n,
{
    if n == 0 {
        Seq::empty()
    } else {
        significant_digits(n / 10).push(decimal_digit(n % 10))
    }
}

/// The decimal numeral of `n` in ASCII, without sign, padding or separators.
pub open spec fn decimal(n: nat) -> Seq<u8> {
    if n == 0 {
        seq![ASCII_ZERO]
    } else {
        significant_digits(n)
    }
}

/// The number that a sequence of decimal digits stands for.
pub open spec fn decimal_value(digits: Seq<u8>) -> nat
    decreases digits.len(),
{
    if digits.len() == 0 {
        0
    } else {
        (10 * decimal_value(digits.drop_last()) + (digits.last() - ASCII_ZERO)) as nat
    }
}

/// The text whose characters have the given codes, one character per code.
pub open spec fn ascii_text(codes: Seq<u8>) -> Seq<char> {
    Seq::new(codes.len(), |i: int| codes[i] as char)
}

/// The lowercase hexadecimal digit of value `v`.
pub open spec fn hex_digit(v: nat) -> char
    recommends
        v < 16,
{
    if v < 10 {
        (ASCII_ZERO + v) as u8 as char
    } else {
        (ASCII_LOWER_A + v - 10) as u8 as char
    }
}

/// The value of the `k`-th hexadecimal digit of `bytes`: the high half of
/// byte `k / 2` where `k` is even, its low half where `k` is odd.
pub open spec fn nibble(bytes: Seq<u8>, k: int) -> nat
    recommends
        0 <= k < 2 * bytes.len(),
{
    if k % 2 == 0 {
        (bytes[k / 2] / 16) as nat
    } else {
        (bytes[k / 2] % 16) as nat
    }
}

/// Lowercase hexadecimal of `bytes`: two digits per byte, high half first,
/// no separators.
pub open spec fn hex(bytes: Seq<u8>) -> Seq<char> {
    Seq::new(2 * bytes.len(), |k: int| hex_digit(nibble(bytes, k)))
}

/// Reading the significant digits of a number gives the number back.
pub proof fn lemma_significant_digits_value(n: nat)
    ensures
        decimal_value(significant_digits(n)) == n,
    decreases n,
{
    if n > 0 {
        lemma_significant_digits_value(n / 10);
        assert(significant_digits(n).drop_last() =~= significant_digits(n / 10));
    }
}

/// Reading the numeral of a number gives the number back.
pub proof fn lemma_decimal_value(n: nat)
    ensures
        decimal_value(decimal(n)) == n,
{
    if n == 0 {
        reveal_with_fuel(decimal_value, 2);
        assert(decimal(0).drop_last() =~= Seq::<u8>::empty());
    } else {
        lemma_significant_digits_value(n);
    }
}

/// Different numbers have different numerals.
pub proof fn lemma_decimal_injective(a: nat, b: nat)
    requires
        decimal(a) == decimal(b),
    ensures
        a == b,
{
    lemma_decimal_value(a);
    lemma_decimal_value(b);
}

/// Whether `n` has at most `k` significant decimal digits.
spec fn within_digits(n: nat, k: nat) -> bool
    decreases k,
{
    if k == 0 {
        n == 0
    } else {
        within_digits(n / 10, (k - 1) as nat)
    }
}

proof fn lemma_significant_digits_len(n: nat, k: nat)
    requires
        within_digits(n, k),
    ensures
        significant_digits(n).len() <= k,
    decreases k,
{
    if k > 0 && n > 0 {
        lemma_significant_digits_len(n / 10, (k - 1) as nat);
    }
}

/// The numeral of a 64-bit number has between one and twenty digits.
pub proof fn lemma_decimal_len(n: u64)
    ensures
        1 <= decimal(n as nat).len() <= 20,
{
    assert(within_digits(n as nat, 20)) by {
        reveal_with_fuel(within_digits, 21);
    }
    lemma_significant_digits_len(n as nat, 20);
}

/// Different bytes have different hexadecimal digits: equal texts come from
/// equal byte sequences.
pub proof fn lemma_hex_injective(a: Seq<u8>, b: Seq<u8>)
    requires
        hex(a) == hex(b),
    ensures
        a == b,
{
    assert(a.len() == b.len()) by {
        assert(hex(a).len() == 2 * a.len());
        assert(hex(b).len() == 2 * b.len());
    }
    assert forall|i: int| 0 <= i < a.len() implies a[i] == b[i] by {
        let high = 2 * i;
        let low = 2 * i + 1;
        assert(hex(a)[high] == hex_digit(nibble(a, high)));
        assert(hex(b)[high] == hex_digit(nibble(b, high)));
        assert(hex(a)[low] == hex_digit(nibble(a, low)));
        assert(hex(b)[low] == hex_digit(nibble(b, low)));
        assert(a[i] / 16 == b[i] / 16);
        assert(a[i] % 16 == b[i] % 16);
    }
    assert(a =~= b);
}

/// `String::push` appends one character to the end of the string.
pub assume_specification[ String::push ](s: &mut String, c: char)
    ensures
        final(s)@ == old(s)@.push(c),
;

/// Appends the decimal numeral of `n` to `out`.
pub fn push_decimal(out: &mut Vec<u8>, n: u128)
    ensures
        final(out)@ == old(out)@ + decimal(n as nat),
{
    if n == 0 {
        out.push(ASCII_ZERO);
        assert(out@ =~= old(out)@ + decimal(0));
        return;
    }
    // The digits come out least significant first.
    let mut reversed: Vec<u8> = Vec::new();
    let mut rest: u128 = n;
    while rest > 0
        invariant
            significant_digits(n as nat) == significant_digits(rest as nat) + reversed@.reverse(),
        decreases rest,
    {
        let digit: u8 = ASCII_ZERO + (rest % 10) as u8;
        proof {
            let written = reversed@.reverse();
            let grown = reversed@.push(digit);
            assert(grown.reverse() =~= seq![digit] + written);
            assert(significant_digits(rest as nat) + written =~= significant_digits(
                (rest / 10) as nat,
            ) + grown.reverse());
        }
        reversed.push(digit);
        rest = rest / 10;
    }
    let ghost digits = reversed@.reverse();
    assert(significant_digits(n as nat) =~= digits);
    let mut k: usize = reversed.len();
    while k > 0
        invariant
            k <= reversed.len(),
            digits == reversed@.reverse(),
            out@ == old(out)@ + digits.take(reversed.len() - k),
        decreases k,
    {
        k = k - 1;
        out.push(reversed[k]);
        assert(out@ =~= old(out)@ + digits.take(reversed.len() - k));
    }
    assert(digits.take(reversed.len() as int) =~= digits);
}

/// Appends to `text` the characters whose codes are `codes`, one per code.
pub fn push_ascii(text: &mut String, codes: &[u8])
    ensures
        final(text)@ == old(text)@ + ascii_text(codes@),
{
    let mut i: usize = 0;
    while i < codes.len()
        invariant
            i <= codes@.len(),
            text@ == old(text)@ + ascii_text(codes@).take(i as int),
        decreases codes@.len() - i,
    {
        text.push(codes[i] as char);
        i = i + 1;
        assert(text@ =~= old(text)@ + ascii_text(codes@).take(i as int));
    }
    assert(ascii_text(codes@).take(i as int) =~= ascii_text(codes@));
}

/// Appends the decimal numeral of `n` to `text`.
pub fn push_decimal_text(text: &mut String, n: u128)
    ensures
        final(text)@ == old(text)@ + ascii_text(decimal(n as nat)),
{
    let mut numeral: Vec<u8> = Vec::new();
    push_decimal(&mut numeral, n);
    assert(numeral@ =~= decimal(n as nat));
    push_ascii(text, numeral.as_slice());
}

/// The lowercase hexadecimal digit of value `v`.
pub fn hex_digit_of(v: u8) -> (c: char)
    requires
        v < 16,
    ensures
        c == hex_digit(v as nat),
{
    if v < 10 {
        (ASCII_ZERO + v) as char
    } else {
        (ASCII_LOWER_A + (v - 10)) as char
    }
}

/// The `k`-th hexadecimal digit of `bytes`.
pub fn hex_digit_at(bytes: &[u8], k: usize) -> (c: char)
    requires
        k < 2 * bytes@.len(),
    ensures
        c == hex(bytes@)[k as int],
{
    let byte: u8 = bytes[k / 2];
    if k % 2 == 0 {
        hex_digit_of(byte / 16)
    } else {
        hex_digit_of(byte % 16)
    }
}

/// Renders `bytes` as lowercase hexadecimal.
pub fn hex_encode(bytes: &[u8]) -> (text: String)
    ensures
        text@ == hex(bytes@),
{
    let mut text = String::new();
    let mut i: usize = 0;
    while i < bytes.len()
        invariant
            i <= bytes@.len(),
            text@ == hex(bytes@).take(2 * i),
        decreases bytes@.len() - i,
    {
        let byte: u8 = bytes[i];
        text.push(hex_digit_of(byte / 16));
        text.push(hex_digit_of(byte % 16));
        i = i + 1;
        assert(text@ =~= hex(bytes@).take(2 * i));
    }
    assert(hex(bytes@).take(2 * i) =~= hex(bytes@));
    text
}

} // verus!
