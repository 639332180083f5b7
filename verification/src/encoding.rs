//! Text encodings that the block hash is built from: the decimal digits of a
//! number and the lowercase hexadecimal form of a byte string.

use vstd::prelude::*;

verus! {

/// The ASCII decimal digits of `n`, most significant first, without leading
/// zeros; `0` is the single digit `0`.
pub open spec fn decimal_digits(n: nat) -> Seq<u8>
    decreases n,
{
    if n < 10 {
        seq![(48 + n) as u8]
    } else {
        decimal_digits(n / 10).push((48 + n % 10) as u8)
    }
}

/// The sixteen lowercase hexadecimal digits, in order of value.
pub open spec fn hex_alphabet() -> Seq<char> {
    seq!['0', '1', '2', '3', '4', '5', '6', '7', '8', '9', 'a', 'b', 'c', 'd', 'e', 'f']
}

/// The hexadecimal digit at position `i` of the encoding of `bytes`: the high
/// half of byte `i / 2` at even positions, its low half at odd ones.
pub open spec fn hex_digit_at(bytes: Seq<u8>, i: int) -> char {
    if i % 2 == 0 {
        hex_alphabet()[bytes[i / 2] as int / 16]
    } else {
        hex_alphabet()[bytes[i / 2] as int % 16]
    }
}

/// The lowercase hexadecimal encoding of `bytes`: two digits for each byte.
pub open spec fn hex_lower(bytes: Seq<u8>) -> Seq<char> {
    Seq::new(2 * bytes.len(), |i: int| hex_digit_at(bytes, i))
}

/// The number that the ASCII decimal digits `digits` write.
pub open spec fn digits_value(digits: Seq<u8>) -> nat
    decreases digits.len(),
{
    if digits.len() == 0 {
        0
    } else {
        digits_value(digits.drop_last()) * 10 + (digits.last() - 48) as nat
    }
}

/// The decimal digits of a number write that number.
pub proof fn lemma_decimal_digits_write_the_number(n: nat)
    ensures
        digits_value(decimal_digits(n)) == n,
    decreases n,
{
    if n < 10 {
        assert(decimal_digits(n).drop_last() =~= Seq::<u8>::empty());
        assert(digits_value(Seq::<u8>::empty()) == 0);
    } else {
        lemma_decimal_digits_write_the_number(n / 10);
        assert(decimal_digits(n).drop_last() =~= decimal_digits(n / 10));
    }
}

/// Two numbers with the same decimal digits are the same number.
pub proof fn lemma_decimal_digits_tell_numbers_apart(m: nat, n: nat)
    requires
        decimal_digits(m) == decimal_digits(n),
    ensures
        m == n,
{
    lemma_decimal_digits_write_the_number(m);
    lemma_decimal_digits_write_the_number(n);
}

/// Two byte strings with the same hexadecimal encoding are the same string.
pub proof fn lemma_hex_lower_tells_bytes_apart(a: Seq<u8>, b: Seq<u8>)
    requires
        hex_lower(a) == hex_lower(b),
    ensures
        a == b,
{
    assert(hex_lower(a).len() == 2 * a.len());
    assert(hex_lower(b).len() == 2 * b.len());
    assert forall|k: int| 0 <= k < a.len() implies a[k] == b[k] by {
        assert(hex_lower(a)[2 * k] == hex_digit_at(a, 2 * k));
        assert(hex_lower(b)[2 * k] == hex_digit_at(b, 2 * k));
        assert(hex_lower(a)[2 * k + 1] == hex_digit_at(a, 2 * k + 1));
        assert(hex_lower(b)[2 * k + 1] == hex_digit_at(b, 2 * k + 1));
        let (x, y) = (a[k] as int, b[k] as int);
        assert(hex_alphabet()[x / 16] == hex_alphabet()[y / 16]);
        assert(hex_alphabet()[x % 16] == hex_alphabet()[y % 16]);
        assert(x / 16 == y / 16);
        assert(x % 16 == y % 16);
    }
    assert(a =~= b);
}

/// Writes `n` in decimal.
pub fn to_decimal(n: u128) -> (digits: Vec<u8>)
    ensures
        digits@ == decimal_digits(n as nat),
{
    let mut low_first: Vec<u8> = Vec::new();
    let mut rest: u128 = n;
    while rest >= 10
        invariant
            decimal_digits(n as nat) =~= decimal_digits(rest as nat) + low_first@.reverse(),
        decreases rest,
    {
        let digit: u8 = 48 + (rest % 10) as u8;
        low_first.push(digit);
        rest = rest / 10;
    }
    low_first.push(48 + rest as u8);
    let mut digits: Vec<u8> = Vec::new();
    let mut left: usize = low_first.len();
    while left > 0
        invariant
            left <= low_first.len(),
            digits@ =~= low_first@.reverse().take(low_first.len() - left),
        decreases left,
    {
        left = left - 1;
        digits.push(low_first[left]);
    }
    digits
}

/// The one-character string of the hexadecimal digit of value `nibble`.
fn hex_digit(nibble: u8) -> (digit: &'static str)
    requires
        nibble < 16,
    ensures
        digit@ == seq![hex_alphabet()[nibble as int]],
{
    let alphabet: &'static str = "0123456789abcdef";
    proof {
        reveal_strlit("0123456789abcdef");
        assert(alphabet@ =~= hex_alphabet());
    }
    alphabet.substring_char(nibble as usize, nibble as usize + 1)
}

/// Encodes `bytes` in lowercase hexadecimal.
pub fn to_hex(bytes: &[u8]) -> (text: String)
    ensures
        text@ == hex_lower(bytes@),
{
    let mut text: String = String::new();
    let mut i: usize = 0;
    while i < bytes.len()
        invariant
            i <= bytes.len(),
            text@ =~= hex_lower(bytes@.take(i as int)),
        decreases bytes.len() - i,
    {
        let byte: u8 = bytes[i];
        text.append(hex_digit(byte / 16));
        text.append(hex_digit(byte % 16));
        i = i + 1;
    }
    text
}

} // verus!
