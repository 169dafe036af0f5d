//! Hexadecimal digits, numerals and the text form of byte strings.
//!
//! Text that is read is a sequence of bytes, text that is written is a
//! sequence of characters. Everything written here is ASCII, so the two meet
//! in [`ascii_bytes`].

use vstd::prelude::*;

verus! {

/// Whether `b` is an ASCII hexadecimal digit, in either case.
pub open spec fn is_hex_digit(b: u8) -> bool {
    ||| 0x30 <= b <= 0x39
    ||| 0x41 <= b <= 0x46
    ||| 0x61 <= b <= 0x66
}

/// The value, 0 to 15, of the hexadecimal digit `b`; 0 for any other byte.
pub open spec fn hex_digit_value(b: u8) -> nat {
    if 0x30 <= b <= 0x39 {
        (b - 0x30) as nat
    } else if 0x41 <= b <= 0x46 {
        (b - 0x41 + 10) as nat
    } else if 0x61 <= b <= 0x66 {
        (b - 0x61 + 10) as nat
    } else {
        0
    }
}

/// The lower-case hexadecimal digit that stands for `n`, for `n` below 16.
pub open spec fn lower_hex_digit(n: nat) -> char {
    if n < 10 {
        (0x30 + n) as char
    } else {
        (0x57 + n) as char
    }
}

/// Whether every byte of `digits` is a hexadecimal digit.
pub open spec fn all_hex_digits(digits: Seq<u8>) -> bool {
    forall|i: int| 0 <= i < digits.len() ==> is_hex_digit(#[trigger] digits[i])
}

/// Whether `text` is made of pairs of hexadecimal digits.
pub open spec fn is_hex_text(text: Seq<u8>) -> bool {
    text.len() % 2 == 0 && all_hex_digits(text)
}

/// The bytes that the digit pairs of `text` stand for, the first digit of a
/// pair being the high half of its byte.
pub open spec fn bytes_of_hex(text: Seq<u8>) -> Seq<u8> {
    Seq::new(
        text.len() / 2,
        |i: int| (16 * hex_digit_value(text[2 * i]) + hex_digit_value(text[2 * i + 1])) as u8,
    )
}

/// The lower-case text of `data`: two digits for each byte, high half first.
pub open spec fn hex_of_bytes(data: Seq<u8>) -> Seq<char> {
    Seq::new(
        2 * data.len(),
        |i: int|
            if i % 2 == 0 {
                lower_hex_digit((data[i / 2] / 16) as nat)
            } else {
                lower_hex_digit((data[i / 2] % 16) as nat)
            },
    )
}

/// The value of a string of hexadecimal digits, most significant first.
pub open spec fn hex_value(digits: Seq<u8>) -> nat
    decreases digits.len(),
{
    if digits.len() == 0 {
        0
    } else {
        16 * hex_value(digits.drop_last()) + hex_digit_value(digits.last())
    }
}

/// The lower-case hexadecimal numeral of `n`, without leading zeros.
pub open spec fn hex_numeral(n: nat) -> Seq<char>
    decreases n,
{
    if n < 16 {
        seq![lower_hex_digit(n)]
    } else {
        hex_numeral(n / 16).push(lower_hex_digit(n % 16))
    }
}

/// 16 to the power `n`.
pub open spec fn pow16(n: nat) -> nat
    decreases n,
{
    if n == 0 {
        1
    } else {
        16 * pow16((n - 1) as nat)
    }
}

/// The bytes of a text whose characters are all ASCII.
pub open spec fn ascii_bytes(text: Seq<char>) -> Seq<u8> {
    Seq::new(text.len(), |i: int| text[i] as u8)
}

/// The text of one lower-case digit.
fn lower_hex_digit_text(n: u8) -> (text: &'static str)
    requires
        n < 16,
    ensures
        text@ == seq![lower_hex_digit(n as nat)],
{
    let digits = "0123456789abcdef";
    proof {
        reveal_strlit("0123456789abcdef");
    }
    digits.substring_ascii(n as usize, n as usize + 1)
}

/// Appends the lower-case hexadecimal numeral of `n` to `out`.
pub fn push_hex_numeral(out: &mut String, n: u32)
    ensures
        final(out)@ == old(out)@ + hex_numeral(n as nat),
    decreases n,
{
    if n >= 16 {
        push_hex_numeral(out, n / 16);
    }
    out.append(lower_hex_digit_text((n % 16) as u8));
}

/// The value of the hexadecimal digit `b`, if it is one.
pub fn hex_digit(b: u8) -> (value: Option<u8>)
    ensures
        value is Some <==> is_hex_digit(b),
        value matches Some(v) ==> v == hex_digit_value(b) && v < 16,
{
    if 0x30 <= b && b <= 0x39 {
        Some(b - 0x30)
    } else if 0x41 <= b && b <= 0x46 {
        Some(b - 0x41 + 10)
    } else if 0x61 <= b && b <= 0x66 {
        Some(b - 0x61 + 10)
    } else {
        None
    }
}

/// A string of `n` digits has a value below 16 to the power `n`.
pub proof fn lemma_hex_value_bound(digits: Seq<u8>)
    ensures
        hex_value(digits) < pow16(digits.len()),
    decreases digits.len(),
{
    if digits.len() > 0 {
        lemma_hex_value_bound(digits.drop_last());
    }
}

/// 16 to the power 8 is 2 to the power 32, and smaller powers are smaller.
pub proof fn lemma_pow16_eight(n: nat)
    requires
        n <= 8,
    ensures
        pow16(n) <= pow16(8) == 0x1_0000_0000,
{
    reveal_with_fuel(pow16, 10);
}

/// A lower-case digit is ASCII, is a hexadecimal digit, and has the value it
/// was made from.
pub proof fn lemma_lower_hex_digit(n: nat)
    requires
        n < 16,
    ensures
        '\0' <= lower_hex_digit(n) <= '\u{7f}',
        is_hex_digit(lower_hex_digit(n) as u8),
        hex_digit_value(lower_hex_digit(n) as u8) == n,
{
}

/// The numeral of `n` is a non-empty string of hexadecimal digits, and its
/// value is `n`.
pub proof fn lemma_hex_numeral(n: nat)
    ensures
        hex_numeral(n).len() >= 1,
        vstd::utf8::is_ascii_chars(hex_numeral(n)),
        all_hex_digits(ascii_bytes(hex_numeral(n))),
        hex_value(ascii_bytes(hex_numeral(n))) == n,
    decreases n,
{
    let text = hex_numeral(n);
    let bytes = ascii_bytes(text);
    if n < 16 {
        lemma_lower_hex_digit(n);
        assert(hex_value(bytes.drop_last()) == 0);
    } else {
        let head = hex_numeral(n / 16);
        lemma_hex_numeral(n / 16);
        lemma_lower_hex_digit(n % 16);
        assert(bytes.drop_last() =~= ascii_bytes(head));
        assert forall|i: int| 0 <= i < bytes.len() implies is_hex_digit(#[trigger] bytes[i]) by {
            if i < head.len() {
                assert(bytes[i] == ascii_bytes(head)[i]);
            }
        }
    }
}

/// A number below 16 to the power `k` has a numeral of at most `k` digits.
pub proof fn lemma_hex_numeral_len(n: nat, k: nat)
    requires
        k >= 1,
        n < pow16(k),
    ensures
        hex_numeral(n).len() <= k,
    decreases n,
{
    if n >= 16 {
        reveal_with_fuel(pow16, 2);
        lemma_hex_numeral_len(n / 16, (k - 1) as nat);
    }
}

/// The text of a byte string is made of pairs of hexadecimal digits, and
/// these pairs stand for the bytes it was made from.
pub proof fn lemma_hex_text(data: Seq<u8>)
    ensures
        hex_of_bytes(data).len() == 2 * data.len(),
        vstd::utf8::is_ascii_chars(hex_of_bytes(data)),
        is_hex_text(ascii_bytes(hex_of_bytes(data))),
        bytes_of_hex(ascii_bytes(hex_of_bytes(data))) == data,
{
    let text = hex_of_bytes(data);
    let bytes = ascii_bytes(text);
    assert forall|i: int| 0 <= i < text.len() implies '\0' <= #[trigger] text[i] <= '\u{7f}'
        && is_hex_digit(text[i] as u8) by {
        lemma_lower_hex_digit((data[i / 2] / 16) as nat);
        lemma_lower_hex_digit((data[i / 2] % 16) as nat);
    }
    assert forall|k: int| 0 <= k < data.len() implies #[trigger] bytes_of_hex(bytes)[k]
        == data[k] by {
        lemma_lower_hex_digit((data[k] / 16) as nat);
        lemma_lower_hex_digit((data[k] % 16) as nat);
    }
}

/// Reads one to eight hexadecimal digits as a number.
pub fn parse_hex_numeral(digits: &[u8]) -> (value: Option<u32>)
    ensures
        value is Some <==> 1 <= digits@.len() <= 8 && all_hex_digits(digits@),
        value matches Some(v) ==> v == hex_value(digits@),
{
    let len: usize = digits.len();
    if len == 0 || len > 8 {
        return None;
    }
    let mut value: u64 = 0;
    let mut k: usize = 0;
    while k < len
        invariant
            len == digits@.len(),
            k <= len <= 8,
            value == hex_value(digits@.subrange(0, k as int)),
            all_hex_digits(digits@.subrange(0, k as int)),
        decreases len - k,
    {
        let ghost before = digits@.subrange(0, k as int);
        let ghost after = digits@.subrange(0, k as int + 1);
        proof {
            lemma_hex_value_bound(before);
            lemma_pow16_eight(k as nat);
            assert(after.drop_last() =~= before);
        }
        match hex_digit(digits[k]) {
            None => {
                return None;
            },
            Some(d) => {
                value = value * 16 + d as u64;
            },
        }
        k = k + 1;
    }
    proof {
        assert(digits@.subrange(0, len as int) =~= digits@);
        lemma_hex_value_bound(digits@);
        lemma_pow16_eight(len as nat);
    }
    Some(value as u32)
}

/// The outside type of a failed `hex::decode`.
#[verifier::external_type_specification]
#[verifier::external_body]
pub struct ExFromHexError(hex::FromHexError);

/// Calls `hex::encode`, which writes each byte of its argument as two
/// characters taken from the table `0123456789abcdef`: first the one for the
/// high four bits, then the one for the low four bits.
#[verifier::external_body]
pub(crate) fn hex_encode(data: &[u8]) -> (text: String)
    ensures
        text@ == hex_of_bytes(data@),
{
    hex::encode(data)
}

/// Calls `hex::decode`, which refuses an argument of odd length, then reads
/// the bytes two by two and refuses a byte outside `0-9`, `a-f` and `A-F`.
/// Each pair gives one byte of the result, sixteen times the value of the
/// first digit plus the value of the second.
#[verifier::external_body]
pub(crate) fn hex_decode(text: &[u8]) -> (decoded: Result<Vec<u8>, hex::FromHexError>)
    ensures
        decoded is Ok <==> is_hex_text(text@),
        decoded matches Ok(data) ==> data@ == bytes_of_hex(text@),
{
    hex::decode(text)
}

} // verus!
