//! Bus frames and their text form, `<hex id>#<hex payload>`.
//!
//! The id is written as one to eight hexadecimal digits and the payload as
//! two digits for each byte. Digits are read in either case and written in
//! lower case.

use crate::base16::{
    all_hex_digits, ascii_bytes, bytes_of_hex, hex_decode, hex_encode, hex_numeral, hex_of_bytes,
    hex_value, is_hex_digit, is_hex_text, lemma_hex_numeral, lemma_hex_numeral_len,
    lemma_hex_text, lemma_pow16_eight, parse_hex_numeral, push_hex_numeral,
};
use vstd::prelude::*;
use vstd::utf8::{encode_scalar, encode_utf8, is_ascii_chars};

verus! {

/// The byte that parts the id from the payload, `#`.
pub const SEPARATOR: u8 = 0x23;

/// The most digits an id may have.
pub const MAX_ID_DIGITS: usize = 8;

/// One message unit of the bus: a numeric id and a short byte payload.
#[derive(Debug, PartialEq, Eq)]
pub struct BusFrame {
    pub id: u32,
    pub payload: Vec<u8>,
}

impl Clone for BusFrame {
    fn clone(&self) -> (copy: Self)
        ensures
            copy@ == self@,
    {
        let payload = self.payload.clone();
        BusFrame { id: self.id, payload }
    }
}

/// What a [`BusFrame`] holds.
pub struct FrameView {
    pub id: u32,
    pub payload: Seq<u8>,
}

impl View for BusFrame {
    type V = FrameView;

    open spec fn view(&self) -> FrameView {
        FrameView { id: self.id, payload: self.payload@ }
    }
}

/// Why a text is not the text of a frame.
#[derive(Clone, Copy, Debug, PartialEq, Eq, Structural)]
pub enum FormatError {
    /// The text holds no `#`.
    MissingSeparator,
    /// What stands before the first `#` is not one to eight hexadecimal digits.
    InvalidId,
    /// What follows the first `#` has an odd number of bytes.
    OddPayloadLength,
    /// What follows the first `#` holds a byte that is no hexadecimal digit.
    InvalidPayload,
}

/// Whether `text` holds a `#`.
pub open spec fn has_separator(text: Seq<u8>) -> bool {
    exists|i: int| 0 <= i < text.len() && text[i] == SEPARATOR
}

/// Whether `i` is the place of the first `#` of `text`.
pub open spec fn is_first_separator(text: Seq<u8>, i: int) -> bool {
    &&& 0 <= i < text.len()
    &&& text[i] == SEPARATOR
    &&& forall|j: int| 0 <= j < i ==> text[j] != SEPARATOR
}

/// The place of the first `#` of a text that has one.
pub open spec fn separator_index(text: Seq<u8>) -> int {
    choose|i: int| is_first_separator(text, i)
}

/// What stands before the first `#`.
pub open spec fn id_part(text: Seq<u8>) -> Seq<u8> {
    text.subrange(0, separator_index(text))
}

/// What follows the first `#`.
pub open spec fn payload_part(text: Seq<u8>) -> Seq<u8> {
    text.subrange(separator_index(text) + 1, text.len() as int)
}

/// Whether `digits` can stand for an id: one to eight hexadecimal digits.
pub open spec fn is_id_text(digits: Seq<u8>) -> bool {
    1 <= digits.len() <= MAX_ID_DIGITS && all_hex_digits(digits)
}

/// The frame that the bytes `text` stand for, or the reason why they stand
/// for none. The reasons are looked for in the order of [`FormatError`].
pub open spec fn parse_bytes(text: Seq<u8>) -> Result<FrameView, FormatError> {
    if !has_separator(text) {
        Err(FormatError::MissingSeparator)
    } else if !is_id_text(id_part(text)) {
        Err(FormatError::InvalidId)
    } else if payload_part(text).len() % 2 != 0 {
        Err(FormatError::OddPayloadLength)
    } else if !all_hex_digits(payload_part(text)) {
        Err(FormatError::InvalidPayload)
    } else {
        Ok(
            FrameView {
                id: hex_value(id_part(text)) as u32,
                payload: bytes_of_hex(payload_part(text)),
            },
        )
    }
}

/// The frame that `text` stands for: that of its UTF-8 bytes.
pub open spec fn parse_text(text: Seq<char>) -> Result<FrameView, FormatError> {
    parse_bytes(encode_utf8(text))
}

/// The text of a frame: the id without leading zeros, `#`, the payload.
pub open spec fn frame_text(frame: FrameView) -> Seq<char> {
    hex_numeral(frame.id as nat) + seq!['#'] + hex_of_bytes(frame.payload)
}

/// A text has at most one first `#`.
pub proof fn lemma_first_separator(text: Seq<u8>, i: int)
    requires
        is_first_separator(text, i),
    ensures
        has_separator(text),
        separator_index(text) == i,
{
}

/// Before a `#` at `at` there is a first `#`.
proof fn lemma_first_separator_before(text: Seq<u8>, at: int) -> (first: int)
    requires
        0 <= at < text.len(),
        text[at] == SEPARATOR,
    ensures
        is_first_separator(text, first),
    decreases at,
{
    if exists|j: int| 0 <= j < at && text[j] == SEPARATOR {
        let j = choose|j: int| 0 <= j < at && text[j] == SEPARATOR;
        lemma_first_separator_before(text, j)
    } else {
        at
    }
}

/// In a text that holds a `#`, the place of the first one is well defined.
pub proof fn lemma_separator_index(text: Seq<u8>)
    requires
        has_separator(text),
    ensures
        is_first_separator(text, separator_index(text)),
{
    let at = choose|i: int| 0 <= i < text.len() && text[i] == SEPARATOR;
    let first = lemma_first_separator_before(text, at);
    lemma_first_separator(text, first);
}

/// Reads the text of a frame.
pub fn parse_frame(text: &str) -> (parsed: Result<BusFrame, FormatError>)
    ensures
        match parsed {
            Ok(frame) => parse_text(text@) == Ok::<FrameView, FormatError>(frame@),
            Err(reason) => parse_text(text@) == Err::<FrameView, FormatError>(reason),
        },
{
    let bytes = text.as_bytes();
    let len: usize = bytes.len();
    let mut at: usize = 0;
    while at < len && bytes[at] != SEPARATOR
        invariant
            len == bytes@.len(),
            at <= len,
            forall|j: int| 0 <= j < at ==> bytes@[j] != SEPARATOR,
        decreases len - at,
    {
        at = at + 1;
    }
    if at == len {
        return Err(FormatError::MissingSeparator);
    }
    proof {
        lemma_first_separator(bytes@, at as int);
    }
    let id = match parse_hex_numeral(vstd::slice::slice_subrange(bytes, 0, at)) {
        Some(id) => id,
        None => {
            return Err(FormatError::InvalidId);
        },
    };
    let digits = vstd::slice::slice_subrange(bytes, at + 1, len);
    match hex_decode(digits) {
        Ok(payload) => Ok(BusFrame { id, payload }),
        Err(_) => {
            if digits.len() % 2 != 0 {
                Err(FormatError::OddPayloadLength)
            } else {
                Err(FormatError::InvalidPayload)
            }
        },
    }
}

/// The text of a frame is ASCII; read as bytes, it has its first `#` right
/// after the id.
pub proof fn lemma_frame_text(frame: FrameView)
    ensures
        is_ascii_chars(frame_text(frame)),
        encode_utf8(frame_text(frame)) == ascii_bytes(frame_text(frame)),
        is_first_separator(
            ascii_bytes(frame_text(frame)),
            hex_numeral(frame.id as nat).len() as int,
        ),
{
    let id = hex_numeral(frame.id as nat);
    let payload = hex_of_bytes(frame.payload);
    let text = frame_text(frame);
    let bytes = ascii_bytes(text);
    lemma_hex_numeral(frame.id as nat);
    lemma_hex_text(frame.payload);
    assert(is_ascii_chars(text));
    vstd::utf8::is_ascii_chars_encode_utf8(text);
    assert forall|j: int| 0 <= j < id.len() implies bytes[j] != SEPARATOR by {
        assert(is_hex_digit(ascii_bytes(id)[j]));
    }
}

/// Writing a frame and reading the text back gives the frame: for every id
/// and every payload, whatever its length.
pub proof fn lemma_parse_format_round_trip(frame: FrameView)
    ensures
        parse_text(frame_text(frame)) == Ok::<FrameView, FormatError>(frame),
{
    let id = hex_numeral(frame.id as nat);
    let payload = hex_of_bytes(frame.payload);
    let bytes = ascii_bytes(frame_text(frame));
    lemma_frame_text(frame);
    lemma_first_separator(bytes, id.len() as int);
    lemma_hex_numeral(frame.id as nat);
    lemma_pow16_eight(8);
    lemma_hex_numeral_len(frame.id as nat, 8);
    lemma_hex_text(frame.payload);
    assert(id_part(bytes) =~= ascii_bytes(id));
    assert(parse_bytes(bytes)->Ok_0.payload =~= frame.payload);
}

/// Writes the text of a frame. The text reads back as the frame.
pub fn format_frame(frame: &BusFrame) -> (text: String)
    ensures
        text@ == frame_text(frame@),
        parse_text(text@) == Ok::<FrameView, FormatError>(frame@),
{
    let mut text = String::new();
    push_hex_numeral(&mut text, frame.id);
    text.append("#");
    proof {
        reveal_strlit("#");
    }
    let payload = hex_encode(frame.payload.as_slice());
    text.append(payload.as_str());
    proof {
        assert(text@ =~= frame_text(frame@));
        lemma_parse_format_round_trip(frame@);
    }
    text
}

/// A character of ASCII is one byte in UTF-8; any other character begins
/// with a byte of 0x80 or more.
proof fn lemma_first_byte(c: char)
    ensures
        '\0' <= c,
        c <= '\u{7f}' ==> encode_scalar(c as u32).len() == 1,
        c > '\u{7f}' ==> encode_scalar(c as u32).len() >= 2 && encode_scalar(c as u32)[0] >= 0x80,
{
    vstd::utf8::char_is_scalar(c);
    assert(forall|x: u8| #![auto] (0xC0u8 | x) >= 0x80) by (bit_vector);
    assert(forall|x: u8| #![auto] (0xE0u8 | x) >= 0x80) by (bit_vector);
    assert(forall|x: u8| #![auto] (0xF0u8 | x) >= 0x80) by (bit_vector);
}

/// A text with a character outside ASCII has, in UTF-8, a byte of 0x80 or
/// more.
proof fn lemma_high_byte(text: Seq<char>) -> (j: int)
    requires
        !is_ascii_chars(text),
    ensures
        0 <= j < encode_utf8(text).len(),
        encode_utf8(text)[j] >= 0x80,
    decreases text.len(),
{
    let rest = text.drop_first();
    lemma_first_byte(text[0]);
    if text[0] > '\u{7f}' {
        0
    } else {
        assert(!is_ascii_chars(rest)) by {
            if is_ascii_chars(rest) {
                assert forall|i: int| 0 <= i < text.len() implies '\0' <= #[trigger] text[i]
                    <= '\u{7f}' by {
                    if i > 0 {
                        assert(text[i] == rest[i - 1]);
                    }
                }
            }
        }
        let k = lemma_high_byte(rest);
        k + 1
    }
}

/// Bytes with one of 0x80 or more among them stand for no frame.
proof fn lemma_high_byte_rejected(text: Seq<u8>, j: int)
    requires
        0 <= j < text.len(),
        text[j] >= 0x80,
    ensures
        parse_bytes(text) is Err,
{
    if has_separator(text) {
        let at = separator_index(text);
        lemma_separator_index(text);
        if j < at {
            assert(!is_hex_digit(id_part(text)[j]));
        } else {
            assert(!is_hex_digit(payload_part(text)[j - at - 1]));
        }
    }
}

/// Only a text of ASCII characters stands for a frame, and such a text is
/// read character by character.
pub proof fn lemma_parse_text(text: Seq<char>)
    ensures
        is_ascii_chars(text) ==> parse_text(text) == parse_bytes(ascii_bytes(text)),
        !is_ascii_chars(text) ==> parse_text(text) is Err,
{
    if is_ascii_chars(text) {
        vstd::utf8::is_ascii_chars_encode_utf8(text);
        assert(encode_utf8(text) =~= ascii_bytes(text));
    } else {
        let j = lemma_high_byte(text);
        lemma_high_byte_rejected(encode_utf8(text), j);
    }
}

/// Which texts stand for no frame, and why. A text without `#` does not;
/// the empty text is one of these. Nor does a text whose id part is empty,
/// longer than eight digits or holds a byte that is no hexadecimal digit,
/// nor one whose payload part has an odd length or holds such a byte.
pub proof fn lemma_parse_rejects(text: Seq<u8>)
    ensures
        text.len() == 0 ==> !has_separator(text),
        parse_bytes(text) == Err::<FrameView, FormatError>(FormatError::MissingSeparator)
            <==> !has_separator(text),
        parse_bytes(text) == Err::<FrameView, FormatError>(FormatError::InvalidId)
            <==> has_separator(text) && !is_id_text(id_part(text)),
        parse_bytes(text) == Err::<FrameView, FormatError>(FormatError::OddPayloadLength)
            <==> has_separator(text) && is_id_text(id_part(text)) && payload_part(text).len() % 2
            != 0,
        parse_bytes(text) == Err::<FrameView, FormatError>(FormatError::InvalidPayload)
            <==> has_separator(text) && is_id_text(id_part(text)) && payload_part(text).len() % 2
            == 0 && !all_hex_digits(payload_part(text)),
        parse_bytes(text) is Ok <==> has_separator(text) && is_id_text(id_part(text))
            && is_hex_text(payload_part(text)),
        parse_text(Seq::<char>::empty()) == Err::<FrameView, FormatError>(
            FormatError::MissingSeparator,
        ),
{
}

} // verus!
