//! Unpadded base32 (RFC 4648): which strings are well formed, and the
//! decoder that turns them into bytes.

use vstd::prelude::*;
use vstd::utf8::*;

verus! {

/// Whether a byte is one of the 32 symbols `A`-`Z`, `2`-`7`.
pub open spec fn is_symbol(byte: u8) -> bool {
    (0x41 <= byte <= 0x5a) || (0x32 <= byte <= 0x37)
}

/// The five-bit value of a symbol: `A`-`Z` are 0-25, `2`-`7` are 26-31.
pub open spec fn symbol_value(byte: u8) -> int {
    if byte >= 0x41 {
        byte - 0x41
    } else {
        byte - 0x32 + 26
    }
}

/// The number of bits that `symbols` symbols hold beyond the last whole byte.
pub open spec fn spare_bits(symbols: nat) -> nat {
    (5 * symbols) % 8
}

/// The lowest `bits` bits of a symbol's value, for up to four bits.
pub open spec fn low_bits(value: int, bits: nat) -> int {
    if bits == 0 {
        0
    } else if bits == 1 {
        value % 2
    } else if bits == 2 {
        value % 4
    } else if bits == 3 {
        value % 8
    } else {
        value % 16
    }
}

/// Whether a byte string is canonical unpadded base32: every byte is a
/// symbol, the spare bits are fewer than one symbol, and they are all zero.
pub open spec fn well_formed(encoded: Seq<u8>) -> bool {
    &&& forall|i: int| 0 <= i < encoded.len() ==> is_symbol(#[trigger] encoded[i])
    &&& spare_bits(encoded.len()) < 5
    &&& encoded.len() > 0 ==> low_bits(symbol_value(encoded.last()), spare_bits(encoded.len()))
        == 0
}

/// The bytes that a well-formed base32 string stands for.
pub uninterp spec fn base32_nopad_decoded(encoded: Seq<u8>) -> Seq<u8>;

#[verifier::external_type_specification]
#[verifier::external_body]
pub struct ExDecodeError(data_encoding::DecodeError);

/// `data_encoding::BASE32_NOPAD.decode`. The decoder accepts exactly the
/// well-formed strings: it reports a bad length where the spare bits would
/// hold a whole symbol, a bad symbol for any byte outside the alphabet, and
/// non-zero trailing bits otherwise. What it returns for a well-formed
/// string is named, not spelled out; its length is the number of whole bytes
/// in five bits per symbol. An input of more than `usize::MAX / 8` bytes makes
/// the decoder panic and is left out.
#[verifier::external_body]
pub(crate) fn decode_base32(encoded: &[u8]) -> (res: Result<Vec<u8>, data_encoding::DecodeError>)
    requires
        encoded@.len() <= usize::MAX / 8,
    ensures
        res is Ok <==> well_formed(encoded@),
        res matches Ok(bytes) ==> bytes@ == base32_nopad_decoded(encoded@) && bytes@.len() == 5
            * encoded@.len() / 8,
{
    data_encoding::BASE32_NOPAD.decode(encoded)
}

/// Whether a character is one of the 32 symbols `A`-`Z`, `2`-`7`.
pub open spec fn is_base32_char(c: char) -> bool {
    ('A' <= c <= 'Z') || ('2' <= c <= '7')
}

/// Whether a string is canonical unpadded base32, said of its characters.
pub open spec fn is_base32_text(text: Seq<char>) -> bool {
    &&& forall|i: int| 0 <= i < text.len() ==> is_base32_char(#[trigger] text[i])
    &&& spare_bits(text.len()) < 5
    &&& text.len() > 0 ==> low_bits(symbol_value(text.last() as u8), spare_bits(text.len())) == 0
}

proof fn lemma_ascii_byte(scalar: u32)
    by (bit_vector)
    requires
        scalar <= 0x7f,
    ensures
        (scalar & 0x7f) as u8 == scalar,
{
}

proof fn lemma_leading_bytes(scalar: u32)
    by (bit_vector)
    ensures
        0xC0u8 | ((scalar >> 6) & 0x1F) as u8 >= 0xC0,
        0xE0u8 | ((scalar >> 12) & 0x0F) as u8 >= 0xC0,
        0xF0u8 | ((scalar >> 18) & 0x7) as u8 >= 0xC0,
{
}

/// The first byte of a character's UTF-8 encoding is a symbol only if the
/// character is one.
proof fn lemma_first_byte(c: char)
    ensures
        encode_scalar(c as u32).len() >= 1,
        is_symbol(encode_scalar(c as u32)[0]) <==> is_base32_char(c),
        is_base32_char(c) ==> encode_scalar(c as u32) == seq![c as u8],
{
    let scalar: u32 = c as u32;
    char_is_scalar(c);
    lemma_leading_bytes(scalar);
    if has_width_1_encoding(scalar) {
        lemma_ascii_byte(scalar);
    }
}

/// A character outside the alphabet leaves a byte outside the alphabet in
/// the UTF-8 encoding of the text.
proof fn lemma_foreign_char_leaves_foreign_byte(text: Seq<char>, at: int)
    requires
        0 <= at < text.len(),
        !is_base32_char(text[at]),
    ensures
        exists|k: int| 0 <= k < encode_utf8(text).len() && !is_symbol(#[trigger] encode_utf8(text)[k]),
    decreases at,
{
    let head = encode_scalar(text[0] as u32);
    let tail = encode_utf8(text.drop_first());
    let whole = encode_utf8(text);
    assert(whole == head + tail);
    lemma_first_byte(text[0]);
    if at == 0 {
        assert(!is_symbol(whole[0]));
    } else {
        lemma_foreign_char_leaves_foreign_byte(text.drop_first(), at - 1);
        let k = choose|k: int| 0 <= k < tail.len() && !is_symbol(#[trigger] tail[k]);
        assert(whole[head.len() + k] == tail[k]);
    }
}

/// Text made of alphabet characters is encoded one byte per character.
proof fn lemma_alphabet_text_bytes(text: Seq<char>)
    requires
        forall|i: int| 0 <= i < text.len() ==> is_base32_char(#[trigger] text[i]),
    ensures
        encode_utf8(text).len() == text.len(),
        forall|i: int| 0 <= i < text.len() ==> #[trigger] encode_utf8(text)[i] == text[i] as u8,
{
    assert(is_ascii_chars(text));
    is_ascii_chars_encode_utf8(text);
}

/// A string is canonical base32 by its characters exactly when its UTF-8
/// bytes are well formed; it then has one byte per character.
pub proof fn lemma_text_and_bytes_agree(text: Seq<char>)
    ensures
        is_base32_text(text) <==> well_formed(encode_utf8(text)),
        is_base32_text(text) ==> encode_utf8(text).len() == text.len(),
{
    let bytes = encode_utf8(text);
    if forall|i: int| 0 <= i < text.len() ==> is_base32_char(#[trigger] text[i]) {
        lemma_alphabet_text_bytes(text);
        assert forall|i: int| 0 <= i < bytes.len() implies is_symbol(#[trigger] bytes[i]) by {
            lemma_first_byte(text[i]);
            assert(bytes[i] == text[i] as u8);
        }
        if text.len() > 0 {
            assert(bytes.last() == text.last() as u8);
        }
    } else {
        let at = choose|i: int| 0 <= i < text.len() && !is_base32_char(#[trigger] text[i]);
        lemma_foreign_char_leaves_foreign_byte(text, at);
    }
}

} // verus!
