//! The mathematical model of the two encodings, and the facts that hold of it.
//!
//! An encoding is a map from `Seq<u8>` to `Seq<char>`: every byte is turned into a short
//! piece of text on its own, and the pieces are joined in input order.

use vstd::prelude::*;

verus! {

/// Lowercase hexadecimal digits, indexed by value.
pub const TO_LOWER_HEX: [char; 16] = [
    '0', '1', '2', '3', '4', '5', '6', '7', '8', '9', 'a', 'b', 'c', 'd', 'e', 'f',
];

/// Uppercase hexadecimal digits, indexed by value.
pub const TO_UPPER_HEX: [char; 16] = [
    '0', '1', '2', '3', '4', '5', '6', '7', '8', '9', 'A', 'B', 'C', 'D', 'E', 'F',
];

/// The two digits of `byte` taken from `alphabet`: high nibble first, then low nibble.
pub open spec fn hex_pair(alphabet: Seq<char>, byte: u8) -> Seq<char> {
    seq![alphabet[byte as int / 16], alphabet[byte as int % 16]]
}

/// The hexadecimal text of `bytes`: two lowercase digits for each byte, in input order.
pub open spec fn hex_encoding(bytes: Seq<u8>) -> Seq<char> {
    bytes.flat_map(|byte: u8| hex_pair(TO_LOWER_HEX@, byte))
}

/// `c` is one of `0`-`9`, `a`-`f`.
pub open spec fn is_lower_hex_digit(c: char) -> bool {
    ||| '0' <= c <= '9'
    ||| 'a' <= c <= 'f'
}

/// `c` is one of `0`-`9`, `A`-`F`.
pub open spec fn is_upper_hex_digit(c: char) -> bool {
    ||| '0' <= c <= '9'
    ||| 'A' <= c <= 'F'
}

/// `c` is an ASCII letter, an ASCII digit, `-`, `_` or `.`.
pub open spec fn is_unreserved_char(c: char) -> bool {
    ||| '0' <= c <= '9'
    ||| 'a' <= c <= 'z'
    ||| 'A' <= c <= 'Z'
    ||| c == '-'
    ||| c == '_'
    ||| c == '.'
}

/// `byte` is the ASCII code of an unreserved character: it is passed through unescaped.
pub open spec fn is_unreserved(byte: u8) -> bool {
    is_unreserved_char(byte as char)
}

/// The URL-encoded form of one byte: itself if unreserved, `+` for a space, and otherwise
/// `%` followed by its two uppercase hexadecimal digits.
pub open spec fn url_encoded_byte(byte: u8) -> Seq<char> {
    if is_unreserved(byte) {
        seq![byte as char]
    } else if byte == 0x20 {
        seq!['+']
    } else {
        seq!['%'] + hex_pair(TO_UPPER_HEX@, byte)
    }
}

/// The URL-encoded text of `bytes`: the encoded forms of its bytes, in input order.
pub open spec fn url_encoding(bytes: Seq<u8>) -> Seq<char> {
    bytes.flat_map(|byte: u8| url_encoded_byte(byte))
}

/// `c` may occur in URL-encoded text: an unreserved character, `+`, or `%`.
pub open spec fn is_url_encoded_char(c: char) -> bool {
    ||| is_unreserved_char(c)
    ||| c == '+'
    ||| c == '%'
}

/// Every entry of the lowercase table is a lowercase hexadecimal digit.
pub proof fn lemma_lower_hex_table(nibble: int)
    requires
        0 <= nibble < 16,
    ensures
        is_lower_hex_digit(TO_LOWER_HEX@[nibble]),
{
}

/// Every entry of the uppercase table is an uppercase hexadecimal digit.
pub proof fn lemma_upper_hex_table(nibble: int)
    requires
        0 <= nibble < 16,
    ensures
        is_upper_hex_digit(TO_UPPER_HEX@[nibble]),
{
}

/// Appending a byte to the input appends its two digits to the hexadecimal text.
pub proof fn lemma_hex_encoding_push(bytes: Seq<u8>, byte: u8)
    ensures
        hex_encoding(bytes.push(byte)) == hex_encoding(bytes) + hex_pair(TO_LOWER_HEX@, byte),
{
    bytes.lemma_flat_map_push(|byte: u8| hex_pair(TO_LOWER_HEX@, byte), byte);
}

/// Appending a byte to the input appends its encoded form to the URL-encoded text.
pub proof fn lemma_url_encoding_push(bytes: Seq<u8>, byte: u8)
    ensures
        url_encoding(bytes.push(byte)) == url_encoding(bytes) + url_encoded_byte(byte),
{
    bytes.lemma_flat_map_push(|byte: u8| url_encoded_byte(byte), byte);
}

/// Hexadecimal text is twice as long as its input and holds lowercase hexadecimal digits only.
pub proof fn lemma_hex_encoding_shape(bytes: Seq<u8>)
    ensures
        hex_encoding(bytes).len() == 2 * bytes.len(),
        forall|i: int|
            0 <= i < hex_encoding(bytes).len() ==> is_lower_hex_digit(
                #[trigger] hex_encoding(bytes)[i],
            ),
    decreases bytes.len(),
{
    if bytes.len() > 0 {
        let front = bytes.drop_last();
        let byte = bytes.last();
        assert(bytes =~= front.push(byte));
        lemma_hex_encoding_shape(front);
        lemma_hex_encoding_push(front, byte);
        lemma_lower_hex_table(byte as int / 16);
        lemma_lower_hex_table(byte as int % 16);
    }
}

/// URL-encoded text has one to three characters for each input byte, and each of them is an
/// unreserved character, `+` or `%`.
pub proof fn lemma_url_encoding_shape(bytes: Seq<u8>)
    ensures
        bytes.len() <= url_encoding(bytes).len() <= 3 * bytes.len(),
        forall|i: int|
            0 <= i < url_encoding(bytes).len() ==> is_url_encoded_char(
                #[trigger] url_encoding(bytes)[i],
            ),
    decreases bytes.len(),
{
    if bytes.len() > 0 {
        let front = bytes.drop_last();
        let byte = bytes.last();
        assert(bytes =~= front.push(byte));
        lemma_url_encoding_shape(front);
        lemma_url_encoding_push(front, byte);
        lemma_upper_hex_table(byte as int / 16);
        lemma_upper_hex_table(byte as int % 16);
    }
}

/// A single unreserved byte is encoded as the one character with that ASCII code.
pub proof fn lemma_url_encoding_unreserved(byte: u8)
    requires
        is_unreserved(byte),
    ensures
        url_encoding(seq![byte]) == seq![byte as char],
{
    seq![byte].lemma_flat_map_singleton(|byte: u8| url_encoded_byte(byte));
}

} // verus!
