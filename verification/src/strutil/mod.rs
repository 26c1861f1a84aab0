//! Hexadecimal and form-style URL encoding, as methods on byte slices and on strings.
//!
//! [`BinaryUtil`] encodes a byte sequence; [`StrUtil`] encodes the UTF-8 bytes of a string.
//! What the methods return is stated over the model in [`encoding`].

use vstd::prelude::*;
use vstd::utf8::encode_utf8;

pub mod encoding;

use encoding::{
    hex_encoding, hex_pair, is_lower_hex_digit, is_unreserved, is_url_encoded_char,
    lemma_hex_encoding_shape, lemma_url_encoding_shape, lemma_url_encoding_unreserved,
    url_encoded_byte, url_encoding, TO_LOWER_HEX, TO_UPPER_HEX,
};

verus! {

/// `String::push` appends the given character to the end of the string: the characters that
/// were there stay, in their order, and the new one follows them.
pub assume_specification[ String::push ](text: &mut String, ch: char)
    ensures
        final(text)@ == old(text)@.push(ch),
;

/// Encoders for anything that is viewed as a sequence of bytes.
pub trait BinaryUtil: View<V = Seq<u8>> {
    /// Converts the bytes into hexadecimal representation: two lowercase digits per byte.
    fn bin2hex(&self) -> (hex: String)
        ensures
            hex@ == hex_encoding(self@),
            hex@.len() == 2 * self@.len(),
            forall|i: int| 0 <= i < hex@.len() ==> is_lower_hex_digit(#[trigger] hex@[i]),
    ;

    /// URL-encodes the bytes: unreserved bytes stay, a space becomes `+`, and every other
    /// byte becomes `%` and its two uppercase hexadecimal digits.
    fn urlencode(&self) -> (encoded: String)
        ensures
            encoded@ == url_encoding(self@),
            self@.len() <= encoded@.len() <= 3 * self@.len(),
            forall|i: int| 0 <= i < encoded@.len() ==> is_url_encoded_char(#[trigger] encoded@[i]),
            self@.len() == 1 && is_unreserved(self@[0]) ==> encoded@ == seq![self@[0] as char],
    ;
}

impl BinaryUtil for [u8] {
    fn bin2hex(&self) -> (hex: String) {
        let mut hex = String::new();
        let mut i: usize = 0;
        while i < self.len()
            invariant
                i <= self.len(),
                hex@ == hex_encoding(self@.take(i as int)),
            decreases self.len() - i,
        {
            let byte: u8 = self[i];
            hex.push(TO_LOWER_HEX[(byte / 16) as usize]);
            hex.push(TO_LOWER_HEX[(byte % 16) as usize]);
            proof {
                self@.lemma_flat_map_take_append(
                    |byte: u8| hex_pair(TO_LOWER_HEX@, byte),
                    i as int,
                );
            }
            i += 1;
        }
        proof {
            assert(self@.take(i as int) =~= self@);
            lemma_hex_encoding_shape(self@);
        }
        hex
    }

    fn urlencode(&self) -> (encoded: String) {
        let mut encoded = String::new();
        let mut i: usize = 0;
        while i < self.len()
            invariant
                i <= self.len(),
                encoded@ == url_encoding(self@.take(i as int)),
            decreases self.len() - i,
        {
            let byte: u8 = self[i];
            let c: char = byte as char;
            if ('0' <= c && c <= '9') || ('a' <= c && c <= 'z') || ('A' <= c && c <= 'Z')
                || c == '-' || c == '_' || c == '.' {
                encoded.push(c);
            } else if c == ' ' {
                encoded.push('+');
            } else {
                encoded.push('%');
                encoded.push(TO_UPPER_HEX[(byte / 16) as usize]);
                encoded.push(TO_UPPER_HEX[(byte % 16) as usize]);
            }
            proof {
                assert(encoded@ =~= url_encoding(self@.take(i as int)) + url_encoded_byte(byte));
                self@.lemma_flat_map_take_append(|byte: u8| url_encoded_byte(byte), i as int);
            }
            i += 1;
        }
        proof {
            assert(self@.take(i as int) =~= self@);
            lemma_url_encoding_shape(self@);
            if self@.len() == 1 && is_unreserved(self@[0]) {
                assert(self@ =~= seq![self@[0]]);
                lemma_url_encoding_unreserved(self@[0]);
            }
        }
        encoded
    }
}

/// Encoders for anything that is viewed as text. The text is taken as its UTF-8 bytes, and
/// those are encoded as [`BinaryUtil`] encodes them.
pub trait StrUtil: View<V = Seq<char>> {
    /// Converts the string's UTF-8 bytes into hexadecimal representation.
    fn bin2hex(&self) -> (hex: String)
        ensures
            hex@ == hex_encoding(encode_utf8(self@)),
            hex@.len() == 2 * encode_utf8(self@).len(),
            forall|i: int| 0 <= i < hex@.len() ==> is_lower_hex_digit(#[trigger] hex@[i]),
    ;

    /// URL-encodes the string's UTF-8 bytes.
    fn urlencode(&self) -> (encoded: String)
        ensures
            encoded@ == url_encoding(encode_utf8(self@)),
            encode_utf8(self@).len() <= encoded@.len() <= 3 * encode_utf8(self@).len(),
            forall|i: int| 0 <= i < encoded@.len() ==> is_url_encoded_char(#[trigger] encoded@[i]),
    ;
}

impl StrUtil for str {
    fn bin2hex(&self) -> (hex: String) {
        self.as_bytes().bin2hex()
    }

    fn urlencode(&self) -> (encoded: String) {
        self.as_bytes().urlencode()
    }
}

impl StrUtil for String {
    fn bin2hex(&self) -> (hex: String) {
        self.as_str().bin2hex()
    }

    fn urlencode(&self) -> (encoded: String) {
        self.as_str().urlencode()
    }
}

} // verus!
