use vstd::prelude::*;
use crate::cas::error::{CoreError, CoreResult};
use crate::text::{decimal_seq, u64_to_decimal};
use vstd::string::StringSliceAdditionalSpecFns;

verus! {

broadcast use vstd::string::group_string_axioms;

/// Lowercase hexadecimal digit for `n` in `0..16`.
pub open spec fn hex_digit(n: int) -> char {
    if n < 10 {
        ((48 + n) as u32) as char
    } else {
        ((87 + n) as u32) as char
    }
}

/// Lowercase hex rendering: two digits per byte, high nibble first.
pub open spec fn hex_encode_seq(b: Seq<u8>) -> Seq<char> {
    Seq::new(
        (2 * b.len()) as nat,
        |i: int|
            if i % 2 == 0 {
                hex_digit((b[i / 2] / 16) as int)
            } else {
                hex_digit((b[i / 2] % 16) as int)
            },
    )
}

pub open spec fn is_hex_byte(c: u8) -> bool {
    (48 <= c && c <= 57) || (97 <= c && c <= 102) || (65 <= c && c <= 70)
}

pub open spec fn hex_value(c: u8) -> int {
    if 48 <= c && c <= 57 {
        c - 48
    } else if 97 <= c && c <= 102 {
        c - 87
    } else {
        c - 55
    }
}

/// Hex decoding of a byte string: `None` for an odd length or any byte that is not a hex
/// digit (either case), otherwise one byte per pair of digits.
pub open spec fn hex_decode_seq(b: Seq<u8>) -> Option<Seq<u8>> {
    if b.len() % 2 == 0 && forall|i: int| 0 <= i < b.len() ==> is_hex_byte(#[trigger] b[i]) {
        Some(
            Seq::new(
                b.len() / 2,
                |i: int| (hex_value(b[2 * i]) * 16 + hex_value(b[2 * i + 1])) as u8,
            ),
        )
    } else {
        None
    }
}

/// Why a byte string is not valid hex.
#[derive(Debug, Clone, Copy, PartialEq, Eq)]
pub enum HexError {
    InvalidHexCharacter { c: char, index: usize },
    OddLength,
    InvalidStringLength,
}

/// The first position of a byte that is not a hex digit.
pub open spec fn first_invalid_hex(b: Seq<u8>) -> int {
    choose|i: int|
        0 <= i < b.len() && !is_hex_byte(b[i]) && forall|j: int|
            0 <= j < i ==> is_hex_byte(#[trigger] b[j])
}

/// The error hex decoding reports for an input it rejects: the length is checked first,
/// then the digits from left to right.
pub open spec fn hex_decode_error(b: Seq<u8>) -> HexError {
    if b.len() % 2 != 0 {
        HexError::OddLength
    } else {
        let i = first_invalid_hex(b);
        HexError::InvalidHexCharacter { c: (b[i] as u32) as char, index: i as usize }
    }
}

/// Trusted: `hex::encode` renders every byte as two lowercase hex digits, high nibble first
/// (hex 0.4 `BytesToHexChars` with the `HEX_CHARS_LOWER` table).
#[verifier::external_body]
fn hex_encode(data: &[u8]) -> (r: String)
    ensures
        r@ == hex_encode_seq(data@),
{
    hex::encode(data)
}

/// Trusted: `hex::decode` on the UTF-8 bytes of `s`. hex 0.4 rejects an odd length first,
/// then stops at the first byte outside `0-9a-fA-F`; otherwise each pair of digits gives one
/// byte. The error is carried over variant by variant.
#[verifier::external_body]
fn hex_decode(s: &str) -> (r: Result<Vec<u8>, HexError>)
    ensures
        match r {
            Ok(v) => hex_decode_seq(s.spec_bytes()) == Some(v@),
            Err(e) => hex_decode_seq(s.spec_bytes()) is None && e == hex_decode_error(
                s.spec_bytes(),
            ),
        },
{
    hex::decode(s).map_err(|e| match e {
        hex::FromHexError::InvalidHexCharacter { c, index } => HexError::InvalidHexCharacter {
            c,
            index,
        },
        hex::FromHexError::OddLength => HexError::OddLength,
        hex::FromHexError::InvalidStringLength => HexError::InvalidStringLength,
    })
}

/// What `<char as Debug>::fmt` writes for `c` (quoted, with escapes).
pub uninterp spec fn char_debug_text(c: char) -> Seq<char>;

/// Trusted: std's `Debug` rendering of a `char`, which depends on the character alone.
#[verifier::external_body]
fn char_debug(c: char) -> (r: String)
    ensures
        r@ == char_debug_text(c),
{
    format!("{c:?}")
}

/// The message of a hex error, as `hex::FromHexError`'s `Display` writes it.
pub open spec fn hex_error_text(e: HexError) -> Seq<char> {
    match e {
        HexError::InvalidHexCharacter { c, index } => "Invalid character "@ + char_debug_text(c)
            + " at position "@ + decimal_seq(index as nat),
        HexError::OddLength => "Odd number of digits"@,
        HexError::InvalidStringLength => "Invalid string length"@,
    }
}

pub fn hex_error_message(e: &HexError) -> (r: String)
    ensures
        r@ == hex_error_text(*e),
{
    match e {
        HexError::InvalidHexCharacter { c, index } => {
            let mut r = String::from_str("Invalid character ");
            let q = char_debug(*c);
            r.push_str(q.as_str());
            r.push_str(" at position ");
            let d = u64_to_decimal(*index as u64);
            r.push_str(d.as_str());
            r
        },
        HexError::OddLength => String::from_str("Odd number of digits"),
        HexError::InvalidStringLength => String::from_str("Invalid string length"),
    }
}

/// BLAKE3 digest of `data` (32 bytes).
pub uninterp spec fn blake3_digest(data: Seq<u8>) -> Seq<u8>;

/// Trusted: `blake3::hash` returns the 32-byte BLAKE3 digest, a function of the input bytes
/// alone.
#[verifier::external_body]
fn blake3_hash(data: &[u8]) -> (r: [u8; 32])
    ensures
        r@ == blake3_digest(data@),
{
    *blake3::hash(data).as_bytes()
}

/// A 32-byte content id (BLAKE3 of the content).
#[derive(Debug, Clone, Copy, PartialEq, Eq, Hash)]
pub struct ContentId([u8; 32]);

impl View for ContentId {
    type V = Seq<u8>;

    closed spec fn view(&self) -> Seq<u8> {
        self.0@
    }
}

/// Two content ids with the same bytes are the same id.
pub proof fn lemma_content_id_view_injective(a: ContentId, b: ContentId)
    requires
        a@ == b@,
    ensures
        a == b,
{
    assert(a.0 =~= b.0);
}

/// A content id always holds 32 bytes.
pub proof fn lemma_content_id_len(id: ContentId)
    ensures
        id@.len() == 32,
{
}

/// The message of the error `ContentId::from_hex` gives for `s` when it is rejected.
pub open spec fn content_id_parse_error_text(b: Seq<u8>) -> Seq<char> {
    match hex_decode_seq(b) {
        None => "invalid content id hex: "@ + hex_error_text(hex_decode_error(b)),
        Some(v) => "content id must be 32 bytes, got "@ + decimal_seq(v.len()),
    }
}

impl ContentId {
    pub fn from_bytes(bytes: [u8; 32]) -> (r: Self)
        ensures
            r@ == bytes@,
    {
        ContentId(bytes)
    }

    /// Parse 64 hex digits (either case).
    pub fn from_hex(hex_str: &str) -> (r: CoreResult<Self>)
        ensures
            match r {
                Ok(id) => hex_decode_seq(hex_str.spec_bytes()) == Some(id@),
                Err(e) => e == CoreError::InvalidArgument(e->InvalidArgument_0) && e->InvalidArgument_0@
                    == content_id_parse_error_text(hex_str.spec_bytes()),
            },
            r is Ok <==> (hex_decode_seq(hex_str.spec_bytes()) is Some && hex_decode_seq(
                hex_str.spec_bytes(),
            ).unwrap().len() == 32),
    {
        let decoded = match hex_decode(hex_str) {
            Ok(v) => v,
            Err(e) => {
                let msg = String::from_str("invalid content id hex: ").concat(
                    hex_error_message(&e).as_str(),
                );
                return Err(CoreError::InvalidArgument(msg));
            },
        };
        if decoded.len() != 32 {
            let msg = String::from_str("content id must be 32 bytes, got ").concat(
                u64_to_decimal(decoded.len() as u64).as_str(),
            );
            return Err(CoreError::InvalidArgument(msg));
        }
        let mut bytes = [0u8; 32];
        let mut i: usize = 0;
        while i < 32
            invariant
                decoded@.len() == 32,
                i <= 32,
                forall|j: int| 0 <= j < i ==> bytes@[j] == decoded@[j],
            decreases 32 - i,
        {
            bytes[i] = decoded[i];
            i += 1;
        }
        assert(bytes@ =~= decoded@);
        Ok(ContentId(bytes))
    }

    pub fn as_bytes(&self) -> (r: &[u8; 32])
        ensures
            r@ == self@,
    {
        &self.0
    }

    /// Lowercase hex rendering (64 digits).
    pub fn to_hex(&self) -> (r: String)
        ensures
            r@ == hex_encode_seq(self@),
    {
        hex_encode(self.0.as_slice())
    }
}

/// The id of some content: its BLAKE3 digest.
pub fn hash_bytes(data: &[u8]) -> (r: ContentId)
    ensures
        r@ == blake3_digest(data@),
{
    ContentId::from_bytes(blake3_hash(data))
}

/// Hex rendering is ASCII.
pub proof fn lemma_hex_encode_ascii(b: Seq<u8>)
    ensures
        vstd::utf8::is_ascii_chars(hex_encode_seq(b)),
{
    assert forall|i: int| 0 <= i < hex_encode_seq(b).len() implies '\0' <= #[trigger] hex_encode_seq(
        b,
    )[i] <= '\u{7f}' by {
        let v = if i % 2 == 0 {
            b[i / 2] / 16
        } else {
            b[i / 2] % 16
        };
        assert(0 <= v < 16);
    }
}

/// Decoding the UTF-8 bytes of the hex rendering of some bytes gives those bytes back.
pub proof fn lemma_hex_round_trip_text(b: Seq<u8>)
    ensures
        hex_decode_seq(vstd::utf8::encode_utf8(hex_encode_seq(b))) == Some(b),
{
    let h = hex_encode_seq(b);
    lemma_hex_encode_ascii(b);
    vstd::utf8::is_ascii_chars_encode_utf8(h);
    let bytes = vstd::utf8::encode_utf8(h);
    assert(bytes.len() == 2 * b.len());
    assert forall|i: int| 0 <= i < bytes.len() implies is_hex_byte(#[trigger] bytes[i]) && hex_value(
        bytes[i],
    ) == (if i % 2 == 0 {
        b[i / 2] / 16
    } else {
        b[i / 2] % 16
    }) by {
        assert(h[i] as u8 == bytes[i]);
    }
    let d = hex_decode_seq(bytes).unwrap();
    assert forall|k: int| 0 <= k < b.len() implies d[k] == b[k] by {
        assert((2 * k) % 2 == 0);
        assert((2 * k + 1) % 2 == 1);
        assert((2 * k) / 2 == k);
        assert((2 * k + 1) / 2 == k);
        assert(hex_value(bytes[2 * k]) == b[k] / 16);
        assert(hex_value(bytes[2 * k + 1]) == b[k] % 16);
    }
    assert(d =~= b);
}

/// Decoding the hex rendering of some bytes gives those bytes back.
pub proof fn lemma_hex_round_trip(b: Seq<u8>, s: &str)
    requires
        s@ == hex_encode_seq(b),
    ensures
        hex_decode_seq(s.spec_bytes()) == Some(b),
{
    lemma_hex_round_trip_text(b);
}

/// Two byte strings with the same hex rendering are equal.
pub proof fn lemma_hex_encode_injective(a: Seq<u8>, b: Seq<u8>)
    requires
        hex_encode_seq(a) == hex_encode_seq(b),
    ensures
        a == b,
{
    lemma_hex_round_trip_text(a);
    lemma_hex_round_trip_text(b);
}

/// Parsing the hex rendering of a content id gives that id back.
pub proof fn lemma_content_id_hex_round_trip(id: ContentId, s: &str)
    requires
        s@ == hex_encode_seq(id@),
    ensures
        hex_decode_seq(s.spec_bytes()) == Some(id@),
        id@.len() == 32,
{
    lemma_hex_round_trip(id@, s);
}

} // verus!
