//! The text form of every message and state: base64 with the URL-safe
//! alphabet and no padding.

use crate::error::{from_base64_error, Error, ErrorKind};
use ::base64::Engine;
use vstd::prelude::*;

verus! {

/// The character that stands for the six-bit value `v` in the URL-safe
/// alphabet: `A` to `Z`, `a` to `z`, `0` to `9`, `-`, `_`.
pub open spec fn symbol(v: int) -> char {
    if v < 26 {
        (v + 65) as char
    } else if v < 52 {
        (v + 71) as char
    } else if v < 62 {
        (v - 4) as char
    } else if v == 62 {
        '-'
    } else {
        '_'
    }
}

/// The four symbols for three bytes: the 24 bits, six at a time, from the
/// most significant.
pub open spec fn quad(b0: int, b1: int, b2: int) -> Seq<char> {
    seq![
        symbol(b0 / 4),
        symbol(b0 % 4 * 16 + b1 / 16),
        symbol(b1 % 16 * 4 + b2 / 64),
        symbol(b2 % 64),
    ]
}

/// The unpadded encoding of `bytes`: every three bytes give four symbols; a
/// last single byte gives two and a last pair gives three, the missing bits
/// taken as zero.
pub open spec fn b64_text(bytes: Seq<u8>) -> Seq<char>
    decreases bytes.len(),
{
    if bytes.len() == 0 {
        Seq::empty()
    } else if bytes.len() == 1 {
        quad(bytes[0] as int, 0, 0).take(2)
    } else if bytes.len() == 2 {
        quad(bytes[0] as int, bytes[1] as int, 0).take(3)
    } else {
        quad(bytes[0] as int, bytes[1] as int, bytes[2] as int) + b64_text(bytes.skip(3))
    }
}

/// Whether `text` is the encoding of some bytes.
pub open spec fn is_b64(text: Seq<char>) -> bool {
    exists|bytes: Seq<u8>| #[trigger] b64_text(bytes) == text
}

/// The bytes that `text` encodes, if it encodes any.
pub open spec fn b64_bytes(text: Seq<char>) -> Option<Seq<u8>> {
    if is_b64(text) {
        Some(choose|bytes: Seq<u8>| #[trigger] b64_text(bytes) == text)
    } else {
        None
    }
}

/// Whether `text` stands for a byte string of the given length.
pub open spec fn encodes_len(text: Seq<char>, len: usize) -> bool {
    b64_bytes(text) is Some && b64_bytes(text).unwrap().len() == len
}

/// `Engine::encode` of `URL_SAFE_NO_PAD`: the result is the unpadded
/// URL-safe encoding of the input.
#[verifier::external_body]
fn url_safe_no_pad_encode(input: &[u8]) -> (r: String)
    ensures
        r@ == b64_text(input@),
{
    ::base64::engine::general_purpose::URL_SAFE_NO_PAD.encode(input)
}

/// `Engine::decode` of `URL_SAFE_NO_PAD`: the decoder is strict. It accepts a
/// text only if that text is exactly what encoding the returned bytes gives,
/// and refuses every text that encodes nothing (a character outside the
/// alphabet, padding, an impossible length, spare bits that are not zero).
#[verifier::external_body]
fn url_safe_no_pad_decode(input: &str) -> (r: Result<Vec<u8>, ::base64::DecodeError>)
    ensures
        match r {
            Ok(bytes) => b64_text(bytes@) == input@,
            Err(_) => !is_b64(input@),
        },
{
    ::base64::engine::general_purpose::URL_SAFE_NO_PAD.decode(input)
}

/// Encodes bytes as text. The text stands for these bytes and no others.
pub fn base64_encode(input: &[u8]) -> (r: String)
    ensures
        r@ == b64_text(input@),
        b64_bytes(r@) == Some(input@),
{
    proof {
        lemma_b64_round_trip(input@);
    }
    url_safe_no_pad_encode(input)
}

/// Decodes text to bytes. A text that encodes nothing is refused with an
/// encoding error that carries `context`.
pub fn base64_decode(context: &'static str, input: &str) -> (r: Result<Vec<u8>, Error>)
    ensures
        match b64_bytes(input@) {
            Some(bytes) => r matches Ok(v) && v@ == bytes,
            None => r matches Err(e) && e.reports(ErrorKind::Encoding, context@),
        },
{
    match url_safe_no_pad_decode(input) {
        Ok(bytes) => {
            proof {
                lemma_b64_text_injective(bytes@, b64_bytes(input@).unwrap());
            }
            Ok(bytes)
        },
        Err(error) => Err(from_base64_error(context, &error)),
    }
}

/// The encoding of `n` bytes has `(4n + 2) / 3` characters.
pub proof fn lemma_b64_text_len(bytes: Seq<u8>)
    ensures
        b64_text(bytes).len() == (4 * bytes.len() + 2) / 3,
    decreases bytes.len(),
{
    if bytes.len() >= 3 {
        lemma_b64_text_len(bytes.skip(3));
    }
}

/// Different six-bit values have different symbols.
pub proof fn lemma_symbol_injective(a: int, b: int)
    requires
        0 <= a < 64,
        0 <= b < 64,
        symbol(a) == symbol(b),
    ensures
        a == b,
{
    assert(symbol(a) as int == if a < 26 {
        a + 65
    } else if a < 52 {
        a + 71
    } else if a < 62 {
        a - 4
    } else if a == 62 {
        45
    } else {
        95
    });
    assert(symbol(b) as int == if b < 26 {
        b + 65
    } else if b < 52 {
        b + 71
    } else if b < 62 {
        b - 4
    } else if b == 62 {
        45
    } else {
        95
    });
}

/// Three bytes are determined by their four symbols.
pub proof fn lemma_quad_injective(a0: int, a1: int, a2: int, b0: int, b1: int, b2: int, n: int)
    requires
        0 <= a0 < 256 && 0 <= a1 < 256 && 0 <= a2 < 256,
        0 <= b0 < 256 && 0 <= b1 < 256 && 0 <= b2 < 256,
        2 <= n <= 4,
        n < 4 ==> a2 == 0 && b2 == 0,
        n < 3 ==> a1 == 0 && b1 == 0,
        forall|i: int| 0 <= i < n ==> quad(a0, a1, a2)[i] == quad(b0, b1, b2)[i],
    ensures
        a0 == b0,
        a1 == b1,
        a2 == b2,
{
    let s = quad(a0, a1, a2);
    let t = quad(b0, b1, b2);
    assert(s[0] == t[0] && s[1] == t[1]);
    lemma_symbol_injective(a0 / 4, b0 / 4);
    lemma_symbol_injective(a0 % 4 * 16 + a1 / 16, b0 % 4 * 16 + b1 / 16);
    if n >= 3 {
        assert(s[2] == t[2]);
        lemma_symbol_injective(a1 % 16 * 4 + a2 / 64, b1 % 16 * 4 + b2 / 64);
    }
    if n >= 4 {
        assert(s[3] == t[3]);
        lemma_symbol_injective(a2 % 64, b2 % 64);
    }
}

/// No two byte strings have the same encoding.
pub proof fn lemma_b64_text_injective(a: Seq<u8>, b: Seq<u8>)
    requires
        b64_text(a) == b64_text(b),
    ensures
        a == b,
    decreases a.len(),
{
    lemma_b64_text_len(a);
    lemma_b64_text_len(b);
    assert(a.len() == b.len());
    let s = b64_text(a);
    let t = b64_text(b);
    if a.len() == 0 {
        assert(a =~= b);
    } else if a.len() == 1 {
        assert forall|i: int| 0 <= i < 2 implies quad(a[0] as int, 0, 0)[i] == quad(
            b[0] as int,
            0,
            0,
        )[i] by {
            assert(s[i] == t[i]);
        }
        lemma_quad_injective(a[0] as int, 0, 0, b[0] as int, 0, 0, 2);
        assert(a =~= b);
    } else if a.len() == 2 {
        assert forall|i: int| 0 <= i < 3 implies quad(a[0] as int, a[1] as int, 0)[i] == quad(
            b[0] as int,
            b[1] as int,
            0,
        )[i] by {
            assert(s[i] == t[i]);
        }
        lemma_quad_injective(a[0] as int, a[1] as int, 0, b[0] as int, b[1] as int, 0, 3);
        assert(a =~= b);
    } else {
        let qa = quad(a[0] as int, a[1] as int, a[2] as int);
        let qb = quad(b[0] as int, b[1] as int, b[2] as int);
        assert forall|i: int| 0 <= i < 4 implies qa[i] == qb[i] by {
            assert(s[i] == t[i]);
        }
        lemma_quad_injective(
            a[0] as int,
            a[1] as int,
            a[2] as int,
            b[0] as int,
            b[1] as int,
            b[2] as int,
            4,
        );
        assert(b64_text(a.skip(3)) =~= s.skip(4));
        assert(b64_text(b.skip(3)) =~= t.skip(4));
        lemma_b64_text_injective(a.skip(3), b.skip(3));
        assert forall|i: int| 0 <= i < a.len() implies a[i] == b[i] by {
            if i >= 3 {
                assert(a[i] == a.skip(3)[i - 3]);
                assert(b[i] == b.skip(3)[i - 3]);
            }
        }
        assert(a =~= b);
    }
}

/// Encoding loses nothing: the bytes that an encoding stands for are the
/// bytes that were encoded.
pub proof fn lemma_b64_round_trip(bytes: Seq<u8>)
    ensures
        b64_bytes(b64_text(bytes)) == Some(bytes),
{
    let text = b64_text(bytes);
    assert(is_b64(text));
    lemma_b64_text_injective(b64_bytes(text).unwrap(), bytes);
}

/// A text stands for at most one byte string, and encoding that byte string
/// gives the text back.
pub proof fn lemma_b64_bytes_exact(text: Seq<char>, bytes: Seq<u8>)
    ensures
        b64_bytes(text) == Some(bytes) <==> b64_text(bytes) == text,
{
    if b64_text(bytes) == text {
        lemma_b64_round_trip(bytes);
    }
}

/// A change to a text never goes unnoticed: two different texts do not stand
/// for the same bytes.
pub proof fn lemma_b64_bytes_injective(first: Seq<char>, second: Seq<char>)
    requires
        first != second,
        b64_bytes(first) is Some,
    ensures
        b64_bytes(first) != b64_bytes(second),
{
    let bytes = b64_bytes(first).unwrap();
    lemma_b64_bytes_exact(first, bytes);
    lemma_b64_bytes_exact(second, bytes);
}

} // verus!
