//! `data:` URIs that carry bytes in base64.

use vstd::prelude::*;
use vstd::string::*;

verus! {

/// The character of the standard base64 alphabet that stands for the six-bit
/// number `v`: `A` to `Z`, `a` to `z`, `0` to `9`, `+` and `/`.
pub open spec fn sextet_char(v: int) -> char {
    if v < 26 {
        (v + 65) as char
    } else if v < 52 {
        (v + 71) as char
    } else if v < 62 {
        (v - 4) as char
    } else if v == 62 {
        '+'
    } else {
        '/'
    }
}

/// The standard base64 text of `bytes`, padded with `=` to a multiple of
/// four characters.
pub open spec fn base64_text(bytes: Seq<u8>) -> Seq<char>
    decreases bytes.len(),
{
    if bytes.len() == 0 {
        Seq::empty()
    } else if bytes.len() == 1 {
        let a = bytes[0] as int;
        seq![sextet_char(a / 4), sextet_char(a % 4 * 16), '=', '=']
    } else if bytes.len() == 2 {
        let a = bytes[0] as int;
        let b = bytes[1] as int;
        seq![sextet_char(a / 4), sextet_char(a % 4 * 16 + b / 16), sextet_char(b % 16 * 4), '=']
    } else {
        let a = bytes[0] as int;
        let b = bytes[1] as int;
        let c = bytes[2] as int;
        seq![
            sextet_char(a / 4),
            sextet_char(a % 4 * 16 + b / 16),
            sextet_char(b % 16 * 4 + c / 64),
            sextet_char(c % 64),
        ] + base64_text(bytes.skip(3))
    }
}

/// The number of characters in the base64 text of `n` bytes.
pub open spec fn base64_len(n: nat) -> nat {
    (n + 2) / 3 * 4
}

/// Whether the base64 text of `n` bytes fits in a string.
pub open spec fn encodable_len(n: nat) -> bool {
    base64_len(n) <= isize::MAX
}

/// The `data:` URI of `bytes` with the MIME type `mime`.
pub open spec fn data_uri_text(mime: Seq<char>, bytes: Seq<u8>) -> Seq<char> {
    "data:"@ + mime + ";base64,"@ + base64_text(bytes)
}

/// The six-bit number that a character of the base64 alphabet stands for.
pub open spec fn sextet_value(c: char) -> int {
    let n = c as int;
    if 65 <= n <= 90 {
        n - 65
    } else if 97 <= n <= 122 {
        n - 71
    } else if 48 <= n <= 57 {
        n + 4
    } else if c == '+' {
        62
    } else {
        63
    }
}

/// The bytes that a padded base64 text stands for.
pub open spec fn base64_bytes(text: Seq<char>) -> Seq<u8>
    decreases text.len(),
{
    if text.len() < 4 {
        Seq::empty()
    } else {
        let a = sextet_value(text[0]);
        let b = sextet_value(text[1]);
        let c = sextet_value(text[2]);
        let d = sextet_value(text[3]);
        if text[2] == '=' {
            seq![(a * 4 + b / 16) as u8]
        } else if text[3] == '=' {
            seq![(a * 4 + b / 16) as u8, (b % 16 * 16 + c / 4) as u8]
        } else {
            seq![(a * 4 + b / 16) as u8, (b % 16 * 16 + c / 4) as u8, (c % 4 * 64 + d) as u8]
                + base64_bytes(text.skip(4))
        }
    }
}

/// Each character of the alphabet stands for the number that it was chosen
/// for, and none of them is the padding character.
pub proof fn lemma_sextet_char_value(v: int)
    requires
        0 <= v < 64,
    ensures
        sextet_value(sextet_char(v)) == v,
        sextet_char(v) != '=',
{
}

/// The base64 text of bytes stands for those bytes, and has four characters
/// for every three bytes or part of three.
pub proof fn lemma_base64_round_trip(bytes: Seq<u8>)
    ensures
        base64_bytes(base64_text(bytes)) == bytes,
        base64_text(bytes).len() == base64_len(bytes.len()),
    decreases bytes.len(),
{
    let text = base64_text(bytes);
    if bytes.len() == 0 {
        assert(base64_bytes(text) =~= bytes);
    } else if bytes.len() == 1 {
        let a = bytes[0] as int;
        lemma_sextet_char_value(a / 4);
        lemma_sextet_char_value(a % 4 * 16);
        assert(base64_bytes(text) =~= bytes);
    } else if bytes.len() == 2 {
        let a = bytes[0] as int;
        let b = bytes[1] as int;
        lemma_sextet_char_value(a / 4);
        lemma_sextet_char_value(a % 4 * 16 + b / 16);
        lemma_sextet_char_value(b % 16 * 4);
        assert(base64_bytes(text) =~= bytes);
    } else {
        let a = bytes[0] as int;
        let b = bytes[1] as int;
        let c = bytes[2] as int;
        lemma_sextet_char_value(a / 4);
        lemma_sextet_char_value(a % 4 * 16 + b / 16);
        lemma_sextet_char_value(b % 16 * 4 + c / 64);
        lemma_sextet_char_value(c % 64);
        lemma_base64_round_trip(bytes.skip(3));
        assert(text.skip(4) =~= base64_text(bytes.skip(3)));
        assert(base64_bytes(text) =~= seq![bytes[0], bytes[1], bytes[2]] + bytes.skip(3));
        assert(seq![bytes[0], bytes[1], bytes[2]] + bytes.skip(3) =~= bytes);
    }
}

/// Different bytes have different base64 texts.
pub proof fn lemma_base64_injective(a: Seq<u8>, b: Seq<u8>)
    requires
        base64_text(a) == base64_text(b),
    ensures
        a == b,
{
    lemma_base64_round_trip(a);
    lemma_base64_round_trip(b);
}

/// Tests whether the base64 text of `n` bytes fits in a string.
pub fn is_encodable_len(n: usize) -> (fits: bool)
    ensures
        fits == encodable_len(n as nat),
{
    let groups: usize = if n % 3 == 0 {
        n / 3
    } else {
        n / 3 + 1
    };
    assert(groups == (n + 2) / 3);
    let limit: usize = isize::MAX as usize / 4;
    groups <= limit
}

/// Calls `base64::encode`, which writes `bytes` in the standard alphabet,
/// three bytes to four characters, and pads the last group with `=`. This
/// contract is taken on trust from the base64 crate. The call panics where
/// the length of the text does not fit in a buffer, which the precondition
/// excludes.
#[verifier::external_body]
fn base64_encode(bytes: &[u8]) -> (text: String)
    requires
        encodable_len(bytes@.len()),
    ensures
        text@ == base64_text(bytes@),
{
    base64::encode(bytes)
}

/// Builds the `data:` URI of `bytes` with the MIME type `mime`.
pub fn data_uri(mime: &str, bytes: &[u8]) -> (uri: String)
    requires
        encodable_len(bytes@.len()),
    ensures
        uri@ == data_uri_text(mime@, bytes@),
{
    let mut uri = String::from_str("data:");
    uri.append(mime);
    uri.append(";base64,");
    let encoded = base64_encode(bytes);
    uri.append(encoded.as_str());
    uri
}

} // verus!
