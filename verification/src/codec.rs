use vstd::prelude::*;
use vstd::utf8::{decode_utf8, valid_utf8};

use base64::engine::general_purpose::STANDARD as BASE64_STANDARD;
use base64::DecodeError as Base64DecodeError;
use base64::Engine;
use core::str::Utf8Error;
use cosmrs::crypto::secp256k1::SigningKey;
use serde_json::Error as JsonError;

use crate::coin::Coin;

verus! {

#[verifier::external_type_specification]
#[verifier::external_body]
pub struct ExSigningKey(SigningKey);

/// The character that stands for the 6-bit value `v` in the standard base64
/// alphabet of RFC 4648.
pub open spec fn base64_char(v: int) -> char {
    if v < 26 {
        (65 + v) as char
    } else if v < 52 {
        (97 + (v - 26)) as char
    } else if v < 62 {
        (48 + (v - 52)) as char
    } else if v == 62 {
        '+'
    } else {
        '/'
    }
}

/// Standard base64 (RFC 4648, standard alphabet, with `=` padding) of `b`.
pub open spec fn base64_standard_encoding(b: Seq<u8>) -> Seq<char>
    decreases b.len(),
{
    if b.len() == 0 {
        seq![]
    } else {
        let x = b[0] as int;
        let y = if b.len() > 1 { b[1] as int } else { 0 };
        let z = if b.len() > 2 { b[2] as int } else { 0 };
        if b.len() == 1 {
            seq![base64_char(x / 4), base64_char((x % 4) * 16), '=', '=']
        } else if b.len() == 2 {
            seq![base64_char(x / 4), base64_char((x % 4) * 16 + y / 16), base64_char((y % 16) * 4), '=']
        } else {
            seq![
                base64_char(x / 4),
                base64_char((x % 4) * 16 + y / 16),
                base64_char((y % 16) * 4 + z / 64),
                base64_char(z % 64),
            ] + base64_standard_encoding(b.skip(3))
        }
    }
}

/// Distinct 6-bit values have distinct characters, none of them `=`.
proof fn lemma_base64_char_injective(u: int, v: int)
    requires
        0 <= u < 64,
        0 <= v < 64,
    ensures
        base64_char(u) != '=',
        base64_char(u) == base64_char(v) ==> u == v,
{
}

/// The standard encoding spells 4 characters for every started group of 3
/// bytes.
proof fn lemma_base64_encoding_len(b: Seq<u8>)
    ensures
        base64_standard_encoding(b).len() == 4 * ((b.len() + 2) / 3),
    decreases b.len(),
{
    if b.len() > 2 {
        lemma_base64_encoding_len(b.skip(3));
    }
}

/// A value below `m * m'` written as a high and a low digit base `m` has
/// only one such writing.
proof fn lemma_digit_split(hi_a: int, lo_a: int, hi_b: int, lo_b: int, m: int)
    by (nonlinear_arith)
    requires
        0 < m,
        0 <= lo_a < m,
        0 <= lo_b < m,
        hi_a * m + lo_a == hi_b * m + lo_b,
    ensures
        hi_a == hi_b,
        lo_a == lo_b,
{
}

/// Different bytes have different standard encodings.
pub proof fn lemma_base64_encoding_injective(a: Seq<u8>, b: Seq<u8>)
    requires
        base64_standard_encoding(a) == base64_standard_encoding(b),
    ensures
        a == b,
    decreases a.len(),
{
    let ea = base64_standard_encoding(a);
    lemma_base64_encoding_len(a);
    lemma_base64_encoding_len(b);
    if a.len() == 0 || b.len() == 0 {
        assert(a.len() == 0 && b.len() == 0);
        assert(a =~= b);
        return;
    }
    let (xa, xb) = (a[0] as int, b[0] as int);
    let ya = if a.len() > 1 { a[1] as int } else { 0 };
    let yb = if b.len() > 1 { b[1] as int } else { 0 };
    let za = if a.len() > 2 { a[2] as int } else { 0 };
    let zb = if b.len() > 2 { b[2] as int } else { 0 };
    let eb = base64_standard_encoding(b);
    assert(ea[0] == eb[0] && ea[1] == eb[1] && ea[2] == eb[2] && ea[3] == eb[3]);
    lemma_base64_char_injective(xa / 4, xb / 4);
    lemma_base64_char_injective((xa % 4) * 16 + ya / 16, (xb % 4) * 16 + yb / 16);
    lemma_base64_char_injective((ya % 16) * 4 + za / 64, (yb % 16) * 4 + zb / 64);
    lemma_base64_char_injective(za % 64, zb % 64);
    assert(a.len() == 1 <==> b.len() == 1);
    assert(a.len() == 2 <==> b.len() == 2);
    assert(a.len() > 2 <==> b.len() > 2);
    lemma_digit_split(xa % 4, ya / 16, xb % 4, yb / 16, 16);
    lemma_digit_split(ya % 16, za / 64, yb % 16, zb / 64, 64);
    assert(xa == xb);
    assert(ya == yb);
    if a.len() > 2 {
        assert(za == zb);
        let (ra, rb) = (a.skip(3), b.skip(3));
        assert(base64_standard_encoding(ra) =~= ea.skip(4));
        assert(base64_standard_encoding(rb) =~= ea.skip(4));
        lemma_base64_encoding_injective(ra, rb);
        assert(a =~= a.take(3) + ra);
        assert(b =~= b.take(3) + rb);
        assert(a.take(3) =~= b.take(3));
    } else {
        assert(a =~= b);
    }
}

/// The input bytes read as characters, one for one.
pub open spec fn bytes_as_chars(b: Seq<u8>) -> Seq<char> {
    b.map_values(|x: u8| x as char)
}

/// The bytes whose standard base64 (with canonical padding and no trailing
/// bits) the input spells; `None` where no bytes have it as their encoding.
pub open spec fn base64_standard_decoding(encoded: Seq<u8>) -> Option<Seq<u8>> {
    if exists|b: Seq<u8>| base64_standard_encoding(b) == bytes_as_chars(encoded) {
        Some(choose|b: Seq<u8>| base64_standard_encoding(b) == bytes_as_chars(encoded))
    } else {
        None
    }
}

/// Characters below 256 taken as bytes, one for one.
pub open spec fn chars_as_bytes(s: Seq<char>) -> Seq<u8> {
    s.map_values(|c: char| (c as int) as u8)
}

/// An ASCII character.
pub open spec fn is_ascii_char(c: char) -> bool {
    0 <= (c as int) < 128
}

/// The standard encoding spells ASCII characters only.
proof fn lemma_base64_encoding_ascii(b: Seq<u8>)
    ensures
        forall|i: int|
            0 <= i < base64_standard_encoding(b).len() ==> is_ascii_char(
                #[trigger] base64_standard_encoding(b)[i],
            ),
    decreases b.len(),
{
    if b.len() > 2 {
        lemma_base64_encoding_ascii(b.skip(3));
        let e = base64_standard_encoding(b);
        let rest = base64_standard_encoding(b.skip(3));
        assert forall|i: int| 4 <= i < e.len() implies is_ascii_char(#[trigger] e[i]) by {
            assert(e[i] == rest[i - 4]);
        }
    }
}

/// Standard base64 reads back as the bytes it encodes: decoding the ASCII
/// text of the encoding of `b` gives `b`.
pub proof fn lemma_base64_round_trip(b: Seq<u8>)
    ensures
        base64_standard_decoding(chars_as_bytes(base64_standard_encoding(b))) == Some(b),
{
    let e = base64_standard_encoding(b);
    lemma_base64_encoding_ascii(b);
    assert forall|i: int| 0 <= i < e.len() implies #[trigger] bytes_as_chars(chars_as_bytes(e))[i]
        == e[i] by {
        assert(is_ascii_char(e[i]));
    }
    assert(bytes_as_chars(chars_as_bytes(e)) =~= e);
    let found = choose|c: Seq<u8>| base64_standard_encoding(c) == bytes_as_chars(chars_as_bytes(e));
    lemma_base64_encoding_injective(found, b);
}

/// What `String::from_utf8_lossy` gives for the bytes.
pub uninterp spec fn utf8_lossy(bytes: Seq<u8>) -> Seq<char>;

/// What `serde_json::to_string` gives for a list of `cosmwasm_std::Coin`,
/// each given by its denomination and amount.
pub uninterp spec fn coins_json(coins: Seq<(Seq<char>, u128)>) -> Seq<char>;

/// The order of the secp256k1 group.
pub open spec fn secp256k1_order() -> int {
    0xFFFFFFFFFFFFFFFFFFFFFFFFFFFFFFFEBAAEDCE6AF48A03BBFD25E8CD0364141int
}

/// The unsigned big-endian integer that `b` spells.
pub open spec fn big_endian_value(b: Seq<u8>) -> int
    decreases b.len(),
{
    if b.len() == 0 {
        0
    } else {
        big_endian_value(b.drop_last()) * 256 + b.last()
    }
}

/// A raw secp256k1 secret key: 24 to 32 big-endian bytes whose value lies
/// strictly between zero and the group order.
pub open spec fn is_secp256k1_secret_key(b: Seq<u8>) -> bool {
    &&& 24 <= b.len() <= 32
    &&& 0 < big_endian_value(b) < secp256k1_order()
}

/// `base64::Engine::encode` with the standard engine. The contract states
/// the RFC 4648 standard encoding with padding; the length bound keeps the
/// crate's size computation from overflowing, where it panics.
#[verifier::external_body]
pub(crate) fn base64_encode(bytes: &[u8]) -> (encoded: String)
    requires
        bytes.len() <= usize::MAX / 2,
    ensures
        encoded@ == base64_standard_encoding(bytes@),
{
    BASE64_STANDARD.encode(bytes)
}

/// `base64::Engine::decode` with the standard engine, whose configuration
/// requires canonical padding and refuses trailing bits: it succeeds exactly
/// on the standard encodings, and gives back the bytes encoded. Which error
/// is reported is left unsaid.
#[verifier::external_body]
pub(crate) fn base64_decode(encoded: &[u8]) -> (decoded: Result<Vec<u8>, Base64DecodeError>)
    ensures
        match decoded {
            Ok(v) => base64_standard_decoding(encoded@) == Some(v@),
            Err(_) => base64_standard_decoding(encoded@) is None,
        },
{
    BASE64_STANDARD.decode(encoded)
}

/// `std::str::from_utf8`: succeeds exactly on valid UTF-8 and then yields the
/// decoded characters. Which error is reported is left unsaid.
#[verifier::external_body]
pub(crate) fn utf8_str(bytes: &[u8]) -> (s: Result<&str, Utf8Error>)
    ensures
        s is Ok <==> valid_utf8(bytes@),
        s matches Ok(t) ==> t@ == decode_utf8(bytes@),
{
    core::str::from_utf8(bytes)
}

/// `String::from_utf8_lossy`, taken as an owned `String`. Its documentation
/// says that valid UTF-8 comes back unchanged; the replacement of invalid
/// sequences is only named.
#[verifier::external_body]
pub(crate) fn utf8_lossy_string(bytes: &[u8]) -> (s: String)
    ensures
        s@ == utf8_lossy(bytes@),
        valid_utf8(bytes@) ==> s@ == decode_utf8(bytes@),
{
    String::from_utf8_lossy(bytes).into_owned()
}

/// `serde_json::to_string` on the coins, each converted one for one to a
/// `cosmwasm_std::Coin`. The text is named by `coins_json`. The call does not
/// fail: `serde_json` fails only where a `Serialize` impl does or a map has
/// keys that are not strings, and a `cosmwasm_std::Coin` is a derived struct
/// of a `String` and a `Uint128`, which is written as a string.
#[verifier::external_body]
pub(crate) fn coins_to_json(coins: &Vec<Coin>) -> (json: Result<String, JsonError>)
    ensures
        json is Ok,
        json matches Ok(s) ==> s@ == coins_json(coins@.map_values(|c: Coin| (c.denom@, c.amount))),
{
    let converted: Vec<cosmwasm_std::Coin> = coins
        .iter()
        .map(|c| cosmwasm_std::Coin::new(c.amount, c.denom.clone()))
        .collect();
    serde_json::to_string(&converted)
}

} // verus!
