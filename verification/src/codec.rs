//! Base64 text as RFC 4648 defines it, and the two engines of the `base64`
//! crate that the benchmark uses: the standard alphabet with padding, for the
//! device-binding coordinates, and the URL-safe alphabet without padding, for
//! presentations.
use base64::Engine;
use vstd::prelude::*;

verus! {

/// The ASCII code of the base64 symbol for the six-bit value `v`
/// (`A`-`Z`, `a`-`z`, `0`-`9`, then `+` `/`, or `-` `_` in the URL-safe alphabet).
pub open spec fn symbol(url_safe: bool, v: int) -> u8 {
    if v < 26 {
        (65 + v) as u8
    } else if v < 52 {
        (71 + v) as u8
    } else if v < 62 {
        (v - 4) as u8
    } else if v == 62 {
        if url_safe { 45u8 } else { 43u8 }
    } else {
        if url_safe { 95u8 } else { 47u8 }
    }
}

/// The ASCII code of the padding character `=`.
pub open spec fn pad_byte() -> u8 {
    61u8
}

/// Base64 of `data` as ASCII bytes: each group of three bytes becomes four
/// symbols; a final group of one or two bytes becomes two or three symbols,
/// followed by `=` up to four characters when `pad` holds.
pub open spec fn encode_spec(url_safe: bool, pad: bool, data: Seq<u8>) -> Seq<u8>
    decreases data.len(),
{
    if data.len() == 0 {
        seq![]
    } else if data.len() == 1 {
        let b0 = data[0] as int;
        seq![symbol(url_safe, b0 / 4), symbol(url_safe, (b0 % 4) * 16)] + if pad {
            seq![pad_byte(), pad_byte()]
        } else {
            Seq::<u8>::empty()
        }
    } else if data.len() == 2 {
        let b0 = data[0] as int;
        let b1 = data[1] as int;
        seq![
            symbol(url_safe, b0 / 4),
            symbol(url_safe, (b0 % 4) * 16 + b1 / 16),
            symbol(url_safe, (b1 % 16) * 4),
        ] + if pad {
            seq![pad_byte()]
        } else {
            Seq::<u8>::empty()
        }
    } else {
        let b0 = data[0] as int;
        let b1 = data[1] as int;
        let b2 = data[2] as int;
        seq![
            symbol(url_safe, b0 / 4),
            symbol(url_safe, (b0 % 4) * 16 + b1 / 16),
            symbol(url_safe, (b1 % 16) * 4 + b2 / 64),
            symbol(url_safe, b2 % 64),
        ] + encode_spec(url_safe, pad, data.skip(3))
    }
}

/// The characters of a sequence of ASCII codes.
pub open spec fn ascii_text(bytes: Seq<u8>) -> Seq<char> {
    bytes.map_values(|b: u8| b as char)
}

/// `text` is the base64 of some byte string.
pub open spec fn is_encoding(url_safe: bool, pad: bool, text: Seq<u8>) -> bool {
    exists|d: Seq<u8>| #[trigger] encode_spec(url_safe, pad, d) == text
}

/// The byte string whose base64 is `text`, if there is one (there is at most
/// one: see `lemma_encode_injective`).
pub open spec fn decode_spec(url_safe: bool, pad: bool, text: Seq<u8>) -> Option<Seq<u8>> {
    if is_encoding(url_safe, pad, text) {
        Some(choose|d: Seq<u8>| #[trigger] encode_spec(url_safe, pad, d) == text)
    } else {
        None
    }
}

proof fn lemma_symbol_distinct(url_safe: bool, v: int, w: int)
    requires
        0 <= v < 64,
        0 <= w < 64,
    ensures
        symbol(url_safe, v) == symbol(url_safe, w) <==> v == w,
        symbol(url_safe, v) != pad_byte(),
{
}

proof fn lemma_group_determined(x0: int, x1: int, x2: int, y0: int, y1: int, y2: int)
    requires
        0 <= x0 < 256,
        0 <= x1 < 256,
        0 <= x2 < 256,
        0 <= y0 < 256,
        0 <= y1 < 256,
        0 <= y2 < 256,
        x0 / 4 == y0 / 4,
        (x0 % 4) * 16 + x1 / 16 == (y0 % 4) * 16 + y1 / 16,
        (x1 % 16) * 4 + x2 / 64 == (y1 % 16) * 4 + y2 / 64,
        x2 % 64 == y2 % 64,
    ensures
        x0 == y0,
        x1 == y1,
        x2 == y2,
{
}

proof fn lemma_pair_determined(x0: int, x1: int, y0: int, y1: int)
    requires
        0 <= x0 < 256,
        0 <= x1 < 256,
        0 <= y0 < 256,
        0 <= y1 < 256,
        x0 / 4 == y0 / 4,
        (x0 % 4) * 16 + x1 / 16 == (y0 % 4) * 16 + y1 / 16,
        (x1 % 16) * 4 == (y1 % 16) * 4,
    ensures
        x0 == y0,
        x1 == y1,
{
}

proof fn lemma_single_determined(x0: int, y0: int)
    requires
        0 <= x0 < 256,
        0 <= y0 < 256,
        x0 / 4 == y0 / 4,
        (x0 % 4) * 16 == (y0 % 4) * 16,
    ensures
        x0 == y0,
{
}

/// A final group of one or two bytes never encodes like a data string of
/// three bytes or more.
proof fn lemma_short_differs_from_long(url_safe: bool, pad: bool, a: Seq<u8>, b: Seq<u8>)
    requires
        1 <= a.len() < 3,
        b.len() >= 3,
    ensures
        encode_spec(url_safe, pad, a) != encode_spec(url_safe, pad, b),
{
    let ea = encode_spec(url_safe, pad, a);
    let eb = encode_spec(url_safe, pad, b);
    assert(eb.len() >= 4);
    let b0 = b[0] as int;
    let b1 = b[1] as int;
    let b2 = b[2] as int;
    lemma_symbol_distinct(url_safe, (b1 % 16) * 4 + b2 / 64, 0);
    lemma_symbol_distinct(url_safe, b2 % 64, 0);
    if pad {
        if a.len() == 1 {
            assert(ea[2] == pad_byte());
            assert(eb[2] == symbol(url_safe, (b1 % 16) * 4 + b2 / 64));
        } else {
            assert(ea[3] == pad_byte());
            assert(eb[3] == symbol(url_safe, b2 % 64));
        }
    } else {
        assert(ea.len() < 4);
    }
}

/// Two strings of one or two bytes with the same base64 are equal.
proof fn lemma_short_injective(url_safe: bool, pad: bool, a: Seq<u8>, b: Seq<u8>)
    requires
        1 <= a.len() < 3,
        1 <= b.len() < 3,
        encode_spec(url_safe, pad, a) == encode_spec(url_safe, pad, b),
    ensures
        a == b,
{
    let ea = encode_spec(url_safe, pad, a);
    let eb = encode_spec(url_safe, pad, b);
    let a0 = a[0] as int;
    let b0 = b[0] as int;
    if a.len() == 1 && b.len() == 1 {
        assert(ea[0] == eb[0] && ea[1] == eb[1]);
        lemma_symbol_distinct(url_safe, a0 / 4, b0 / 4);
        lemma_symbol_distinct(url_safe, (a0 % 4) * 16, (b0 % 4) * 16);
        lemma_single_determined(a0, b0);
        assert(a =~= b);
    } else if a.len() == 2 && b.len() == 2 {
        let a1 = a[1] as int;
        let b1 = b[1] as int;
        assert(ea[0] == eb[0] && ea[1] == eb[1] && ea[2] == eb[2]);
        lemma_symbol_distinct(url_safe, a0 / 4, b0 / 4);
        lemma_symbol_distinct(url_safe, (a0 % 4) * 16 + a1 / 16, (b0 % 4) * 16 + b1 / 16);
        lemma_symbol_distinct(url_safe, (a1 % 16) * 4, (b1 % 16) * 4);
        lemma_pair_determined(a0, a1, b0, b1);
        assert(a =~= b);
    } else if a.len() == 1 {
        let b1 = b[1] as int;
        if pad {
            assert(ea[2] == pad_byte());
            lemma_symbol_distinct(url_safe, (b1 % 16) * 4, 0);
            assert(eb[2] == symbol(url_safe, (b1 % 16) * 4));
        } else {
            assert(ea.len() == 2 && eb.len() == 3);
        }
    } else {
        let a1 = a[1] as int;
        if pad {
            assert(eb[2] == pad_byte());
            lemma_symbol_distinct(url_safe, (a1 % 16) * 4, 0);
            assert(ea[2] == symbol(url_safe, (a1 % 16) * 4));
        } else {
            assert(eb.len() == 2 && ea.len() == 3);
        }
    }
}

/// Base64 is injective: distinct byte strings have distinct encodings, in
/// either alphabet, with or without padding.
pub proof fn lemma_encode_injective(url_safe: bool, pad: bool, a: Seq<u8>, b: Seq<u8>)
    requires
        encode_spec(url_safe, pad, a) == encode_spec(url_safe, pad, b),
    ensures
        a == b,
    decreases a.len(),
{
    let ea = encode_spec(url_safe, pad, a);
    let eb = encode_spec(url_safe, pad, b);
    if a.len() == 0 || b.len() == 0 {
        if a.len() != 0 {
            assert(ea.len() > 0);
        }
        if b.len() != 0 {
            assert(eb.len() > 0);
        }
        assert(a =~= b);
    } else if a.len() < 3 && b.len() < 3 {
        lemma_short_injective(url_safe, pad, a, b);
    } else if a.len() < 3 {
        lemma_short_differs_from_long(url_safe, pad, a, b);
    } else if b.len() < 3 {
        lemma_short_differs_from_long(url_safe, pad, b, a);
    } else {
        let a0 = a[0] as int;
        let a1 = a[1] as int;
        let a2 = a[2] as int;
        let b0 = b[0] as int;
        let b1 = b[1] as int;
        let b2 = b[2] as int;
        assert(ea[0] == eb[0] && ea[1] == eb[1] && ea[2] == eb[2] && ea[3] == eb[3]);
        lemma_symbol_distinct(url_safe, a0 / 4, b0 / 4);
        lemma_symbol_distinct(url_safe, (a0 % 4) * 16 + a1 / 16, (b0 % 4) * 16 + b1 / 16);
        lemma_symbol_distinct(url_safe, (a1 % 16) * 4 + a2 / 64, (b1 % 16) * 4 + b2 / 64);
        lemma_symbol_distinct(url_safe, a2 % 64, b2 % 64);
        lemma_group_determined(a0, a1, a2, b0, b1, b2);
        assert(ea.skip(4) =~= encode_spec(url_safe, pad, a.skip(3)));
        assert(eb.skip(4) =~= encode_spec(url_safe, pad, b.skip(3)));
        lemma_encode_injective(url_safe, pad, a.skip(3), b.skip(3));
        assert(a =~= a.take(3) + a.skip(3));
        assert(b =~= b.take(3) + b.skip(3));
        assert(a.take(3) =~= b.take(3));
    }
}

/// The byte string that a base64 text decodes to is the one it encodes.
pub proof fn lemma_decode_encode(url_safe: bool, pad: bool, data: Seq<u8>)
    ensures
        decode_spec(url_safe, pad, encode_spec(url_safe, pad, data)) == Some(data),
{
    let text = encode_spec(url_safe, pad, data);
    assert(is_encoding(url_safe, pad, text));
    let d = choose|d: Seq<u8>| #[trigger] encode_spec(url_safe, pad, d) == text;
    lemma_encode_injective(url_safe, pad, d, data);
}

/// Standard base64 of `data`, through `base64::engine::general_purpose::STANDARD`
/// and its `Engine::encode`. Claims that the text is the RFC 4648 encoding with
/// the standard alphabet and `=` padding, which that engine's source computes.
/// The crate panics when the length of the text overflows `usize`; the bound
/// on `data` rules that out.
#[verifier::external_body]
pub(crate) fn encode_standard(data: &[u8]) -> (text: String)
    requires
        data@.len() <= usize::MAX / 2,
    ensures
        text@ == ascii_text(encode_spec(false, true, data@)),
{
    base64::engine::general_purpose::STANDARD.encode(data)
}

/// Decoding through `base64::engine::general_purpose::URL_SAFE_NO_PAD` and its
/// `Engine::decode`, with the crate's error turned into `None`. Claims what that
/// engine's source shows: it accepts exactly the canonical unpadded URL-safe
/// encodings (no `=`, no byte outside the alphabet, no length of the form
/// 4k + 1, no set bits past the last full byte) and returns the bytes so
/// encoded.
#[verifier::external_body]
fn url_safe_no_pad_decode_raw(text: &[u8]) -> (r: Option<Vec<u8>>)
    ensures
        r is Some <==> is_encoding(true, false, text@),
        r matches Some(d) ==> encode_spec(true, false, d@) == text@,
{
    base64::engine::general_purpose::URL_SAFE_NO_PAD.decode(text).ok()
}

/// Decodes unpadded URL-safe base64: `None` exactly when `text` is not such an
/// encoding.
pub fn decode_url_safe_no_pad(text: &[u8]) -> (r: Option<Vec<u8>>)
    ensures
        match r {
            Some(d) => decode_spec(true, false, text@) == Some(d@),
            None => decode_spec(true, false, text@) is None,
        },
{
    let r = url_safe_no_pad_decode_raw(text);
    proof {
        if r is Some {
            lemma_decode_encode(true, false, r->0@);
        }
    }
    r
}

} // verus!
