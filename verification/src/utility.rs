//! Utility functions: de-obfuscation of XOR-encoded secrets.
//!
//! A secret is stored as the bytes of its UTF-8 text, each XOR-ed with
//! [`XOR_KEY`]. Decoding XORs each byte with the key again, reads the bytes
//! as UTF-8 text and appends its characters to a `heapless::String<256>`,
//! whose capacity is 256 bytes of UTF-8. A character that does not fit any
//! more is dropped and decoding goes on. Bytes that are not valid UTF-8
//! are taken one character per byte.

use vstd::prelude::*;
use vstd::utf8::{decode_utf8, encode_utf8, valid_utf8};

verus! {

/// Key that every byte of an obfuscated secret was XOR-ed with.
pub const XOR_KEY: u8 = 0xA5;

/// `heapless::String<N>`, a string of at most `N` bytes held inline.
#[verifier::external_type_specification]
#[verifier::external_body]
pub struct ExHeaplessString<const N: usize>(heapless::String<N>);

/// The characters that a `heapless::String<256>` holds, in order (the
/// decoding of its UTF-8 bytes).
pub uninterp spec fn heapless_string_chars(s: heapless::String<256>) -> Seq<char>;

/// Number of bytes that the UTF-8 encoding of `c` takes (what `char::len_utf8` returns).
pub open spec fn char_utf8_len(c: char) -> nat {
    let v = c as u32;
    if v <= 0x7F {
        1
    } else if v <= 0x7FF {
        2
    } else if v <= 0xFFFF {
        3
    } else {
        4
    }
}

/// Number of bytes of the UTF-8 encoding of a character sequence.
pub open spec fn utf8_len(chars: Seq<char>) -> nat
    decreases chars.len(),
{
    if chars.len() == 0 {
        0
    } else {
        utf8_len(chars.drop_last()) + char_utf8_len(chars.last())
    }
}

/// `heapless::String::<256>::new`: the new string holds no character.
#[verifier::external_body]
fn heapless_string_new() -> (s: heapless::String<256>)
    ensures
        heapless_string_chars(s) == Seq::<char>::empty(),
{
    heapless::String::new()
}

/// `heapless::String::<256>::push`: the character is appended and `Ok` comes
/// back when its UTF-8 bytes fit in the remaining capacity of 256 bytes;
/// otherwise `Err` comes back and the string is left as it was.
#[verifier::external_body]
fn heapless_string_push(s: &mut heapless::String<256>, c: char) -> (r: Result<(), ()>)
    ensures
        utf8_len(heapless_string_chars(*old(s))) + char_utf8_len(c) <= 256 ==> {
            &&& r is Ok
            &&& heapless_string_chars(*final(s)) == heapless_string_chars(*old(s)).push(c)
        },
        utf8_len(heapless_string_chars(*old(s))) + char_utf8_len(c) > 256 ==> {
            &&& r is Err
            &&& heapless_string_chars(*final(s)) == heapless_string_chars(*old(s))
        },
{
    s.push(c)
}

/// `core::str::from_utf8`: the text that the bytes encode when they are
/// valid UTF-8 (`Some`), and `None` when they are not.
#[verifier::external_body]
fn str_from_utf8(bytes: &[u8]) -> (text: Option<&str>)
    ensures
        text is Some <==> valid_utf8(bytes@),
        text matches Some(t) ==> t@ == decode_utf8(bytes@),
{
    match core::str::from_utf8(bytes) {
        Ok(t) => Some(t),
        Err(_) => None,
    }
}

/// The bytes XOR-ed with the key.
pub open spec fn xored(bytes: Seq<u8>) -> Seq<u8> {
    bytes.map_values(|b: u8| b ^ XOR_KEY)
}

/// One character per byte, each byte read as its own code point.
pub open spec fn chars_per_byte(bytes: Seq<u8>) -> Seq<char> {
    bytes.map_values(|b: u8| (b as u32) as char)
}

/// The text that obfuscated bytes stand for: the UTF-8 decoding of the
/// XOR-ed bytes, or, when these are not valid UTF-8, one character per
/// XOR-ed byte.
pub open spec fn secret_text(bytes: Seq<u8>) -> Seq<char> {
    let plain = xored(bytes);
    if valid_utf8(plain) {
        decode_utf8(plain)
    } else {
        chars_per_byte(plain)
    }
}

/// The characters appended, in turn, to an empty string of 256 bytes: each
/// one is kept when its UTF-8 encoding still fits.
pub open spec fn appended_while_fits(chars: Seq<char>) -> Seq<char>
    decreases chars.len(),
{
    if chars.len() == 0 {
        Seq::empty()
    } else {
        let prev = appended_while_fits(chars.drop_last());
        let c = chars.last();
        if utf8_len(prev) + char_utf8_len(c) <= 256 {
            prev.push(c)
        } else {
            prev
        }
    }
}

/// Characters that de-obfuscating `bytes` yields.
pub open spec fn deobfuscated(bytes: Seq<u8>) -> Seq<char> {
    appended_while_fits(secret_text(bytes))
}

/// The bytes that obfuscating a secret gives: its UTF-8 bytes, each XOR-ed
/// with the key.
pub open spec fn obfuscated(secret: Seq<char>) -> Seq<u8> {
    encode_utf8(secret).map_values(|b: u8| b ^ 0xA5u8)
}

/// Appends every character of `chars`, in turn, to `result`.
fn push_all_chars(result: &mut heapless::String<256>, chars: &[char])
    requires
        heapless_string_chars(*old(result)) == Seq::<char>::empty(),
    ensures
        heapless_string_chars(*final(result)) == appended_while_fits(chars@),
{
    let mut i: usize = 0;
    while i < chars.len()
        invariant
            0 <= i <= chars@.len(),
            heapless_string_chars(*result) == appended_while_fits(chars@.take(i as int)),
        decreases chars@.len() - i,
    {
        let _ = heapless_string_push(result, chars[i]);
        proof {
            assert(chars@.take(i + 1).drop_last() =~= chars@.take(i as int));
        }
        i = i + 1;
    }
    proof {
        assert(chars@.take(chars@.len() as int) =~= chars@);
    }
}

/// The characters of a text, in order.
fn text_chars(text: &str) -> (chars: Vec<char>)
    ensures
        chars@ == text@,
{
    let mut chars: Vec<char> = Vec::new();
    for c in iter: text.chars()
        invariant
            iter.seq() == text@,
            chars@ == iter.seq().take(iter.index() as int),
    {
        proof {
            assert(iter.seq().take(iter.index() + 1) =~= chars@.push(c));
        }
        chars.push(c);
    }
    proof {
        assert(text@.take(text@.len() as int) =~= text@);
    }
    chars
}

/// Deobfuscates a byte array that was XOR encoded with [`XOR_KEY`].
///
/// Returns the recovered text in a `heapless::String<256>` (at most 256 bytes).
pub fn deobfuscate(obfuscated: &[u8]) -> (result: heapless::String<256>)
    ensures
        heapless_string_chars(result) == deobfuscated(obfuscated@),
{
    let mut plain: Vec<u8> = Vec::new();
    let mut i: usize = 0;
    while i < obfuscated.len()
        invariant
            0 <= i <= obfuscated@.len(),
            plain@ == xored(obfuscated@.take(i as int)),
        decreases obfuscated@.len() - i,
    {
        plain.push(obfuscated[i] ^ XOR_KEY);
        proof {
            assert(xored(obfuscated@.take(i + 1)) =~= xored(obfuscated@.take(i as int)).push(
                obfuscated@[i as int] ^ XOR_KEY,
            ));
        }
        i = i + 1;
    }
    proof {
        assert(obfuscated@.take(obfuscated@.len() as int) =~= obfuscated@);
    }
    let chars: Vec<char> = match str_from_utf8(plain.as_slice()) {
        Some(text) => text_chars(text),
        None => {
            let mut per_byte: Vec<char> = Vec::new();
            let mut k: usize = 0;
            while k < plain.len()
                invariant
                    0 <= k <= plain@.len(),
                    per_byte@ == chars_per_byte(plain@.take(k as int)),
                decreases plain@.len() - k,
            {
                per_byte.push(plain[k] as char);
                proof {
                    assert(chars_per_byte(plain@.take(k + 1)) =~= chars_per_byte(
                        plain@.take(k as int),
                    ).push((plain@[k as int] as u32) as char));
                }
                k = k + 1;
            }
            proof {
                assert(plain@.take(plain@.len() as int) =~= plain@);
            }
            per_byte
        },
    };
    let mut result = heapless_string_new();
    push_all_chars(&mut result, chars.as_slice());
    result
}

/// The UTF-8 length of a character sequence counted from its front.
proof fn lemma_utf8_len_first(chars: Seq<char>)
    requires
        chars.len() > 0,
    ensures
        utf8_len(chars) == char_utf8_len(chars[0]) + utf8_len(chars.drop_first()),
    decreases chars.len(),
{
    let dl = chars.drop_last();
    let df = chars.drop_first();
    if chars.len() > 1 {
        lemma_utf8_len_first(dl);
        assert(dl.drop_first() =~= df.drop_last());
        assert(dl[0] == chars[0]);
        assert(df.last() == chars.last());
        assert(utf8_len(df) == utf8_len(df.drop_last()) + char_utf8_len(df.last()));
        assert(utf8_len(chars) == utf8_len(dl) + char_utf8_len(chars.last()));
    } else {
        assert(dl =~= Seq::<char>::empty());
        assert(df =~= Seq::<char>::empty());
        assert(utf8_len(chars) == utf8_len(dl) + char_utf8_len(chars.last()));
    }
}

/// `utf8_len` is the length of the UTF-8 encoding.
pub proof fn lemma_utf8_len_is_encoding_len(chars: Seq<char>)
    ensures
        utf8_len(chars) == encode_utf8(chars).len(),
    decreases chars.len(),
{
    if chars.len() > 0 {
        lemma_utf8_len_first(chars);
        lemma_utf8_len_is_encoding_len(chars.drop_first());
        vstd::utf8::char_is_scalar(chars[0]);
    }
}

/// Characters whose whole encoding fits in 256 bytes are all kept, in order.
pub proof fn lemma_all_kept_when_fitting(chars: Seq<char>)
    requires
        utf8_len(chars) <= 256,
    ensures
        appended_while_fits(chars) == chars,
    decreases chars.len(),
{
    if chars.len() > 0 {
        lemma_all_kept_when_fitting(chars.drop_last());
        assert(chars.drop_last().push(chars.last()) =~= chars);
    }
}

/// A decoded secret never takes more than 256 bytes of UTF-8.
pub proof fn lemma_deobfuscated_fits(bytes: Seq<u8>)
    ensures
        utf8_len(deobfuscated(bytes)) <= 256,
{
    lemma_appended_fits(secret_text(bytes));
}

/// Appending while the characters fit never goes past 256 bytes.
proof fn lemma_appended_fits(chars: Seq<char>)
    ensures
        utf8_len(appended_while_fits(chars)) <= 256,
    decreases chars.len(),
{
    if chars.len() > 0 {
        lemma_appended_fits(chars.drop_last());
        let prev = appended_while_fits(chars.drop_last());
        let c = chars.last();
        if utf8_len(prev) + char_utf8_len(c) <= 256 {
            assert(prev.push(c).drop_last() =~= prev);
        }
    }
}

/// Obfuscating a secret whose UTF-8 encoding takes at most 256 bytes and
/// de-obfuscating the bytes gives the secret back.
pub proof fn lemma_deobfuscate_inverts_obfuscate(secret: Seq<char>)
    requires
        encode_utf8(secret).len() <= 256,
    ensures
        deobfuscated(obfuscated(secret)) == secret,
{
    let bytes = encode_utf8(secret);
    let ob = obfuscated(secret);
    lemma_plain_bytes(ob);
    assert forall|i: int| 0 <= i < bytes.len() implies #[trigger] xored(ob)[i] == bytes[i] by {
        let b = bytes[i];
        assert((b ^ 0xA5u8) ^ 0xA5u8 == b) by (bit_vector);
    }
    assert(xored(ob) =~= bytes);
    vstd::utf8::encode_utf8_valid_utf8(secret);
    vstd::utf8::encode_utf8_decode_utf8(secret);
    lemma_utf8_len_is_encoding_len(secret);
    lemma_all_kept_when_fitting(secret);
}

/// The plain bytes are the obfuscated bytes, one for one, each XOR-ed with
/// the key `0xA5`.
pub proof fn lemma_plain_bytes(bytes: Seq<u8>)
    ensures
        xored(bytes).len() == bytes.len(),
        forall|i: int| 0 <= i < bytes.len() ==> #[trigger] xored(bytes)[i] == bytes[i] ^ 0xA5u8,
{
}

/// When the plain bytes (each obfuscated byte XOR-ed with `0xA5`) are valid
/// UTF-8 text of at most 256 bytes, de-obfuscation gives exactly that text.
pub proof fn lemma_deobfuscate_valid_text(bytes: Seq<u8>)
    requires
        valid_utf8(bytes.map_values(|b: u8| b ^ 0xA5u8)),
        bytes.len() <= 256,
    ensures
        deobfuscated(bytes) == decode_utf8(bytes.map_values(|b: u8| b ^ 0xA5u8)),
        encode_utf8(deobfuscated(bytes)) == bytes.map_values(|b: u8| b ^ 0xA5u8),
{
    let plain = bytes.map_values(|b: u8| b ^ 0xA5u8);
    assert(xored(bytes) =~= plain);
    let text = decode_utf8(plain);
    vstd::utf8::decode_utf8_encode_utf8(plain);
    lemma_utf8_len_is_encoding_len(text);
    lemma_all_kept_when_fitting(text);
}

/// Plain bytes that are not valid UTF-8 come back one character per byte,
/// each with the byte's value as its code point, while they fit.
pub proof fn lemma_chars_per_byte(bytes: Seq<u8>)
    ensures
        chars_per_byte(bytes).len() == bytes.len(),
        forall|i: int| 0 <= i < bytes.len() ==> (#[trigger] chars_per_byte(bytes)[i]) as u32 == bytes[i] as u32,
{
    assert forall|i: int| 0 <= i < bytes.len() implies (#[trigger] chars_per_byte(bytes)[i]) as u32 == bytes[i] as u32 by {
        let v = bytes[i] as u32;
        assert(v <= 0xFF);
        vstd::utf8::char_u32_cast(chars_per_byte(bytes)[i], (chars_per_byte(bytes)[i]) as u32);
    }
}

/// Appending one more character: it is kept exactly when its UTF-8 bytes
/// fit after what was kept so far, and what was kept before stays.
pub proof fn lemma_appended_step(chars: Seq<char>, c: char)
    ensures
        appended_while_fits(chars.push(c)) == if encode_utf8(appended_while_fits(chars)).len()
            + vstd::utf8::encode_scalar(c as u32).len() <= 256 {
            appended_while_fits(chars).push(c)
        } else {
            appended_while_fits(chars)
        },
{
    assert(chars.push(c).drop_last() =~= chars);
    lemma_utf8_len_is_encoding_len(appended_while_fits(chars));
    lemma_char_utf8_len(c);
}

/// Plain bytes that are not valid UTF-8 are appended one character per
/// byte.
pub proof fn lemma_deobfuscate_invalid_text(bytes: Seq<u8>)
    requires
        !valid_utf8(bytes.map_values(|b: u8| b ^ 0xA5u8)),
    ensures
        deobfuscated(bytes) == appended_while_fits(
            bytes.map_values(|b: u8| (((b ^ 0xA5u8) as u32) as char)),
        ),
{
    assert(xored(bytes) =~= bytes.map_values(|b: u8| b ^ 0xA5u8));
    assert(chars_per_byte(xored(bytes)) =~= bytes.map_values(|b: u8| (((b ^ 0xA5u8) as u32) as char)));
}

/// `char_utf8_len` is the length of the character's UTF-8 encoding.
pub proof fn lemma_char_utf8_len(c: char)
    ensures
        char_utf8_len(c) == vstd::utf8::encode_scalar(c as u32).len(),
{
    vstd::utf8::char_is_scalar(c);
}

} // verus!
