//! Text on its way across the bridge.
//!
//! The host answers with wide text: 16-bit units up to a zero unit. The plugin
//! sends narrow text: the bytes of a string followed by a zero byte.

use vstd::prelude::*;
use vstd::utf8::*;

verus! {

/// The number of units that stand before the first zero unit, or the length of
/// the buffer when no unit is zero.
pub open spec fn content_len(units: Seq<u16>) -> nat
    decreases units.len(),
{
    if units.len() == 0 || units[0] == 0 {
        0
    } else {
        1 + content_len(units.drop_first())
    }
}

/// The units of a wide buffer that carry text: all that stand before the terminator.
pub open spec fn wide_content(units: Seq<u16>) -> Seq<u16> {
    units.take(content_len(units) as int)
}

/// `content_len` stops at the first zero unit and not before.
pub proof fn lemma_content_len(units: Seq<u16>)
    ensures
        content_len(units) <= units.len(),
        forall|i: int| 0 <= i < content_len(units) ==> units[i] != 0,
        content_len(units) < units.len() ==> units[content_len(units) as int] == 0,
    decreases units.len(),
{
    if units.len() == 0 || units[0] == 0 {
    } else {
        let rest = units.drop_first();
        lemma_content_len(rest);
        assert forall|i: int| 0 <= i < content_len(units) implies units[i] != 0 by {
            if i > 0 {
                assert(units[i] == rest[i - 1]);
            }
        }
        if content_len(units) < units.len() {
            assert(units[content_len(units) as int] == rest[content_len(rest) as int]);
        }
    }
}

/// A position that holds the first zero unit, or the end of a buffer without
/// one, is the content length.
pub proof fn lemma_content_len_unique(units: Seq<u16>, n: int)
    requires
        0 <= n <= units.len(),
        forall|i: int| 0 <= i < n ==> units[i] != 0,
        n < units.len() ==> units[n] == 0,
    ensures
        content_len(units) == n,
    decreases units.len(),
{
    if units.len() == 0 || units[0] == 0 {
    } else {
        let rest = units.drop_first();
        assert forall|i: int| 0 <= i < n - 1 implies rest[i] != 0 by {
            assert(rest[i] == units[i + 1]);
        }
        lemma_content_len_unique(rest, n - 1);
    }
}

/// Counts the units of a wide buffer up to its terminator.
///
/// The scan has no cap of its own: it ends at the first zero unit, and only a
/// buffer that holds none is read to its end.
pub fn terminator_index(units: &[u16]) -> (n: usize)
    ensures
        n == content_len(units@),
{
    let mut n: usize = 0;
    while n < units.len() && units[n] != 0
        invariant
            n <= units.len(),
            forall|i: int| 0 <= i < n ==> units@[i] != 0,
        decreases units.len() - n,
    {
        n += 1;
    }
    proof {
        lemma_content_len_unique(units@, n as int);
    }
    n
}

/// A unit that opens a surrogate pair.
pub open spec fn is_high_surrogate(unit: u16) -> bool {
    0xD800 <= unit <= 0xDBFF
}

/// A unit that closes a surrogate pair.
pub open spec fn is_low_surrogate(unit: u16) -> bool {
    0xDC00 <= unit <= 0xDFFF
}

/// The character that a surrogate pair stands for.
pub open spec fn paired_char(high: u16, low: u16) -> char {
    (0x10000 + (high - 0xD800) * 0x400 + (low - 0xDC00)) as char
}

/// The text that a sequence of UTF-16 units stands for, with U+FFFD in the
/// place of every surrogate that has no partner.
pub open spec fn utf16_lossy(units: Seq<u16>) -> Seq<char>
    decreases units.len(),
{
    if units.len() == 0 {
        Seq::empty()
    } else if is_high_surrogate(units[0]) && units.len() >= 2 && is_low_surrogate(units[1]) {
        seq![paired_char(units[0], units[1])] + utf16_lossy(units.skip(2))
    } else if is_high_surrogate(units[0]) || is_low_surrogate(units[0]) {
        seq!['\u{FFFD}'] + utf16_lossy(units.drop_first())
    } else {
        seq![units[0] as char] + utf16_lossy(units.drop_first())
    }
}

/// The text that a wide buffer carries.
pub open spec fn wide_text(units: Seq<u16>) -> Seq<char> {
    utf16_lossy(wide_content(units))
}

/// The text that an answer of the host stands for: nothing where the host gave
/// no buffer, else the text of the buffer.
pub open spec fn decoded(reply: Option<Vec<u16>>) -> Seq<char> {
    match reply {
        None => Seq::empty(),
        Some(units) => wide_text(units@),
    }
}

/// Calls `String::from_utf16_lossy` of std, which decodes UTF-16 and never
/// fails: a well-formed surrogate pair gives its character, any other unit
/// outside the surrogate range gives the character of the same number, and
/// each surrogate without a partner gives one U+FFFD. That this is
/// `utf16_lossy` of the units is taken on trust.
#[verifier::external_body]
fn lossy_string(units: &[u16]) -> (text: String)
    ensures
        text@ == utf16_lossy(units@),
{
    String::from_utf16_lossy(units)
}

/// Turns an answer of the host into a string of the plugin's own.
///
/// No answer is the empty string. A buffer is read up to its first zero unit,
/// however long that is, and converted with replacement of what is not
/// well-formed; the buffer is dropped on return.
pub fn decode(reply: Option<Vec<u16>>) -> (text: String)
    ensures
        text@ == decoded(reply),
        reply is None ==> text@ == Seq::<char>::empty(),
{
    match reply {
        None => String::new(),
        Some(units) => {
            let n: usize = terminator_index(units.as_slice());
            proof {
                lemma_content_len(units@);
            }
            let content = vstd::slice::slice_subrange(units.as_slice(), 0, n);
            assert(content@ =~= wide_content(units@));
            lossy_string(content)
        },
    }
}

/// The payload that carries a text to the host: the UTF-8 bytes of the text
/// and a closing zero byte. A text that itself holds a NUL cannot be sent; the
/// empty payload, a lone zero byte, goes in its place.
pub open spec fn encoded(text: Seq<char>) -> Seq<u8> {
    if text.contains('\0') {
        seq![0u8]
    } else {
        encode_utf8(text).push(0u8)
    }
}

/// Only the character NUL has a zero byte in its UTF-8 form.
proof fn lemma_scalar_nul(scalar: u32)
    requires
        is_scalar(scalar),
    ensures
        scalar == 0 ==> encode_scalar(scalar) =~= seq![0u8],
        scalar != 0 ==> forall|i: int|
            0 <= i < encode_scalar(scalar).len() ==> encode_scalar(scalar)[i] != 0,
{
    assert(scalar <= 0x7F ==> (leading_byte_width_1(scalar) == 0 <==> scalar == 0))
        by (bit_vector);
    assert(leading_byte_width_2(scalar) != 0) by (bit_vector);
    assert(leading_byte_width_3(scalar) != 0) by (bit_vector);
    assert(leading_byte_width_4(scalar) != 0) by (bit_vector);
    assert(last_continuation_byte(scalar) != 0) by (bit_vector);
    assert(second_last_continuation_byte(scalar) != 0) by (bit_vector);
    assert(third_last_continuation_byte(scalar) != 0) by (bit_vector);
}

/// The UTF-8 form of a text holds a zero byte exactly when the text holds a NUL.
pub proof fn lemma_utf8_nul(text: Seq<char>)
    ensures
        encode_utf8(text).contains(0u8) <==> text.contains('\0'),
    decreases text.len(),
{
    let bytes = encode_utf8(text);
    if text.len() == 0 {
    } else {
        let head = encode_scalar(text[0] as u32);
        let rest = text.drop_first();
        let tail = encode_utf8(rest);
        char_is_scalar(text[0]);
        lemma_scalar_nul(text[0] as u32);
        lemma_utf8_nul(rest);
        if bytes.contains(0u8) {
            let i = choose|i: int| 0 <= i < bytes.len() && bytes[i] == 0u8;
            if i < head.len() {
                assert(head[i] == 0u8);
                char_u32_cast(text[0], 0u32);
                char_u32_cast('\0', 0u32);
            } else {
                assert(tail[i - head.len()] == 0u8);
                let j = choose|j: int| 0 <= j < rest.len() && rest[j] == '\0';
                assert(text[j + 1] == '\0');
            }
        }
        if text.contains('\0') {
            let j = choose|j: int| 0 <= j < text.len() && text[j] == '\0';
            if j == 0 {
                assert(bytes[0] == 0u8);
            } else {
                assert(rest[j - 1] == '\0');
                let k = choose|k: int| 0 <= k < tail.len() && tail[k] == 0u8;
                assert(bytes[head.len() + k] == 0u8);
            }
        }
    }
}

/// Every payload is a well-formed narrow text: it ends with a zero byte and
/// holds no other.
pub proof fn lemma_encoded_terminated(text: Seq<char>)
    ensures
        encoded(text).len() >= 1,
        encoded(text).last() == 0u8,
        forall|i: int| 0 <= i < encoded(text).len() - 1 ==> encoded(text)[i] != 0u8,
        text.contains('\0') ==> encoded(text) == seq![0u8],
{
    lemma_utf8_nul(text);
    if !text.contains('\0') {
        let bytes = encode_utf8(text);
        assert forall|i: int| 0 <= i < encoded(text).len() - 1 implies encoded(text)[i] != 0u8 by {
            if encoded(text)[i] == 0u8 {
                assert(bytes[i] == 0u8);
                assert(bytes.contains(0u8));
            }
        }
    }
}

/// Makes the payload for a string value: its bytes with a closing zero byte.
///
/// A value with a NUL in it would end early on the host's side, so the empty
/// payload is made in its place. The call never fails.
pub fn encode(value: &str) -> (payload: Vec<u8>)
    ensures
        payload@ == encoded(value@),
        value@.contains('\0') ==> payload@ == seq![0u8],
{
    let bytes = value.as_bytes();
    let mut payload: Vec<u8> = Vec::new();
    let mut i: usize = 0;
    while i < bytes.len()
        invariant
            i <= bytes.len(),
            bytes@ == encode_utf8(value@),
            payload@ == bytes@.take(i as int),
            forall|j: int| 0 <= j < i ==> bytes@[j] != 0u8,
        decreases bytes.len() - i,
    {
        let byte: u8 = bytes[i];
        if byte == 0 {
            proof {
                lemma_utf8_nul(value@);
                assert(bytes@.contains(0u8));
            }
            let mut empty: Vec<u8> = Vec::new();
            empty.push(0u8);
            return empty;
        }
        payload.push(byte);
        i += 1;
    }
    proof {
        lemma_utf8_nul(value@);
        assert(payload@ =~= bytes@);
    }
    payload.push(0u8);
    payload
}

/// A unit that is no half of a surrogate pair.
pub open spec fn is_plain_unit(unit: u16) -> bool {
    !is_high_surrogate(unit) && !is_low_surrogate(unit)
}

/// Units outside the surrogate range stand for one character each, the one
/// with the unit's number.
pub proof fn lemma_lossy_plain(units: Seq<u16>)
    requires
        forall|i: int| 0 <= i < units.len() ==> is_plain_unit(units[i]),
    ensures
        utf16_lossy(units) == Seq::new(units.len(), |i: int| units[i] as char),
    decreases units.len(),
{
    if units.len() > 0 {
        let rest = units.drop_first();
        assert(is_plain_unit(units[0]));
        assert forall|i: int| 0 <= i < rest.len() implies is_plain_unit(rest[i]) by {
            assert(rest[i] == units[i + 1]);
        }
        lemma_lossy_plain(rest);
    }
    assert(utf16_lossy(units) =~= Seq::new(units.len(), |i: int| units[i] as char));
}

/// Text that came out of a wide buffer holds no NUL, so sending it back never
/// falls to the empty payload.
pub proof fn lemma_lossy_nul_free(units: Seq<u16>)
    requires
        forall|i: int| 0 <= i < units.len() ==> units[i] != 0,
    ensures
        !utf16_lossy(units).contains('\0'),
    decreases units.len(),
{
    if units.len() > 0 {
        let paired = is_high_surrogate(units[0]) && units.len() >= 2 && is_low_surrogate(
            units[1],
        );
        let rest = if paired {
            units.skip(2)
        } else {
            units.drop_first()
        };
        assert forall|i: int| 0 <= i < rest.len() implies rest[i] != 0 by {
            assert(rest[i] == units[i + (units.len() - rest.len())]);
        }
        lemma_lossy_nul_free(rest);
        let text = utf16_lossy(units);
        assert(text[0] != '\0');
        assert(text =~= seq![text[0]] + utf16_lossy(rest));
        if text.contains('\0') {
            let j = choose|j: int| 0 <= j < text.len() && text[j] == '\0';
            assert(utf16_lossy(rest)[j - 1] == '\0');
        }
    }
}

/// What `decode` reads from a buffer holds no NUL.
pub proof fn lemma_wide_text_nul_free(units: Seq<u16>)
    ensures
        !wide_text(units).contains('\0'),
        encoded(wide_text(units)) == encode_utf8(wide_text(units)).push(0u8),
{
    lemma_content_len(units);
    lemma_lossy_nul_free(wide_content(units));
}

/// A narrow text as a wide buffer: each byte becomes the unit of the same number.
pub open spec fn widened(bytes: Seq<u8>) -> Seq<u16> {
    Seq::new(bytes.len(), |i: int| bytes[i] as u16)
}

/// A text of ASCII characters without NUL is the same in narrow and in wide
/// form, and comes back unchanged: decoding the payload that `encode` makes
/// of it, widened unit by unit, gives the text again.
pub proof fn lemma_decode_encode(text: Seq<char>)
    requires
        is_ascii_chars(text),
        !text.contains('\0'),
    ensures
        wide_text(widened(encoded(text))) == text,
{
    let bytes = encode_utf8(text);
    let units = widened(encoded(text));
    let n = text.len() as int;
    is_ascii_chars_encode_utf8(text);
    assert forall|i: int| 0 <= i < n implies units[i] == text[i] as u16 && units[i] != 0 by {
        assert(bytes[i] == text[i] as u8);
        assert('\0' <= text[i] <= '\u{7f}');
        if text[i] == '\0' {
            assert(text.contains('\0'));
        }
    }
    assert(units[n] == 0);
    lemma_content_len_unique(units, n);
    let content = wide_content(units);
    assert forall|i: int| 0 <= i < content.len() implies is_plain_unit(content[i]) by {
        assert(content[i] == text[i] as u16);
    }
    lemma_lossy_plain(content);
    assert(wide_text(units) =~= text);
}

} // verus!
