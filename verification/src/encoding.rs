//! How bytes are written inside a URL, and what a reader makes of them.
use crate::text::digit;
use vstd::prelude::*;
use vstd::utf8::{encode_utf8, leading_byte_width_1};

verus! {

/// The upper-case hexadecimal digit of a number below sixteen.
pub open spec fn hex_digit(n: int) -> char {
    if n < 10 {
        digit(n)
    } else {
        ('A' as u32 + (n - 10)) as char
    }
}

/// A byte behind a percent sign, in two hexadecimal digits.
pub open spec fn percent(byte: u8) -> Seq<char> {
    seq!['%', hex_digit(byte as int / 16), hex_digit(byte as int % 16)]
}

/// The ASCII letters and digits.
pub open spec fn is_alphanumeric(byte: u8) -> bool {
    0x30 <= byte <= 0x39 || 0x41 <= byte <= 0x5A || 0x61 <= byte <= 0x7A
}

/// The bytes that a form value holds as they are: letters, digits and `*-._`.
pub open spec fn form_keeps(byte: u8) -> bool {
    is_alphanumeric(byte) || byte == 0x2A || byte == 0x2D || byte == 0x2E || byte == 0x5F
}

/// A byte of a form value: a space is a plus sign.
pub open spec fn form_byte(byte: u8) -> Seq<char> {
    if form_keeps(byte) {
        seq![byte as char]
    } else if byte == 0x20 {
        seq!['+']
    } else {
        percent(byte)
    }
}

/// Bytes as a form value (`application/x-www-form-urlencoded`).
pub open spec fn form_encoded(bytes: Seq<u8>) -> Seq<char>
    decreases bytes.len(),
{
    if bytes.len() == 0 {
        Seq::empty()
    } else {
        form_byte(bytes[0]) + form_encoded(bytes.drop_first())
    }
}

/// The bytes that a component of a URL holds as they are: letters, digits and `-._~`.
pub open spec fn component_keeps(byte: u8) -> bool {
    is_alphanumeric(byte) || byte == 0x2D || byte == 0x2E || byte == 0x5F || byte == 0x7E
}

/// A byte of a component of a URL.
pub open spec fn component_byte(byte: u8) -> Seq<char> {
    if component_keeps(byte) {
        seq![byte as char]
    } else {
        percent(byte)
    }
}

/// Bytes as a component of a URL (percent-encoded).
pub open spec fn component_encoded(bytes: Seq<u8>) -> Seq<char>
    decreases bytes.len(),
{
    if bytes.len() == 0 {
        Seq::empty()
    } else {
        component_byte(bytes[0]) + component_encoded(bytes.drop_first())
    }
}

/// The number of an upper-case hexadecimal digit.
pub open spec fn hex_value(c: char) -> int {
    if c <= '9' {
        c as int - '0' as int
    } else {
        c as int - 'A' as int + 10
    }
}

/// The bytes that a reader finds in a text that was written byte by byte, with percent signs in
/// front of hexadecimal digits. `plus` is what a plus sign stands for.
pub open spec fn read_back(s: Seq<char>, plus: u8) -> Seq<u8>
    decreases s.len(),
{
    if s.len() == 0 {
        Seq::empty()
    } else if s[0] == '%' && s.len() >= 3 {
        seq![(16 * hex_value(s[1]) + hex_value(s[2])) as u8] + read_back(s.skip(3), plus)
    } else if s[0] == '+' {
        seq![plus] + read_back(s.skip(1), plus)
    } else {
        seq![s[0] as u8] + read_back(s.skip(1), plus)
    }
}

/// What a reader makes of one percent-encoded byte.
proof fn lemma_read_percent(byte: u8, rest: Seq<char>, plus: u8)
    ensures
        read_back(percent(byte) + rest, plus) == seq![byte] + read_back(rest, plus),
{
    let s = percent(byte) + rest;
    let high = byte as int / 16;
    let low = byte as int % 16;
    assert(s[0] == '%' && s[1] == hex_digit(high) && s[2] == hex_digit(low));
    assert(s.skip(3) =~= rest);
    assert(hex_value(hex_digit(high)) == high);
    assert(hex_value(hex_digit(low)) == low);
    assert(16 * high + low == byte);
}

/// What a reader makes of one character that stands for itself.
proof fn lemma_read_plain(c: char, rest: Seq<char>, plus: u8)
    requires
        c != '%',
        c != '+',
    ensures
        read_back(seq![c] + rest, plus) == seq![c as u8] + read_back(rest, plus),
{
    let s = seq![c] + rest;
    assert(s[0] == c);
    assert(s.skip(1) =~= rest);
}

/// A form value gives back the bytes that were written.
pub proof fn law_form_value_reads_back(bytes: Seq<u8>)
    ensures
        read_back(form_encoded(bytes), 0x20) == bytes,
    decreases bytes.len(),
{
    if bytes.len() > 0 {
        let rest = form_encoded(bytes.drop_first());
        law_form_value_reads_back(bytes.drop_first());
        let byte = bytes[0];
        if form_keeps(byte) {
            lemma_read_plain(byte as char, rest, 0x20);
        } else if byte == 0x20 {
            let s = seq!['+'] + rest;
            assert(s[0] == '+');
            assert(s.skip(1) =~= rest);
        } else {
            lemma_read_percent(byte, rest, 0x20);
        }
        assert(seq![byte] + bytes.drop_first() =~= bytes);
    }
}

/// A component of a URL gives back the bytes that were written.
pub proof fn law_component_reads_back(bytes: Seq<u8>)
    ensures
        read_back(component_encoded(bytes), 0x2B) == bytes,
    decreases bytes.len(),
{
    if bytes.len() > 0 {
        let rest = component_encoded(bytes.drop_first());
        law_component_reads_back(bytes.drop_first());
        let byte = bytes[0];
        if component_keeps(byte) {
            lemma_read_plain(byte as char, rest, 0x2B);
        } else {
            lemma_read_percent(byte, rest, 0x2B);
        }
        assert(seq![byte] + bytes.drop_first() =~= bytes);
    }
}

/// Whether a character is an ASCII letter or digit.
pub open spec fn is_plain(c: char) -> bool {
    '0' <= c && c <= '9' || 'A' <= c && c <= 'Z' || 'a' <= c && c <= 'z'
}

/// Letters and digits are their own form value.
pub proof fn law_plain_text_is_its_form_value(text: Seq<char>)
    requires
        forall|i: int| 0 <= i < text.len() ==> is_plain(#[trigger] text[i]),
    ensures
        form_encoded(encode_utf8(text)) == text,
    decreases text.len(),
{
    if text.len() > 0 {
        let rest = text.drop_first();
        assert forall|i: int| 0 <= i < rest.len() implies is_plain(#[trigger] rest[i]) by {
            assert(rest[i] == text[i + 1]);
        }
        law_plain_text_is_its_form_value(rest);
        assert(is_plain(text[0]));
        let c = text[0] as u32;
        assert(c as u8 == leading_byte_width_1(c) && c < 0x80) by (bit_vector)
            requires
                c <= 0x7A,
        ;
        let bytes = encode_utf8(text);
        assert(bytes =~= seq![c as u8] + encode_utf8(rest));
        assert(bytes.drop_first() =~= encode_utf8(rest));
        assert(form_byte(bytes[0]) =~= seq![text[0]]);
        assert(seq![text[0]] + rest =~= text);
    }
}

/// The characters that an encoded text is made of: none of them ends a value, a query or a
/// fragment.
pub open spec fn is_value_char(c: char) -> bool {
    ||| '0' <= c && c <= '9'
    ||| 'A' <= c && c <= 'Z'
    ||| 'a' <= c && c <= 'z'
    ||| c == '*' || c == '-' || c == '.' || c == '_' || c == '~' || c == '+' || c == '%'
}

/// Whether a text is made of value characters.
pub open spec fn is_value_text(text: Seq<char>) -> bool {
    forall|i: int| 0 <= i < text.len() ==> is_value_char(#[trigger] text[i])
}

/// A form value holds value characters only, so that no byte of what was written can be taken for
/// a separator.
pub proof fn law_form_value_is_confined(bytes: Seq<u8>)
    ensures
        forall|i: int|
            0 <= i < form_encoded(bytes).len() ==> is_value_char(#[trigger] form_encoded(bytes)[i]),
    decreases bytes.len(),
{
    if bytes.len() > 0 {
        let head = form_byte(bytes[0]);
        law_form_value_is_confined(bytes.drop_first());
        let tail = form_encoded(bytes.drop_first());
        assert forall|i: int| 0 <= i < form_encoded(bytes).len() implies is_value_char(
            #[trigger] form_encoded(bytes)[i],
        ) by {
            if i < head.len() {
                assert(form_encoded(bytes)[i] == head[i]);
            } else {
                assert(form_encoded(bytes)[i] == tail[i - head.len()]);
            }
        }
    }
}

/// A component holds value characters only.
pub proof fn law_component_is_confined(bytes: Seq<u8>)
    ensures
        forall|i: int|
            0 <= i < component_encoded(bytes).len() ==> is_value_char(
                #[trigger] component_encoded(bytes)[i],
            ),
    decreases bytes.len(),
{
    if bytes.len() > 0 {
        let head = component_byte(bytes[0]);
        law_component_is_confined(bytes.drop_first());
        let tail = component_encoded(bytes.drop_first());
        assert forall|i: int| 0 <= i < component_encoded(bytes).len() implies is_value_char(
            #[trigger] component_encoded(bytes)[i],
        ) by {
            if i < head.len() {
                assert(component_encoded(bytes)[i] == head[i]);
            } else {
                assert(component_encoded(bytes)[i] == tail[i - head.len()]);
            }
        }
    }
}

} // verus!
