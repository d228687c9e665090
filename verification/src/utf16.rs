//! UTF-16 code units of text.
//!
//! The browser counts text in UTF-16 code units, the window system in UTF-8
//! bytes.
use vstd::prelude::*;
use vstd::utf8;

verus! {

/// The code units of one character: the character's number, or a surrogate
/// pair for a number that takes more than sixteen bits.
pub open spec fn encode_char(c: char) -> Seq<u16> {
    let scalar = c as u32;
    if scalar < 0x1_0000 {
        seq![scalar as u16]
    } else {
        seq![
            (0xd800 + (scalar - 0x1_0000) / 0x400) as u16,
            (0xdc00 + (scalar - 0x1_0000) % 0x400) as u16,
        ]
    }
}

/// The code units of a text.
pub open spec fn encode(text: Seq<char>) -> Seq<u16>
    decreases text.len(),
{
    if text.len() == 0 {
        seq![]
    } else {
        encode_char(text[0]) + encode(text.drop_first())
    }
}

/// The characters whose UTF-8 encoding makes up the first `byte` bytes of the
/// text's.
pub open spec fn prefix(text: Seq<char>, byte: int) -> Seq<char> {
    utf8::decode_utf8(utf8::encode_utf8(text).subrange(0, byte))
}

/// How many code units precede the given byte of the text.
pub open spec fn units_before(text: Seq<char>, byte: int) -> nat {
    encode(prefix(text, byte)).len()
}

/// No text has more code units than UTF-8 bytes.
pub proof fn lemma_units_within_bytes(text: Seq<char>)
    ensures
        encode(text).len() <= utf8::encode_utf8(text).len(),
    decreases text.len(),
{
    if text.len() > 0 {
        utf8::char_is_scalar(text[0]);
        lemma_units_within_bytes(text.drop_first());
    }
}

/// The next character's code units come first among those that are left.
proof fn lemma_next_character(text: Seq<char>, index: int)
    requires
        0 <= index < text.len(),
    ensures
        encode(text.skip(index)) == encode_char(text[index]) + encode(text.skip(index + 1)),
        text[index] as u32 <= 0x10_ffff,
{
    utf8::char_is_scalar(text[index]);
    assert(text.skip(index).drop_first() == text.skip(index + 1));
}

/// The code units of a text, in order.
pub fn encode_utf16(text: &str) -> (units: Vec<u16>)
    ensures
        units@ == encode(text@),
{
    let mut units: Vec<u16> = Vec::new();
    assert(text@.skip(0) == text@);
    for c in it: text.chars()
        invariant
            it.seq() == text@,
            units@ + encode(text@.skip(it.index() as int)) == encode(text@),
    {
        proof {
            lemma_next_character(text@, it.index() as int);
        }
        let scalar: u32 = c as u32;
        if scalar < 0x1_0000 {
            units.push(scalar as u16);
        } else {
            units.push((0xd800 + (scalar - 0x1_0000) / 0x400) as u16);
            units.push((0xdc00 + (scalar - 0x1_0000) % 0x400) as u16);
        }
    }
    units
}

/// How many code units a text has.
pub fn utf16_len(text: &str) -> (count: usize)
    ensures
        count == encode(text@).len(),
{
    let bytes: usize = text.as_bytes().len();
    proof {
        lemma_units_within_bytes(text@);
    }
    let mut count: usize = 0;
    assert(text@.skip(0) == text@);
    for c in it: text.chars()
        invariant
            it.seq() == text@,
            encode(text@).len() <= bytes,
            count + encode(text@.skip(it.index() as int)).len() == encode(text@).len(),
    {
        proof {
            lemma_next_character(text@, it.index() as int);
        }
        let width: usize = if (c as u32) < 0x1_0000 { 1 } else { 2 };
        count = count + width;
    }
    count
}

/// How many code units precede the given byte of the text.
pub fn utf16_offset(text: &str, byte: usize) -> (count: usize)
    requires
        utf8::is_char_boundary(utf8::encode_utf8(text@), byte as int),
    ensures
        count == units_before(text@, byte as int),
{
    let (before, _after) = text.split_at(byte);
    proof {
        utf8::encode_utf8_decode_utf8(before@);
    }
    utf16_len(before)
}

proof fn lemma_encode_utf8_concat(a: Seq<char>, b: Seq<char>)
    ensures
        utf8::encode_utf8(a + b) == utf8::encode_utf8(a) + utf8::encode_utf8(b),
    decreases a.len(),
{
    if a.len() == 0 {
        assert(a + b == b);
    } else {
        assert((a + b).drop_first() == a.drop_first() + b);
        lemma_encode_utf8_concat(a.drop_first(), b);
    }
}

/// The code units of two texts, one after the other, are those of the joined
/// text.
pub proof fn law_units_of_joined_texts(a: Seq<char>, b: Seq<char>)
    ensures
        encode(a + b) == encode(a) + encode(b),
    decreases a.len(),
{
    if a.len() == 0 {
        assert(a + b == b);
    } else {
        assert((a + b).drop_first() == a.drop_first() + b);
        law_units_of_joined_texts(a.drop_first(), b);
    }
}

/// The byte at which the character with the given index begins.
pub open spec fn byte_of_char(text: Seq<char>, index: int) -> nat {
    utf8::encode_utf8(text.take(index)).len()
}

/// The code units before the byte where a character begins are those of the
/// characters before it.
pub proof fn law_units_before_a_character(text: Seq<char>, index: int)
    requires
        0 <= index <= text.len(),
    ensures
        units_before(text, byte_of_char(text, index) as int) == encode(text.take(index)).len(),
{
    let head = text.take(index);
    let tail = text.skip(index);
    assert(head + tail == text);
    lemma_encode_utf8_concat(head, tail);
    let byte = byte_of_char(text, index) as int;
    assert(utf8::encode_utf8(text).subrange(0, byte) == utf8::encode_utf8(head));
    utf8::encode_utf8_decode_utf8(head);
}

/// Offsets keep their order from bytes to code units.
pub proof fn law_units_keep_order(text: Seq<char>, first: int, second: int)
    requires
        0 <= first <= second <= text.len(),
    ensures
        byte_of_char(text, first) <= byte_of_char(text, second),
        units_before(text, byte_of_char(text, first) as int) <= units_before(
            text,
            byte_of_char(text, second) as int,
        ),
{
    let head = text.take(first);
    let between = text.take(second).skip(first);
    assert(head + between == text.take(second));
    lemma_encode_utf8_concat(head, between);
    law_units_of_joined_texts(head, between);
    law_units_before_a_character(text, first);
    law_units_before_a_character(text, second);
}

/// All of a text's code units precede its end.
pub proof fn law_units_before_the_end(text: Seq<char>)
    ensures
        units_before(text, utf8::encode_utf8(text).len() as int) == encode(text).len(),
        units_before(text, 0) == 0,
{
    assert(text.take(text.len() as int) == text);
    assert(text.take(0).len() == 0);
    law_units_before_a_character(text, text.len() as int);
    law_units_before_a_character(text, 0);
}

/// At a character boundary, the characters before the byte are the first ones
/// of the text, and they take up just the bytes before it.
pub proof fn law_prefix_ends_at_the_byte(text: Seq<char>, byte: int)
    requires
        utf8::is_char_boundary(utf8::encode_utf8(text), byte),
        0 <= byte <= utf8::encode_utf8(text).len(),
    ensures
        prefix(text, byte).len() <= text.len(),
        prefix(text, byte) == text.take(prefix(text, byte).len() as int),
        byte_of_char(text, prefix(text, byte).len() as int) == byte,
{
    let bytes = utf8::encode_utf8(text);
    utf8::encode_utf8_valid_utf8(text);
    utf8::encode_utf8_decode_utf8(text);
    utf8::valid_utf8_split(bytes, byte);
    utf8::decode_utf8_split(bytes, byte);
    utf8::decode_utf8_encode_utf8(bytes.subrange(0, byte));
    assert(prefix(text, byte) == text.take(prefix(text, byte).len() as int));
}

/// A character whose number takes sixteen bits is one code unit, that number.
/// Any other is a high surrogate, which begins with the bits 110110, and a low
/// one, which begins with 110111; the ten bits that follow in both, put
/// together, are what the number exceeds sixteen bits by.
pub proof fn law_units_of_a_character(c: char)
    ensures
        ({
            let units = encode(seq![c]);
            let scalar = c as int;
            &&& scalar <= 0xffff ==> units.len() == 1 && units[0] == scalar
            &&& scalar > 0xffff ==> {
                &&& units.len() == 2
                &&& 0xd800 <= units[0] < 0xdc00
                &&& 0xdc00 <= units[1] < 0xe000
                &&& (units[0] - 0xd800) * 0x400 + (units[1] - 0xdc00) == scalar - 0x1_0000
            }
        }),
        encode(seq![]).len() == 0,
{
    utf8::char_is_scalar(c);
    assert(seq![c].drop_first().len() == 0);
    reveal_with_fuel(encode, 2);
    assert(encode(seq![c]) == encode_char(c));
}

} // verus!
