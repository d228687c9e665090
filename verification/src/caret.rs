//! The native caret that input methods of some languages follow.
use crate::saturate::{self, saturate_i32};
use vstd::prelude::*;

verus! {

/// The identity of the window hook that watches for input language changes.
pub const OFFSCREEN_IME_SUBCLASS_ID: usize = 125;

/// The message that the input language has changed.
pub const WM_INPUTLANGCHANGE: u32 = 0x0051;

/// The message that the window has got the focus.
pub const WM_SETFOCUS: u32 = 0x0007;

pub const LANG_CHINESE: u16 = 0x04;

pub const LANG_JAPANESE: u16 = 0x11;

/// After which messages the window is given the input language's default input
/// context again.
pub fn restores_ime_context(message: u32) -> (restore: bool)
    ensures
        restore == (message == WM_INPUTLANGCHANGE || message == WM_SETFOCUS),
{
    message == WM_INPUTLANGCHANGE || message == WM_SETFOCUS
}

/// The primary language of a keyboard layout handle: its ten lowest bits.
pub fn primary_input_language(layout: usize) -> (language: u16)
    ensures
        language == layout % 0x400,
{
    let wide: u64 = layout as u64;
    assert((wide as u16) & 0x03ff == wide % 0x400) by (bit_vector);
    #[verifier::truncate]
    let language_id: u16 = wide as u16;
    language_id & 0x03ff
}

/// The input methods of these languages follow the native caret.
pub open spec fn follows_caret(language: u16) -> bool {
    language == LANG_CHINESE || language == LANG_JAPANESE
}

/// Whether to create a native caret for the language.
pub fn create_offscreen_ime_caret(language: u16) -> (create: bool)
    ensures
        create == follows_caret(language),
{
    language == LANG_CHINESE || language == LANG_JAPANESE
}

/// The number whose two's complement pattern is that of `value`.
pub open spec fn reinterpreted(value: u32) -> int {
    if value <= i32::MAX {
        value as int
    } else {
        value - 0x1_0000_0000
    }
}

/// Where the native caret is put for a cursor area.
pub open spec fn caret_position(language: u16, x: i32, y: i32, height: u32) -> (int, int) {
    (
        x as int,
        if language == LANG_JAPANESE {
            saturate::saturated(y + reinterpreted(height), i32::MIN as int, i32::MAX as int)
        } else {
            y as int
        },
    )
}

/// Where to put the native caret for a cursor area: in its upper left corner,
/// or in its lower left one for Japanese.
pub fn position_offscreen_ime_caret(language: u16, x: i32, y: i32, height: u32) -> (position: (
    i32,
    i32,
))
    ensures
        position.0 == x,
        position.1 == if language == LANG_JAPANESE {
            saturate::saturated(y + reinterpreted(height), i32::MIN as int, i32::MAX as int)
        } else {
            y as int
        },
        position.0 == caret_position(language, x, y, height).0,
        position.1 == caret_position(language, x, y, height).1,
{
    if language == LANG_JAPANESE {
        let offset: i64 = if height <= i32::MAX as u32 {
            height as i64
        } else {
            height as i64 - 0x1_0000_0000
        };
        (x, saturate_i32(y as i64 + offset))
    } else {
        (x, y)
    }
}

/// The input methods of Chinese, whose number is four, and of Japanese, whose
/// number is seventeen, follow the native caret, and no others.
pub proof fn law_two_languages_follow_the_caret(language: u16)
    ensures
        follows_caret(language) <==> language == 4 || language == 17,
        LANG_JAPANESE == 17,
{
}

/// A height that fits in thirty-one bits counts as it is; any other counts as
/// negative, and equals the height up to two to the power of thirty-two.
pub proof fn law_heights_are_signed(height: u32)
    ensures
        -0x8000_0000 <= reinterpreted(height) <= 0x7fff_ffff,
        reinterpreted(height) == height || reinterpreted(height) + 0x1_0000_0000 == height,
{
}

/// The native caret is put into the area's upper left corner, and for Japanese
/// below the area, as far down as coordinates go.
pub proof fn law_caret_stands_at_the_area(language: u16, x: i32, y: i32, height: u32)
    ensures
        caret_position(language, x, y, height).0 == x,
        language != 17 ==> caret_position(language, x, y, height).1 == y,
        language == 17 && height <= 0x7fff_ffff && y + height <= 0x7fff_ffff ==> caret_position(
            language,
            x,
            y,
            height,
        ).1 == y + height,
        language == 17 && height <= 0x7fff_ffff && y + height > 0x7fff_ffff ==> caret_position(
            language,
            x,
            y,
            height,
        ).1 == 0x7fff_ffff,
        language == 17 && height > 0x7fff_ffff && y + height >= 0x8000_0000 ==> caret_position(
            language,
            x,
            y,
            height,
        ).1 == y + height - 0x1_0000_0000,
        language == 17 && height > 0x7fff_ffff && y + height < 0x8000_0000 ==> caret_position(
            language,
            x,
            y,
            height,
        ).1 == -0x8000_0000,
{
}

} // verus!
