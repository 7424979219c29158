//! Unicode characters to CP437 bytes, and the IBM VGA 8 × 16 glyph rows, both from
//! `neovision_core`.
use vstd::prelude::*;

verus! {

/// The CP437 byte that `neovision_core::cp437::from_char` gives for `ch`, if any.
pub uninterp spec fn cp437_lookup(ch: char) -> Option<u8>;

/// The 16 rows of the VGA 8 × 16 glyph with CP437 byte `index`, as
/// `neovision_core::font::glyph` gives them (bit 7 of a row is its leftmost pixel).
pub uninterp spec fn vga_glyph(index: u8) -> Seq<u8>;

/// Calls `neovision_core::cp437::from_char`. Claimed of it: the result is
/// `cp437_lookup(ch)`, and a space or a printable ASCII character (`0x21..=0x7E`)
/// maps to its own code. The remaining 256-entry table is not restated.
#[verifier::external_body]
fn from_char(ch: char) -> (byte: Option<u8>)
    ensures
        byte == cp437_lookup(ch),
        ascii_printable(ch) ==> byte == Some(ch as u8),
{
    neovision_core::cp437::from_char(ch)
}

/// Calls `neovision_core::font::glyph` and copies the 16 rows it refers to.
/// Claimed of it: the rows are `vga_glyph(index)`; the bitmap data is not restated.
#[verifier::external_body]
pub(crate) fn glyph(index: u8) -> (rows: [u8; 16])
    ensures
        rows@ == vga_glyph(index),
{
    *neovision_core::font::glyph(index)
}

/// The presentation fallback for characters that CP437 cannot represent.
pub open spec fn fallback_spec(ch: char) -> u8 {
    match ch {
        '⚔' => 0x2B,
        '◈' => 0x04,
        '✦' => 0x2A,
        '♥' => 0x03,
        '♠' => 0x06,
        '♣' => 0x05,
        '♦' => 0x04,
        '†' | '‡' => 0x2B,
        '★' | '☆' => 0x2A,
        '●' => 0x07,
        '○' => 0x09,
        '■' | '□' => 0xFE,
        '◆' | '◇' => 0x04,
        '✓' => 0x76,
        '✗' | '✘' => 0x78,
        '⌂' => 0x7F,
        _ => 0x3F,
    }
}

/// A space or a printable ASCII character (`0x21..=0x7E`): CP437 shares these codes
/// with ASCII.
pub open spec fn ascii_printable(ch: char) -> bool {
    ch as u32 == 0x20 || (0x21 <= ch as u32 && ch as u32 <= 0x7E)
}

/// The byte drawn for `ch`: its own code for a space or printable ASCII character;
/// otherwise its CP437 code when there is one, its fallback when there is none.
pub open spec fn cp437_byte(ch: char) -> u8 {
    if ascii_printable(ch) {
        ch as u8
    } else {
        match cp437_lookup(ch) {
            Some(byte) => byte,
            None => fallback_spec(ch),
        }
    }
}

/// The presentation fallback for `ch`: weapons and daggers become `+`, stars `*`,
/// diamonds the CP437 diamond, check and cross marks `v` and `x`, anything else `?`.
pub fn fallback_cp437(ch: char) -> (byte: u8)
    ensures
        byte == fallback_spec(ch),
{
    match ch {
        '⚔' => 0x2B,
        '◈' => 0x04,
        '✦' => 0x2A,
        '♥' => 0x03,
        '♠' => 0x06,
        '♣' => 0x05,
        '♦' => 0x04,
        '†' | '‡' => 0x2B,
        '★' | '☆' => 0x2A,
        '●' => 0x07,
        '○' => 0x09,
        '■' | '□' => 0xFE,
        '◆' | '◇' => 0x04,
        '✓' => 0x76,
        '✗' | '✘' => 0x78,
        '⌂' => 0x7F,
        _ => 0x3F,
    }
}

/// The byte drawn for `ch`.
pub fn to_cp437(ch: char) -> (byte: u8)
    ensures
        byte == cp437_byte(ch),
        ascii_printable(ch) ==> byte == ch as u8,
{
    match from_char(ch) {
        Some(byte) => byte,
        None => fallback_cp437(ch),
    }
}

/// The presentation fallbacks, by kind of symbol: stars become `*`; swords and
/// daggers `+`; diamonds the CP437 diamond (`0x04`); the card suits their CP437
/// suits (hearts `0x03`, clubs `0x05`, spades `0x06`); the filled and hollow circle
/// the CP437 bullet (`0x07`) and ring (`0x09`); squares the CP437 block (`0xFE`);
/// the check mark `v`, cross marks `x`, the house the CP437 house (`0x7F`); every
/// other character `?`.
pub proof fn lemma_fallback_groups(ch: char)
    ensures
        (ch == '✦' || ch == '★' || ch == '☆') ==> fallback_spec(ch) == 0x2Au8,
        (ch == '⚔' || ch == '†' || ch == '‡') ==> fallback_spec(ch) == 0x2Bu8,
        (ch == '◈' || ch == '♦' || ch == '◆' || ch == '◇') ==> fallback_spec(ch) == 0x04u8,
        ch == '♥' ==> fallback_spec(ch) == 0x03u8,
        ch == '♣' ==> fallback_spec(ch) == 0x05u8,
        ch == '♠' ==> fallback_spec(ch) == 0x06u8,
        ch == '●' ==> fallback_spec(ch) == 0x07u8,
        ch == '○' ==> fallback_spec(ch) == 0x09u8,
        (ch == '■' || ch == '□') ==> fallback_spec(ch) == 0xFEu8,
        ch == '✓' ==> fallback_spec(ch) == 0x76u8,
        (ch == '✗' || ch == '✘') ==> fallback_spec(ch) == 0x78u8,
        ch == '⌂' ==> fallback_spec(ch) == 0x7Fu8,
        !(ch == '✦' || ch == '★' || ch == '☆' || ch == '⚔' || ch == '†' || ch == '‡' || ch == '◈'
            || ch == '♦' || ch == '◆' || ch == '◇' || ch == '♥' || ch == '♣' || ch == '♠'
            || ch == '●' || ch == '○' || ch == '■' || ch == '□' || ch == '✓' || ch == '✗'
            || ch == '✘' || ch == '⌂') ==> fallback_spec(ch) == 0x3Fu8,
{
}

} // verus!
