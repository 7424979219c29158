//! The glyph palette of the terminal-style frontend: Unicode renderings of the
//! classic CP437 textmode shapes and the RPG symbols used by the scenes.
use vstd::prelude::*;

verus! {

pub const CORNER_TL: &'static str = "┌";
pub const CORNER_TR: &'static str = "┐";
pub const CORNER_BL: &'static str = "└";
pub const CORNER_BR: &'static str = "┘";
pub const HLINE: &'static str = "─";
pub const VLINE: &'static str = "│";
pub const DHLINE: &'static str = "═";
pub const DVLINE: &'static str = "║";
pub const DCORNER_TL: &'static str = "╔";
pub const DCORNER_TR: &'static str = "╗";
pub const DCORNER_BL: &'static str = "╚";
pub const DCORNER_BR: &'static str = "╝";
pub const CROSS: &'static str = "┼";
pub const D_CROSS: &'static str = "╬";

pub const SHADE_LIGHT: &'static str = "░";
pub const SHADE_MEDIUM: &'static str = "▒";
pub const SHADE_DARK: &'static str = "▓";
pub const BLOCK: &'static str = "█";
pub const HALF_TOP: &'static str = "▀";
pub const HALF_BOTTOM: &'static str = "▄";
pub const HALF_LEFT: &'static str = "▌";
pub const HALF_RIGHT: &'static str = "▐";

pub const ARROW_UP: &'static str = "↑";
pub const ARROW_DOWN: &'static str = "↓";
pub const ARROW_LEFT: &'static str = "←";
pub const ARROW_RIGHT: &'static str = "→";
pub const POINTER_RIGHT: &'static str = "▶";
pub const POINTER_LEFT: &'static str = "◀";
pub const POINTER_UP: &'static str = "▲";
pub const POINTER_DOWN: &'static str = "▼";

pub const CHECK: &'static str = "✓";
pub const FAIL: &'static str = "✗";
pub const CRIT_FAIL: &'static str = "✘";
pub const ACTIVE: &'static str = "●";
pub const INACTIVE: &'static str = "○";
pub const SQUARE: &'static str = "■";
pub const EMPTY_SQUARE: &'static str = "□";
pub const DIAMOND: &'static str = "◆";
pub const EMPTY_DIAMOND: &'static str = "◇";
pub const STAR: &'static str = "★";
pub const EMPTY_STAR: &'static str = "☆";

pub const HEART: &'static str = "♥";
pub const SPADE: &'static str = "♠";
pub const CLUB: &'static str = "♣";
pub const CARD_DIAMOND: &'static str = "♦";
pub const SKULL: &'static str = "☠";
pub const SWORDS: &'static str = "⚔";
pub const DAGGER: &'static str = "†";
pub const DOUBLE_DAGGER: &'static str = "‡";
pub const DEGREE: &'static str = "°";
pub const PLUS_MINUS: &'static str = "±";
pub const INFINITY: &'static str = "∞";
pub const MIDDLE_DOT: &'static str = "·";
pub const ELLIPSIS: &'static str = "…";
pub const OPEN_BOX: &'static str = "␣";
pub const SUN: &'static str = "☼";
pub const HOME: &'static str = "⌂";

} // verus!
