//! The colour roles of the frontend.
//!
//! Cells and widgets name a palette role; the renderer decides which exact colour
//! each role is drawn with.
use vstd::prelude::*;

verus! {

/// A palette role. `White` is the neutral foreground of blank cells.
#[derive(Clone, Copy, PartialEq, Eq, Debug, Structural)]
pub enum Color {
    White,
    Background,
    Panel,
    Border,
    Primary,
    Accent,
    Success,
    Danger,
    Warning,
    Text,
    Dim,
}

/// Which palette role each part of the interface is drawn with.
#[derive(Clone, Copy)]
pub struct Theme {
    pub background: Color,
    pub panel: Color,
    pub border: Color,
    pub primary: Color,
    pub accent: Color,
    pub success: Color,
    pub danger: Color,
    pub warning: Color,
    pub text: Color,
    pub dim: Color,
}

impl Default for Theme {
    /// Every part of the interface uses the role of the same name.
    fn default() -> (t: Self)
        ensures
            t.background == Color::Background,
            t.panel == Color::Panel,
            t.border == Color::Border,
            t.primary == Color::Primary,
            t.accent == Color::Accent,
            t.success == Color::Success,
            t.danger == Color::Danger,
            t.warning == Color::Warning,
            t.text == Color::Text,
            t.dim == Color::Dim,
    {
        Theme {
            background: Color::Background,
            panel: Color::Panel,
            border: Color::Border,
            primary: Color::Primary,
            accent: Color::Accent,
            success: Color::Success,
            danger: Color::Danger,
            warning: Color::Warning,
            text: Color::Text,
            dim: Color::Dim,
        }
    }
}

} // verus!
