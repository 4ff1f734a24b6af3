//! Plain text layout enumerations and glyph identifiers.
use vstd::prelude::*;

verus! {

/// Text direction for BiDi support.
#[derive(Debug, Clone, Copy, PartialEq, Eq, Structural)]
pub enum TextDirection {
    LeftToRight,
    RightToLeft,
}

/// Text alignment options.
#[derive(Debug, Clone, Copy, PartialEq, Eq, Structural)]
pub enum TextAlign {
    Left,
    Right,
    Center,
    Justify,
}

/// Word breaking strategy.
#[derive(Debug, Clone, Copy, PartialEq, Eq, Structural)]
pub enum WordBreak {
    Normal,
    BreakAll,
    KeepAll,
}

/// Text overflow handling.
#[derive(Debug, Clone, Copy, PartialEq, Eq, Structural)]
pub enum TextOverflow {
    Clip,
    Ellipsis,
    Fade,
}

/// A glyph identifier within a font.
#[derive(Debug, Clone, Copy, PartialEq, Eq, Hash, Structural)]
pub struct GlyphId(pub u32);

} // verus!
