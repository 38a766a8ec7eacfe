use vstd::prelude::*;

verus! {

/// How a long piece of text is shown: cut with an ellipsis, wrapped, or scrolled.
#[derive(Debug, Clone, Copy, PartialEq, Eq, Structural)]
pub enum TextDisplayMode {
    Ellipsis,
    Wrap,
    Marquee,
}

/// The number under which a mode is stored in the settings.
pub open spec fn text_display_mode_code(mode: TextDisplayMode) -> u32 {
    match mode {
        TextDisplayMode::Ellipsis => 0,
        TextDisplayMode::Wrap => 1,
        TextDisplayMode::Marquee => 2,
    }
}

/// The mode stored under a number; unknown numbers fall back to `Ellipsis`.
pub open spec fn text_display_mode_of(value: u32) -> TextDisplayMode {
    if value == 1 {
        TextDisplayMode::Wrap
    } else if value == 2 {
        TextDisplayMode::Marquee
    } else {
        TextDisplayMode::Ellipsis
    }
}

impl TextDisplayMode {
    /// The default mode is `Ellipsis`.
    pub fn default() -> (res: Self)
        ensures
            res == TextDisplayMode::Ellipsis,
    {
        TextDisplayMode::Ellipsis
    }

    /// Reads a stored number.
    pub fn from_u32(value: u32) -> (res: Self)
        ensures
            res == text_display_mode_of(value),
    {
        match value {
            0 => TextDisplayMode::Ellipsis,
            1 => TextDisplayMode::Wrap,
            2 => TextDisplayMode::Marquee,
            _ => TextDisplayMode::Ellipsis,
        }
    }

    /// The number to store.
    pub fn to_u32(self) -> (res: u32)
        ensures
            res == text_display_mode_code(self),
    {
        match self {
            TextDisplayMode::Ellipsis => 0,
            TextDisplayMode::Wrap => 1,
            TextDisplayMode::Marquee => 2,
        }
    }
}

} // verus!
