//! The icons the interface shows, and the character of each in the icon font.
use vstd::prelude::*;

verus! {

/// Icons
#[derive(Copy, Clone, Debug, Hash, PartialEq, Eq, Structural)]
pub enum Icon {
    /// arrow-up
    ArrowUp,
    /// arrow-down
    ArrowDown,
    /// arrow-left
    ArrowLeft,
    /// arrow-right
    ArrowRight,
    /// arrow-clockwise
    ArrowClockwise,
    /// arrows-collapse
    ArrowsCollapse,
    /// arrows-expand
    ArrowsExpand,
    /// diamond-fill
    DiamondFill,
    /// diamond
    Diamond,
    /// trash
    Trash,
    /// check
    Check,
    /// check2
    Check2,
    /// x
    X,
    /// brightness-high
    BrightnessHigh,
    /// moon
    Moon,
    /// chevron-expand
    ChevronExpand,
    /// chevron-contract
    ChevronContract,
    /// info-circle
    InfoCircle,
    /// archive
    Archive,
}

/// The place of an icon in the font: the icons are numbered in the order
/// above.
pub open spec fn icon_rank(icon: Icon) -> nat {
    match icon {
        Icon::ArrowUp => 0,
        Icon::ArrowDown => 1,
        Icon::ArrowLeft => 2,
        Icon::ArrowRight => 3,
        Icon::ArrowClockwise => 4,
        Icon::ArrowsCollapse => 5,
        Icon::ArrowsExpand => 6,
        Icon::DiamondFill => 7,
        Icon::Diamond => 8,
        Icon::Trash => 9,
        Icon::Check => 10,
        Icon::Check2 => 11,
        Icon::X => 12,
        Icon::BrightnessHigh => 13,
        Icon::Moon => 14,
        Icon::ChevronExpand => 15,
        Icon::ChevronContract => 16,
        Icon::InfoCircle => 17,
        Icon::Archive => 18,
    }
}

/// Converts an icon into a char: the font holds the icons in order from
/// `'a'` (U+0061) on.
pub fn icon_to_char(icon: Icon) -> (c: char)
    ensures
        c as u32 == 0x61 + icon_rank(icon),
{
    match icon {
        Icon::ArrowUp => '\u{61}',
        Icon::ArrowDown => '\u{62}',
        Icon::ArrowLeft => '\u{63}',
        Icon::ArrowRight => '\u{64}',
        Icon::ArrowClockwise => '\u{65}',
        Icon::ArrowsCollapse => '\u{66}',
        Icon::ArrowsExpand => '\u{67}',
        Icon::DiamondFill => '\u{68}',
        Icon::Diamond => '\u{69}',
        Icon::Trash => '\u{6a}',
        Icon::Check => '\u{6b}',
        Icon::Check2 => '\u{6c}',
        Icon::X => '\u{6d}',
        Icon::BrightnessHigh => '\u{6e}',
        Icon::Moon => '\u{6f}',
        Icon::ChevronExpand => '\u{70}',
        Icon::ChevronContract => '\u{71}',
        Icon::InfoCircle => '\u{72}',
        Icon::Archive => '\u{73}',
    }
}

impl Icon {
    /// The icon as text: its one character.
    pub fn to_string(&self) -> (r: String)
        ensures
            r@.len() == 1,
            r@[0] as u32 == 0x61 + icon_rank(*self),
    {
        let mut r = String::new();
        crate::text::push_char(&mut r, icon_to_char(*self));
        r
    }
}

} // verus!
