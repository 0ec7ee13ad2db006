//! Presentation configuration of one slot.
//!
//! The draw primitive of the rendering host takes, per slot, an image, an
//! optional label, a tooltip, one color per visual role and state, frame
//! metrics, a sensing mode and tooltip placement.  Here that bundle is a
//! plain record over named palette roles and whole units; the host resolves
//! each role against the active theme's palette when it draws.

use vstd::prelude::*;

verus! {

/// The images the demo ships with.
#[derive(Clone, Copy, Debug, PartialEq, Eq, Structural)]
pub enum ImageId {
    TestTube,
    Clock,
    Waves,
    Gear,
    GearLight,
    Article,
}

/// A named color role of the active palette.  `Dim` variants stand for the
/// role's color at half brightness, the `Faint` variants for a nearly
/// transparent red, from faintest up; the host computes those from the
/// palette when it resolves the role.
#[derive(Clone, Copy, Debug, PartialEq, Eq, Structural)]
pub enum ColorRole {
    Base,
    Crust,
    Mantle,
    Text,
    TextDim,
    Subtext0,
    Surface0,
    Surface2,
    Overlay0,
    Overlay2,
    Red,
    RedFaint,
    RedSoft,
    RedStrong,
    Maroon,
    Mauve,
    Teal,
    Blue,
    Green,
    GreenDim,
    Yellow,
}

/// One color role per interaction state of a slot.
#[derive(Clone, Copy, Debug, PartialEq, Eq, Structural)]
pub struct StateColors {
    pub normal: ColorRole,
    pub selected: ColorRole,
    pub hovered: ColorRole,
}

/// Which part of a slot's rectangle takes part in hit-testing.
#[derive(Clone, Copy, Debug, PartialEq, Eq, Structural)]
pub enum SenseMode {
    /// The whole frame senses the pointer.
    Frame,
    /// Only the image and the label sense the pointer.
    ImageAndText,
}

/// Where a slot's tooltip is placed relative to the slot.
#[derive(Clone, Copy, Debug, PartialEq, Eq, Structural)]
pub enum TooltipPlacement {
    Bottom,
}

/// A width and a height in whole units.
#[derive(Clone, Copy, Debug, PartialEq, Eq, Structural)]
pub struct Extent {
    pub width: i64,
    pub height: i64,
}

/// Everything the draw primitive needs to present one slot, except for the
/// slot's rectangle and its current flags.  Sizes and gaps are whole units;
/// the hover scale is in percent.
#[derive(Clone, Copy, Debug, PartialEq, Eq, Structural)]
pub struct SlotStyle {
    /// A disabled slot is drawn but never reports interaction.
    pub enabled: bool,
    /// Image extent; the host's default when absent.
    pub img_size: Option<Extent>,
    /// Image magnification while hovered, in percent of its normal size.
    pub img_scale_hover_percent: u32,
    /// Label glyph size; the host's default when zero.
    pub text_size: u32,
    /// Vertical distance between image and label.
    pub img_text_gap: u32,
    pub background: StateColors,
    pub img_tint: StateColors,
    /// Label colors; the host's default when absent.
    pub text_color: Option<StateColors>,
    pub frame_color: StateColors,
    pub frame_size: Extent,
    pub frame_width: u32,
    /// Corner rounding; the host's default when absent.
    pub corner_radius: Option<u8>,
    /// Hit-test area; the host's default when absent.
    pub sense: Option<SenseMode>,
    pub tooltip_gap: u32,
    /// Tooltip placement; the host's default when absent.
    pub tooltip_placement: Option<TooltipPlacement>,
}

} // verus!
