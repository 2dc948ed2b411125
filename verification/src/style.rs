//! The custom button style: a stateless configuration record that the
//! rendering collaborator reads when it paints the two buttons. The
//! numbers are the ones handed to the toolkit, kept here as given.

use vstd::prelude::*;

verus! {

/// A color, as the three channel numbers the style hands to the toolkit.
#[derive(Clone, Copy, Debug, PartialEq, Eq, Structural)]
pub struct Rgb {
    pub red: u8,
    pub green: u8,
    pub blue: u8,
}

/// The look of a button: shadow offset, background and border colors,
/// border shape, and text color.
#[derive(Clone, Copy, Debug, PartialEq, Eq, Structural)]
pub struct ButtonStyle {
    pub shadow_offset_x: i32,
    pub shadow_offset_y: i32,
    pub background: Rgb,
    pub border_radius: u32,
    pub border_width: u32,
    pub text_color: Rgb,
    pub border_color: Rgb,
}

/// The one style both counter buttons are drawn with.
pub open spec fn active_button_style() -> ButtonStyle {
    ButtonStyle {
        shadow_offset_x: 0,
        shadow_offset_y: 0,
        background: Rgb { red: 191, green: 221, blue: 255 },
        border_radius: 25,
        border_width: 50,
        text_color: Rgb { red: 255, green: 255, blue: 255 },
        border_color: Rgb { red: 0, green: 0, blue: 0 },
    }
}

/// The style sheet for the counter's buttons. It has a single variant,
/// used for the active state of both buttons.
pub struct MyButtonStyle;

impl MyButtonStyle {
    /// The style of a button at rest.
    pub fn active(&self) -> (s: ButtonStyle)
        ensures
            s == active_button_style(),
    {
        ButtonStyle {
            shadow_offset_x: 0,
            shadow_offset_y: 0,
            background: Rgb { red: 191, green: 221, blue: 255 },
            border_radius: 25,
            border_width: 50,
            text_color: Rgb { red: 255, green: 255, blue: 255 },
            border_color: Rgb { red: 0, green: 0, blue: 0 },
        }
    }
}

} // verus!
