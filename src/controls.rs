//! Styles of standard controls.
use vstd::prelude::*;

verus! {

/// Kinds of button.
#[derive(Debug, Clone, Copy, PartialEq, Eq, Structural)]
pub enum ButtonStyle {
    /// A push button.
    Push,
    /// The push button that answers the Enter key.
    Default,
    /// A checkbox.
    Checkbox,
    /// A checkbox that toggles itself.
    AutoCheckbox,
    /// A radio button.
    Radio,
    /// A radio button that selects itself.
    AutoRadio,
    /// A group box.
    GroupBox,
}

/// Button style: push button.
pub const BS_PUSHBUTTON: u32 = 0x0;

/// Button style: default push button.
pub const BS_DEFPUSHBUTTON: u32 = 0x1;

/// Button style: checkbox.
pub const BS_CHECKBOX: u32 = 0x2;

/// Button style: checkbox that toggles itself.
pub const BS_AUTOCHECKBOX: u32 = 0x3;

/// Button style: radio button.
pub const BS_RADIOBUTTON: u32 = 0x4;

/// Button style: group box.
pub const BS_GROUPBOX: u32 = 0x7;

/// Button style: radio button that selects itself.
pub const BS_AUTORADIOBUTTON: u32 = 0x9;

/// The native style bits of each kind of button.
pub open spec fn button_style_bits(s: ButtonStyle) -> u32 {
    match s {
        ButtonStyle::Push => BS_PUSHBUTTON,
        ButtonStyle::Default => BS_DEFPUSHBUTTON,
        ButtonStyle::Checkbox => BS_CHECKBOX,
        ButtonStyle::AutoCheckbox => BS_AUTOCHECKBOX,
        ButtonStyle::Radio => BS_RADIOBUTTON,
        ButtonStyle::AutoRadio => BS_AUTORADIOBUTTON,
        ButtonStyle::GroupBox => BS_GROUPBOX,
    }
}

impl ButtonStyle {
    /// The native style bits of this kind of button.
    pub fn to_style(self) -> (r: u32)
        ensures
            r == button_style_bits(self),
    {
        match self {
            ButtonStyle::Push => BS_PUSHBUTTON,
            ButtonStyle::Default => BS_DEFPUSHBUTTON,
            ButtonStyle::Checkbox => BS_CHECKBOX,
            ButtonStyle::AutoCheckbox => BS_AUTOCHECKBOX,
            ButtonStyle::Radio => BS_RADIOBUTTON,
            ButtonStyle::AutoRadio => BS_AUTORADIOBUTTON,
            ButtonStyle::GroupBox => BS_GROUPBOX,
        }
    }
}

/// Alignment of text in an edit control.
#[derive(Debug, Clone, Copy, PartialEq, Eq, Structural)]
pub enum TextAlign {
    Left,
    Center,
    Right,
}

impl Default for TextAlign {
    fn default() -> (r: TextAlign)
        ensures
            r == TextAlign::Left,
    {
        TextAlign::Left
    }
}

/// Options of an edit control.
#[derive(Debug, Clone, Copy, PartialEq, Eq, Structural)]
pub struct EditStyle {
    /// Several lines of text.
    pub multiline: bool,
    /// Characters are masked.
    pub password: bool,
    /// The text cannot be changed.
    pub readonly: bool,
    /// Only digits are accepted.
    pub number: bool,
    /// Alignment of the text.
    pub align: TextAlign,
    /// Scrolls horizontally as text is typed.
    pub auto_hscroll: bool,
    /// Scrolls vertically as text is typed (several lines only).
    pub auto_vscroll: bool,
}

impl Default for EditStyle {
    /// Every option off, text aligned left.
    fn default() -> (r: EditStyle)
        ensures
            r == (EditStyle {
                multiline: false,
                password: false,
                readonly: false,
                number: false,
                align: TextAlign::Left,
                auto_hscroll: false,
                auto_vscroll: false,
            }),
    {
        EditStyle {
            multiline: false,
            password: false,
            readonly: false,
            number: false,
            align: TextAlign::Left,
            auto_hscroll: false,
            auto_vscroll: false,
        }
    }
}

} // verus!
