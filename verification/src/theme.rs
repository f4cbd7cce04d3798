//! The colours that change with the state of a widget.
use vstd::prelude::*;

verus! {

/// A colour given by its red, green and blue components.
#[derive(Debug, Clone, Copy, PartialEq, Eq, Structural)]
pub struct Rgb {
    pub r: u8,
    pub g: u8,
    pub b: u8,
}

/// The state of a button.
#[derive(Debug, Clone, Copy, PartialEq, Eq, Structural)]
pub enum ButtonStatus {
    Active,
    Hovered,
    Pressed,
    Disabled,
}

/// The state of a text box.
#[derive(Debug, Clone, Copy, PartialEq, Eq, Structural)]
pub enum InputStatus {
    Active,
    Hovered,
    Focused,
    Disabled,
}

/// The state of a tab label.
#[derive(Debug, Clone, Copy, PartialEq, Eq, Structural)]
pub enum TabStatus {
    Active,
    Inactive,
}

/// The colour with the components `r`, `g` and `b`.
pub open spec fn rgb(r: u8, g: u8, b: u8) -> Rgb {
    Rgb { r, g, b }
}

/// The background of a main button (violet), lighter when hovered and darker when pressed.
pub fn primary_button_background(status: ButtonStatus) -> (c: Rgb)
    ensures
        c == match status {
            ButtonStatus::Hovered => rgb(0x8A, 0x7C, 0xC0),
            ButtonStatus::Pressed => rgb(0x5C, 0x50, 0x8C),
            _ => rgb(0x74, 0x66, 0xB0),
        },
{
    match status {
        ButtonStatus::Hovered => Rgb { r: 0x8A, g: 0x7C, b: 0xC0 },
        ButtonStatus::Pressed => Rgb { r: 0x5C, g: 0x50, b: 0x8C },
        _ => Rgb { r: 0x74, g: 0x66, b: 0xB0 },
    }
}

/// The background of a secondary button (dark), lighter when hovered and darker when pressed.
pub fn secondary_button_background(status: ButtonStatus) -> (c: Rgb)
    ensures
        c == match status {
            ButtonStatus::Hovered => rgb(0x2E, 0x24, 0x3C),
            ButtonStatus::Pressed => rgb(0x1A, 0x14, 0x24),
            _ => rgb(0x22, 0x1A, 0x2E),
        },
{
    match status {
        ButtonStatus::Hovered => Rgb { r: 0x2E, g: 0x24, b: 0x3C },
        ButtonStatus::Pressed => Rgb { r: 0x1A, g: 0x14, b: 0x24 },
        _ => Rgb { r: 0x22, g: 0x1A, b: 0x2E },
    }
}

/// The background of the terminal's fold button, lighter when hovered.
pub fn toggle_background(status: ButtonStatus) -> (c: Rgb)
    ensures
        c == match status {
            ButtonStatus::Hovered => rgb(0x2E, 0x24, 0x3C),
            _ => rgb(0x22, 0x1A, 0x2E),
        },
{
    match status {
        ButtonStatus::Hovered => Rgb { r: 0x2E, g: 0x24, b: 0x3C },
        _ => Rgb { r: 0x22, g: 0x1A, b: 0x2E },
    }
}

/// The border of a text box: violet while it has the focus.
pub fn input_border(status: InputStatus) -> (c: Rgb)
    ensures
        c == match status {
            InputStatus::Focused => rgb(0x74, 0x66, 0xB0),
            _ => rgb(0x3A, 0x30, 0x48),
        },
{
    match status {
        InputStatus::Focused => Rgb { r: 0x74, g: 0x66, b: 0xB0 },
        _ => Rgb { r: 0x3A, g: 0x30, b: 0x48 },
    }
}

/// The background of a tab label: lighter for the active tab.
pub fn tab_label_background(status: TabStatus) -> (c: Rgb)
    ensures
        c == match status {
            TabStatus::Active => rgb(0x6E, 0x64, 0x7C),
            TabStatus::Inactive => rgb(0x5A, 0x51, 0x68),
        },
{
    match status {
        TabStatus::Active => Rgb { r: 0x6E, g: 0x64, b: 0x7C },
        TabStatus::Inactive => Rgb { r: 0x5A, g: 0x51, b: 0x68 },
    }
}

} // verus!
