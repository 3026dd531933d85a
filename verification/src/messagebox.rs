use vstd::prelude::*;

verus! {

/// The icon of a message box.
#[derive(Clone, Copy, PartialEq, Eq, Structural, Debug)]
pub enum MessageBoxStyle {
    Info,
    Warning,
    Error,
}

/// The buttons of a message box.
#[derive(Clone, Copy, PartialEq, Eq, Structural, Debug)]
pub enum MessageBoxButtons {
    OkCancel,
    YesNo,
}

/// The button a message box was closed with.
#[derive(Clone, Copy, PartialEq, Eq, Structural, Debug)]
pub enum MessageBoxResult {
    Okay,
    Cancel,
    Yes,
    No,
    Dismissed,
}

/// The Windows style flag of an icon: `MB_ICONINFORMATION`,
/// `MB_ICONWARNING` or `MB_ICONERROR`.
pub open spec fn style_flag(style: MessageBoxStyle) -> u32 {
    match style {
        MessageBoxStyle::Info => 0x40,
        MessageBoxStyle::Warning => 0x30,
        MessageBoxStyle::Error => 0x10,
    }
}

/// The Windows style flag of a button set: `MB_OKCANCEL` or `MB_YESNO`.
pub open spec fn buttons_flag(buttons: MessageBoxButtons) -> u32 {
    match buttons {
        MessageBoxButtons::OkCancel => 0x1,
        MessageBoxButtons::YesNo => 0x4,
    }
}

/// The button a Windows message-box return code stands for: `IDOK` (1),
/// `IDCANCEL` (2), `IDYES` (6), `IDNO` (7); any other code is `Dismissed`.
pub open spec fn result_of_code(code: i32) -> MessageBoxResult {
    if code == 1 {
        MessageBoxResult::Okay
    } else if code == 2 {
        MessageBoxResult::Cancel
    } else if code == 6 {
        MessageBoxResult::Yes
    } else if code == 7 {
        MessageBoxResult::No
    } else {
        MessageBoxResult::Dismissed
    }
}

/// The Windows style flag for an icon.
pub fn convert_mbstyle(style: MessageBoxStyle) -> (r: u32)
    ensures
        r == style_flag(style),
{
    match style {
        MessageBoxStyle::Info => 0x40,
        MessageBoxStyle::Warning => 0x30,
        MessageBoxStyle::Error => 0x10,
    }
}

/// The Windows style flag for a button set.
pub fn convert_mbbuttons(button: MessageBoxButtons) -> (r: u32)
    ensures
        r == buttons_flag(button),
{
    match button {
        MessageBoxButtons::OkCancel => 0x1,
        MessageBoxButtons::YesNo => 0x4,
    }
}

/// The button a message-box return code stands for.
pub fn convert_mbresult(result: i32) -> (r: MessageBoxResult)
    ensures
        r == result_of_code(result),
{
    if result == 1 {
        MessageBoxResult::Okay
    } else if result == 2 {
        MessageBoxResult::Cancel
    } else if result == 6 {
        MessageBoxResult::Yes
    } else if result == 7 {
        MessageBoxResult::No
    } else {
        MessageBoxResult::Dismissed
    }
}

/// The full style of a dialog: its icon and button flags combined.
pub fn dialog_style(style: MessageBoxStyle, buttons: MessageBoxButtons) -> (r: u32)
    ensures
        r == style_flag(style) | buttons_flag(buttons),
{
    convert_mbstyle(style) | convert_mbbuttons(buttons)
}

/// Icon flags and button flags occupy different bits, so a dialog's style
/// determines both its icon and its buttons.
pub proof fn dialog_style_is_unambiguous(
    s1: MessageBoxStyle,
    b1: MessageBoxButtons,
    s2: MessageBoxStyle,
    b2: MessageBoxButtons,
)
    requires
        style_flag(s1) | buttons_flag(b1) == style_flag(s2) | buttons_flag(b2),
    ensures
        s1 == s2,
        b1 == b2,
{
    let x1 = style_flag(s1);
    let y1 = buttons_flag(b1);
    let x2 = style_flag(s2);
    let y2 = buttons_flag(b2);
    assert((x1 | y1) & 0xF0 == x1 & 0xF0) by (bit_vector)
        requires y1 == 1 || y1 == 4;
    assert((x2 | y2) & 0xF0 == x2 & 0xF0) by (bit_vector)
        requires y2 == 1 || y2 == 4;
    assert((x1 | y1) & 0x0F == y1) by (bit_vector)
        requires x1 == 0x40 || x1 == 0x30 || x1 == 0x10, y1 == 1 || y1 == 4;
    assert((x2 | y2) & 0x0F == y2) by (bit_vector)
        requires x2 == 0x40 || x2 == 0x30 || x2 == 0x10, y2 == 1 || y2 == 4;
    assert(0x40u32 & 0xF0 == 0x40 && 0x30u32 & 0xF0 == 0x30 && 0x10u32 & 0xF0 == 0x10) by (bit_vector);
}

} // verus!
