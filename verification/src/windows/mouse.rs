//! A mouse click moves the caret without a keyboard event, so every button
//! press flushes the word being composed. Movement, the wheel and releases do
//! not move a text caret and flush nothing.
use vstd::prelude::*;

verus! {

pub const WM_MOUSEMOVE: u32 = 0x0200;
pub const WM_LBUTTONDOWN: u32 = 0x0201;
pub const WM_LBUTTONUP: u32 = 0x0202;
pub const WM_RBUTTONDOWN: u32 = 0x0204;
pub const WM_RBUTTONUP: u32 = 0x0205;
pub const WM_MBUTTONDOWN: u32 = 0x0207;
pub const WM_MOUSEWHEEL: u32 = 0x020A;
pub const WM_NCLBUTTONDOWN: u32 = 0x00A1;
pub const WM_NCRBUTTONDOWN: u32 = 0x00A4;
pub const WM_NCMBUTTONDOWN: u32 = 0x00A7;

/// Whether a mouse message is a button press, in a window's client area or
/// its frame.
pub open spec fn spec_is_button_down(message: u32) -> bool {
    message == WM_LBUTTONDOWN || message == WM_RBUTTONDOWN || message == WM_MBUTTONDOWN
        || message == WM_NCLBUTTONDOWN || message == WM_NCRBUTTONDOWN || message == WM_NCMBUTTONDOWN
}

/// Whether this mouse message is a button press (and so flushes the word).
pub fn is_button_down(message: u32) -> (r: bool)
    ensures
        r == spec_is_button_down(message),
{
    message == WM_LBUTTONDOWN || message == WM_RBUTTONDOWN || message == WM_MBUTTONDOWN
        || message == WM_NCLBUTTONDOWN || message == WM_NCRBUTTONDOWN || message == WM_NCMBUTTONDOWN
}

/// Whether the mouse hook should flush the session for this callback: only an
/// action code (zero) carrying a button press.
pub fn should_flush(code: i32, message: u32) -> (r: bool)
    ensures
        r == (code == 0 && spec_is_button_down(message)),
{
    code == 0 && is_button_down(message)
}

} // verus!
