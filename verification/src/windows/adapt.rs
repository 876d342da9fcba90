//! Windows key events into the engine's vocabulary: which key a virtual-key
//! code is, which modifiers count (AltGr withheld), the keyboard-state array a
//! layout translation is asked with, what a translation's output means, and
//! the dead key waiting to be re-armed. `GetKeyState` and `ToUnicodeEx` are
//! called at the edge; every decision around them is made here.
use vstd::prelude::*;

use crate::text::{decode_utf16, decode_utf16_units};

pub use crate::keys::{Key, Modifiers};

verus! {

pub const VK_BACK: u16 = 0x08;
pub const VK_TAB: u16 = 0x09;
pub const VK_RETURN: u16 = 0x0D;
pub const VK_SHIFT: u16 = 0x10;
pub const VK_CONTROL: u16 = 0x11;
pub const VK_MENU: u16 = 0x12;
pub const VK_CAPITAL: u16 = 0x14;
pub const VK_ESCAPE: u16 = 0x1B;
pub const VK_SPACE: u16 = 0x20;
pub const VK_PRIOR: u16 = 0x21;
pub const VK_NEXT: u16 = 0x22;
pub const VK_END: u16 = 0x23;
pub const VK_HOME: u16 = 0x24;
pub const VK_LEFT: u16 = 0x25;
pub const VK_UP: u16 = 0x26;
pub const VK_RIGHT: u16 = 0x27;
pub const VK_DOWN: u16 = 0x28;
pub const VK_DELETE: u16 = 0x2E;
pub const VK_LWIN: u16 = 0x5B;
pub const VK_RWIN: u16 = 0x5C;
pub const VK_RMENU: u16 = 0xA5;

/// Which key a virtual-key code is.
pub open spec fn spec_key_for(vk: u16) -> Key {
    if vk == VK_BACK {
        Key::Backspace
    } else if vk == VK_DELETE {
        Key::ForwardDelete
    } else if vk == VK_ESCAPE {
        Key::Escape
    } else if vk == VK_SPACE {
        Key::Space
    } else if vk == VK_RETURN {
        Key::Return
    } else if vk == VK_TAB {
        Key::Tab
    } else if vk == VK_LEFT || vk == VK_RIGHT || vk == VK_UP || vk == VK_DOWN || vk == VK_HOME
        || vk == VK_END || vk == VK_PRIOR || vk == VK_NEXT {
        Key::CaretMove
    } else if 0x41 <= vk <= 0x5A {
        Key::Letter(((vk + 0x20) as u32) as char)
    } else {
        Key::Other
    }
}

/// Which key this virtual-key code is. The letter keys carry the ASCII codes
/// of `A`..`Z`, so the letter is arithmetic, lowercased.
pub fn key_for(vk: u16) -> (r: Key)
    ensures
        r == spec_key_for(vk),
{
    if vk == VK_BACK {
        Key::Backspace
    } else if vk == VK_DELETE {
        Key::ForwardDelete
    } else if vk == VK_ESCAPE {
        Key::Escape
    } else if vk == VK_SPACE {
        Key::Space
    } else if vk == VK_RETURN {
        Key::Return
    } else if vk == VK_TAB {
        Key::Tab
    } else if vk == VK_LEFT || vk == VK_RIGHT || vk == VK_UP || vk == VK_DOWN || vk == VK_HOME
        || vk == VK_END || vk == VK_PRIOR || vk == VK_NEXT {
        Key::CaretMove
    } else if 0x41 <= vk && vk <= 0x5A {
        let code: u8 = (vk + 0x20) as u8;
        Key::Letter(code as char)
    } else {
        Key::Other
    }
}

/// Whether a key is held, from its `GetKeyState` value: the high bit. The
/// low bit is the toggle state, so Caps Lock on does not read as held.
pub fn is_down(key_state: i16) -> (r: bool)
    ensures
        r == ((key_state as u16) & 0x8000u16 != 0),
{
    ((key_state as u16) & 0x8000) != 0
}

/// Whether a toggle key (Caps Lock) is on, from its `GetKeyState` value: the
/// low bit.
pub fn is_toggled(key_state: i16) -> (r: bool)
    ensures
        r == (key_state & 1i16 != 0),
{
    (key_state & 1) != 0
}

/// Which keys are held, as read at the edge.
#[derive(Clone, Copy, Debug)]
pub struct HeldKeys {
    pub control: bool,
    pub shift: bool,
    pub alt: bool,
    pub right_alt: bool,
    pub left_win: bool,
    pub right_win: bool,
}

/// The modifiers the engine is told about, and whether AltGr is held. AltGr
/// arrives as Right Alt plus a synthetic Control; both halves are withheld,
/// because AltGr is part of the layout (it types ordinary characters), and
/// reporting either half would read as a shortcut and flush the word.
pub fn modifiers(held: HeldKeys) -> (r: (Modifiers, bool))
    ensures
        r.1 == held.right_alt,
        r.0 == (Modifiers {
            control: held.control && !held.right_alt,
            shift: held.shift,
            option: held.alt && !held.right_alt,
            command: held.left_win || held.right_win,
        }),
{
    let altgr = held.right_alt;
    (
        Modifiers {
            control: held.control && !altgr,
            shift: held.shift,
            option: held.alt && !altgr,
            command: held.left_win || held.right_win,
        },
        altgr,
    )
}

/// AltGr never reads as a shortcut.
pub proof fn altgr_is_not_a_shortcut(held: HeldKeys)
    requires
        held.right_alt,
        !held.left_win,
        !held.right_win,
    ensures
        !({
            let m = Modifiers {
                control: held.control && !held.right_alt,
                shift: held.shift,
                option: held.alt && !held.right_alt,
                command: held.left_win || held.right_win,
            };
            m.control || m.option || m.command
        }),
{
}

/// The keyboard-state byte a translation sees for one virtual key: held
/// modifiers in the high bit, Caps Lock in the low bit, and AltGr as
/// Control plus Alt (hidden from the engine, present for the layout).
pub open spec fn spec_state_byte(vk: int, mods: Modifiers, altgr: bool, caps: bool) -> u8 {
    if vk == VK_SHIFT && mods.shift {
        0x80
    } else if vk == VK_MENU && (mods.option || altgr) {
        0x80
    } else if vk == VK_CONTROL && altgr {
        0x80
    } else if vk == VK_CAPITAL && caps {
        0x01
    } else {
        0
    }
}

/// The 256-byte keyboard state a layout translation is asked with.
pub fn translation_state(mods: Modifiers, altgr: bool, caps: bool) -> (r: Vec<u8>)
    ensures
        r@.len() == 256,
        forall|vk: int| 0 <= vk < 256 ==> #[trigger] r@[vk] == spec_state_byte(vk, mods, altgr, caps),
{
    let mut r: Vec<u8> = Vec::new();
    let mut vk: u16 = 0;
    while vk < 256
        invariant
            vk <= 256,
            r@.len() == vk,
            forall|k: int| 0 <= k < vk ==> #[trigger] r@[k] == spec_state_byte(k, mods, altgr, caps),
        decreases 256 - vk,
    {
        let b: u8 = if vk == VK_SHIFT && mods.shift {
            0x80
        } else if vk == VK_MENU && (mods.option || altgr) {
            0x80
        } else if vk == VK_CONTROL && altgr {
            0x80
        } else if vk == VK_CAPITAL && caps {
            0x01
        } else {
            0
        };
        r.push(b);
        vk = vk + 1;
    }
    r
}

/// Whether the layout should be asked at all: a shortcut produces no text.
/// AltGr is not one of these.
pub fn wants_translation(mods: Modifiers) -> (r: bool)
    ensures
        r == !(mods.control || mods.command),
{
    !(mods.control || mods.command)
}

/// The character a translation produced, from its return value and the code
/// units it wrote: nothing for a dead key (negative) or for no character
/// (zero); otherwise the last character the units decode to, since a base key
/// pressed with a dead key pending returns the accent and then the letter.
pub open spec fn spec_translated_char(written: i32, units: Seq<u16>) -> Option<char> {
    if written <= 0 {
        None
    } else {
        match decode_utf16(units) {
            Some(cs) => if cs.len() > 0 { Some(cs.last()) } else { None },
            None => None,
        }
    }
}

/// The character a translation produced (see [`spec_translated_char`]);
/// `units` are the code units written.
pub fn translated_char(written: i32, units: &[u16]) -> (r: Option<char>)
    ensures
        r == spec_translated_char(written, units@),
{
    if written <= 0 {
        return None;
    }
    match decode_utf16_units(units) {
        Some(cs) => {
            if cs.len() > 0 {
                Some(cs[cs.len() - 1])
            } else {
                None
            }
        },
        None => None,
    }
}

/// The dead key waiting for its base character, to be re-armed after a
/// translation consumed it.
pub struct DeadKey {
    pending: Option<(u16, u32)>,
}

impl DeadKey {
    /// The waiting dead key's virtual-key code and scan code.
    pub closed spec fn spec_pending(&self) -> Option<(u16, u32)> {
        self.pending
    }

    /// Nothing waiting.
    pub fn new() -> (r: Self)
        ensures
            r.spec_pending() is None,
    {
        DeadKey { pending: None }
    }

    /// Remembers (or forgets) the waiting dead key.
    pub fn set_pending_dead_key(&mut self, key: Option<(u16, u32)>)
        ensures
            final(self).spec_pending() == key,
    {
        self.pending = key;
    }

    /// Takes the waiting dead key: once, leaving nothing behind.
    pub fn take_pending_dead_key(&mut self) -> (r: Option<(u16, u32)>)
        ensures
            r == old(self).spec_pending(),
            final(self).spec_pending() is None,
    {
        let r = self.pending;
        self.pending = None;
        r
    }
}

/// The held modifiers for the log: `Win+Ctrl+Alt+Shift` in that order, only
/// those held, or `-` for none.
pub open spec fn spec_modifier_names(m: Modifiers) -> Seq<char> {
    let s = (if m.command { "Win+"@ } else { Seq::empty() }) + (if m.control { "Ctrl+"@ } else { Seq::empty() })
        + (if m.option { "Alt+"@ } else { Seq::empty() }) + (if m.shift { "Shift+"@ } else { Seq::empty() });
    if s.len() == 0 { seq!['-'] } else { s.drop_last() }
}

/// The held modifiers, compactly, for the log.
pub fn modifier_names(mods: &Modifiers) -> (r: String)
    ensures
        r@ == spec_modifier_names(*mods),
{
    proof {
        reveal_strlit("Win+");
        reveal_strlit("Ctrl+");
        reveal_strlit("Alt+");
        reveal_strlit("Shift+");
        reveal_strlit("-");
        reveal_strlit("");
    }
    let mut names: Vec<char> = Vec::new();
    if mods.command {
        names.push('W');
        names.push('i');
        names.push('n');
        names.push('+');
    }
    if mods.control {
        names.push('C');
        names.push('t');
        names.push('r');
        names.push('l');
        names.push('+');
    }
    if mods.option {
        names.push('A');
        names.push('l');
        names.push('t');
        names.push('+');
    }
    if mods.shift {
        names.push('S');
        names.push('h');
        names.push('i');
        names.push('f');
        names.push('t');
        names.push('+');
    }
    let ghost s = (if mods.command { "Win+"@ } else { Seq::<char>::empty() }) + (if mods.control {
        "Ctrl+"@
    } else {
        Seq::<char>::empty()
    }) + (if mods.option { "Alt+"@ } else { Seq::<char>::empty() }) + (if mods.shift {
        "Shift+"@
    } else {
        Seq::<char>::empty()
    });
    assert(names@ =~= s);
    if names.len() == 0 {
        names.push('-');
        assert(names@ =~= seq!['-']);
    } else {
        names.pop();
        assert(names@ =~= s.drop_last());
    }
    crate::text::string_of(&names)
}

/// The keyboard state a layout translates with holds exactly what is held:
/// Shift (0x10) in the high bit when Shift is down, Alt (0x12) when Option
/// or AltGr is, Control (0x11) for AltGr alone, Caps Lock (0x14) in the low bit
/// when it is on, and nothing for any other key.
pub proof fn the_translation_state_holds_the_modifiers(mods: Modifiers, altgr: bool, caps: bool)
    ensures
        spec_state_byte(0x10, mods, altgr, caps) == (if mods.shift { 0x80u8 } else { 0u8 }),
        spec_state_byte(0x12, mods, altgr, caps) == (if mods.option || altgr { 0x80u8 } else { 0u8 }),
        spec_state_byte(0x11, mods, altgr, caps) == (if altgr { 0x80u8 } else { 0u8 }),
        spec_state_byte(0x14, mods, altgr, caps) == (if caps { 0x01u8 } else { 0u8 }),
        forall|vk: int| vk != 0x10 && vk != 0x11 && vk != 0x12 && vk != 0x14 ==> #[trigger] spec_state_byte(vk, mods, altgr, caps) == 0,
{
}

} // verus!
