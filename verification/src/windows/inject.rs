//! What GlowKey writes to the outside world: one ordered batch of tagged key
//! events per edit, and the tag that keeps those events out of its own hook.
//!
//! The batch is decided here and handed to `SendInput` at the edge, in one call,
//! so a synthesized backspace can never overtake the character it deletes.
use vstd::prelude::*;

use crate::default_exclusions::windows::is_chromium_app;
use crate::default_exclusions::windows::spec_chromium_app_prefixes;
use crate::default_exclusions::matches_any_prefix;
use crate::text::{encode_utf16, utf16};

verus! {

/// The tag GlowKey stamps on every event it injects ("GLOW" in ASCII), read back
/// in the hook's first statement so it never reprocesses its own output.
pub const GLOWKEY_INJECTED: usize = 0x474C_4F57;

/// The Backspace virtual-key code.
pub const VK_BACK: u16 = 0x08;

/// The forward-Delete virtual-key code.
pub const VK_DELETE: u16 = 0x2E;

/// Whether this event carries GlowKey's own tag and must pass straight
/// through. Equality only: a neighbouring value is another tool's.
pub fn is_own_event(extra_info: usize) -> (r: bool)
    ensures
        r == (extra_info == GLOWKEY_INJECTED),
{
    extra_info == GLOWKEY_INJECTED
}

/// One injected keyboard event. Every one carries [`GLOWKEY_INJECTED`].
#[derive(Clone, Copy, Debug, PartialEq, Eq, Structural)]
pub enum KeyInput {
    /// A virtual key, pressed (`up == false`) or released.
    Key { vk: u16, up: bool },
    /// One UTF-16 code unit typed as a literal character, bypassing the layout.
    Unicode { unit: u16, up: bool },
}

/// A virtual key pressed and released.
pub open spec fn press(vk: u16) -> Seq<KeyInput> {
    seq![KeyInput::Key { vk: vk, up: false }, KeyInput::Key { vk: vk, up: true }]
}

/// A virtual key pressed and released `n` times.
pub open spec fn presses(vk: u16, n: nat) -> Seq<KeyInput>
    decreases n,
{
    if n == 0 {
        Seq::empty()
    } else {
        presses(vk, (n - 1) as nat) + press(vk)
    }
}

/// Each code unit typed, down then up, in order.
pub open spec fn typed(units: Seq<u16>) -> Seq<KeyInput>
    decreases units.len(),
{
    if units.len() == 0 {
        Seq::empty()
    } else {
        typed(units.drop_last()) + seq![
            KeyInput::Unicode { unit: units.last(), up: false },
            KeyInput::Unicode { unit: units.last(), up: true },
        ]
    }
}

/// Whether an edit needs the Chromium address-bar forward-delete: focus is in
/// the address bar, there are backspaces to protect, and the application is
/// a Chromium-family browser.
pub open spec fn spec_needs_omnibox_guard(backspaces: usize, app: Option<Seq<char>>, focus_is_omnibox: bool) -> bool {
    focus_is_omnibox && backspaces > 0 && match app {
        Some(a) => matches_any_prefix(spec_chromium_app_prefixes(), a),
        None => false,
    }
}

/// The batch one edit becomes: the guard's forward-delete where it applies,
/// then every backspace, then every code unit of `text`.
pub open spec fn spec_edit_inputs(backspaces: usize, text: Seq<char>, guard: bool) -> Seq<KeyInput> {
    (if guard { press(VK_DELETE) } else { Seq::empty() }) + presses(VK_BACK, backspaces as nat)
        + typed(utf16(text))
}

/// Whether this edit needs the Chromium address-bar forward-delete.
pub fn needs_omnibox_guard(backspaces: usize, app: Option<&str>, focus_is_omnibox: bool) -> (r: bool)
    ensures
        r == spec_needs_omnibox_guard(
            backspaces,
            match app { Some(a) => Some(a@), None => None },
            focus_is_omnibox,
        ),
{
    if !focus_is_omnibox || backspaces == 0 {
        return false;
    }
    match app {
        Some(a) => is_chromium_app(a),
        None => false,
    }
}

/// The batch for one synthesized edit: delete `backspaces` UTF-16 code units
/// back from the caret, then insert `text`. `backspaces` counts code units,
/// which is `SendInput`'s unit, so a character outside the basic plane is two
/// backspaces and two entries.
pub fn emit_edit(backspaces: usize, text: &str, app: Option<&str>, focus_is_omnibox: bool) -> (r: Vec<KeyInput>)
    ensures
        r@ == spec_edit_inputs(
            backspaces,
            text@,
            spec_needs_omnibox_guard(
                backspaces,
                match app { Some(a) => Some(a@), None => None },
                focus_is_omnibox,
            ),
        ),
{
    let guard = needs_omnibox_guard(backspaces, app, focus_is_omnibox);
    let mut inputs: Vec<KeyInput> = Vec::new();
    if guard {
        inputs.push(KeyInput::Key { vk: VK_DELETE, up: false });
        inputs.push(KeyInput::Key { vk: VK_DELETE, up: true });
    }
    let ghost head = inputs@;
    assert(head == (if guard { press(VK_DELETE) } else { Seq::<KeyInput>::empty() }));
    let mut i: usize = 0;
    while i < backspaces
        invariant
            i <= backspaces,
            inputs@ == head + presses(VK_BACK, i as nat),
        decreases backspaces - i,
    {
        inputs.push(KeyInput::Key { vk: VK_BACK, up: false });
        inputs.push(KeyInput::Key { vk: VK_BACK, up: true });
        i = i + 1;
        assert(presses(VK_BACK, i as nat) == presses(VK_BACK, (i - 1) as nat) + press(VK_BACK));
        assert(inputs@ =~= head + presses(VK_BACK, i as nat));
    }
    let ghost mid = inputs@;
    let units = encode_utf16(text);
    for j in 0..units.len()
        invariant
            units@ == utf16(text@),
            inputs@ == mid + typed(units@.take(j as int)),
    {
        let u = units[j];
        inputs.push(KeyInput::Unicode { unit: u, up: false });
        inputs.push(KeyInput::Unicode { unit: u, up: true });
        assert(units@.take(j + 1).drop_last() =~= units@.take(j as int));
        assert(inputs@ =~= mid + typed(units@.take(j + 1)));
    }
    assert(units@.take(units.len() as int) =~= units@);
    inputs
}

/// The batch that replays one key from GlowKey's own queue: pressed, then
/// released.
pub fn replay_key(vk: u16) -> (r: Vec<KeyInput>)
    ensures
        r@ == press(vk),
{
    let mut r: Vec<KeyInput> = Vec::new();
    r.push(KeyInput::Key { vk, up: false });
    r.push(KeyInput::Key { vk, up: true });
    assert(r@ =~= press(vk));
    r
}

/// Whether the current run of refused batches has already been reported.
pub struct RefusalLog {
    reported: bool,
}

impl RefusalLog {
    /// Whether a refusal in the current run was already reported.
    pub closed spec fn spec_reported(&self) -> bool {
        self.reported
    }

    /// Nothing refused yet.
    pub fn new() -> (r: Self)
        ensures
            !r.spec_reported(),
    {
        RefusalLog { reported: false }
    }

    /// Records how a batch of `expected` events went (`sent` delivered) and
    /// says whether to log a refusal now: once per run of refusals, and a
    /// later run is reported again after any batch gets through.
    pub fn after_send(&mut self, sent: usize, expected: usize) -> (log_now: bool)
        ensures
            sent == expected ==> !log_now && !final(self).spec_reported(),
            sent != expected ==> log_now == !old(self).spec_reported() && final(self).spec_reported(),
    {
        if sent != expected {
            let first = !self.reported;
            self.reported = true;
            first
        } else {
            self.reported = false;
            false
        }
    }
}

} // verus!
