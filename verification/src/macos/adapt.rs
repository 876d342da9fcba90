//! macOS key events into the engine's vocabulary: which key a key code is,
//! which modifiers the event flags hold, and the flags as the log names them.
use vstd::prelude::*;

use crate::keys::{Key, Modifiers};

verus! {

pub const KEY_CODE_DELETE: i64 = 51;
pub const KEY_CODE_FORWARD_DELETE: i64 = 117;
pub const KEY_CODE_ESCAPE: i64 = 53;
pub const KEY_CODE_SPACE: i64 = 49;

pub const MASK_SHIFT: u64 = 0x0002_0000;
pub const MASK_CONTROL: u64 = 0x0004_0000;
pub const MASK_ALTERNATE: u64 = 0x0008_0000;
pub const MASK_COMMAND: u64 = 0x0010_0000;
pub const MASK_SECONDARY_FN: u64 = 0x0080_0000;

/// The key codes of the letter keys (the ANSI positions; a layout may put
/// other letters there, and the character read from the event is what is
/// typed).
pub open spec fn spec_letter_codes() -> Seq<(i64, char)> {
    seq![
        (0, 'a'), (1, 's'), (2, 'd'), (3, 'f'), (4, 'h'), (5, 'g'), (6, 'z'), (7, 'x'), (8, 'c'),
        (9, 'v'), (11, 'b'), (12, 'q'), (13, 'w'), (14, 'e'), (15, 'r'), (16, 'y'), (17, 't'),
        (31, 'o'), (32, 'u'), (34, 'i'), (35, 'p'), (37, 'l'), (38, 'j'), (40, 'k'), (45, 'n'),
        (46, 'm'),
    ]
}

/// The letter a key code is, when it is one.
pub open spec fn spec_letter(code: i64) -> Option<char> {
    if exists|i: int| 0 <= i < spec_letter_codes().len() && (#[trigger] spec_letter_codes()[i]).0 == code {
        Some(spec_letter_codes()[choose|i: int| 0 <= i < spec_letter_codes().len() && (#[trigger] spec_letter_codes()[i]).0 == code].1)
    } else {
        None
    }
}

/// Which key a macOS key code is.
pub open spec fn spec_key_for(code: i64) -> Key {
    if code == KEY_CODE_DELETE {
        Key::Backspace
    } else if code == KEY_CODE_FORWARD_DELETE {
        Key::ForwardDelete
    } else if code == KEY_CODE_ESCAPE {
        Key::Escape
    } else if code == KEY_CODE_SPACE {
        Key::Space
    } else if code == 36 || code == 76 {
        Key::Return
    } else if code == 48 {
        Key::Tab
    } else if code == 123 || code == 124 || code == 125 || code == 126 || code == 115 || code == 116
        || code == 119 || code == 121 {
        Key::CaretMove
    } else {
        match spec_letter(code) {
            Some(c) => Key::Letter(c),
            None => Key::Other,
        }
    }
}

/// The letter table, in key-code order.
fn letter_codes() -> (v: Vec<(i64, char)>)
    ensures
        v@ == spec_letter_codes(),
{
    let v = vec![
        (0, 'a'), (1, 's'), (2, 'd'), (3, 'f'), (4, 'h'), (5, 'g'), (6, 'z'), (7, 'x'), (8, 'c'),
        (9, 'v'), (11, 'b'), (12, 'q'), (13, 'w'), (14, 'e'), (15, 'r'), (16, 'y'), (17, 't'),
        (31, 'o'), (32, 'u'), (34, 'i'), (35, 'p'), (37, 'l'), (38, 'j'), (40, 'k'), (45, 'n'),
        (46, 'm'),
    ];
    assert(v@ =~= spec_letter_codes());
    v
}

/// The key codes in the letter table are distinct.
proof fn lemma_letter_codes_distinct()
    ensures
        forall|i: int, j: int| 0 <= i < spec_letter_codes().len() && 0 <= j < spec_letter_codes().len()
            && #[trigger] spec_letter_codes()[i].0 == #[trigger] spec_letter_codes()[j].0 ==> i == j,
{
}

/// Which key this key code is.
pub fn key_for(code: i64) -> (r: Key)
    ensures
        r == spec_key_for(code),
{
    if code == KEY_CODE_DELETE {
        return Key::Backspace;
    }
    if code == KEY_CODE_FORWARD_DELETE {
        return Key::ForwardDelete;
    }
    if code == KEY_CODE_ESCAPE {
        return Key::Escape;
    }
    if code == KEY_CODE_SPACE {
        return Key::Space;
    }
    if code == 36 || code == 76 {
        return Key::Return;
    }
    if code == 48 {
        return Key::Tab;
    }
    if code == 123 || code == 124 || code == 125 || code == 126 || code == 115 || code == 116
        || code == 119 || code == 121 {
        return Key::CaretMove;
    }
    let table = letter_codes();
    proof {
        lemma_letter_codes_distinct();
    }
    for i in 0..table.len()
        invariant
            table@ == spec_letter_codes(),
            forall|k: int| 0 <= k < i ==> (#[trigger] spec_letter_codes()[k]).0 != code,
    {
        if table[i].0 == code {
            assert(spec_letter_codes()[i as int].0 == code);
            return Key::Letter(table[i].1);
        }
    }
    Key::Other
}

/// Which modifiers the event flags hold.
pub fn modifiers(flags: u64) -> (r: Modifiers)
    ensures
        r == (Modifiers {
            control: flags & MASK_CONTROL != 0,
            shift: flags & MASK_SHIFT != 0,
            option: flags & MASK_ALTERNATE != 0,
            command: flags & MASK_COMMAND != 0,
        }),
{
    Modifiers {
        control: flags & MASK_CONTROL != 0,
        shift: flags & MASK_SHIFT != 0,
        option: flags & MASK_ALTERNATE != 0,
        command: flags & MASK_COMMAND != 0,
    }
}

/// The flags as the log names them: `⌘⌃⌥⇧fn`, only those held, or `-`.
pub open spec fn spec_modifier_names(flags: u64) -> Seq<char> {
    let s = (if flags & MASK_COMMAND != 0 { seq!['⌘'] } else { Seq::empty() }) + (if flags & MASK_CONTROL != 0 {
        seq!['⌃']
    } else {
        Seq::empty()
    }) + (if flags & MASK_ALTERNATE != 0 { seq!['⌥'] } else { Seq::empty() }) + (if flags & MASK_SHIFT != 0 {
        seq!['⇧']
    } else {
        Seq::empty()
    }) + (if flags & MASK_SECONDARY_FN != 0 { seq!['f', 'n'] } else { Seq::empty() });
    if s.len() == 0 { seq!['-'] } else { s }
}

/// The held modifiers, for the log.
pub fn modifier_names(flags: u64) -> (r: String)
    ensures
        r@ == spec_modifier_names(flags),
{
    let mut names: Vec<char> = Vec::new();
    if flags & MASK_COMMAND != 0 {
        names.push('⌘');
    }
    if flags & MASK_CONTROL != 0 {
        names.push('⌃');
    }
    if flags & MASK_ALTERNATE != 0 {
        names.push('⌥');
    }
    if flags & MASK_SHIFT != 0 {
        names.push('⇧');
    }
    if flags & MASK_SECONDARY_FN != 0 {
        names.push('f');
        names.push('n');
    }
    let ghost s = (if flags & MASK_COMMAND != 0 { seq!['⌘'] } else { Seq::<char>::empty() }) + (if flags
        & MASK_CONTROL != 0 {
        seq!['⌃']
    } else {
        Seq::<char>::empty()
    }) + (if flags & MASK_ALTERNATE != 0 { seq!['⌥'] } else { Seq::<char>::empty() }) + (if flags & MASK_SHIFT
        != 0 {
        seq!['⇧']
    } else {
        Seq::<char>::empty()
    }) + (if flags & MASK_SECONDARY_FN != 0 { seq!['f', 'n'] } else { Seq::<char>::empty() });
    assert(names@ =~= s);
    if names.len() == 0 {
        names.push('-');
        assert(names@ =~= seq!['-']);
    }
    crate::text::string_of(&names)
}

} // verus!
