//! The log file's name, its lines, and when it rotates. The file itself is
//! opened, appended to and renamed at the edge; one previous generation
//! (`glowkey.log.1`) is kept, so the log never takes more than twice the cap.
use vstd::prelude::*;
use vstd::string::StringExecFns;

use crate::default_exclusions::Platform;
use crate::text::{decimal, decimal_string, chars_of, string_of};

verus! {

/// Rotate once the log passes this many bytes.
pub const MAX_BYTES: u64 = 5_000_000;

/// `name` appended to the directory `base` as a path component, with `sep`
/// between them unless `base` already ends in one.
pub open spec fn spec_join(base: Seq<char>, sep: char, name: Seq<char>) -> Seq<char> {
    if base.len() == 0 {
        name
    } else if base.last() == sep {
        base + name
    } else {
        base.push(sep) + name
    }
}

/// Where the log lives, under the platform's base directory (the home
/// directory on macOS, the log directory on Windows).
pub open spec fn spec_path(base: Seq<char>, platform: Platform) -> Seq<char> {
    match platform {
        Platform::MacOs => spec_join(base, '/', "Library/Logs/GlowKey/glowkey.log"@),
        Platform::Windows => spec_join(base, '\\', "glowkey.log"@),
    }
}

fn join(base: &str, sep: char, name: &str) -> (r: String)
    ensures
        r@ == spec_join(base@, sep, name@),
{
    let b = chars_of(base);
    if b.len() == 0 {
        return name.to_owned();
    }
    let mut out = b;
    if out[out.len() - 1] != sep {
        out.push(sep);
    }
    let n = chars_of(name);
    let ghost head = out@;
    for i in 0..n.len()
        invariant
            out@ == head + n@.take(i as int),
    {
        out.push(n[i]);
        assert(n@.take(i + 1) =~= n@.take(i as int).push(n@[i as int]));
        assert(out@ =~= head + n@.take(i + 1));
    }
    assert(n@.take(n.len() as int) =~= n@);
    string_of(&out)
}

/// The log file's path, when the platform's base directory is known.
pub fn path(base: Option<&str>, platform: Platform) -> (r: Option<String>)
    ensures
        match base {
            Some(b) => r is Some && r.unwrap()@ == spec_path(b@, platform),
            None => r is None,
        },
{
    match base {
        Some(b) => Some(match platform {
            Platform::MacOs => join(b, '/', "Library/Logs/GlowKey/glowkey.log"),
            Platform::Windows => join(b, '\\', "glowkey.log"),
        }),
        None => None,
    }
}

/// The previous generation's path: the log's own name with `.1` appended.
pub fn previous_path(path: &str) -> (r: String)
    ensures
        r@ == path@ + ".1"@,
{
    let mut r = path.to_owned();
    r.append(".1");
    r
}

/// `s` padded with spaces on the right to at least `width` characters.
pub open spec fn pad_right(s: Seq<char>, width: nat) -> Seq<char> {
    if s.len() >= width { s } else { s + Seq::new((width - s.len()) as nat, |_i: int| ' ') }
}

/// `s` padded with spaces on the left to at least `width` characters.
pub open spec fn pad_left(s: Seq<char>, width: nat) -> Seq<char> {
    if s.len() >= width { s } else { Seq::new((width - s.len()) as nat, |_i: int| ' ') + s }
}

/// Milliseconds as seconds with three decimals: `12.034`.
pub open spec fn seconds(ms: nat) -> Seq<char> {
    let frac = ms % 1000;
    decimal(ms / 1000) + seq!['.'] + (if frac < 10 {
        "00"@
    } else if frac < 100 {
        "0"@
    } else {
        Seq::empty()
    }) + decimal(frac)
}

/// One log line: its sequence number left-aligned in five columns, the
/// seconds since start right-aligned in eight, then the message.
pub open spec fn spec_line(seq_no: nat, elapsed_ms: nat, message: Seq<char>) -> Seq<char> {
    seq!['#'] + pad_right(decimal(seq_no), 5) + " +"@ + pad_left(seconds(elapsed_ms), 8) + "s  "@ + message
        + seq!['\n']
}

fn spaces(n: usize) -> (r: Vec<char>)
    ensures
        r@ == Seq::new(n as nat, |_i: int| ' '),
{
    let mut r: Vec<char> = Vec::new();
    for i in 0..n
        invariant
            r@ == Seq::new(i as nat, |_i: int| ' '),
    {
        r.push(' ');
        assert(r@ =~= Seq::new((i + 1) as nat, |_i: int| ' '));
    }
    r
}

fn append_chars(out: &mut Vec<char>, s: &Vec<char>)
    ensures
        final(out)@ == old(out)@ + s@,
{
    let ghost head = out@;
    for i in 0..s.len()
        invariant
            out@ == head + s@.take(i as int),
    {
        out.push(s[i]);
        assert(s@.take(i + 1) =~= s@.take(i as int).push(s@[i as int]));
        assert(out@ =~= head + s@.take(i + 1));
    }
    assert(s@.take(s.len() as int) =~= s@);
}

fn seconds_chars(ms: u64) -> (r: Vec<char>)
    requires
        ms / 1000 <= usize::MAX,
    ensures
        r@ == seconds(ms as nat),
{
    let whole = decimal_string((ms / 1000) as usize);
    let frac = ms % 1000;
    let mut r = chars_of(whole.as_str());
    let ghost w = r@;
    assert(w == decimal((ms / 1000) as nat));
    r.push('.');
    if frac < 10 {
        r.push('0');
        r.push('0');
    } else if frac < 100 {
        r.push('0');
    }
    proof {
        reveal_strlit("00");
        reveal_strlit("0");
    }
    let f = decimal_string(frac as usize);
    let fc = chars_of(f.as_str());
    let ghost mid = r@;
    assert(mid =~= w + seq!['.'] + (if frac < 10 {
        "00"@
    } else if frac < 100 {
        "0"@
    } else {
        Seq::<char>::empty()
    }));
    append_chars(&mut r, &fc);
    assert(fc@ == decimal((ms % 1000) as nat));
    assert(r@ =~= seconds(ms as nat));
    r
}

/// One log line, from its sequence number, the milliseconds since the
/// process started, and the message.
pub fn format_line(seq_no: u64, elapsed_ms: u64, message: &str) -> (r: String)
    requires
        seq_no <= usize::MAX,
        elapsed_ms / 1000 <= usize::MAX,
    ensures
        r@ == spec_line(seq_no as nat, elapsed_ms as nat, message@),
{
    let mut out: Vec<char> = Vec::new();
    out.push('#');
    let n = chars_of(decimal_string(seq_no as usize).as_str());
    append_chars(&mut out, &n);
    if n.len() < 5 {
        let pad = spaces(5 - n.len());
        append_chars(&mut out, &pad);
    }
    out.push(' ');
    out.push('+');
    let secs = seconds_chars(elapsed_ms);
    if secs.len() < 8 {
        let pad = spaces(8 - secs.len());
        append_chars(&mut out, &pad);
    }
    append_chars(&mut out, &secs);
    out.push('s');
    out.push(' ');
    out.push(' ');
    let m = chars_of(message);
    append_chars(&mut out, &m);
    out.push('\n');
    proof {
        reveal_strlit(" +");
        reveal_strlit("s  ");
    }
    assert(out@ =~= spec_line(seq_no as nat, elapsed_ms as nat, message@));
    string_of(&out)
}

/// How much the open log file holds, which decides when it rotates.
pub struct LogSize {
    written: u64,
}

impl LogSize {
    /// The bytes counted in the open file.
    pub closed spec fn spec_written(&self) -> nat {
        self.written as nat
    }

    /// A file just opened, seeded with what was already in it, so a file
    /// grown by earlier runs rotates on the next write.
    pub fn opened(existing: u64) -> (r: Self)
        ensures
            r.spec_written() == existing,
    {
        LogSize { written: existing }
    }

    /// Counts a write of `len` bytes (only when it succeeded) and says whether
    /// to rotate now: after the write, so a single line larger than the cap
    /// still lands somewhere.
    pub fn after_write(&mut self, len: u64, ok: bool) -> (rotate: bool)
        ensures
            final(self).spec_written() == if ok {
                if old(self).spec_written() + len <= u64::MAX { (old(self).spec_written() + len) as nat } else { u64::MAX as nat }
            } else {
                old(self).spec_written()
            },
            rotate == (final(self).spec_written() > MAX_BYTES),
    {
        if ok {
            self.written = self.written.saturating_add(len);
        }
        self.written > MAX_BYTES
    }
}

} // verus!
