//! Text helpers: characters, UTF-16 code units, ASCII case and whitespace.
use vstd::prelude::*;
use vstd::string::StringExecFns;

verus! {

/// Whether a code unit is a high (leading) surrogate.
pub open spec fn is_high_surrogate(u: u16) -> bool {
    0xD800 <= u < 0xDC00
}

/// Whether a code unit is a low (trailing) surrogate.
pub open spec fn is_low_surrogate(u: u16) -> bool {
    0xDC00 <= u < 0xE000
}

/// The UTF-16 code units of one character.
pub open spec fn char_units(c: char) -> Seq<u16> {
    if (c as u32) < 0x10000 {
        seq![(c as u32) as u16]
    } else {
        let v = (c as u32) - 0x10000;
        seq![(0xD800 + v / 0x400) as u16, (0xDC00 + v % 0x400) as u16]
    }
}

/// The UTF-16 encoding of a character sequence.
pub open spec fn utf16(s: Seq<char>) -> Seq<u16>
    decreases s.len(),
{
    if s.len() == 0 {
        Seq::empty()
    } else {
        utf16(s.drop_last()) + char_units(s.last())
    }
}

/// The characters a UTF-16 sequence decodes to, read from the front; `None`
/// where a surrogate stands without its partner.
pub open spec fn decode_utf16(u: Seq<u16>) -> Option<Seq<char>>
    decreases u.len(),
{
    if u.len() == 0 {
        Some(Seq::empty())
    } else if is_high_surrogate(u[0]) {
        if u.len() >= 2 && is_low_surrogate(u[1]) {
            match decode_utf16(u.skip(2)) {
                Some(rest) => Some(
                    seq![(0x10000 + (u[0] - 0xD800) * 0x400 + (u[1] - 0xDC00)) as char] + rest,
                ),
                None => None,
            }
        } else {
            None
        }
    } else if is_low_surrogate(u[0]) {
        None
    } else {
        match decode_utf16(u.skip(1)) {
            Some(rest) => Some(seq![u[0] as char] + rest),
            None => None,
        }
    }
}

/// The characters of a string slice.
pub fn chars_of(s: &str) -> (v: Vec<char>)
    ensures
        v@ == s@,
{
    let mut v: Vec<char> = Vec::new();
    for c in it: s.chars()
        invariant
            v@ == it.seq().take(it.index() as int),
    {
        v.push(c);
    }
    v
}

/// Appends one character to a `String` (`String::push`).
#[verifier::external_body]
fn push_char(s: &mut String, c: char)
    ensures
        final(s)@ == old(s)@.push(c),
{
    s.push(c);
}

/// A `String` holding exactly these characters.
pub fn string_of(v: &Vec<char>) -> (s: String)
    ensures
        s@ == v@,
{
    let mut s = String::new();
    for i in 0..v.len()
        invariant
            s@ == v@.take(i as int),
    {
        push_char(&mut s, v[i]);
        assert(v@.take(i + 1) == v@.take(i as int).push(v@[i as int]));
    }
    assert(v@.take(v.len() as int) == v@);
    s
}

/// The UTF-16 code units of a string.
pub fn encode_utf16(s: &str) -> (units: Vec<u16>)
    ensures
        units@ == utf16(s@),
{
    let chars = chars_of(s);
    let mut units: Vec<u16> = Vec::new();
    for i in 0..chars.len()
        invariant
            chars@ == s@,
            units@ == utf16(chars@.take(i as int)),
    {
        let c = chars[i];
        let code = c as u32;
        proof {
            vstd::utf8::char_is_scalar(c);
        }
        assert(chars@.take(i + 1).drop_last() == chars@.take(i as int));
        assert(chars@.take(i + 1).last() == c);
        if code < 0x10000 {
            units.push(code as u16);
        } else {
            let v = code - 0x10000;
            units.push((0xD800 + v / 0x400) as u16);
            units.push((0xDC00 + v % 0x400) as u16);
        }
    }
    assert(chars@.take(chars.len() as int) == chars@);
    units
}

/// `s` as a NUL-terminated UTF-16 string, the form every `…W` Win32 entry
/// point takes.
pub fn wide(s: &str) -> (w: Vec<u16>)
    ensures
        w@ == utf16(s@).push(0u16),
{
    let mut w = encode_utf16(s);
    w.push(0);
    w
}

/// The character with this scalar value, if it is one (`char::from_u32`).
#[verifier::external_body]
fn char_from_u32(x: u32) -> (r: Option<char>)
    ensures
        r == (if vstd::utf8::is_scalar(x) { Some(x as char) } else { None::<char> }),
{
    char::from_u32(x)
}

/// `acc` followed by what the rest decodes to, or `None` with the rest.
pub open spec fn prepend_decoded(acc: Seq<char>, rest: Option<Seq<char>>) -> Option<Seq<char>> {
    match rest {
        Some(r) => Some(acc + r),
        None => None,
    }
}

/// Decodes UTF-16 code units, failing on an unpaired surrogate
/// (`String::from_utf16` read into characters).
pub fn decode_utf16_units(units: &[u16]) -> (r: Option<Vec<char>>)
    ensures
        match r {
            Some(v) => decode_utf16(units@) == Some(v@),
            None => decode_utf16(units@) is None,
        },
{
    let n = units.len();
    let mut out: Vec<char> = Vec::new();
    let mut i: usize = 0;
    assert(units@.skip(0) == units@);
    proof {
        match decode_utf16(units@) {
            Some(r) => assert(Seq::<char>::empty() + r == r),
            None => {},
        }
    }
    while i < n
        invariant
            n == units@.len(),
            i <= n,
            decode_utf16(units@) == prepend_decoded(out@, decode_utf16(units@.skip(i as int))),
        decreases n - i,
    {
        let u = units[i];
        let ghost rest = units@.skip(i as int);
        assert(rest[0] == u);
        if 0xD800 <= u && u < 0xDC00 {
            if i + 1 < n && 0xDC00 <= units[i + 1] && units[i + 1] < 0xE000 {
                let lo = units[i + 1];
                let x: u32 = 0x10000 + ((u - 0xD800) as u32) * 0x400 + ((lo - 0xDC00) as u32);
                assert(rest[1] == lo);
                assert(rest.skip(2) == units@.skip(i + 2));
                proof {
                    assert(vstd::utf8::is_scalar(x));
                }
                match char_from_u32(x) {
                    Some(c) => {
                        let ghost before = out@;
                        out.push(c);
                        assert(out@ == before + seq![c]);
                        assert(before + (seq![c] + decode_utf16(units@.skip(i + 2)).unwrap_or(Seq::empty())) == out@ + decode_utf16(units@.skip(i + 2)).unwrap_or(Seq::empty()));
                    },
                    None => {
                        return None;
                    },
                }
                i = i + 2;
            } else {
                return None;
            }
        } else if 0xDC00 <= u && u < 0xE000 {
            return None;
        } else {
            assert(rest.skip(1) == units@.skip(i + 1));
            proof {
                assert(vstd::utf8::is_scalar(u as u32));
            }
            match char_from_u32(u as u32) {
                Some(c) => {
                    let ghost before = out@;
                    out.push(c);
                    assert(before + (seq![c] + decode_utf16(units@.skip(i + 1)).unwrap_or(Seq::empty())) == out@ + decode_utf16(units@.skip(i + 1)).unwrap_or(Seq::empty()));
                },
                None => {
                    return None;
                },
            }
            i = i + 1;
        }
    }
    assert(units@.skip(n as int) =~= Seq::<u16>::empty());
    assert(out@ + Seq::<char>::empty() == out@);
    Some(out)
}

/// Whether a character is white space in Unicode's sense (`char::is_whitespace`,
/// the `White_Space` property).
pub open spec fn is_space(c: char) -> bool {
    let x = c as u32;
    ||| 0x09 <= x <= 0x0D
    ||| x == 0x20
    ||| x == 0x85
    ||| x == 0xA0
    ||| x == 0x1680
    ||| 0x2000 <= x <= 0x200A
    ||| x == 0x2028
    ||| x == 0x2029
    ||| x == 0x202F
    ||| x == 0x205F
    ||| x == 0x3000
}

/// `s` without its leading white space.
pub open spec fn trim_start(s: Seq<char>) -> Seq<char>
    decreases s.len(),
{
    if s.len() > 0 && is_space(s[0]) {
        trim_start(s.drop_first())
    } else {
        s
    }
}

/// `s` without its trailing white space.
pub open spec fn trim_end(s: Seq<char>) -> Seq<char>
    decreases s.len(),
{
    if s.len() > 0 && is_space(s.last()) {
        trim_end(s.drop_last())
    } else {
        s
    }
}

/// `s` without leading or trailing white space (`str::trim`).
pub open spec fn trim(s: Seq<char>) -> Seq<char> {
    trim_end(trim_start(s))
}

/// The ASCII lowercase of one character (`char::to_ascii_lowercase`).
pub open spec fn ascii_lower(c: char) -> char {
    if 'A' <= c <= 'Z' {
        ((c as u32) + 32) as char
    } else {
        c
    }
}

/// The ASCII lowercase of a character sequence (`str::to_ascii_lowercase`).
pub open spec fn ascii_lower_seq(s: Seq<char>) -> Seq<char> {
    s.map_values(|c: char| ascii_lower(c))
}

/// Whether `p` is a prefix of `s`.
pub open spec fn has_prefix(s: Seq<char>, p: Seq<char>) -> bool {
    p.len() <= s.len() && s.take(p.len() as int) == p
}

/// Whether a character is white space.
pub fn is_space_char(c: char) -> (r: bool)
    ensures
        r == is_space(c),
{
    let x = c as u32;
    (0x09 <= x && x <= 0x0D) || x == 0x20 || x == 0x85 || x == 0xA0 || x == 0x1680 || (0x2000
        <= x && x <= 0x200A) || x == 0x2028 || x == 0x2029 || x == 0x202F || x == 0x205F || x
        == 0x3000
}

/// The ASCII lowercase of one character.
pub fn to_ascii_lower(c: char) -> (r: char)
    ensures
        r == ascii_lower(c),
{
    if 'A' <= c && c <= 'Z' {
        let x = (c as u32) + 32;
        proof {
            vstd::utf8::char_u32_cast(c, c as u32);
        }
        (x as u8) as char
    } else {
        c
    }
}

pub proof fn lemma_trim_start_skip(s: Seq<char>, i: int)
    requires
        0 <= i <= s.len(),
        forall|k: int| 0 <= k < i ==> is_space(#[trigger] s[k]),
    ensures
        trim_start(s) == trim_start(s.skip(i)),
    decreases i,
{
    if i > 0 {
        assert(s.skip(1) == s.drop_first());
        lemma_trim_start_skip(s.drop_first(), i - 1);
        assert(s.drop_first().skip(i - 1) == s.skip(i));
    } else {
        assert(s.skip(0) == s);
    }
}

proof fn lemma_trim_end_take(s: Seq<char>, j: int)
    requires
        0 <= j <= s.len(),
        forall|k: int| j <= k < s.len() ==> is_space(#[trigger] s[k]),
    ensures
        trim_end(s) == trim_end(s.take(j)),
    decreases s.len() - j,
{
    if j < s.len() {
        assert(s.take(s.len() - 1) == s.drop_last());
        lemma_trim_end_take(s.drop_last(), j);
        assert(s.drop_last().take(j) == s.take(j));
    } else {
        assert(s.take(j) == s);
    }
}

/// `s` without leading or trailing white space.
pub fn trim_chars(s: &Vec<char>) -> (r: Vec<char>)
    ensures
        r@ == trim(s@),
{
    let n = s.len();
    let mut i: usize = 0;
    while i < n && is_space_char(s[i])
        invariant
            n == s@.len(),
            i <= n,
            forall|k: int| 0 <= k < i ==> is_space(#[trigger] s@[k]),
        decreases n - i,
    {
        i = i + 1;
    }
    proof {
        lemma_trim_start_skip(s@, i as int);
    }
    let ghost rest = s@.skip(i as int);
    assert(trim_start(rest) == rest);
    let mut j: usize = n;
    while j > i && is_space_char(s[j - 1])
        invariant
            n == s@.len(),
            i <= j <= n,
            rest == s@.skip(i as int),
            forall|k: int| j <= k < n ==> is_space(#[trigger] s@[k]),
        decreases j - i,
    {
        j = j - 1;
    }
    proof {
        lemma_trim_end_take(rest, j - i);
        assert(forall|k: int| (j - i) <= k < rest.len() ==> rest[k] == s@[k + i]);
    }
    let mut r: Vec<char> = Vec::new();
    let mut k: usize = i;
    while k < j
        invariant
            i <= k <= j <= n,
            n == s@.len(),
            r@ == s@.subrange(i as int, k as int),
        decreases j - k,
    {
        r.push(s[k]);
        assert(s@.subrange(i as int, k + 1) == s@.subrange(i as int, k as int).push(s@[k as int]));
        k = k + 1;
    }
    assert(rest.take(j - i) == s@.subrange(i as int, j as int));
    if j > i {
        assert(!is_space(rest.take(j - i).last()));
    }
    r
}

/// The ASCII lowercase of a character sequence.
pub fn to_ascii_lower_chars(s: &Vec<char>) -> (r: Vec<char>)
    ensures
        r@ == ascii_lower_seq(s@),
{
    let mut r: Vec<char> = Vec::new();
    for i in 0..s.len()
        invariant
            r@ == ascii_lower_seq(s@.take(i as int)),
    {
        r.push(to_ascii_lower(s[i]));
        assert(ascii_lower_seq(s@.take(i + 1)) == ascii_lower_seq(s@.take(i as int)).push(ascii_lower(s@[i as int])));
    }
    assert(s@.take(s.len() as int) == s@);
    r
}

/// Whether two character sequences are equal.
pub fn chars_eq(a: &Vec<char>, b: &Vec<char>) -> (r: bool)
    ensures
        r == (a@ == b@),
{
    if a.len() != b.len() {
        return false;
    }
    for i in 0..a.len()
        invariant
            a@.len() == b@.len(),
            forall|k: int| 0 <= k < i ==> a@[k] == b@[k],
    {
        if a[i] != b[i] {
            return false;
        }
    }
    assert(a@ =~= b@);
    true
}

/// Whether `p` is a prefix of `s`.
pub fn starts_with_chars(s: &Vec<char>, p: &Vec<char>) -> (r: bool)
    ensures
        r == has_prefix(s@, p@),
{
    if p.len() > s.len() {
        return false;
    }
    for i in 0..p.len()
        invariant
            p@.len() <= s@.len(),
            forall|k: int| 0 <= k < i ==> s@[k] == p@[k],
    {
        if s[i] != p[i] {
            assert(s@.take(p@.len() as int)[i as int] != p@[i as int]);
            return false;
        }
    }
    assert(s@.take(p@.len() as int) =~= p@);
    true
}

/// Whether two character sequences are equal once ASCII letters are folded
/// to lowercase (`str::eq_ignore_ascii_case`).
pub fn eq_ignore_ascii_case_chars(a: &Vec<char>, b: &Vec<char>) -> (r: bool)
    ensures
        r == (ascii_lower_seq(a@) == ascii_lower_seq(b@)),
{
    let la = to_ascii_lower_chars(a);
    let lb = to_ascii_lower_chars(b);
    chars_eq(&la, &lb)
}

/// The Unicode lowercase of a string, as `str::to_lowercase` computes it.
pub uninterp spec fn lowercase(s: Seq<char>) -> Seq<char>;

/// The Unicode uppercase of a string, as `str::to_uppercase` computes it.
pub uninterp spec fn uppercase(s: Seq<char>) -> Seq<char>;

/// `str::to_lowercase`: its result is named [`lowercase`] of the input; the
/// Unicode case tables it follows are not restated here.
#[verifier::external_body]
pub(crate) fn to_lowercase(s: &str) -> (r: String)
    ensures
        r@ == lowercase(s@),
{
    s.to_lowercase()
}

/// `str::to_uppercase`: its result is named [`uppercase`] of the input; the
/// Unicode case tables it follows are not restated here.
#[verifier::external_body]
pub(crate) fn to_uppercase(s: &str) -> (r: String)
    ensures
        r@ == uppercase(s@),
{
    s.to_uppercase()
}

/// Whether two string slices hold the same characters.
pub fn str_eq(a: &str, b: &str) -> (r: bool)
    ensures
        r == (a@ == b@),
{
    let ca = chars_of(a);
    let cb = chars_of(b);
    chars_eq(&ca, &cb)
}

/// The ASCII digit for a value below ten.
pub open spec fn digit_char(d: nat) -> char {
    ((d + 0x30) as u32) as char
}

/// The decimal numeral of a natural number, without leading zeros.
pub open spec fn decimal(n: nat) -> Seq<char>
    decreases n,
{
    if n < 10 {
        seq![digit_char(n)]
    } else {
        decimal(n / 10).push(digit_char(n % 10))
    }
}

/// The decimal numeral of `n`, as `format!("{n}")` writes it.
pub fn decimal_string(n: usize) -> (s: String)
    ensures
        s@ == decimal(n as nat),
{
    let mut digits: Vec<char> = Vec::new();
    let mut rest: usize = n;
    let ghost mut done: Seq<char> = Seq::empty();
    // `digits` holds the low digits, least significant first.
    while rest >= 10
        invariant
            decimal(n as nat) == decimal(rest as nat) + digits@.reverse(),
        decreases rest,
    {
        let d = rest % 10;
        let c = char_of_digit(d);
        let ghost before = digits@;
        assert(decimal(rest as nat) == decimal((rest / 10) as nat).push(digit_char((rest % 10) as nat)));
        digits.push(c);
        assert(digits@.reverse() =~= seq![c] + before.reverse());
        assert(decimal((rest / 10) as nat).push(c) + before.reverse() =~= decimal((rest / 10) as nat) + (seq![c] + before.reverse()));
        rest = rest / 10;
    }
    let first = char_of_digit(rest);
    let mut out: Vec<char> = Vec::new();
    out.push(first);
    assert(out@ =~= decimal(rest as nat));
    let mut k: usize = digits.len();
    while k > 0
        invariant
            k <= digits@.len(),
            decimal(n as nat) == decimal(rest as nat) + digits@.reverse(),
            out@ == decimal(rest as nat) + digits@.subrange(k as int, digits@.len() as int).reverse(),
        decreases k,
    {
        k = k - 1;
        let ghost before = out@;
        out.push(digits[k]);
        assert(digits@.subrange(k as int, digits@.len() as int).reverse() =~= digits@.subrange(
            k + 1,
            digits@.len() as int,
        ).reverse().push(digits@[k as int]));
        assert(out@ =~= decimal(rest as nat) + digits@.subrange(k as int, digits@.len() as int).reverse());
    }
    assert(digits@.subrange(0, digits@.len() as int) =~= digits@);
    string_of(&out)
}

/// The ASCII digit character for `d` below ten.
fn char_of_digit(d: usize) -> (c: char)
    requires
        d < 10,
    ensures
        c == digit_char(d as nat),
{
    let code: u8 = 0x30 + (d as u8);
    let c = code as char;
    assert(c == digit_char(d as nat));
    c
}

/// One character's units decode back to that character.
pub proof fn lemma_char_units_decode(c: char)
    ensures
        decode_utf16(char_units(c)) == Some(seq![c]),
        char_units(c).len() > 0,
        !is_high_surrogate(char_units(c).last()),
        char_units(c).len() == 2 ==> is_high_surrogate(char_units(c)[0]),
{
    vstd::utf8::char_is_scalar(c);
    let x = c as u32;
    if x < 0x10000 {
        assert(!(0xD800 <= x && x < 0xE000));
        let u = char_units(c);
        assert(u.skip(1) =~= Seq::<u16>::empty());
        assert(decode_utf16(u.skip(1)) == Some(Seq::<char>::empty()));
        assert((u[0] as char) == c) by {
            vstd::utf8::char_u32_cast(c, x);
        }
        assert(seq![u[0] as char] + Seq::<char>::empty() =~= seq![c]);
    } else {
        let v = x - 0x10000;
        assert(v <= 0xFFFFF);
        let hi = (0xD800 + v / 0x400) as u16;
        let lo = (0xDC00 + v % 0x400) as u16;
        assert(v / 0x400 <= 0x3FF);
        assert(0xD800 <= hi < 0xDC00);
        assert(0xDC00 <= lo < 0xE000);
        let u = char_units(c);
        assert(u == seq![hi, lo]);
        assert(u.skip(2) =~= Seq::<u16>::empty());
        assert(decode_utf16(u.skip(2)) == Some(Seq::<char>::empty()));
        assert((v / 0x400) * 0x400 + v % 0x400 == v);
        assert(0x10000 + (hi - 0xD800) * 0x400 + (lo - 0xDC00) == x);
        assert(((0x10000 + (hi - 0xD800) * 0x400 + (lo - 0xDC00)) as char) == c) by {
            vstd::utf8::char_u32_cast(c, x);
        }
        assert(seq![((0x10000 + (hi - 0xD800) * 0x400 + (lo - 0xDC00)) as char)] + Seq::<char>::empty() =~= seq![c]);
    }
}

/// Decoding a sequence that decodes, followed by more, decodes the rest after
/// it.
pub proof fn lemma_decode_append(a: Seq<u16>, b: Seq<u16>)
    requires
        decode_utf16(a) is Some,
    ensures
        decode_utf16(a + b) == prepend_decoded(decode_utf16(a).unwrap(), decode_utf16(b)),
    decreases a.len(),
{
    if a.len() == 0 {
        assert(a + b =~= b);
        match decode_utf16(b) {
            Some(r) => assert(Seq::<char>::empty() + r =~= r),
            None => {},
        }
    } else if is_high_surrogate(a[0]) {
        assert((a + b).skip(2) =~= a.skip(2) + b);
        lemma_decode_append(a.skip(2), b);
        let c = seq![(0x10000 + (a[0] - 0xD800) * 0x400 + (a[1] - 0xDC00)) as char];
        match decode_utf16(b) {
            Some(r) => {
                assert(c + (decode_utf16(a.skip(2)).unwrap() + r) =~= (c + decode_utf16(a.skip(2)).unwrap()) + r);
            },
            None => {},
        }
    } else {
        assert((a + b).skip(1) =~= a.skip(1) + b);
        lemma_decode_append(a.skip(1), b);
        let c = seq![a[0] as char];
        match decode_utf16(b) {
            Some(r) => {
                assert(c + (decode_utf16(a.skip(1)).unwrap() + r) =~= (c + decode_utf16(a.skip(1)).unwrap()) + r);
            },
            None => {},
        }
    }
}

/// The UTF-16 encoding of any text decodes back to it, and never ends in a
/// high surrogate.
pub proof fn lemma_utf16_decodes(s: Seq<char>)
    ensures
        decode_utf16(utf16(s)) == Some(s),
        utf16(s).len() > 0 ==> !is_high_surrogate(utf16(s).last()),
    decreases s.len(),
{
    if s.len() == 0 {
    } else {
        lemma_utf16_decodes(s.drop_last());
        lemma_char_units_decode(s.last());
        lemma_decode_append(utf16(s.drop_last()), char_units(s.last()));
        assert(s.drop_last() + seq![s.last()] =~= s);
    }
}

/// A prefix of an encoding is the encoding of a prefix of the text, possibly
/// followed by the high half of the next character's pair.
pub proof fn lemma_utf16_prefix(s: Seq<char>, n: int)
    requires
        0 <= n <= utf16(s).len(),
    ensures
        exists|k: int| #![trigger s.take(k)] 0 <= k <= s.len() && (utf16(s).take(n) == utf16(s.take(k)) || (
        utf16(s).take(n) == utf16(s.take(k)).push(utf16(s).take(n).last()) && is_high_surrogate(
            utf16(s).take(n).last(),
        ))),
    decreases s.len(),
{
    if s.len() == 0 {
        assert(utf16(s).take(n) =~= utf16(s.take(0)));
    } else {
        let init = s.drop_last();
        let m = utf16(init).len() as int;
        lemma_char_units_decode(s.last());
        if n <= m {
            lemma_utf16_prefix(init, n);
            let k = choose|k: int| #![trigger init.take(k)] 0 <= k <= init.len() && (utf16(init).take(n) == utf16(init.take(k)) || (
                utf16(init).take(n) == utf16(init.take(k)).push(utf16(init).take(n).last())
                && is_high_surrogate(utf16(init).take(n).last())));
            assert(utf16(s).take(n) =~= utf16(init).take(n));
            assert(init.take(k) =~= s.take(k));
        } else if n == utf16(s).len() {
            assert(utf16(s).take(n) =~= utf16(s));
            assert(s.take(s.len() as int) =~= s);
        } else {
            assert(n == m + 1);
            assert(char_units(s.last()).len() == 2);
            assert(utf16(s).take(n) =~= utf16(init).push(char_units(s.last())[0]));
            assert(s.take(init.len() as int) =~= init);
        }
    }
}

/// `before`, then `middle`, then `after`, as one string.
pub fn concat3(before: &str, middle: &str, after: &str) -> (r: String)
    ensures
        r@ == before@ + middle@ + after@,
{
    let mut r = before.to_owned();
    r.append(middle);
    r.append(after);
    r
}

} // verus!
