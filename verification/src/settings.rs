//! GlowKey's preferences — the single value the settings windows edit and the
//! app saves — and the rules that act on it: the effective exclusion list and
//! the three-way merge that applies a settings window's edits on top of what
//! the running session learned meanwhile.
use vstd::prelude::*;

use crate::default_exclusions::macos;

verus! {



/// Whether typed keys are being turned into Vietnamese.
#[derive(Clone, Copy, Debug, PartialEq, Eq, Structural)]
pub enum InputMode {
    /// Vietnamese input is on.
    Vietnamese,
    /// Keys pass through as typed.
    English,
}

/// Which language the user interface is written in.
#[derive(Clone, Copy, Debug, PartialEq, Eq, Structural)]
pub enum Language {
    /// Follow the system's preferred language.
    System,
    /// Vietnamese interface, whatever the system says.
    Vietnamese,
    /// English interface, whatever the system says.
    English,
}

impl Default for Language {
    fn default() -> (r: Self)
        ensures
            r == Language::System,
    {
        Language::System
    }
}

/// Tone-mark placement style.
#[derive(Clone, Copy, Debug, PartialEq, Eq, Structural)]
pub enum PlacementStyle {
    /// The modern placement (`hoà` → `hòa`).
    New,
    /// The traditional placement (`hoà`).
    Old,
}

impl Default for PlacementStyle {
    fn default() -> (r: Self)
        ensures
            r == PlacementStyle::New,
    {
        PlacementStyle::New
    }
}

/// Keyboard input method.
#[derive(Clone, Copy, Debug, PartialEq, Eq, Structural)]
pub enum InputMethod {
    Telex,
    Vni,
    /// Telex without the shortcut keys (`w` alone, brackets) that clash with
    /// ordinary typing.
    SimpleTelex,
}

/// The input method a segment of the preferences' control stands for.
pub open spec fn spec_method_of_segment(segment: isize) -> InputMethod {
    if segment == 1 {
        InputMethod::Vni
    } else if segment == 2 {
        InputMethod::SimpleTelex
    } else {
        InputMethod::Telex
    }
}

impl InputMethod {
    /// The input method a segment of the preferences' control stands for:
    /// 0 Telex, 1 VNI, 2 Simple Telex; anything else falls back to Telex.
    pub fn from_segment(segment: isize) -> (r: InputMethod)
        ensures
            r == spec_method_of_segment(segment),
    {
        if segment == 1 {
            InputMethod::Vni
        } else if segment == 2 {
            InputMethod::SimpleTelex
        } else {
            InputMethod::Telex
        }
    }

    /// The segment that shows this input method.
    pub fn segment(self) -> (r: isize)
        ensures
            r == match self {
                InputMethod::Telex => 0isize,
                InputMethod::Vni => 1isize,
                InputMethod::SimpleTelex => 2isize,
            },
            spec_method_of_segment(r) == self,
    {
        match self {
            InputMethod::Telex => 0,
            InputMethod::Vni => 1,
            InputMethod::SimpleTelex => 2,
        }
    }
}

impl Default for InputMethod {
    fn default() -> (r: Self)
        ensures
            r == InputMethod::Telex,
    {
        InputMethod::Telex
    }
}

/// The hotkey that toggles Vietnamese on and off.
#[derive(Clone, Copy, Debug, PartialEq, Eq, Structural)]
pub enum HotkeyPreset {
    /// ⌃⇧Space, the default.
    CtrlShiftSpace,
    /// ⌃Space.
    CtrlSpace,
    /// ⌥Space.
    OptionSpace,
    /// ⌃⇧Z.
    CtrlShiftZ,
    /// A combination the user recorded: the modifiers, the character the key
    /// typed, and the platform key code it was recorded on, when known.
    Custom { control: bool, shift: bool, option: bool, key_char: char, raw_code: Option<i64> },
}

impl Default for HotkeyPreset {
    fn default() -> (r: Self)
        ensures
            r == HotkeyPreset::CtrlShiftSpace,
    {
        HotkeyPreset::CtrlShiftSpace
    }
}

impl HotkeyPreset {
    /// The platform key code a custom hotkey was recorded on, if any.
    pub fn raw_code(&self) -> (r: Option<i64>)
        ensures
            r == (match *self {
                HotkeyPreset::Custom { raw_code, .. } => raw_code,
                _ => None,
            }),
    {
        match self {
            HotkeyPreset::Custom { raw_code, .. } => *raw_code,
            _ => None,
        }
    }
}

/// Which rendering a personal-word decision keeps.
#[derive(Clone, Copy, Debug, PartialEq, Eq, Structural)]
pub enum WordPreference {
    /// Keep the keys as typed.
    Raw,
    /// Keep the Vietnamese rendering.
    Vietnamese,
}

impl Default for WordPreference {
    fn default() -> (r: Self)
        ensures
            r == WordPreference::Raw,
    {
        WordPreference::Raw
    }
}

/// A text-expansion macro (Unikey's "gõ tắt").
#[derive(Debug)]
pub struct Macro {
    pub shortcut: String,
    pub expansion: String,
}

/// What a macro says: its shortcut and its expansion.
pub struct MacroModel {
    pub shortcut: Seq<char>,
    pub expansion: Seq<char>,
}

impl View for Macro {
    type V = MacroModel;

    open spec fn view(&self) -> MacroModel {
        MacroModel { shortcut: self.shortcut@, expansion: self.expansion@ }
    }
}

impl Clone for Macro {
    fn clone(&self) -> (r: Self)
        ensures
            r@ == self@,
    {
        Macro { shortcut: self.shortcut.clone(), expansion: self.expansion.clone() }
    }
}

/// A per-word decision about the English/Telex ambiguity.
#[derive(Debug)]
pub struct WordOverride {
    pub keys: String,
    pub prefer: WordPreference,
}

/// What a word decision says: the keys and the preference.
pub struct WordOverrideModel {
    pub keys: Seq<char>,
    pub prefer: WordPreference,
}

impl View for WordOverride {
    type V = WordOverrideModel;

    open spec fn view(&self) -> WordOverrideModel {
        WordOverrideModel { keys: self.keys@, prefer: self.prefer }
    }
}

impl Clone for WordOverride {
    fn clone(&self) -> (r: Self)
        ensures
            r@ == self@,
    {
        WordOverride { keys: self.keys.clone(), prefer: self.prefer }
    }
}

/// Everything the menu bar and preferences window control.
#[derive(Debug)]
pub struct Settings {
    /// Application identities where Vietnamese input is off (deny list).
    pub exclusions: Vec<String>,
    /// Shipped default exclusions the user deliberately removed.
    pub removed_default_exclusions: Vec<String>,
    /// Restore a word to its raw keys when the Telex result is not valid
    /// Vietnamese.
    pub auto_fix: bool,
    pub style: PlacementStyle,
    pub input_method: InputMethod,
    pub auto_capitalize: bool,
    pub toggle_hotkey: HotkeyPreset,
    pub macros: Vec<Macro>,
    pub restore_english_words: bool,
    pub open_settings_at_launch: bool,
    pub language: Language,
    pub quick_telex: bool,
    pub telex_brackets: bool,
    pub strict_spell_check: bool,
    pub always_macro: bool,
    pub welcome_shown: bool,
    pub word_overrides: Vec<WordOverride>,
}

/// What a settings value says, field for field.
pub struct SettingsModel {
    pub exclusions: Seq<Seq<char>>,
    pub removed_default_exclusions: Seq<Seq<char>>,
    pub auto_fix: bool,
    pub style: PlacementStyle,
    pub input_method: InputMethod,
    pub auto_capitalize: bool,
    pub toggle_hotkey: HotkeyPreset,
    pub macros: Seq<MacroModel>,
    pub restore_english_words: bool,
    pub open_settings_at_launch: bool,
    pub language: Language,
    pub quick_telex: bool,
    pub telex_brackets: bool,
    pub strict_spell_check: bool,
    pub always_macro: bool,
    pub welcome_shown: bool,
    pub word_overrides: Seq<WordOverrideModel>,
}

/// The views of a list of strings.
pub open spec fn strings_view(v: Seq<String>) -> Seq<Seq<char>> {
    v.map_values(|s: String| s@)
}

/// The views of a macro table.
pub open spec fn macros_view(v: Seq<Macro>) -> Seq<MacroModel> {
    v.map_values(|m: Macro| m@)
}

/// The views of a list of word decisions.
pub open spec fn words_view(v: Seq<WordOverride>) -> Seq<WordOverrideModel> {
    v.map_values(|w: WordOverride| w@)
}

impl View for Settings {
    type V = SettingsModel;

    open spec fn view(&self) -> SettingsModel {
        SettingsModel {
            exclusions: strings_view(self.exclusions@),
            removed_default_exclusions: strings_view(self.removed_default_exclusions@),
            auto_fix: self.auto_fix,
            style: self.style,
            input_method: self.input_method,
            auto_capitalize: self.auto_capitalize,
            toggle_hotkey: self.toggle_hotkey,
            macros: macros_view(self.macros@),
            restore_english_words: self.restore_english_words,
            open_settings_at_launch: self.open_settings_at_launch,
            language: self.language,
            quick_telex: self.quick_telex,
            telex_brackets: self.telex_brackets,
            strict_spell_check: self.strict_spell_check,
            always_macro: self.always_macro,
            welcome_shown: self.welcome_shown,
            word_overrides: words_view(self.word_overrides@),
        }
    }
}

/// The settings a fresh install starts with, over a platform's shipped
/// exclusion table.
pub open spec fn default_model(defaults: Seq<Seq<char>>) -> SettingsModel {
    SettingsModel {
        exclusions: defaults,
        removed_default_exclusions: Seq::empty(),
        auto_fix: true,
        style: PlacementStyle::New,
        input_method: InputMethod::Telex,
        auto_capitalize: false,
        toggle_hotkey: HotkeyPreset::CtrlShiftSpace,
        macros: Seq::empty(),
        restore_english_words: false,
        open_settings_at_launch: true,
        language: Language::System,
        quick_telex: false,
        telex_brackets: false,
        strict_spell_check: false,
        always_macro: false,
        welcome_shown: false,
        word_overrides: Seq::empty(),
    }
}

/// Owned copies of a table of identities.
pub fn owned_strings(table: &Vec<&str>) -> (v: Vec<String>)
    ensures
        strings_view(v@) == table@.map_values(|s: &str| s@),
{
    let mut v: Vec<String> = Vec::new();
    for i in 0..table.len()
        invariant
            v@.len() == i,
            strings_view(v@) == table@.map_values(|s: &str| s@).take(i as int),
    {
                    let s = table[i].to_owned();
        let ghost before = v@;
        v.push(s);
        assert(v@ == before.push(s));
        assert(strings_view(v@)[i as int] == table@[i as int]@);
        assert(strings_view(v@) =~= table@.map_values(|s: &str| s@).take(i + 1));
    }
    assert(table@.map_values(|s: &str| s@).take(table.len() as int) =~= table@.map_values(
        |s: &str| s@,
    ));
    v
}

/// A copy of a list of strings.
pub fn copy_strings(v: &Vec<String>) -> (r: Vec<String>)
    ensures
        strings_view(r@) == strings_view(v@),
{
    let mut r: Vec<String> = Vec::new();
    for i in 0..v.len()
        invariant
            r@.len() == i,
            strings_view(r@) == strings_view(v@).take(i as int),
    {
                    let s = v[i].clone();
        let ghost before = r@;
        r.push(s);
        assert(r@ == before.push(s));
        assert(strings_view(r@)[i as int] == strings_view(v@)[i as int]);
        assert(strings_view(r@) =~= strings_view(v@).take(i + 1));
    }
    assert(strings_view(v@).take(v.len() as int) =~= strings_view(v@));
    r
}

/// A copy of a macro table.
pub fn copy_macros(v: &Vec<Macro>) -> (r: Vec<Macro>)
    ensures
        macros_view(r@) == macros_view(v@),
{
    let mut r: Vec<Macro> = Vec::new();
    for i in 0..v.len()
        invariant
            r@.len() == i,
            macros_view(r@) == macros_view(v@).take(i as int),
    {
                    let m = v[i].clone();
        let ghost before = r@;
        r.push(m);
        assert(r@ == before.push(m));
        assert(macros_view(r@)[i as int] == v@[i as int]@);
        assert(macros_view(r@) =~= macros_view(v@).take(i + 1));
    }
    assert(macros_view(v@).take(v.len() as int) =~= macros_view(v@));
    r
}

/// A copy of a list of word decisions.
pub fn copy_word_overrides(v: &Vec<WordOverride>) -> (r: Vec<WordOverride>)
    ensures
        words_view(r@) == words_view(v@),
{
    let mut r: Vec<WordOverride> = Vec::new();
    for i in 0..v.len()
        invariant
            r@.len() == i,
            words_view(r@) == words_view(v@).take(
                i as int,
            ),
    {
                    let w = v[i].clone();
        let ghost before = r@;
        r.push(w);
        assert(r@ == before.push(w));
        assert(words_view(r@)[i as int] == v@[i as int]@);
        assert(words_view(r@) =~= words_view(v@).take(
            i + 1,
        ));
    }
    assert(words_view(v@).take(v.len() as int) =~= v@.map_values(
        |w: WordOverride| w@,
    ));
    r
}

impl Clone for Settings {
    fn clone(&self) -> (r: Self)
        ensures
            r@ == self@,
    {
        Settings {
            exclusions: copy_strings(&self.exclusions),
            removed_default_exclusions: copy_strings(&self.removed_default_exclusions),
            auto_fix: self.auto_fix,
            style: self.style,
            input_method: self.input_method,
            auto_capitalize: self.auto_capitalize,
            toggle_hotkey: self.toggle_hotkey,
            macros: copy_macros(&self.macros),
            restore_english_words: self.restore_english_words,
            open_settings_at_launch: self.open_settings_at_launch,
            language: self.language,
            quick_telex: self.quick_telex,
            telex_brackets: self.telex_brackets,
            strict_spell_check: self.strict_spell_check,
            always_macro: self.always_macro,
            welcome_shown: self.welcome_shown,
            word_overrides: copy_word_overrides(&self.word_overrides),
        }
    }
}

impl Settings {
    /// The settings a fresh install starts with, over the given shipped
    /// exclusion table.
    pub fn with_shipped_defaults(defaults: &Vec<&str>) -> (r: Settings)
        ensures
            r@ == default_model(defaults@.map_values(|s: &str| s@)),
    {
        let r = Settings {
            exclusions: owned_strings(defaults),
            removed_default_exclusions: Vec::new(),
            auto_fix: true,
            style: PlacementStyle::New,
            input_method: InputMethod::Telex,
            auto_capitalize: false,
            toggle_hotkey: HotkeyPreset::CtrlShiftSpace,
            macros: Vec::new(),
            restore_english_words: false,
            open_settings_at_launch: true,
            language: Language::System,
            quick_telex: false,
            telex_brackets: false,
            strict_spell_check: false,
            always_macro: false,
            welcome_shown: false,
            word_overrides: Vec::new(),
        };
        assert(macros_view(r.macros@) =~= Seq::<MacroModel>::empty());
        assert(words_view(r.word_overrides@) =~= Seq::<WordOverrideModel>::empty());
        assert(strings_view(r.removed_default_exclusions@) =~= Seq::<Seq<char>>::empty());
        r
    }
}

impl Default for Settings {
    /// The defaults of every non-Windows build: the macOS exclusion table.
    fn default() -> (r: Self)
        ensures
            r@ == default_model(macos::spec_default_exclusions()),
    {
        Settings::with_shipped_defaults(&macos::default_exclusions())
    }
}

/// Whether two lists of strings say the same.
pub fn strings_eq(a: &Vec<String>, b: &Vec<String>) -> (r: bool)
    ensures
        r == (strings_view(a@) == strings_view(b@)),
{
    if a.len() != b.len() {
        assert(strings_view(a@).len() != strings_view(b@).len());
        return false;
    }
    for i in 0..a.len()
        invariant
            a@.len() == b@.len(),
            forall|k: int| 0 <= k < i ==> a@[k]@ == b@[k]@,
    {
                    if a[i] != b[i] {
            assert(strings_view(a@)[i as int] != strings_view(b@)[i as int]);
            return false;
        }
    }
    assert(strings_view(a@) =~= strings_view(b@));
    true
}

/// Whether two macro tables say the same.
pub fn macros_eq(a: &Vec<Macro>, b: &Vec<Macro>) -> (r: bool)
    ensures
        r == (macros_view(a@) == macros_view(b@)),
{
    if a.len() != b.len() {
        assert(macros_view(a@).len() != macros_view(b@).len());
        return false;
    }
    for i in 0..a.len()
        invariant
            a@.len() == b@.len(),
            forall|k: int| 0 <= k < i ==> a@[k]@ == b@[k]@,
    {
                    if a[i].shortcut != b[i].shortcut || a[i].expansion != b[i].expansion {
            assert(macros_view(a@)[i as int] != macros_view(b@)[i as int]);
            return false;
        }
    }
    assert(macros_view(a@) =~= macros_view(b@));
    true
}

/// Whether two lists of word decisions say the same.
pub fn word_overrides_eq(a: &Vec<WordOverride>, b: &Vec<WordOverride>) -> (r: bool)
    ensures
        r == (words_view(a@) == words_view(b@)),
{
    if a.len() != b.len() {
        assert(words_view(a@).len() != words_view(b@).len());
        return false;
    }
    for i in 0..a.len()
        invariant
            a@.len() == b@.len(),
            forall|k: int| 0 <= k < i ==> a@[k]@ == b@[k]@,
    {
                    if a[i].keys != b[i].keys || a[i].prefer != b[i].prefer {
            assert(words_view(a@)[i as int] != words_view(b@)[i as int]);
            return false;
        }
    }
    assert(words_view(a@) =~= words_view(b@));
    true
}

/// Whether two settings values say the same, field for field.
pub fn settings_eq(a: &Settings, b: &Settings) -> (r: bool)
    ensures
        r == (a@ == b@),
{
    let r = strings_eq(&a.exclusions, &b.exclusions)
        && strings_eq(&a.removed_default_exclusions, &b.removed_default_exclusions)
        && a.auto_fix == b.auto_fix && a.style == b.style && a.input_method == b.input_method
        && a.auto_capitalize == b.auto_capitalize && a.toggle_hotkey == b.toggle_hotkey
        && macros_eq(&a.macros, &b.macros) && a.restore_english_words == b.restore_english_words
        && a.open_settings_at_launch == b.open_settings_at_launch && a.language == b.language
        && a.quick_telex == b.quick_telex && a.telex_brackets == b.telex_brackets
        && a.strict_spell_check == b.strict_spell_check && a.always_macro == b.always_macro
        && a.welcome_shown == b.welcome_shown && word_overrides_eq(
        &a.word_overrides,
        &b.word_overrides,
    );
    if r {
        assert(a@ =~= b@);
    }
    r
}

/// The window's value where the user changed it, otherwise the live one.
#[verifier::opaque]
pub open spec fn pick<T>(baseline: T, edited: T, live: T) -> T {
    if edited == baseline {
        live
    } else {
        edited
    }
}

/// The three-way merge of a settings window's edits: every field the window
/// changed relative to the `baseline` it was handed takes the window's value;
/// every other field keeps the `live` one.
#[verifier::opaque]
pub open spec fn merge_model(b: SettingsModel, e: SettingsModel, l: SettingsModel) -> SettingsModel {
    SettingsModel {
        exclusions: pick(b.exclusions, e.exclusions, l.exclusions),
        removed_default_exclusions: pick(
            b.removed_default_exclusions,
            e.removed_default_exclusions,
            l.removed_default_exclusions,
        ),
        auto_fix: pick(b.auto_fix, e.auto_fix, l.auto_fix),
        style: pick(b.style, e.style, l.style),
        input_method: pick(b.input_method, e.input_method, l.input_method),
        auto_capitalize: pick(b.auto_capitalize, e.auto_capitalize, l.auto_capitalize),
        toggle_hotkey: pick(b.toggle_hotkey, e.toggle_hotkey, l.toggle_hotkey),
        macros: pick(b.macros, e.macros, l.macros),
        restore_english_words: pick(
            b.restore_english_words,
            e.restore_english_words,
            l.restore_english_words,
        ),
        open_settings_at_launch: pick(
            b.open_settings_at_launch,
            e.open_settings_at_launch,
            l.open_settings_at_launch,
        ),
        language: pick(b.language, e.language, l.language),
        quick_telex: pick(b.quick_telex, e.quick_telex, l.quick_telex),
        telex_brackets: pick(b.telex_brackets, e.telex_brackets, l.telex_brackets),
        strict_spell_check: pick(b.strict_spell_check, e.strict_spell_check, l.strict_spell_check),
        always_macro: pick(b.always_macro, e.always_macro, l.always_macro),
        welcome_shown: pick(b.welcome_shown, e.welcome_shown, l.welcome_shown),
        word_overrides: pick(b.word_overrides, e.word_overrides, l.word_overrides),
    }
}

fn pick_strings(baseline: &Vec<String>, edited: &Vec<String>, live: &mut Vec<String>)
    ensures
        strings_view(final(live)@) == pick(
            strings_view(baseline@),
            strings_view(edited@),
            strings_view(old(live)@),
        ),
{
    reveal(pick);
    if !strings_eq(edited, baseline) {
        *live = copy_strings(edited);
    }
}

fn pick_macros(baseline: &Vec<Macro>, edited: &Vec<Macro>, live: &mut Vec<Macro>)
    ensures
        macros_view(final(live)@) == pick(
            macros_view(baseline@),
            macros_view(edited@),
            macros_view(old(live)@),
        ),
{
    reveal(pick);
    if !macros_eq(edited, baseline) {
        *live = copy_macros(edited);
    }
}

fn pick_words(baseline: &Vec<WordOverride>, edited: &Vec<WordOverride>, live: &mut Vec<WordOverride>)
    ensures
        words_view(final(live)@) == pick(
            words_view(baseline@),
            words_view(edited@),
            words_view(old(live)@),
        ),
{
    reveal(pick);
    if !word_overrides_eq(edited, baseline) {
        *live = copy_word_overrides(edited);
    }
}

fn pick_bool(baseline: bool, edited: bool, live: bool) -> (r: bool)
    ensures
        r == pick(baseline, edited, live),
{
    reveal(pick);
    if edited == baseline {
        live
    } else {
        edited
    }
}

fn pick_style(baseline: PlacementStyle, edited: PlacementStyle, live: PlacementStyle) -> (r: PlacementStyle)
    ensures
        r == pick(baseline, edited, live),
{
    reveal(pick);
    if edited == baseline {
        live
    } else {
        edited
    }
}

fn pick_method(baseline: InputMethod, edited: InputMethod, live: InputMethod) -> (r: InputMethod)
    ensures
        r == pick(baseline, edited, live),
{
    reveal(pick);
    if edited == baseline {
        live
    } else {
        edited
    }
}

fn pick_hotkey(baseline: HotkeyPreset, edited: HotkeyPreset, live: HotkeyPreset) -> (r: HotkeyPreset)
    ensures
        r == pick(baseline, edited, live),
{
    reveal(pick);
    if edited == baseline {
        live
    } else {
        edited
    }
}

fn pick_language(baseline: Language, edited: Language, live: Language) -> (r: Language)
    ensures
        r == pick(baseline, edited, live),
{
    reveal(pick);
    if edited == baseline {
        live
    } else {
        edited
    }
}

/// The list-valued half of the merge: each list the window changed takes
/// the window's copy, every other field stays as `live` has it.
fn merge_lists(baseline: &Settings, edited: &Settings, live: Settings) -> (r: Settings)
    ensures
        r@.exclusions == pick(baseline@.exclusions, edited@.exclusions, live@.exclusions),
        r@.removed_default_exclusions == pick(baseline@.removed_default_exclusions, edited@.removed_default_exclusions, live@.removed_default_exclusions),
        r@.macros == pick(baseline@.macros, edited@.macros, live@.macros),
        r@.word_overrides == pick(baseline@.word_overrides, edited@.word_overrides, live@.word_overrides),
        r@.auto_fix == live@.auto_fix,
        r@.style == live@.style,
        r@.input_method == live@.input_method,
        r@.auto_capitalize == live@.auto_capitalize,
        r@.toggle_hotkey == live@.toggle_hotkey,
        r@.restore_english_words == live@.restore_english_words,
        r@.open_settings_at_launch == live@.open_settings_at_launch,
        r@.language == live@.language,
        r@.quick_telex == live@.quick_telex,
        r@.telex_brackets == live@.telex_brackets,
        r@.strict_spell_check == live@.strict_spell_check,
        r@.always_macro == live@.always_macro,
        r@.welcome_shown == live@.welcome_shown,
{
    let mut r = live;
    pick_strings(&baseline.exclusions, &edited.exclusions, &mut r.exclusions);
    pick_strings(&baseline.removed_default_exclusions, &edited.removed_default_exclusions, &mut r.removed_default_exclusions);
    pick_macros(&baseline.macros, &edited.macros, &mut r.macros);
    pick_words(&baseline.word_overrides, &edited.word_overrides, &mut r.word_overrides);
    r
}

/// Every field of the merge, one at a time.
#[verifier::rlimit(100)]
fn merge_fields(baseline: &Settings, edited: &Settings, live: Settings) -> (r: Settings)
    ensures
        r@.exclusions == pick(baseline@.exclusions, edited@.exclusions, live@.exclusions),
        r@.removed_default_exclusions == pick(baseline@.removed_default_exclusions, edited@.removed_default_exclusions, live@.removed_default_exclusions),
        r@.auto_fix == pick(baseline@.auto_fix, edited@.auto_fix, live@.auto_fix),
        r@.style == pick(baseline@.style, edited@.style, live@.style),
        r@.input_method == pick(baseline@.input_method, edited@.input_method, live@.input_method),
        r@.auto_capitalize == pick(baseline@.auto_capitalize, edited@.auto_capitalize, live@.auto_capitalize),
        r@.toggle_hotkey == pick(baseline@.toggle_hotkey, edited@.toggle_hotkey, live@.toggle_hotkey),
        r@.macros == pick(baseline@.macros, edited@.macros, live@.macros),
        r@.restore_english_words == pick(baseline@.restore_english_words, edited@.restore_english_words, live@.restore_english_words),
        r@.open_settings_at_launch == pick(baseline@.open_settings_at_launch, edited@.open_settings_at_launch, live@.open_settings_at_launch),
        r@.language == pick(baseline@.language, edited@.language, live@.language),
        r@.quick_telex == pick(baseline@.quick_telex, edited@.quick_telex, live@.quick_telex),
        r@.telex_brackets == pick(baseline@.telex_brackets, edited@.telex_brackets, live@.telex_brackets),
        r@.strict_spell_check == pick(baseline@.strict_spell_check, edited@.strict_spell_check, live@.strict_spell_check),
        r@.always_macro == pick(baseline@.always_macro, edited@.always_macro, live@.always_macro),
        r@.welcome_shown == pick(baseline@.welcome_shown, edited@.welcome_shown, live@.welcome_shown),
        r@.word_overrides == pick(baseline@.word_overrides, edited@.word_overrides, live@.word_overrides),
{
    let m = merge_lists(baseline, edited, live);
    let r = Settings {
        exclusions: m.exclusions,
        removed_default_exclusions: m.removed_default_exclusions,
        auto_fix: pick_bool(baseline.auto_fix, edited.auto_fix, m.auto_fix),
        style: pick_style(baseline.style, edited.style, m.style),
        input_method: pick_method(baseline.input_method, edited.input_method, m.input_method),
        auto_capitalize: pick_bool(baseline.auto_capitalize, edited.auto_capitalize, m.auto_capitalize),
        toggle_hotkey: pick_hotkey(baseline.toggle_hotkey, edited.toggle_hotkey, m.toggle_hotkey),
        macros: m.macros,
        restore_english_words: pick_bool(baseline.restore_english_words, edited.restore_english_words, m.restore_english_words),
        open_settings_at_launch: pick_bool(baseline.open_settings_at_launch, edited.open_settings_at_launch, m.open_settings_at_launch),
        language: pick_language(baseline.language, edited.language, m.language),
        quick_telex: pick_bool(baseline.quick_telex, edited.quick_telex, m.quick_telex),
        telex_brackets: pick_bool(baseline.telex_brackets, edited.telex_brackets, m.telex_brackets),
        strict_spell_check: pick_bool(baseline.strict_spell_check, edited.strict_spell_check, m.strict_spell_check),
        always_macro: pick_bool(baseline.always_macro, edited.always_macro, m.always_macro),
        welcome_shown: pick_bool(baseline.welcome_shown, edited.welcome_shown, m.welcome_shown),
        word_overrides: m.word_overrides,
    };
    r
}

/// Applies the settings window's edits without discarding what the session
/// learned while the window was open: `baseline` is what the window was
/// handed, `edited` what it returned, `live` what the session holds now.
pub fn merge_settings(baseline: &Settings, edited: &Settings, live: Settings) -> (r: Settings)
    ensures
        r@ == merge_model(baseline@, edited@, live@),
{
    let r = merge_fields(baseline, edited, live);
    proof {
        lemma_merge_from_fields(baseline@, edited@, live@, r@);
    }
    r
}

/// A model that agrees with the merge on every field is the merge.
proof fn lemma_merge_from_fields(b: SettingsModel, e: SettingsModel, l: SettingsModel, r: SettingsModel)
    requires
        r.exclusions == pick(b.exclusions, e.exclusions, l.exclusions),
        r.removed_default_exclusions == pick(b.removed_default_exclusions, e.removed_default_exclusions, l.removed_default_exclusions),
        r.auto_fix == pick(b.auto_fix, e.auto_fix, l.auto_fix),
        r.style == pick(b.style, e.style, l.style),
        r.input_method == pick(b.input_method, e.input_method, l.input_method),
        r.auto_capitalize == pick(b.auto_capitalize, e.auto_capitalize, l.auto_capitalize),
        r.toggle_hotkey == pick(b.toggle_hotkey, e.toggle_hotkey, l.toggle_hotkey),
        r.macros == pick(b.macros, e.macros, l.macros),
        r.restore_english_words == pick(b.restore_english_words, e.restore_english_words, l.restore_english_words),
        r.open_settings_at_launch == pick(b.open_settings_at_launch, e.open_settings_at_launch, l.open_settings_at_launch),
        r.language == pick(b.language, e.language, l.language),
        r.quick_telex == pick(b.quick_telex, e.quick_telex, l.quick_telex),
        r.telex_brackets == pick(b.telex_brackets, e.telex_brackets, l.telex_brackets),
        r.strict_spell_check == pick(b.strict_spell_check, e.strict_spell_check, l.strict_spell_check),
        r.always_macro == pick(b.always_macro, e.always_macro, l.always_macro),
        r.welcome_shown == pick(b.welcome_shown, e.welcome_shown, l.welcome_shown),
        r.word_overrides == pick(b.word_overrides, e.word_overrides, l.word_overrides),
    ensures
        r == merge_model(b, e, l),
{
    reveal(merge_model);
}

/// Field by field, the merge takes the window's value where it differs
/// from the baseline and the live value elsewhere.
pub proof fn lemma_merge_fields(b: SettingsModel, e: SettingsModel, l: SettingsModel)
    ensures
        merge_model(b, e, l).exclusions == pick(b.exclusions, e.exclusions, l.exclusions),
        merge_model(b, e, l).removed_default_exclusions == pick(b.removed_default_exclusions, e.removed_default_exclusions, l.removed_default_exclusions),
        merge_model(b, e, l).auto_fix == pick(b.auto_fix, e.auto_fix, l.auto_fix),
        merge_model(b, e, l).style == pick(b.style, e.style, l.style),
        merge_model(b, e, l).input_method == pick(b.input_method, e.input_method, l.input_method),
        merge_model(b, e, l).auto_capitalize == pick(b.auto_capitalize, e.auto_capitalize, l.auto_capitalize),
        merge_model(b, e, l).toggle_hotkey == pick(b.toggle_hotkey, e.toggle_hotkey, l.toggle_hotkey),
        merge_model(b, e, l).macros == pick(b.macros, e.macros, l.macros),
        merge_model(b, e, l).restore_english_words == pick(b.restore_english_words, e.restore_english_words, l.restore_english_words),
        merge_model(b, e, l).open_settings_at_launch == pick(b.open_settings_at_launch, e.open_settings_at_launch, l.open_settings_at_launch),
        merge_model(b, e, l).language == pick(b.language, e.language, l.language),
        merge_model(b, e, l).quick_telex == pick(b.quick_telex, e.quick_telex, l.quick_telex),
        merge_model(b, e, l).telex_brackets == pick(b.telex_brackets, e.telex_brackets, l.telex_brackets),
        merge_model(b, e, l).strict_spell_check == pick(b.strict_spell_check, e.strict_spell_check, l.strict_spell_check),
        merge_model(b, e, l).always_macro == pick(b.always_macro, e.always_macro, l.always_macro),
        merge_model(b, e, l).welcome_shown == pick(b.welcome_shown, e.welcome_shown, l.welcome_shown),
        merge_model(b, e, l).word_overrides == pick(b.word_overrides, e.word_overrides, l.word_overrides),
{
    reveal(merge_model);
}

proof fn lemma_merge_without_edits_fields(b: SettingsModel, l: SettingsModel)
    ensures
        merge_model(b, b, l).exclusions == l.exclusions,
        merge_model(b, b, l).removed_default_exclusions == l.removed_default_exclusions,
        merge_model(b, b, l).auto_fix == l.auto_fix,
        merge_model(b, b, l).style == l.style,
        merge_model(b, b, l).input_method == l.input_method,
        merge_model(b, b, l).auto_capitalize == l.auto_capitalize,
        merge_model(b, b, l).toggle_hotkey == l.toggle_hotkey,
        merge_model(b, b, l).macros == l.macros,
        merge_model(b, b, l).restore_english_words == l.restore_english_words,
        merge_model(b, b, l).open_settings_at_launch == l.open_settings_at_launch,
        merge_model(b, b, l).language == l.language,
        merge_model(b, b, l).quick_telex == l.quick_telex,
        merge_model(b, b, l).telex_brackets == l.telex_brackets,
        merge_model(b, b, l).strict_spell_check == l.strict_spell_check,
        merge_model(b, b, l).always_macro == l.always_macro,
        merge_model(b, b, l).welcome_shown == l.welcome_shown,
        merge_model(b, b, l).word_overrides == l.word_overrides,
{
    lemma_merge_fields(b, b, l);
    reveal(pick);
}

/// A window that changed nothing changes nothing: the merge hands back the
/// live settings untouched.
pub proof fn merge_without_edits_keeps_live(b: SettingsModel, l: SettingsModel)
    ensures
        merge_model(b, b, l) == l,
{
    lemma_merge_without_edits_fields(b, l);
    assert(merge_model(b, b, l) =~= l);
}

proof fn lemma_merge_over_unchanged_fields(b: SettingsModel, e: SettingsModel)
    ensures
        merge_model(b, e, b).exclusions == e.exclusions,
        merge_model(b, e, b).removed_default_exclusions == e.removed_default_exclusions,
        merge_model(b, e, b).auto_fix == e.auto_fix,
        merge_model(b, e, b).style == e.style,
        merge_model(b, e, b).input_method == e.input_method,
        merge_model(b, e, b).auto_capitalize == e.auto_capitalize,
        merge_model(b, e, b).toggle_hotkey == e.toggle_hotkey,
        merge_model(b, e, b).macros == e.macros,
        merge_model(b, e, b).restore_english_words == e.restore_english_words,
        merge_model(b, e, b).open_settings_at_launch == e.open_settings_at_launch,
        merge_model(b, e, b).language == e.language,
        merge_model(b, e, b).quick_telex == e.quick_telex,
        merge_model(b, e, b).telex_brackets == e.telex_brackets,
        merge_model(b, e, b).strict_spell_check == e.strict_spell_check,
        merge_model(b, e, b).always_macro == e.always_macro,
        merge_model(b, e, b).welcome_shown == e.welcome_shown,
        merge_model(b, e, b).word_overrides == e.word_overrides,
{
    lemma_merge_fields(b, e, b);
    reveal(pick);
}

/// When the session learned nothing while the window was open, the merge is
/// exactly what the window returned.
pub proof fn merge_over_unchanged_live_is_edited(b: SettingsModel, e: SettingsModel)
    ensures
        merge_model(b, e, b) == e,
{
    lemma_merge_over_unchanged_fields(b, e);
    assert(merge_model(b, e, b) =~= e);
}

proof fn lemma_merge_twice_fields(b: SettingsModel, e: SettingsModel, l: SettingsModel)
    ensures
        merge_model(b, e, merge_model(b, e, l)).exclusions == merge_model(b, e, l).exclusions,
        merge_model(b, e, merge_model(b, e, l)).removed_default_exclusions == merge_model(b, e, l).removed_default_exclusions,
        merge_model(b, e, merge_model(b, e, l)).auto_fix == merge_model(b, e, l).auto_fix,
        merge_model(b, e, merge_model(b, e, l)).style == merge_model(b, e, l).style,
        merge_model(b, e, merge_model(b, e, l)).input_method == merge_model(b, e, l).input_method,
        merge_model(b, e, merge_model(b, e, l)).auto_capitalize == merge_model(b, e, l).auto_capitalize,
        merge_model(b, e, merge_model(b, e, l)).toggle_hotkey == merge_model(b, e, l).toggle_hotkey,
        merge_model(b, e, merge_model(b, e, l)).macros == merge_model(b, e, l).macros,
        merge_model(b, e, merge_model(b, e, l)).restore_english_words == merge_model(b, e, l).restore_english_words,
        merge_model(b, e, merge_model(b, e, l)).open_settings_at_launch == merge_model(b, e, l).open_settings_at_launch,
        merge_model(b, e, merge_model(b, e, l)).language == merge_model(b, e, l).language,
        merge_model(b, e, merge_model(b, e, l)).quick_telex == merge_model(b, e, l).quick_telex,
        merge_model(b, e, merge_model(b, e, l)).telex_brackets == merge_model(b, e, l).telex_brackets,
        merge_model(b, e, merge_model(b, e, l)).strict_spell_check == merge_model(b, e, l).strict_spell_check,
        merge_model(b, e, merge_model(b, e, l)).always_macro == merge_model(b, e, l).always_macro,
        merge_model(b, e, merge_model(b, e, l)).welcome_shown == merge_model(b, e, l).welcome_shown,
        merge_model(b, e, merge_model(b, e, l)).word_overrides == merge_model(b, e, l).word_overrides,
{
    lemma_merge_fields(b, e, l);
    lemma_merge_fields(b, e, merge_model(b, e, l));
    reveal(pick);
}

/// Applying the same window result twice is the same as applying it once.
pub proof fn merge_is_idempotent(b: SettingsModel, e: SettingsModel, l: SettingsModel)
    ensures
        merge_model(b, e, merge_model(b, e, l)) == merge_model(b, e, l),
{
    lemma_merge_twice_fields(b, e, l);
    assert(merge_model(b, e, merge_model(b, e, l)) =~= merge_model(b, e, l));
}

} // verus!
