//! What the event tap puts off while the input policy decides a key, and the
//! order it then carries it out in. Edits are queued rather than posted while
//! the policy holds the session, and so are the repaint, the Personal Words
//! reload and the on-screen confirmation: each of them reads the session or
//! may pump the run loop.
use vstd::prelude::*;
use vstd::string::StringExecFns;

use crate::session::ExclusionToggle;
use crate::settings::InputMode;
use crate::text::concat3;

verus! {

/// Something the policy reports while deciding a key.
#[derive(Clone, Debug, PartialEq, Eq)]
pub enum Notice {
    /// The hotkey switched the mode.
    ModeToggled(InputMode),
    /// A personal word was recorded or dropped.
    PersonalWordsChanged,
    /// The correction hotkey swapped a word and remembered the choice.
    Corrected { was: String, becomes: String },
    /// The per-application hotkey toggled the application in front.
    AppToggled(ExclusionToggle),
}

/// The on-screen confirmation a notice asks for, if any.
pub open spec fn spec_hud(notice: Notice) -> Option<Seq<char>> {
    match notice {
        Notice::ModeToggled(mode) => Some(
            if mode == InputMode::Vietnamese {
                "VI"@
            } else {
                "EN"@
            },
        ),
        Notice::PersonalWordsChanged => None,
        Notice::Corrected { was, becomes } => Some(was@ + " → "@ + becomes@),
        Notice::AppToggled(outcome) => Some(
            match outcome {
                ExclusionToggle::Excluded => "EN"@,
                ExclusionToggle::Enabled => "VI"@,
                ExclusionToggle::EnabledSessionOnly => "VI ⚠"@,
            },
        ),
    }
}

/// The on-screen confirmation a notice asks for, if any.
pub fn hud_text(notice: &Notice) -> (r: Option<String>)
    ensures
        match r {
            Some(t) => spec_hud(*notice) == Some(t@),
            None => spec_hud(*notice) is None,
        },
{
    match notice {
        Notice::ModeToggled(mode) => Some(
            match mode {
                InputMode::Vietnamese => "VI".to_owned(),
                InputMode::English => "EN".to_owned(),
            },
        ),
        Notice::PersonalWordsChanged => None,
        Notice::Corrected { was, becomes } => Some(concat3(was.as_str(), " → ", becomes.as_str())),
        Notice::AppToggled(outcome) => Some(
            match outcome {
                ExclusionToggle::Excluded => "EN".to_owned(),
                ExclusionToggle::Enabled => "VI".to_owned(),
                ExclusionToggle::EnabledSessionOnly => "VI ⚠".to_owned(),
            },
        ),
    }
}

/// How a toggle reads in the log.
pub open spec fn spec_toggle_described(outcome: ExclusionToggle) -> Seq<char> {
    match outcome {
        ExclusionToggle::Excluded => "disabled"@,
        ExclusionToggle::Enabled => "enabled"@,
        ExclusionToggle::EnabledSessionOnly => "enabled UNTIL RESTART (terminal: Vietnamese will mangle in a PTY)"@,
    }
}

/// How a toggle reads in the log: a terminal enabled by the hotkey is said
/// to be enabled only until restart.
pub fn toggle_described(outcome: ExclusionToggle) -> (r: &'static str)
    ensures
        r@ == spec_toggle_described(outcome),
{
    match outcome {
        ExclusionToggle::Excluded => "disabled",
        ExclusionToggle::Enabled => "enabled",
        ExclusionToggle::EnabledSessionOnly => "enabled UNTIL RESTART (terminal: Vietnamese will mangle in a PTY)",
    }
}

/// One thing the tap does after the policy returned.
#[derive(Clone, Debug, PartialEq, Eq)]
pub enum TapAction {
    /// Post an edit: delete `backspaces` characters, then type `insert`.
    PostEdit { backspaces: usize, insert: String },
    /// Replay the key from GlowKey's own event source, after the edits.
    ReplayKey,
    /// Repaint the menu-bar glyph.
    RefreshGlyph,
    /// Reload the Personal Words window.
    ReloadPersonalWords,
    /// Flash the on-screen confirmation.
    Hud(String),
}

/// A [`TapAction`] as a value.
pub enum TapActionModel {
    PostEdit { backspaces: usize, insert: Seq<char> },
    ReplayKey,
    RefreshGlyph,
    ReloadPersonalWords,
    Hud(Seq<char>),
}

impl TapAction {
    /// The action as a value.
    pub open spec fn model(self) -> TapActionModel {
        match self {
            TapAction::PostEdit { backspaces, insert } => TapActionModel::PostEdit { backspaces, insert: insert@ },
            TapAction::ReplayKey => TapActionModel::ReplayKey,
            TapAction::RefreshGlyph => TapActionModel::RefreshGlyph,
            TapAction::ReloadPersonalWords => TapActionModel::ReloadPersonalWords,
            TapAction::Hud(t) => TapActionModel::Hud(t@),
        }
    }
}

/// The actions in a list, as values.
pub open spec fn actions_view(actions: Seq<TapAction>) -> Seq<TapActionModel> {
    actions.map_values(|a: TapAction| a.model())
}

/// What the port put off until the policy returned.
#[derive(Debug)]
pub struct Deferred {
    edits: Vec<(usize, String)>,
    replay: bool,
    refresh_glyph: bool,
    hud: Option<String>,
    personal_words_changed: bool,
}

/// The deferred work as values.
pub struct DeferredModel {
    /// The edits, in the order the policy asked for them.
    pub edits: Seq<(usize, Seq<char>)>,
    pub replay: bool,
    pub refresh_glyph: bool,
    /// The latest confirmation asked for.
    pub hud: Option<Seq<char>>,
    pub personal_words_changed: bool,
}

/// The order the tap carries deferred work out in: the edits first (they are
/// the keystroke's latency), then the replayed key behind them, then the
/// repaint, the Personal Words reload and the confirmation.
pub open spec fn spec_actions(d: DeferredModel) -> Seq<TapActionModel> {
    Seq::new(d.edits.len(), |i: int| TapActionModel::PostEdit { backspaces: d.edits[i].0, insert: d.edits[i].1 })
        + (if d.replay { seq![TapActionModel::ReplayKey] } else { Seq::empty() })
        + (if d.refresh_glyph { seq![TapActionModel::RefreshGlyph] } else { Seq::empty() })
        + (if d.personal_words_changed { seq![TapActionModel::ReloadPersonalWords] } else { Seq::empty() })
        + (match d.hud { Some(t) => seq![TapActionModel::Hud(t)], None => Seq::empty() })
}

impl View for Deferred {
    type V = DeferredModel;

    closed spec fn view(&self) -> DeferredModel {
        DeferredModel {
            edits: self.edits@.map_values(|e: (usize, String)| (e.0, e.1@)),
            replay: self.replay,
            refresh_glyph: self.refresh_glyph,
            hud: match self.hud {
                Some(t) => Some(t@),
                None => None,
            },
            personal_words_changed: self.personal_words_changed,
        }
    }
}

impl Deferred {
    /// Nothing put off.
    pub fn new() -> (r: Self)
        ensures
            r@ == (DeferredModel {
                edits: Seq::empty(),
                replay: false,
                refresh_glyph: false,
                hud: None,
                personal_words_changed: false,
            }),
    {
        let r = Deferred {
            edits: Vec::new(),
            replay: false,
            refresh_glyph: false,
            hud: None,
            personal_words_changed: false,
        };
        assert(r@.edits =~= Seq::<(usize, Seq<char>)>::empty());
        r
    }

    /// The policy asks for an edit: queued behind the earlier ones.
    pub fn inject(&mut self, backspaces: usize, text: &str)
        ensures
            final(self)@ == (DeferredModel { edits: old(self)@.edits.push((backspaces, text@)), ..old(self)@ }),
    {
        let ghost before = self.edits@;
        self.edits.push((backspaces, text.to_owned()));
        assert(self@.edits =~= before.map_values(|e: (usize, String)| (e.0, e.1@)).push((backspaces, text@)));
    }

    /// The policy asks for the key to be replayed after the edits.
    pub fn replay_key(&mut self)
        ensures
            final(self)@ == (DeferredModel { replay: true, ..old(self)@ }),
    {
        self.replay = true;
    }

    /// The policy says the menu-bar glyph is now wrong.
    pub fn request_indicator(&mut self)
        ensures
            final(self)@ == (DeferredModel { refresh_glyph: true, ..old(self)@ }),
    {
        self.refresh_glyph = true;
    }

    /// A notice: its confirmation replaces any earlier one, and a change of
    /// the personal words marks the window for a reload.
    pub fn notify(&mut self, notice: &Notice)
        ensures
            final(self)@ == (DeferredModel {
                hud: match spec_hud(*notice) {
                    Some(t) => Some(t),
                    None => old(self)@.hud,
                },
                personal_words_changed: old(self)@.personal_words_changed || notice is PersonalWordsChanged,
                ..old(self)@
            }),
    {
        match notice {
            Notice::PersonalWordsChanged => {
                self.personal_words_changed = true;
            },
            _ => {
                let t = hud_text(notice);
                if t.is_some() {
                    self.hud = t;
                }
            },
        }
    }

    /// What to carry out, in order.
    pub fn actions(&self) -> (r: Vec<TapAction>)
        ensures
            actions_view(r@) == spec_actions(self@),
    {
        let mut r: Vec<TapAction> = Vec::new();
        let ghost d = self@;
        for i in 0..self.edits.len()
            invariant
                d == self@,
                actions_view(r@) == Seq::new(
                    i as nat,
                    |k: int| TapActionModel::PostEdit { backspaces: d.edits[k].0, insert: d.edits[k].1 },
                ),
        {
            let (b, t) = &self.edits[i];
            let ghost before = r@;
            r.push(TapAction::PostEdit { backspaces: *b, insert: t.clone() });
            assert(actions_view(r@) =~= actions_view(before).push(TapActionModel::PostEdit { backspaces: *b, insert: t@ }));
            assert(d.edits[i as int] == (*b, t@));
            assert(actions_view(r@) =~= Seq::new(
                (i + 1) as nat,
                |k: int| TapActionModel::PostEdit { backspaces: d.edits[k].0, insert: d.edits[k].1 },
            ));
        }
        let ghost edits_part = actions_view(r@);
        if self.replay {
            r.push(TapAction::ReplayKey);
        }
        let ghost p1 = actions_view(r@);
        assert(p1 =~= edits_part + (if d.replay { seq![TapActionModel::ReplayKey] } else { Seq::empty() }));
        if self.refresh_glyph {
            r.push(TapAction::RefreshGlyph);
        }
        let ghost p2 = actions_view(r@);
        assert(p2 =~= p1 + (if d.refresh_glyph { seq![TapActionModel::RefreshGlyph] } else { Seq::empty() }));
        if self.personal_words_changed {
            r.push(TapAction::ReloadPersonalWords);
        }
        let ghost p3 = actions_view(r@);
        assert(p3 =~= p2 + (if d.personal_words_changed { seq![TapActionModel::ReloadPersonalWords] } else { Seq::empty() }));
        match &self.hud {
            Some(t) => {
                r.push(TapAction::Hud(t.clone()));
            },
            None => {},
        }
        assert(actions_view(r@) =~= p3 + (match d.hud { Some(t) => seq![TapActionModel::Hud(t)], None => Seq::empty() }));
        r
    }
}

/// The replayed key lands behind every edit of the same keystroke, never
/// before one: the edits come first, in the order asked for.
pub proof fn the_replay_lands_after_the_edits(d: DeferredModel)
    requires
        d.replay,
    ensures
        spec_actions(d)[d.edits.len() as int] == TapActionModel::ReplayKey,
        forall|i: int| 0 <= i < d.edits.len() ==> #[trigger] spec_actions(d)[i] == (TapActionModel::PostEdit {
            backspaces: d.edits[i].0,
            insert: d.edits[i].1,
        }),
{
}

} // verus!
