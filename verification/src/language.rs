//! Language handling: the supported language codes, the keyed packs of
//! UI/system text, and the resolver that turns a dotted key path into
//! display text — with a flagged placeholder for unknown keys, never a
//! failure.

use vstd::prelude::*;
use vstd::string::StringExecFns;
use crate::localized::str_eq;
use crate::state::VNState;

verus! {

/// The languages the engine knows about.
#[derive(Clone, Copy, PartialEq, Eq, Hash, Debug, Structural)]
pub enum LanguageCode {
    Thai,
    English,
    Japanese,
}

/// The canonical short code of each language.
pub open spec fn language_code_str(c: LanguageCode) -> Seq<char> {
    match c {
        LanguageCode::Thai => "th-th"@,
        LanguageCode::English => "en-us"@,
        LanguageCode::Japanese => "jp-jp"@,
    }
}

/// The language named by `s`, accepting both the short code and the long
/// name.
pub open spec fn language_code_from_str_spec(s: Seq<char>) -> Option<LanguageCode> {
    if s == "th-th"@ || s == "thai"@ {
        Some(LanguageCode::Thai)
    } else if s == "en-us"@ || s == "english"@ {
        Some(LanguageCode::English)
    } else if s == "jp-jp"@ || s == "japanese"@ {
        Some(LanguageCode::Japanese)
    } else {
        None
    }
}

/// Each language's name in its own script.
pub open spec fn language_display_name(c: LanguageCode) -> Seq<char> {
    match c {
        LanguageCode::Thai => "ไทย"@,
        LanguageCode::English => "English"@,
        LanguageCode::Japanese => "日本語"@,
    }
}

/// The long language name the playback state stores for each code.
pub open spec fn playback_language_name(c: LanguageCode) -> Seq<char> {
    match c {
        LanguageCode::Thai => "thai"@,
        LanguageCode::English => "english"@,
        LanguageCode::Japanese => "japanese"@,
    }
}

/// The code for a playback-state language name, falling back to Thai for
/// anything unrecognized.
pub open spec fn playback_language_code(s: Seq<char>) -> LanguageCode {
    if s == "thai"@ {
        LanguageCode::Thai
    } else if s == "english"@ {
        LanguageCode::English
    } else if s == "japanese"@ {
        LanguageCode::Japanese
    } else {
        LanguageCode::Thai
    }
}

impl LanguageCode {
    /// The short code, such as `"th-th"`.
    pub fn as_str(&self) -> (r: &'static str)
        ensures
            r@ == language_code_str(*self),
    {
        match self {
            LanguageCode::Thai => "th-th",
            LanguageCode::English => "en-us",
            LanguageCode::Japanese => "jp-jp",
        }
    }

    /// Parse a short code or a long name into a language.
    pub fn from_str(s: &str) -> (r: Option<LanguageCode>)
        ensures
            r == language_code_from_str_spec(s@),
    {
        if str_eq(s, "th-th") || str_eq(s, "thai") {
            Some(LanguageCode::Thai)
        } else if str_eq(s, "en-us") || str_eq(s, "english") {
            Some(LanguageCode::English)
        } else if str_eq(s, "jp-jp") || str_eq(s, "japanese") {
            Some(LanguageCode::Japanese)
        } else {
            None
        }
    }

    /// The language's name in its own script.
    pub fn display_name(&self) -> (r: &'static str)
        ensures
            r@ == language_display_name(*self),
    {
        match self {
            LanguageCode::Thai => "ไทย",
            LanguageCode::English => "English",
            LanguageCode::Japanese => "日本語",
        }
    }
}

/// The language named by a playback-state string, or `None` for an
/// unrecognized name.
pub fn string_to_language_code(lang_str: &str) -> (r: Option<LanguageCode>)
    ensures
        match r {
            Some(c) => lang_str@ == playback_language_name(c),
            None => lang_str@ != "thai"@ && lang_str@ != "english"@ && lang_str@ != "japanese"@,
        },
{
    if str_eq(lang_str, "thai") {
        Some(LanguageCode::Thai)
    } else if str_eq(lang_str, "english") {
        Some(LanguageCode::English)
    } else if str_eq(lang_str, "japanese") {
        Some(LanguageCode::Japanese)
    } else {
        None
    }
}

/// UI strings of a language pack.
pub struct UiTexts {
    pub start_game: String,
    pub settings: String,
    pub exit_game: String,
    pub loading: String,
    pub loading_subtitle: String,
    pub choose_action: String,
    pub game_title: String,
    pub game_subtitle: String,
    pub controls_help: String,
    pub settings_title: String,
    pub language_setting: String,
    pub resolution_setting: String,
    pub fullscreen_setting: String,
    pub enabled: String,
    pub disabled: String,
    pub back: String,
    pub apply_settings: String,
    pub change: String,
    pub toggle: String,
}

/// Dialog-box strings of a language pack.
pub struct DialogTexts {
    pub choose_action: String,
    pub continue_hint: String,
    pub language_indicator: String,
}

/// Game strings of a language pack.
pub struct GameTexts {
    pub narrator: String,
    pub you: String,
    pub unknown: String,
}

/// One language's keyed pack of UI/system text.
pub struct LanguagePack {
    pub ui: UiTexts,
    pub dialog: DialogTexts,
    pub game: GameTexts,
}

/// The placeholder for a key path the pack does not serve.
pub open spec fn missing_key_placeholder(path: Seq<char>) -> Seq<char> {
    "[Missing: "@ + path + "]"@
}

/// The text a pack serves for a dotted key path, or the flagged
/// placeholder for an unknown path.
pub open spec fn pack_text_spec(pack: LanguagePack, path: Seq<char>) -> Seq<char> {
    if path == "ui.start_game"@ {
        pack.ui.start_game@
    } else if path == "ui.settings"@ {
        pack.ui.settings@
    } else if path == "ui.exit_game"@ {
        pack.ui.exit_game@
    } else if path == "ui.loading"@ {
        pack.ui.loading@
    } else if path == "ui.loading_subtitle"@ {
        pack.ui.loading_subtitle@
    } else if path == "ui.choose_action"@ {
        pack.ui.choose_action@
    } else if path == "ui.game_title"@ {
        pack.ui.game_title@
    } else if path == "ui.game_subtitle"@ {
        pack.ui.game_subtitle@
    } else if path == "ui.controls_help"@ {
        pack.ui.controls_help@
    } else if path == "dialog.choose_action"@ {
        pack.dialog.choose_action@
    } else if path == "dialog.continue_hint"@ {
        pack.dialog.continue_hint@
    } else if path == "dialog.language_indicator"@ {
        pack.dialog.language_indicator@
    } else if path == "game.narrator"@ {
        pack.game.narrator@
    } else if path == "game.you"@ {
        pack.game.you@
    } else if path == "game.unknown"@ {
        pack.game.unknown@
    } else {
        missing_key_placeholder(path)
    }
}

/// Serve the text under a dotted key path from `pack`; an unknown path
/// renders as a flagged placeholder instead of failing.
pub fn get_text_from_pack(pack: &LanguagePack, path: &str) -> (r: String)
    ensures
        r@ == pack_text_spec(*pack, path@),
{
    if str_eq(path, "ui.start_game") {
        pack.ui.start_game.clone()
    } else if str_eq(path, "ui.settings") {
        pack.ui.settings.clone()
    } else if str_eq(path, "ui.exit_game") {
        pack.ui.exit_game.clone()
    } else if str_eq(path, "ui.loading") {
        pack.ui.loading.clone()
    } else if str_eq(path, "ui.loading_subtitle") {
        pack.ui.loading_subtitle.clone()
    } else if str_eq(path, "ui.choose_action") {
        pack.ui.choose_action.clone()
    } else if str_eq(path, "ui.game_title") {
        pack.ui.game_title.clone()
    } else if str_eq(path, "ui.game_subtitle") {
        pack.ui.game_subtitle.clone()
    } else if str_eq(path, "ui.controls_help") {
        pack.ui.controls_help.clone()
    } else if str_eq(path, "dialog.choose_action") {
        pack.dialog.choose_action.clone()
    } else if str_eq(path, "dialog.continue_hint") {
        pack.dialog.continue_hint.clone()
    } else if str_eq(path, "dialog.language_indicator") {
        pack.dialog.language_indicator.clone()
    } else if str_eq(path, "game.narrator") {
        pack.game.narrator.clone()
    } else if str_eq(path, "game.you") {
        pack.game.you.clone()
    } else if str_eq(path, "game.unknown") {
        pack.game.unknown.clone()
    } else {
        let mut s = String::from_str("[Missing: ");
        s.append(path);
        s.append("]");
        s
    }
}

/// First-match lookup of a pack by language code.
pub open spec fn pack_lookup_from(
    packs: Seq<(LanguageCode, LanguagePack)>,
    code: LanguageCode,
    i: int,
) -> Option<LanguagePack>
    decreases packs.len() - i,
{
    if i < 0 || i >= packs.len() {
        None
    } else if packs[i].0 == code {
        Some(packs[i].1)
    } else {
        pack_lookup_from(packs, code, i + 1)
    }
}

/// The pack registered for `code`, if any.
pub open spec fn pack_lookup(
    packs: Seq<(LanguageCode, LanguagePack)>,
    code: LanguageCode,
) -> Option<LanguagePack> {
    pack_lookup_from(packs, code, 0)
}

proof fn lemma_pack_lookup_none(packs: Seq<(LanguageCode, LanguagePack)>, code: LanguageCode, s: int)
    requires
        forall|j: int| s <= j < packs.len() ==> (#[trigger] packs[j]).0 != code,
    ensures
        pack_lookup_from(packs, code, s) is None,
    decreases packs.len() - s,
{
    if 0 <= s < packs.len() {
        lemma_pack_lookup_none(packs, code, s + 1);
    }
}

proof fn lemma_pack_lookup_found(
    packs: Seq<(LanguageCode, LanguagePack)>,
    code: LanguageCode,
    s: int,
    i: int,
)
    requires
        0 <= s <= i < packs.len(),
        forall|j: int| s <= j < i ==> (#[trigger] packs[j]).0 != code,
        packs[i].0 == code,
    ensures
        pack_lookup_from(packs, code, s) == Some(packs[i].1),
    decreases i - s,
{
    if s < i {
        lemma_pack_lookup_found(packs, code, s + 1, i);
    }
}

/// All loaded language packs, which language is current, and whether the
/// system has been loaded and initialized.
pub struct LanguageResource {
    pub packs: Vec<(LanguageCode, LanguagePack)>,
    pub current_language: LanguageCode,
    /// The language whose pack is currently selected, if one was.
    pub current_pack: Option<LanguageCode>,
    pub loaded: bool,
    pub initialized: bool,
}

impl Default for LanguageResource {
    /// No packs, Thai current, nothing selected, not loaded.
    fn default() -> (r: LanguageResource)
        ensures
            r.pack_table().len() == 0,
            r.current_language == LanguageCode::Thai,
            r.current_pack is None,
            r.loaded == false,
            r.initialized == false,
    {
        LanguageResource {
            packs: Vec::new(),
            current_language: LanguageCode::Thai,
            current_pack: None,
            loaded: false,
            initialized: false,
        }
    }
}

impl LanguageResource {
    /// The registered packs, keyed by language.
    pub open spec fn pack_table(&self) -> Seq<(LanguageCode, LanguagePack)> {
        self.packs@
    }

    /// No packs, Thai current, nothing selected, not loaded.
    pub fn new() -> (r: LanguageResource)
        ensures
            r.pack_table().len() == 0,
            r.current_language == LanguageCode::Thai,
            r.current_pack is None,
            r.loaded == false,
            r.initialized == false,
    {
        LanguageResource {
            packs: Vec::new(),
            current_language: LanguageCode::Thai,
            current_pack: None,
            loaded: false,
            initialized: false,
        }
    }

    /// Register the pack for `code`; the first registration per code
    /// wins the slot order, a second one for the same code replaces it.
    pub fn register_pack(&mut self, code: LanguageCode, pack: LanguagePack)
        ensures
            pack_lookup(final(self).pack_table(), code) == Some(pack),
            forall|c: LanguageCode| c != code ==> #[trigger] pack_lookup(
                final(self).pack_table(),
                c,
            ) == pack_lookup(old(self).pack_table(), c),
            final(self).current_language == old(self).current_language,
            final(self).current_pack == old(self).current_pack,
            final(self).loaded == old(self).loaded,
            final(self).initialized == old(self).initialized,
    {
        let n = self.packs.len();
        let mut i: usize = 0;
        while i < n
            invariant
                n == self.packs.len(),
                i <= n,
                *self == *old(self),
                forall|j: int| 0 <= j < i ==> (#[trigger] self.packs@[j]).0 != code,
            decreases n - i,
        {
            if self.packs[i].0 == code {
                let ghost pre = self.packs@;
                let kept = self.packs.remove(i);
                self.packs.insert(i, (kept.0, pack));
                proof {
                    assert(self.packs@ =~= pre.update(i as int, (code, pack)));
                    lemma_pack_lookup_found(self.packs@, code, 0, i as int);
                    assert forall|c: LanguageCode| c != code implies #[trigger] pack_lookup(
                        self.packs@,
                        c,
                    ) == pack_lookup(pre, c) by {
                        lemma_pack_lookup_agree(self.packs@, pre, c, 0);
                    }
                }
                return ;
            }
            i = i + 1;
        }
        let ghost pre = self.packs@;
        self.packs.push((code, pack));
        proof {
            assert(self.packs@ =~= pre.push((code, pack)));
            lemma_pack_lookup_found(self.packs@, code, 0, pre.len() as int);
            assert forall|c: LanguageCode| c != code implies #[trigger] pack_lookup(self.packs@, c)
                == pack_lookup(pre, c) by {
                lemma_pack_lookup_push_other(pre, (code, pack), c, 0);
            }
        }
    }

    /// The pack registered for `code`, if any.
    pub fn get_pack(&self, code: LanguageCode) -> (r: Option<&LanguagePack>)
        ensures
            match r {
                Some(p) => pack_lookup(self.pack_table(), code) == Some(*p),
                None => pack_lookup(self.pack_table(), code) is None,
            },
    {
        let n = self.packs.len();
        let mut i: usize = 0;
        while i < n
            invariant
                n == self.packs.len(),
                i <= n,
                forall|j: int| 0 <= j < i ==> (#[trigger] self.packs@[j]).0 != code,
            decreases n - i,
        {
            if self.packs[i].0 == code {
                proof {
                    lemma_pack_lookup_found(self.packs@, code, 0, i as int);
                }
                return Some(&self.packs[i].1);
            }
            i = i + 1;
        }
        proof {
            lemma_pack_lookup_none(self.packs@, code, 0);
        }
        None
    }

    /// Switch to `language` if its pack is registered; on a miss nothing
    /// changes and the call reports failure.
    pub fn change_language(&mut self, language: LanguageCode) -> (r: bool)
        ensures
            r == (pack_lookup(old(self).pack_table(), language) is Some),
            r ==> {
                &&& final(self).current_language == language
                &&& final(self).current_pack == Some(language)
                &&& final(self).pack_table() == old(self).pack_table()
                &&& final(self).loaded == old(self).loaded
                &&& final(self).initialized == old(self).initialized
            },
            !r ==> *final(self) == *old(self),
    {
        let found = match self.get_pack(language) {
            Some(_) => true,
            None => false,
        };
        if found {
            self.current_language = language;
            self.current_pack = Some(language);
            true
        } else {
            false
        }
    }

    /// The next language in the cycle Thai, English, Japanese.
    pub fn next_language(&self) -> (r: LanguageCode)
        ensures
            r == next_language_spec(self.current_language),
    {
        match self.current_language {
            LanguageCode::Thai => LanguageCode::English,
            LanguageCode::English => LanguageCode::Japanese,
            LanguageCode::Japanese => LanguageCode::Thai,
        }
    }

    /// Adopt the playback state's language once: a no-op after the first
    /// successful initialization, and a reported failure when the pack
    /// for the state's language is missing.
    pub fn initialize_from_vn_state(&mut self, vn_state: &VNState) -> (r: bool)
        ensures
            old(self).initialized ==> r == false && *final(self) == *old(self),
            !old(self).initialized ==> {
                &&& r == (pack_lookup(
                    old(self).pack_table(),
                    playback_language_code(vn_state.language@),
                ) is Some)
                &&& r ==> {
                    &&& final(self).current_language == playback_language_code(vn_state.language@)
                    &&& final(self).current_pack == Some(
                        playback_language_code(vn_state.language@),
                    )
                    &&& final(self).pack_table() == old(self).pack_table()
                    &&& final(self).loaded == old(self).loaded
                    &&& final(self).initialized == true
                }
                &&& !r ==> *final(self) == *old(self)
            },
    {
        if self.initialized {
            return false;
        }
        let language_code = if str_eq(vn_state.language.as_str(), "thai") {
            LanguageCode::Thai
        } else if str_eq(vn_state.language.as_str(), "english") {
            LanguageCode::English
        } else if str_eq(vn_state.language.as_str(), "japanese") {
            LanguageCode::Japanese
        } else {
            LanguageCode::Thai
        };
        if self.change_language(language_code) {
            self.initialized = true;
            true
        } else {
            false
        }
    }
}

/// The cycle order of the language toggle.
pub open spec fn next_language_spec(c: LanguageCode) -> LanguageCode {
    match c {
        LanguageCode::Thai => LanguageCode::English,
        LanguageCode::English => LanguageCode::Japanese,
        LanguageCode::Japanese => LanguageCode::Thai,
    }
}

proof fn lemma_pack_lookup_push_other(
    packs: Seq<(LanguageCode, LanguagePack)>,
    p: (LanguageCode, LanguagePack),
    code: LanguageCode,
    s: int,
)
    requires
        p.0 != code,
        0 <= s,
    ensures
        pack_lookup_from(packs.push(p), code, s) == pack_lookup_from(packs, code, s),
    decreases packs.len() + 1 - s,
{
    if s < packs.len() + 1 {
        lemma_pack_lookup_push_other(packs, p, code, s + 1);
    }
}

proof fn lemma_pack_lookup_agree(
    m1: Seq<(LanguageCode, LanguagePack)>,
    m2: Seq<(LanguageCode, LanguagePack)>,
    code: LanguageCode,
    s: int,
)
    requires
        m1.len() == m2.len(),
        forall|j: int| 0 <= j < m1.len() ==> (#[trigger] m1[j]).0 == (#[trigger] m2[j]).0,
        forall|j: int| 0 <= j < m1.len() && (#[trigger] m1[j]).0 == code ==> m1[j].1 == m2[j].1,
        0 <= s,
    ensures
        pack_lookup_from(m1, code, s) == pack_lookup_from(m2, code, s),
    decreases m1.len() - s,
{
    if s < m1.len() {
        lemma_pack_lookup_agree(m1, m2, code, s + 1);
    }
}

/// What `get_text` serves: the current pack's text for the path, or the
/// bracketed path when no pack is selected or registered.
pub open spec fn resource_text_spec(res: LanguageResource, path: Seq<char>) -> Seq<char> {
    match res.current_pack {
        Some(code) => match pack_lookup(res.pack_table(), code) {
            Some(pack) => pack_text_spec(pack, path),
            None => "["@ + path + "]"@,
        },
        None => "["@ + path + "]"@,
    }
}

/// Serve the text under `path` from the currently selected language pack,
/// falling back to the bracketed path when no pack is available.
pub fn get_text(language_resource: &LanguageResource, path: &str) -> (r: String)
    ensures
        r@ == resource_text_spec(*language_resource, path@),
{
    match language_resource.current_pack {
        Some(code) => match language_resource.get_pack(code) {
            Some(pack) => get_text_from_pack(pack, path),
            None => {
                let mut s = String::from_str("[");
                s.append(path);
                s.append("]");
                s
            },
        },
        None => {
            let mut s = String::from_str("[");
            s.append(path);
            s.append("]");
            s
        },
    }
}

/// Toggle the playback language between Thai and English, reporting
/// whether it changed (it always does: any other language toggles to
/// Thai).
pub fn switch_language(state: &mut VNState) -> (r: bool)
    ensures
        old(state).language@ == "thai"@ ==> final(state).language@ == "english"@,
        old(state).language@ != "thai"@ ==> final(state).language@ == "thai"@,
        r == (old(state).language@ != final(state).language@),
        final(state).stage == old(state).stage,
        final(state).current_scene == old(state).current_scene,
        final(state).stage_changed == old(state).stage_changed,
        r ==> final(state).dialog_needs_reset == true,
        !r ==> final(state).dialog_needs_reset == old(state).dialog_needs_reset,
{
    let new_language = if str_eq(state.language.as_str(), "thai") {
        String::from_str("english")
    } else {
        String::from_str("thai")
    };
    let changed = !str_eq(state.language.as_str(), new_language.as_str());
    state.change_language(new_language);
    changed
}

impl VNState {
    /// Adopt a language chosen through the language system, marking the
    /// dialog for reset exactly when the language actually changes.
    pub fn sync_with_language_system(&mut self, language_code: &LanguageCode)
        ensures
            old(self).language@ == playback_language_name(*language_code) ==> *final(self) == *old(
                self,
            ),
            old(self).language@ != playback_language_name(*language_code) ==> {
                &&& final(self).language@ == playback_language_name(*language_code)
                &&& final(self).dialog_needs_reset == true
                &&& final(self).stage == old(self).stage
                &&& final(self).current_scene == old(self).current_scene
                &&& final(self).stage_changed == old(self).stage_changed
            },
    {
        let lang_str = match language_code {
            LanguageCode::Thai => "thai",
            LanguageCode::English => "english",
            LanguageCode::Japanese => "japanese",
        };
        self.change_language(lang_str.to_owned());
    }
}

} // verus!
