//! Script data model: immutable dialogue data — scenes, entries,
//! characters and choices — together with the read-only queries the
//! playback engine and the display layer make against it.

use vstd::prelude::*;
use vstd::string::StringExecFns;
use crate::localized::{LocalizedStrings, lookup};

verus! {

/// Mathematical model of a character: its identifier, its localized
/// display names and its sprite path.
pub ghost struct CharacterView {
    pub name: Seq<char>,
    pub display_name: Seq<(Seq<char>, Seq<char>)>,
    pub sprite: Seq<char>,
}

/// Mathematical model of one choice: localized option text, the stage the
/// choice leads to, and its (inert) condition strings.
pub ghost struct ChoiceView {
    pub text: Seq<(Seq<char>, Seq<char>)>,
    pub target_stage: usize,
    pub conditions: Seq<Seq<char>>,
}

/// Mathematical model of a character placement directive.
pub ghost struct PlacementView {
    pub name: Seq<char>,
    pub position: Seq<char>,
    pub expression: Seq<char>,
    pub highlight: bool,
}

/// Mathematical model of one scripted beat.
pub ghost struct EntryView {
    pub character: Seq<char>,
    pub text: Seq<(Seq<char>, Seq<char>)>,
    pub actions: Seq<Seq<char>>,
    pub choices: Seq<ChoiceView>,
    pub auto_proceed: Option<usize>,
    pub character_states: Seq<PlacementView>,
    pub background: Option<Seq<char>>,
}

/// Mathematical model of a whole scene.
pub ghost struct SceneView {
    pub characters: Seq<CharacterView>,
    pub entries: Seq<EntryView>,
    pub default_background: Seq<char>,
}

/// A character of the script: identifier, localized display names, sprite.
pub struct DialogCharacter {
    pub name: String,
    pub display_name: LocalizedStrings,
    pub sprite: String,
}

impl View for DialogCharacter {
    type V = CharacterView;

    open spec fn view(&self) -> CharacterView {
        CharacterView { name: self.name@, display_name: self.display_name@, sprite: self.sprite@ }
    }
}

/// One selectable option at a branch point.
pub struct DialogChoice {
    pub text: LocalizedStrings,
    pub target_stage: usize,
    pub conditions: Vec<String>,
}

impl View for DialogChoice {
    type V = ChoiceView;

    open spec fn view(&self) -> ChoiceView {
        ChoiceView {
            text: self.text@,
            target_stage: self.target_stage,
            conditions: self.conditions.deep_view(),
        }
    }
}

/// Where a character stands and how it looks during one entry.
pub struct CharacterState {
    pub name: String,
    pub position: String,
    pub expression: String,
    pub highlight: bool,
}

impl View for CharacterState {
    type V = PlacementView;

    open spec fn view(&self) -> PlacementView {
        PlacementView {
            name: self.name@,
            position: self.position@,
            expression: self.expression@,
            highlight: self.highlight,
        }
    }
}

/// One scripted beat: speaker, localized text, optional actions, optional
/// choices and an optional explicit next stage.
pub struct DialogEntry {
    pub character: String,
    pub text: LocalizedStrings,
    pub actions: Vec<String>,
    pub choices: Vec<DialogChoice>,
    pub auto_proceed: Option<usize>,
    pub character_states: Vec<CharacterState>,
    pub background: Option<String>,
}

impl View for DialogEntry {
    type V = EntryView;

    open spec fn view(&self) -> EntryView {
        EntryView {
            character: self.character@,
            text: self.text@,
            actions: self.actions.deep_view(),
            choices: self.choices@.map_values(|c: DialogChoice| c@),
            auto_proceed: self.auto_proceed,
            character_states: self.character_states@.map_values(|c: CharacterState| c@),
            background: match self.background {
                Some(b) => Some(b@),
                None => None,
            },
        }
    }
}

/// A whole scene: its cast and its ordered entry list.
pub struct DialogScene {
    pub characters: Vec<DialogCharacter>,
    pub entries: Vec<DialogEntry>,
    pub default_background: String,
}

impl View for DialogScene {
    type V = SceneView;

    open spec fn view(&self) -> SceneView {
        SceneView {
            characters: self.characters@.map_values(|c: DialogCharacter| c@),
            entries: self.entries@.map_values(|e: DialogEntry| e@),
            default_background: self.default_background@,
        }
    }
}

/// The first character at or after index `i` whose identifier is `name`.
pub open spec fn find_character_from(
    chars: Seq<CharacterView>,
    name: Seq<char>,
    i: int,
) -> Option<CharacterView>
    decreases chars.len() - i,
{
    if i < 0 || i >= chars.len() {
        None
    } else if chars[i].name == name {
        Some(chars[i])
    } else {
        find_character_from(chars, name, i + 1)
    }
}

proof fn lemma_find_character_none(chars: Seq<CharacterView>, name: Seq<char>, s: int)
    requires
        forall|j: int| s <= j < chars.len() ==> (#[trigger] chars[j]).name != name,
    ensures
        find_character_from(chars, name, s) is None,
    decreases chars.len() - s,
{
    if 0 <= s < chars.len() {
        lemma_find_character_none(chars, name, s + 1);
    }
}

proof fn lemma_find_character_found(chars: Seq<CharacterView>, name: Seq<char>, s: int, i: int)
    requires
        0 <= s <= i < chars.len(),
        forall|j: int| s <= j < i ==> (#[trigger] chars[j]).name != name,
        chars[i].name == name,
    ensures
        find_character_from(chars, name, s) == Some(chars[i]),
    decreases i - s,
{
    if s < i {
        lemma_find_character_found(chars, name, s + 1, i);
    }
}

/// The name shown for the speaker `character`: the first matching cast
/// member's localized display name, falling back to the bare identifier
/// when the cast member or the language is missing.
pub open spec fn display_name_spec(
    scene: SceneView,
    character: Seq<char>,
    language: Seq<char>,
) -> Seq<char> {
    match find_character_from(scene.characters, character, 0) {
        Some(c) => match lookup(c.display_name, language) {
            Some(v) => v,
            None => character,
        },
        None => character,
    }
}

impl DialogScene {
    /// The entry at `stage`, or `None` when the stage is out of range —
    /// "no further content", never an error.
    pub fn get_entry(&self, stage: usize) -> (r: Option<&DialogEntry>)
        ensures
            stage < self@.entries.len() ==> (r matches Some(e) && e@ == self@.entries[stage as int]),
            stage >= self@.entries.len() ==> r is None,
    {
        if stage < self.entries.len() {
            Some(&self.entries[stage])
        } else {
            None
        }
    }

    /// The display name for the speaker `character` in `language`.
    pub fn display_name_for(&self, character: &str, language: &str) -> (r: String)
        ensures
            r@ == display_name_spec(self@, character@, language@),
    {
        let n = self.characters.len();
        let mut i: usize = 0;
        while i < n
            invariant
                n == self.characters.len(),
                i <= n,
                forall|j: int| 0 <= j < i ==> (#[trigger] self@.characters[j]).name != character@,
            decreases n - i,
        {
            if crate::localized::str_eq(self.characters[i].name.as_str(), character) {
                proof {
                    lemma_find_character_found(self@.characters, character@, 0, i as int);
                }
                return match self.characters[i].display_name.get(language) {
                    Some(v) => v.clone(),
                    None => character.to_owned(),
                };
            }
            i = i + 1;
        }
        proof {
            lemma_find_character_none(self@.characters, character@, 0);
        }
        character.to_owned()
    }

    /// The background shown when the scene is first set up: the scene's
    /// own default if it names one, else the built-in default.
    pub fn initial_background(&self) -> (r: String)
        ensures
            self@.default_background.len() > 0 ==> r@ == self@.default_background,
            self@.default_background.len() == 0 ==> r@ == "backgrounds/school.png"@,
    {
        if !self.default_background.as_str().is_empty() {
            self.default_background.clone()
        } else {
            String::from_str("backgrounds/school.png")
        }
    }

    /// The background override the entry at `stage` asks for: its own
    /// non-empty background path, if any.
    pub fn stage_background(&self, stage: usize) -> (r: Option<String>)
        ensures
            match r {
                Some(b) => {
                    &&& stage < self@.entries.len()
                    &&& self@.entries[stage as int].background == Some(b@)
                    &&& b@.len() > 0
                },
                None => stage >= self@.entries.len() || match self@.entries[
                    stage as int
                ].background {
                    Some(b) => b.len() == 0,
                    None => true,
                },
            },
    {
        if stage < self.entries.len() {
            match &self.entries[stage].background {
                Some(b) => {
                    if !b.as_str().is_empty() {
                        Some(b.clone())
                    } else {
                        None
                    }
                },
                None => None,
            }
        } else {
            None
        }
    }
}

impl Clone for DialogCharacter {
    /// A clone models the same character.
    fn clone(&self) -> (r: Self)
        ensures
            r@ == self@,
    {
        DialogCharacter {
            name: self.name.clone(),
            display_name: self.display_name.clone(),
            sprite: self.sprite.clone(),
        }
    }
}

impl Clone for DialogChoice {
    /// A clone models the same choice.
    fn clone(&self) -> (r: Self)
        ensures
            r@ == self@,
    {
        let r = DialogChoice {
            text: self.text.clone(),
            target_stage: self.target_stage,
            conditions: self.conditions.clone(),
        };
        proof {
            assert(r.conditions.deep_view() =~= self.conditions.deep_view());
        }
        r
    }
}

impl Clone for CharacterState {
    /// A clone models the same placement.
    fn clone(&self) -> (r: Self)
        ensures
            r@ == self@,
    {
        CharacterState {
            name: self.name.clone(),
            position: self.position.clone(),
            expression: self.expression.clone(),
            highlight: self.highlight,
        }
    }
}

impl Clone for DialogEntry {
    /// A clone models the same entry.
    fn clone(&self) -> (r: Self)
        ensures
            r@ == self@,
    {
        let r = DialogEntry {
            character: self.character.clone(),
            text: self.text.clone(),
            actions: self.actions.clone(),
            choices: self.choices.clone(),
            auto_proceed: self.auto_proceed,
            character_states: self.character_states.clone(),
            background: match &self.background {
                Some(b) => Some(b.clone()),
                None => None,
            },
        };
        proof {
            assert(r.actions.deep_view() =~= self.actions.deep_view());
            assert(r@.choices =~= self@.choices);
            assert(r@.character_states =~= self@.character_states);
        }
        r
    }
}

impl Clone for DialogScene {
    /// A clone models the same scene.
    fn clone(&self) -> (r: Self)
        ensures
            r@ == self@,
    {
        let r = DialogScene {
            characters: self.characters.clone(),
            entries: self.entries.clone(),
            default_background: self.default_background.clone(),
        };
        proof {
            assert(r@.characters =~= self@.characters);
            assert(r@.entries =~= self@.entries);
        }
        r
    }
}

} // verus!
