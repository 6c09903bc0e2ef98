//! Registered scenes and the current dialog content: the scene store that
//! `change_scene` switches between, and the manager holding what the
//! dialog box currently displays.

use vstd::prelude::*;
use crate::script::{DialogScene, SceneView};
use crate::state::VNState;
use crate::table::{
    table_lookup, lemma_table_lookup_found, lemma_table_lookup_none, lemma_table_lookup_push_other,
    lemma_table_lookup_same_keys,
};

verus! {

/// Mathematical model of the scene store.
pub ghost struct ResourceView {
    pub scenes: Seq<(Seq<char>, SceneView)>,
    pub current_scene: Option<Seq<char>>,
}

/// The registered scenes, keyed by name, and which of them is current.
pub struct DialogResource {
    scenes: Vec<(String, DialogScene)>,
    /// The name of the scene currently being played, if one was selected.
    pub current_scene: Option<String>,
}

impl View for DialogResource {
    type V = ResourceView;

    closed spec fn view(&self) -> ResourceView {
        ResourceView {
            scenes: self.scenes@.map_values(|p: (String, DialogScene)| (p.0@, p.1@)),
            current_scene: match self.current_scene {
                Some(ref s) => Some(s@),
                None => None,
            },
        }
    }
}

impl Default for DialogResource {
    /// An empty store with no current scene.
    fn default() -> (r: DialogResource)
        ensures
            r@.scenes.len() == 0,
            r@.current_scene is None,
    {
        DialogResource { scenes: Vec::new(), current_scene: None }
    }
}

impl DialogResource {
    /// An empty store with no current scene.
    pub fn new() -> (r: DialogResource)
        ensures
            r@.scenes.len() == 0,
            r@.current_scene is None,
    {
        DialogResource { scenes: Vec::new(), current_scene: None }
    }

    /// Register `scene` under `name`, replacing any scene already
    /// registered under that name. Other names are unaffected.
    pub fn register_scene(&mut self, name: &str, scene: DialogScene)
        ensures
            table_lookup(final(self)@.scenes, name@) == Some(scene@),
            forall|k: Seq<char>| k != name@ ==> #[trigger] table_lookup(final(self)@.scenes, k)
                == table_lookup(old(self)@.scenes, k),
            final(self)@.current_scene == old(self)@.current_scene,
    {
        let n = self.scenes.len();
        let mut i: usize = 0;
        while i < n
            invariant
                n == self.scenes.len(),
                i <= n,
                self.scenes == old(self).scenes,
                self.current_scene == old(self).current_scene,
                forall|j: int| 0 <= j < i ==> (#[trigger] self@.scenes[j]).0 != name@,
            decreases n - i,
        {
            if crate::localized::str_eq(self.scenes[i].0.as_str(), name) {
                let ghost pre = self@.scenes;
                let kept = self.scenes.remove(i);
                self.scenes.insert(i, (kept.0, scene));
                proof {
                    assert(self@.scenes =~= pre.update(i as int, (name@, scene@)));
                    lemma_table_lookup_found(self@.scenes, name@, 0, i as int);
                    assert forall|k: Seq<char>| k != name@ implies #[trigger] table_lookup(
                        self@.scenes,
                        k,
                    ) == table_lookup(pre, k) by {
                        lemma_table_lookup_same_keys(self@.scenes, pre, k, 0);
                    }
                }
                return ;
            }
            i = i + 1;
        }
        let ghost pre = self@.scenes;
        self.scenes.push((name.to_owned(), scene));
        proof {
            assert(self@.scenes =~= pre.push((name@, scene@)));
            lemma_table_lookup_found(self@.scenes, name@, 0, pre.len() as int);
            assert forall|k: Seq<char>| k != name@ implies #[trigger] table_lookup(self@.scenes, k)
                == table_lookup(pre, k) by {
                lemma_table_lookup_push_other(pre, (name@, scene@), k, 0);
            }
        }
    }

    /// The scene registered under `name`, if any.
    pub fn get_scene(&self, name: &str) -> (r: Option<&DialogScene>)
        ensures
            match r {
                Some(s) => table_lookup(self@.scenes, name@) == Some(s@),
                None => table_lookup(self@.scenes, name@) is None,
            },
    {
        let n = self.scenes.len();
        let mut i: usize = 0;
        while i < n
            invariant
                n == self.scenes.len(),
                i <= n,
                forall|j: int| 0 <= j < i ==> (#[trigger] self@.scenes[j]).0 != name@,
            decreases n - i,
        {
            if crate::localized::str_eq(self.scenes[i].0.as_str(), name) {
                proof {
                    lemma_table_lookup_found(self@.scenes, name@, 0, i as int);
                }
                return Some(&self.scenes[i].1);
            }
            i = i + 1;
        }
        proof {
            lemma_table_lookup_none(self@.scenes, name@, 0);
        }
        None
    }

    /// The scene registered under the current scene name, if one is set
    /// and still registered.
    pub fn current(&self) -> (r: Option<&DialogScene>)
        ensures
            match r {
                Some(s) => self@.current_scene matches Some(n) && table_lookup(self@.scenes, n)
                    == Some(s@),
                None => self@.current_scene is None || (self@.current_scene matches Some(n)
                    && table_lookup(self@.scenes, n) is None),
            },
    {
        match &self.current_scene {
            Some(name) => {
                let owned = name.clone();
                self.get_scene(owned.as_str())
            },
            None => None,
        }
    }

    /// Switch to the scene registered under `scene_name`: on a hit the
    /// scene becomes current, the playback state's scene name follows,
    /// the stage is reset to 0 through the ordinary stage change, and the
    /// display is marked for repopulation — the scene changed, so the
    /// dialog must re-sync even when the stage was already 0. On a miss
    /// nothing at all is mutated and the call reports failure.
    pub fn change_scene(&mut self, scene_name: &str, vn_state: &mut VNState) -> (r: bool)
        ensures
            r == (table_lookup(old(self)@.scenes, scene_name@) is Some),
            r ==> {
                &&& final(self)@.scenes == old(self)@.scenes
                &&& final(self)@.current_scene == Some(scene_name@)
                &&& final(vn_state).current_scene@ == scene_name@
                &&& final(vn_state).language == old(vn_state).language
                &&& final(vn_state).stage == 0
                &&& final(vn_state).dialog_needs_reset == true
                &&& (old(vn_state).stage == 0 ==> final(vn_state).stage_changed == old(
                    vn_state,
                ).stage_changed)
                &&& (old(vn_state).stage != 0 ==> final(vn_state).stage_changed == true)
            },
            !r ==> {
                &&& *final(self) == *old(self)
                &&& *final(vn_state) == *old(vn_state)
            },
    {
        let found = match self.get_scene(scene_name) {
            Some(_) => true,
            None => false,
        };
        if found {
            self.current_scene = Some(scene_name.to_owned());
            vn_state.current_scene = scene_name.to_owned();
            vn_state.change_stage(0);
            vn_state.dialog_needs_reset = true;
            true
        } else {
            false
        }
    }
}

/// What the dialog box currently shows: the speaker's display name and the
/// body text, plus the flag that marks a stage change still being
/// processed.
pub struct DialogManager {
    pub current_character_name: String,
    pub current_dialog_text: String,
    pub is_processing_stage_change: bool,
}

impl Default for DialogManager {
    /// Empty content; nothing is being processed.
    fn default() -> (r: DialogManager)
        ensures
            r.current_character_name@.len() == 0,
            r.current_dialog_text@.len() == 0,
            r.is_processing_stage_change == false,
    {
        DialogManager {
            current_character_name: String::new(),
            current_dialog_text: String::new(),
            is_processing_stage_change: false,
        }
    }
}

impl DialogManager {
    /// Empty content; nothing is being processed.
    pub fn new() -> (r: DialogManager)
        ensures
            r.current_character_name@.len() == 0,
            r.current_dialog_text@.len() == 0,
            r.is_processing_stage_change == false,
    {
        DialogManager {
            current_character_name: String::new(),
            current_dialog_text: String::new(),
            is_processing_stage_change: false,
        }
    }

    /// Clear the displayed content and mark a stage change as being
    /// processed, so the next tick repopulates the display.
    pub fn reset(&mut self)
        ensures
            final(self).current_character_name@.len() == 0,
            final(self).current_dialog_text@.len() == 0,
            final(self).is_processing_stage_change == true,
    {
        self.current_character_name = String::new();
        self.current_dialog_text = String::new();
        self.is_processing_stage_change = true;
    }

    /// Install freshly resolved content and finish processing.
    pub fn set_content(&mut self, character_name: String, dialog_text: String)
        ensures
            final(self).current_character_name == character_name,
            final(self).current_dialog_text == dialog_text,
            final(self).is_processing_stage_change == false,
    {
        self.current_character_name = character_name;
        self.current_dialog_text = dialog_text;
        self.is_processing_stage_change = false;
    }

    /// Whether a stage change is still waiting for content.
    pub fn is_processing(&self) -> (r: bool)
        ensures
            r == self.is_processing_stage_change,
    {
        self.is_processing_stage_change
    }
}

} // verus!
