//! Choice engine: detects when a stage exposes a branch point, holds the
//! transient choice session, and resolves a selection into a stage change
//! recorded in the history ledger.

use vstd::prelude::*;
use crate::script::{DialogScene, DialogChoice, SceneView};
use crate::state::{VNState, change_stage_post};
use crate::history::DialogHistory;
use crate::typewriter::TypewriterText;

verus! {

/// The transient state of a branch point: whether a selection is being
/// awaited, the option set (cloned from the script when the session was
/// created), and the log of every selection made so far.
pub struct ChoiceState {
    pub active: bool,
    pub choices: Vec<DialogChoice>,
    pub history: Vec<usize>,
}

impl Default for ChoiceState {
    /// No session active, nothing selected yet.
    fn default() -> (r: ChoiceState)
        ensures
            r.active == false,
            r.choices@.len() == 0,
            r.history@.len() == 0,
    {
        ChoiceState { active: false, choices: Vec::new(), history: Vec::new() }
    }
}

impl ChoiceState {
    /// No session active, nothing selected yet.
    pub fn new() -> (r: ChoiceState)
        ensures
            r.active == false,
            r.choices@.len() == 0,
            r.history@.len() == 0,
    {
        ChoiceState { active: false, choices: Vec::new(), history: Vec::new() }
    }

    /// Log that option `choice_index` was selected.
    pub fn add_choice(&mut self, choice_index: usize)
        ensures
            final(self).history@ == old(self).history@.push(choice_index),
            final(self).active == old(self).active,
            final(self).choices == old(self).choices,
    {
        self.history.push(choice_index);
    }

    /// The most recently selected option, if any selection was made.
    pub fn get_last_choice(&self) -> (r: Option<usize>)
        ensures
            self.history@.len() == 0 ==> r is None,
            self.history@.len() > 0 ==> r == Some(self.history@.last()),
    {
        if self.history.len() > 0 {
            Some(self.history[self.history.len() - 1])
        } else {
            None
        }
    }

    /// Forget the selection log.
    pub fn clear_history(&mut self)
        ensures
            final(self).history@.len() == 0,
            final(self).active == old(self).active,
            final(self).choices == old(self).choices,
    {
        self.history.clear();
    }

    /// Open a session holding `choices` as its option set.
    pub fn activate(&mut self, choices: Vec<DialogChoice>)
        ensures
            final(self).active == true,
            final(self).choices == choices,
            final(self).history == old(self).history,
    {
        self.active = true;
        self.choices = choices;
    }

    /// Close the session: the option set is always left empty and the
    /// selection log untouched, whether or not a session was active.
    pub fn deactivate(&mut self)
        ensures
            final(self).active == false,
            final(self).choices@.len() == 0,
            final(self).history == old(self).history,
    {
        self.active = false;
        self.choices.clear();
    }
}

/// A stage is a branch point exactly when it is in range, its entry has
/// choices, and the typewriter for its text has fully revealed.
pub open spec fn should_display_choices_spec(
    scene: SceneView,
    stage: usize,
    typewriter: TypewriterText,
) -> bool {
    &&& stage < scene.entries.len()
    &&& scene.entries[stage as int].choices.len() > 0
    &&& typewriter.char_index >= typewriter.full_text@.len()
}

/// Whether the branch point at `stage` should currently be shown.
pub fn should_display_choices(scene: &DialogScene, stage: usize, typewriter: &TypewriterText) -> (r:
    bool)
    ensures
        r == should_display_choices_spec(scene@, stage, *typewriter),
{
    match scene.get_entry(stage) {
        Some(entry) => entry.choices.len() > 0 && typewriter.is_finished(),
        None => false,
    }
}

/// The option set of the branch point at `stage`: a copy of the entry's
/// choices, decoupled from the script, or `None` when the stage exposes
/// no choices.
pub fn get_current_choices(scene: &DialogScene, stage: usize) -> (r: Option<Vec<DialogChoice>>)
    ensures
        match r {
            Some(v) => {
                &&& stage < scene@.entries.len()
                &&& scene@.entries[stage as int].choices.len() > 0
                &&& v@.map_values(|c: DialogChoice| c@) == scene@.entries[stage as int].choices
            },
            None => stage >= scene@.entries.len() || scene@.entries[
                stage as int
            ].choices.len() == 0,
        },
{
    match scene.get_entry(stage) {
        Some(entry) => {
            if entry.choices.len() > 0 {
                let copy = entry.choices.clone();
                proof {
                    assert(copy@.map_values(|c: DialogChoice| c@) =~= scene@.entries[
                        stage as int
                    ].choices);
                }
                Some(copy)
            } else {
                None
            }
        },
        None => None,
    }
}

/// Per-tick session upkeep: when the current stage becomes a branch point
/// and no session is active, a session is created over a copy of the
/// entry's choices; when the branch point is no longer current while a
/// session is active, the session is discarded without side effects.
pub fn manage_choice_session(
    choice_state: &mut ChoiceState,
    scene: &DialogScene,
    stage: usize,
    typewriter: &TypewriterText,
)
    ensures
        final(choice_state).history == old(choice_state).history,
        should_display_choices_spec(scene@, stage, *typewriter) ==> final(choice_state).active
            == true,
        !should_display_choices_spec(scene@, stage, *typewriter) ==> final(choice_state).active
            == false,
        should_display_choices_spec(scene@, stage, *typewriter) && !old(choice_state).active
            ==> final(choice_state).choices@.map_values(|c: DialogChoice| c@) == scene@.entries[
            stage as int
        ].choices,
        should_display_choices_spec(scene@, stage, *typewriter) && old(choice_state).active
            ==> final(choice_state).choices == old(choice_state).choices,
        !should_display_choices_spec(scene@, stage, *typewriter) && old(choice_state).active
            ==> final(choice_state).choices@.len() == 0,
        !should_display_choices_spec(scene@, stage, *typewriter) && !old(choice_state).active
            ==> final(choice_state).choices == old(choice_state).choices,
{
    let show = should_display_choices(scene, stage, typewriter);
    if show && !choice_state.active {
        match get_current_choices(scene, stage) {
            Some(choices) => choice_state.activate(choices),
            None => (),
        }
    } else if !show && choice_state.active {
        choice_state.deactivate();
    }
}

/// Map a selection signal carrying an option index to the resolved
/// `(choice_index, target_stage)` pair; out-of-range signals and signals
/// without an active session are ignored.
pub fn resolve_choice_input(choice_state: &ChoiceState, index: usize) -> (r: Option<
    (usize, usize),
>)
    ensures
        match r {
            Some(p) => {
                &&& choice_state.active
                &&& index < choice_state.choices@.len()
                &&& p.0 == index
                &&& p.1 == choice_state.choices@[index as int]@.target_stage
            },
            None => !choice_state.active || index >= choice_state.choices@.len(),
        },
{
    if choice_state.active && index < choice_state.choices.len() {
        Some((index, choice_state.choices[index].target_stage))
    } else {
        None
    }
}

/// Resolve a selection: log the chosen index, record the choice event and
/// the departed stage in the ledger, close the session, and move to the
/// target stage.
pub fn execute_choice_selection(
    state: &mut VNState,
    choice_state: &mut ChoiceState,
    history: &mut DialogHistory,
    choice_index: usize,
    target_stage: usize,
)
    ensures
        final(choice_state).history@ == old(choice_state).history@.push(choice_index),
        final(choice_state).active == false,
        final(choice_state).choices@.len() == 0,
        final(history).events() == old(history).events().push(
            (old(state).stage, choice_index, target_stage),
        ),
        final(history).stages() == old(history).stages().push(old(state).stage),
        change_stage_post(*old(state), *final(state), target_stage),
{
    choice_state.add_choice(choice_index);
    history.add_choice(state.stage, choice_index, target_stage);
    choice_state.deactivate();
    state.change_stage(target_stage);
}

} // verus!
