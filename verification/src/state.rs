//! Playback state: where the reader is (scene, stage, language) together
//! with the dirty flags that tell the display layer to resynchronize.

use vstd::prelude::*;
use vstd::string::StringExecFns;

verus! {

/// The single source of truth for the reader's position in the story.
///
/// `dialog_needs_reset` is set whenever `stage`, the current scene or the
/// language changes, and is cleared exactly once per change by the consumer
/// that repopulates the displayed text (`mark_dialog_reset`).
pub struct VNState {
    /// Zero-based index into the current scene's entry list.
    pub stage: usize,
    /// Language key used to pick localized text (for example `"thai"`).
    pub language: String,
    /// Name of the scene currently being played.
    pub current_scene: String,
    /// True while a stage change has not yet been consumed.
    pub stage_changed: bool,
    /// True while the displayed dialog has not been resynchronized.
    pub dialog_needs_reset: bool,
}

/// How `change_stage` relates the state before the call to the state after:
/// a no-op when the stage is unchanged, otherwise the new stage is set and
/// both dirty flags raised, with every other field untouched.
pub open spec fn change_stage_post(pre: VNState, post: VNState, new_stage: usize) -> bool {
    if pre.stage == new_stage {
        post == pre
    } else {
        &&& post.stage == new_stage
        &&& post.language == pre.language
        &&& post.current_scene == pre.current_scene
        &&& post.stage_changed == true
        &&& post.dialog_needs_reset == true
    }
}

impl Default for VNState {
    /// Playback starts at stage 0 of the scene named "intro", in Thai,
    /// with the display still to be populated.
    fn default() -> (r: VNState)
        ensures
            r.stage == 0,
            r.language@ == "thai"@,
            r.current_scene@ == "intro"@,
            r.stage_changed == false,
            r.dialog_needs_reset == true,
    {
        VNState {
            stage: 0,
            language: String::from_str("thai"),
            current_scene: String::from_str("intro"),
            stage_changed: false,
            dialog_needs_reset: true,
        }
    }
}

impl VNState {
    /// Move to `new_stage`; a no-op if the reader is already there,
    /// otherwise both dirty flags are raised.
    pub fn change_stage(&mut self, new_stage: usize)
        ensures
            change_stage_post(*old(self), *final(self), new_stage),
    {
        if self.stage != new_stage {
            self.stage = new_stage;
            self.stage_changed = true;
            self.dialog_needs_reset = true;
        }
    }

    /// Switch the display language; a no-op if unchanged, otherwise the
    /// dialog must be repopulated (stage and its flag are untouched).
    pub fn change_language(&mut self, new_language: String)
        ensures
            old(self).language@ == new_language@ ==> *final(self) == *old(self),
            old(self).language@ != new_language@ ==> {
                &&& final(self).language == new_language
                &&& final(self).dialog_needs_reset == true
                &&& final(self).stage == old(self).stage
                &&& final(self).current_scene == old(self).current_scene
                &&& final(self).stage_changed == old(self).stage_changed
            },
    {
        if !(self.language == new_language) {
            self.language = new_language;
            self.dialog_needs_reset = true;
        }
    }

    /// Record that the displayed dialog has been resynchronized;
    /// clears both dirty flags and is idempotent.
    pub fn mark_dialog_reset(&mut self)
        ensures
            final(self).stage_changed == false,
            final(self).dialog_needs_reset == false,
            final(self).stage == old(self).stage,
            final(self).language == old(self).language,
            final(self).current_scene == old(self).current_scene,
    {
        self.stage_changed = false;
        self.dialog_needs_reset = false;
    }

    /// Whether the displayed dialog still has to be repopulated.
    pub fn should_reset_dialog(&self) -> (r: bool)
        ensures
            r == self.dialog_needs_reset,
    {
        self.dialog_needs_reset
    }
}

/// Changing the stage twice in a row to the same value mutates the state at
/// most once: the second call leaves everything exactly as the first left it.
pub proof fn lemma_change_stage_idempotent(s0: VNState, s1: VNState, s2: VNState, x: usize)
    requires
        change_stage_post(s0, s1, x),
        change_stage_post(s1, s2, x),
    ensures
        s2 == s1,
{
}

} // verus!
