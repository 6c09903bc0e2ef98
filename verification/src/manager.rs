//! Per-tick dialog upkeep: when the playback state is dirty, the display
//! is cleared and marked for repopulation; while a stage change is being
//! processed and the stage is in range, the speaker's display name and
//! the localized body text are resolved and installed, and a fresh
//! typewriter cursor is started over the body text.

use vstd::prelude::*;
use crate::script::DialogScene;
use crate::state::VNState;
use crate::resource::DialogManager;
use crate::typewriter::TypewriterText;
use crate::localized::{resolve, resolve_spec};
use crate::script::display_name_spec;

verus! {

/// Run one tick of dialog upkeep against the current scene.
///
/// Exactly one dirty cycle is consumed: if the state was marked dirty,
/// both flags are cleared and the display reset; then, while content is
/// owed and the stage is in range, the resolved speaker name and body
/// text are installed and the typewriter restarts at zero over the body
/// text. Out of range, the display simply stays reset ("no content this
/// tick"). With nothing dirty and nothing owed, nothing changes.
pub fn manage_dialog_state(
    state: &mut VNState,
    dialog_manager: &mut DialogManager,
    scene: &DialogScene,
    typewriter: &mut TypewriterText,
    interval_ms: u64,
)
    requires
        interval_ms >= 1,
    ensures
        final(state).stage == old(state).stage,
        final(state).language == old(state).language,
        final(state).current_scene == old(state).current_scene,
        old(state).dialog_needs_reset ==> final(state).stage_changed == false
            && final(state).dialog_needs_reset == false,
        !old(state).dialog_needs_reset ==> final(state).stage_changed == old(state).stage_changed
            && final(state).dialog_needs_reset == old(state).dialog_needs_reset,
        ({
            let processing = old(state).dialog_needs_reset || old(
                dialog_manager,
            ).is_processing_stage_change;
            let in_range = old(state).stage < scene@.entries.len();
            let entry = scene@.entries[old(state).stage as int];
            if processing && in_range {
                &&& final(dialog_manager).current_character_name@ == display_name_spec(
                    scene@,
                    entry.character,
                    old(state).language@,
                )
                &&& final(dialog_manager).current_dialog_text@ == resolve_spec(
                    entry.text,
                    old(state).language@,
                )
                &&& final(dialog_manager).is_processing_stage_change == false
                &&& final(typewriter).full_text@ == resolve_spec(entry.text, old(state).language@)
                &&& final(typewriter).char_index == 0
                &&& final(typewriter).interval_ms == interval_ms
                &&& final(typewriter).accumulator_ms == 0
                &&& final(typewriter).wf()
            } else if processing {
                if old(state).dialog_needs_reset {
                    &&& final(dialog_manager).current_character_name@.len() == 0
                    &&& final(dialog_manager).current_dialog_text@.len() == 0
                    &&& final(dialog_manager).is_processing_stage_change == true
                    &&& final(typewriter).full_text@.len() == 0
                    &&& final(typewriter).char_index == 0
                    &&& final(typewriter).interval_ms == interval_ms
                    &&& final(typewriter).accumulator_ms == 0
                } else {
                    &&& *final(dialog_manager) == *old(dialog_manager)
                    &&& *final(typewriter) == *old(typewriter)
                }
            } else {
                &&& *final(dialog_manager) == *old(dialog_manager)
                &&& *final(typewriter) == *old(typewriter)
            }
        }),
{
    if state.should_reset_dialog() {
        proof {
            reveal_strlit("");
        }
        *typewriter = TypewriterText::new("", interval_ms);
        dialog_manager.reset();
        state.mark_dialog_reset();
    }
    if dialog_manager.is_processing() {
        if state.stage < scene.entries.len() {
            let entry = &scene.entries[state.stage];
            let character_display_name = scene.display_name_for(
                entry.character.as_str(),
                state.language.as_str(),
            );
            let dialog_text = resolve(&entry.text, state.language.as_str());
            *typewriter = TypewriterText::new(dialog_text.as_str(), interval_ms);
            dialog_manager.set_content(character_display_name, dialog_text);
        }
    }
}

} // verus!
