//! Stage progression: given a "continue" trigger, either fast-forward a
//! mid-reveal typewriter or advance the stage — running any scene-change
//! action of the current entry, else moving to its explicit target or to
//! the next entry with wrap-around, recording the departed stage.

use vstd::prelude::*;
use vstd::string::StrSliceExecFns;
use crate::script::{DialogScene, SceneView, EntryView};
use crate::state::{VNState, change_stage_post};
use crate::history::DialogHistory;
use crate::resource::{DialogResource, ResourceView};
use crate::choice::ChoiceState;
use crate::typewriter::TypewriterText;
use crate::table::table_lookup;

verus! {

/// The scene a directive action switches to: actions of the form
/// `"change_scene:<name>"` name the target scene; anything else is not a
/// scene change.
pub open spec fn scene_change_target_spec(action: Seq<char>) -> Option<Seq<char>> {
    if action.len() >= "change_scene:"@.len() && action.subrange(
        0,
        "change_scene:"@.len() as int,
    ) == "change_scene:"@ {
        Some(action.skip("change_scene:"@.len() as int))
    } else {
        None
    }
}

/// Decode a scene-change directive: `Some(name)` exactly when `action`
/// starts with the scene-change prefix, carrying the rest of the string.
pub fn scene_change_target(action: &str) -> (r: Option<String>)
    ensures
        match r {
            Some(s) => scene_change_target_spec(action@) == Some(s@),
            None => scene_change_target_spec(action@) is None,
        },
{
    proof {
        reveal_strlit("change_scene:");
    }
    let prefix = "change_scene:";
    let plen = prefix.unicode_len();
    let alen = action.unicode_len();
    if alen >= plen {
        let head = action.substring_char(0, plen);
        if crate::localized::str_eq(head, prefix) {
            let tail = action.substring_char(plen, alen);
            proof {
                assert(tail@ =~= action@.skip(plen as int));
            }
            return Some(tail.to_owned());
        }
    }
    None
}

/// The first action from index `i` on that names a registered scene, if
/// any: actions that are no scene-change directive, and directives naming
/// unknown scenes, are passed over.
pub open spec fn first_scene_switch_from(
    actions: Seq<Seq<char>>,
    scenes: Seq<(Seq<char>, SceneView)>,
    i: int,
) -> Option<Seq<char>>
    decreases actions.len() - i,
{
    if i < 0 || i >= actions.len() {
        None
    } else {
        match scene_change_target_spec(actions[i]) {
            Some(n) => if table_lookup(scenes, n) is Some {
                Some(n)
            } else {
                first_scene_switch_from(actions, scenes, i + 1)
            },
            None => first_scene_switch_from(actions, scenes, i + 1),
        }
    }
}

/// The first action of the entry that switches to a registered scene.
pub open spec fn first_scene_switch(
    actions: Seq<Seq<char>>,
    scenes: Seq<(Seq<char>, SceneView)>,
) -> Option<Seq<char>> {
    first_scene_switch_from(actions, scenes, 0)
}

/// The stage an advance moves to when no scene switch fires: the entry's
/// explicit target if it has one, else the next stage with wrap-around.
pub open spec fn next_target_spec(entry: EntryView, stage: usize, total: nat) -> usize {
    match entry.auto_proceed {
        Some(t) => t,
        None => (((stage + 1) as int) % (total as int)) as usize,
    }
}

/// How an advance relates playback state, history ledger and scene store
/// before the call to their values after. Exactly one of three things
/// happens: an out-of-range stage is a complete no-op; a scene-change
/// action of the current entry that names a registered scene switches the
/// scene (resetting the stage to 0, recording nothing in the ledger); or
/// the departed stage is pushed onto the ledger and the stage moves to
/// the entry's target.
pub open spec fn progression_post(
    scene: SceneView,
    s0: VNState,
    s1: VNState,
    h0: DialogHistory,
    h1: DialogHistory,
    r0: ResourceView,
    r1: ResourceView,
) -> bool {
    let stage0 = s0.stage;
    let total = scene.entries.len();
    if stage0 >= total {
        &&& s1 == s0
        &&& h1.events() == h0.events()
        &&& h1.stages() == h0.stages()
        &&& r1 == r0
    } else {
        let entry = scene.entries[stage0 as int];
        match first_scene_switch(entry.actions, r0.scenes) {
            Some(n) => {
                &&& h1.events() == h0.events()
                &&& h1.stages() == h0.stages()
                &&& r1.scenes == r0.scenes
                &&& r1.current_scene == Some(n)
                &&& s1.current_scene@ == n
                &&& s1.language == s0.language
                &&& s1.stage == 0
                &&& s1.dialog_needs_reset == true
                &&& (stage0 == 0 ==> s1.stage_changed == s0.stage_changed)
                &&& (stage0 != 0 ==> s1.stage_changed == true)
            },
            None => {
                &&& r1 == r0
                &&& h1.events() == h0.events()
                &&& h1.stages() == h0.stages().push(stage0)
                &&& change_stage_post(s0, s1, next_target_spec(entry, stage0, total))
            },
        }
    }
}

/// Advance the story by one "continue": run the current entry's
/// scene-change action if one names a registered scene, else record the
/// departed stage and move to the entry's target stage. Out of range, a
/// defensive no-op.
pub fn process_stage_progression(
    state: &mut VNState,
    history: &mut DialogHistory,
    dialog_resource: &mut DialogResource,
    scene: &DialogScene,
)
    ensures
        progression_post(
            scene@,
            *old(state),
            *final(state),
            *old(history),
            *final(history),
            old(dialog_resource)@,
            final(dialog_resource)@,
        ),
{
    let n_entries = scene.entries.len();
    if state.stage >= n_entries {
        return ;
    }
    let ghost stage0 = state.stage;
    let entry = &scene.entries[state.stage];
    let ghost actions_view = scene@.entries[stage0 as int].actions;
    let n_actions = entry.actions.len();
    proof {
        assert(entry.actions.deep_view() =~= actions_view);
    }
    let mut i: usize = 0;
    while i < n_actions
        invariant
            n_actions == entry.actions.len(),
            i <= n_actions,
            entry@ == scene@.entries[stage0 as int],
            actions_view == entry.actions.deep_view(),
            stage0 < scene@.entries.len(),
            *state == *old(state),
            *history == *old(history),
            *dialog_resource == *old(dialog_resource),
            stage0 == state.stage,
            first_scene_switch(actions_view, old(dialog_resource)@.scenes)
                == first_scene_switch_from(actions_view, old(dialog_resource)@.scenes, i as int),
        decreases n_actions - i,
    {
        proof {
            assert(actions_view[i as int] == entry.actions@[i as int]@);
        }
        match scene_change_target(entry.actions[i].as_str()) {
            Some(name) => {
                if dialog_resource.change_scene(name.as_str(), state) {
                    return ;
                }
            },
            None => (),
        }
        i = i + 1;
    }
    let auto = entry.auto_proceed;
    history.add_stage(state.stage);
    match auto {
        Some(t) => state.change_stage(t),
        None => state.change_stage((state.stage + 1) % n_entries),
    }
}

/// Back out one step of playback: pop the most recent stage from the
/// ledger and reinstate it by direct assignment — returning to seen
/// content re-runs no scene actions, so this does not go through
/// `change_stage` — mark the display for repopulation, and discard any
/// choice session, since backtracking out of a branch point must not
/// leave a stale session active. With no history, a complete no-op.
pub fn go_back_step(
    state: &mut VNState,
    history: &mut DialogHistory,
    choice_state: &mut ChoiceState,
) -> (r: Option<usize>)
    ensures
        crate::history::go_back_post(*old(history), *final(history), r),
        match r {
            Some(prev) => {
                &&& final(state).stage == prev
                &&& final(state).dialog_needs_reset == true
                &&& final(state).stage_changed == old(state).stage_changed
                &&& final(state).language == old(state).language
                &&& final(state).current_scene == old(state).current_scene
                &&& final(choice_state).active == false
                &&& final(choice_state).choices@.len() == 0
                &&& final(choice_state).history == old(choice_state).history
            },
            None => {
                &&& *final(state) == *old(state)
                &&& *final(choice_state) == *old(choice_state)
            },
        },
{
    match history.go_back() {
        Some(prev) => {
            state.stage = prev;
            state.dialog_needs_reset = true;
            choice_state.deactivate();
            Some(prev)
        },
        None => None,
    }
}

/// Round trip over an ordinary advance: when an advance ran without a
/// scene switch, a `go_back` right after it hands back exactly the stage
/// the advance departed from — the stage the caller reinstates — and
/// leaves the stage stack as it was before the advance.
pub proof fn lemma_advance_then_back(
    scene: SceneView,
    s0: VNState,
    s1: VNState,
    h0: DialogHistory,
    h1: DialogHistory,
    h2: DialogHistory,
    r0: ResourceView,
    r1: ResourceView,
    r: Option<usize>,
)
    requires
        progression_post(scene, s0, s1, h0, h1, r0, r1),
        s0.stage < scene.entries.len(),
        first_scene_switch(scene.entries[s0.stage as int].actions, r0.scenes) is None,
        crate::history::go_back_post(h1, h2, r),
    ensures
        r == Some(s0.stage),
        h2.stages() == h0.stages(),
{
    assert(h1.stages().drop_last() =~= h0.stages());
}

/// Handle one "continue" trigger: ignored while a choice session awaits a
/// selection; with the text still revealing, the reveal is completed and
/// nothing else changes; with the text fully revealed, the stage advances
/// and the typewriter is left alone — a single trigger either completes
/// the reveal or advances the stage, never both.
pub fn handle_continue(
    state: &mut VNState,
    history: &mut DialogHistory,
    dialog_resource: &mut DialogResource,
    scene: &DialogScene,
    typewriter: &mut TypewriterText,
    choice_state: &ChoiceState,
)
    ensures
        choice_state.active ==> {
            &&& *final(state) == *old(state)
            &&& *final(history) == *old(history)
            &&& *final(dialog_resource) == *old(dialog_resource)
            &&& *final(typewriter) == *old(typewriter)
        },
        !choice_state.active && old(typewriter).char_index >= old(
            typewriter,
        ).full_text@.len() ==> {
            &&& *final(typewriter) == *old(typewriter)
            &&& progression_post(
                scene@,
                *old(state),
                *final(state),
                *old(history),
                *final(history),
                old(dialog_resource)@,
                final(dialog_resource)@,
            )
        },
        !choice_state.active && old(typewriter).char_index < old(
            typewriter,
        ).full_text@.len() ==> {
            &&& *final(state) == *old(state)
            &&& *final(history) == *old(history)
            &&& *final(dialog_resource) == *old(dialog_resource)
            &&& final(typewriter).char_index == old(typewriter).full_text@.len()
            &&& final(typewriter).full_text == old(typewriter).full_text
            &&& final(typewriter).interval_ms == old(typewriter).interval_ms
            &&& final(typewriter).accumulator_ms == old(typewriter).accumulator_ms
        },
{
    if choice_state.active {
        return ;
    }
    if typewriter.is_finished() {
        process_stage_progression(state, history, dialog_resource, scene);
    } else {
        typewriter.fast_forward();
    }
}

} // verus!
