use helium::choice::{
    execute_choice_selection, get_current_choices, manage_choice_session, resolve_choice_input,
    should_display_choices, ChoiceState,
};
use helium::game_state::{apply_state_change, escape_transition, ChangeStateEvent, GameState,
    PreviousState};
use helium::history::DialogHistory;
use helium::localized::LocalizedStrings;
use helium::manager::manage_dialog_state;
use helium::progress::{go_back_step, handle_continue, process_stage_progression, scene_change_target};
use helium::resource::{DialogManager, DialogResource};
use helium::script::{DialogChoice, DialogEntry, DialogScene};
use helium::state::VNState;
use helium::typewriter::TypewriterText;

fn lmap(pairs: &[(&str, &str)]) -> LocalizedStrings {
    let mut m = LocalizedStrings::new();
    for (k, v) in pairs {
        m.insert(k, v.to_string());
    }
    m
}

fn entry(character: &str, texts: &[(&str, &str)]) -> DialogEntry {
    DialogEntry {
        character: character.to_string(),
        text: lmap(texts),
        actions: Vec::new(),
        choices: Vec::new(),
        auto_proceed: None,
        character_states: Vec::new(),
        background: None,
    }
}

fn scene_of(entries: Vec<DialogEntry>) -> DialogScene {
    DialogScene {
        characters: Vec::new(),
        entries,
        default_background: String::new(),
    }
}

fn vn_at(stage: usize) -> VNState {
    VNState {
        stage,
        language: "thai".to_string(),
        current_scene: "intro".to_string(),
        stage_changed: false,
        dialog_needs_reset: false,
    }
}

#[test]
fn change_stage_sets_both_dirty_flags() {
    let mut state = vn_at(0);
    state.change_stage(3);
    assert_eq!(state.stage, 3);
    assert!(state.stage_changed);
    assert!(state.dialog_needs_reset);
}

#[test]
fn change_stage_twice_mutates_flags_at_most_once() {
    let mut state = vn_at(0);
    state.change_stage(3);
    state.mark_dialog_reset();
    state.change_stage(3);
    assert_eq!(state.stage, 3);
    assert!(!state.stage_changed);
    assert!(!state.dialog_needs_reset);
}

#[test]
fn change_language_is_noop_when_unchanged() {
    let mut state = vn_at(0);
    state.change_language("thai".to_string());
    assert!(!state.dialog_needs_reset);
    state.change_language("english".to_string());
    assert_eq!(state.language, "english");
    assert!(state.dialog_needs_reset);
    assert!(!state.stage_changed);
}

#[test]
fn default_state_starts_at_intro() {
    let state = VNState::default();
    assert_eq!(state.stage, 0);
    assert_eq!(state.language, "thai");
    assert_eq!(state.current_scene, "intro");
    assert!(!state.stage_changed);
    assert!(state.dialog_needs_reset);
}

#[test]
fn go_back_on_empty_history_is_none() {
    let mut history = DialogHistory::new();
    assert_eq!(history.go_back(), None);
}

#[test]
fn go_back_restores_plain_progress() {
    let mut history = DialogHistory::new();
    history.add_stage(4);
    assert_eq!(history.go_back(), Some(4));
    assert_eq!(history.go_back(), None);
}

#[test]
fn go_back_keeps_choice_record_for_later_stages() {
    let mut history = DialogHistory::new();
    history.add_choice(2, 1, 9);
    history.add_stage(9);
    // undoing the plain transition away from 9 leaves the choice record
    assert_eq!(history.go_back(), Some(9));
    assert_eq!(history.event_count(), 1);
    // undoing the choice transition itself removes it
    assert_eq!(history.go_back(), Some(2));
    assert_eq!(history.event_count(), 0);
}

#[test]
fn clear_empties_both_stacks() {
    let mut history = DialogHistory::new();
    history.add_choice(1, 0, 4);
    history.add_stage(4);
    history.clear();
    assert_eq!(history.stage_count(), 0);
    assert_eq!(history.event_count(), 0);
    assert_eq!(history.go_back(), None);
}

#[test]
fn choice_state_logs_selections() {
    let mut cs = ChoiceState::new();
    assert_eq!(cs.get_last_choice(), None);
    cs.add_choice(0);
    cs.add_choice(2);
    assert_eq!(cs.get_last_choice(), Some(2));
    cs.clear_history();
    assert_eq!(cs.get_last_choice(), None);
}

#[test]
fn deactivate_always_clears_options() {
    let mut cs = ChoiceState::new();
    cs.add_choice(0);
    cs.activate(vec![DialogChoice {
        text: lmap(&[("thai", "x")]),
        target_stage: 1,
        conditions: Vec::new(),
    }]);
    cs.deactivate();
    assert!(!cs.active);
    assert_eq!(cs.choices.len(), 0);
    assert_eq!(cs.get_last_choice(), Some(0));
    // even without an active session, closing leaves no stale options
    cs.choices = vec![DialogChoice {
        text: lmap(&[("thai", "y")]),
        target_stage: 2,
        conditions: Vec::new(),
    }];
    cs.deactivate();
    assert!(!cs.active);
    assert_eq!(cs.choices.len(), 0);
}

#[test]
fn choices_hidden_until_text_fully_revealed() {
    let mut e = entry("narrator", &[("thai", "pick")]);
    e.choices.push(DialogChoice {
        text: lmap(&[("thai", "a")]),
        target_stage: 1,
        conditions: Vec::new(),
    });
    let scene = scene_of(vec![e]);
    let mut tw = TypewriterText::new("pick", 50);
    assert!(!should_display_choices(&scene, 0, &tw));
    tw.fast_forward();
    assert!(should_display_choices(&scene, 0, &tw));
    assert!(!should_display_choices(&scene, 1, &tw));
}

#[test]
fn session_discarded_when_branch_point_left() {
    let mut e = entry("narrator", &[("thai", "pick")]);
    e.choices.push(DialogChoice {
        text: lmap(&[("thai", "a")]),
        target_stage: 1,
        conditions: Vec::new(),
    });
    let scene = scene_of(vec![e, entry("narrator", &[("thai", "next")])]);
    let mut tw = TypewriterText::new("pick", 50);
    tw.fast_forward();
    let mut cs = ChoiceState::new();
    manage_choice_session(&mut cs, &scene, 0, &tw);
    assert!(cs.active);
    // the reader navigated away: stage 1 has no choices
    manage_choice_session(&mut cs, &scene, 1, &tw);
    assert!(!cs.active);
    assert_eq!(cs.choices.len(), 0);
}

#[test]
fn selection_resolution_always_clears_options() {
    let mut state = vn_at(2);
    let mut history = DialogHistory::new();
    let mut cs = ChoiceState::new();
    // stale options without an active session must not survive resolution
    cs.choices = vec![DialogChoice {
        text: lmap(&[("thai", "x")]),
        target_stage: 4,
        conditions: Vec::new(),
    }];
    execute_choice_selection(&mut state, &mut cs, &mut history, 0, 4);
    assert!(!cs.active);
    assert_eq!(cs.choices.len(), 0);
    assert_eq!(cs.get_last_choice(), Some(0));
    assert_eq!(state.stage, 4);
    assert_eq!(history.last_event(), Some((2, 0, 4)));
}

#[test]
fn choice_input_ignored_without_session() {
    let cs = ChoiceState::new();
    assert_eq!(resolve_choice_input(&cs, 0), None);
}

#[test]
fn choice_input_ignored_out_of_range() {
    let mut cs = ChoiceState::new();
    cs.activate(vec![DialogChoice {
        text: lmap(&[("thai", "a")]),
        target_stage: 3,
        conditions: Vec::new(),
    }]);
    assert_eq!(resolve_choice_input(&cs, 1), None);
    assert_eq!(resolve_choice_input(&cs, 0), Some((0, 3)));
}

#[test]
fn current_choices_cloned_from_entry() {
    let mut e = entry("narrator", &[("thai", "pick")]);
    e.choices.push(DialogChoice {
        text: lmap(&[("thai", "a")]),
        target_stage: 6,
        conditions: Vec::new(),
    });
    let scene = scene_of(vec![e]);
    let got = get_current_choices(&scene, 0).unwrap();
    assert_eq!(got.len(), 1);
    assert_eq!(got[0].target_stage, 6);
    assert!(get_current_choices(&scene, 1).is_none());
}

#[test]
fn unknown_scene_reports_failure_and_mutates_nothing() {
    let mut resource = DialogResource::new();
    let mut state = vn_at(5);
    let ok = resource.change_scene("nowhere", &mut state);
    assert!(!ok);
    assert_eq!(state.stage, 5);
    assert!(!state.dialog_needs_reset);
    assert_eq!(state.current_scene, "intro");
}

#[test]
fn change_scene_resets_stage_and_marks_dirty() {
    let mut resource = DialogResource::new();
    resource.register_scene("school", scene_of(vec![entry("narrator", &[("thai", "x")])]));
    let mut state = vn_at(5);
    let ok = resource.change_scene("school", &mut state);
    assert!(ok);
    assert_eq!(state.stage, 0);
    assert_eq!(state.current_scene, "school");
    assert!(state.stage_changed);
    assert!(state.dialog_needs_reset);
}

#[test]
fn change_scene_at_stage_zero_still_marks_dialog_dirty() {
    let mut resource = DialogResource::new();
    resource.register_scene("school", scene_of(vec![entry("narrator", &[("thai", "x")])]));
    let mut state = vn_at(0);
    let ok = resource.change_scene("school", &mut state);
    assert!(ok);
    assert_eq!(state.stage, 0);
    assert_eq!(state.current_scene, "school");
    // the scene changed, so the display must re-sync even at stage 0
    assert!(state.dialog_needs_reset);
    assert!(!state.stage_changed);
}

#[test]
fn scene_change_directive_is_decoded_by_prefix() {
    assert_eq!(scene_change_target("change_scene:school"), Some("school".to_string()));
    assert_eq!(scene_change_target("say:hello"), None);
    assert_eq!(scene_change_target("change_scene:"), Some(String::new()));
    assert_eq!(scene_change_target(""), None);
}

#[test]
fn scene_change_action_switches_instead_of_advancing() {
    let mut e = entry("narrator", &[("thai", "bye")]);
    e.actions.push("change_scene:school".to_string());
    let scene = scene_of(vec![e, entry("narrator", &[("thai", "more")])]);
    let mut resource = DialogResource::new();
    resource.register_scene("school", scene_of(vec![entry("narrator", &[("thai", "hi")])]));
    let mut state = vn_at(0);
    state.change_stage(0);
    let mut history = DialogHistory::new();

    process_stage_progression(&mut state, &mut history, &mut resource, &scene);
    assert_eq!(state.current_scene, "school");
    assert_eq!(state.stage, 0);
    // the scene switch already advanced the state: no stage was recorded
    assert_eq!(history.stage_count(), 0);
}

#[test]
fn unknown_scene_action_falls_through_to_advance() {
    let mut e = entry("narrator", &[("thai", "bye")]);
    e.actions.push("change_scene:missing".to_string());
    let scene = scene_of(vec![e, entry("narrator", &[("thai", "more")])]);
    let mut resource = DialogResource::new();
    let mut state = vn_at(0);
    let mut history = DialogHistory::new();

    process_stage_progression(&mut state, &mut history, &mut resource, &scene);
    assert_eq!(state.current_scene, "intro");
    assert_eq!(state.stage, 1);
    assert_eq!(history.stage_count(), 1);
}

#[test]
fn out_of_range_stage_is_a_no_op() {
    let scene = scene_of(vec![entry("narrator", &[("thai", "x")])]);
    let mut resource = DialogResource::new();
    let mut state = vn_at(9);
    let mut history = DialogHistory::new();

    process_stage_progression(&mut state, &mut history, &mut resource, &scene);
    assert_eq!(state.stage, 9);
    assert_eq!(history.stage_count(), 0);
}

#[test]
fn continue_fast_forwards_before_advancing() {
    let scene = scene_of(vec![
        entry("narrator", &[("thai", "abcd")]),
        entry("narrator", &[("thai", "efgh")]),
    ]);
    let mut resource = DialogResource::new();
    let mut state = vn_at(0);
    let mut history = DialogHistory::new();
    let cs = ChoiceState::new();
    let mut tw = TypewriterText::new("abcd", 50);
    tw.tick(50);
    assert_eq!(tw.char_index, 1);

    // first trigger completes the reveal, does not advance
    handle_continue(&mut state, &mut history, &mut resource, &scene, &mut tw, &cs);
    assert_eq!(state.stage, 0);
    assert_eq!(tw.char_index, 4);

    // second trigger advances
    handle_continue(&mut state, &mut history, &mut resource, &scene, &mut tw, &cs);
    assert_eq!(state.stage, 1);
}

#[test]
fn continue_ignored_while_choice_session_active() {
    let scene = scene_of(vec![entry("narrator", &[("thai", "abcd")])]);
    let mut resource = DialogResource::new();
    let mut state = vn_at(0);
    let mut history = DialogHistory::new();
    let mut cs = ChoiceState::new();
    cs.activate(Vec::new());
    let mut tw = TypewriterText::new("abcd", 50);
    tw.fast_forward();

    handle_continue(&mut state, &mut history, &mut resource, &scene, &mut tw, &cs);
    assert_eq!(state.stage, 0);
    assert_eq!(history.stage_count(), 0);
}

#[test]
fn dirty_state_repopulates_dialog_content() {
    let mut characters = Vec::new();
    characters.push(helium::script::DialogCharacter {
        name: "alice".to_string(),
        display_name: lmap(&[("thai", "อลิซ"), ("english", "Alice")]),
        sprite: String::new(),
    });
    let mut entries = Vec::new();
    entries.push(entry("alice", &[("thai", "สวัสดี")]));
    let scene = DialogScene {
        characters,
        entries,
        default_background: String::new(),
    };
    let mut state = vn_at(0);
    state.dialog_needs_reset = true;
    let mut manager = DialogManager::new();
    let mut tw = TypewriterText::new("old", 50);

    manage_dialog_state(&mut state, &mut manager, &scene, &mut tw, 50);
    assert!(!state.dialog_needs_reset);
    assert!(!state.stage_changed);
    assert_eq!(manager.current_character_name, "อลิซ");
    assert_eq!(manager.current_dialog_text, "สวัสดี");
    assert!(!manager.is_processing());
    assert_eq!(tw.full_text, "สวัสดี");
    assert_eq!(tw.char_index, 0);
}

#[test]
fn out_of_range_dirty_state_stays_reset() {
    let scene = scene_of(vec![entry("narrator", &[("thai", "x")])]);
    let mut state = vn_at(7);
    state.dialog_needs_reset = true;
    let mut manager = DialogManager::new();
    let mut tw = TypewriterText::new("old", 50);

    manage_dialog_state(&mut state, &mut manager, &scene, &mut tw, 50);
    assert!(!state.dialog_needs_reset);
    assert_eq!(manager.current_character_name, "");
    assert_eq!(manager.current_dialog_text, "");
    assert!(manager.is_processing());
    assert_eq!(tw.full_text, "");
}

#[test]
fn dialog_manager_tracks_processing() {
    let mut manager = DialogManager::new();
    assert!(!manager.is_processing());
    manager.reset();
    assert!(manager.is_processing());
    manager.set_content("a".to_string(), "b".to_string());
    assert!(!manager.is_processing());
    assert_eq!(manager.current_character_name, "a");
    assert_eq!(manager.current_dialog_text, "b");
}

#[test]
fn escape_pauses_and_resumes() {
    let previous = PreviousState::new();
    assert_eq!(
        escape_transition(&GameState::InGame, &previous),
        Some(GameState::Paused)
    );
    assert_eq!(
        escape_transition(&GameState::Paused, &previous),
        Some(GameState::InGame)
    );
    assert_eq!(escape_transition(&GameState::MainMenu, &previous), None);
    assert_eq!(escape_transition(&GameState::Loading, &previous), None);
}

#[test]
fn settings_returns_to_remembered_state() {
    let mut previous = PreviousState::new();
    let event = ChangeStateEvent {
        new_state: GameState::Settings,
    };
    let next = apply_state_change(&event, &GameState::MainMenu, &mut previous);
    assert_eq!(next, GameState::Settings);
    assert_eq!(previous.state, Some(GameState::MainMenu));
    assert_eq!(
        escape_transition(&GameState::Settings, &previous),
        Some(GameState::MainMenu)
    );
}

#[test]
fn plain_state_change_remembers_nothing() {
    let mut previous = PreviousState::new();
    let event = ChangeStateEvent {
        new_state: GameState::InGame,
    };
    let next = apply_state_change(&event, &GameState::MainMenu, &mut previous);
    assert_eq!(next, GameState::InGame);
    assert_eq!(previous.state, None);
    assert_eq!(
        escape_transition(&GameState::Settings, &previous),
        Some(GameState::InGame)
    );
}

#[test]
fn back_step_reinstates_stage_and_discards_session() {
    let mut state = vn_at(2);
    let mut history = DialogHistory::new();
    let mut cs = ChoiceState::new();
    history.add_stage(2);
    state.change_stage(3);
    state.mark_dialog_reset();
    cs.activate(vec![DialogChoice {
        text: lmap(&[("thai", "x")]),
        target_stage: 5,
        conditions: Vec::new(),
    }]);

    let back = go_back_step(&mut state, &mut history, &mut cs);
    assert_eq!(back, Some(2));
    assert_eq!(state.stage, 2);
    assert!(state.dialog_needs_reset);
    assert!(!cs.active);
    assert_eq!(cs.choices.len(), 0);

    // with the ledger empty, nothing at all changes
    state.mark_dialog_reset();
    let none = go_back_step(&mut state, &mut history, &mut cs);
    assert_eq!(none, None);
    assert_eq!(state.stage, 2);
    assert!(!state.dialog_needs_reset);
}
