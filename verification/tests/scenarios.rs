use helium::choice::{
    execute_choice_selection, manage_choice_session, resolve_choice_input, ChoiceState,
};
use helium::history::{handle_back_action, DialogHistory};
use helium::localized::{resolve, LocalizedStrings};
use helium::progress::process_stage_progression;
use helium::resource::DialogResource;
use helium::script::{DialogChoice, DialogEntry, DialogScene};
use helium::state::VNState;
use helium::typewriter::TypewriterText;

fn lmap(pairs: &[(&str, &str)]) -> LocalizedStrings {
    let mut m = LocalizedStrings::new();
    for (k, v) in pairs {
        m.insert(k, v.to_string());
    }
    m
}

fn entry_with(
    character: &str,
    texts: &[(&str, &str)],
    choices: Vec<DialogChoice>,
    auto: Option<usize>,
) -> DialogEntry {
    DialogEntry {
        character: character.to_string(),
        text: lmap(texts),
        actions: Vec::new(),
        choices,
        auto_proceed: auto,
        character_states: Vec::new(),
        background: None,
    }
}

fn plain_scene(n: usize) -> DialogScene {
    let mut entries = Vec::new();
    for i in 0..n {
        entries.push(entry_with(
            "narrator",
            &[("thai", &format!("line {}", i))],
            Vec::new(),
            None,
        ));
    }
    DialogScene {
        characters: Vec::new(),
        entries,
        default_background: String::new(),
    }
}

fn vn_at(stage: usize) -> VNState {
    VNState {
        stage,
        language: "thai".to_string(),
        current_scene: "intro".to_string(),
        stage_changed: false,
        dialog_needs_reset: false,
    }
}

#[test]
fn three_advances_wrap_around() {
    let scene = plain_scene(3);
    let mut state = vn_at(0);
    let mut history = DialogHistory::new();
    let mut resource = DialogResource::new();

    process_stage_progression(&mut state, &mut history, &mut resource, &scene);
    assert_eq!(state.stage, 1);
    process_stage_progression(&mut state, &mut history, &mut resource, &scene);
    assert_eq!(state.stage, 2);
    process_stage_progression(&mut state, &mut history, &mut resource, &scene);
    assert_eq!(state.stage, 0);
    assert_eq!(history.stage_count(), 3);
}

#[test]
fn auto_proceed_jumps_and_records_history() {
    let mut entries = Vec::new();
    entries.push(entry_with("narrator", &[("thai", "a")], Vec::new(), None));
    entries.push(entry_with(
        "narrator",
        &[("thai", "b")],
        Vec::new(),
        Some(5),
    ));
    entries.push(entry_with("narrator", &[("thai", "c")], Vec::new(), None));
    let scene = DialogScene {
        characters: Vec::new(),
        entries,
        default_background: String::new(),
    };
    let mut state = vn_at(1);
    let mut history = DialogHistory::new();
    let mut resource = DialogResource::new();

    process_stage_progression(&mut state, &mut history, &mut resource, &scene);
    assert_eq!(state.stage, 5);
    assert_eq!(history.stage_count(), 1);
    assert_eq!(handle_back_action(&mut history), Some(1));
}

fn choice_scene() -> DialogScene {
    let choices = vec![
        DialogChoice {
            text: lmap(&[("thai", "left")]),
            target_stage: 7,
            conditions: Vec::new(),
        },
        DialogChoice {
            text: lmap(&[("thai", "right")]),
            target_stage: 9,
            conditions: Vec::new(),
        },
    ];
    let mut entries = Vec::new();
    entries.push(entry_with("narrator", &[("thai", "a")], Vec::new(), None));
    entries.push(entry_with("narrator", &[("thai", "b")], Vec::new(), None));
    entries.push(entry_with("narrator", &[("thai", "pick")], choices, None));
    DialogScene {
        characters: Vec::new(),
        entries,
        default_background: String::new(),
    }
}

#[test]
fn selecting_second_choice_resolves_to_target() {
    let scene = choice_scene();
    let mut state = vn_at(2);
    let mut history = DialogHistory::new();
    let mut choice_state = ChoiceState::new();
    let mut typewriter = TypewriterText::new("pick", 50);
    typewriter.fast_forward();

    manage_choice_session(&mut choice_state, &scene, state.stage, &typewriter);
    assert!(choice_state.active);
    assert_eq!(choice_state.choices.len(), 2);

    // ordinal "2" is the option at index 1
    let resolved = resolve_choice_input(&choice_state, 1);
    assert_eq!(resolved, Some((1, 9)));

    execute_choice_selection(&mut state, &mut choice_state, &mut history, 1, 9);
    assert_eq!(state.stage, 9);
    assert!(!choice_state.active);
    assert_eq!(choice_state.choices.len(), 0);
    assert_eq!(choice_state.get_last_choice(), Some(1));
    assert_eq!(history.last_event(), Some((2, 1, 9)));
}

#[test]
fn going_back_over_a_choice_removes_its_record() {
    let mut state = vn_at(2);
    let mut history = DialogHistory::new();
    let mut choice_state = ChoiceState::new();
    execute_choice_selection(&mut state, &mut choice_state, &mut history, 1, 9);
    assert_eq!(state.stage, 9);
    assert_eq!(history.event_count(), 1);

    let back = handle_back_action(&mut history);
    assert_eq!(back, Some(2));
    assert_eq!(history.event_count(), 0);
    assert_eq!(history.stage_count(), 0);

    state.stage = back.unwrap();
    assert_eq!(state.stage, 2);
}

#[test]
fn missing_language_resolves_to_placeholder() {
    let map = lmap(&[("thai", "สวัสดี"), ("english", "hello")]);
    let text = resolve(&map, "klingon");
    assert_eq!(text, "[No text in klingon]");
}
