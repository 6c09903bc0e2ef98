//! Top-level game states and the two transition rules that drive them:
//! applying a requested state change (remembering where to come back to
//! for the overlay states), and the escape-key transition.

use vstd::prelude::*;

verus! {

/// The top-level states of the application.
#[derive(Clone, Copy, PartialEq, Eq, Hash, Debug, Structural)]
pub enum GameState {
    MainMenu,
    InGame,
    Paused,
    Settings,
    Loading,
}

impl Default for GameState {
    /// The application starts at the main menu.
    fn default() -> (r: GameState)
        ensures
            r == GameState::MainMenu,
    {
        GameState::MainMenu
    }
}

/// A request to move to another game state.
pub struct ChangeStateEvent {
    pub new_state: GameState,
}

/// The state to come back to when leaving an overlay state.
pub struct PreviousState {
    pub state: Option<GameState>,
}

impl PreviousState {
    /// Nothing to come back to yet.
    pub fn new() -> (r: PreviousState)
        ensures
            r.state is None,
    {
        PreviousState { state: None }
    }
}

/// Apply a requested state change: when entering one of the overlay
/// states (paused or settings), the current state is remembered so it can
/// be returned to; the requested state becomes current either way.
pub fn apply_state_change(
    event: &ChangeStateEvent,
    current: &GameState,
    previous_state: &mut PreviousState,
) -> (next: GameState)
    ensures
        next == event.new_state,
        (event.new_state == GameState::Paused || event.new_state == GameState::Settings)
            ==> final(previous_state).state == Some(*current),
        !(event.new_state == GameState::Paused || event.new_state == GameState::Settings)
            ==> *final(previous_state) == *old(previous_state),
{
    if event.new_state == GameState::Paused || event.new_state == GameState::Settings {
        previous_state.state = Some(*current);
    }
    event.new_state
}

/// The state the escape key moves to: in game it pauses, paused it
/// resumes, and in the settings it returns to the remembered state (or
/// the game when none is remembered); elsewhere it does nothing.
pub fn escape_transition(current: &GameState, previous_state: &PreviousState) -> (r: Option<
    GameState,
>)
    ensures
        *current == GameState::InGame ==> r == Some(GameState::Paused),
        *current == GameState::Paused ==> r == Some(GameState::InGame),
        *current == GameState::Settings ==> r == Some(
            match previous_state.state {
                Some(p) => p,
                None => GameState::InGame,
            },
        ),
        *current == GameState::MainMenu || *current == GameState::Loading ==> r is None,
{
    match current {
        GameState::InGame => Some(GameState::Paused),
        GameState::Paused => Some(GameState::InGame),
        GameState::Settings => match &previous_state.state {
            Some(p) => Some(*p),
            None => Some(GameState::InGame),
        },
        GameState::MainMenu => None,
        GameState::Loading => None,
    }
}

} // verus!
