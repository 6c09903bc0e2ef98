//! Playback engine for a branching visual novel: script data model,
//! stage-progression state machine, choice resolution with history-based
//! backtracking, timed text reveal, and localization lookup.

pub mod choice;
pub mod game_state;
pub mod history;
pub mod language;
pub mod localized;
pub mod manager;
pub mod progress;
pub mod resource;
pub mod script;
pub mod state;
pub mod table;
pub mod typewriter;
