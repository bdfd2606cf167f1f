//! Verified core of a show-control companion for a digital mixing console:
//! channel and parameter models, the show file's clean-up, safety-copy
//! naming, ordering and rotation, the channel pickers' state machines, the
//! inspector's filtering and ordering, macro step editing, CIDR allowlists,
//! EDID decoding, the help-bubble catalog with its translations, the Stream
//! Deck panel's device choice and the application's event-loop step.

pub mod text;
pub mod seqs;
pub mod ids;
pub mod channel;
pub mod state;
pub mod model;
pub mod edid;
pub mod gangs;
pub mod gang_picker;
pub mod monitor_picker;
pub mod backup;
pub mod show_file;
pub mod help_catalog;
pub mod catalog_laws;
pub mod help;
pub mod autosave;
pub mod preferences;
pub mod macros;
pub mod inspector;
pub mod cidr;
pub mod ui_state;
pub mod macro_edit;
pub mod ui_events;
pub mod streamdeck_panel;
