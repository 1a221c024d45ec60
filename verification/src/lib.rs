//! Backend command library for a desktop editor: application settings and
//! state, workspace opening, file-command response shaping, checkpoints and
//! git status, each with a verified contract.

pub mod ai;
pub mod checkpoint;
pub mod fileio;
pub mod git;
pub mod numeral;
pub mod settings;
pub mod state;
pub mod workspace;
