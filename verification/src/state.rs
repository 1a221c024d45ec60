//! The process-wide state container: the currently open workspace, if any,
//! and the current user settings. Command handlers read or replace slices of
//! it; nothing else mutates it.

use crate::settings::AppSettings;
use crate::settings::default_settings;
use crate::settings::is_default_settings;
use crate::workspace::Workspace;
use vstd::prelude::*;

verus! {

/// The exclusive owner of the optional open workspace and the settings,
/// alive for the whole process.
pub struct AppState {
    pub workspace: Option<Workspace>,
    pub settings: AppSettings,
}

impl AppState {
    /// Well-formedness: at most one workspace is open (the `Option` itself
    /// enforces that), and an open workspace is well-formed.
    pub open spec fn wf(&self) -> bool {
        match self.workspace {
            Some(w) => w.wf(),
            None => true,
        }
    }

    /// Hands the caller a copy of the current settings. No error path.
    pub fn get_settings(&self) -> (s: AppSettings)
        ensures
            s == self.settings,
    {
        self.settings.duplicate()
    }

    /// Replaces the stored settings wholesale; there are no merge semantics
    /// and no validation. The open workspace is untouched.
    pub fn set_settings(&mut self, new_settings: AppSettings)
        ensures
            final(self).settings == new_settings,
            final(self).workspace == old(self).workspace,
            old(self).wf() ==> final(self).wf(),
    {
        self.settings = new_settings;
    }
}

impl Default for AppState {
    /// The state a fresh process starts from: no workspace open and the
    /// documented default settings.
    fn default() -> (s: Self)
        ensures
            s.workspace is None,
            is_default_settings(s.settings),
            s.wf(),
    {
        AppState { workspace: None, settings: default_settings() }
    }
}

} // verus!
