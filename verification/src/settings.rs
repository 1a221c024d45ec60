//! User preferences for the editor: appearance, auto-save behaviour, AI
//! provider identifiers and automation toggles. Every field has a documented
//! default; no validation is enforced on update.

use vstd::prelude::*;

verus! {

/// The full set of user preferences. Created once at process start with the
/// defaults and replaced wholesale on update; there are no merge semantics.
#[derive(Debug)]
pub struct AppSettings {
    pub theme: String,
    pub font_size: u32,
    pub font_family: String,
    pub auto_save: bool,
    pub auto_save_delay: u32,
    pub ai_provider: String,
    pub ai_model: String,
    pub git_auto_commit: bool,
    pub checkpoint_auto_create: bool,
}

/// The documented defaults: dark theme, JetBrains Mono at size 14, auto-save
/// every 1000 ms, the `openai` provider with model `gpt-4`, no automatic git
/// commits, automatic checkpoints on.
pub open spec fn is_default_settings(s: AppSettings) -> bool {
    &&& s.theme@ == "dark"@
    &&& s.font_size == 14
    &&& s.font_family@ == "JetBrains Mono"@
    &&& s.auto_save
    &&& s.auto_save_delay == 1000
    &&& s.ai_provider@ == "openai"@
    &&& s.ai_model@ == "gpt-4"@
    &&& !s.git_auto_commit
    &&& s.checkpoint_auto_create
}

/// Builds the settings record that a fresh process starts from.
pub fn default_settings() -> (s: AppSettings)
    ensures
        is_default_settings(s),
{
    AppSettings {
        theme: String::from_str("dark"),
        font_size: 14,
        font_family: String::from_str("JetBrains Mono"),
        auto_save: true,
        auto_save_delay: 1000,
        ai_provider: String::from_str("openai"),
        ai_model: String::from_str("gpt-4"),
        git_auto_commit: false,
        checkpoint_auto_create: true,
    }
}

impl AppSettings {
    /// A field-by-field copy, equal to the original record.
    pub fn duplicate(&self) -> (s: AppSettings)
        ensures
            s == *self,
    {
        AppSettings {
            theme: self.theme.clone(),
            font_size: self.font_size,
            font_family: self.font_family.clone(),
            auto_save: self.auto_save,
            auto_save_delay: self.auto_save_delay,
            ai_provider: self.ai_provider.clone(),
            ai_model: self.ai_model.clone(),
            git_auto_commit: self.git_auto_commit,
            checkpoint_auto_create: self.checkpoint_auto_create,
        }
    }
}

} // verus!
