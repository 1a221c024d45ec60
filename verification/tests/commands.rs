use editor_backend::ai::ai_generate;
use editor_backend::checkpoint::checkpoint_for_instant;
use editor_backend::checkpoint::create_checkpoint;
use editor_backend::fileio::FileOp;
use editor_backend::fileio::read_file_response;
use editor_backend::fileio::write_file_response;
use editor_backend::git::get_git_status;
use editor_backend::settings::AppSettings;
use editor_backend::settings::default_settings;
use editor_backend::state::AppState;
use editor_backend::workspace::file_name;
use editor_backend::workspace::open_workspace;

#[test]
fn default_state_has_documented_defaults() {
    let state = AppState::default();
    assert!(state.workspace.is_none());
    let s = &state.settings;
    assert_eq!(s.theme, "dark");
    assert_eq!(s.font_size, 14);
    assert_eq!(s.font_family, "JetBrains Mono");
    assert!(s.auto_save);
    assert_eq!(s.auto_save_delay, 1000);
    assert_eq!(s.ai_provider, "openai");
    assert_eq!(s.ai_model, "gpt-4");
    assert!(!s.git_auto_commit);
    assert!(s.checkpoint_auto_create);
}

#[test]
fn get_settings_returns_current_settings() {
    let state = AppState::default();
    let s = state.get_settings();
    assert_eq!(s.theme, "dark");
    assert_eq!(s.font_size, 14);
    assert_eq!(s.font_family, "JetBrains Mono");
}

#[test]
fn set_settings_replaces_stored_settings() {
    let mut state = AppState::default();
    let new_settings = AppSettings {
        theme: String::from("light"),
        font_size: 16,
        font_family: String::from("Iosevka"),
        auto_save: false,
        auto_save_delay: 500,
        ai_provider: String::from("mistral"),
        ai_model: String::from("mixtral"),
        git_auto_commit: true,
        checkpoint_auto_create: false,
    };
    state.set_settings(new_settings);
    let s = state.get_settings();
    assert_eq!(s.theme, "light");
    assert_eq!(s.font_size, 16);
    assert_eq!(s.font_family, "Iosevka");
    assert!(!s.auto_save);
    assert_eq!(s.auto_save_delay, 500);
    assert_eq!(s.ai_provider, "mistral");
    assert_eq!(s.ai_model, "mixtral");
    assert!(s.git_auto_commit);
    assert!(!s.checkpoint_auto_create);
    assert!(state.workspace.is_none());
}

#[test]
fn open_workspace_uses_final_path_component() {
    let w = open_workspace(String::from("/a/b/project"));
    assert_eq!(w.id, "workspace-1");
    assert_eq!(w.name, "project");
    assert_eq!(w.path, "/a/b/project");
    assert!(w.files.is_empty());
    assert!(w.open_files.is_empty());
    assert!(w.active_file.is_none());
}

#[test]
fn open_workspace_root_yields_unknown() {
    let w = open_workspace(String::from("/"));
    assert_eq!(w.name, "Unknown");
    assert_eq!(w.path, "/");
}

#[test]
fn file_name_handles_edge_cases() {
    assert_eq!(file_name(""), None);
    assert_eq!(file_name("/"), None);
    assert_eq!(file_name("//"), None);
    assert_eq!(file_name("a"), Some(String::from("a")));
    assert_eq!(file_name("/a/b/"), Some(String::from("b")));
    assert_eq!(file_name("a//b"), Some(String::from("b")));
    assert_eq!(file_name("."), None);
    assert_eq!(file_name(".."), None);
    assert_eq!(file_name("a/.."), None);
    assert_eq!(file_name("a/./."), Some(String::from("a")));
    assert_eq!(file_name("..."), Some(String::from("...")));
    assert_eq!(file_name("/tmp/.hidden"), Some(String::from(".hidden")));
}

#[test]
fn checkpoint_echoes_name_and_description() {
    let c = create_checkpoint(String::from("v1"), None);
    assert_eq!(c.name, "v1");
    assert_eq!(c.description, None);
    assert!(c.id.starts_with("checkpoint-"));
    assert!(c.id.len() > "checkpoint-".len());
    assert!(!c.timestamp.is_empty());
    assert!(c.files.is_empty());
    assert!(c.metadata.is_empty());

    let d = create_checkpoint(String::from("v2"), Some(String::from("second")));
    assert_eq!(d.name, "v2");
    assert_eq!(d.description, Some(String::from("second")));
}

#[test]
fn checkpoint_for_instant_determines_identifier() {
    let c = checkpoint_for_instant(
        String::from("v1"),
        None,
        1,
        5,
        String::from("1970-01-01T00:00:01.000000005+00:00"),
    );
    assert_eq!(c.id, "checkpoint-1000000005");
    assert_eq!(c.timestamp, "1970-01-01T00:00:01.000000005+00:00");
    assert_eq!(c.name, "v1");

    let zero = checkpoint_for_instant(String::from("z"), None, 0, 0, String::from("t"));
    assert_eq!(zero.id, "checkpoint-0");

    let before_epoch = checkpoint_for_instant(String::from("b"), None, -1, 0, String::from("t"));
    assert_eq!(before_epoch.id, "checkpoint--1000000000");
}

#[test]
fn checkpoint_identifiers_are_distinct() {
    let a = create_checkpoint(String::from("v1"), None);
    let b = create_checkpoint(String::from("v1"), None);
    assert_ne!(a.id, b.id);
}

#[test]
fn git_status_is_clean_main() {
    let s = get_git_status();
    assert_eq!(s.branch, "main");
    assert!(s.is_clean);
    assert!(s.modified_files.is_empty());
    assert!(s.staged_files.is_empty());
    assert!(s.untracked_files.is_empty());
    assert_eq!(s.ahead, 0);
    assert_eq!(s.behind, 0);
}

#[test]
fn ai_generate_echoes_prompt() {
    let r = ai_generate(String::from("hello"), None);
    assert_eq!(r, "Mock AI response for: hello");
    let with_context = ai_generate(String::from("explain"), Some(serde_json::Value::Null));
    assert_eq!(with_context, "Mock AI response for: explain");
}

#[test]
fn read_file_response_passes_content_through() {
    let r = read_file_response(String::from("/tmp/x"), Ok(String::from("hello")));
    assert_eq!(r.unwrap(), "hello");
}

#[test]
fn read_file_response_wraps_failure() {
    let r = read_file_response(
        String::from("/missing/file.txt"),
        Err(String::from("No such file or directory")),
    );
    let e = r.unwrap_err();
    assert!(matches!(e.op, FileOp::Read));
    assert_eq!(e.path, "/missing/file.txt");
    assert_eq!(e.cause, "No such file or directory");
    assert_eq!(
        e.message(),
        "Failed to read file /missing/file.txt: No such file or directory"
    );
}

#[test]
fn write_file_response_reports_success_and_failure() {
    let ok = write_file_response(String::from("/tmp/x"), Ok(()));
    assert!(ok.is_ok());
    let err = write_file_response(String::from("/ro/x"), Err(String::from("Permission denied")));
    let e = err.unwrap_err();
    assert!(matches!(e.op, FileOp::Write));
    assert_eq!(e.path, "/ro/x");
    assert_eq!(e.message(), "Failed to write file /ro/x: Permission denied");
}

#[test]
fn settings_duplicate_is_equal() {
    let s = default_settings();
    let copy = s.duplicate();
    assert_eq!(copy.theme, s.theme);
    assert_eq!(copy.font_size, s.font_size);
    assert_eq!(copy.font_family, s.font_family);
    assert_eq!(copy.auto_save, s.auto_save);
    assert_eq!(copy.auto_save_delay, s.auto_save_delay);
    assert_eq!(copy.ai_provider, s.ai_provider);
    assert_eq!(copy.ai_model, s.ai_model);
    assert_eq!(copy.git_auto_commit, s.git_auto_commit);
    assert_eq!(copy.checkpoint_auto_create, s.checkpoint_auto_create);
}
