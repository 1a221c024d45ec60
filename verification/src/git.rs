//! Git status reporting. The backend does not inspect a repository yet: the
//! status is a fixed clean picture of a `main` branch.

use vstd::prelude::*;

verus! {

/// Branch name, cleanliness flag, the three file-path lists and the
/// ahead/behind counts relative to upstream.
#[derive(Debug)]
pub struct GitStatus {
    pub branch: String,
    pub is_clean: bool,
    pub modified_files: Vec<String>,
    pub staged_files: Vec<String>,
    pub untracked_files: Vec<String>,
    pub ahead: i32,
    pub behind: i32,
}

/// Reports the version-control state. No repository is inspected yet, so the
/// result is always the clean `main` picture: no modified, staged or
/// untracked files, and no commits ahead of or behind upstream.
pub fn get_git_status() -> (s: GitStatus)
    ensures
        s.branch@ == "main"@,
        s.is_clean,
        s.modified_files@.len() == 0,
        s.staged_files@.len() == 0,
        s.untracked_files@.len() == 0,
        s.ahead == 0,
        s.behind == 0,
{
    GitStatus {
        branch: String::from_str("main"),
        is_clean: true,
        modified_files: Vec::new(),
        staged_files: Vec::new(),
        untracked_files: Vec::new(),
        ahead: 0,
        behind: 0,
    }
}

} // verus!
