//! Workspaces: an opened project folder with its file bookkeeping, and the
//! derivation of its display name from the final component of its path.

use vstd::prelude::*;

verus! {

/// A file's metadata and optional in-memory content, with open/modified
/// flags. Declared for the command surface; no handler populates it yet.
#[derive(Debug)]
pub struct FileInfo {
    pub id: String,
    pub name: String,
    pub path: String,
    pub file_type: String,
    pub size: Option<u64>,
    pub modified: Option<String>,
    pub is_open: bool,
    pub is_modified: bool,
    pub content: Option<String>,
}

/// An opened project folder: identifier, display name, path, known files,
/// which file identifiers are open, and which of those is active.
#[derive(Debug)]
pub struct Workspace {
    pub id: String,
    pub name: String,
    pub path: String,
    pub files: Vec<FileInfo>,
    pub open_files: Vec<String>,
    pub active_file: Option<String>,
}

impl Workspace {
    /// Well-formedness: every open file identifier names a known file, and
    /// the active file, if set, is among the open ones.
    pub open spec fn wf(&self) -> bool {
        &&& forall|i: int|
            0 <= i < self.open_files@.len() ==> exists|j: int|
                0 <= j < self.files@.len() && (#[trigger] self.files@[j]).id@ == (
                #[trigger] self.open_files@[i])@
        &&& match self.active_file {
            Some(a) => exists|i: int|
                0 <= i < self.open_files@.len() && (#[trigger] self.open_files@[i])@ == a@,
            None => true,
        }
    }
}

/// The longest suffix of `s` that contains no `/` separator.
pub open spec fn tail_component(s: Seq<char>) -> Seq<char>
    decreases s.len(),
{
    if s.len() == 0 || s.last() == '/' {
        Seq::empty()
    } else {
        tail_component(s.drop_last()).push(s.last())
    }
}

/// The file name that a path denotes: its final component, with trailing
/// separators ignored and `.` components skipped. The root, the empty path,
/// and a path whose final component is `..` have no file name.
pub open spec fn path_file_name(s: Seq<char>) -> Option<Seq<char>>
    decreases s.len(),
{
    if s.len() == 0 {
        None
    } else if s.last() == '/' {
        path_file_name(s.drop_last())
    } else {
        let comp = tail_component(s);
        if comp == seq!['.'] {
            path_file_name(s.drop_last())
        } else if comp == seq!['.', '.'] {
            None
        } else {
            Some(comp)
        }
    }
}

/// The display name an opened workspace gets: the path's file name, or the
/// literal `Unknown` where the path has none.
pub open spec fn workspace_display_name(p: Seq<char>) -> Seq<char> {
    match path_file_name(p) {
        Some(n) => n,
        None => "Unknown"@,
    }
}

/// A suffix with no separator, delimited on its left by a separator or by
/// the start of the string, is exactly the tail component.
proof fn lemma_tail_component_range(s: Seq<char>, start: int)
    requires
        0 <= start <= s.len(),
        forall|k: int| start <= k < s.len() ==> s[k] != '/',
        start > 0 ==> s[start - 1] == '/',
    ensures
        tail_component(s) =~= s.subrange(start, s.len() as int),
    decreases s.len(),
{
    if s.len() == 0 {
    } else if start == s.len() {
        if start > 0 {
            assert(s.last() == '/');
        }
    } else {
        assert(s.last() != '/');
        lemma_tail_component_range(s.drop_last(), start);
        assert(s.subrange(start, s.len() as int) =~= s.drop_last().subrange(
            start,
            s.len() - 1,
        ).push(s.last()));
    }
}

/// Derives the file name of a path, as `path_file_name` describes it.
pub fn file_name(path: &str) -> (r: Option<String>)
    ensures
        r is Some <==> path_file_name(path@) is Some,
        r matches Some(n) ==> path_file_name(path@) == Some(n@),
{
    let n = path.unicode_len();
    let mut end: usize = n;
    proof {
        assert(path@.subrange(0, end as int) =~= path@);
    }
    loop
        invariant
            end <= path@.len(),
            path_file_name(path@) == path_file_name(path@.subrange(0, end as int)),
        decreases end,
    {
        let ghost end0 = end;
        while end > 0 && path.get_char(end - 1) == '/'
            invariant
                end <= end0,
                end0 <= path@.len(),
                path_file_name(path@) == path_file_name(path@.subrange(0, end as int)),
            decreases end,
        {
            proof {
                assert(path@.subrange(0, end as int).drop_last() =~= path@.subrange(
                    0,
                    end - 1,
                ));
            }
            end = end - 1;
        }
        if end == 0 {
            return None;
        }
        let ghost stripped = path@.subrange(0, end as int);
        proof {
            assert(stripped.last() == path@[end - 1]);
        }
        let mut start: usize = end;
        while start > 0 && path.get_char(start - 1) != '/'
            invariant
                0 < end <= path@.len(),
                start <= end,
                path@[end - 1] != '/',
                forall|k: int| start <= k < end ==> path@[k] != '/',
            decreases start,
        {
            start = start - 1;
        }
        assert(start < end);
        let ghost comp = stripped.subrange(start as int, end as int);
        proof {
            assert(forall|k: int| start <= k < end ==> stripped[k] == path@[k]);
            lemma_tail_component_range(stripped, start as int);
            assert(tail_component(stripped) =~= comp);
        }
        if end - start == 1 && path.get_char(start) == '.' {
            proof {
                assert(comp =~= seq!['.']);
                assert(stripped.drop_last() =~= path@.subrange(0, end - 1));
            }
            end = start;
        } else if end - start == 2 && path.get_char(start) == '.' && path.get_char(start + 1)
            == '.' {
            proof {
                assert(comp =~= seq!['.', '.']);
            }
            return None;
        } else {
            proof {
                assert(comp[0] == path@[start as int]);
                if comp == seq!['.'] {
                    assert(comp.len() == 1 && comp[0] == '.');
                    assert(false);
                }
                if comp == seq!['.', '.'] {
                    assert(comp.len() == 2 && comp[0] == '.' && comp[1] == '.');
                    assert(path@[start as int] == '.' && path@[start + 1] == '.');
                    assert(false);
                }
                assert(path_file_name(stripped) == Some(comp));
            }
            let name = path.substring_char(start, end);
            return Some(String::from_str(name));
        }
    }
}

/// Opens a project folder: builds a workspace named after the final path
/// component (`Unknown` where the path has none), with no files scanned, no
/// open files and no active file. The directory itself is not inspected and
/// nothing is stored into shared state.
pub fn open_workspace(path: String) -> (w: Workspace)
    ensures
        w.id@ == "workspace-1"@,
        w.name@ == workspace_display_name(path@),
        w.path@ == path@,
        w.files@.len() == 0,
        w.open_files@.len() == 0,
        w.active_file is None,
        w.wf(),
{
    let name = match file_name(path.as_str()) {
        Some(n) => n,
        None => String::from_str("Unknown"),
    };
    Workspace {
        id: String::from_str("workspace-1"),
        name,
        path,
        files: Vec::new(),
        open_files: Vec::new(),
        active_file: None,
    }
}

} // verus!
