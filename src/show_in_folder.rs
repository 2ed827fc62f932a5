use vstd::prelude::*;
use vstd::string::*;

verus! {

/// How the desktop file manager is asked to reveal a path.
pub enum RevealPlan {
    /// Ask the file manager's bus interface to show and select this item.
    ShowItem(String),
    /// Open this directory without selecting anything in it.
    OpenDirectory(String),
}

impl RevealPlan {
    /// The path handed to the file manager.
    pub open spec fn target(self) -> Seq<char> {
        match self {
            RevealPlan::ShowItem(p) => p@,
            RevealPlan::OpenDirectory(p) => p@,
        }
    }
}

/// The directory opened in place of a path that the bus interface cannot carry: the
/// path itself when it is a directory, else its parent (the path itself when it has none).
pub open spec fn fallback_directory(
    path: Seq<char>,
    path_is_dir: bool,
    parent: Option<Seq<char>>,
) -> Seq<char> {
    if path_is_dir {
        path
    } else {
        match parent {
            Some(p) => p,
            None => path,
        }
    }
}

/// Tells whether `s` holds a comma.
pub fn has_comma(s: &str) -> (r: bool)
    ensures
        r == s@.contains(','),
{
    let n = s.unicode_len();
    let mut i: usize = 0;
    while i < n
        invariant
            0 <= i <= n,
            n == s@.len(),
            forall|j: int| 0 <= j < i ==> s@[j] != ',',
        decreases n - i,
    {
        if s.get_char(i) == ',' {
            return true;
        }
        i = i + 1;
    }
    false
}

/// Chooses how to reveal `path` through the desktop file manager's bus interface, whose
/// item list cannot carry a comma: such a path is replaced by the directory to open.
/// `parent` is the path without its last component, if it has one.
pub fn plan_reveal(path: String, path_is_dir: bool, parent: Option<String>) -> (r: RevealPlan)
    ensures
        (r is OpenDirectory) == path@.contains(','),
        r is ShowItem ==> r.target() == path@,
        r is OpenDirectory ==> r.target() == fallback_directory(
            path@,
            path_is_dir,
            match parent {
                Some(p) => Some(p@),
                None => None,
            },
        ),
{
    if !has_comma(path.as_str()) {
        RevealPlan::ShowItem(path)
    } else if path_is_dir {
        RevealPlan::OpenDirectory(path)
    } else {
        match parent {
            Some(p) => RevealPlan::OpenDirectory(p),
            None => RevealPlan::OpenDirectory(path),
        }
    }
}

} // verus!
