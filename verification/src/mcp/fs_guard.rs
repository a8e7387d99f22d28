//! The file-system guard of the editing server: every path a client names
//! is resolved against one root directory, `..` is refused, and what the
//! file system reports is checked to stay under the root.
//!
//! Paths are handled as UTF-8 text. Looking at the file system
//! (canonicalising a path, asking whether it is a file) is left to the
//! caller, who hands the outcome in.

use crate::text::{push_str, string_of, trim_seq, trim_str};
use vstd::prelude::*;

verus! {

/// One component of a path, as `std::path::Component` gives it.
#[derive(Debug, Clone, PartialEq, Eq)]
pub enum PathPart {
    Prefix(String),
    RootDir,
    CurDir,
    ParentDir,
    Normal(String),
}

/// The mathematical form of a path component.
pub enum PathPartView {
    Prefix(Seq<char>),
    RootDir,
    CurDir,
    ParentDir,
    Normal(Seq<char>),
}

impl View for PathPart {
    type V = PathPartView;

    open spec fn view(&self) -> PathPartView {
        match self {
            PathPart::Prefix(s) => PathPartView::Prefix(s@),
            PathPart::RootDir => PathPartView::RootDir,
            PathPart::CurDir => PathPartView::CurDir,
            PathPart::ParentDir => PathPartView::ParentDir,
            PathPart::Normal(s) => PathPartView::Normal(s@),
        }
    }
}

pub open spec fn parts_view(s: Seq<PathPart>) -> Seq<PathPartView> {
    s.map_values(|p: PathPart| p@)
}

/// The components of a path, as `Path::components` yields them.
pub uninterp spec fn std_path_components(p: Seq<char>) -> Seq<PathPartView>;

/// The path `Path::join` makes of a base and a path.
pub uninterp spec fn std_path_join(base: Seq<char>, p: Seq<char>) -> Seq<char>;

/// What `Path::file_name` gives for a path.
pub uninterp spec fn std_path_file_name(p: Seq<char>) -> Option<Seq<char>>;

/// What `Path::parent` gives for a path.
pub uninterp spec fn std_path_parent(p: Seq<char>) -> Option<Seq<char>>;

/// `Path::components`. The components are named, not described: the
/// contract says only that they are what `std_path_components` gives for
/// this text.
#[verifier::external_body]
fn path_components(p: &str) -> (r: Vec<PathPart>)
    ensures
        parts_view(r@) == std_path_components(p@),
{
    let mut out = Vec::new();
    for c in std::path::Path::new(p).components() {
        out.push(
            match c {
                std::path::Component::Prefix(x) => PathPart::Prefix(
                    x.as_os_str().to_string_lossy().into_owned(),
                ),
                std::path::Component::RootDir => PathPart::RootDir,
                std::path::Component::CurDir => PathPart::CurDir,
                std::path::Component::ParentDir => PathPart::ParentDir,
                std::path::Component::Normal(x) => PathPart::Normal(x.to_string_lossy().into_owned()),
            },
        );
    }
    out
}

/// Whether `Path::is_absolute` holds of a path's text (what makes a path
/// absolute differs between platforms).
pub uninterp spec fn std_path_is_absolute(p: Seq<char>) -> bool;

/// `Path::is_absolute`. The result is named, not described.
#[verifier::external_body]
fn path_is_absolute(p: &str) -> (r: bool)
    ensures
        r == std_path_is_absolute(p@),
{
    std::path::Path::new(p).is_absolute()
}

/// `Path::join`, read back as text. The result is named, not described.
#[verifier::external_body]
fn path_join(base: &str, p: &str) -> (r: String)
    ensures
        r@ == std_path_join(base@, p@),
{
    std::path::Path::new(base).join(p).to_string_lossy().into_owned()
}

/// `Path::file_name`, read back as text. The result is named, not described.
#[verifier::external_body]
fn path_file_name(p: &str) -> (r: Option<String>)
    ensures
        match r {
            Some(n) => std_path_file_name(p@) == Some(n@),
            None => std_path_file_name(p@) is None,
        },
{
    std::path::Path::new(p).file_name().map(|n| n.to_string_lossy().into_owned())
}

/// `Path::parent`, read back as text. The result is named, not described.
#[verifier::external_body]
fn path_parent(p: &str) -> (r: Option<String>)
    ensures
        match r {
            Some(n) => std_path_parent(p@) == Some(n@),
            None => std_path_parent(p@) is None,
        },
{
    std::path::Path::new(p).parent().map(|n| n.to_string_lossy().into_owned())
}

/// `a` begins with the components of `b`.
pub open spec fn parts_prefix(a: Seq<PathPartView>, b: Seq<PathPartView>) -> bool {
    b.len() <= a.len() && a.subrange(0, b.len() as int) == b
}

/// Whether `Path::starts_with` holds of two paths' texts.
pub uninterp spec fn std_path_starts_with(p: Seq<char>, base: Seq<char>) -> bool;

/// No component is a (Windows) prefix.
pub open spec fn no_prefix(parts: Seq<PathPartView>) -> bool {
    forall|i: int| 0 <= i < parts.len() ==> !(#[trigger] parts[i] is Prefix)
}

/// `Path::starts_with`. Its documentation says that only whole components
/// match: the contract claims that, where neither path has a prefix
/// component, the result is whether the components of `base` begin those
/// of `p`. (A prefix is compared by its parsed value, which the text of a
/// `Prefix` component does not determine; there the result is only named.)
#[verifier::external_body]
fn path_starts_with(p: &str, base: &str) -> (r: bool)
    ensures
        r == std_path_starts_with(p@, base@),
        no_prefix(std_path_components(p@)) && no_prefix(std_path_components(base@)) ==> r
            == parts_prefix(std_path_components(p@), std_path_components(base@)),
{
    std::path::Path::new(p).starts_with(std::path::Path::new(base))
}

/// Whether a path has a `..` component.
pub open spec fn has_parent_dir(parts: Seq<PathPartView>) -> bool {
    exists|i: int| 0 <= i < parts.len() && parts[i] is ParentDir
}

/// Whether a list of components has a `..`.
fn contains_parent_dir(parts: &Vec<PathPart>) -> (r: bool)
    ensures
        r == has_parent_dir(parts_view(parts@)),
{
    let mut i: usize = 0;
    while i < parts.len()
        invariant
            i <= parts@.len(),
            forall|j: int| 0 <= j < i ==> !(parts_view(parts@)[j] is ParentDir),
        decreases parts@.len() - i,
    {
        if let PathPart::ParentDir = &parts[i] {
            assert(parts_view(parts@)[i as int] is ParentDir);
            return true;
        }
        i = i + 1;
    }
    false
}

/// The guard: a canonical root directory.
#[derive(Debug, Clone)]
pub struct FsGuard {
    root: String,
}

/// The path a client names, taken under `root`: refused when it is blank or
/// has a `..` component.
pub open spec fn join_root_spec(root: Seq<char>, path: Seq<char>) -> Result<Seq<char>, Seq<char>> {
    if trim_seq(path).len() == 0 {
        Err("path must not be empty"@)
    } else if has_parent_dir(std_path_components(path)) {
        Err("path must not contain '..' components"@)
    } else {
        let candidate = if std_path_is_absolute(path) {
            path
        } else {
            std_path_join(root, path)
        };
        if has_parent_dir(std_path_components(candidate)) {
            Err("path must not contain '..' components"@)
        } else {
            Ok(candidate)
        }
    }
}

pub open spec fn result_view(r: Result<String, String>) -> Result<Seq<char>, Seq<char>> {
    match r {
        Ok(s) => Ok(s@),
        Err(e) => Err(e@),
    }
}

/// What an existing file named by `path` resolves to, given what
/// canonicalising the joined path gave and whether that is a file.
pub open spec fn resolve_existing_spec(
    root: Seq<char>,
    path: Seq<char>,
    canonical: Result<Seq<char>, Seq<char>>,
    canonical_is_file: bool,
) -> Result<Seq<char>, Seq<char>> {
    match join_root_spec(root, path) {
        Err(e) => Err(e),
        Ok(_) => match canonical {
            Err(e) => Err("file is not accessible: "@ + path + ": "@ + e),
            Ok(c) => if !std_path_starts_with(c, root) {
                Err("path escapes RHWP_MCP_ROOT: "@ + c)
            } else if !canonical_is_file {
                Err("path is not a file: "@ + c)
            } else {
                Ok(c)
            },
        },
    }
}

/// The directory and file name of a file to be written at `path`.
pub open spec fn target_parts_spec(root: Seq<char>, path: Seq<char>) -> Result<
    (Seq<char>, Seq<char>),
    Seq<char>,
> {
    match join_root_spec(root, path) {
        Err(e) => Err(e),
        Ok(candidate) => match std_path_file_name(candidate) {
            None => Err("target path must include a file name"@),
            Some(name) => match std_path_parent(candidate) {
                None => Err("target path must include a parent directory"@),
                Some(parent) => Ok((parent, name)),
            },
        },
    }
}

/// Where a file to be written at `path` goes, given what canonicalising its
/// directory gave.
pub open spec fn resolve_target_spec(
    root: Seq<char>,
    path: Seq<char>,
    canonical_parent: Result<Seq<char>, Seq<char>>,
) -> Result<Seq<char>, Seq<char>> {
    match target_parts_spec(root, path) {
        Err(e) => Err(e),
        Ok((_, name)) => match canonical_parent {
            Err(e) => Err("target parent is not accessible: "@ + e),
            Ok(cp) => if !std_path_starts_with(cp, root) {
                Err("target path escapes RHWP_MCP_ROOT: "@ + cp)
            } else {
                Ok(std_path_join(cp, name))
            },
        },
    }
}

impl FsGuard {
    /// The root directory.
    pub closed spec fn root_view(&self) -> Seq<char> {
        self.root@
    }

    /// A guard over `canonical_root`, which the caller has canonicalised.
    pub fn new(canonical_root: String) -> (r: FsGuard)
        ensures
            r.root_view() == canonical_root@,
    {
        FsGuard { root: canonical_root }
    }

    /// The root directory.
    pub fn root(&self) -> (r: &str)
        ensures
            r@ == self.root_view(),
    {
        self.root.as_str()
    }

    /// The path a client names, taken under the root (see `join_root_spec`).
    pub fn join_root(&self, path: &str) -> (r: Result<String, String>)
        ensures
            result_view(r) == join_root_spec(self.root_view(), path@),
    {
        if trim_str(path).is_empty() {
            let e = string_of("path must not be empty");
            return Err(e);
        }
        let own = path_components(path);
        if contains_parent_dir(&own) {
            let e = string_of("path must not contain '..' components");
            return Err(e);
        }
        let candidate = if path_is_absolute(path) {
            string_of(path)
        } else {
            path_join(self.root.as_str(), path)
        };
        let parts = path_components(candidate.as_str());
        if contains_parent_dir(&parts) {
            let e = string_of("path must not contain '..' components");
            return Err(e);
        }
        Ok(candidate)
    }

    /// An existing file named by `path`: the canonical path, once it is
    /// known to lie under the root and to be a file. `canonical` is what
    /// canonicalising `join_root(path)` gave (the error text when it
    /// failed), and `canonical_is_file` whether that path is a file.
    pub fn resolve_existing_file(
        &self,
        path: &str,
        canonical: Result<String, String>,
        canonical_is_file: bool,
    ) -> (r: Result<String, String>)
        ensures
            result_view(r) == resolve_existing_spec(
                self.root_view(),
                path@,
                result_view(canonical),
                canonical_is_file,
            ),
            r matches Ok(c) ==> std_path_starts_with(c@, self.root_view()),
            r matches Ok(c) ==> (no_prefix(std_path_components(c@)) && no_prefix(
                std_path_components(self.root_view()),
            ) ==> parts_prefix(std_path_components(c@), std_path_components(self.root_view()))),
    {
        match self.join_root(path) {
            Err(e) => Err(e),
            Ok(_) => match canonical {
                Err(e) => {
                    let mut msg = string_of("file is not accessible: ");
                    push_str(&mut msg, path);
                    push_str(&mut msg, ": ");
                    push_str(&mut msg, e.as_str());
                    Err(msg)
                },
                Ok(c) => {
                    if !path_starts_with(c.as_str(), self.root.as_str()) {
                        let mut msg = string_of("path escapes RHWP_MCP_ROOT: ");
                        push_str(&mut msg, c.as_str());
                        Err(msg)
                    } else if !canonical_is_file {
                        let mut msg = string_of("path is not a file: ");
                        push_str(&mut msg, c.as_str());
                        Err(msg)
                    } else {
                        Ok(c)
                    }
                },
            },
        }
    }

    /// The directory (to be canonicalised by the caller) and the file name
    /// of a file to be written at `path`.
    pub fn target_parts(&self, path: &str) -> (r: Result<(String, String), String>)
        ensures
            match r {
                Ok((parent, name)) => target_parts_spec(self.root_view(), path@) == Ok::<
                    (Seq<char>, Seq<char>),
                    Seq<char>,
                >((parent@, name@)),
                Err(e) => target_parts_spec(self.root_view(), path@) == Err::<
                    (Seq<char>, Seq<char>),
                    Seq<char>,
                >(e@),
            },
    {
        let candidate = match self.join_root(path) {
            Ok(c) => c,
            Err(e) => return Err(e),
        };
        let name = match path_file_name(candidate.as_str()) {
            Some(n) => n,
            None => return Err(string_of("target path must include a file name")),
        };
        let parent = match path_parent(candidate.as_str()) {
            Some(p) => p,
            None => return Err(string_of("target path must include a parent directory")),
        };
        Ok((parent, name))
    }

    /// Where a file to be written at `path` goes: its canonical directory,
    /// once that is known to lie under the root, joined with its file name.
    /// `canonical_parent` is what canonicalising the directory that
    /// `target_parts(path)` gives produced (the error text when it failed).
    pub fn resolve_target_file(&self, path: &str, canonical_parent: Result<String, String>) -> (r:
        Result<String, String>)
        ensures
            result_view(r) == resolve_target_spec(
                self.root_view(),
                path@,
                result_view(canonical_parent),
            ),
    {
        let name = match self.target_parts(path) {
            Ok((_, name)) => name,
            Err(e) => return Err(e),
        };
        match canonical_parent {
            Err(e) => {
                let mut msg = string_of("target parent is not accessible: ");
                push_str(&mut msg, e.as_str());
                Err(msg)
            },
            Ok(cp) => {
                if !path_starts_with(cp.as_str(), self.root.as_str()) {
                    let mut msg = string_of("target path escapes RHWP_MCP_ROOT: ");
                    push_str(&mut msg, cp.as_str());
                    Err(msg)
                } else {
                    Ok(path_join(cp.as_str(), name.as_str()))
                }
            },
        }
    }
}

} // verus!
