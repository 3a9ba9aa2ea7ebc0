//! Paths, read lexically: components, prefixes, and the place of a file's
//! counterpart in the restored tree.
//!
//! Paths are held as strings and taken apart by `std::path`, which alone
//! knows the platform's separators and its normalisation.
use vstd::prelude::*;

verus! {

/// The components of a path as `std::path::Path::components` yields them,
/// each as text: the root first where the path has one, then the names, with
/// repeated separators, inner `.` and a trailing separator normalised away.
pub uninterp spec fn path_components(path: Seq<char>) -> Seq<Seq<char>>;

/// What is left of `path` once the prefix `base` is taken off it, as
/// `std::path::Path::strip_prefix` gives it where `base` is a prefix.
pub uninterp spec fn path_without_prefix(path: Seq<char>, base: Seq<char>) -> Seq<char>;

/// `tail` joined onto `base`, as `std::path::Path::join` gives it.
pub uninterp spec fn path_joined(base: Seq<char>, tail: Seq<char>) -> Seq<char>;

/// Whether `path` is `base` itself or lies below it: every component of
/// `base`, in order, opens the components of `path`.
pub open spec fn lies_under(path: Seq<char>, base: Seq<char>) -> bool {
    path_components(base).is_prefix_of(path_components(path))
}

/// `std::path::Path::starts_with`: whether `base` is a prefix of `path`,
/// where only whole components match.
#[verifier::external_body]
pub(crate) fn path_starts_with(path: &str, base: &str) -> (under: bool)
    ensures
        under == path_components(base@).is_prefix_of(path_components(path@)),
{
    std::path::Path::new(path).starts_with(base)
}

/// `std::path::Path::strip_prefix`: the rest of `path` behind `base`; there
/// is none exactly when `path` does not start with `base`.
#[verifier::external_body]
pub(crate) fn path_strip_prefix(path: &str, base: &str) -> (rest: Option<String>)
    ensures
        rest is Some <==> path_components(base@).is_prefix_of(path_components(path@)),
        rest is Some ==> rest->0@ == path_without_prefix(path@, base@),
{
    match std::path::Path::new(path).strip_prefix(base) {
        Ok(rest) => Some(rest.to_string_lossy().into_owned()),
        Err(_) => None,
    }
}

/// `std::path::Path::join`: the path made of `base` and then `tail`.
#[verifier::external_body]
pub(crate) fn path_join(base: &str, tail: &str) -> (joined: String)
    ensures
        joined@ == path_joined(base@, tail@),
{
    std::path::Path::new(base).join(tail).to_string_lossy().into_owned()
}

/// Why no counterpart could be located.
#[derive(Clone, Copy, Debug, PartialEq, Eq, Structural)]
pub enum PathError {
    /// Relative-path mode is on, and the live path is not under the source
    /// root.
    NotUnderSourceRoot,
}

/// The text of the filesystem root.
pub open spec fn root_text() -> Seq<char> {
    seq!['/']
}

/// The part of a live path that is repeated below the backup root.
///
/// In relative-path mode it is the live path without the source root, and
/// there is none for a path outside the source root. Otherwise it is the
/// live path without its leading root, or the live path as it stands where
/// it has none.
pub open spec fn restored_tail(
    live_path: Seq<char>,
    source_root: Seq<char>,
    use_relative_paths: bool,
) -> Option<Seq<char>> {
    if use_relative_paths {
        if lies_under(live_path, source_root) {
            Some(path_without_prefix(live_path, source_root))
        } else {
            None
        }
    } else if lies_under(live_path, root_text()) {
        Some(path_without_prefix(live_path, root_text()))
    } else {
        Some(live_path)
    }
}

/// The counterpart's path: the restored tail joined under the backup root.
pub open spec fn counterpart_of(
    live_path: Seq<char>,
    source_root: Seq<char>,
    backup_root: Seq<char>,
    use_relative_paths: bool,
) -> Option<Seq<char>> {
    match restored_tail(live_path, source_root, use_relative_paths) {
        Some(tail) => Some(path_joined(backup_root, tail)),
        None => None,
    }
}

/// Locates the counterpart of a live file in the restored tree.
///
/// Fails exactly when relative-path mode is on and the live path is not
/// under the source root.
pub fn resolve_counterpart(
    live_path: &str,
    source_root: &str,
    backup_root: &str,
    use_relative_paths: bool,
) -> (found: Result<String, PathError>)
    ensures
        match counterpart_of(live_path@, source_root@, backup_root@, use_relative_paths) {
            Some(place) => found is Ok && found->Ok_0@ == place,
            None => found == Err::<String, PathError>(PathError::NotUnderSourceRoot),
        },
        found is Err <==> use_relative_paths && !lies_under(live_path@, source_root@),
{
    if use_relative_paths {
        match path_strip_prefix(live_path, source_root) {
            Some(tail) => Ok(path_join(backup_root, tail.as_str())),
            None => Err(PathError::NotUnderSourceRoot),
        }
    } else {
        proof {
            reveal_strlit("/");
            assert("/"@ =~= root_text());
        }
        match path_strip_prefix(live_path, "/") {
            Some(tail) => Ok(path_join(backup_root, tail.as_str())),
            None => Ok(path_join(backup_root, live_path)),
        }
    }
}

} // verus!
