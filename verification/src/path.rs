//! Paths as text, with `/` between their components.
use crate::error::{Error, ErrorView};
use crate::views::result_view;
use vstd::prelude::*;

verus! {

/// A path is relative unless it starts at the root, with `/`.
pub open spec fn is_relative_spec(path: Seq<char>) -> bool {
    path.len() == 0 || path[0] != '/'
}

/// The path that `pathdiff::diff_paths` gives from the directory `base` to
/// `path`, or `None` where it finds none.
pub uninterp spec fn diff_paths_spec(path: Seq<char>, base: Seq<char>) -> Option<Seq<char>>;

/// Calls `pathdiff::diff_paths` on `path` and `base` and hands back the
/// path it found as text. The contract only gives the outcome its name,
/// `diff_paths_spec(path, base)`.
#[verifier::external_body]
fn diff_paths(path: &str, base: &str) -> (relative: Option<String>)
    ensures
        match relative {
            Some(text) => diff_paths_spec(path@, base@) == Some(text@),
            None => diff_paths_spec(path@, base@) is None,
        },
{
    match pathdiff::diff_paths(path, base) {
        Some(relative) => Some(relative.display().to_string()),
        None => None,
    }
}

/// Whether `path` is relative.
pub fn is_relative(path: &str) -> (relative: bool)
    ensures
        relative == is_relative_spec(path@),
{
    path.is_empty() || path.get_char(0) != '/'
}

/// What [`ensure_relative`] returns for `path`.
pub open spec fn ensure_relative_spec(path: Seq<char>) -> Result<(), ErrorView> {
    if is_relative_spec(path) {
        Ok(())
    } else {
        Err(ErrorView::InvalidPath(path))
    }
}

/// Accepts a relative path and rejects an absolute one with
/// [`Error::InvalidPath`], which holds the path.
pub fn ensure_relative(path: &str) -> (checked: Result<(), Error>)
    ensures
        result_view(checked) == ensure_relative_spec(path@),
{
    if is_relative(path) {
        Ok(())
    } else {
        Err(Error::InvalidPath(String::from_str(path)))
    }
}

/// The outcome of looking for the path of `entry` below a base directory,
/// given what the search found: that path, or a failed walk at `entry`.
pub open spec fn found_or_error(entry: Seq<char>, found: Option<Seq<char>>) -> Result<
    Seq<char>,
    ErrorView,
> {
    match found {
        Some(relative) => Ok(relative),
        None => Err(ErrorView::Traversal(entry)),
    }
}

/// The path of `entry` as seen from the directory `base`. Fails with
/// [`Error::Traversal`], holding `entry`, exactly where there is no such
/// path.
pub fn relative_to(entry: &str, base: &str) -> (relative: Result<String, Error>)
    ensures
        result_view(relative) == found_or_error(entry@, diff_paths_spec(entry@, base@)),
{
    match diff_paths(entry, base) {
        Some(relative) => Ok(relative),
        None => Err(Error::Traversal(String::from_str(entry))),
    }
}

} // verus!
