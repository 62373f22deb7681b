//! The media type of a file, told from the extension of its path.
use crate::views::option_view;
use vstd::prelude::*;

verus! {

/// The first media type that `mime_guess` knows for the extension of
/// `path`, as text, or `None` where it knows none.
pub uninterp spec fn first_guess_spec(path: Seq<char>) -> Option<Seq<char>>;

/// Calls `mime_guess::from_path` on `path` and `first` on the guess, and
/// hands back the media type as text. The contract only gives the outcome
/// its name, `first_guess_spec(path)`.
#[verifier::external_body]
fn first_guess(path: &str) -> (guess: Option<String>)
    ensures
        match guess {
            Some(text) => first_guess_spec(path@) == Some(text@),
            None => first_guess_spec(path@) is None,
        },
{
    match mime_guess::from_path(path).first() {
        Some(mime) => Some(String::from(mime.as_ref())),
        None => None,
    }
}

/// The media type of content about which nothing is known.
pub open spec fn octet_stream() -> Seq<char> {
    "application/octet-stream"@
}

/// The guessed media type, or the generic one where there is no guess.
pub open spec fn media_type_or_default_spec(guess: Option<Seq<char>>) -> Seq<char> {
    match guess {
        Some(media_type) => media_type,
        None => octet_stream(),
    }
}

/// The media type that a file at `path` is served with.
pub open spec fn media_type_spec(path: Seq<char>) -> Seq<char> {
    media_type_or_default_spec(first_guess_spec(path))
}

/// The guessed media type, or `application/octet-stream` where there is no
/// guess.
pub fn media_type_or_default(guess: Option<String>) -> (media_type: String)
    ensures
        media_type@ == media_type_or_default_spec(option_view(guess)),
{
    match guess {
        Some(media_type) => media_type,
        None => String::from_str("application/octet-stream"),
    }
}

/// The media type that a file at `path` is served with: the first that is
/// known for the extension of `path`, or `application/octet-stream`. The
/// content of the file plays no part.
pub fn media_type(path: &str) -> (media_type: String)
    ensures
        media_type@ == media_type_spec(path@),
{
    media_type_or_default(first_guess(path))
}

} // verus!
