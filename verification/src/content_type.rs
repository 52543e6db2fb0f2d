//! Picks the media type that a bundled asset is served with.
//!
//! The table of file extensions is that of the `mime_guess` crate. This module
//! asks it for its first guess and supplies the fallback for keys it does not
//! know.

use vstd::prelude::*;
use vstd::string::*;

verus! {

/// The first media type that `mime_guess` knows for the extension of `path`,
/// if it knows one. A name only: the table is the crate's and is not written
/// out here.
pub uninterp spec fn mime_guess_first(path: Seq<char>) -> Option<Seq<char>>;

/// The media type of content about which nothing is known.
pub open spec fn octet_stream() -> Seq<char> {
    "application/octet-stream"@
}

/// The media type served for a guess: the guess itself where there is one,
/// the generic binary type where there is none.
pub open spec fn spec_resolve_guess(guess: Option<Seq<char>>) -> Seq<char> {
    match guess {
        Some(mime) => mime,
        None => octet_stream(),
    }
}

/// The media type served for `key`.
pub open spec fn spec_resolve(key: Seq<char>) -> Seq<char> {
    spec_resolve_guess(mime_guess_first(key))
}

/// Calls `mime_guess::from_path(key).first()` and gives the guess as text
/// (`Mime::as_ref`).
///
/// Not proved, taken from the crates' sources: the call touches no disk and
/// reads a table fixed at build time, so the guess depends on the key alone,
/// through the extension that `std::path::Path::extension` finds in it; a
/// guess, having been parsed as `type/subtype`, is never empty; and a key
/// without any dot has no extension, hence no guess.
#[verifier::external_body]
fn guess_first(key: &str) -> (guess: Option<String>)
    ensures
        match guess {
            Some(mime) => mime_guess_first(key@) == Some(mime@),
            None => mime_guess_first(key@) is None,
        },
        guess matches Some(mime) ==> mime@.len() > 0,
        !key@.contains('.') ==> guess is None,
{
    match mime_guess::from_path(key).first() {
        Some(mime) => Some(mime.as_ref().to_string()),
        None => None,
    }
}

/// Settles on a media type once the table has been asked: `guess` is what it
/// answered.
pub fn resolve_guess(guess: Option<String>) -> (mime: String)
    ensures
        mime@ == spec_resolve_guess(
            match guess {
                Some(m) => Some(m@),
                None => None,
            },
        ),
{
    match guess {
        Some(mime) => mime,
        None => "application/octet-stream".to_owned(),
    }
}

/// The media type for `key`, by its file extension. Every key gets one: a
/// key without an extension, or with one that the table does not hold, gets
/// `application/octet-stream`.
pub fn resolve(key: &str) -> (mime: String)
    ensures
        mime@ == spec_resolve(key@),
        mime@.len() > 0,
        mime_guess_first(key@) is None ==> mime@ == octet_stream(),
        !key@.contains('.') ==> mime@ == octet_stream(),
{
    proof {
        reveal_strlit("application/octet-stream");
    }
    resolve_guess(guess_first(key))
}

} // verus!
