use vstd::prelude::*;

use crate::error::Error;
use crate::paths::{path_text, FsPath};

verus! {

/// Fixed file name under which a lock record is placed in a package directory.
pub fn lock_file_name() -> (r: &'static str)
    ensures
        r@ == "OpenFare.lock"@,
{
    "OpenFare.lock"
}

/// Whether a piece of text is a well-formed lock record document: a single
/// JSON object.  The record's inner structure is opaque to this library and
/// is not part of this predicate.
pub uninterp spec fn is_lock_json(s: Seq<char>) -> bool;

/// A lock record: the payment declaration shipped alongside some packages.
///
/// The record is opaque to this library — it is located and attached, never
/// interpreted — so it is held as the exact text of a valid lock file.
#[derive(Debug)]
pub struct Lock {
    text: String,
}

impl View for Lock {
    type V = Seq<char>;

    closed spec fn view(&self) -> Seq<char> {
        self.text@
    }
}

impl Lock {
    #[verifier::type_invariant]
    closed spec fn well_formed(self) -> bool {
        is_lock_json(self.text@)
    }

    /// The text of the lock record, exactly as it stands in its file.  A
    /// record is only ever parsed from well-formed text, so its text is
    /// well-formed.
    pub fn as_text(&self) -> (r: &str)
        ensures
            r@ == self@,
            is_lock_json(self@),
    {
        proof {
            use_type_invariant(&*self);
        }
        self.text.as_str()
    }
}

/// The view of an optional lock record.
pub open spec fn opt_lock_view(o: Option<Lock>) -> Option<Seq<char>> {
    match o {
        None => None,
        Some(l) => Some(l@),
    }
}

/// Whether optional lock-file contents, if present, hold a well-formed
/// record.
pub open spec fn lock_contents_valid(o: Option<String>) -> bool {
    match o {
        None => true,
        Some(c) => is_lock_json(c@),
    }
}

/// What reading lock-file text yields: the record itself when the text is a
/// well-formed lock record, and nothing otherwise.
pub open spec fn lock_parse_outcome(s: Seq<char>) -> Option<Seq<char>> {
    if is_lock_json(s) {
        Some(s)
    } else {
        None
    }
}

/// Round trip: lock text written in the recognized format and read back
/// yields exactly the record that was written.  A record's own text is
/// well-formed (see `Lock::as_text`), so this covers every record this
/// library ever hands out.
pub proof fn lemma_lock_round_trip(s: Seq<char>)
    ensures
        is_lock_json(s) ==> lock_parse_outcome(s) == Some(s),
{
}

/// Relies on `serde_json::from_str::<serde_json::Map<String, serde_json::Value>>`:
/// decides whether the text is a single well-formed JSON object.  The call
/// returns an error — it never panics — on any other input, which keeps this
/// check total; the typed decoding of the record's inner structure is the
/// host's work, outside this library.
#[verifier::external_body]
fn lock_text_valid(text: &str) -> (r: bool)
    ensures
        r == is_lock_json(text@),
{
    serde_json::from_str::<serde_json::Map<String, serde_json::Value>>(text).is_ok()
}

/// Parses lock-file text into a lock record.  Parsing is all-or-nothing: text
/// that does not conform yields an error naming the offending file path.
pub fn parse_lock_file(contents: &str, path: &FsPath) -> (r: Result<Lock, Error>)
    ensures
        is_lock_json(contents@) ==> (r matches Ok(l) && l@ == contents@),
        !is_lock_json(contents@) ==> (r matches Err(e) && e matches Error::LockParseError { path: p }
            && p@ == path_text(path@)),
{
    if lock_text_valid(contents) {
        Ok(Lock { text: contents.to_owned() })
    } else {
        Err(Error::LockParseError { path: path.render() })
    }
}

/// Reads the lock record of a package directory, given the contents of the
/// directory's lock file — or nothing, when no lock file is present, which is
/// a valid, non-error state.
pub fn get_lock(package_directory: &FsPath, lock_file_contents: &Option<String>) -> (r: Result<
    Option<Lock>,
    Error,
>)
    ensures
        lock_file_contents is None ==> (r matches Ok(l) && l is None),
        lock_file_contents matches Some(c) ==> {
            &&& is_lock_json(c@) ==> (r matches Ok(o) && o matches Some(l) && l@ == c@)
            &&& !is_lock_json(c@) ==> (r matches Err(e) && e matches Error::LockParseError {
                path: p,
            } && p@ == path_text(
                (package_directory@.0, package_directory@.1.push("OpenFare.lock"@)),
            ))
        },
{
    match lock_file_contents {
        None => Ok(None),
        Some(c) => {
            let lock_path = package_directory.child(lock_file_name().to_owned());
            match parse_lock_file(c.as_str(), &lock_path) {
                Ok(l) => Ok(Some(l)),
                Err(e) => Err(e),
            }
        },
    }
}

} // verus!
