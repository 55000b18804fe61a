//! Answers to the question whether a path given on the command line is there.

use vstd::prelude::*;
use vstd::string::StringExecFns;

verus! {

/// What `{:?}` prints for a path: the path between double quotes, with the
/// characters escaped that a string literal would escape.
pub uninterp spec fn quoted_of(path: Seq<char>) -> Seq<char>;

/// Formats the path that `path` spells with `{:?}`. Claimed: the result
/// depends on the text alone.
#[verifier::external_body]
pub(crate) fn quoted(path: &str) -> (r: String)
    ensures
        r@ == quoted_of(path@),
{
    format!("{:?}", std::path::Path::new(path))
}

/// The message for a path that is not there.
pub open spec fn missing_message(path: Seq<char>) -> Seq<char> {
    "input file does not exist: "@ + quoted_of(path)
}

/// The message for `path`.
fn missing(path: &str) -> (r: String)
    ensures
        r@ == missing_message(path@),
{
    String::from_str("input file does not exist: ").concat(quoted(path).as_str())
}

/// Accepts `v` where it is a regular file, as `is_file` says, and refuses it
/// with a message that names it otherwise.
pub fn file_exist(v: String, is_file: bool) -> (r: Result<(), String>)
    ensures
        match r {
            Ok(_) => is_file,
            Err(m) => !is_file && m@ == missing_message(v@),
        },
{
    if !is_file {
        Err(missing(v.as_str()))
    } else {
        Ok(())
    }
}

/// Accepts `v` where it is a directory, as `is_dir` says, and refuses it with
/// a message that names it otherwise.
pub fn dir_exist(v: String, is_dir: bool) -> (r: Result<(), String>)
    ensures
        match r {
            Ok(_) => is_dir,
            Err(m) => !is_dir && m@ == missing_message(v@),
        },
{
    if !is_dir {
        Err(missing(v.as_str()))
    } else {
        Ok(())
    }
}

} // verus!
