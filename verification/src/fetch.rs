//! Fetching the state of a workspace: where it is put on this machine, and
//! what a failed fetch is reported as.

use vstd::prelude::*;
use vstd::string::StringExecFns;
use crate::scheduler::TaskError;
use crate::source::{state_suffix, SourceError};

verus! {

/// Whether a character is a decimal digit or one of `a` to `f`.
pub open spec fn is_lower_hex(c: char) -> bool {
    ('0' <= c <= '9') || ('a' <= c <= 'f')
}

/// Whether a text has the shape of a hyphenated identifier: thirty-two
/// lower-case hexadecimal digits in groups of 8, 4, 4, 4 and 12, with a hyphen
/// between the groups.
pub open spec fn is_hyphenated_id(s: Seq<char>) -> bool {
    &&& s.len() == 36
    &&& forall|i: int|
        0 <= i < 36 ==> if i == 8 || i == 13 || i == 18 || i == 23 {
            #[trigger] s[i] == '-'
        } else {
            is_lower_hex(s[i])
        }
}

/// The name of the local file that holds a fetched state: the workspace, an
/// underscore, what makes the name unique, and the ending of state records.
pub open spec fn temp_name(workspace: Seq<char>, unique: Seq<char>) -> Seq<char> {
    workspace + seq!['_'] + unique + state_suffix()
}

/// The text of the failure to find the state file of a state directory.
pub open spec fn missing_file_text(path: Seq<char>) -> Seq<char> {
    "Mock tfstate file not found: "@ + path
}

/// Calls `uuid::Uuid::new_v4` and takes the text that the identifier
/// displays. The identifier is random; the contract claims only the shape that
/// every such text has.
#[verifier::external_body]
fn fresh_id() -> (id: String)
    ensures
        is_hyphenated_id(id@),
{
    uuid::Uuid::new_v4().to_string()
}

/// The name of the local file for the state of `workspace`, made unique by
/// `unique`.
pub fn temp_file_name(workspace: &str, unique: &str) -> (name: String)
    ensures
        name@ == temp_name(workspace@, unique@),
{
    let mut name = String::from_str(workspace);
    name.append("_");
    name.append(unique);
    name.append(".tfstate");
    proof {
        reveal_strlit("_");
        assert("_"@ =~= seq!['_']);
    }
    name
}

/// A name for a new local file for the state of `workspace`. Each call makes
/// a name of its own, so that no two fetches share a file.
pub fn fresh_temp_file_name(workspace: &str) -> (name: String)
    ensures
        exists|unique: Seq<char>|
            is_hyphenated_id(unique) && name@ == #[trigger] temp_name(workspace@, unique),
{
    let id = fresh_id();
    temp_file_name(workspace, id.as_str())
}

/// What fetching from a state directory gives: the path of the state file
/// where it exists, else the failure to find it.
pub fn fetch_from_directory(path: String, exists: bool) -> (r: Result<String, SourceError>)
    ensures
        exists ==> r == Ok::<String, SourceError>(path),
        !exists ==> r is Err && r->Err_0 is NotFound && r->Err_0->NotFound_0@ == missing_file_text(
            path@,
        ),
{
    if exists {
        Ok(path)
    } else {
        let mut text = String::from_str("Mock tfstate file not found: ");
        text.append(path.as_str());
        Err(SourceError::NotFound(text))
    }
}

/// What a failed fetch from a store is reported as: not found where the store
/// said that the record does not exist, else another failure.
pub fn fetch_failure(not_found: bool, detail: String) -> (e: SourceError)
    ensures
        not_found ==> e == SourceError::NotFound(detail),
        !not_found ==> e == SourceError::Other(detail),
{
    if not_found {
        SourceError::NotFound(detail)
    } else {
        SourceError::Other(detail)
    }
}

/// The failure of a scan whose state could not be fetched.
pub fn task_error_of(error: SourceError) -> (e: TaskError)
    ensures
        e == match error {
            SourceError::NotFound(detail) => TaskError::StateNotFound(detail),
            SourceError::Other(detail) => TaskError::Fetch(detail),
        },
{
    match error {
        SourceError::NotFound(detail) => TaskError::StateNotFound(detail),
        SourceError::Other(detail) => TaskError::Fetch(detail),
    }
}

} // verus!
