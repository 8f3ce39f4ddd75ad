//! The `gh` command-line route to a board's contents: the commands to run,
//! and how a finished run is read.

use vstd::prelude::*;
use vstd::string::*;

verus! {

/// How a run of a shell command ended.
#[derive(Debug)]
pub enum COutput {
    /// It failed; what it wrote to standard error.
    Failure(String),
    /// It succeeded; what it wrote to standard output.
    Out(String),
    /// It was stopped before it could report a status.
    Stopped,
}

/// The command that lists the board's items as JSON.
pub fn item_list() -> (r: String)
    ensures
        r@ == "gh project item-list 1 --owner rhaskia --format json"@,
{
    String::from_str("gh project item-list 1 --owner rhaskia --format json")
}

/// The command that lists the board's fields as JSON.
pub fn field_list() -> (r: String)
    ensures
        r@ == "gh project field-list 1 --owner rhaskia --format json"@,
{
    String::from_str("gh project field-list 1 --owner rhaskia --format json")
}

/// Reads a finished run: status 0 gives its output, another status its
/// error text, and no status at all gives `Stopped`.
pub fn command_output(status: Option<i32>, stdout: String, stderr: String) -> (r: COutput)
    ensures
        status == Some(0i32) ==> r == COutput::Out(stdout),
        status matches Some(c) && c != 0 ==> r == COutput::Failure(stderr),
        status is None ==> r == COutput::Stopped,
{
    match status {
        Some(0) => COutput::Out(stdout),
        Some(_) => COutput::Failure(stderr),
        None => COutput::Stopped,
    }
}

} // verus!
