//! The commands that the shell runs itself.
//!
//! What each built-in decides is here; changing the directory and printing
//! is the caller's work.

use crate::error::{RshError, Status, StatusCode};
use crate::history::History;
use vstd::prelude::*;

verus! {

/// The directory that `cd` goes to: `dir`, which must not be empty.
pub fn rsh_cd(dir: &str) -> (target: Result<String, RshError>)
    ensures
        dir@.len() > 0 ==> (target matches Ok(t) && t@ == dir@),
        dir@.len() == 0 ==> (target matches Err(e) && e.message@
            == "rsh: expected arguments to cd\n"@),
{
    if !dir.is_empty() {
        Ok(dir.to_owned())
    } else {
        Err(RshError::new("rsh: expected arguments to cd\n"))
    }
}

/// The status that ends the session, with exit code 0.
pub fn rsh_exit() -> (status: Result<Status, RshError>)
    ensures
        status matches Ok(s) && s.status_code() == StatusCode::Exit && s.exit_code() == 0,
{
    Ok(Status::new(StatusCode::Exit, 0))
}

/// The line that the history shows for a record: the time, a space, the
/// command.
pub open spec fn history_line(record: (Seq<char>, Seq<char>)) -> Seq<char> {
    record.1 + seq![' '] + record.0
}

/// The lines that the history built-in prints, one for each record, in
/// order.
pub fn rsh_history(database: &Vec<History>) -> (lines: Vec<String>)
    ensures
        lines@.len() == database@.len(),
        forall|i: int| 0 <= i < lines@.len() ==> lines@[i]@ == history_line(#[trigger] database@[i]@),
{
    let mut lines: Vec<String> = Vec::new();
    let mut i: usize = 0;
    while i < database.len()
        invariant
            i <= database.len(),
            lines@.len() == i,
            forall|j: int| 0 <= j < i ==> lines@[j]@ == history_line(#[trigger] database@[j]@),
        decreases database.len() - i,
    {
        let mut line = database[i].get_time().clone();
        line.push(' ');
        line.append(database[i].get_command().as_str());
        assert(line@ =~= history_line(database@[i as int]@));
        lines.push(line);
        i = i + 1;
    }
    lines
}

} // verus!
