//! The command log: every reported command is acknowledged.

use vstd::prelude::*;
use vstd::string::*;
use crate::models::message::{CommandLogInput, CommandLogResponse};

verus! {

/// The acknowledgement that every logged command gets.
pub open spec fn logged_status() -> Seq<char> {
    "Command logged successfully"@
}

/// Acknowledges a reported command. The answer is the same whatever the
/// command says.
pub fn log_command(payload: &CommandLogInput) -> (response: CommandLogResponse)
    ensures
        response.status@ == logged_status(),
{
    CommandLogResponse { status: String::from_str("Command logged successfully") }
}

} // verus!
