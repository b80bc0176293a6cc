//! Whether the switcher is registered to start with Windows.
use vstd::prelude::*;

use crate::text::{ascii_lowercase, contains_chars, contains_text, lowercase_chars};

verus! {

/// Whether the start-up entry counts as enabled: there is a command that
/// names the executable (ASCII case aside), and Windows' approval record, if
/// there is one, is empty or starts with 2 (enabled).
pub open spec fn spec_is_enabled(command: Option<Seq<char>>, executable: Seq<char>, approved: Option<Seq<u8>>) -> bool {
    match command {
        None => false,
        Some(c) => contains_text(ascii_lowercase(c), ascii_lowercase(executable)) && match approved {
            None => true,
            Some(bytes) => bytes.len() == 0 || bytes[0] == 2,
        },
    }
}

/// Decides whether start with Windows is enabled from the registered command,
/// the executable's path, and the approval record of the entry.
pub fn is_enabled(command: Option<&str>, executable: &str, approved: Option<&[u8]>) -> (enabled: bool)
    ensures
        enabled == spec_is_enabled(
            match command {
                Some(c) => Some(c@),
                None => None,
            },
            executable@,
            match approved {
                Some(b) => Some(b@),
                None => None,
            },
        ),
{
    let command = match command {
        None => return false,
        Some(command) => command,
    };
    let lowered_command = lowercase_chars(command);
    let lowered_executable = lowercase_chars(executable);
    if !contains_chars(&lowered_command, &lowered_executable) {
        return false;
    }
    match approved {
        None => true,
        Some(bytes) => bytes.len() == 0 || bytes[0] == 2,
    }
}

} // verus!
