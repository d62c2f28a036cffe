//! The messages of the debug log. Writing them, with the time, to the log
//! file is the program's business.

use vstd::prelude::*;
use crate::text::{push_str, string_of};

verus! {

/// The message that records an event: `EVENT: <event> | <details>`.
pub fn debug_log_event(event: &str, details: &str) -> (r: String)
    ensures
        r@ == "EVENT: "@ + event@ + " | "@ + details@,
{
    let mut r = string_of("EVENT: ");
    push_str(&mut r, event);
    push_str(&mut r, " | ");
    push_str(&mut r, details);
    r
}

/// The message that records a value: `STATE: <name> = <value>`.
pub fn debug_log_state(state_name: &str, state_value: &str) -> (r: String)
    ensures
        r@ == "STATE: "@ + state_name@ + " = "@ + state_value@,
{
    let mut r = string_of("STATE: ");
    push_str(&mut r, state_name);
    push_str(&mut r, " = ");
    push_str(&mut r, state_value);
    r
}

/// The message that records an error: `ERROR: <error>`.
pub fn debug_log_error(error: &str) -> (r: String)
    ensures
        r@ == "ERROR: "@ + error@,
{
    let mut r = string_of("ERROR: ");
    push_str(&mut r, error);
    r
}

/// A line of the log: `[<timestamp>] [<module>] <message>`.
pub fn log_line(timestamp: &str, module: &str, message: &str) -> (r: String)
    ensures
        r@ == "["@ + timestamp@ + "] ["@ + module@ + "] "@ + message@,
{
    let mut r = string_of("[");
    push_str(&mut r, timestamp);
    push_str(&mut r, "] [");
    push_str(&mut r, module);
    push_str(&mut r, "] ");
    push_str(&mut r, message);
    r
}

} // verus!
