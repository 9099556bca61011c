//! The log of what is sent to the database.

use vstd::prelude::*;
use crate::text::chars::owned;
use crate::text::decimal::{decimal, decimal_text};

verus! {

/// Whether the log is kept.
#[derive(Clone, Copy, Debug, PartialEq, Eq, Structural)]
pub struct DebugLog {
    pub enabled: bool,
}

impl DebugLog {
    /// The log as a program starts with it: not kept.
    pub fn new() -> (r: DebugLog)
        ensures
            r == (DebugLog { enabled: false }),
    {
        DebugLog { enabled: false }
    }
}

/// Starts to keep the log.
pub fn enable_debug(log: &mut DebugLog)
    ensures
        *final(log) == (DebugLog { enabled: true }),
{
    log.enabled = true;
}

/// Stops keeping the log.
pub fn disable_debug(log: &mut DebugLog)
    ensures
        *final(log) == (DebugLog { enabled: false }),
{
    log.enabled = false;
}

/// Whether the log is kept.
pub fn is_debug_enabled(log: &DebugLog) -> (r: bool)
    ensures
        r == log.enabled,
{
    log.enabled
}

/// The lines that a query leaves in the log: its text, and how many values it binds.
pub fn log_query(log: &DebugLog, sql: &str, params_count: usize) -> (r: Vec<String>)
    ensures
        if log.enabled {
            &&& r@.len() == 2
            &&& r@[0]@ == "[ByteORM Debug] Executing SQL: "@ + sql@
            &&& r@[1]@ == "[ByteORM Debug] Parameters count: "@ + decimal(params_count as nat)
        } else {
            r@.len() == 0
        },
{
    let mut lines: Vec<String> = Vec::new();
    if is_debug_enabled(log) {
        let count: String = decimal_text(params_count as u128);
        lines.push(owned("[ByteORM Debug] Executing SQL: ").concat(sql));
        lines.push(owned("[ByteORM Debug] Parameters count: ").concat(count.as_str()));
    }
    lines
}

/// The line that a change leaves in the log.
pub fn log_result(log: &DebugLog, operation: &str, rows_affected: u64) -> (r: Vec<String>)
    ensures
        if log.enabled {
            &&& r@.len() == 1
            &&& r@[0]@ == "[ByteORM Debug] "@ + operation@ + " - Rows affected: "@ + decimal(
                rows_affected as nat,
            )
        } else {
            r@.len() == 0
        },
{
    let mut lines: Vec<String> = Vec::new();
    if is_debug_enabled(log) {
        let count: String = decimal_text(rows_affected as u128);
        let mut line: String = owned("[ByteORM Debug] ");
        line.append(operation);
        line.append(" - Rows affected: ");
        line.append(count.as_str());
        lines.push(line);
    }
    lines
}

/// The line that a failure leaves in the log.
pub fn log_error(log: &DebugLog, operation: &str, error: &str) -> (r: Vec<String>)
    ensures
        if log.enabled {
            &&& r@.len() == 1
            &&& r@[0]@ == "[ByteORM Debug] Error in "@ + operation@ + ": "@ + error@
        } else {
            r@.len() == 0
        },
{
    let mut lines: Vec<String> = Vec::new();
    if is_debug_enabled(log) {
        let mut line: String = owned("[ByteORM Debug] Error in ");
        line.append(operation);
        line.append(": ");
        line.append(error);
        lines.push(line);
    }
    lines
}

} // verus!
