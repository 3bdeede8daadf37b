//! State machine behind the tool's diagnostic log file.
//!
//! The log sink is a process-wide cell that is set once, either with a log
//! file or with none, and is consulted on every write and flush. The file
//! itself and the writes to it live with the unverified runtime; this module
//! decides, from the cell's state, whether a write or flush must reach the
//! file, whether it is skipped, or whether the sink was never initialised.

use vstd::prelude::*;

verus! {

/// The state of the once-set log-file cell.
#[derive(Clone, Copy, Debug, PartialEq, Eq, Structural)]
pub enum ToolLogState {
    /// The cell was never initialised: writes and flushes are errors.
    Unset,
    /// Initialised without a log file: writes and flushes are skipped.
    NoFile,
    /// Initialised with a log file: writes and flushes reach the file.
    WithFile,
}

/// Errors of the log sink.
#[derive(Clone, Copy, Debug, PartialEq, Eq, Structural)]
pub enum LogError {
    /// The once-set cell was consulted before it was initialised.
    NotInitialised,
}

/// Initialise the cell without a log file. The cell is set exactly once.
pub fn init_no_log_file(state: &mut ToolLogState)
    requires
        *old(state) == ToolLogState::Unset,
    ensures
        *final(state) == ToolLogState::NoFile,
{
    *state = ToolLogState::NoFile;
}

/// Record that a log file was created and attached to the cell. The caller
/// creates the file first and performs this transition only on success.
/// The cell is set exactly once.
pub fn init_tool_log_file(state: &mut ToolLogState)
    requires
        *old(state) == ToolLogState::Unset,
    ensures
        *final(state) == ToolLogState::WithFile,
{
    *state = ToolLogState::WithFile;
}

/// Decide whether a pending line must be written to the log file:
/// `Ok(true)` when a file is attached, `Ok(false)` when the sink was
/// initialised without one, and an error when it was never initialised.
pub fn write_to_log_file(state: &ToolLogState) -> (r: Result<bool, LogError>)
    ensures
        *state == ToolLogState::Unset ==> r == Err::<bool, LogError>(LogError::NotInitialised),
        *state == ToolLogState::NoFile ==> r == Ok::<bool, LogError>(false),
        *state == ToolLogState::WithFile ==> r == Ok::<bool, LogError>(true),
{
    match state {
        ToolLogState::Unset => Err(LogError::NotInitialised),
        ToolLogState::NoFile => Ok(false),
        ToolLogState::WithFile => Ok(true),
    }
}

/// Decide whether the log file must be flushed, with the same three outcomes
/// as a write.
pub fn flush_tool_log_file(state: &ToolLogState) -> (r: Result<bool, LogError>)
    ensures
        *state == ToolLogState::Unset ==> r == Err::<bool, LogError>(LogError::NotInitialised),
        *state == ToolLogState::NoFile ==> r == Ok::<bool, LogError>(false),
        *state == ToolLogState::WithFile ==> r == Ok::<bool, LogError>(true),
{
    match state {
        ToolLogState::Unset => Err(LogError::NotInitialised),
        ToolLogState::NoFile => Ok(false),
        ToolLogState::WithFile => Ok(true),
    }
}

/// The exact line that goes to the log file for one logged message: the
/// message followed by a newline.
pub fn log_line(content: &String) -> (r: String)
    ensures
        r@ == content@ + "\n"@,
{
    let mut line = content.clone();
    line.append("\n");
    line
}

} // verus!
