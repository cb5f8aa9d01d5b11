//! What follows an install or uninstall: the receipt that records the plan
//! on disk, and the report of how the run ended.

use crate::error::NixInstallerError;
use vstd::prelude::*;
use vstd::string::StringExecFns;

verus! {

/// The directory that must exist before the receipt is written.
pub const RECEIPT_DIRECTORY: &'static str = "/nix";

/// Where the receipt is written.
pub const RECEIPT_LOCATION: &'static str = "/nix/receipt.json";

/// Which of the two runs a report is about.
#[derive(Debug, Clone, Copy, PartialEq, Eq, Structural)]
pub enum DiagnosticAction {
    Install,
    Uninstall,
}

/// How a run ended.
#[derive(Debug, Clone, Copy, PartialEq, Eq, Structural)]
pub enum DiagnosticStatus {
    Success,
    Failure,
    Cancelled,
}

/// The contents of the receipt file: the encoded plan and a line break.
pub fn receipt_contents(encoded: &str) -> (contents: String)
    ensures
        contents@ == encoded@ + "\n"@,
{
    let mut contents = String::from_str(encoded);
    contents.append("\n");
    contents
}

/// How a run that handed back `result` is reported: a cancellation as
/// cancelled, any other error as a failure.
pub fn diagnostic_status<S, A, P>(result: &Result<(), NixInstallerError<S, A, P>>) -> (status:
    DiagnosticStatus)
    ensures
        status == match *result {
            Ok(()) => DiagnosticStatus::Success,
            Err(NixInstallerError::Cancelled) => DiagnosticStatus::Cancelled,
            Err(_) => DiagnosticStatus::Failure,
        },
{
    match result {
        Ok(()) => DiagnosticStatus::Success,
        Err(NixInstallerError::Cancelled) => DiagnosticStatus::Cancelled,
        Err(_) => DiagnosticStatus::Failure,
    }
}

/// Whether the receipt is written after a run that handed back `result`:
/// after every install, and after an uninstall that ended in an error.
pub fn receipt_due<S, A, P>(action: DiagnosticAction, result: &Result<(), NixInstallerError<S, A, P>>) -> (due:
    bool)
    ensures
        due == (action is Install || *result is Err),
{
    match action {
        DiagnosticAction::Install => true,
        DiagnosticAction::Uninstall => result.is_err(),
    }
}

/// What a run hands back once the receipt has been written: the error of the
/// run if it had one, whatever became of the receipt; else what writing the
/// receipt gave.
pub fn conclude<S, A, P>(
    outcome: Result<(), NixInstallerError<S, A, P>>,
    receipt: Result<(), NixInstallerError<S, A, P>>,
) -> (result: Result<(), NixInstallerError<S, A, P>>)
    ensures
        result == if outcome is Err {
            outcome
        } else {
            receipt
        },
{
    match outcome {
        Ok(()) => receipt,
        Err(error) => Err(error),
    }
}

} // verus!
