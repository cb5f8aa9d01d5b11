//! What can go wrong when a plan is made, carried out or undone.

use crate::action::ActionError;
use vstd::prelude::*;

verus! {

#[verifier::external_type_specification]
#[verifier::external_body]
pub struct ExPathBuf(std::path::PathBuf);

#[verifier::external_type_specification]
#[verifier::external_body]
pub struct ExIoError(std::io::Error);

#[verifier::external_type_specification]
#[verifier::external_body]
pub struct ExJsonError(serde_json::Error);

/// An error of the engine. `S` is the kind of step, `A` the error of a
/// step, `P` that of the planner.
#[derive(Debug)]
pub enum NixInstallerError<S, A, P> {
    /// An action failed while the plan was carried out.
    Action(ActionError<S, A>),
    /// One or more actions failed while the plan was undone.
    ActionRevert(Vec<ActionError<S, A>>),
    /// The caller asked to stop.
    Cancelled,
    /// The receipt could not be written at the given path.
    RecordingReceipt(std::path::PathBuf, std::io::Error),
    /// The plan could not be encoded as a receipt.
    SerializingReceipt(serde_json::Error),
    /// The planner failed.
    Planner(P),
    /// The engine's own version could not be read.
    SemVer(semver::Error),
}

} // verus!
