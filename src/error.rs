//! Error taxonomy shared by every component.
use vstd::prelude::*;

verus! {

/// Why a component operation failed. Each variant carries the signal name
/// or a short explanation.
#[derive(Clone, Debug, PartialEq, Eq)]
pub enum ComponentError {
    /// The signal name is not known for the requested accessor family.
    UnknownVariable(String),
    /// The signal name is known, but belongs to the other accessor family.
    TypeMismatch(String),
    /// The engine could not complete an initialize, step or reset.
    RuntimeFailure(String),
}

} // verus!
