//! Verified core of a plug-in contract for simulation components.
//!
//! A component wraps one runtime engine and exposes it through a small,
//! symmetric interface. This crate holds what the component layer decides:
//! its static self-description, the validation of signal names against it,
//! the engine call that each operation forwards, and the best-effort
//! collection of outputs. Performing an engine call is left to the host,
//! which owns the engine and hands its answers back.
pub mod component;
pub mod error;
pub mod metadata;
pub mod thermal;

pub use component::{Access, EngineCall, SimulationComponent};
pub use error::ComponentError;
pub use metadata::{ComponentMetadata, IOSpec, IOType};
pub use thermal::SimpleThermalComponent;

