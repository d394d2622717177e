//! A one-dimensional pressure-wave chamber advanced by an explicit
//! three-point stencil, together with the keyboard controls that drive it.

mod chamber;
mod controls;
mod laws;

pub use chamber::{Chamber, ChamberError, Neighbourhood, MIN_CELLS};
pub use controls::{command_for, Command, KeyPress};
pub use laws::{
    lemma_fresh_chambers_agree, lemma_injection_deterministic, lemma_step_deterministic,
};
