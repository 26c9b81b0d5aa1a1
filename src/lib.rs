//! Pool accounting and curve math for a two-asset constant-product market maker.
use vstd::prelude::*;

pub mod error;
pub mod curve;
pub mod state;
pub mod guard;
pub mod update;
pub mod movement;
pub mod initialize;
pub mod deposit;
pub mod withdraw;
pub mod swap;
pub mod program;
pub mod laws;
