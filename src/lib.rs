//! A four-state brake controller: a closed set of operating states, a fixed
//! transition table consulted in priority order, and one action per step.

pub mod state;
pub mod transition;
pub mod controller;
