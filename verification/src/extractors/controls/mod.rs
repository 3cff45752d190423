//! Configurations that extract the control values of instrument runs.

pub mod agricor_potency;
