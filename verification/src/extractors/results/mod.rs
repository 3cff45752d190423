//! Configurations that extract the results of samples.

pub mod agricor_micro;
pub mod agricor_potency;
pub mod botanacor_micro;
pub mod botanacor_pesticides;
