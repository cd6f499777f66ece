//! # Ternary Thermodynamics
//!
//! The discrete core of a statistical-mechanics toolkit for ternary agent
//! systems, where every agent plays one of three strategies (Rock, Paper,
//! Scissors).
//!
//! Real-valued quantities (probabilities, temperatures, order parameters)
//! reach this library as the IEEE-754 binary64 encodings of those values,
//! carried in a `u64`. The module [`binary64`] states, over those encodings,
//! the order of the real numbers they denote; the decisions of the toolkit
//! (thermal classification, the choice of the two strategies used to fit a
//! temperature, the detection of phase transitions, the bookkeeping of
//! strategy counts) are stated and proved over that order.
pub mod binary64;
pub mod entropy;
pub mod strategy;
pub mod temperature;
pub mod transition;

pub use entropy::SystemEntropy;
pub use strategy::Strategy;
pub use temperature::{SystemTemperature, ThermalState};
pub use transition::TransitionType;
