//! A tabular learner that masters two-operand arithmetic by trial and error.
//!
//! Every scalar (value estimate, reward, rate, threshold) is a fixed-point
//! integer in which [`value_table::ONE`] stands for 1.0.
pub mod agent;
pub mod random;
pub mod simulation;
pub mod value_table;
