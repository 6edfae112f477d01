//! Structure of a Black-Scholes option analytics engine: the closed set of
//! market inputs that a sweep may vary, the validation of sampling requests,
//! and the drivers that lay out sweeps and terminal-price distributions as
//! index-aligned columns. The drivers are generic over the numeric type; the
//! closed-form arithmetic is handed to them as functions.

pub mod distribution;
pub mod error;
pub mod inputs;
pub mod sweep;
