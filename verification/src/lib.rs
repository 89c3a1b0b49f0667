//! Adaptive borrow-rate calculation for a lending market, in fixed point.
//!
//! The rate at target utilization adapts exponentially to the deviation of
//! the utilization from its target ([`evolution`]); a curve then turns the
//! rate at target into the rate that is applied ([`curve`]). [`calculator`]
//! runs both for a request given in percent and per year.

pub mod arith;
pub mod calculator;
pub mod constants;
pub mod curve;
pub mod error;
pub mod evolution;
pub mod fixed_point;
pub mod laws;
pub mod page;
pub mod params;
