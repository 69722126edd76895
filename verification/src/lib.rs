//! Satellite pass prediction: orbital element sets, orbit-regime
//! classification, epoch arithmetic, observer-relative snapshots, and the
//! horizon-crossing search that locates acquisition and loss of signal.
//!
//! All quantities at this library's boundary are fixed-point integers: angles
//! in units of 1e-7 degrees, mean motion in units of 1e-8 revolutions per
//! day, times in milliminutes or microseconds. The floating-point numerical
//! integration that turns mean elements into an inertial state is performed
//! by the caller, which hands its results back as plain scaled values.

pub mod elements;
pub mod epoch;
pub mod fields;
pub mod observe;
pub mod parse;
pub mod predict;
pub mod search;
