//! Verified core of an astrodynamics propagation and targeting toolkit: epoch
//! arithmetic, the propagation driver's stepping plan, the adaptive stepper's
//! acceptance rules, trajectory bucketing and segment bookkeeping, and the
//! control flow of the B-Plane targeter.

pub mod time;
pub mod driver;
pub mod stepper;
pub mod trajectory;
pub mod targeting;
pub mod rk;
