//! Fixed-timestep scheduling for a simulation that renders at a variable rate.
//!
//! All times are whole nanoseconds: a simulation step is a fixed number of
//! nanoseconds, and the time that has not yet been simulated (the lag) is
//! carried from one frame to the next without rounding.

pub mod renderloop;
pub mod timestep;
pub mod title;
