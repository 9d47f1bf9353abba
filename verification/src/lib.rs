//! A verified dynamics engine for chains of rigid pendulum links.
//!
//! Real quantities (angles in radians, lengths in metres, masses in
//! kilograms, times in seconds) are carried as 64-bit fixed-point numbers:
//! an `i64` holds the quantity multiplied by `fx::SCALE` (one billion), and
//! times are plain nanosecond counts.  Every arithmetic step saturates at
//! the `i64` range instead of wrapping, so each operation is total and the
//! whole trajectory of a simulation is a mathematical function of its
//! inputs, stated by the spec functions next to each executable function.

pub mod controller;
pub mod fx;
pub mod history;
pub mod npendulum;
pub mod pendulum;
pub mod physics;
pub mod plots;
pub mod single;
pub mod solver;
pub mod wave;
