//! A verified single-screen terminal calendar.
//!
//! The library holds everything the calendar decides and computes:
//! proleptic-Gregorian date arithmetic, the key-to-transition state
//! machine of the navigation loop, and the frame layout of the month
//! grid. The terminal driver and the system clock are collaborators
//! that an executable wires in around the library.

pub mod date;
pub mod nav;
pub mod render;
