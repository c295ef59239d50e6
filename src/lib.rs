//! Hand-off of a file path from process launch to a frontend that asks for it later.
//!
//! A path given on the command line is kept in a one-slot store until the
//! frontend pulls it (at most once), and is also pushed to listeners after a
//! fixed delay. A second launch of the program replaces the stored path and
//! pushes the new one at once.
pub mod deferred;
pub mod greeting;
pub mod launch;
pub mod pending;
