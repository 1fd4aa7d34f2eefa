//! Keeps one configuration document on disk and finds it again, wherever the
//! application was started from.
//!
//! The library decides; its caller touches the disk. `paths` lists the
//! directories in which the document may live. `save` and `load` each run as a
//! sequence of steps: a step names one thing to ask of the disk or to do to it,
//! and the caller's answer gives the next step. `disk` is a model of a disk in
//! contracts, and `laws` states what saving and loading do to it.

pub mod disk;
pub mod error;
pub mod laws;
pub mod load;
pub mod paths;
pub mod save;
pub mod store;
