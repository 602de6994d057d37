//! The decisions of the operating system back ends.
//!
//! A back end reads raw values from the operating system, asks a function here
//! what they mean, and carries out the answer.
pub mod macos;
pub mod windows;
