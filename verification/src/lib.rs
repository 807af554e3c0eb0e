//! A safe access layer over a native multi-format archive engine.
//!
//! The engine itself is reached only through the narrow operation set of
//! [`engine::Call`]. This library holds the decisions around it: which
//! operation comes next, what is handed to it, and what each answer means.
//! A front end performs the pending operation and hands the answer back.

pub mod append;
pub mod archive;
pub mod engine;
pub mod entries;
pub mod error;
