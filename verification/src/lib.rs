//! Job engine for driving an external image-upscaling tool: model catalog
//! discovery, executable location, option-to-command-line translation, and a
//! polled, at-most-one-job subprocess lifecycle with exactly-once result
//! notification. All file-system, clock and process I/O is performed by the
//! caller, which hands the engine plain values and carries out the actions the
//! engine returns.

pub mod builder;
pub mod catalog;
pub mod config;
pub mod error;
pub mod files;
pub mod format;
pub mod job;
pub mod locator;
pub mod paths;
pub mod settings;
pub mod text;
pub mod upscale;
