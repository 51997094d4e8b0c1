//! Vibrant, a CSS gradient generator: the application's lifecycle, its
//! actions and keyboard accelerators, and the metadata of its about dialog,
//! as a state machine that the toolkit glue drives.

pub mod application;
pub mod config;
