//! The state behind the terminal front end. Drawing it, and reading the
//! keyboard, is the caller's part.

pub mod app;
