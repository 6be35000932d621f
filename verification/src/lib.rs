//! Context capture: assembles a snapshot of the desktop context (clipboard
//! text, foreground application name, and, when the foreground application is
//! a supported browser, the URL of its active tab) from the raw observations
//! that the platform layer hands in.

pub mod bridge;
pub mod browser;
pub mod snapshot;
pub mod text;
