//! What the application's pages compute before anything is drawn.

pub mod browser;

pub use browser::{BrowserData, BrowserDialog, BrowserState};
