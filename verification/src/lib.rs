//! Cascading-column ("Miller columns") navigation for hierarchical data, with
//! the server configuration list of the application built around it.
//!
//! The navigation engine is a tree cache addressed by item ids: a root column,
//! a selection path, and for every parent id the state of its children
//! (not loaded, loading, loaded, failed). The cache never performs I/O; the
//! host fetches children and reports the outcome.

pub mod api;
pub mod app;
pub mod config;
pub mod pages;
pub mod widgets;
