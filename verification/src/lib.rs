//! Browsing state, filtering and request/response logic of a terminal
//! client for Black Duck software composition analysis data.
pub mod text;
pub mod api;
pub mod config;
pub mod app;
pub mod selection;
pub mod rules;
pub mod events;
pub mod ui;
pub mod panels;
