//! A small desktop-dashboard core: user settings with a verified text codec,
//! one state slot per remote data domain, a refresh orchestrator that never
//! dispatches a fetch twice, and pure rendering of the current state.

pub mod config;
pub mod dashboard;
pub mod fetch;
pub mod greeting;
pub mod models;
pub mod render;
pub mod settings;
pub mod slot;
pub mod tasks;
pub mod text;

pub use greeting::Greeting;
