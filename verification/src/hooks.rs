//! Hooks for components.

pub mod use_dioxus;

pub use use_dioxus::use_dioxus;
