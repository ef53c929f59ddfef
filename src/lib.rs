//! Single-instance coordination and build-progress tracking for a Flatpak
//! development workflow.

pub mod layout;
pub mod stat;
pub mod text;
pub mod lock;
pub mod digest;
pub mod state;
pub mod pipeline;
pub mod command;
pub mod manifest;
pub mod a11y;
