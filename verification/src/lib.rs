//! A sans-I/O core for a small OCI container runtime.

pub mod bundle;
pub mod console;
pub mod container;
pub mod creation;
pub mod error;
pub mod layout;
pub mod lifecycle;
pub mod process;
pub mod sandbox;
pub mod signal;
pub mod state;
pub mod store;
pub mod text;
