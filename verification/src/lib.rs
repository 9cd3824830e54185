//! A lightweight OCI container engine: the rules by which images are fetched,
//! bundles laid out, the monitor handshake driven and containers kept in a
//! registry, with every rule stated as a contract and proved.

pub mod command;
pub mod container;
pub mod creation;
pub mod engine;
pub mod error;
pub mod image;
pub mod json;
pub mod monitor;
pub mod pipe;
pub mod rest;
pub mod state;
pub mod text;

pub use self::container::{State, Status};
pub use self::engine::Engine;
