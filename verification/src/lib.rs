//! Decision logic of the Zed extension that runs the Codebook language server.

pub mod behaviour;
pub mod binary;
pub mod bounds;
pub mod cleanup;
pub mod command;
pub mod download;
pub mod existing;
pub mod extension;
pub mod host;
pub mod install;
pub mod latest;
pub mod path;
pub mod platform;
pub mod release;
pub mod search;
pub mod text;
pub mod update;
pub mod views;
