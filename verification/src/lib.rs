pub mod commands;
pub mod config;
pub mod daemon;
pub mod failure;
pub mod findings;
pub mod install;
pub mod keyring;
pub mod paths;
pub mod portal;
pub mod probe;
pub mod runs;
pub mod service;
pub mod session;
pub mod settings;
pub mod signals;
pub mod status;
pub mod text;
pub mod wifi;
