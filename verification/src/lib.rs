//! Administrative command-line helper for a container stack: validates the
//! sub-command, plans the orchestration invocations for start/stop/clean,
//! models the environment file written during installation, and serializes
//! the cabinet record collected by the config command.
pub mod args;
pub mod config;
pub mod docker;
pub mod envfile;
pub mod install;
pub mod text;
