//! The rules of a privileged service that runs a proxy core for one owner at a
//! time: who may ask for what, what a core may be run from, in which order one
//! owner takes the service over from another, and how the service is supervised,
//! repaired and removed.
//!
//! Where a rule alternates with work of the operating system, it stands here as a
//! state and a function from state and event to the next state; the program around
//! this library does the work and reports how it ended.

pub mod assets;
pub mod barrier;
pub mod error;
pub mod joins;
pub mod layout;
pub mod listener;
pub mod logs;
pub mod native;
pub mod owner_directory;
pub mod owner_start;
pub mod paths;
pub mod prepare;
pub mod proxy;
pub mod purge;
pub mod repair;
pub mod replies;
pub mod requests;
pub mod routes;
pub mod runtime;
pub mod session;
pub mod supervisor;
pub mod takeover;
pub mod text;
pub mod uninstall;
pub mod unix_source;
pub mod windows_service;
pub mod windows_source;
