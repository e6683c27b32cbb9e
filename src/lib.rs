//! A small service that launches locally configured programs by alias.
//!
//! The library holds the binding table and its resolver, the executor's
//! decisions around a launch, and the request router with its run flag.
//! Transport, file access and process creation are left to the caller.

pub mod config;
pub mod executor;
pub mod freyja;
pub mod router;

pub use config::{Binding, Config, ConfigReader};
pub use executor::{Exec, Executor, LaunchOutcome, LaunchRequest};
pub use freyja::Freyja;
pub use router::{Reply, Request, Router, Step};
