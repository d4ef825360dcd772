//! Ephemeral test databases: declarative test configuration, provisioning of
//! uniquely named databases, reclaiming of stale ones, and the harness that
//! drives one test from setup to cleanup.
use vstd::prelude::*;

pub mod args;
pub mod config;
pub mod context;
pub mod harness;
pub mod naming;
pub mod text;
pub mod tracking;

pub use args::{Migrator, TestArgs, TestFixture, TestTermination};
pub use context::TestContext;
