use vstd::prelude::*;

pub mod agent;
pub mod check_cycle;
pub mod cli;
pub mod clock;
pub mod config;
pub mod cycle;
pub mod decision;
pub mod drydock;
pub mod github;
pub mod logging;
pub mod models;
pub mod notifications;
pub mod text;

verus! {
}
