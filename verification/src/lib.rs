//! Verified core of the nocelium agent runtime.
use vstd::prelude::*;

pub mod text;
pub mod numbers;
pub mod dispatch;
pub mod event;
pub mod outbound;
pub mod collected;
pub mod logging;
pub mod config;
pub mod memory;
pub mod tools;
pub mod cron;
pub mod handlers;
pub mod agent;

verus! {
}
