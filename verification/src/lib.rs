use vstd::prelude::*;

pub mod cluster;
pub mod command;
pub mod dns;
pub mod follow;
pub mod health;
pub mod json;
pub mod launch;
pub mod platform;
pub mod session;
pub mod setup;
pub mod shell;
pub mod text;
pub mod utils;
pub mod vpn;

verus! {
} // verus!
