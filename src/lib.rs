use vstd::prelude::*;

pub mod auth;
pub mod channel;
pub mod command;
pub mod common;
pub mod config;
pub mod events;
pub mod supervisor;
pub mod keepalive;
pub mod password;
pub mod relay;
pub mod text;
pub mod user;
pub mod username;

verus! {

} // verus!
