use vstd::prelude::*;

pub mod agent;
pub mod auth;
pub mod chat;
pub mod config;
pub mod encryption;
pub mod io_failure;
pub mod json;
pub mod paths;
pub mod policy;
pub mod queue;
pub mod rate_limit;
pub mod storage;
pub mod text;
pub mod tools;

