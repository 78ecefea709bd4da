use vstd::prelude::*;

pub mod action;
pub mod decision;
pub mod decision_laws;
pub mod entities;
pub mod error;
pub mod host;
pub mod host_laws;
pub mod listener;
pub mod listener_service;
pub mod outcome;
pub mod policy_service;
pub mod port;
pub mod ports;
pub mod proxy;
pub mod runtime;
pub mod settings;
pub mod state_dir;
pub mod storage;
pub mod text;
pub mod time;

verus! {
}
