//! Orchestration core of a bridge between a remote transfer service and
//! local media managers: the transfer model, the resolution of a remote file
//! tree into local download targets, the discovery reconciliation, the
//! download fan-in and the decisions of the import and seeding watchers.
use vstd::prelude::*;

pub mod arr;
pub mod config;
pub mod discovery;
pub mod download;
pub mod orchestration;
pub mod paths;
pub mod putio;
pub mod rpc;
pub mod template;
pub mod text;
pub mod transfer;
pub mod transmission;
pub mod tree;

verus! {

} // verus!
