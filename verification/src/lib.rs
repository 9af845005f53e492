use vstd::prelude::*;

pub mod constants;
pub mod text;
pub mod evm;
pub mod rpcs;
pub mod aligned;
pub mod eth;
pub mod mina_daemon;
pub mod mina_archive;
pub mod mina;
pub mod config;
pub mod nori;
pub mod payload;
pub mod results;
pub mod balance;
pub mod submission;

verus! {

} // verus!
