//! Terminal internet-radio client: station lists, favorites, search filtering,
//! playback intent and the remote-control protocol, as verified state machines.
use vstd::prelude::*;

pub mod api;
pub mod app;
pub mod player;
pub mod tools;
pub mod config;
pub mod filter;
pub mod mpris;

verus! {

} // verus!
