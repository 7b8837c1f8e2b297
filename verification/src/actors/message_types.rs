use vstd::prelude::*;
use crate::PlayerId;

verus! {

/// Ask the coordinator whether a match is running.
#[derive(Debug, Clone, Copy)]
pub struct IsGameRunning;

/// Ask the coordinator whether a player is registered.
#[derive(Debug, Clone, Copy)]
pub struct IsPlayerRegistered(pub PlayerId);

/// Ask the coordinator whether a player is connected.
#[derive(Debug, Clone, Copy)]
pub struct IsPlayerConnected(pub PlayerId);

} // verus!
