//! Networked two-player movement: the messages two peers exchange, the
//! input-lag buffer that replays inputs in lockstep, the periodic drift
//! correction, and the movement rule that both peers apply to inputs.

pub mod network;
pub mod receive;
pub mod send;
pub mod movement;
pub mod laws;
pub mod setup;
