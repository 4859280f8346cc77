//! Device-synchronization core of a multi-device remote-control protocol.
//!
//! Several player endpoints share one logical playback session over a
//! publish/subscribe channel. Each endpoint runs an orchestrator that
//! filters and dispatches inbound envelopes, arbitrates which endpoint is
//! active, and reconciles playback state, emitting outbound envelopes and
//! player commands as explicit actions. The transport, the audio player
//! and the wire codec are collaborators outside this library: the
//! orchestrator here is a pure state machine over plain values.

pub mod protocol;
pub mod state;
pub mod manager;
pub mod laws;
