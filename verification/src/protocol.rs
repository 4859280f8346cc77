//! Plain-value model of the wire protocol: envelopes, device descriptors
//! and playback-state snapshots. Encoding and decoding of these values is
//! the transport's business; the orchestrator only ever sees them decoded.

use vstd::prelude::*;

verus! {

/// The kinds of control message exchanged over the shared topic.
#[derive(Clone, Copy, Debug, PartialEq, Eq, Structural)]
pub enum MessageType {
    Hello,
    Notify,
    Load,
    Play,
    Pause,
    Seek,
    Next,
    Previous,
    VolumeSet,
    VolumeUp,
    VolumeDown,
    Shuffle,
    Repeat,
    ReplaceQueue,
    Goodbye,
}

/// Playback status carried in snapshots and kept locally.
#[derive(Clone, Copy, Debug, PartialEq, Eq, Structural)]
pub enum PlayStatus {
    Stopped,
    Playing,
    Paused,
}

/// A resolved track identifier.
#[derive(Clone, Copy, Debug, PartialEq, Eq, Structural)]
pub struct SpotifyId {
    pub id: u128,
}

/// A track reference as it appears in a snapshot's track list. A reference
/// without an identifier is unusable and is discarded on load.
#[derive(Clone, Copy, Debug, PartialEq, Eq)]
pub struct TrackRef {
    pub gid: Option<SpotifyId>,
}

/// The fixed capability vocabulary a device descriptor speaks.
#[derive(Clone, Copy, Debug, PartialEq, Eq, Structural)]
pub enum CapabilityType {
    CanBePlayer,
    DeviceType,
    GaiaEqConnectId,
    SupportsLogout,
    SupportsRename,
    IsObservable,
    VolumeSteps,
    SupportedContexts,
    SupportedTypes,
}

/// One capability entry of a device descriptor.
#[derive(Clone, Debug, PartialEq, Eq)]
pub struct Capability {
    pub typ: CapabilityType,
    pub int_value: Vec<i64>,
    pub string_value: Vec<String>,
}

/// A sender's self-description, attached to every outbound envelope and
/// read from inbound envelopes for active-device arbitration.
#[derive(Clone, Debug, PartialEq, Eq)]
pub struct DeviceState {
    pub sw_version: String,
    pub name: String,
    pub is_active: bool,
    pub became_active_at: i64,
    pub can_play: bool,
    pub error_code: u32,
    pub volume: u32,
    pub capabilities: Vec<Capability>,
}

/// The wire form of a playback-state snapshot.
#[derive(Clone, Debug, PartialEq, Eq)]
pub struct State {
    pub status: PlayStatus,
    pub position_ms: u32,
    pub position_measured_at: u64,
    pub playing_track_index: u32,
    pub track: Vec<TrackRef>,
    pub playing_from_fallback: bool,
}

/// A single protocol message exchanged over the shared topic.
///
/// `recipient` empty means broadcast; `state` is attached on Load and
/// Notify; `volume` carries the requested value of a VolumeSet.
#[derive(Clone, Debug, PartialEq, Eq)]
pub struct Frame {
    pub typ: MessageType,
    pub ident: String,
    pub recipient: Vec<String>,
    pub seq_nr: u32,
    pub state_update_id: i64,
    pub volume: u32,
    pub device_state: DeviceState,
    pub state: Option<State>,
}

} // verus!
