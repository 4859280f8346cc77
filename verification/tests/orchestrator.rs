use spirc::manager::{Action, Event, PlayerEvent, SpircManager};
use spirc::protocol::{
    CapabilityType, DeviceState, Frame, MessageType, PlayStatus, SpotifyId, State, TrackRef,
};
use spirc::state::SpircState;

fn device(is_active: bool, became_active_at: i64) -> DeviceState {
    DeviceState {
        sw_version: "peer-sw".to_string(),
        name: "peer".to_string(),
        is_active,
        became_active_at,
        can_play: true,
        error_code: 0,
        volume: 100,
        capabilities: Vec::new(),
    }
}

fn frame(typ: MessageType, ident: &str, state_update_id: i64) -> Frame {
    Frame {
        typ,
        ident: ident.to_string(),
        recipient: Vec::new(),
        seq_nr: 1,
        state_update_id,
        volume: 0,
        device_state: device(false, 0),
        state: None,
    }
}

fn connected_manager() -> SpircManager {
    let mut m = SpircManager::new("self-id".to_string(), "self-name".to_string());
    let acts = m.handle_connection();
    assert_eq!(acts.len(), 1);
    m
}

fn tid(n: u128) -> SpotifyId {
    SpotifyId { id: n }
}

fn track(n: u128) -> TrackRef {
    TrackRef { gid: Some(tid(n)) }
}

fn snapshot(tracks: Vec<TrackRef>, index: u32) -> State {
    State {
        status: PlayStatus::Stopped,
        position_ms: 0,
        position_measured_at: 0,
        playing_track_index: index,
        track: tracks,
        playing_from_fallback: true,
    }
}

fn sent_frames(acts: &[Action]) -> Vec<&Frame> {
    acts.iter()
        .filter_map(|a| match a {
            Action::SendFrame(f) => Some(f),
            _ => None,
        })
        .collect()
}

#[test]
fn new_manager_has_default_state() {
    let m = SpircManager::new("self-id".to_string(), "self-name".to_string());
    assert_eq!(m.seq_nr, 0);
    assert!(!m.connected);
    assert_eq!(m.state.name, "self-name");
    assert_eq!(m.state.volume, 0xFFFF);
    assert!(!m.state.is_active);
    assert_eq!(m.state.became_active_at, 0);
    assert_eq!(m.state.status, PlayStatus::Stopped);
    assert_eq!(m.state.index, 0);
    assert!(m.state.tracks.is_empty());
    assert_eq!(m.state.update_id, 0);
    assert_eq!(m.state.position_ms, 0);
    assert_eq!(m.state.position_measured_at, 0);
}

#[test]
fn filtering_drops_own_frames() {
    let mut m = connected_manager();
    let f = frame(MessageType::Notify, "self-id", 99);
    let acts = m.handle_event(Event::Inbound { frame: f }, 10);
    assert!(acts.is_empty());
    assert_eq!(m.state.update_id, 0);
}

#[test]
fn filtering_drops_frames_addressed_past_us() {
    let mut m = connected_manager();
    let mut f = frame(MessageType::Notify, "peer", 99);
    f.recipient = vec!["someone-else".to_string()];
    let acts = m.handle_event(Event::Inbound { frame: f }, 10);
    assert!(acts.is_empty());
    assert_eq!(m.state.update_id, 0);
}

#[test]
fn filtering_accepts_frames_addressed_to_us() {
    let mut m = connected_manager();
    let mut f = frame(MessageType::Notify, "peer", 42);
    f.recipient = vec!["third".to_string(), "self-id".to_string()];
    m.handle_event(Event::Inbound { frame: f }, 10);
    assert_eq!(m.state.update_id, 42);
}

#[test]
fn clock_merges_to_maximum() {
    let mut m = connected_manager();
    for (incoming, expected) in [(50, 50), (30, 50), (70, 70)] {
        m.process_frame(&frame(MessageType::Notify, "peer", incoming), 10);
        assert_eq!(m.state.update_id, expected);
    }
}

#[test]
fn active_handoff_demotes_on_later_claim() {
    let mut m = connected_manager();
    m.state.is_active = true;
    m.state.became_active_at = 100;
    m.state.status = PlayStatus::Playing;
    let mut f = frame(MessageType::Play, "peer", 0);
    f.device_state = device(true, 200);
    let acts = m.process_frame(&f, 10);
    assert!(!m.state.is_active);
    assert_eq!(m.state.status, PlayStatus::Stopped);
    assert_eq!(acts.len(), 2);
    assert_eq!(acts[0], Action::PlayerStop);
    let sent = sent_frames(&acts);
    assert_eq!(sent.len(), 1);
    assert_eq!(sent[0].typ, MessageType::Notify);
    assert!(sent[0].recipient.is_empty());
}

#[test]
fn active_handoff_ignores_earlier_claim() {
    let mut m = connected_manager();
    m.state.is_active = true;
    m.state.became_active_at = 100;
    m.state.status = PlayStatus::Playing;
    let mut f = frame(MessageType::Play, "peer", 0);
    f.device_state = device(true, 50);
    let acts = m.process_frame(&f, 10);
    assert!(m.state.is_active);
    assert_eq!(m.state.became_active_at, 100);
    assert_eq!(m.state.status, PlayStatus::Playing);
    assert!(acts.is_empty());
}

#[test]
fn load_replaces_tracks_and_starts_playback() {
    let mut m = connected_manager();
    let mut f = frame(MessageType::Load, "peer", 0);
    f.state = Some(snapshot(vec![track(1), track(2), track(3)], 1));
    let acts = m.process_frame(&f, 1000);
    assert_eq!(m.state.tracks, vec![tid(1), tid(2), tid(3)]);
    assert_eq!(m.state.index, 1);
    assert_eq!(m.state.status, PlayStatus::Playing);
    assert_eq!(m.state.position_ms, 0);
    assert_eq!(m.state.position_measured_at, 1000);
    assert_eq!(m.state.update_id, 1000);
    assert!(m.state.is_active);
    assert_eq!(m.state.became_active_at, 1000);
    assert_eq!(acts.len(), 2);
    assert_eq!(acts[0], Action::PlayerLoad(tid(2)));
    let sent = sent_frames(&acts);
    assert_eq!(sent.len(), 1);
    assert_eq!(sent[0].typ, MessageType::Notify);
    assert!(sent[0].recipient.is_empty());
}

#[test]
fn load_discards_tracks_without_identifier() {
    let mut m = connected_manager();
    let mut f = frame(MessageType::Load, "peer", 0);
    f.state = Some(snapshot(vec![track(1), TrackRef { gid: None }, track(3)], 0));
    let acts = m.process_frame(&f, 1000);
    assert_eq!(m.state.tracks, vec![tid(1), tid(3)]);
    assert_eq!(m.state.index, 0);
    assert_eq!(acts[0], Action::PlayerLoad(tid(1)));
    assert_eq!(acts.len(), 2);
}

#[test]
fn load_with_out_of_bounds_index_does_not_start_playback() {
    let mut m = connected_manager();
    let mut f = frame(MessageType::Load, "peer", 0);
    f.state = Some(snapshot(vec![track(1), track(2)], 5));
    let acts = m.process_frame(&f, 1000);
    assert_eq!(m.state.index, 5);
    assert_eq!(m.state.status, PlayStatus::Stopped);
    assert_eq!(m.state.position_ms, 0);
    let sent = sent_frames(&acts);
    assert_eq!(acts.len(), 1);
    assert_eq!(sent.len(), 1);
}

#[test]
fn load_with_absent_snapshot_reads_as_empty() {
    let mut m = connected_manager();
    let f = frame(MessageType::Load, "peer", 0);
    let acts = m.process_frame(&f, 1000);
    assert!(m.state.tracks.is_empty());
    assert_eq!(m.state.index, 0);
    assert_eq!(m.state.status, PlayStatus::Stopped);
    assert_eq!(acts.len(), 1);
    assert_eq!(sent_frames(&acts).len(), 1);
}

#[test]
fn track_end_wraps_around() {
    let mut m = connected_manager();
    m.state.tracks = vec![tid(1), tid(2), tid(3)];
    m.state.index = 2;
    let acts = m.handle_player_event(&PlayerEvent::TrackEnded, 500);
    assert_eq!(m.state.index, 0);
    assert_eq!(acts[0], Action::PlayerLoad(tid(1)));
    assert_eq!(m.state.update_id, 500);
    assert_eq!(m.state.position_ms, 0);
    assert_eq!(m.state.position_measured_at, 500);
    assert_eq!(acts.len(), 2);
    assert_eq!(sent_frames(&acts).len(), 1);
}

#[test]
fn track_end_with_empty_list_is_guarded() {
    let mut m = connected_manager();
    let seq_before = m.seq_nr;
    let acts = m.handle_player_event(&PlayerEvent::TrackEnded, 500);
    assert!(acts.is_empty());
    assert_eq!(m.state.index, 0);
    assert_eq!(m.seq_nr, seq_before);
}

#[test]
fn position_update_is_local_bookkeeping() {
    let mut m = connected_manager();
    let seq_before = m.seq_nr;
    let acts = m.handle_player_event(
        &PlayerEvent::PositionUpdate { position_ms: 5000 },
        600,
    );
    assert!(acts.is_empty());
    assert_eq!(m.state.position_ms, 5000);
    assert_eq!(m.state.position_measured_at, 600);
    assert_eq!(m.seq_nr, seq_before);
}

#[test]
fn sequencing_has_no_gaps_or_repeats() {
    let mut m = SpircManager::new("self-id".to_string(), "self-name".to_string());
    let mut seqs: Vec<u32> = Vec::new();
    let acts = m.handle_connection();
    match &acts[0] {
        Action::SendFrame(f) => seqs.push(f.seq_nr),
        other => panic!("expected a send, got {:?}", other),
    }
    for _ in 0..4 {
        let f = m.notify(None).expect("connected, so the notify goes out");
        seqs.push(f.seq_nr);
    }
    assert_eq!(seqs, vec![1, 2, 3, 4, 5]);
}

#[test]
fn snapshot_reports_index_and_track_list() {
    let mut m = connected_manager();
    m.state.tracks = vec![tid(7), tid(8)];
    m.state.index = 1;
    m.state.status = PlayStatus::Paused;
    m.state.position_ms = 123;
    m.state.position_measured_at = 456;
    let p = m.player_state();
    assert_eq!(p.playing_track_index, 1);
    assert_eq!(p.track.len(), 2);
    assert_eq!(p.track[0].gid, Some(tid(7)));
    assert_eq!(p.track[1].gid, Some(tid(8)));
    assert_eq!(p.status, PlayStatus::Paused);
    assert_eq!(p.position_ms, 123);
    assert_eq!(p.position_measured_at, 456);
    assert!(p.playing_from_fallback);
}

#[test]
fn hello_gets_exactly_one_unicast_notify() {
    let mut m = connected_manager();
    let f = frame(MessageType::Hello, "peer-7", 0);
    let acts = m.process_frame(&f, 10);
    assert_eq!(acts.len(), 1);
    let sent = sent_frames(&acts);
    assert_eq!(sent.len(), 1);
    assert_eq!(sent[0].typ, MessageType::Notify);
    assert_eq!(sent[0].recipient, vec!["peer-7".to_string()]);
    assert!(sent[0].state.is_some());
    assert_eq!(sent[0].state_update_id, m.state.update_id);
}

#[test]
fn volume_set_adopts_carried_value() {
    let mut m = connected_manager();
    let mut f = frame(MessageType::VolumeSet, "peer", 0);
    f.volume = 0x12345;
    let acts = m.process_frame(&f, 10);
    assert_eq!(m.state.volume, 0x2345);
    let sent = sent_frames(&acts);
    assert_eq!(acts.len(), 1);
    assert_eq!(sent.len(), 1);
    assert!(sent[0].recipient.is_empty());
    assert_eq!(sent[0].device_state.volume, 0x2345);
}

#[test]
fn other_kinds_are_no_ops() {
    let mut m = connected_manager();
    let seq_before = m.seq_nr;
    for typ in [
        MessageType::Play,
        MessageType::Pause,
        MessageType::Seek,
        MessageType::Next,
        MessageType::Previous,
        MessageType::Shuffle,
        MessageType::Repeat,
        MessageType::ReplaceQueue,
        MessageType::Goodbye,
    ] {
        let acts = m.process_frame(&frame(typ, "peer", 0), 10);
        assert!(acts.is_empty());
    }
    assert_eq!(m.seq_nr, seq_before);
}

#[test]
fn notify_is_dropped_without_a_publisher() {
    let mut m = SpircManager::new("self-id".to_string(), "self-name".to_string());
    let sent = m.notify(None);
    assert!(sent.is_none());
    // the send counter is consumed even for a dropped envelope
    assert_eq!(m.seq_nr, 1);
}

#[test]
fn device_state_carries_fixed_descriptor() {
    let m = SpircManager::new("self-id".to_string(), "self-name".to_string());
    let d = m.device_state();
    assert_eq!(d.sw_version, "librespot-v0.2");
    assert_eq!(d.name, "self-name");
    assert!(!d.is_active);
    assert_eq!(d.became_active_at, 0);
    assert!(d.can_play);
    assert_eq!(d.error_code, 0);
    assert_eq!(d.volume, 0xFFFF);
    assert_eq!(d.capabilities.len(), 9);
    let ints: Vec<(CapabilityType, i64)> = vec![
        (CapabilityType::CanBePlayer, 0),
        (CapabilityType::DeviceType, 1),
        (CapabilityType::GaiaEqConnectId, 1),
        (CapabilityType::SupportsLogout, 1),
        (CapabilityType::SupportsRename, 1),
        (CapabilityType::IsObservable, 1),
        (CapabilityType::VolumeSteps, 10),
    ];
    for (i, (typ, v)) in ints.into_iter().enumerate() {
        assert_eq!(d.capabilities[i].typ, typ);
        assert_eq!(d.capabilities[i].int_value, vec![v]);
        assert!(d.capabilities[i].string_value.is_empty());
    }
    assert_eq!(d.capabilities[7].typ, CapabilityType::SupportedContexts);
    assert!(d.capabilities[7].int_value.is_empty());
    assert!(d.capabilities[7].string_value.is_empty());
    assert_eq!(d.capabilities[8].typ, CapabilityType::SupportedTypes);
    assert!(d.capabilities[8].int_value.is_empty());
    assert_eq!(
        d.capabilities[8].string_value,
        vec!["audio/local", "audio/track", "local", "track"]
    );
}

#[test]
fn connection_event_sends_hello() {
    let mut m = SpircManager::new("self-id".to_string(), "self-name".to_string());
    let acts = m.handle_event(
        Event::Connected { username: "user".to_string() },
        10,
    );
    assert!(m.connected);
    assert_eq!(acts.len(), 1);
    match &acts[0] {
        Action::SendFrame(f) => {
            assert_eq!(f.typ, MessageType::Hello);
            assert_eq!(f.ident, "self-id");
            assert_eq!(f.seq_nr, 1);
            assert!(f.recipient.is_empty());
            assert!(f.state.is_none());
            assert_eq!(f.state_update_id, 0);
            assert_eq!(f.device_state.name, "self-name");
        }
        other => panic!("expected a send, got {:?}", other),
    }
}

#[test]
fn send_completion_changes_nothing() {
    let mut m = connected_manager();
    let seq_before = m.seq_nr;
    let acts = m.handle_event(Event::SendCompleted, 10);
    assert!(acts.is_empty());
    assert_eq!(m.seq_nr, seq_before);
}

#[test]
fn load_tracks_filters_and_sets_index() {
    let mut s = SpircState::new("n".to_string());
    let snap = snapshot(vec![TrackRef { gid: None }, track(9), track(10)], 7);
    s.load_tracks(&snap);
    assert_eq!(s.index, 7);
    assert_eq!(s.tracks, vec![tid(9), tid(10)]);
}

#[test]
fn demotion_then_load_reclaims_active_role() {
    let mut m = connected_manager();
    m.state.is_active = true;
    m.state.became_active_at = 100;
    let mut f = frame(MessageType::Load, "peer", 0);
    f.device_state = device(true, 200);
    f.state = Some(snapshot(vec![track(4)], 0));
    let acts = m.process_frame(&f, 300);
    // demoted by the peer's later claim, then re-claimed by the load
    assert!(m.state.is_active);
    assert_eq!(m.state.became_active_at, 300);
    assert_eq!(m.state.status, PlayStatus::Playing);
    assert_eq!(acts.len(), 4);
    assert_eq!(acts[0], Action::PlayerStop);
    assert_eq!(acts[2], Action::PlayerLoad(tid(4)));
    assert_eq!(sent_frames(&acts).len(), 2);
}
