//! The orchestrator: one endpoint's state machine over the shared session.
//!
//! The orchestrator owns the local playback state and a send counter. It
//! consumes the four event sources of the session — connection lifecycle,
//! inbound envelopes, send completions and player events — through a
//! single transition function, and answers each event with a list of
//! explicit actions: envelopes to publish and player commands to issue.
//! The surrounding shell performs the actions; nothing here blocks or
//! touches a transport.

use vstd::prelude::*;
use crate::protocol::{
    Capability, CapabilityType, DeviceState, Frame, MessageType, PlayStatus, SpotifyId, State,
    TrackRef,
};
use crate::state::{valid_gids, SpircState};

verus! {

/// An event one of the session's four sources yielded.
#[derive(Clone, Debug)]
pub enum Event {
    /// The connection layer (re)established a session for this user.
    Connected { username: String },
    /// A decoded envelope arrived on the shared topic.
    Inbound { frame: Frame },
    /// The transport finished flushing an earlier send.
    SendCompleted,
    /// The player reported progress.
    Player { event: PlayerEvent },
}

/// What the player's event stream can report.
#[derive(Clone, Copy, Debug, PartialEq, Eq, Structural)]
pub enum PlayerEvent {
    TrackEnded,
    PositionUpdate { position_ms: u32 },
}

/// An effect the shell must perform on the orchestrator's behalf.
#[derive(Clone, Debug, PartialEq, Eq)]
pub enum Action {
    /// Publish this envelope on the shared topic.
    SendFrame(Frame),
    /// Ask the player to load and start this track.
    PlayerLoad(SpotifyId),
    /// Ask the player to stop producing audio.
    PlayerStop,
}

/// The orchestrator.
#[derive(Debug)]
pub struct SpircManager {
    /// This endpoint's stable identity on the shared topic.
    pub ident: String,
    /// Counter of outbound envelopes; every send consumes the next value.
    pub seq_nr: u32,
    /// Whether a subscription and a publisher are currently established.
    pub connected: bool,
    /// The local view of the shared session.
    pub state: SpircState,
}

/// The clock merge of one inbound envelope: the local logical clock is
/// raised to the envelope's `state_update_id` when that is greater.
pub open spec fn merged_update_id(current: i64, incoming: i64) -> i64 {
    if incoming > current {
        incoming
    } else {
        current
    }
}

/// Last-writer-wins arbitration: an envelope whose sender reports itself
/// active with a strictly later activation time demotes a local active
/// endpoint.
pub open spec fn handoff_occurs(s: SpircState, f: Frame) -> bool {
    f.device_state.is_active && s.is_active && f.device_state.became_active_at
        > s.became_active_at
}

/// The local state after the clock merge and the arbitration check, the
/// two steps every dispatched envelope goes through first.
pub open spec fn state_after_handoff(s: SpircState, f: Frame) -> SpircState {
    let merged = SpircState { update_id: merged_update_id(s.update_id, f.state_update_id), ..s };
    if handoff_occurs(s, f) {
        SpircState { is_active: false, status: PlayStatus::Stopped, ..merged }
    } else {
        merged
    }
}

/// The track list an envelope carries; an absent snapshot reads as empty.
pub open spec fn attached_tracks(f: Frame) -> Seq<TrackRef> {
    match f.state {
        Some(st) => st.track@,
        None => Seq::empty(),
    }
}

/// The track index an envelope carries; an absent snapshot reads as zero.
pub open spec fn attached_index(f: Frame) -> u32 {
    match f.state {
        Some(st) => st.playing_track_index,
        None => 0u32,
    }
}

/// An envelope survives inbound filtering: not our own, and either
/// broadcast or addressed to us.
pub open spec fn dispatchable(f: Frame, me: Seq<char>) -> bool {
    &&& f.ident@ != me
    &&& (f.recipient@.len() == 0 || exists|i: int|
        0 <= i < f.recipient@.len() && f.recipient@[i]@ == me)
}

/// A capability entry carrying exactly one integer value.
pub open spec fn cap_is_int(c: Capability, t: CapabilityType, v: i64) -> bool {
    &&& c.typ == t
    &&& c.int_value@ == seq![v]
    &&& c.string_value@.len() == 0
}

/// The fixed capability list every descriptor of this endpoint carries.
pub open spec fn capabilities_ok(caps: Seq<Capability>) -> bool {
    &&& caps.len() == 9
    &&& cap_is_int(caps[0], CapabilityType::CanBePlayer, 0)
    &&& cap_is_int(caps[1], CapabilityType::DeviceType, 1)
    &&& cap_is_int(caps[2], CapabilityType::GaiaEqConnectId, 1)
    &&& cap_is_int(caps[3], CapabilityType::SupportsLogout, 1)
    &&& cap_is_int(caps[4], CapabilityType::SupportsRename, 1)
    &&& cap_is_int(caps[5], CapabilityType::IsObservable, 1)
    &&& cap_is_int(caps[6], CapabilityType::VolumeSteps, 10)
    &&& caps[7].typ == CapabilityType::SupportedContexts
    &&& caps[7].int_value@.len() == 0
    &&& caps[7].string_value@.len() == 0
    &&& caps[8].typ == CapabilityType::SupportedTypes
    &&& caps[8].int_value@.len() == 0
    &&& caps[8].string_value@.len() == 4
    &&& caps[8].string_value@[0]@ == "audio/local"@
    &&& caps[8].string_value@[1]@ == "audio/track"@
    &&& caps[8].string_value@[2]@ == "local"@
    &&& caps[8].string_value@[3]@ == "track"@
}

/// A descriptor reports the local state faithfully, with the fixed
/// software version and capability list.
pub open spec fn device_matches(d: DeviceState, s: SpircState) -> bool {
    &&& d.sw_version@ == "librespot-v0.2"@
    &&& d.name@ == s.name@
    &&& d.is_active == s.is_active
    &&& d.became_active_at == s.became_active_at
    &&& d.can_play == true
    &&& d.error_code == 0u32
    &&& d.volume == s.volume as u32
    &&& capabilities_ok(d.capabilities@)
}

/// A snapshot reports the local state faithfully: same status and
/// position, the same track index, and one track reference per local
/// track, in order.
pub open spec fn snapshot_matches(p: State, s: SpircState) -> bool {
    &&& p.status == s.status
    &&& p.position_ms == s.position_ms
    &&& p.position_measured_at == s.position_measured_at
    &&& p.playing_track_index == s.index
    &&& p.track@.len() == s.tracks@.len()
    &&& forall|i: int|
        0 <= i < s.tracks@.len() ==> (#[trigger] p.track@[i]).gid == Some(s.tracks@[i])
    &&& p.playing_from_fallback == true
}

/// The view of an optional unicast recipient.
pub open spec fn recipient_view(r: Option<String>) -> Option<Seq<char>> {
    match r {
        None => None,
        Some(s) => Some(s@),
    }
}

/// A Notify envelope built from state `s`: it carries a faithful snapshot
/// of `s`, stamps `s`'s logical clock, and is either broadcast or
/// addressed to exactly one recipient.
pub open spec fn is_notify_frame(
    f: Frame,
    s: SpircState,
    me: Seq<char>,
    seq: u32,
    recipient: Option<Seq<char>>,
) -> bool {
    &&& f.typ == MessageType::Notify
    &&& f.ident@ == me
    &&& f.seq_nr == seq
    &&& f.state_update_id == s.update_id
    &&& match recipient {
        None => f.recipient@.len() == 0,
        Some(r) => f.recipient@.len() == 1 && f.recipient@[0]@ == r,
    }
    &&& f.state matches Some(p) && snapshot_matches(p, s)
    &&& device_matches(f.device_state, s)
    &&& f.volume == 0u32
}

/// A broadcast Hello envelope built from state `s`.
pub open spec fn is_hello_frame(f: Frame, s: SpircState, me: Seq<char>, seq: u32) -> bool {
    &&& f.typ == MessageType::Hello
    &&& f.ident@ == me
    &&& f.seq_nr == seq
    &&& f.state_update_id == 0i64
    &&& f.recipient@.len() == 0
    &&& f.state is None
    &&& device_matches(f.device_state, s)
    &&& f.volume == 0u32
}

/// Everything `process_frame` does to the orchestrator for one dispatched
/// envelope, and every action it emits. `pre` and `post` are the
/// orchestrator before and after the call.
pub open spec fn process_frame_rel(
    pre: SpircManager,
    post: SpircManager,
    frame: Frame,
    now: u64,
    acts: Seq<Action>,
) -> bool {
    let s0 = pre.state;
    let me = pre.ident@;
    let h = handoff_occurs(s0, frame);
    let s1 = state_after_handoff(s0, frame);
    let base = if h {
        1int
    } else {
        0int
    };
    &&& post.ident == pre.ident
    &&& post.connected == pre.connected
    &&& post.state.name == s0.name
    &&& post.state.wf()
    // The arbitration prefix, common to every kind: on a lost handoff the
    // player is stopped and one broadcast Notify reports the demotion.
    &&& (h ==> acts.len() >= 2 && acts[0] == Action::PlayerStop && (acts[1] matches
        Action::SendFrame(f) && is_notify_frame(f, s1, me, (pre.seq_nr + 1) as u32, None)))
    // Kinds with no specific handling: the clock merge and the
    // arbitration are all that happens.
    &&& (frame.typ != MessageType::Hello && frame.typ != MessageType::VolumeSet && frame.typ
        != MessageType::Load ==> {
        &&& post.state == s1
        &&& post.seq_nr == pre.seq_nr + base
        &&& acts.len() == 2 * base
    })
    // Hello: answer with exactly one Notify addressed to the sender only.
    &&& (frame.typ == MessageType::Hello ==> {
        &&& post.state == s1
        &&& post.seq_nr == pre.seq_nr + base + 1
        &&& acts.len() == 2 * base + 1
        &&& (acts.last() matches Action::SendFrame(f) && is_notify_frame(
            f,
            s1,
            me,
            (pre.seq_nr + base + 1) as u32,
            Some(frame.ident@),
        ))
    })
    // VolumeSet: adopt the carried volume and broadcast one Notify.
    &&& (frame.typ == MessageType::VolumeSet ==> {
        let s2 = SpircState { volume: frame.volume as u16, ..s1 };
        &&& post.state == s2
        &&& post.seq_nr == pre.seq_nr + base + 1
        &&& acts.len() == 2 * base + 1
        &&& (acts.last() matches Action::SendFrame(f) && is_notify_frame(
            f,
            s2,
            me,
            (pre.seq_nr + base + 1) as u32,
            None,
        ))
    })
    // Load: stamp the clock with the wall-clock time, claim the active
    // role if not held, adopt the carried tracks and index, start playing
    // when the index is in bounds, and broadcast one Notify regardless.
    &&& (frame.typ == MessageType::Load ==> {
        let ids = valid_gids(attached_tracks(frame));
        let idx = attached_index(frame);
        let loads = (idx as int) < ids.len();
        let s2 = post.state;
        &&& s2.update_id == now as i64
        &&& s2.is_active == true
        &&& s2.became_active_at == if s1.is_active {
            s1.became_active_at
        } else {
            now as i64
        }
        &&& s2.tracks@ == ids
        &&& s2.index == idx
        &&& s2.volume == s1.volume
        &&& s2.status == if loads {
            PlayStatus::Playing
        } else {
            s1.status
        }
        &&& s2.position_ms == if loads {
            0u32
        } else {
            s1.position_ms
        }
        &&& s2.position_measured_at == if loads {
            now
        } else {
            s1.position_measured_at
        }
        &&& post.seq_nr == pre.seq_nr + base + 1
        &&& acts.len() == 2 * base + (if loads {
            1int
        } else {
            0int
        }) + 1
        &&& (loads ==> acts[acts.len() - 2] == Action::PlayerLoad(ids[idx as int]))
        &&& (acts.last() matches Action::SendFrame(f) && is_notify_frame(
            f,
            s2,
            me,
            (pre.seq_nr + base + 1) as u32,
            None,
        ))
    })
}

/// Everything one player event does to the orchestrator. A track that
/// ends advances the index with wraparound and loads the next track; a
/// position report is purely local bookkeeping.
pub open spec fn player_event_rel(
    pre: SpircManager,
    post: SpircManager,
    event: PlayerEvent,
    now: u64,
    acts: Seq<Action>,
) -> bool {
    let s0 = pre.state;
    &&& post.ident == pre.ident
    &&& post.connected == pre.connected
    &&& post.state.wf()
    &&& (event matches PlayerEvent::PositionUpdate { position_ms } ==> {
        &&& post.state == SpircState { position_ms, position_measured_at: now, ..s0 }
        &&& post.seq_nr == pre.seq_nr
        &&& acts.len() == 0
    })
    &&& (event is TrackEnded && s0.tracks@.len() == 0 ==> post == pre && acts.len() == 0)
    &&& (event is TrackEnded && s0.tracks@.len() > 0 ==> {
        let next = ((s0.index + 1) % (s0.tracks@.len() as int)) as u32;
        &&& post.state == SpircState {
            index: next,
            update_id: now as i64,
            position_ms: 0u32,
            position_measured_at: now,
            ..s0
        }
        &&& post.seq_nr == pre.seq_nr + 1
        &&& acts.len() == (if pre.connected {
            2int
        } else {
            1int
        })
        &&& acts[0] == Action::PlayerLoad(s0.tracks@[next as int])
        &&& (pre.connected ==> (acts[1] matches Action::SendFrame(f) && is_notify_frame(
            f,
            post.state,
            pre.ident@,
            (pre.seq_nr + 1) as u32,
            None,
        )))
    })
}

/// Everything a connection event does: the subscription and publisher are
/// (re)established and exactly one broadcast Hello goes out.
pub open spec fn connect_rel(
    pre: SpircManager,
    post: SpircManager,
    acts: Seq<Action>,
) -> bool {
    &&& post.ident == pre.ident
    &&& post.connected == true
    &&& post.state == pre.state
    &&& post.seq_nr == pre.seq_nr + 1
    &&& acts.len() == 1
    &&& (acts[0] matches Action::SendFrame(f) && is_hello_frame(
        f,
        pre.state,
        pre.ident@,
        (pre.seq_nr + 1) as u32,
    ))
}

impl SpircManager {
    /// A fresh orchestrator for one endpoint: identity fixed, counter at
    /// zero, not yet connected, state at its defaults.
    pub fn new(ident: String, name: String) -> (m: SpircManager)
        ensures
            m.ident@ == ident@,
            m.seq_nr == 0u32,
            m.connected == false,
            m.state.is_initial(name@),
            m.state.wf(),
    {
        SpircManager { ident, seq_nr: 0, connected: false, state: SpircState::new(name) }
    }

    /// Inbound filtering: our own envelopes and envelopes addressed past
    /// us are never dispatched.
    pub fn should_dispatch(&self, frame: &Frame) -> (r: bool)
        ensures
            r == dispatchable(*frame, self.ident@),
    {
        if frame.ident == self.ident {
            return false;
        }
        if frame.recipient.len() == 0 {
            return true;
        }
        let n: usize = frame.recipient.len();
        let mut i: usize = 0;
        while i < n
            invariant
                i <= n,
                n == frame.recipient@.len(),
                n > 0,
                frame.ident@ != self.ident@,
                forall|j: int| 0 <= j < i ==> frame.recipient@[j]@ != self.ident@,
            decreases n - i,
        {
            if frame.recipient[i] == self.ident {
                proof {
                    assert(frame.recipient@[i as int]@ == self.ident@);
                }
                return true;
            }
            i += 1;
        }
        false
    }

    /// The next send counter value; consecutive sends get consecutive
    /// values, never reused.
    pub fn next_seq(&mut self) -> (r: u32)
        requires
            old(self).seq_nr < u32::MAX,
        ensures
            r == old(self).seq_nr + 1,
            *final(self) == (SpircManager { seq_nr: r, ..*old(self) }),
    {
        self.seq_nr = self.seq_nr + 1;
        self.seq_nr
    }

    /// The descriptor this endpoint attaches to every outbound envelope.
    pub fn device_state(&self) -> (d: DeviceState)
        ensures
            device_matches(d, self.state),
    {
        let mut caps: Vec<Capability> = Vec::new();
        caps.push(int_capability(CapabilityType::CanBePlayer, 0));
        caps.push(int_capability(CapabilityType::DeviceType, 1));
        caps.push(int_capability(CapabilityType::GaiaEqConnectId, 1));
        caps.push(int_capability(CapabilityType::SupportsLogout, 1));
        caps.push(int_capability(CapabilityType::SupportsRename, 1));
        caps.push(int_capability(CapabilityType::IsObservable, 1));
        caps.push(int_capability(CapabilityType::VolumeSteps, 10));
        caps.push(Capability {
            typ: CapabilityType::SupportedContexts,
            int_value: Vec::new(),
            string_value: Vec::new(),
        });
        let mut types: Vec<String> = Vec::new();
        types.push(String::from_str("audio/local"));
        types.push(String::from_str("audio/track"));
        types.push(String::from_str("local"));
        types.push(String::from_str("track"));
        caps.push(Capability {
            typ: CapabilityType::SupportedTypes,
            int_value: Vec::new(),
            string_value: types,
        });
        DeviceState {
            sw_version: String::from_str("librespot-v0.2"),
            name: self.state.name.clone(),
            is_active: self.state.is_active,
            became_active_at: self.state.became_active_at,
            can_play: true,
            error_code: 0,
            volume: self.state.volume as u32,
            capabilities: caps,
        }
    }

    /// The wire snapshot of the local playback state.
    pub fn player_state(&self) -> (p: State)
        ensures
            snapshot_matches(p, self.state),
    {
        let n: usize = self.state.tracks.len();
        let mut track: Vec<TrackRef> = Vec::new();
        let mut i: usize = 0;
        while i < n
            invariant
                i <= n,
                n == self.state.tracks@.len(),
                track@.len() == i,
                forall|j: int|
                    0 <= j < i ==> (#[trigger] track@[j]).gid == Some(self.state.tracks@[j]),
            decreases n - i,
        {
            track.push(TrackRef { gid: Some(self.state.tracks[i]) });
            i += 1;
        }
        State {
            status: self.state.status,
            position_ms: self.state.position_ms,
            position_measured_at: self.state.position_measured_at,
            playing_track_index: self.state.index,
            track,
            playing_from_fallback: true,
        }
    }

    /// Explicit envelope construction: stamps this endpoint's identity,
    /// the next send counter value and a fresh descriptor, and attaches
    /// the optional recipient and snapshot. Building an envelope never
    /// touches the playback state.
    pub fn command(
        &mut self,
        kind: MessageType,
        recipient: Option<String>,
        attach: Option<(State, i64)>,
    ) -> (f: Frame)
        requires
            old(self).seq_nr < u32::MAX,
        ensures
            *final(self) == (SpircManager { seq_nr: (old(self).seq_nr + 1) as u32, ..*old(self) }),
            f.typ == kind,
            f.ident@ == old(self).ident@,
            f.seq_nr == old(self).seq_nr + 1,
            match recipient {
                None => f.recipient@.len() == 0,
                Some(r) => f.recipient@.len() == 1 && f.recipient@[0]@ == r@,
            },
            match attach {
                None => f.state is None && f.state_update_id == 0i64,
                Some((st, u)) => f.state == Some(st) && f.state_update_id == u,
            },
            device_matches(f.device_state, old(self).state),
            f.volume == 0u32,
    {
        let seq = self.next_seq();
        let device_state = self.device_state();
        let mut recipients: Vec<String> = Vec::new();
        match recipient {
            Some(r) => recipients.push(r),
            None => (),
        }
        let mut state_update_id: i64 = 0;
        let mut state: Option<State> = None;
        match attach {
            Some((st, u)) => {
                state = Some(st);
                state_update_id = u;
            },
            None => (),
        }
        Frame {
            typ: kind,
            ident: self.ident.clone(),
            recipient: recipients,
            seq_nr: seq,
            state_update_id,
            volume: 0,
            device_state,
            state,
        }
    }

    /// Hand an envelope to the shell for publication. Without an
    /// established publisher the envelope is dropped, not buffered; the
    /// shell is expected to log the drop.
    pub fn send_frame(&self, frame: Frame) -> (r: Option<Frame>)
        ensures
            self.connected ==> r == Some(frame),
            !self.connected ==> r is None,
    {
        if self.connected {
            Some(frame)
        } else {
            None
        }
    }

    /// Build a Notify carrying a fresh snapshot and the current clock,
    /// broadcast (`None`) or unicast (`Some`), and hand it to the shell.
    /// The send counter is consumed whether or not the envelope can go
    /// out.
    pub fn notify(&mut self, recipient: Option<String>) -> (r: Option<Frame>)
        requires
            old(self).seq_nr < u32::MAX,
        ensures
            *final(self) == (SpircManager { seq_nr: (old(self).seq_nr + 1) as u32, ..*old(self) }),
            old(self).connected ==> (r matches Some(f) && is_notify_frame(
                f,
                old(self).state,
                old(self).ident@,
                (old(self).seq_nr + 1) as u32,
                recipient_view(recipient),
            )),
            !old(self).connected ==> r is None,
    {
        let state = self.player_state();
        let update_id = self.state.update_id;
        let f = self.command(MessageType::Notify, recipient, Some((state, update_id)));
        self.send_frame(f)
    }

    /// A connection-lifecycle event: replace any prior subscription and
    /// publisher and introduce ourselves with a broadcast Hello. The
    /// shell derives the topic from the username and opens the channel;
    /// here the handles are only recorded as established.
    pub fn handle_connection(&mut self) -> (acts: Vec<Action>)
        requires
            old(self).seq_nr < u32::MAX,
        ensures
            connect_rel(*old(self), *final(self), acts@),
    {
        self.connected = true;
        let f = self.command(MessageType::Hello, None, None);
        let mut acts: Vec<Action> = Vec::new();
        match self.send_frame(f) {
            Some(f) => acts.push(Action::SendFrame(f)),
            None => (),
        }
        acts
    }

    /// Dispatch one envelope that survived inbound filtering: merge the
    /// clock, arbitrate the active role, then handle the kind.
    pub fn process_frame(&mut self, frame: &Frame, now: u64) -> (acts: Vec<Action>)
        requires
            old(self).connected,
            old(self).state.wf(),
            old(self).seq_nr <= u32::MAX - 2,
            now <= i64::MAX as u64,
            attached_tracks(*frame).len() <= u32::MAX,
        ensures
            process_frame_rel(*old(self), *final(self), *frame, now, acts@),
    {
        let mut acts: Vec<Action> = Vec::new();

        if frame.state_update_id > self.state.update_id {
            self.state.update_id = frame.state_update_id;
        }

        if frame.device_state.is_active && self.state.is_active
            && frame.device_state.became_active_at > self.state.became_active_at {
            self.state.is_active = false;
            self.state.status = PlayStatus::Stopped;
            acts.push(Action::PlayerStop);
            match self.notify(None) {
                Some(f) => acts.push(Action::SendFrame(f)),
                None => (),
            }
        }

        match frame.typ {
            MessageType::Hello => {
                let sender = frame.ident.clone();
                match self.notify(Some(sender)) {
                    Some(f) => acts.push(Action::SendFrame(f)),
                    None => (),
                }
            },
            MessageType::VolumeSet => {
                self.state.volume = #[verifier::truncate] (frame.volume as u16);
                match self.notify(None) {
                    Some(f) => acts.push(Action::SendFrame(f)),
                    None => (),
                }
            },
            MessageType::Load => {
                self.state.update_id = now as i64;
                if !self.state.is_active {
                    self.state.is_active = true;
                    self.state.became_active_at = now as i64;
                }
                match &frame.state {
                    Some(st) => self.state.load_tracks(st),
                    None => {
                        // An absent snapshot reads as the empty one.
                        self.state.index = 0;
                        self.state.tracks = Vec::new();
                    },
                }
                let track_index = self.state.index as usize;
                if track_index < self.state.tracks.len() {
                    let track_id = self.state.tracks[track_index];
                    acts.push(Action::PlayerLoad(track_id));
                    self.state.status = PlayStatus::Playing;
                    self.state.position_ms = 0;
                    self.state.position_measured_at = now;
                }
                match self.notify(None) {
                    Some(f) => acts.push(Action::SendFrame(f)),
                    None => (),
                }
            },
            _ => (),
        }
        acts
    }

    /// One player event: advance past an ended track (wrapping around a
    /// non-empty list; an empty list is guarded and leaves everything as
    /// is), or record a position sample.
    pub fn handle_player_event(&mut self, event: &PlayerEvent, now: u64) -> (acts: Vec<Action>)
        requires
            old(self).state.wf(),
            old(self).seq_nr < u32::MAX,
            now <= i64::MAX as u64,
        ensures
            player_event_rel(*old(self), *final(self), *event, now, acts@),
    {
        match event {
            PlayerEvent::TrackEnded => {
                let len: usize = self.state.tracks.len();
                if len == 0 {
                    return Vec::new();
                }
                let next64: u64 = ((self.state.index as u64) + 1) % (len as u64);
                let next: u32 = next64 as u32;
                self.state.index = next;
                let track_id = self.state.tracks[next as usize];
                let mut acts: Vec<Action> = Vec::new();
                acts.push(Action::PlayerLoad(track_id));
                self.state.update_id = now as i64;
                self.state.position_ms = 0;
                self.state.position_measured_at = now;
                match self.notify(None) {
                    Some(f) => acts.push(Action::SendFrame(f)),
                    None => (),
                }
                acts
            },
            PlayerEvent::PositionUpdate { position_ms } => {
                self.state.position_ms = *position_ms;
                self.state.position_measured_at = now;
                Vec::new()
            },
        }
    }

    /// The single transition function of the session: one event from any
    /// of the four sources, one list of actions back. An envelope that
    /// fails inbound filtering changes nothing and answers nothing.
    pub fn handle_event(&mut self, event: Event, now: u64) -> (acts: Vec<Action>)
        requires
            old(self).state.wf(),
            old(self).seq_nr <= u32::MAX - 2,
            now <= i64::MAX as u64,
            event matches Event::Inbound { frame } ==> old(self).connected && attached_tracks(
                frame,
            ).len() <= u32::MAX,
        ensures
            final(self).state.wf(),
            final(self).ident == old(self).ident,
            event is Connected ==> connect_rel(*old(self), *final(self), acts@),
            event matches Event::Inbound { frame } ==> if dispatchable(frame, old(self).ident@) {
                process_frame_rel(*old(self), *final(self), frame, now, acts@)
            } else {
                *final(self) == *old(self) && acts@.len() == 0
            },
            event is SendCompleted ==> *final(self) == *old(self) && acts@.len() == 0,
            event matches Event::Player { event: pe } ==> player_event_rel(
                *old(self),
                *final(self),
                pe,
                now,
                acts@,
            ),
    {
        match event {
            Event::Connected { username: _ } => self.handle_connection(),
            Event::Inbound { frame } => {
                if self.should_dispatch(&frame) {
                    self.process_frame(&frame, now)
                } else {
                    Vec::new()
                }
            },
            Event::SendCompleted => Vec::new(),
            Event::Player { event: pe } => self.handle_player_event(&pe, now),
        }
    }
}

/// A capability entry carrying one integer value.
fn int_capability(typ: CapabilityType, value: i64) -> (c: Capability)
    ensures
        cap_is_int(c, typ, value),
{
    let mut int_value: Vec<i64> = Vec::new();
    int_value.push(value);
    proof {
        assert(int_value@ =~= seq![value]);
    }
    Capability { typ, int_value, string_value: Vec::new() }
}

} // verus!
