//! The local playback state: one endpoint's mutable view of the shared
//! session, owned exclusively by its orchestrator.

use vstd::prelude::*;
use crate::protocol::{PlayStatus, SpotifyId, State, TrackRef};

verus! {

/// The identifiers of the track references that carry one, in order.
/// References without an identifier are discarded.
pub open spec fn valid_gids(tracks: Seq<TrackRef>) -> Seq<SpotifyId>
    decreases tracks.len(),
{
    if tracks.len() == 0 {
        Seq::empty()
    } else {
        let rest = valid_gids(tracks.drop_last());
        match tracks.last().gid {
            Some(id) => rest.push(id),
            None => rest,
        }
    }
}

/// Discarding can only shorten the list.
pub proof fn lemma_valid_gids_len(tracks: Seq<TrackRef>)
    ensures
        valid_gids(tracks).len() <= tracks.len(),
    decreases tracks.len(),
{
    if tracks.len() > 0 {
        lemma_valid_gids_len(tracks.drop_last());
    }
}

/// One endpoint's local playback state.
#[derive(Clone, Debug)]
pub struct SpircState {
    pub name: String,
    pub volume: u16,
    pub is_active: bool,
    pub became_active_at: i64,
    pub status: PlayStatus,
    pub index: u32,
    pub tracks: Vec<SpotifyId>,
    pub update_id: i64,
    pub position_ms: u32,
    pub position_measured_at: u64,
}

impl SpircState {
    /// The track list always fits the 32-bit index space the wire uses.
    pub open spec fn wf(self) -> bool {
        self.tracks@.len() <= u32::MAX
    }

    /// The state a fresh endpoint starts from: full volume, inactive,
    /// stopped, empty track list, clock at zero.
    pub open spec fn is_initial(self, name: Seq<char>) -> bool {
        &&& self.name@ == name
        &&& self.volume == 0xFFFFu16
        &&& self.is_active == false
        &&& self.became_active_at == 0i64
        &&& self.status == PlayStatus::Stopped
        &&& self.index == 0u32
        &&& self.tracks@ == Seq::<SpotifyId>::empty()
        &&& self.update_id == 0i64
        &&& self.position_ms == 0u32
        &&& self.position_measured_at == 0u64
    }

    pub fn new(name: String) -> (s: SpircState)
        ensures
            s.is_initial(name@),
            s.wf(),
    {
        SpircState {
            name,
            volume: 0xFFFF,
            is_active: false,
            became_active_at: 0,
            status: PlayStatus::Stopped,
            index: 0,
            tracks: Vec::new(),
            update_id: 0,
            position_ms: 0,
            position_measured_at: 0,
        }
    }

    /// Replace the track list and current index from an attached snapshot,
    /// keeping exactly the references that carry an identifier.
    pub fn load_tracks(&mut self, state: &State)
        requires
            state.track@.len() <= u32::MAX,
        ensures
            final(self).index == state.playing_track_index,
            final(self).tracks@ == valid_gids(state.track@),
            final(self).wf(),
            *final(self) == (SpircState {
                index: final(self).index,
                tracks: final(self).tracks,
                ..*old(self)
            }),
    {
        self.index = state.playing_track_index;
        let n: usize = state.track.len();
        let mut ids: Vec<SpotifyId> = Vec::new();
        let mut i: usize = 0;
        while i < n
            invariant
                i <= n,
                n == state.track@.len(),
                ids@ == valid_gids(state.track@.take(i as int)),
            decreases n - i,
        {
            proof {
                assert(state.track@.take(i + 1).drop_last() =~= state.track@.take(i as int));
                assert(state.track@.take(i + 1).last() == state.track@[i as int]);
            }
            match state.track[i].gid {
                Some(id) => ids.push(id),
                None => (),
            }
            i += 1;
        }
        proof {
            assert(state.track@.take(n as int) =~= state.track@);
            lemma_valid_gids_len(state.track@);
        }
        self.tracks = ids;
    }
}

} // verus!
