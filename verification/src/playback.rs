//! What is playing: the track, the play state, and how each announcement
//! from the player changes them.

use vstd::prelude::*;

verus! {

/// One track as the player announces it.
#[derive(Debug, PartialEq, Eq)]
pub struct TrackInfo {
    pub title: String,
    pub artist: String,
    pub album: String,
    pub album_art_url: Option<String>,
}

/// The mathematical value of a [`TrackInfo`].
pub struct TrackModel {
    pub title: Seq<char>,
    pub artist: Seq<char>,
    pub album: Seq<char>,
    pub album_art_url: Option<Seq<char>>,
}

/// The text of an optional string.
pub open spec fn text_of(s: Option<String>) -> Option<Seq<char>> {
    match s {
        Some(s) => Some(s@),
        None => None,
    }
}

impl View for TrackInfo {
    type V = TrackModel;

    open spec fn view(&self) -> TrackModel {
        TrackModel {
            title: self.title@,
            artist: self.artist@,
            album: self.album@,
            album_art_url: text_of(self.album_art_url),
        }
    }
}

impl Clone for TrackInfo {
    fn clone(&self) -> (copy: Self)
        ensures
            copy == *self,
    {
        let album_art_url = match &self.album_art_url {
            Some(url) => Some(url.clone()),
            None => None,
        };
        TrackInfo {
            title: self.title.clone(),
            artist: self.artist.clone(),
            album: self.album.clone(),
            album_art_url,
        }
    }
}

/// The state that every subscriber is shown.
#[derive(Debug, PartialEq, Eq)]
pub struct PlaybackState {
    pub track: Option<TrackInfo>,
    pub is_playing: bool,
}

/// The mathematical value of a [`PlaybackState`].
pub struct PlaybackModel {
    pub track: Option<TrackModel>,
    pub is_playing: bool,
}

/// The value of an optional track.
pub open spec fn track_of(t: Option<TrackInfo>) -> Option<TrackModel> {
    match t {
        Some(t) => Some(t@),
        None => None,
    }
}

impl View for PlaybackState {
    type V = PlaybackModel;

    open spec fn view(&self) -> PlaybackModel {
        PlaybackModel { track: track_of(self.track), is_playing: self.is_playing }
    }
}

/// A message of the player that carries state.
#[derive(Debug, PartialEq, Eq)]
pub enum Message {
    PlayState(bool),
    Track(TrackInfo),
}

/// The mathematical value of an [`Update`].
pub enum UpdateModel {
    PlayState(bool),
    Track(TrackModel),
    Disconnected,
}

/// One change of the state: a message of the player, or the loss of the
/// connection to it.
#[derive(Debug, PartialEq, Eq)]
pub enum Update {
    PlayState(bool),
    Track(TrackInfo),
    Disconnected,
}

impl View for Update {
    type V = UpdateModel;

    open spec fn view(&self) -> UpdateModel {
        match *self {
            Update::PlayState(playing) => UpdateModel::PlayState(playing),
            Update::Track(track) => UpdateModel::Track(track@),
            Update::Disconnected => UpdateModel::Disconnected,
        }
    }
}

impl View for Message {
    type V = UpdateModel;

    open spec fn view(&self) -> UpdateModel {
        match *self {
            Message::PlayState(playing) => UpdateModel::PlayState(playing),
            Message::Track(track) => UpdateModel::Track(track@),
        }
    }
}

impl Message {
    /// The update that this message stands for.
    pub fn into_update(self) -> (update: Update)
        ensures
            update@ == self@,
    {
        match self {
            Message::PlayState(playing) => Update::PlayState(playing),
            Message::Track(track) => Update::Track(track),
        }
    }
}

/// The state before anything was heard from the player, and after the
/// connection to it was lost: nothing plays and no track is known.
pub open spec fn silent() -> PlaybackModel {
    PlaybackModel { track: None, is_playing: false }
}

/// The state after one update. A play state leaves the track alone, a track
/// leaves the play state alone, and a lost connection resets both.
pub open spec fn state_after(state: PlaybackModel, update: UpdateModel) -> PlaybackModel {
    match update {
        UpdateModel::PlayState(playing) => PlaybackModel { track: state.track, is_playing: playing },
        UpdateModel::Track(track) => PlaybackModel {
            track: Some(track),
            is_playing: state.is_playing,
        },
        UpdateModel::Disconnected => silent(),
    }
}

/// The state after a run of updates, oldest first.
pub open spec fn state_after_all(state: PlaybackModel, updates: Seq<UpdateModel>) -> PlaybackModel
    decreases updates.len(),
{
    if updates.len() == 0 {
        state
    } else {
        state_after(state_after_all(state, updates.drop_last()), updates.last())
    }
}

/// Whether an update sets the play state.
pub open spec fn sets_play_state(update: UpdateModel) -> bool {
    !(update is Track)
}

/// Whether an update sets the track.
pub open spec fn sets_track(update: UpdateModel) -> bool {
    !(update is PlayState)
}

impl PlaybackState {
    /// The state of a client that has heard nothing yet.
    pub fn new() -> (state: PlaybackState)
        ensures
            state@ == silent(),
    {
        PlaybackState { track: None, is_playing: false }
    }

    /// Takes one update into the state.
    pub fn apply(&mut self, update: Update)
        ensures
            final(self)@ == state_after(old(self)@, update@),
    {
        match update {
            Update::PlayState(playing) => {
                self.is_playing = playing;
            },
            Update::Track(track) => {
                self.track = Some(track);
            },
            Update::Disconnected => {
                self.track = None;
                self.is_playing = false;
            },
        }
    }

    /// The address of the current track's album art, if it has one.
    pub fn album_art_url(&self) -> (url: Option<&String>)
        ensures
            text_of_ref(url) == art_url_of(self@),
    {
        match &self.track {
            Some(track) => match &track.album_art_url {
                Some(url) => Some(url),
                None => None,
            },
            None => None,
        }
    }
}

impl Clone for PlaybackState {
    fn clone(&self) -> (copy: Self)
        ensures
            copy == *self,
    {
        let track = match &self.track {
            Some(track) => Some(track.clone()),
            None => None,
        };
        PlaybackState { track, is_playing: self.is_playing }
    }
}

/// The text of an optional borrowed string.
pub open spec fn text_of_ref(s: Option<&String>) -> Option<Seq<char>> {
    match s {
        Some(s) => Some(s@),
        None => None,
    }
}

/// The album art address of a state: that of its track, if there is a track
/// and it has one.
pub open spec fn art_url_of(state: PlaybackModel) -> Option<Seq<char>> {
    match state.track {
        Some(track) => track.album_art_url,
        None => None,
    }
}

/// The play state after a run of updates is the one that the last update
/// which sets it carries (a lost connection carries "not playing"); where no
/// update of the run sets it, it is what it was before.
pub proof fn lemma_play_state_is_latest(state: PlaybackModel, updates: Seq<UpdateModel>)
    ensures
        forall|i: int|
            0 <= i < updates.len() && sets_play_state(#[trigger] updates[i]) && (forall|j: int|
                i < j < updates.len() ==> !sets_play_state(#[trigger] updates[j]))
                ==> state_after_all(state, updates).is_playing == state_after(
                state,
                updates[i],
            ).is_playing,
        (forall|j: int| 0 <= j < updates.len() ==> !sets_play_state(#[trigger] updates[j]))
            ==> state_after_all(state, updates).is_playing == state.is_playing,
    decreases updates.len(),
{
    if updates.len() > 0 {
        let earlier = updates.drop_last();
        lemma_play_state_is_latest(state, earlier);
        assert forall|i: int|
            0 <= i < updates.len() && sets_play_state(#[trigger] updates[i]) && (forall|j: int|
                i < j < updates.len() ==> !sets_play_state(
                    #[trigger] updates[j],
                )) implies state_after_all(state, updates).is_playing == state_after(
            state,
            updates[i],
        ).is_playing by {
            if i < updates.len() - 1 {
                assert(!sets_play_state(updates[updates.len() - 1]));
                assert(earlier[i] == updates[i]);
                assert forall|j: int| i < j < earlier.len() implies !sets_play_state(
                    #[trigger] earlier[j],
                ) by {
                    assert(earlier[j] == updates[j]);
                }
            }
        }
        if forall|j: int| 0 <= j < updates.len() ==> !sets_play_state(#[trigger] updates[j]) {
            assert(!sets_play_state(updates[updates.len() - 1]));
            assert forall|j: int| 0 <= j < earlier.len() implies !sets_play_state(
                #[trigger] earlier[j],
            ) by {
                assert(earlier[j] == updates[j]);
            }
        }
    }
}

/// The track after a run of updates is the one that the last update which
/// sets it carries (a lost connection carries none); where no update of the
/// run sets it, it is what it was before.
pub proof fn lemma_track_is_latest(state: PlaybackModel, updates: Seq<UpdateModel>)
    ensures
        forall|i: int|
            0 <= i < updates.len() && sets_track(#[trigger] updates[i]) && (forall|j: int|
                i < j < updates.len() ==> !sets_track(#[trigger] updates[j]))
                ==> state_after_all(state, updates).track == state_after(state, updates[i]).track,
        (forall|j: int| 0 <= j < updates.len() ==> !sets_track(#[trigger] updates[j]))
            ==> state_after_all(state, updates).track == state.track,
    decreases updates.len(),
{
    if updates.len() > 0 {
        let earlier = updates.drop_last();
        lemma_track_is_latest(state, earlier);
        assert forall|i: int|
            0 <= i < updates.len() && sets_track(#[trigger] updates[i]) && (forall|j: int|
                i < j < updates.len() ==> !sets_track(
                    #[trigger] updates[j],
                )) implies state_after_all(state, updates).track == state_after(
            state,
            updates[i],
        ).track by {
            if i < updates.len() - 1 {
                assert(!sets_track(updates[updates.len() - 1]));
                assert(earlier[i] == updates[i]);
                assert forall|j: int| i < j < earlier.len() implies !sets_track(
                    #[trigger] earlier[j],
                ) by {
                    assert(earlier[j] == updates[j]);
                }
            }
        }
        if forall|j: int| 0 <= j < updates.len() ==> !sets_track(#[trigger] updates[j]) {
            assert(!sets_track(updates[updates.len() - 1]));
            assert forall|j: int| 0 <= j < earlier.len() implies !sets_track(
                #[trigger] earlier[j],
            ) by {
                assert(earlier[j] == updates[j]);
            }
        }
    }
}

} // verus!
