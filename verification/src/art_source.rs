//! The album art overlay: which announcements make it fetch art, and what
//! it shows.

use crate::art::ArtError;
use crate::playback::{art_url_of, PlaybackState};
use crate::raster::Raster;
use crate::texture::Texture;
use vstd::prelude::*;

verus! {

/// What an announcement asks of the overlay's art.
#[derive(Debug, PartialEq, Eq)]
pub enum ArtAction {
    /// The track has no art: show none.
    Clear,
    /// The art's address is the one of the announcement before: keep what
    /// is shown, and fetch nothing.
    Keep,
    /// The art has a new address: fetch it from there.
    Fetch(String),
}

/// The mathematical value of an [`ArtAction`].
pub enum ArtActionModel {
    Clear,
    Keep,
    Fetch(Seq<char>),
}

impl View for ArtAction {
    type V = ArtActionModel;

    open spec fn view(&self) -> ArtActionModel {
        match *self {
            ArtAction::Clear => ArtActionModel::Clear,
            ArtAction::Keep => ArtActionModel::Keep,
            ArtAction::Fetch(address) => ArtActionModel::Fetch(address@),
        }
    }
}

/// What is asked of the art when the address `current` is announced after
/// the address `last`.
pub open spec fn action_for(last: Option<Seq<char>>, current: Option<Seq<char>>) -> ArtActionModel {
    match current {
        None => ArtActionModel::Clear,
        Some(address) => if last == Some(address) {
            ArtActionModel::Keep
        } else {
            ArtActionModel::Fetch(address)
        },
    }
}

/// How many fetches a run of announced addresses asks for, oldest first,
/// when the address `last` was announced before them.
pub open spec fn fetches(last: Option<Seq<char>>, addresses: Seq<Option<Seq<char>>>) -> nat
    decreases addresses.len(),
{
    if addresses.len() == 0 {
        0
    } else {
        let first: nat = if action_for(last, addresses[0]) is Fetch {
            1
        } else {
            0
        };
        first + fetches(addresses[0], addresses.drop_first())
    }
}

/// The address of the art that was announced last: what the overlay
/// remembers so as not to fetch the same art twice.
#[derive(Debug, PartialEq, Eq)]
pub struct ArtTracker {
    last: Option<String>,
}

impl View for ArtTracker {
    type V = Option<Seq<char>>;

    closed spec fn view(&self) -> Option<Seq<char>> {
        crate::playback::text_of(self.last)
    }
}

impl ArtTracker {
    /// The tracker of an overlay that has heard no announcement yet.
    pub fn new() -> (tracker: ArtTracker)
        ensures
            tracker@.is_none(),
    {
        ArtTracker { last: None }
    }

    /// Takes the announcement of an address and says what it asks for. The
    /// address is remembered whatever becomes of the fetch.
    pub fn announce(&mut self, current: Option<&String>) -> (action: ArtAction)
        ensures
            action@ == action_for(old(self)@, crate::playback::text_of_ref(current)),
            final(self)@ == crate::playback::text_of_ref(current),
    {
        match current {
            None => {
                self.last = None;
                ArtAction::Clear
            },
            Some(address) => {
                let same = match &self.last {
                    Some(last) => *last == *address,
                    None => false,
                };
                if same {
                    ArtAction::Keep
                } else {
                    self.last = Some(address.clone());
                    ArtAction::Fetch(address.clone())
                }
            },
        }
    }

    /// Takes the announcement of a state: that of the address of its
    /// track's art.
    pub fn observe(&mut self, state: &PlaybackState) -> (action: ArtAction)
        ensures
            action@ == action_for(old(self)@, art_url_of(state@)),
            final(self)@ == art_url_of(state@),
    {
        self.announce(state.album_art_url())
    }
}

/// What becomes of the texture that the overlay shows.
#[derive(Debug, PartialEq, Eq)]
pub enum ArtChange {
    /// It stays.
    Keep,
    /// It goes, and none is shown.
    Clear,
    /// This one takes its place.
    Show(Texture),
}

/// What is to become of the shown texture, before the new texture is made:
/// the worker knows the image, and only the render thread can make the
/// texture of it.
#[derive(Debug, PartialEq, Eq)]
pub enum ArtStep {
    /// It stays.
    Keep,
    /// It goes, and none is shown.
    Clear,
    /// The texture of this image takes its place.
    Show(Raster),
}

impl ArtStep {
    /// The step that an announcement asks for at once, if it asks for no
    /// fetch; an announcement that asks for a fetch is settled only by the
    /// fetch's outcome.
    pub fn settled(action: &ArtAction) -> (step: Option<ArtStep>)
        ensures
            step == (match *action {
                ArtAction::Clear => Some(ArtStep::Clear),
                ArtAction::Keep => Some(ArtStep::Keep),
                ArtAction::Fetch(_) => None,
            }),
    {
        match action {
            ArtAction::Clear => Some(ArtStep::Clear),
            ArtAction::Keep => Some(ArtStep::Keep),
            ArtAction::Fetch(_) => None,
        }
    }

    /// The step that the outcome of a fetch asks for: the image is shown,
    /// and a failed fetch leaves none to show.
    pub fn after_fetch(outcome: Result<Raster, ArtError>) -> (step: ArtStep)
        ensures
            step == (match outcome {
                Ok(image) => ArtStep::Show(image),
                Err(_) => ArtStep::Clear,
            }),
    {
        match outcome {
            Ok(image) => ArtStep::Show(image),
            Err(_) => ArtStep::Clear,
        }
    }

    /// Turns the step into the change of texture, on the render thread:
    /// where an image is to be shown, `create` is called once to make the
    /// texture of it; otherwise it is not called.
    pub fn realize<F>(self, create: F) -> (change: ArtChange) where F: FnOnce(&Raster) -> Texture
        requires
            self matches ArtStep::Show(image) ==> call_requires(create, (&image,)),
        ensures
            match self {
                ArtStep::Keep => change == ArtChange::Keep,
                ArtStep::Clear => change == ArtChange::Clear,
                ArtStep::Show(image) => change matches ArtChange::Show(texture) && call_ensures(
                    create,
                    (&image,),
                    texture,
                ),
            },
    {
        match self {
            ArtStep::Keep => ArtChange::Keep,
            ArtStep::Clear => ArtChange::Clear,
            ArtStep::Show(image) => ArtChange::Show(create(&image)),
        }
    }
}

/// What the overlay shows. Only the render thread touches it.
#[derive(Debug, PartialEq, Eq)]
pub struct ArtData {
    pub is_playing: bool,
    pub texture: Option<Texture>,
}

/// The texture that is shown after a change.
pub open spec fn texture_after(texture: Option<Texture>, change: ArtChange) -> Option<Texture> {
    match change {
        ArtChange::Keep => texture,
        ArtChange::Clear => None,
        ArtChange::Show(new) => Some(new),
    }
}

/// The texture that a change puts out of use.
pub open spec fn texture_retired(texture: Option<Texture>, change: ArtChange) -> Option<Texture> {
    match change {
        ArtChange::Keep => None,
        _ => texture,
    }
}

/// The width or height that the host is told: that of the texture, and 1
/// where there is none, because the host does not take an overlay without
/// extent.
pub open spec fn extent(side: Option<u32>) -> u32 {
    match side {
        Some(pixels) => pixels,
        None => 1,
    }
}

/// The width of a texture, if there is one.
pub open spec fn texture_width(texture: Option<Texture>) -> Option<u32> {
    match texture {
        Some(texture) => Some(texture.width()),
        None => None,
    }
}

/// The height of a texture, if there is one.
pub open spec fn texture_height(texture: Option<Texture>) -> Option<u32> {
    match texture {
        Some(texture) => Some(texture.height()),
        None => None,
    }
}

impl ArtData {
    /// What an overlay shows before it has heard anything: nothing.
    pub fn new() -> (data: ArtData)
        ensures
            data == (ArtData { is_playing: false, texture: None }),
    {
        ArtData { is_playing: false, texture: None }
    }

    /// Takes the play state and a change of texture, and hands back the
    /// texture that is put out of use, for the caller to destroy.
    pub fn apply(&mut self, is_playing: bool, change: ArtChange) -> (retired: Option<Texture>)
        ensures
            final(self).is_playing == is_playing,
            final(self).texture == texture_after(old(self).texture, change),
            retired == texture_retired(old(self).texture, change),
    {
        self.is_playing = is_playing;
        match change {
            ArtChange::Keep => None,
            ArtChange::Clear => self.texture.take(),
            ArtChange::Show(texture) => {
                let retired = self.texture.take();
                self.texture = Some(texture);
                retired
            },
        }
    }

    /// The width that the host is told.
    pub fn get_width(&self) -> (width: u32)
        ensures
            width == extent(texture_width(self.texture)),
    {
        match &self.texture {
            Some(texture) => texture.width(),
            None => 1,
        }
    }

    /// The height that the host is told.
    pub fn get_height(&self) -> (height: u32)
        ensures
            height == extent(texture_height(self.texture)),
    {
        match &self.texture {
            Some(texture) => texture.height(),
            None => 1,
        }
    }

    /// The texture to draw in this frame: the one that is shown, while
    /// something plays.
    pub fn video_render(&self) -> (drawn: Option<&Texture>)
        ensures
            drawn.is_some() <==> self.is_playing && self.texture.is_some(),
            drawn matches Some(texture) ==> self.texture == Some(*texture),
    {
        if self.is_playing {
            match &self.texture {
                Some(texture) => Some(texture),
                None => None,
            }
        } else {
            None
        }
    }

    /// The width that the host is told of a source: that of what it
    /// shows, and 1 for a source that has nothing to show from.
    pub fn width_of(source: Option<&ArtData>) -> (width: u32)
        ensures
            width == (match source {
                Some(data) => extent(texture_width(data.texture)),
                None => 1,
            }),
    {
        match source {
            Some(data) => data.get_width(),
            None => 1,
        }
    }

    /// The height that the host is told of a source: that of what it
    /// shows, and 1 for a source that has nothing to show from.
    pub fn height_of(source: Option<&ArtData>) -> (height: u32)
        ensures
            height == (match source {
                Some(data) => extent(texture_height(data.texture)),
                None => 1,
            }),
    {
        match source {
            Some(data) => data.get_height(),
            None => 1,
        }
    }

    /// The texture that a source draws in this frame: the one that it
    /// shows, while something plays; none for a source that has nothing to
    /// show from.
    pub fn render_of(source: Option<&ArtData>) -> (drawn: Option<&Texture>)
        ensures
            drawn.is_some() <==> (source matches Some(data) && data.is_playing
                && data.texture.is_some()),
            drawn matches Some(texture) ==> source matches Some(data) && data.texture == Some(
                *texture,
            ),
    {
        match source {
            Some(data) => data.video_render(),
            None => None,
        }
    }
}

/// An announcement without an address asks for no fetch and leaves no
/// texture shown.
pub proof fn lemma_absent_address_clears(last: Option<Seq<char>>, texture: Option<Texture>)
    ensures
        action_for(last, None) == ArtActionModel::Clear,
        fetches(last, seq![None]) == 0,
        texture_after(texture, ArtChange::Clear).is_none(),
{
    reveal_with_fuel(fetches, 2);
    assert(seq![None::<Seq<char>>].drop_first().len() == 0);
}

/// However often the same address is announced in a row, it is fetched
/// once: at the first announcement if it differs from what was announced
/// before, and never if it does not.
pub proof fn lemma_repeated_address_is_fetched_once(
    last: Option<Seq<char>>,
    address: Seq<char>,
    times: nat,
)
    ensures
        fetches(last, Seq::new(times, |i: int| Some(address))) == (if times > 0 && last != Some(
            address,
        ) {
            1nat
        } else {
            0nat
        }),
    decreases times,
{
    let run = Seq::new(times, |i: int| Some(address));
    if times > 0 {
        let rest = Seq::new((times - 1) as nat, |i: int| Some(address));
        assert(run.drop_first() =~= rest);
        lemma_repeated_address_is_fetched_once(Some(address), address, (times - 1) as nat);
    }
}

/// The number of fetches of a run of announcements is the number of
/// addresses in it that differ from the announcement before them.
pub proof fn lemma_fetches_count_changes(
    last: Option<Seq<char>>,
    addresses: Seq<Option<Seq<char>>>,
    more: Option<Seq<char>>,
)
    ensures
        fetches(last, addresses.push(more)) == fetches(last, addresses) + (if action_for(
            if addresses.len() == 0 {
                last
            } else {
                addresses.last()
            },
            more,
        ) is Fetch {
            1nat
        } else {
            0nat
        }),
    decreases addresses.len(),
{
    let longer = addresses.push(more);
    if addresses.len() == 0 {
        reveal_with_fuel(fetches, 2);
        assert(longer.drop_first().len() == 0);
        assert(longer[0] == more);
    } else {
        let rest = addresses.drop_first();
        assert(longer.drop_first() =~= rest.push(more));
        assert(longer[0] == addresses[0]);
        lemma_fetches_count_changes(addresses[0], rest, more);
        if rest.len() > 0 {
            assert(rest.last() == addresses.last());
        } else {
            assert(addresses.last() == addresses[0]);
        }
    }
}

} // verus!
