use obs_gpmdp::art::ArtError;
use obs_gpmdp::art_source::{ArtAction, ArtChange, ArtData, ArtStep, ArtTracker};
use obs_gpmdp::playback::{PlaybackState, TrackInfo, Update};
use obs_gpmdp::raster::Raster;
use obs_gpmdp::texture::Texture;

fn texture(handle: u64, width: u32, height: u32) -> Texture {
    let raster = Raster::from_parts(width, height, vec![0; (width * height * 4) as usize]).unwrap();
    Texture::new(handle, &raster)
}

fn state_with_art(art: Option<&str>) -> PlaybackState {
    let mut state = PlaybackState::new();
    state.apply(Update::Track(TrackInfo {
        title: "T".to_string(),
        artist: "A".to_string(),
        album: "L".to_string(),
        album_art_url: art.map(|a| a.to_string()),
    }));
    state
}

#[test]
fn identical_consecutive_addresses_are_fetched_once() {
    let mut tracker = ArtTracker::new();
    let address = "https://example.org/a.png".to_string();
    let mut fetches = 0;
    for _ in 0..4 {
        if let ArtAction::Fetch(_) = tracker.announce(Some(&address)) {
            fetches += 1;
        }
    }
    assert_eq!(fetches, 1);
}

#[test]
fn first_address_is_fetched_and_its_repetition_kept() {
    let mut tracker = ArtTracker::new();
    let address = "https://example.org/a.png".to_string();
    assert_eq!(tracker.announce(Some(&address)), ArtAction::Fetch(address.clone()));
    assert_eq!(tracker.announce(Some(&address)), ArtAction::Keep);
}

#[test]
fn new_address_is_fetched() {
    let mut tracker = ArtTracker::new();
    let a = "https://example.org/a.png".to_string();
    let b = "https://example.org/b.png".to_string();
    assert_eq!(tracker.announce(Some(&a)), ArtAction::Fetch(a.clone()));
    assert_eq!(tracker.announce(Some(&b)), ArtAction::Fetch(b.clone()));
    assert_eq!(tracker.announce(Some(&a)), ArtAction::Fetch(a.clone()));
}

#[test]
fn absent_address_clears_without_a_fetch() {
    let mut tracker = ArtTracker::new();
    let a = "https://example.org/a.png".to_string();
    assert_eq!(tracker.announce(None), ArtAction::Clear);
    assert_eq!(tracker.announce(Some(&a)), ArtAction::Fetch(a.clone()));
    assert_eq!(tracker.announce(None), ArtAction::Clear);
    assert_eq!(tracker.announce(None), ArtAction::Clear);
    // After a clear the same address is fetched again.
    assert_eq!(tracker.announce(Some(&a)), ArtAction::Fetch(a.clone()));
}

#[test]
fn tracker_reads_the_address_from_the_state() {
    let mut tracker = ArtTracker::new();
    assert_eq!(tracker.observe(&PlaybackState::new()), ArtAction::Clear);
    assert_eq!(
        tracker.observe(&state_with_art(Some("https://example.org/a.png"))),
        ArtAction::Fetch("https://example.org/a.png".to_string())
    );
    let mut playing = state_with_art(Some("https://example.org/a.png"));
    playing.apply(Update::PlayState(true));
    assert_eq!(tracker.observe(&playing), ArtAction::Keep);
    assert_eq!(tracker.observe(&state_with_art(None)), ArtAction::Clear);
    playing.apply(Update::Disconnected);
    assert_eq!(tracker.observe(&playing), ArtAction::Clear);
}

fn raster(width: u32, height: u32) -> Raster {
    Raster::from_parts(width, height, vec![0; (width * height * 4) as usize]).unwrap()
}

#[test]
fn announcement_without_fetch_is_settled_at_once() {
    assert_eq!(ArtStep::settled(&ArtAction::Clear), Some(ArtStep::Clear));
    assert_eq!(ArtStep::settled(&ArtAction::Keep), Some(ArtStep::Keep));
    assert_eq!(ArtStep::settled(&ArtAction::Fetch("https://example.org/a.png".to_string())), None);
}

#[test]
fn fetch_outcome_becomes_a_step() {
    assert_eq!(ArtStep::after_fetch(Ok(raster(2, 2))), ArtStep::Show(raster(2, 2)));
    assert_eq!(ArtStep::after_fetch(Err(ArtError::Decode)), ArtStep::Clear);
    assert_eq!(ArtStep::after_fetch(Err(ArtError::TooLarge(5_000_000))), ArtStep::Clear);
}

#[test]
fn texture_is_made_only_for_an_image_to_show() {
    let made = std::cell::Cell::new(0);
    let create = |image: &Raster| {
        made.set(made.get() + 1);
        Texture::new(9, image)
    };
    assert_eq!(ArtStep::Keep.realize(create), ArtChange::Keep);
    assert_eq!(ArtStep::Clear.realize(create), ArtChange::Clear);
    assert_eq!(made.get(), 0);
    assert_eq!(ArtStep::Show(raster(4, 3)).realize(create), ArtChange::Show(texture(9, 4, 3)));
    assert_eq!(made.get(), 1);
}

#[test]
fn source_without_client_has_extent_one_and_draws_nothing() {
    assert_eq!(ArtData::width_of(None), 1);
    assert_eq!(ArtData::height_of(None), 1);
    assert_eq!(ArtData::render_of(None), None);
    let mut data = ArtData::new();
    assert_eq!(ArtData::width_of(Some(&data)), 1);
    data.apply(true, ArtChange::Show(texture(1, 640, 480)));
    assert_eq!(ArtData::width_of(Some(&data)), 640);
    assert_eq!(ArtData::height_of(Some(&data)), 480);
    assert_eq!(ArtData::render_of(Some(&data)), Some(&texture(1, 640, 480)));
    data.apply(false, ArtChange::Keep);
    assert_eq!(ArtData::render_of(Some(&data)), None);
}

#[test]
fn art_data_takes_changes() {
    let mut data = ArtData::new();
    assert_eq!(data, ArtData { is_playing: false, texture: None });
    assert_eq!(data.apply(true, ArtChange::Show(texture(1, 4, 3))), None);
    assert_eq!(data, ArtData { is_playing: true, texture: Some(texture(1, 4, 3)) });
    assert_eq!(data.apply(false, ArtChange::Keep), None);
    assert_eq!(data, ArtData { is_playing: false, texture: Some(texture(1, 4, 3)) });
    assert_eq!(data.apply(true, ArtChange::Show(texture(2, 8, 8))), Some(texture(1, 4, 3)));
    assert_eq!(data.apply(true, ArtChange::Clear), Some(texture(2, 8, 8)));
    assert_eq!(data, ArtData { is_playing: true, texture: None });
    assert_eq!(data.apply(true, ArtChange::Clear), None);
}

#[test]
fn overlay_without_texture_has_extent_one() {
    let mut data = ArtData::new();
    assert_eq!(data.get_width(), 1);
    assert_eq!(data.get_height(), 1);
    data.apply(false, ArtChange::Show(texture(1, 640, 480)));
    assert_eq!(data.get_width(), 640);
    assert_eq!(data.get_height(), 480);
}

#[test]
fn texture_is_drawn_only_while_playing() {
    let mut data = ArtData::new();
    assert_eq!(data.video_render(), None);
    data.apply(true, ArtChange::Keep);
    assert_eq!(data.video_render(), None);
    data.apply(false, ArtChange::Show(texture(5, 2, 2)));
    assert_eq!(data.video_render(), None);
    data.apply(true, ArtChange::Keep);
    assert_eq!(data.video_render(), Some(&texture(5, 2, 2)));
}
