use rstroller::state::LoopStatus;
use rstroller::state::Metadata;
use rstroller::state::PlaybackStatus;
use rstroller::state::PlayerEvent;
use rstroller::state::PlayerState;
use rstroller::state::Volume;
use rstroller::state::FULL_VOLUME_BITS;

fn track(title: &str) -> Metadata {
    Metadata {
        track_id: Some(format!("/track/{title}")),
        title: Some(title.to_string()),
        artists: Some(vec!["Someone".to_string()]),
        album_name: None,
        art_url: None,
        length_in_microseconds: Some(1_000_000),
    }
}

fn volume(level: f64) -> Volume {
    Volume { bits: level.to_bits() }
}

fn start() -> PlayerState {
    PlayerState::new(
        Some(track("first")),
        Some(PlaybackStatus::Playing),
        Some(LoopStatus::Track),
        Some(true),
        Some(volume(0.5)),
    )
}

fn fold(state: PlayerState, events: Vec<PlayerEvent>) -> Option<PlayerState> {
    let mut state = state;
    for event in events {
        state = state.handle_event(event)?;
    }
    Some(state)
}

#[test]
fn full_volume_is_one() {
    assert_eq!(f64::from_bits(FULL_VOLUME_BITS), 1.0);
    assert_eq!(f64::from_bits(Volume::full().bits), 1.0);
}

#[test]
fn new_keeps_what_the_player_gave() {
    let state = start();
    assert_eq!(state.metadata, track("first"));
    assert_eq!(state.playback_status, PlaybackStatus::Playing);
    assert_eq!(state.loop_status, LoopStatus::Track);
    assert!(state.shuffle);
    assert_eq!(f64::from_bits(state.volume.bits), 0.5);
}

#[test]
fn new_defaults_what_the_player_did_not_give() {
    let state = PlayerState::new(None, None, None, None, None);
    assert_eq!(state.metadata, Metadata::default());
    assert_eq!(state.metadata.title, None);
    assert_eq!(state.metadata.track_id, None);
    assert_eq!(state.playback_status, PlaybackStatus::Stopped);
    assert_eq!(state.loop_status, LoopStatus::Off);
    assert!(!state.shuffle);
    assert_eq!(f64::from_bits(state.volume.bits), 1.0);
}

#[test]
fn each_default_stands_alone() {
    let state = PlayerState::new(None, Some(PlaybackStatus::Paused), None, Some(true), None);
    assert_eq!(state.playback_status, PlaybackStatus::Paused);
    assert!(state.shuffle);
    assert_eq!(state.loop_status, LoopStatus::Off);
    assert_eq!(state.volume, Volume::full());
}

#[test]
fn each_event_sets_its_field() {
    let next = start().handle_event(PlayerEvent::TrackChanged(track("second"))).unwrap();
    assert_eq!(next.metadata, track("second"));
    assert_eq!(next.playback_status, PlaybackStatus::Playing);

    let next = start().handle_event(PlayerEvent::Paused).unwrap();
    assert_eq!(next.playback_status, PlaybackStatus::Paused);
    let next = start().handle_event(PlayerEvent::Stopped).unwrap();
    assert_eq!(next.playback_status, PlaybackStatus::Stopped);
    let next = next.handle_event(PlayerEvent::Playing).unwrap();
    assert_eq!(next.playback_status, PlaybackStatus::Playing);

    let next = start().handle_event(PlayerEvent::LoopingChanged(LoopStatus::Playlist)).unwrap();
    assert_eq!(next.loop_status, LoopStatus::Playlist);
    let next = start().handle_event(PlayerEvent::ShuffleToggled(false)).unwrap();
    assert!(!next.shuffle);
    let next = start().handle_event(PlayerEvent::VolumeChanged(volume(0.25))).unwrap();
    assert_eq!(f64::from_bits(next.volume.bits), 0.25);
    assert_eq!(next.metadata, track("first"));
}

#[test]
fn seek_and_filtered_events_change_nothing() {
    let events = vec![
        PlayerEvent::Seeked { position_in_us: 5 },
        PlayerEvent::TrackAdded("/a".to_string()),
        PlayerEvent::TrackRemoved("/a".to_string()),
        PlayerEvent::TrackMetadataChanged { old_id: "/a".to_string(), new_id: "/b".to_string() },
        PlayerEvent::TrackListReplaced,
        PlayerEvent::PlaybackRateChanged(2.0f64.to_bits()),
    ];
    for event in events {
        assert_eq!(start().handle_event(event), Some(start()));
    }
}

#[test]
fn filtered_events_are_told_apart() {
    assert!(PlayerEvent::TrackListReplaced.is_filtered());
    assert!(PlayerEvent::TrackAdded("/a".to_string()).is_filtered());
    assert!(PlayerEvent::TrackRemoved("/a".to_string()).is_filtered());
    assert!(PlayerEvent::PlaybackRateChanged(0).is_filtered());
    assert!(PlayerEvent::TrackMetadataChanged { old_id: "a".to_string(), new_id: "b".to_string() }
        .is_filtered());
    assert!(!PlayerEvent::Seeked { position_in_us: 0 }.is_filtered());
    assert!(!PlayerEvent::Playing.is_filtered());
    assert!(!PlayerEvent::PlayerShutDown.is_filtered());
    assert!(!PlayerEvent::VolumeChanged(Volume::full()).is_filtered());
}

#[test]
fn shutdown_ends_the_session_from_any_state() {
    assert_eq!(start().handle_event(PlayerEvent::PlayerShutDown), None);
    let empty = PlayerState::new(None, None, None, None, None);
    assert_eq!(empty.handle_event(PlayerEvent::PlayerShutDown), None);
    let later = fold(start(), vec![PlayerEvent::Paused, PlayerEvent::ShuffleToggled(false)]).unwrap();
    assert_eq!(later.handle_event(PlayerEvent::PlayerShutDown), None);
}

#[test]
fn last_event_for_a_field_wins() {
    let end = fold(
        start(),
        vec![
            PlayerEvent::VolumeChanged(volume(0.1)),
            PlayerEvent::Paused,
            PlayerEvent::TrackListReplaced,
            PlayerEvent::VolumeChanged(volume(0.9)),
            PlayerEvent::TrackChanged(track("second")),
            PlayerEvent::Stopped,
            PlayerEvent::Seeked { position_in_us: 1 },
            PlayerEvent::TrackChanged(track("third")),
            PlayerEvent::PlaybackRateChanged(0),
        ],
    )
    .unwrap();
    assert_eq!(f64::from_bits(end.volume.bits), 0.9);
    assert_eq!(end.playback_status, PlaybackStatus::Stopped);
    assert_eq!(end.metadata, track("third"));
    assert_eq!(end.loop_status, LoopStatus::Track);
    assert!(end.shuffle);
}

#[test]
fn events_after_a_shutdown_are_not_reached() {
    let end = fold(
        start(),
        vec![PlayerEvent::Paused, PlayerEvent::PlayerShutDown, PlayerEvent::Playing],
    );
    assert_eq!(end, None);
}
