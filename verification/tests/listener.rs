use rstroller::handshake::ready_signal;
use rstroller::handshake::Lookup;
use rstroller::handshake::StartError;
use rstroller::listener::Listener;
use rstroller::listener::ListenerAction;
use rstroller::listener::ListenerInput;
use rstroller::state::LoopStatus;
use rstroller::state::PlaybackStatus;
use rstroller::state::PlayerEvent;
use rstroller::state::PlayerState;
use rstroller::state::Volume;

fn opened() -> ListenerInput {
    ListenerInput::Opened {
        metadata: None,
        playback_status: Some(PlaybackStatus::Paused),
        loop_status: None,
        shuffle: None,
        volume: None,
    }
}

fn streaming() -> Listener {
    let (listener, _) = Listener::new().step(ListenerInput::Resolved(Lookup::Found));
    let (listener, _) = listener.step(opened());
    listener
}

#[test]
fn ready_signal_is_ok_only_when_found() {
    assert_eq!(ready_signal(Lookup::Found), Ok(()));
    assert_eq!(ready_signal(Lookup::NotFound), Err(StartError::PlayerNotFound));
    assert_eq!(
        ready_signal(Lookup::Failed("bus is down".to_string())),
        Err(StartError::LookupFailed("bus is down".to_string()))
    );
}

#[test]
fn start_error_messages() {
    assert_eq!(StartError::PlayerNotFound.message(), "Player not found");
    assert_eq!(StartError::LookupFailed("bus is down".to_string()).message(), "bus is down");
}

#[test]
fn listener_reports_ready_before_it_publishes() {
    let listener = Listener::new();
    assert_eq!(listener, Listener::Resolving);
    assert_eq!(listener.snapshot(), None);
    let (listener, action) = listener.step(ListenerInput::Resolved(Lookup::Found));
    assert_eq!(action, ListenerAction::ReportReady);
    assert_eq!(listener, Listener::Opening);
    let (listener, action) = listener.step(opened());
    assert_eq!(action, ListenerAction::Publish);
    let expected = PlayerState::new(None, Some(PlaybackStatus::Paused), None, None, None);
    assert_eq!(listener.snapshot(), Some(&expected));
    assert_eq!(expected.loop_status, LoopStatus::Off);
    assert_eq!(expected.volume, Volume::full());
}

#[test]
fn listener_reports_a_missing_player_and_ends() {
    let (listener, action) = Listener::new().step(ListenerInput::Resolved(Lookup::NotFound));
    assert_eq!(action, ListenerAction::ReportFailure(StartError::PlayerNotFound));
    assert_eq!(listener, Listener::Ended);
    let (listener, action) =
        Listener::new().step(ListenerInput::Resolved(Lookup::Failed("no bus".to_string())));
    assert_eq!(
        action,
        ListenerAction::ReportFailure(StartError::LookupFailed("no bus".to_string()))
    );
    assert_eq!(listener, Listener::Ended);
}

#[test]
fn listener_ends_when_the_stream_does_not_open() {
    let (listener, _) = Listener::new().step(ListenerInput::Resolved(Lookup::Found));
    let (listener, action) = listener.step(ListenerInput::OpenFailed);
    assert_eq!(action, ListenerAction::Finish);
    assert_eq!(listener, Listener::Ended);
}

#[test]
fn listener_publishes_after_every_event_in_order() {
    let mut listener = streaming();
    let events = vec![
        PlayerEvent::Playing,
        PlayerEvent::Seeked { position_in_us: 3 },
        PlayerEvent::ShuffleToggled(true),
        PlayerEvent::TrackListReplaced,
        PlayerEvent::Stopped,
    ];
    let mut published = Vec::new();
    for event in events {
        let (next, action) = listener.step(ListenerInput::Event(event));
        assert_eq!(action, ListenerAction::Publish);
        published.push(next.snapshot().unwrap().clone());
        listener = next;
    }
    let statuses: Vec<PlaybackStatus> = published.iter().map(|s| s.playback_status).collect();
    assert_eq!(
        statuses,
        vec![
            PlaybackStatus::Playing,
            PlaybackStatus::Playing,
            PlaybackStatus::Playing,
            PlaybackStatus::Playing,
            PlaybackStatus::Stopped,
        ]
    );
    let shuffles: Vec<bool> = published.iter().map(|s| s.shuffle).collect();
    assert_eq!(shuffles, vec![false, false, true, true, true]);
}

#[test]
fn listener_ends_on_shutdown() {
    let (listener, action) = streaming().step(ListenerInput::Event(PlayerEvent::PlayerShutDown));
    assert_eq!(action, ListenerAction::Finish);
    assert_eq!(listener, Listener::Ended);
    assert_eq!(listener.snapshot(), None);
}

#[test]
fn listener_treats_a_broken_stream_as_a_shutdown() {
    let (listener, action) = streaming().step(ListenerInput::StreamFailed);
    assert_eq!(action, ListenerAction::Finish);
    assert_eq!(listener, Listener::Ended);
}

#[test]
fn listener_ends_when_nobody_receives() {
    let (listener, action) = streaming().step(ListenerInput::ConsumerGone);
    assert_eq!(action, ListenerAction::Finish);
    assert_eq!(listener, Listener::Ended);
}

#[test]
fn ended_listener_stays_ended() {
    let (listener, action) = Listener::Ended.step(ListenerInput::Event(PlayerEvent::Playing));
    assert_eq!(action, ListenerAction::Finish);
    assert_eq!(listener, Listener::Ended);
    let (listener, action) = listener.step(ListenerInput::Resolved(Lookup::Found));
    assert_eq!(action, ListenerAction::Finish);
    assert_eq!(listener, Listener::Ended);
}

#[test]
fn listener_ends_on_an_input_out_of_turn() {
    let (listener, action) = Listener::new().step(ListenerInput::Event(PlayerEvent::Playing));
    assert_eq!(action, ListenerAction::Finish);
    assert_eq!(listener, Listener::Ended);
}
