use rstroller::controller::Controller;
use rstroller::controller::ControllerAction;
use rstroller::controller::ControllerInput;
use rstroller::controller::PlayerAction;
use rstroller::controller::PlayerCall;
use rstroller::handshake::Lookup;
use rstroller::handshake::StartError;
use rstroller::state::LoopStatus;
use rstroller::state::Volume;

fn volume(level: f64) -> Volume {
    Volume { bits: level.to_bits() }
}

#[test]
fn each_action_has_its_call() {
    assert_eq!(PlayerAction::PlayPause.into_call(None), Some(PlayerCall::PlayPause));
    assert_eq!(PlayerAction::Next.into_call(None), Some(PlayerCall::Next));
    assert_eq!(PlayerAction::Previous.into_call(None), Some(PlayerCall::Previous));
    assert_eq!(PlayerAction::Raise.into_call(None), Some(PlayerCall::Raise));
    assert_eq!(PlayerAction::Shuffle(true).into_call(None), Some(PlayerCall::SetShuffle(true)));
    assert_eq!(
        PlayerAction::Volume(volume(0.8)).into_call(None),
        Some(PlayerCall::SetVolume(volume(0.8)))
    );
    assert_eq!(
        PlayerAction::Loop(LoopStatus::Playlist).into_call(Some("/t".to_string())),
        Some(PlayerCall::SetLoopStatus(LoopStatus::Playlist))
    );
}

#[test]
fn a_seek_needs_a_track() {
    assert_eq!(
        PlayerAction::Seek(1500).into_call(Some("/track/1".to_string())),
        Some(PlayerCall::SetPosition { track_id: "/track/1".to_string(), position_us: 1500 })
    );
    assert_eq!(PlayerAction::Seek(1500).into_call(None), None);
}

#[test]
fn controller_reports_ready_when_the_player_is_found() {
    let controller = Controller::new();
    assert_eq!(controller, Controller::Resolving);
    let (controller, action) = controller.step(ControllerInput::Resolved(Lookup::Found));
    assert_eq!(action, ControllerAction::ReportReady);
    assert_eq!(controller, Controller::Ready);
}

#[test]
fn controller_reports_why_it_does_not_start() {
    let (controller, action) = Controller::new().step(ControllerInput::Resolved(Lookup::NotFound));
    assert_eq!(action, ControllerAction::ReportFailure(StartError::PlayerNotFound));
    assert_eq!(controller, Controller::Ended);
    let (controller, action) =
        Controller::new().step(ControllerInput::Resolved(Lookup::Failed("x".to_string())));
    assert_eq!(
        action,
        ControllerAction::ReportFailure(StartError::LookupFailed("x".to_string()))
    );
    assert_eq!(controller, Controller::Ended);
}

#[test]
fn commands_become_calls_in_order_and_a_failure_stops_nothing() {
    let mut controller = Controller::Ready;
    let mut calls = Vec::new();
    let commands = vec![
        PlayerAction::Next,
        PlayerAction::Previous,
        PlayerAction::Volume(volume(0.8)),
    ];
    for (i, command) in commands.into_iter().enumerate() {
        let (next, action) = controller.step(ControllerInput::Command(command));
        match action {
            ControllerAction::Call(call) => calls.push(call),
            other => panic!("no call: {:?}", other),
        }
        let outcome = if i == 1 {
            ControllerInput::CallFailed
        } else {
            ControllerInput::CallSucceeded
        };
        let (next, action) = next.step(outcome);
        assert_eq!(action, ControllerAction::Await);
        assert_eq!(next, Controller::Ready);
        controller = next;
    }
    assert_eq!(
        calls,
        vec![PlayerCall::Next, PlayerCall::Previous, PlayerCall::SetVolume(volume(0.8))]
    );
    match &calls[2] {
        PlayerCall::SetVolume(level) => assert_eq!(f64::from_bits(level.bits), 0.8),
        other => panic!("not a volume: {:?}", other),
    }
}

#[test]
fn a_seek_asks_for_the_track_first() {
    let (controller, action) =
        Controller::Ready.step(ControllerInput::Command(PlayerAction::Seek(42)));
    assert_eq!(action, ControllerAction::QueryTrackId);
    assert_eq!(controller, Controller::Seeking(42));
    let (controller, action) = controller.step(ControllerInput::TrackId(Some("/t/9".to_string())));
    assert_eq!(
        action,
        ControllerAction::Call(PlayerCall::SetPosition {
            track_id: "/t/9".to_string(),
            position_us: 42
        })
    );
    assert_eq!(controller, Controller::Ready);
}

#[test]
fn a_seek_without_a_track_is_skipped() {
    let (controller, _) = Controller::Ready.step(ControllerInput::Command(PlayerAction::Seek(42)));
    let (controller, action) = controller.step(ControllerInput::TrackId(None));
    assert_eq!(action, ControllerAction::Await);
    assert_eq!(controller, Controller::Ready);
    let (controller, action) = controller.step(ControllerInput::Command(PlayerAction::Raise));
    assert_eq!(action, ControllerAction::Call(PlayerCall::Raise));
    assert_eq!(controller, Controller::Ready);
}

#[test]
fn controller_ends_when_the_commands_end() {
    let (controller, action) = Controller::Ready.step(ControllerInput::ChannelClosed);
    assert_eq!(action, ControllerAction::Finish);
    assert_eq!(controller, Controller::Ended);
    let (controller, action) = Controller::Seeking(1).step(ControllerInput::ChannelClosed);
    assert_eq!(action, ControllerAction::Finish);
    assert_eq!(controller, Controller::Ended);
    let (controller, action) = controller.step(ControllerInput::Command(PlayerAction::Next));
    assert_eq!(action, ControllerAction::Finish);
    assert_eq!(controller, Controller::Ended);
}

#[test]
fn controller_passes_over_what_it_does_not_await() {
    let (controller, action) = Controller::Resolving.step(ControllerInput::Command(PlayerAction::Next));
    assert_eq!(action, ControllerAction::Await);
    assert_eq!(controller, Controller::Resolving);
    let (controller, action) = Controller::Ready.step(ControllerInput::TrackId(None));
    assert_eq!(action, ControllerAction::Await);
    assert_eq!(controller, Controller::Ready);
    let (controller, action) = Controller::Seeking(7).step(ControllerInput::Command(PlayerAction::Next));
    assert_eq!(action, ControllerAction::Await);
    assert_eq!(controller, Controller::Seeking(7));
    let (controller, action) = Controller::Resolving.step(ControllerInput::ChannelClosed);
    assert_eq!(action, ControllerAction::Await);
    assert_eq!(controller, Controller::Resolving);
}
