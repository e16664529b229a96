use rstroller::watcher::AccessKind;
use rstroller::watcher::AccessMode;
use rstroller::watcher::FileEventKind;
use rstroller::watcher::WatchError;
use rstroller::watcher::Watcher;
use rstroller::watcher::WatcherAction;
use rstroller::watcher::WatcherInput;

const WRITTEN: FileEventKind = FileEventKind::Access(AccessKind::Close(AccessMode::Write));

#[test]
fn only_a_close_after_write_completes_a_write() {
    assert!(WRITTEN.is_write_completed());
    assert!(!FileEventKind::Access(AccessKind::Close(AccessMode::Read)).is_write_completed());
    assert!(!FileEventKind::Access(AccessKind::Close(AccessMode::Any)).is_write_completed());
    assert!(!FileEventKind::Access(AccessKind::Open(AccessMode::Write)).is_write_completed());
    assert!(!FileEventKind::Access(AccessKind::Any).is_write_completed());
    assert!(!FileEventKind::Modify.is_write_completed());
    assert!(!FileEventKind::Create.is_write_completed());
    assert!(!FileEventKind::Remove.is_write_completed());
    assert!(!FileEventKind::Any.is_write_completed());
    assert!(!FileEventKind::Other.is_write_completed());
}

#[test]
fn an_absent_record_is_created_before_the_watch() {
    let watcher = Watcher::new();
    assert_eq!(watcher, Watcher::Checking);
    let (watcher, action) = watcher.step(WatcherInput::RecordChecked { exists: false });
    assert_eq!(action, WatcherAction::CreateRecord);
    assert_eq!(watcher, Watcher::Creating);
    let (watcher, action) = watcher.step(WatcherInput::RecordCreated);
    assert_eq!(action, WatcherAction::Attach);
    assert_eq!(watcher, Watcher::Attaching);
    let (watcher, action) = watcher.step(WatcherInput::Attached);
    assert_eq!(action, WatcherAction::ReportStarted);
    assert_eq!(watcher, Watcher::Watching);
}

#[test]
fn an_existing_record_is_watched_as_it_is() {
    let (watcher, action) = Watcher::new().step(WatcherInput::RecordChecked { exists: true });
    assert_eq!(action, WatcherAction::Attach);
    assert_eq!(watcher, Watcher::Attaching);
}

#[test]
fn start_failures_are_reported() {
    let (watcher, action) =
        Watcher::Creating.step(WatcherInput::CreationFailed("read-only".to_string()));
    assert_eq!(
        action,
        WatcherAction::ReportFailure(WatchError::CannotCreate("read-only".to_string()))
    );
    assert_eq!(watcher, Watcher::Stopped);
    let (watcher, action) =
        Watcher::Attaching.step(WatcherInput::AttachFailed("too many".to_string()));
    assert_eq!(
        action,
        WatcherAction::ReportFailure(WatchError::CannotWatch("too many".to_string()))
    );
    assert_eq!(watcher, Watcher::Stopped);
}

#[test]
fn writing_the_same_value_twice_notifies_twice() {
    let mut watcher = Watcher::Watching;
    let mut published = Vec::new();
    for _ in 0..2 {
        let (next, action) = watcher.step(WatcherInput::FileEvent(WRITTEN));
        assert_eq!(action, WatcherAction::ReadRecord);
        assert_eq!(next, Watcher::Reading);
        let (next, action) = next.step(WatcherInput::RecordRead(Ok("vlc".to_string())));
        match action {
            WatcherAction::Publish(payload) => published.push(payload),
            other => panic!("nothing published: {:?}", other),
        }
        assert_eq!(next, Watcher::Watching);
        watcher = next;
    }
    assert_eq!(published, vec![Ok("vlc".to_string()), Ok("vlc".to_string())]);
}

#[test]
fn a_failed_read_is_published_too() {
    let (watcher, _) = Watcher::Watching.step(WatcherInput::FileEvent(WRITTEN));
    let (watcher, action) = watcher.step(WatcherInput::RecordRead(Err("gone".to_string())));
    assert_eq!(action, WatcherAction::Publish(Err("gone".to_string())));
    assert_eq!(watcher, Watcher::Watching);
}

#[test]
fn other_events_are_passed_over() {
    for kind in [
        FileEventKind::Modify,
        FileEventKind::Access(AccessKind::Open(AccessMode::Write)),
        FileEventKind::Access(AccessKind::Close(AccessMode::Read)),
        FileEventKind::Other,
    ] {
        let (watcher, action) = Watcher::Watching.step(WatcherInput::FileEvent(kind));
        assert_eq!(action, WatcherAction::Wait);
        assert_eq!(watcher, Watcher::Watching);
    }
}

#[test]
fn a_failing_observer_stops_the_watcher() {
    let (watcher, action) = Watcher::Watching.step(WatcherInput::ObserverFailed);
    assert_eq!(action, WatcherAction::Abort);
    assert_eq!(watcher, Watcher::Stopped);
    let (watcher, action) = Watcher::Reading.step(WatcherInput::ConsumerGone);
    assert_eq!(action, WatcherAction::Abort);
    assert_eq!(watcher, Watcher::Stopped);
    let (watcher, action) = watcher.step(WatcherInput::FileEvent(WRITTEN));
    assert_eq!(action, WatcherAction::Abort);
    assert_eq!(watcher, Watcher::Stopped);
}
