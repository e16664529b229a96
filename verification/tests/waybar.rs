use rstroller::state::Metadata;
use rstroller::state::PlaybackStatus;
use rstroller::state::PlayerState;
use rstroller::waybar::icon;
use rstroller::waybar::parse_artists;
use rstroller::waybar::render;
use rstroller::waybar::show;
use rstroller::waybar::silence;
use rstroller::waybar::StatusRecord;
use rstroller::waybar::ARTISTS_WIDTH;
use rstroller::waybar::TITLE_WIDTH;

fn state(
    title: Option<&str>,
    artists: Option<Vec<&str>>,
    album: Option<&str>,
    status: PlaybackStatus,
) -> PlayerState {
    let metadata = Metadata {
        track_id: None,
        title: title.map(|t| t.to_string()),
        artists: artists.map(|a| a.iter().map(|n| n.to_string()).collect()),
        album_name: album.map(|a| a.to_string()),
        art_url: None,
        length_in_microseconds: None,
    };
    PlayerState::new(Some(metadata), Some(status), None, None, None)
}

#[test]
fn widths() {
    assert_eq!(TITLE_WIDTH, 40);
    assert_eq!(ARTISTS_WIDTH, 20);
}

#[test]
fn icons() {
    assert_eq!(icon(PlaybackStatus::Playing), "\u{f04c}");
    assert_eq!(icon(PlaybackStatus::Paused), "\u{f04b}");
    assert_eq!(icon(PlaybackStatus::Stopped), "\u{f04d}");
    assert_eq!(icon(PlaybackStatus::Playing).as_bytes(), [0xef, 0x81, 0x8c]);
}

#[test]
fn artists_are_joined() {
    assert_eq!(parse_artists(&None), None);
    assert_eq!(parse_artists(&Some(vec![])), None);
    assert_eq!(parse_artists(&Some(vec!["".to_string()])), None);
    assert_eq!(parse_artists(&Some(vec!["A".to_string()])), Some("A".to_string()));
    assert_eq!(
        parse_artists(&Some(vec!["A".to_string(), "B".to_string()])),
        Some("A, B".to_string())
    );
    assert_eq!(
        parse_artists(&Some(vec!["".to_string(), "".to_string()])),
        Some(", ".to_string())
    );
}

#[test]
fn record_with_artists_and_album() {
    let record = render(&state(Some("Song"), Some(vec!["A", "B"]), Some("Al"), PlaybackStatus::Playing));
    assert_eq!(record.text, "\u{f04c} Song by A, B");
    assert_eq!(record.tooltip, "Song by A, B from the album Al");
}

#[test]
fn record_without_album() {
    let record = render(&state(Some("Song"), Some(vec!["A"]), None, PlaybackStatus::Paused));
    assert_eq!(record.text, "\u{f04b} Song by A");
    assert_eq!(record.tooltip, "Song by A");
    let record = render(&state(Some("Song"), Some(vec!["A"]), Some(""), PlaybackStatus::Paused));
    assert_eq!(record.tooltip, "Song by A");
}

#[test]
fn record_without_artists() {
    let record = render(&state(Some("Song"), None, Some("Al"), PlaybackStatus::Stopped));
    assert_eq!(record.text, "\u{f04d} Song");
    assert_eq!(record.tooltip, "Song");
    let record = render(&state(Some("Song"), Some(vec![]), Some("Al"), PlaybackStatus::Stopped));
    assert_eq!(record.text, "\u{f04d} Song");
    assert_eq!(record.tooltip, "Song");
}

#[test]
fn record_without_title() {
    let record = render(&state(None, Some(vec!["A"]), None, PlaybackStatus::Playing));
    assert_eq!(record.text, "\u{f04c} Unknown title by A");
    assert_eq!(record.tooltip, "Unknown title by A");
}

#[test]
fn long_texts_are_cut_in_the_line_only() {
    let title = "0123456789012345678901234567890123456789-and-more";
    let artists = "abcdefghijklmnopqrstuvwxyz";
    let record = render(&state(Some(title), Some(vec![artists]), None, PlaybackStatus::Playing));
    assert_eq!(
        record.text,
        "\u{f04c} 012345678901234567890123456789012345678... by abcdefghijklmnopqrs..."
    );
    assert_eq!(
        record.tooltip,
        "0123456789012345678901234567890123456789-and-more by abcdefghijklmnopqrstuvwxyz"
    );
}

#[test]
fn a_title_of_many_bytes_does_not_stop_the_rendering() {
    let title = "éééééééééééééééééééééééééééééé";
    let record = render(&state(Some(title), None, None, PlaybackStatus::Playing));
    assert_eq!(record.text, "\u{f04c} ééééééééééééééééééé...");
    assert_eq!(record.tooltip, title);
}

#[test]
fn silence_record() {
    let record = silence();
    assert_eq!(record.text, "Silence");
    assert_eq!(record.tooltip, "Nothing playing");
    assert_eq!(record.to_json(), "{\"text\":\"Silence\",\"tooltip\":\"Nothing playing\"}");
}

#[test]
fn show_writes_a_json_object() {
    let line = show(&state(Some("Song"), Some(vec!["A", "B"]), Some("Al"), PlaybackStatus::Playing));
    assert_eq!(
        line,
        "{\"text\":\"\u{f04c} Song by A, B\",\"tooltip\":\"Song by A, B from the album Al\"}"
    );
}

#[test]
fn json_escapes_what_it_must() {
    let record = StatusRecord {
        text: "say \"hi\"\\".to_string(),
        tooltip: "line\nbreak\ttab".to_string(),
    };
    assert_eq!(
        record.to_json(),
        "{\"text\":\"say \\\"hi\\\"\\\\\",\"tooltip\":\"line\\nbreak\\ttab\"}"
    );
}
