use crate::state::MetadataView;
use crate::state::PlaybackStatus;
use crate::state::PlayerState;
use crate::state::PlayerStateView;
use crate::text::join;
use crate::text::joined;
use crate::text::truncate_string;
use crate::text::truncated;
use vstd::prelude::*;

verus! {

/// The longest title shown in the bar, in bytes.
pub const TITLE_WIDTH: usize = 40;

/// The longest list of artists shown in the bar, in bytes.
pub const ARTISTS_WIDTH: usize = 20;

/// The text that serde_json writes for a JSON object whose members have
/// the given names and string values.
pub uninterp spec fn json_object_text(members: Seq<(Seq<char>, Seq<char>)>) -> Seq<char>;

/// Builds a `serde_json::Value::Object` with one string member for each
/// pair, by `serde_json::Map::insert`, and returns what `to_string` writes
/// for it. The contract claims only that the text is a function of the
/// pairs: it is the text that `json_object_text` names.
#[verifier::external_body]
fn json_object(members: &Vec<(String, String)>) -> (json: String)
    ensures
        json@ == json_object_text(members.deep_view()),
{
    let mut object = serde_json::Map::new();
    for (name, value) in members.iter() {
        object.insert(name.clone(), serde_json::Value::String(value.clone()));
    }
    serde_json::Value::Object(object).to_string()
}

/// One entry for the status bar: the short text it shows and the longer
/// one it shows on hover.
#[derive(Debug, PartialEq, Eq)]
pub struct StatusRecord {
    pub text: String,
    pub tooltip: String,
}

pub ghost struct StatusRecordView {
    pub text: Seq<char>,
    pub tooltip: Seq<char>,
}

impl View for StatusRecord {
    type V = StatusRecordView;

    open spec fn view(&self) -> StatusRecordView {
        StatusRecordView { text: self.text@, tooltip: self.tooltip@ }
    }
}

/// The members of the JSON object that stands for a record.
pub open spec fn record_members(record: StatusRecordView) -> Seq<(Seq<char>, Seq<char>)> {
    seq![("text"@, record.text), ("tooltip"@, record.tooltip)]
}

/// The glyph shown for a playback status.
pub open spec fn icon_of(status: PlaybackStatus) -> Seq<char> {
    match status {
        PlaybackStatus::Playing => "\u{f04c}"@,
        PlaybackStatus::Paused => "\u{f04b}"@,
        PlaybackStatus::Stopped => "\u{f04d}"@,
    }
}

/// The title of the track, or a fixed text where it has none.
pub open spec fn title_of(metadata: MetadataView) -> Seq<char> {
    match metadata.title {
        Some(title) => title,
        None => "Unknown title"@,
    }
}

/// The artists in one line, separated by a comma and a space; `None`
/// where none is known or the line would be empty.
pub open spec fn artists_line(artists: Option<Seq<Seq<char>>>) -> Option<Seq<char>> {
    match artists {
        Some(names) => if names.len() == 0 || joined(names, ", "@).len() == 0 {
            None
        } else {
            Some(joined(names, ", "@))
        },
        None => None,
    }
}

/// What the tooltip says of the album: nothing where it is unknown or has
/// an empty name.
pub open spec fn album_clause(album: Option<Seq<char>>) -> Seq<char> {
    match album {
        Some(name) => if name.len() == 0 {
            Seq::empty()
        } else {
            " from the album "@ + name
        },
        None => Seq::empty(),
    }
}

/// The record shown for a snapshot.
pub open spec fn record_of(state: PlayerStateView) -> StatusRecordView {
    let title = title_of(state.metadata);
    let icon = icon_of(state.playback_status);
    match artists_line(state.metadata.artists) {
        Some(artists) => StatusRecordView {
            text: icon + " "@ + truncated(title, TITLE_WIDTH as nat) + " by "@ + truncated(
                artists,
                ARTISTS_WIDTH as nat,
            ),
            tooltip: title + " by "@ + artists + album_clause(state.metadata.album_name),
        },
        None => StatusRecordView {
            text: icon + " "@ + truncated(title, TITLE_WIDTH as nat),
            tooltip: title,
        },
    }
}

/// The record shown while no player is selected.
pub open spec fn silence_record() -> StatusRecordView {
    StatusRecordView { text: "Silence"@, tooltip: "Nothing playing"@ }
}

pub fn icon(status: PlaybackStatus) -> (glyph: &'static str)
    ensures
        glyph@ == icon_of(status),
{
    match status {
        PlaybackStatus::Playing => "\u{f04c}",
        PlaybackStatus::Paused => "\u{f04b}",
        PlaybackStatus::Stopped => "\u{f04d}",
    }
}

pub fn parse_artists(artists: &Option<Vec<String>>) -> (line: Option<String>)
    ensures
        match line {
            Some(text) => Some(text@) == artists_line(crate::state::texts_of(*artists)),
            None => artists_line(crate::state::texts_of(*artists)) is None,
        },
{
    match artists {
        Some(names) => {
            if names.len() == 0 {
                return None;
            }
            let line = join(names, ", ");
            if line.as_str().is_empty() {
                return None;
            }
            Some(line)
        },
        None => None,
    }
}

/// Builds the record for a snapshot: a line with the status glyph, the
/// title and the artists, both cut to their widths, and a tooltip with the
/// full title, the artists and the album. A missing value is left out or
/// stands as a fixed text; none makes the rendering fail.
pub fn render(state: &PlayerState) -> (record: StatusRecord)
    ensures
        record@ == record_of(state@),
{
    let title: &str = match &state.metadata.title {
        Some(title) => title.as_str(),
        None => "Unknown title",
    };
    let mut text = icon(state.playback_status).to_owned();
    text.push_str(" ");
    text.push_str(truncate_string(title, TITLE_WIDTH).as_str());
    let mut tooltip = title.to_owned();
    match parse_artists(&state.metadata.artists) {
        Some(artists) => {
            text.push_str(" by ");
            text.push_str(truncate_string(artists.as_str(), ARTISTS_WIDTH).as_str());
            tooltip.push_str(" by ");
            tooltip.push_str(artists.as_str());
            match &state.metadata.album_name {
                Some(album) => {
                    if !album.as_str().is_empty() {
                        tooltip.push_str(" from the album ");
                        tooltip.push_str(album.as_str());
                    }
                },
                None => {},
            }
            proof {
                assert(tooltip@ =~= record_of(state@).tooltip);
                assert(text@ =~= record_of(state@).text);
            }
        },
        None => {
            proof {
                assert(text@ =~= record_of(state@).text);
            }
        },
    }
    StatusRecord { text, tooltip }
}

/// The record shown while no player is selected.
pub fn silence() -> (record: StatusRecord)
    ensures
        record@ == silence_record(),
{
    StatusRecord { text: "Silence".to_owned(), tooltip: "Nothing playing".to_owned() }
}

impl StatusRecord {
    /// The line written for the record: a JSON object with the members
    /// `text` and `tooltip`.
    pub fn to_json(&self) -> (line: String)
        ensures
            line@ == json_object_text(record_members(self@)),
    {
        let mut members: Vec<(String, String)> = Vec::new();
        members.push(("text".to_owned(), self.text.clone()));
        members.push(("tooltip".to_owned(), self.tooltip.clone()));
        proof {
            assert(members.deep_view() =~= record_members(self@));
        }
        json_object(&members)
    }
}

/// The line written to the status bar for a snapshot.
pub fn show(state: &PlayerState) -> (line: String)
    ensures
        line@ == json_object_text(record_members(record_of(state@))),
{
    render(state).to_json()
}

} // verus!
