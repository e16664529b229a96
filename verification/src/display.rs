use crate::state::Metadata;
use crate::state::MetadataView;
use crate::state::PlaybackStatus;
use crate::text::join;
use crate::text::joined;
use crate::text::truncate_string;
use crate::text::truncated;
use vstd::prelude::*;
use vstd::utf8::encode_utf8;

verus! {

/// The longest text shown in a label of the window, in bytes.
pub const LABEL_WIDTH: usize = 30;

/// Whether a byte stands for itself in a percent-encoded text: the ASCII
/// letters and digits, `-`, `.`, `_` and `~`.
pub open spec fn is_unreserved(b: u8) -> bool {
    (0x30 <= b <= 0x39) || (0x41 <= b <= 0x5A) || (0x61 <= b <= 0x7A) || b == 0x2D || b == 0x2E
        || b == 0x5F || b == 0x7E
}

/// The digit for a value below 16, in upper case.
pub open spec fn hex_digit(d: u8) -> char {
    if d < 10 {
        (0x30 + d) as char
    } else {
        (0x37 + d) as char
    }
}

/// How one byte is written in a percent-encoded text.
pub open spec fn percent_encoded_byte(b: u8) -> Seq<char> {
    if is_unreserved(b) {
        seq![b as char]
    } else {
        seq!['%', hex_digit(b / 16), hex_digit(b % 16)]
    }
}

/// The percent-encoded text for a sequence of bytes.
pub open spec fn percent_encoded(bytes: Seq<u8>) -> Seq<char>
    decreases bytes.len(),
{
    if bytes.len() == 0 {
        Seq::empty()
    } else {
        percent_encoded(bytes.drop_last()) + percent_encoded_byte(bytes.last())
    }
}

/// Calls `urlencoding::encode`. The contract claims that each byte of the
/// text's UTF-8 form is written as itself where it is unreserved, and else
/// as `%` and its two hexadecimal digits in upper case.
#[verifier::external_body]
fn url_encode(s: &str) -> (encoded: String)
    ensures
        encoded@ == percent_encoded(encode_utf8(s@)),
{
    urlencoding::encode(s).into_owned()
}

/// Whether `text` begins with `prefix`.
pub open spec fn begins_with(text: Seq<char>, prefix: Seq<char>) -> bool {
    prefix.len() <= text.len() && text.take(prefix.len() as int) == prefix
}

/// Calls `str::starts_with` with a string slice as the pattern. The
/// contract claims that the answer is yes exactly where the first
/// characters of `text` are those of `prefix`.
#[verifier::external_body]
fn starts_with(text: &str, prefix: &str) -> (b: bool)
    ensures
        b == begins_with(text@, prefix@),
{
    text.starts_with(prefix)
}

/// `s` with every occurrence of `from` replaced by `to`, as `str::replace`
/// writes it.
pub uninterp spec fn replaced(s: Seq<char>, from: Seq<char>, to: Seq<char>) -> Seq<char>;

/// Calls `str::replace` with a string slice as the pattern. The contract
/// claims only that the result is a function of the characters of the
/// three texts: it is the text that `replaced` names.
#[verifier::external_body]
fn replace(s: &str, from: &str, to: &str) -> (r: String)
    ensures
        r@ == replaced(s@, from@, to@),
{
    s.replace(from, to)
}

/// The name of the icon on the play button: it shows what a click does.
pub open spec fn play_button_icon_of(status: PlaybackStatus) -> Seq<char> {
    if status is Playing {
        "media-playback-pause-symbolic"@
    } else {
        "media-playback-start-symbolic"@
    }
}

pub fn play_button_icon(status: PlaybackStatus) -> (name: &'static str)
    ensures
        name@ == play_button_icon_of(status),
{
    match status {
        PlaybackStatus::Playing => "media-playback-pause-symbolic",
        _ => "media-playback-start-symbolic",
    }
}

/// The title shown for a track, in full.
pub open spec fn track_title_of(metadata: MetadataView) -> Seq<char> {
    match metadata.title {
        Some(title) => title,
        None => "Unknown"@,
    }
}

/// The artists shown for a track, in full: their names with a comma and a
/// space between each two.
pub open spec fn track_artists_of(metadata: MetadataView) -> Seq<char> {
    match metadata.artists {
        Some(names) => joined(names, ", "@),
        None => "Unknown"@,
    }
}

pub fn track_title(metadata: &Metadata) -> (title: String)
    ensures
        title@ == track_title_of(metadata@),
{
    match &metadata.title {
        Some(title) => title.clone(),
        None => "Unknown".to_owned(),
    }
}

pub fn track_artists(metadata: &Metadata) -> (artists: String)
    ensures
        artists@ == track_artists_of(metadata@),
{
    match &metadata.artists {
        Some(names) => join(names, ", "),
        None => "Unknown".to_owned(),
    }
}

/// A text cut to the width of a label.
pub fn label(text: &str) -> (shown: String)
    ensures
        shown@ == truncated(text@, LABEL_WIDTH as nat),
{
    truncate_string(text, LABEL_WIDTH)
}

/// Where the picture of an album comes from.
#[derive(Debug, PartialEq, Eq)]
pub enum ArtSource {
    /// A file on this machine, by its path.
    File(String),
    /// A picture to be fetched, by its address.
    Remote(String),
    /// Nowhere that can be read.
    Unsupported,
}

/// What an art locator says, once the path behind a `file://` locator is
/// known.
pub open spec fn art_source_of(art_url: Seq<char>, path: Seq<char>) -> ArtSourceView {
    if begins_with(art_url, "file://"@) {
        ArtSourceView::File(path)
    } else if begins_with(art_url, "http://"@) || begins_with(art_url, "https://"@) {
        ArtSourceView::Remote(art_url)
    } else {
        ArtSourceView::Unsupported
    }
}

pub ghost enum ArtSourceView {
    File(Seq<char>),
    Remote(Seq<char>),
    Unsupported,
}

impl View for ArtSource {
    type V = ArtSourceView;

    open spec fn view(&self) -> ArtSourceView {
        match *self {
            ArtSource::File(path) => ArtSourceView::File(path@),
            ArtSource::Remote(url) => ArtSourceView::Remote(url@),
            ArtSource::Unsupported => ArtSourceView::Unsupported,
        }
    }
}

/// Reads an art locator: a `file://` locator names the file whose path is
/// the locator without that scheme, an `http://` or `https://` locator is
/// fetched, and any other is not read.
pub fn art_source(art_url: &str) -> (source: ArtSource)
    ensures
        source@ == art_source_of(art_url@, replaced(art_url@, "file://"@, ""@)),
{
    if starts_with(art_url, "file://") {
        ArtSource::File(replace(art_url, "file://", ""))
    } else if starts_with(art_url, "http://") || starts_with(art_url, "https://") {
        ArtSource::Remote(art_url.to_owned())
    } else {
        ArtSource::Unsupported
    }
}

/// The name under which a fetched picture is kept: its address,
/// percent-encoded, so that it holds no character that parts a path.
pub fn art_cache_name(art_url: &str) -> (name: String)
    ensures
        name@ == percent_encoded(encode_utf8(art_url@)),
{
    url_encode(art_url)
}

} // verus!
