use crate::select::get_player_by_bus_name;
use crate::select::get_preferred_player_or_first;
use crate::select::name_of;
use crate::select::position_of;
use crate::select::preferred_or_first;
use crate::select::as_index;
use crate::state::LoopStatus;
use crate::text::same_text;
use vstd::prelude::*;

verus! {

/// `s` in lower case, as `str::to_lowercase` writes it.
pub uninterp spec fn lowercased(s: Seq<char>) -> Seq<char>;

/// Calls `str::to_lowercase`. The contract claims only that the result is
/// a function of the characters of `s`: it is the text that `lowercased`
/// names.
#[verifier::external_body]
fn lowercase(s: &str) -> (lower: String)
    ensures
        lower@ == lowercased(s@),
{
    s.to_lowercase()
}

/// The player that a one-shot command talks to: the one named by the
/// `player` flag where the flag is given, and nobody where no such player
/// lives; without the flag the preferred player, or else the first.
pub open spec fn target_of(
    flag: Option<Seq<char>>,
    preference: Option<Seq<char>>,
    players: Seq<Seq<char>>,
) -> Option<int> {
    match flag {
        Some(name) => position_of(players, name),
        None => preferred_or_first(preference, players),
    }
}

pub fn target_player(flag: Option<&str>, preference: Option<&str>, players: &Vec<String>) -> (found:
    Option<usize>)
    ensures
        as_index(found) == target_of(name_of(flag), name_of(preference), players.deep_view()),
        found is Some ==> found->0 < players.len(),
{
    match flag {
        Some(name) => get_player_by_bus_name(players, name),
        None => get_preferred_player_or_first(preference, players),
    }
}

/// The loop status that a word in lower case stands for.
pub open spec fn loop_status_named(word: Seq<char>) -> Option<LoopStatus> {
    if word == "none"@ {
        Some(LoopStatus::Off)
    } else if word == "track"@ {
        Some(LoopStatus::Track)
    } else if word == "playlist"@ {
        Some(LoopStatus::Playlist)
    } else {
        None
    }
}

/// The shuffle setting that a word in lower case stands for.
pub open spec fn shuffle_named(word: Seq<char>) -> Option<bool> {
    if word == "true"@ {
        Some(true)
    } else if word == "false"@ {
        Some(false)
    } else {
        None
    }
}

/// The loop status that `word` stands for, read as it is written.
pub fn loop_status_from_word(word: &str) -> (status: Option<LoopStatus>)
    ensures
        status == loop_status_named(word@),
{
    if same_text(word, "none") {
        Some(LoopStatus::Off)
    } else if same_text(word, "track") {
        Some(LoopStatus::Track)
    } else if same_text(word, "playlist") {
        Some(LoopStatus::Playlist)
    } else {
        None
    }
}

/// The shuffle setting that `word` stands for, read as it is written.
pub fn shuffle_from_word(word: &str) -> (setting: Option<bool>)
    ensures
        setting == shuffle_named(word@),
{
    if same_text(word, "true") {
        Some(true)
    } else if same_text(word, "false") {
        Some(false)
    } else {
        None
    }
}

/// Reads the argument of the `loop` command, in whatever case it is
/// written; `None` where it names no loop status.
pub fn parse_loop_status(arg: &str) -> (status: Option<LoopStatus>)
    ensures
        status == loop_status_named(lowercased(arg@)),
{
    loop_status_from_word(lowercase(arg).as_str())
}

/// Reads the argument of the `shuffle` command, in whatever case it is
/// written; `None` where it is neither `true` nor `false`.
pub fn parse_shuffle(arg: &str) -> (setting: Option<bool>)
    ensures
        setting == shuffle_named(lowercased(arg@)),
{
    shuffle_from_word(lowercase(arg).as_str())
}

/// How a number on the command line is meant.
#[derive(Clone, Copy, Debug, PartialEq, Eq, Structural)]
pub enum Direction {
    /// The number is the new value.
    Absolute,
    /// The number is added to the present value.
    Up,
    /// The number is taken from the present value.
    Down,
}

/// A value or an offset as the command line gives it: the text of the
/// number, and how the number is meant.
#[derive(Debug, PartialEq, Eq)]
pub struct Offset {
    pub direction: Direction,
    pub number: String,
}

/// How an argument is meant: as an offset upwards where it ends in `+`,
/// downwards where it ends in `-`, else as a value.
pub open spec fn direction_of(arg: Seq<char>) -> Direction
    recommends
        arg.len() > 0,
{
    if arg.last() == '+' {
        Direction::Up
    } else if arg.last() == '-' {
        Direction::Down
    } else {
        Direction::Absolute
    }
}

/// The text of the number in an argument: the argument without the sign
/// that ends it, where one does.
pub open spec fn number_of(arg: Seq<char>) -> Seq<char>
    recommends
        arg.len() > 0,
{
    if direction_of(arg) is Absolute {
        arg
    } else {
        arg.drop_last()
    }
}

/// Reads the argument of the `volume` and `position` commands: a number,
/// or a number followed by `+` or `-` for an offset. The empty text is no
/// argument.
pub fn parse_offset(arg: &str) -> (offset: Option<Offset>)
    ensures
        offset is Some <==> arg@.len() > 0,
        offset is Some ==> offset->0.direction == direction_of(arg@) && offset->0.number@
            == number_of(arg@),
{
    let mut number = String::new();
    let mut held: Option<char> = None;
    for c in it: arg.chars()
        invariant
            it.seq() == arg@,
            it.index() == 0 ==> held is None && number@.len() == 0,
            it.index() > 0 ==> held == Some(arg@[it.index() - 1]) && number@ == arg@.take(
                it.index() - 1,
            ),
    {
        let ghost at = it.index() as int;
        assert(arg@[at] == c);
        match held {
            Some(earlier) => {
                number.push(earlier);
                proof {
                    assert(arg@.take(at) =~= arg@.take(at - 1).push(earlier));
                }
            },
            None => {
                proof {
                    assert(number@ =~= arg@.take(0));
                }
            },
        }
        held = Some(c);
    }
    match held {
        None => None,
        Some(last) => {
            proof {
                assert(arg@.take(arg@.len() - 1) =~= arg@.drop_last());
            }
            if last == '+' {
                Some(Offset { direction: Direction::Up, number })
            } else if last == '-' {
                Some(Offset { direction: Direction::Down, number })
            } else {
                number.push(last);
                proof {
                    assert(arg@.drop_last().push(last) =~= arg@);
                }
                Some(Offset { direction: Direction::Absolute, number })
            }
        },
    }
}

/// The line that lists one player: its identity and its bus name, marked
/// where the bus name is the preferred one.
pub open spec fn player_line_of(
    identity: Seq<char>,
    bus_name: Seq<char>,
    preferred_name: Seq<char>,
) -> Seq<char> {
    if bus_name == preferred_name {
        identity + ": "@ + bus_name + " (preferred)"@
    } else {
        identity + ": "@ + bus_name
    }
}

pub fn player_line(identity: &str, bus_name: &str, preferred_name: &str) -> (line: String)
    ensures
        line@ == player_line_of(identity@, bus_name@, preferred_name@),
{
    let mut line = identity.to_owned();
    line.push_str(": ");
    line.push_str(bus_name);
    if same_text(bus_name, preferred_name) {
        line.push_str(" (preferred)");
    }
    line
}

/// The line of the help text for one command: its name, how its arguments
/// are written where it takes any, and what it does.
pub open spec fn command_line_of(
    name: Seq<char>,
    usage: Seq<char>,
    description: Seq<char>,
) -> Seq<char> {
    if usage.len() == 0 {
        "  "@ + name + " - "@ + description
    } else {
        "  "@ + name + " "@ + usage + " - "@ + description
    }
}

pub fn command_line(name: &str, usage: &str, description: &str) -> (line: String)
    ensures
        line@ == command_line_of(name@, usage@, description@),
{
    let mut line = "  ".to_owned();
    line.push_str(name);
    if !usage.is_empty() {
        line.push_str(" ");
        line.push_str(usage);
    }
    line.push_str(" - ");
    line.push_str(description);
    line
}

} // verus!
