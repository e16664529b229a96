use crate::text::same_text;
use vstd::prelude::*;

verus! {

/// The commands of the command line.
#[derive(Clone, Copy, Debug, PartialEq, Eq, Hash, Structural)]
pub enum CommandName {
    Help,
    List,
    Status,
    SetPlayer,
    ScrollPlayer,
    Play,
    Pause,
    PlayPause,
    Stop,
    Next,
    Previous,
    Raise,
    Volume,
    Metadata,
    Position,
    Loop,
    Shuffle,
    Show,
    Waybar,
}

/// The word that stands for a command on the command line.
pub open spec fn value_of(name: CommandName) -> Seq<char> {
    match name {
        CommandName::Help => "help"@,
        CommandName::List => "list"@,
        CommandName::Status => "status"@,
        CommandName::SetPlayer => "set-player"@,
        CommandName::ScrollPlayer => "scroll-player"@,
        CommandName::Play => "play"@,
        CommandName::Pause => "pause"@,
        CommandName::PlayPause => "play-pause"@,
        CommandName::Stop => "stop"@,
        CommandName::Next => "next"@,
        CommandName::Previous => "previous"@,
        CommandName::Raise => "raise"@,
        CommandName::Volume => "volume"@,
        CommandName::Metadata => "metadata"@,
        CommandName::Position => "position"@,
        CommandName::Loop => "loop"@,
        CommandName::Shuffle => "shuffle"@,
        CommandName::Show => "show"@,
        CommandName::Waybar => "waybar"@,
    }
}

/// The command that a word stands for.
pub open spec fn named(word: Seq<char>) -> Option<CommandName> {
    if word == "help"@ {
        Some(CommandName::Help)
    } else if word == "list"@ {
        Some(CommandName::List)
    } else if word == "status"@ {
        Some(CommandName::Status)
    } else if word == "set-player"@ {
        Some(CommandName::SetPlayer)
    } else if word == "scroll-player"@ {
        Some(CommandName::ScrollPlayer)
    } else if word == "play"@ {
        Some(CommandName::Play)
    } else if word == "pause"@ {
        Some(CommandName::Pause)
    } else if word == "play-pause"@ {
        Some(CommandName::PlayPause)
    } else if word == "stop"@ {
        Some(CommandName::Stop)
    } else if word == "next"@ {
        Some(CommandName::Next)
    } else if word == "previous"@ {
        Some(CommandName::Previous)
    } else if word == "raise"@ {
        Some(CommandName::Raise)
    } else if word == "volume"@ {
        Some(CommandName::Volume)
    } else if word == "metadata"@ {
        Some(CommandName::Metadata)
    } else if word == "position"@ {
        Some(CommandName::Position)
    } else if word == "loop"@ {
        Some(CommandName::Loop)
    } else if word == "shuffle"@ {
        Some(CommandName::Shuffle)
    } else if word == "show"@ {
        Some(CommandName::Show)
    } else if word == "waybar"@ {
        Some(CommandName::Waybar)
    } else {
        None
    }
}

/// The commands, each once.
pub open spec fn all_names() -> Seq<CommandName> {
    seq![
        CommandName::Help,
        CommandName::List,
        CommandName::Status,
        CommandName::SetPlayer,
        CommandName::ScrollPlayer,
        CommandName::Play,
        CommandName::Pause,
        CommandName::PlayPause,
        CommandName::Stop,
        CommandName::Next,
        CommandName::Previous,
        CommandName::Raise,
        CommandName::Volume,
        CommandName::Metadata,
        CommandName::Position,
        CommandName::Loop,
        CommandName::Shuffle,
        CommandName::Show,
        CommandName::Waybar,
    ]
}

proof fn reveal_words()
    ensures
        "help"@.len() == 4,
        "list"@.len() == 4,
        "status"@.len() == 6,
        "set-player"@.len() == 10,
        "scroll-player"@.len() == 13,
        "play"@.len() == 4,
        "pause"@.len() == 5,
        "play-pause"@.len() == 10,
        "stop"@.len() == 4,
        "next"@.len() == 4,
        "previous"@.len() == 8,
        "raise"@.len() == 5,
        "volume"@.len() == 6,
        "metadata"@.len() == 8,
        "position"@.len() == 8,
        "loop"@.len() == 4,
        "shuffle"@.len() == 7,
        "show"@.len() == 4,
        "waybar"@.len() == 6,
        "help"@ == seq!['h', 'e', 'l', 'p'],
        "list"@ == seq!['l', 'i', 's', 't'],
        "status"@ == seq!['s', 't', 'a', 't', 'u', 's'],
        "set-player"@ == seq!['s', 'e', 't', '-', 'p', 'l', 'a', 'y', 'e', 'r'],
        "scroll-player"@ == seq!['s', 'c', 'r', 'o', 'l', 'l', '-', 'p', 'l', 'a', 'y', 'e', 'r'],
        "play"@ == seq!['p', 'l', 'a', 'y'],
        "pause"@ == seq!['p', 'a', 'u', 's', 'e'],
        "play-pause"@ == seq!['p', 'l', 'a', 'y', '-', 'p', 'a', 'u', 's', 'e'],
        "stop"@ == seq!['s', 't', 'o', 'p'],
        "next"@ == seq!['n', 'e', 'x', 't'],
        "previous"@ == seq!['p', 'r', 'e', 'v', 'i', 'o', 'u', 's'],
        "raise"@ == seq!['r', 'a', 'i', 's', 'e'],
        "volume"@ == seq!['v', 'o', 'l', 'u', 'm', 'e'],
        "metadata"@ == seq!['m', 'e', 't', 'a', 'd', 'a', 't', 'a'],
        "position"@ == seq!['p', 'o', 's', 'i', 't', 'i', 'o', 'n'],
        "loop"@ == seq!['l', 'o', 'o', 'p'],
        "shuffle"@ == seq!['s', 'h', 'u', 'f', 'f', 'l', 'e'],
        "show"@ == seq!['s', 'h', 'o', 'w'],
        "waybar"@ == seq!['w', 'a', 'y', 'b', 'a', 'r'],
{
    reveal_strlit("help");
    reveal_strlit("list");
    reveal_strlit("status");
    reveal_strlit("set-player");
    reveal_strlit("scroll-player");
    reveal_strlit("play");
    reveal_strlit("pause");
    reveal_strlit("play-pause");
    reveal_strlit("stop");
    reveal_strlit("next");
    reveal_strlit("previous");
    reveal_strlit("raise");
    reveal_strlit("volume");
    reveal_strlit("metadata");
    reveal_strlit("position");
    reveal_strlit("loop");
    reveal_strlit("shuffle");
    reveal_strlit("show");
    reveal_strlit("waybar");
    assert("help"@ =~= seq!['h', 'e', 'l', 'p']);
    assert("list"@ =~= seq!['l', 'i', 's', 't']);
    assert("status"@ =~= seq!['s', 't', 'a', 't', 'u', 's']);
    assert("set-player"@ =~= seq!['s', 'e', 't', '-', 'p', 'l', 'a', 'y', 'e', 'r']);
    assert("scroll-player"@ =~= seq!['s', 'c', 'r', 'o', 'l', 'l', '-', 'p', 'l', 'a', 'y', 'e', 'r']);
    assert("play"@ =~= seq!['p', 'l', 'a', 'y']);
    assert("pause"@ =~= seq!['p', 'a', 'u', 's', 'e']);
    assert("play-pause"@ =~= seq!['p', 'l', 'a', 'y', '-', 'p', 'a', 'u', 's', 'e']);
    assert("stop"@ =~= seq!['s', 't', 'o', 'p']);
    assert("next"@ =~= seq!['n', 'e', 'x', 't']);
    assert("previous"@ =~= seq!['p', 'r', 'e', 'v', 'i', 'o', 'u', 's']);
    assert("raise"@ =~= seq!['r', 'a', 'i', 's', 'e']);
    assert("volume"@ =~= seq!['v', 'o', 'l', 'u', 'm', 'e']);
    assert("metadata"@ =~= seq!['m', 'e', 't', 'a', 'd', 'a', 't', 'a']);
    assert("position"@ =~= seq!['p', 'o', 's', 'i', 't', 'i', 'o', 'n']);
    assert("loop"@ =~= seq!['l', 'o', 'o', 'p']);
    assert("shuffle"@ =~= seq!['s', 'h', 'u', 'f', 'f', 'l', 'e']);
    assert("show"@ =~= seq!['s', 'h', 'o', 'w']);
    assert("waybar"@ =~= seq!['w', 'a', 'y', 'b', 'a', 'r']);
}

/// No two commands share a word.
pub proof fn lemma_words_differ(a: CommandName, b: CommandName)
    requires
        a != b,
    ensures
        value_of(a) != value_of(b),
{
    reveal_words();
    let x = value_of(a);
    let y = value_of(b);
    if x.len() == y.len() {
        assert(x[0] != y[0] || x[1] != y[1] || x[2] != y[2] || x[3] != y[3]);
    }
}

/// The word of a command stands for that command, and a word that stands
/// for a command is the word of that command.
pub proof fn lemma_word_round_trip(name: CommandName)
    ensures
        named(value_of(name)) == Some(name),
        forall|word: Seq<char>| named(word) == Some(name) ==> word == value_of(name),
{
    let found = named(value_of(name));
    assert(found is Some);
    if found->0 != name {
        lemma_words_differ(found->0, name);
    }
}

/// Every command is listed, and none twice.
pub proof fn lemma_all_names_complete(name: CommandName)
    ensures
        all_names().contains(name),
        all_names().no_duplicates(),
        all_names().len() == 19,
{
    let all = all_names();
    let i: int = match name {
        CommandName::Help => 0,
        CommandName::List => 1,
        CommandName::Status => 2,
        CommandName::SetPlayer => 3,
        CommandName::ScrollPlayer => 4,
        CommandName::Play => 5,
        CommandName::Pause => 6,
        CommandName::PlayPause => 7,
        CommandName::Stop => 8,
        CommandName::Next => 9,
        CommandName::Previous => 10,
        CommandName::Raise => 11,
        CommandName::Volume => 12,
        CommandName::Metadata => 13,
        CommandName::Position => 14,
        CommandName::Loop => 15,
        CommandName::Shuffle => 16,
        CommandName::Show => 17,
        CommandName::Waybar => 18,
    };
    assert(all[i] == name);
}

impl CommandName {
    pub fn value(&self) -> (word: &'static str)
        ensures
            word@ == value_of(*self),
    {
        match self {
            CommandName::Help => "help",
            CommandName::List => "list",
            CommandName::Status => "status",
            CommandName::SetPlayer => "set-player",
            CommandName::ScrollPlayer => "scroll-player",
            CommandName::Play => "play",
            CommandName::Pause => "pause",
            CommandName::PlayPause => "play-pause",
            CommandName::Stop => "stop",
            CommandName::Next => "next",
            CommandName::Previous => "previous",
            CommandName::Raise => "raise",
            CommandName::Volume => "volume",
            CommandName::Metadata => "metadata",
            CommandName::Position => "position",
            CommandName::Loop => "loop",
            CommandName::Shuffle => "shuffle",
            CommandName::Show => "show",
            CommandName::Waybar => "waybar",
        }
    }

    /// The command that `str` stands for, `None` where it stands for
    /// none.
    pub fn from(str: &str) -> (name: Option<CommandName>)
        ensures
            name == named(str@),
            match name {
                Some(found) => value_of(found) == str@,
                None => forall|other: CommandName| value_of(other) != str@,
            },
    {
        proof {
            assert forall|other: CommandName| named(str@) is None implies value_of(other)
                != str@ by {
                lemma_word_round_trip(other);
            }
        }
        if same_text(str, "help") {
            Some(CommandName::Help)
        } else if same_text(str, "list") {
            Some(CommandName::List)
        } else if same_text(str, "status") {
            Some(CommandName::Status)
        } else if same_text(str, "set-player") {
            Some(CommandName::SetPlayer)
        } else if same_text(str, "scroll-player") {
            Some(CommandName::ScrollPlayer)
        } else if same_text(str, "play") {
            Some(CommandName::Play)
        } else if same_text(str, "pause") {
            Some(CommandName::Pause)
        } else if same_text(str, "play-pause") {
            Some(CommandName::PlayPause)
        } else if same_text(str, "stop") {
            Some(CommandName::Stop)
        } else if same_text(str, "next") {
            Some(CommandName::Next)
        } else if same_text(str, "previous") {
            Some(CommandName::Previous)
        } else if same_text(str, "raise") {
            Some(CommandName::Raise)
        } else if same_text(str, "volume") {
            Some(CommandName::Volume)
        } else if same_text(str, "metadata") {
            Some(CommandName::Metadata)
        } else if same_text(str, "position") {
            Some(CommandName::Position)
        } else if same_text(str, "loop") {
            Some(CommandName::Loop)
        } else if same_text(str, "shuffle") {
            Some(CommandName::Shuffle)
        } else if same_text(str, "show") {
            Some(CommandName::Show)
        } else if same_text(str, "waybar") {
            Some(CommandName::Waybar)
        } else {
            None
        }
    }

    /// All commands, each once.
    pub fn all() -> (names: Vec<CommandName>)
        ensures
            names@ == all_names(),
    {
        let names = vec![
            CommandName::Help,
            CommandName::List,
            CommandName::Status,
            CommandName::SetPlayer,
            CommandName::ScrollPlayer,
            CommandName::Play,
            CommandName::Pause,
            CommandName::PlayPause,
            CommandName::Stop,
            CommandName::Next,
            CommandName::Previous,
            CommandName::Raise,
            CommandName::Volume,
            CommandName::Metadata,
            CommandName::Position,
            CommandName::Loop,
            CommandName::Shuffle,
            CommandName::Show,
            CommandName::Waybar,
        ];
        proof {
            assert(names@ =~= all_names());
        }
        names
    }
}

impl std::str::FromStr for CommandName {
    type Err = ();

    fn from_str(s: &str) -> (result: Result<CommandName, ()>)
        ensures
            match result {
                Ok(name) => named(s@) == Some(name) && value_of(name) == s@,
                Err(_) => named(s@) is None,
            },
    {
        match CommandName::from(s) {
            Some(name) => Ok(name),
            None => Err(()),
        }
    }
}

} // verus!
