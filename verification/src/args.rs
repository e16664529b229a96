use crate::text_map::TextMap;
use vstd::prelude::*;

verus! {

/// A flag that the command line may carry: `--name`, or `-short_name`,
/// with `=value` behind it where the flag has a value.
#[derive(Clone, Copy, Debug, PartialEq, Eq)]
pub struct CommandFlag {
    pub name: &'static str,
    pub short_name: Option<&'static str>,
    pub description: &'static str,
    pub has_value: bool,
}

impl CommandFlag {
    pub fn new(
        name: &'static str,
        short_name: Option<&'static str>,
        description: &'static str,
        has_value: bool,
    ) -> (flag: CommandFlag)
        ensures
            flag.name == name,
            flag.short_name == short_name,
            flag.description == description,
            flag.has_value == has_value,
    {
        CommandFlag { name, short_name, description, has_value }
    }

    /// The line of the help text for the flag: the ways it is written, the
    /// short one first, and what it does.
    pub open spec fn help_line_of(&self) -> Seq<char> {
        "  "@ + match self.short_name {
            Some(short) => "-"@ + short@ + ", "@,
            None => Seq::empty(),
        } + "--"@ + self.name@ + if self.has_value {
            "=<value>"@
        } else {
            Seq::empty()
        } + " - "@ + self.description@
    }

    pub fn help_line(&self) -> (line: String)
        ensures
            line@ == self.help_line_of(),
    {
        let mut line = "  ".to_owned();
        if let Some(short) = self.short_name {
            line.push_str("-");
            line.push_str(short);
            line.push_str(", ");
        }
        line.push_str("--");
        line.push_str(self.name);
        if self.has_value {
            line.push_str("=<value>");
        }
        line.push_str(" - ");
        line.push_str(self.description);
        proof {
            assert(line@ =~= self.help_line_of());
        }
        line
    }
}

/// Why a command line was refused.
#[derive(Debug, PartialEq, Eq)]
pub enum ArgError {
    /// No flag is written this way.
    UnknownFlag(String),
    /// The flag of this name has a value, and none was given.
    MissingValue(String),
    /// The flag of this name has no value, and one was given.
    UnexpectedValue(String),
}

pub ghost enum ArgErrorView {
    UnknownFlag(Seq<char>),
    MissingValue(Seq<char>),
    UnexpectedValue(Seq<char>),
}

impl View for ArgError {
    type V = ArgErrorView;

    open spec fn view(&self) -> ArgErrorView {
        match *self {
            ArgError::UnknownFlag(written) => ArgErrorView::UnknownFlag(written@),
            ArgError::MissingValue(name) => ArgErrorView::MissingValue(name@),
            ArgError::UnexpectedValue(name) => ArgErrorView::UnexpectedValue(name@),
        }
    }
}

impl ArgError {
    /// The text shown for the error.
    pub fn message(&self) -> (text: String)
        ensures
            text@ == match self@ {
                ArgErrorView::UnknownFlag(written) => "Unknown flag: "@ + written,
                ArgErrorView::MissingValue(name) => "Flag "@ + name + " requires value"@,
                ArgErrorView::UnexpectedValue(name) => "Flag "@ + name
                    + " does not require value"@,
            },
    {
        match self {
            ArgError::UnknownFlag(written) => {
                let mut text = "Unknown flag: ".to_owned();
                text.push_str(written.as_str());
                text
            },
            ArgError::MissingValue(name) => {
                let mut text = "Flag ".to_owned();
                text.push_str(name.as_str());
                text.push_str(" requires value");
                text
            },
            ArgError::UnexpectedValue(name) => {
                let mut text = "Flag ".to_owned();
                text.push_str(name.as_str());
                text.push_str(" does not require value");
                text
            },
        }
    }
}

/// A command line taken apart: the arguments that are no flags, in their
/// order, and the value given for each flag, under the flag's name. A flag
/// without a value is held with the empty text.
#[derive(Debug)]
pub struct ParsedArgs {
    pub args: Vec<String>,
    pub flags: TextMap<String>,
}

pub ghost struct ParsedArgsView {
    pub args: Seq<Seq<char>>,
    pub flags: Map<Seq<char>, Seq<char>>,
}

impl View for ParsedArgs {
    type V = ParsedArgsView;

    open spec fn view(&self) -> ParsedArgsView {
        ParsedArgsView {
            args: self.args.deep_view(),
            flags: self.flags@.map_values(|value: String| value@),
        }
    }
}

impl ParsedArgs {
    /// The argument at `idx`, counted from 0 and without the flags.
    pub fn get(&self, idx: usize) -> (arg: Option<&String>)
        ensures
            match arg {
                Some(text) => idx < self.args.len() && *text == self.args[idx as int],
                None => idx >= self.args.len(),
            },
    {
        if idx < self.args.len() {
            Some(&self.args[idx])
        } else {
            None
        }
    }
}

/// Where the first `=` of `s` stands, or the length of `s` where it has
/// none.
pub open spec fn cut(s: Seq<char>) -> int
    decreases s.len(),
{
    if s.len() == 0 || s[0] == '=' {
        0
    } else {
        1 + cut(s.drop_first())
    }
}

/// `cut(s)` is the one place before which no `=` stands and at which one
/// stands or `s` ends.
pub proof fn lemma_cut(s: Seq<char>, k: int)
    requires
        0 <= k <= s.len(),
        forall|i: int| 0 <= i < k ==> s[i] != '=',
        k < s.len() ==> s[k] == '=',
    ensures
        cut(s) == k,
    decreases s.len(),
{
    if k > 0 {
        assert(s[0] != '=');
        let rest = s.drop_first();
        assert forall|i: int| 0 <= i < k - 1 implies rest[i] != '=' by {
            assert(rest[i] == s[i + 1]);
        }
        lemma_cut(rest, k - 1);
    }
}

pub proof fn lemma_cut_bounds(s: Seq<char>)
    ensures
        0 <= cut(s) <= s.len(),
    decreases s.len(),
{
    if !(s.len() == 0 || s[0] == '=') {
        lemma_cut_bounds(s.drop_first());
    }
}

/// The way a flag is written: what stands before the first `=`.
pub open spec fn flag_prefix(arg: Seq<char>) -> Seq<char> {
    arg.take(cut(arg))
}

/// The value written for a flag: what stands between the first `=` and the
/// second, or the end; `None` where there is no `=`.
pub open spec fn flag_value(arg: Seq<char>) -> Option<Seq<char>> {
    if cut(arg) == arg.len() {
        None
    } else {
        let rest = arg.skip(cut(arg) + 1);
        Some(rest.take(cut(rest)))
    }
}

/// What one element of the command line says, given the ways in which the
/// known flags are written: `Ok(None)` where it is no flag, the flag's
/// name and value where it is one, and the error where it is refused.
pub open spec fn parsed_flag(table: Map<Seq<char>, CommandFlag>, arg: Seq<char>) -> Result<
    Option<(Seq<char>, Seq<char>)>,
    ArgErrorView,
> {
    if arg.len() == 0 || arg[0] != '-' {
        Ok(None)
    } else if !table.contains_key(flag_prefix(arg)) {
        Err(ArgErrorView::UnknownFlag(flag_prefix(arg)))
    } else {
        let flag = table[flag_prefix(arg)];
        match flag_value(arg) {
            Some(value) => if flag.has_value {
                Ok(Some((flag.name@, value)))
            } else {
                Err(ArgErrorView::UnexpectedValue(flag.name@))
            },
            None => if flag.has_value {
                Err(ArgErrorView::MissingValue(flag.name@))
            } else {
                Ok(Some((flag.name@, Seq::empty())))
            },
        }
    }
}

/// What a whole command line says: its elements are read from the first to
/// the last, and the first one that is refused decides.
pub open spec fn parsed_args(table: Map<Seq<char>, CommandFlag>, args: Seq<Seq<char>>) -> Result<
    ParsedArgsView,
    ArgErrorView,
>
    decreases args.len(),
{
    if args.len() == 0 {
        Ok(ParsedArgsView { args: Seq::empty(), flags: Map::empty() })
    } else {
        match parsed_args(table, args.drop_last()) {
            Err(error) => Err(error),
            Ok(earlier) => match parsed_flag(table, args.last()) {
                Err(error) => Err(error),
                Ok(None) => Ok(
                    ParsedArgsView { args: earlier.args.push(args.last()), flags: earlier.flags },
                ),
                Ok(Some((name, value))) => Ok(
                    ParsedArgsView { args: earlier.args, flags: earlier.flags.insert(name, value) },
                ),
            },
        }
    }
}

/// Splits an element of the command line at its `=` signs and returns the
/// first piece and, where there is one, the second.
pub fn split_flag(arg: &str) -> (pieces: (String, Option<String>))
    ensures
        pieces.0@ == flag_prefix(arg@),
        match pieces.1 {
            Some(value) => flag_value(arg@) == Some(value@),
            None => flag_value(arg@) is None,
        },
{
    let mut prefix = String::new();
    let mut value = String::new();
    let mut piece: u8 = 0;
    let ghost mut first: int = 0;
    let ghost mut second: int = 0;
    for c in it: arg.chars()
        invariant
            it.seq() == arg@,
            piece <= 2,
            piece == 0 ==> value@.len() == 0 && prefix@ == arg@.take(it.index() as int)
                && forall|i: int| 0 <= i < it.index() ==> arg@[i] != '=',
            piece >= 1 ==> 0 <= first < it.index() && arg@[first] == '=' && prefix@ == arg@.take(
                first,
            ) && forall|i: int| 0 <= i < first ==> arg@[i] != '=',
            piece == 1 ==> value@ == arg@.subrange(first + 1, it.index() as int) && forall|i: int|
                first < i < it.index() ==> arg@[i] != '=',
            piece == 2 ==> first < second < it.index() && arg@[second] == '=' && value@
                == arg@.subrange(first + 1, second) && forall|i: int|
                first < i < second ==> arg@[i] != '=',
    {
        let ghost at = it.index() as int;
        assert(arg@[at] == c);
        if piece == 0 {
            if c == '=' {
                piece = 1;
                proof {
                    first = at;
                    assert(value@ =~= arg@.subrange(first + 1, at + 1));
                }
            } else {
                prefix.push(c);
                proof {
                    assert(arg@.take(at + 1) =~= arg@.take(at).push(c));
                }
            }
        } else if piece == 1 {
            if c == '=' {
                piece = 2;
                proof {
                    second = at;
                }
            } else {
                value.push(c);
                proof {
                    assert(arg@.subrange(first + 1, at + 1) =~= arg@.subrange(first + 1, at).push(
                        c,
                    ));
                }
            }
        }
    }
    proof {
        let n = arg@.len() as int;
        if piece == 0 {
            lemma_cut(arg@, n);
            assert(arg@.take(n) =~= arg@);
        } else {
            lemma_cut(arg@, first);
            let rest = arg@.skip(first + 1);
            let end = if piece == 1 {
                n
            } else {
                second
            };
            assert forall|i: int| 0 <= i < end - first - 1 implies rest[i] != '=' by {
                assert(rest[i] == arg@[first + 1 + i]);
            }
            lemma_cut(rest, end - first - 1);
            assert(rest.take(end - first - 1) =~= arg@.subrange(first + 1, end));
        }
    }
    if piece == 0 {
        (prefix, None)
    } else {
        (prefix, Some(value))
    }
}

/// Reads command lines against a set of known flags.
pub struct ArgParser {
    flags: TextMap<CommandFlag>,
}

/// The ways in which `flag` is written, with the flag itself: its name
/// behind two dashes and, where it has one, its short name behind one.
pub open spec fn with_flag(table: Map<Seq<char>, CommandFlag>, flag: CommandFlag) -> Map<
    Seq<char>,
    CommandFlag,
> {
    let long = table.insert("--"@ + flag.name@, flag);
    match flag.short_name {
        Some(short) => long.insert("-"@ + short@, flag),
        None => long,
    }
}

impl ArgParser {
    /// The ways in which the known flags are written, each with its flag.
    pub closed spec fn table(&self) -> Map<Seq<char>, CommandFlag> {
        self.flags@
    }

    pub fn new() -> (parser: ArgParser)
        ensures
            parser.table() == Map::<Seq<char>, CommandFlag>::empty(),
    {
        ArgParser { flags: TextMap::new() }
    }

    /// Makes `flag` known. A flag added later takes the place of an
    /// earlier one that is written in the same way.
    pub fn add_flag(&mut self, flag: &'static CommandFlag)
        ensures
            final(self).table() == with_flag(old(self).table(), *flag),
    {
        let mut long = "--".to_owned();
        long.push_str(flag.name);
        self.flags.insert(long, *flag);
        if let Some(short_name) = flag.short_name {
            let mut short = "-".to_owned();
            short.push_str(short_name);
            self.flags.insert(short, *flag);
        }
    }

    /// Reads one element of the command line.
    ///
    /// An element that does not start with a dash is no flag. Else what
    /// stands before its first `=` must be the way a known flag is
    /// written, and a value must follow the `=` exactly where the flag has
    /// one.
    pub fn parse_flag(&self, arg: &str) -> (result: Result<Option<(String, String)>, ArgError>)
        ensures
            match result {
                Ok(Some(pair)) => parsed_flag(self.table(), arg@) == Ok::<
                    Option<(Seq<char>, Seq<char>)>,
                    ArgErrorView,
                >(Some((pair.0@, pair.1@))),
                Ok(None) => parsed_flag(self.table(), arg@) == Ok::<
                    Option<(Seq<char>, Seq<char>)>,
                    ArgErrorView,
                >(None),
                Err(error) => parsed_flag(self.table(), arg@) == Err::<
                    Option<(Seq<char>, Seq<char>)>,
                    ArgErrorView,
                >(error@),
            },
            result == Ok::<Option<(String, String)>, ArgError>(None) <==> (arg@.len() == 0
                || arg@[0] != '-'),
    {
        let (prefix, value) = split_flag(arg);
        proof {
            lemma_cut_bounds(arg@);
            if arg@.len() > 0 && arg@[0] != '=' {
                lemma_cut_bounds(arg@.drop_first());
                assert(cut(arg@) >= 1);
                assert(prefix@[0] == arg@[0]);
            } else if arg@.len() > 0 {
                assert(cut(arg@) == 0);
            }
        }
        if prefix.as_str().is_empty() || prefix.as_str().get_char(0) != '-' {
            return Ok(None);
        }
        let flag = match self.flags.get(prefix.as_str()) {
            None => {
                return Err(ArgError::UnknownFlag(prefix));
            },
            Some(flag) => flag,
        };
        match value {
            Some(value) => {
                if flag.has_value {
                    Ok(Some((flag.name.to_owned(), value)))
                } else {
                    Err(ArgError::UnexpectedValue(flag.name.to_owned()))
                }
            },
            None => {
                if flag.has_value {
                    Err(ArgError::MissingValue(flag.name.to_owned()))
                } else {
                    Ok(Some((flag.name.to_owned(), String::new())))
                }
            },
        }
    }

    /// Reads a command line: the elements that are no flags are kept in
    /// their order, and each flag is held under its name with its value,
    /// the last occurrence of a flag deciding. The first element that is
    /// refused ends the reading with its error.
    pub fn parse_from_iter(&self, iter: Vec<String>) -> (result: Result<ParsedArgs, ArgError>)
        ensures
            match result {
                Ok(parsed) => parsed_args(self.table(), iter.deep_view()) == Ok::<
                    ParsedArgsView,
                    ArgErrorView,
                >(parsed@),
                Err(error) => parsed_args(self.table(), iter.deep_view()) == Err::<
                    ParsedArgsView,
                    ArgErrorView,
                >(error@),
            },
    {
        let mut args: Vec<String> = Vec::new();
        let mut flags: TextMap<String> = TextMap::new();
        let ghost all = iter.deep_view();
        let mut i: usize = 0;
        proof {
            assert(all.take(0) =~= Seq::<Seq<char>>::empty());
            assert(args.deep_view() =~= Seq::<Seq<char>>::empty());
            assert(flags@.map_values(|value: String| value@) =~= Map::<
                Seq<char>,
                Seq<char>,
            >::empty());
        }
        while i < iter.len()
            invariant
                i <= iter.len(),
                all == iter.deep_view(),
                parsed_args(self.table(), all.take(i as int)) == Ok::<ParsedArgsView, ArgErrorView>(
                    ParsedArgsView {
                        args: args.deep_view(),
                        flags: flags@.map_values(|value: String| value@),
                    },
                ),
            decreases iter.len() - i,
        {
            proof {
                assert(all.take(i + 1).drop_last() =~= all.take(i as int));
                assert(all.take(i + 1).last() == iter[i as int]@);
            }
            let ghost before = flags@;
            let ghost kept = args.deep_view();
            match self.parse_flag(iter[i].as_str()) {
                Err(error) => {
                    proof {
                        lemma_error_stays(self.table(), all, i as int + 1);
                    }
                    return Err(error);
                },
                Ok(Some((name, value))) => {
                    flags.insert(name, value);
                    proof {
                        assert(flags@.map_values(|value: String| value@) =~= before.map_values(
                            |value: String| value@,
                        ).insert(name@, value@));
                    }
                },
                Ok(None) => {
                    args.push(iter[i].clone());
                    proof {
                        assert(args.deep_view() =~= kept.push(iter[i as int]@));
                    }
                },
            }
            i = i + 1;
        }
        proof {
            assert(all.take(iter.len() as int) =~= all);
        }
        Ok(ParsedArgs { args, flags })
    }
}

/// Once the first elements of a command line are refused, the whole line
/// is, with the same error.
proof fn lemma_error_stays(table: Map<Seq<char>, CommandFlag>, args: Seq<Seq<char>>, n: int)
    requires
        0 <= n <= args.len(),
        parsed_args(table, args.take(n)) is Err,
    ensures
        parsed_args(table, args) == parsed_args(table, args.take(n)),
    decreases args.len(),
{
    if n == args.len() {
        assert(args.take(n) =~= args);
    } else {
        assert(args.drop_last().take(n) =~= args.take(n));
        lemma_error_stays(table, args.drop_last(), n);
    }
}

} // verus!
