use rstroller::args::ArgError;
use rstroller::args::ArgParser;
use rstroller::args::CommandFlag;
use rstroller::args::split_flag;

#[test]
fn test_parse_flag() {
    let args = vec![
        "/usr/bin/rstroller".to_string(),
        "--player=player1".to_string(),
        "-s".to_string(),
        "test".to_string(),
    ];

    let mut parser = ArgParser::new();

    parser.add_flag(&CommandFlag {
        name: "player",
        description: "sample flag with value",
        short_name: Some("p"),
        has_value: true,
    });
    parser.add_flag(&CommandFlag {
        name: "sample",
        description: "sample flag without value",
        short_name: Some("s"),
        has_value: false,
    });

    let parsed = parser.parse_from_iter(args).unwrap();
    assert_eq!(
        parsed.args,
        vec!["/usr/bin/rstroller".to_string(), "test".to_string()]
    );
    assert_eq!(parsed.flags.get("player"), Some(&"player1".to_string()));
}

const PLAYER: CommandFlag = CommandFlag {
    name: "player",
    short_name: Some("p"),
    description: "Specify the player for a single command",
    has_value: true,
};

const QUIET: CommandFlag = CommandFlag {
    name: "quiet",
    short_name: None,
    description: "say nothing",
    has_value: false,
};

fn parser() -> ArgParser {
    let mut parser = ArgParser::new();
    parser.add_flag(&PLAYER);
    parser.add_flag(&QUIET);
    parser
}

#[test]
fn flag_new_keeps_its_arguments() {
    let flag = CommandFlag::new("player", Some("p"), "which player", true);
    assert_eq!(flag.name, "player");
    assert_eq!(flag.short_name, Some("p"));
    assert_eq!(flag.description, "which player");
    assert!(flag.has_value);
}

#[test]
fn help_line_shows_both_ways_of_writing() {
    assert_eq!(
        PLAYER.help_line(),
        "  -p, --player=<value> - Specify the player for a single command"
    );
    assert_eq!(QUIET.help_line(), "  --quiet - say nothing");
}

#[test]
fn split_flag_takes_the_first_two_pieces() {
    assert_eq!(split_flag("--a"), ("--a".to_string(), None));
    assert_eq!(split_flag("--a=b"), ("--a".to_string(), Some("b".to_string())));
    assert_eq!(split_flag("--a="), ("--a".to_string(), Some("".to_string())));
    assert_eq!(split_flag("--a=b=c"), ("--a".to_string(), Some("b".to_string())));
    assert_eq!(split_flag("=b"), ("".to_string(), Some("b".to_string())));
    assert_eq!(split_flag(""), ("".to_string(), None));
    assert_eq!(split_flag("--é=ü"), ("--é".to_string(), Some("ü".to_string())));
}

#[test]
fn parse_flag_passes_over_what_is_no_flag() {
    let parser = parser();
    assert_eq!(parser.parse_flag("play"), Ok(None));
    assert_eq!(parser.parse_flag(""), Ok(None));
    assert_eq!(parser.parse_flag("a=-b"), Ok(None));
    assert_eq!(parser.parse_flag("=-b"), Ok(None));
}

#[test]
fn parse_flag_reads_long_and_short_forms() {
    let parser = parser();
    assert_eq!(
        parser.parse_flag("--player=vlc"),
        Ok(Some(("player".to_string(), "vlc".to_string())))
    );
    assert_eq!(
        parser.parse_flag("-p=vlc"),
        Ok(Some(("player".to_string(), "vlc".to_string())))
    );
    assert_eq!(
        parser.parse_flag("--player="),
        Ok(Some(("player".to_string(), "".to_string())))
    );
    assert_eq!(
        parser.parse_flag("--quiet"),
        Ok(Some(("quiet".to_string(), "".to_string())))
    );
}

#[test]
fn parse_flag_refuses_unknown_flags() {
    let parser = parser();
    assert_eq!(
        parser.parse_flag("--volume=3"),
        Err(ArgError::UnknownFlag("--volume".to_string()))
    );
    assert_eq!(parser.parse_flag("-q"), Err(ArgError::UnknownFlag("-q".to_string())));
    assert_eq!(parser.parse_flag("-"), Err(ArgError::UnknownFlag("-".to_string())));
    assert_eq!(
        ArgParser::new().parse_flag("--player=x"),
        Err(ArgError::UnknownFlag("--player".to_string()))
    );
}

#[test]
fn parse_flag_checks_the_value() {
    let parser = parser();
    assert_eq!(
        parser.parse_flag("--player"),
        Err(ArgError::MissingValue("player".to_string()))
    );
    assert_eq!(
        parser.parse_flag("-p"),
        Err(ArgError::MissingValue("player".to_string()))
    );
    assert_eq!(
        parser.parse_flag("--quiet=yes"),
        Err(ArgError::UnexpectedValue("quiet".to_string()))
    );
}

#[test]
fn error_messages() {
    assert_eq!(
        ArgError::UnknownFlag("--x".to_string()).message(),
        "Unknown flag: --x"
    );
    assert_eq!(
        ArgError::MissingValue("player".to_string()).message(),
        "Flag player requires value"
    );
    assert_eq!(
        ArgError::UnexpectedValue("quiet".to_string()).message(),
        "Flag quiet does not require value"
    );
}

#[test]
fn parse_keeps_order_and_last_flag_wins() {
    let parsed = parser()
        .parse_from_iter(vec![
            "prog".to_string(),
            "-p=one".to_string(),
            "volume".to_string(),
            "--player=two".to_string(),
            "0.5+".to_string(),
        ])
        .unwrap();
    assert_eq!(parsed.args, vec!["prog", "volume", "0.5+"]);
    assert_eq!(parsed.flags.get("player"), Some(&"two".to_string()));
    assert_eq!(parsed.flags.get("quiet"), None);
    assert_eq!(parsed.get(0), Some(&"prog".to_string()));
    assert_eq!(parsed.get(2), Some(&"0.5+".to_string()));
    assert_eq!(parsed.get(3), None);
}

#[test]
fn parse_of_nothing_is_empty() {
    let parsed = parser().parse_from_iter(vec![]).unwrap();
    assert!(parsed.args.is_empty());
    assert_eq!(parsed.flags.get("player"), None);
    assert_eq!(parsed.get(0), None);
}

#[test]
fn parse_stops_at_the_first_refused_element() {
    let result = parser().parse_from_iter(vec![
        "prog".to_string(),
        "--nope".to_string(),
        "--player".to_string(),
    ]);
    assert_eq!(result.unwrap_err(), ArgError::UnknownFlag("--nope".to_string()));
}

#[test]
fn later_flag_replaces_one_written_the_same_way() {
    let mut parser = ArgParser::new();
    parser.add_flag(&CommandFlag {
        name: "first",
        short_name: Some("x"),
        description: "",
        has_value: false,
    });
    parser.add_flag(&CommandFlag {
        name: "second",
        short_name: Some("x"),
        description: "",
        has_value: true,
    });
    assert_eq!(
        parser.parse_flag("-x=1"),
        Ok(Some(("second".to_string(), "1".to_string())))
    );
    assert_eq!(
        parser.parse_flag("--first"),
        Ok(Some(("first".to_string(), "".to_string())))
    );
}
