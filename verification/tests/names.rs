use rstroller::names::CommandName;
use std::collections::HashMap;

#[test]
fn test_command_name_from_str() {
    for cmd in CommandName::all() {
        let value = cmd.value();

        let cmd_from_str: CommandName = value
            .parse()
            .expect(format!("CommandName cannot be parsed from value {value}").as_str());

        assert_eq!(value, cmd_from_str.value());
    }
}

#[test]
fn test_no_duplicates() {
    let mut values = HashMap::new();
    for cmd in CommandName::all() {
        let value = cmd.value();

        if values.contains_key(value) {
            panic!("Duplicate value: {}", value);
        }
        values.insert(value, true);
    }
}

#[test]
fn all_lists_nineteen_commands() {
    let all = CommandName::all();
    assert_eq!(all.len(), 19);
    assert_eq!(all[0], CommandName::Help);
    assert_eq!(all[18], CommandName::Waybar);
}

#[test]
fn from_reads_each_word() {
    assert_eq!(CommandName::from("help"), Some(CommandName::Help));
    assert_eq!(CommandName::from("list"), Some(CommandName::List));
    assert_eq!(CommandName::from("set-player"), Some(CommandName::SetPlayer));
    assert_eq!(CommandName::from("scroll-player"), Some(CommandName::ScrollPlayer));
    assert_eq!(CommandName::from("play-pause"), Some(CommandName::PlayPause));
    assert_eq!(CommandName::from("waybar"), Some(CommandName::Waybar));
}

#[test]
fn from_refuses_other_words() {
    assert_eq!(CommandName::from(""), None);
    assert_eq!(CommandName::from("Help"), None);
    assert_eq!(CommandName::from("play "), None);
    assert_eq!(CommandName::from("list-players"), None);
    assert!("nothing".parse::<CommandName>().is_err());
}

#[test]
fn from_inverts_value() {
    for cmd in CommandName::all() {
        assert_eq!(CommandName::from(cmd.value()), Some(cmd));
    }
}
