use music_tui::ipc::{parse_flag, Cmd, Flag};

const ALL: [Cmd; 7] = [
    Cmd::PlayPause,
    Cmd::Next,
    Cmd::Previous,
    Cmd::VolumeUp,
    Cmd::VolumeDown,
    Cmd::Repeat,
    Cmd::Shuffle,
];

fn args(v: &[&str]) -> Vec<String> {
    v.iter().map(|s| s.to_string()).collect()
}

#[test]
fn every_command_reads_back_as_itself() {
    for c in ALL {
        assert_eq!(Cmd::from_str(c.as_str()), Some(c));
    }
}

#[test]
fn wire_names() {
    assert_eq!(Cmd::PlayPause.as_str(), "play-pause");
    assert_eq!(Cmd::VolumeDown.as_str(), "volume-down");
    assert_eq!(Cmd::Shuffle.as_str(), "shuffle");
}

#[test]
fn received_lines_ignore_surrounding_whitespace() {
    assert_eq!(Cmd::from_str("  next\n"), Some(Cmd::Next));
    assert_eq!(Cmd::from_str("\tvolume-up \r"), Some(Cmd::VolumeUp));
    assert_eq!(Cmd::from_str("Next"), None);
    assert_eq!(Cmd::from_str("ne xt"), None);
    assert_eq!(Cmd::from_str(""), None);
}

#[test]
fn flags_pick_the_first_recognized_one() {
    assert!(parse_flag(&args(&[])).is_none());
    assert!(parse_flag(&args(&["music", "-v"])).is_none());
    assert!(matches!(parse_flag(&args(&["--next"])), Some(Flag::Command(Cmd::Next))));
    assert!(matches!(
        parse_flag(&args(&["x", "--play-pause", "--next"])),
        Some(Flag::Command(Cmd::PlayPause))
    ));
    assert!(matches!(parse_flag(&args(&["-h"])), Some(Flag::Help)));
    assert!(matches!(parse_flag(&args(&["--help", "--next"])), Some(Flag::Help)));
    match parse_flag(&args(&["--bogus", "--next"])) {
        Some(Flag::Unknown(f)) => assert_eq!(f, "--bogus"),
        _ => panic!("an unknown -- flag is reported"),
    }
    // Command names match exactly after the dashes.
    assert!(matches!(parse_flag(&args(&["--next "])), Some(Flag::Unknown(_))));
}
