//! Remote-control commands: their wire names, parsing of a received line,
//! and the command-line flags that send one to a running instance.
use vstd::prelude::*;

use crate::text::{chars_of, has_prefix, same_chars, skip_chars, starts_with_chars, trim, trim_chars};

verus! {

/// A command sent to the running player over its control socket.
#[derive(Clone, Copy, Debug, PartialEq, Eq, Structural)]
pub enum Cmd {
    PlayPause,
    Next,
    Previous,
    VolumeUp,
    VolumeDown,
    Repeat,
    Shuffle,
}

/// The wire name of a command.
pub open spec fn cmd_name(c: Cmd) -> Seq<char> {
    match c {
        Cmd::PlayPause => "play-pause"@,
        Cmd::Next => "next"@,
        Cmd::Previous => "previous"@,
        Cmd::VolumeUp => "volume-up"@,
        Cmd::VolumeDown => "volume-down"@,
        Cmd::Repeat => "repeat"@,
        Cmd::Shuffle => "shuffle"@,
    }
}

/// The command whose wire name is exactly `s`.
pub open spec fn cmd_named(s: Seq<char>) -> Option<Cmd> {
    if s == cmd_name(Cmd::PlayPause) {
        Some(Cmd::PlayPause)
    } else if s == cmd_name(Cmd::Next) {
        Some(Cmd::Next)
    } else if s == cmd_name(Cmd::Previous) {
        Some(Cmd::Previous)
    } else if s == cmd_name(Cmd::VolumeUp) {
        Some(Cmd::VolumeUp)
    } else if s == cmd_name(Cmd::VolumeDown) {
        Some(Cmd::VolumeDown)
    } else if s == cmd_name(Cmd::Repeat) {
        Some(Cmd::Repeat)
    } else if s == cmd_name(Cmd::Shuffle) {
        Some(Cmd::Shuffle)
    } else {
        None
    }
}

/// The command a received line names, surrounding whitespace ignored.
pub open spec fn parsed_cmd(line: Seq<char>) -> Option<Cmd> {
    cmd_named(trim(line))
}

/// The command whose wire name is exactly `v`.
fn cmd_of_chars(v: &Vec<char>) -> (r: Option<Cmd>)
    ensures
        r == cmd_named(v@),
{
    if same_chars(v, "play-pause") {
        Some(Cmd::PlayPause)
    } else if same_chars(v, "next") {
        Some(Cmd::Next)
    } else if same_chars(v, "previous") {
        Some(Cmd::Previous)
    } else if same_chars(v, "volume-up") {
        Some(Cmd::VolumeUp)
    } else if same_chars(v, "volume-down") {
        Some(Cmd::VolumeDown)
    } else if same_chars(v, "repeat") {
        Some(Cmd::Repeat)
    } else if same_chars(v, "shuffle") {
        Some(Cmd::Shuffle)
    } else {
        None
    }
}

impl Cmd {
    /// The command a received line names (whitespace around it ignored), if any.
    pub fn from_str(s: &str) -> (r: Option<Cmd>)
        ensures
            r == parsed_cmd(s@),
    {
        let t = trim_chars(&chars_of(s));
        cmd_of_chars(&t)
    }

    /// The command's wire name.
    pub fn as_str(&self) -> (r: &'static str)
        ensures
            r@ == cmd_name(*self),
    {
        match self {
            Cmd::PlayPause => "play-pause",
            Cmd::Next => "next",
            Cmd::Previous => "previous",
            Cmd::VolumeUp => "volume-up",
            Cmd::VolumeDown => "volume-down",
            Cmd::Repeat => "repeat",
            Cmd::Shuffle => "shuffle",
        }
    }
}

/// Reading back a sent command gives the same command: the receiver parses
/// every wire name to the command it names.
pub proof fn law_cmd_roundtrip(c: Cmd)
    ensures
        parsed_cmd(cmd_name(c)) == Some(c),
{
    reveal_strlit("play-pause");
    reveal_strlit("next");
    reveal_strlit("previous");
    reveal_strlit("volume-up");
    reveal_strlit("volume-down");
    reveal_strlit("repeat");
    reveal_strlit("shuffle");
    let s = cmd_name(c);
    assert(s.len() > 0 && !crate::text::is_white(s[0]));
    assert(crate::text::trim_start(s) == s);
    assert(!crate::text::is_white(s.last()));
    assert(crate::text::trim_end(s) == s);
}

/// What a command-line flag asks for.
pub enum Flag {
    /// Send this command to the running instance.
    Command(Cmd),
    /// Print the usage text.
    Help,
    /// A `--` flag that is not known (the flag itself).
    Unknown(String),
}

/// The value of a [`Flag`].
pub enum FlagView {
    Command(Cmd),
    Help,
    Unknown(Seq<char>),
}

impl View for Flag {
    type V = FlagView;

    open spec fn view(&self) -> FlagView {
        match self {
            Flag::Command(c) => FlagView::Command(*c),
            Flag::Help => FlagView::Help,
            Flag::Unknown(s) => FlagView::Unknown(s@),
        }
    }
}

/// What one argument asks for: `--<command>`, `--help` or `-h`, another
/// `--` flag, or nothing.
pub open spec fn arg_flag(a: Seq<char>) -> Option<FlagView> {
    if has_prefix(a, "--"@) && cmd_named(a.skip(2)) is Some {
        Some(FlagView::Command(cmd_named(a.skip(2))->0))
    } else if a == "--help"@ || a == "-h"@ {
        Some(FlagView::Help)
    } else if has_prefix(a, "--"@) {
        Some(FlagView::Unknown(a))
    } else {
        None
    }
}

/// What one argument asks for.
fn flag_of(a: &str) -> (r: Option<Flag>)
    ensures
        match r {
            Some(f) => arg_flag(a@) == Some(f@),
            None => arg_flag(a@) is None,
        },
{
    let v = chars_of(a);
    let dashes = chars_of("--");
    proof {
        reveal_strlit("--");
    }
    if starts_with_chars(&v, &dashes) {
        let rest = skip_chars(&v, 2);
        if let Some(c) = cmd_of_chars(&rest) {
            return Some(Flag::Command(c));
        }
    }
    if same_chars(&v, "--help") || same_chars(&v, "-h") {
        return Some(Flag::Help);
    }
    if starts_with_chars(&v, &dashes) {
        return Some(Flag::Unknown(crate::text::string_of(&v)));
    }
    None
}

/// The first argument that asks for something, and what it asks for.
pub open spec fn first_flag(args: Seq<Seq<char>>) -> Option<FlagView>
    decreases args.len(),
{
    if args.len() == 0 {
        None
    } else if arg_flag(args[0]) is Some {
        arg_flag(args[0])
    } else {
        first_flag(args.drop_first())
    }
}

/// The first recognized flag among the program's arguments (the program
/// name excluded): a command to send, a request for help, or an unknown
/// `--` flag; `None` to start the player normally.
pub fn parse_flag(args: &Vec<String>) -> (r: Option<Flag>)
    ensures
        match r {
            Some(f) => first_flag(crate::model::strings_view(args@)) == Some(f@),
            None => first_flag(crate::model::strings_view(args@)) is None,
        },
{
    let ghost all = crate::model::strings_view(args@);
    let mut i: usize = 0;
    assert(all.skip(0) =~= all);
    while i < args.len()
        invariant
            i <= args.len(),
            all == crate::model::strings_view(args@),
            first_flag(all) == first_flag(all.skip(i as int)),
        decreases args.len() - i,
    {
        let f = flag_of(args[i].as_str());
        assert(all.skip(i as int)[0] == args@[i as int]@);
        assert(all.skip(i as int).drop_first() =~= all.skip(i + 1));
        if f.is_some() {
            return f;
        }
        i = i + 1;
    }
    None
}

} // verus!
