use vstd::prelude::*;

verus! {

/// The numeric value of a non-empty run of decimal digits.
pub open spec fn digits_value(s: Seq<char>) -> int
    decreases s.len(),
{
    if s.len() == 0 {
        0
    } else {
        digits_value(s.drop_last()) * 10 + (s.last() as int - '0' as int)
    }
}

/// Every character is a decimal digit.
pub open spec fn all_digits(s: Seq<char>) -> bool {
    forall|i: int| 0 <= i < s.len() ==> '0' <= #[trigger] s[i] <= '9'
}

/// The value that std's unsigned integer parsing reads from `s`: an optional
/// `+`, then one or more decimal digits, nothing else.
pub open spec fn decimal_value(s: Seq<char>) -> Option<int> {
    let d = if s.len() > 0 && s[0] == '+' {
        s.subrange(1, s.len() as int)
    } else {
        s
    };
    if d.len() > 0 && all_digits(d) {
        Some(digits_value(d))
    } else {
        None
    }
}

/// `s` read as a `usize`, if it is a decimal number in range.
pub open spec fn usize_text(s: Seq<char>) -> Option<usize> {
    match decimal_value(s) {
        Some(v) => if v <= usize::MAX {
            Some(v as usize)
        } else {
            None
        },
        None => None,
    }
}

/// `s` read as a `u8`, if it is a decimal number in range.
pub open spec fn u8_text(s: Seq<char>) -> Option<u8> {
    match decimal_value(s) {
        Some(v) => if v <= u8::MAX {
            Some(v as u8)
        } else {
            None
        },
        None => None,
    }
}

/// Relies on `<usize as FromStr>::from_str`: an optional `+` and decimal
/// digits whose value fits, else an error.
#[verifier::external_body]
fn parse_usize(s: &str) -> (r: Option<usize>)
    ensures
        r == usize_text(s@),
{
    s.parse::<usize>().ok()
}

/// Relies on `<u8 as FromStr>::from_str`: an optional `+` and decimal digits
/// whose value fits, else an error.
#[verifier::external_body]
fn parse_u8(s: &str) -> (r: Option<u8>)
    ensures
        r == u8_text(s@),
{
    s.parse::<u8>().ok()
}

/// A verb and its arguments, as the command boundary hands them over.
pub enum Command {
    /// Write one lighting channel.
    SetDmxValue { universe: usize, channel: usize, value: u8 },
    /// Start a cue; the volume is still text, as given.
    PlaySound { file_name: String, volume: String },
    /// Stop every cue under one identifier.
    StopSound { file_name: String },
    /// Stop every cue.
    StopAllSounds,
    /// Set the master volume; the level is still text, as given.
    SetVolume { level: String },
    /// A known verb with the wrong number of arguments: nothing is done.
    Ignored,
    /// A lighting argument that is not a number in range.
    Malformed,
    /// A verb that is not known.
    Unknown,
}

/// A `Command` as the contracts see it.
pub enum CommandView {
    SetDmxValue { universe: usize, channel: usize, value: u8 },
    PlaySound { file_name: Seq<char>, volume: Seq<char> },
    StopSound { file_name: Seq<char> },
    StopAllSounds,
    SetVolume { level: Seq<char> },
    Ignored,
    Malformed,
    Unknown,
}

impl View for Command {
    type V = CommandView;

    open spec fn view(&self) -> CommandView {
        match self {
            Command::SetDmxValue { universe, channel, value } => CommandView::SetDmxValue {
                universe: *universe,
                channel: *channel,
                value: *value,
            },
            Command::PlaySound { file_name, volume } => CommandView::PlaySound {
                file_name: file_name@,
                volume: volume@,
            },
            Command::StopSound { file_name } => CommandView::StopSound { file_name: file_name@ },
            Command::StopAllSounds => CommandView::StopAllSounds,
            Command::SetVolume { level } => CommandView::SetVolume { level: level@ },
            Command::Ignored => CommandView::Ignored,
            Command::Malformed => CommandView::Malformed,
            Command::Unknown => CommandView::Unknown,
        }
    }
}

/// The command that `verb` with arguments `args` stands for.
pub open spec fn command_of(verb: Seq<char>, args: Seq<Seq<char>>) -> CommandView {
    if verb == "set_dmx_value"@ {
        if args.len() != 3 {
            CommandView::Ignored
        } else {
            match (usize_text(args[0]), usize_text(args[1]), u8_text(args[2])) {
                (Some(universe), Some(channel), Some(value)) => CommandView::SetDmxValue {
                    universe,
                    channel,
                    value,
                },
                _ => CommandView::Malformed,
            }
        }
    } else if verb == "play_sound"@ {
        if args.len() != 2 {
            CommandView::Ignored
        } else {
            CommandView::PlaySound { file_name: args[0], volume: args[1] }
        }
    } else if verb == "stop_sound"@ {
        if args.len() != 1 {
            CommandView::Ignored
        } else {
            CommandView::StopSound { file_name: args[0] }
        }
    } else if verb == "stop_all_sounds"@ {
        CommandView::StopAllSounds
    } else if verb == "set_volume"@ {
        if args.len() != 1 {
            CommandView::Ignored
        } else {
            CommandView::SetVolume { level: args[0] }
        }
    } else {
        CommandView::Unknown
    }
}

/// The texts of a list of arguments.
pub open spec fn texts(args: Seq<String>) -> Seq<Seq<char>> {
    args.map_values(|a: String| a@)
}

/// Whether two texts are equal.
fn same_text(a: &str, b: &str) -> (r: bool)
    ensures
        r == (a@ == b@),
{
    a.to_owned() == b.to_owned()
}

/// Reads a verb and its arguments into the command they stand for.
pub fn parse_command(verb: &str, args: &Vec<String>) -> (r: Command)
    ensures
        r@ == command_of(verb@, texts(args@)),
{
    let ghost a = texts(args@);
    assert(a.len() == args@.len());
    if same_text(verb, "set_dmx_value") {
        if args.len() != 3 {
            return Command::Ignored;
        }
        assert(a[0] == args@[0]@ && a[1] == args@[1]@ && a[2] == args@[2]@);
        let universe = parse_usize(args[0].as_str());
        let channel = parse_usize(args[1].as_str());
        let value = parse_u8(args[2].as_str());
        match (universe, channel, value) {
            (Some(universe), Some(channel), Some(value)) => Command::SetDmxValue {
                universe,
                channel,
                value,
            },
            _ => Command::Malformed,
        }
    } else if same_text(verb, "play_sound") {
        if args.len() != 2 {
            return Command::Ignored;
        }
        assert(a[0] == args@[0]@ && a[1] == args@[1]@);
        Command::PlaySound { file_name: args[0].clone(), volume: args[1].clone() }
    } else if same_text(verb, "stop_sound") {
        if args.len() != 1 {
            return Command::Ignored;
        }
        assert(a[0] == args@[0]@);
        Command::StopSound { file_name: args[0].clone() }
    } else if same_text(verb, "stop_all_sounds") {
        Command::StopAllSounds
    } else if same_text(verb, "set_volume") {
        if args.len() != 1 {
            return Command::Ignored;
        }
        assert(a[0] == args@[0]@);
        Command::SetVolume { level: args[0].clone() }
    } else {
        Command::Unknown
    }
}

} // verus!
