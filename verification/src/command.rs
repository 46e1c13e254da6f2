use vstd::prelude::*;
use crate::block::{BlockType, kind_name, kind_named, lemma_name_is_plain, law_names_identify_kinds};
use crate::lexing::{
    chars_end_with, chars_equal, chars_start_with, chars_to_string, ends_with,
    parse_u16, parse_u16_chars, slice_chars, split_words, starts_with, str_chars, trim, trim_chars, trim_end,
    trim_start,
    words,
};

verus! {

/// A rotation in degrees about each axis.
#[derive(Clone, Copy, PartialEq, Eq, Debug, Structural)]
pub struct Rotation {
    pub x: u16,
    pub y: u16,
    pub z: u16,
}

/// The rotation that leaves a block as it is.
pub open spec fn no_rotation() -> Rotation {
    Rotation { x: 0, y: 0, z: 0 }
}

impl Rotation {
    /// The rotation that leaves a block as it is.
    pub fn none() -> (r: Rotation)
        ensures
            r == no_rotation(),
    {
        Rotation { x: 0, y: 0, z: 0 }
    }
}

/// A change to the day-night cycle asked for by a command.
#[derive(Clone, Copy, Debug, PartialEq, Eq, Structural)]
pub enum TimeChange {
    /// Jump to a time of day, in thousandths of a day counted from midnight.
    SetTime(u16),
    /// Stop or restart the cycle.
    ToggleCycle,
}

/// What running a command gives.
#[derive(Debug, Clone)]
pub enum CommandResult {
    Success(String),
    Error(String),
    TimeChange(TimeChange),
    RotationChange(Rotation),
}

/// A command result with its messages read as character sequences.
pub enum CommandOutcome {
    Success(Seq<char>),
    Error(Seq<char>),
    TimeChange(TimeChange),
    RotationChange(Rotation),
}

impl View for CommandResult {
    type V = CommandOutcome;

    open spec fn view(&self) -> CommandOutcome {
        match self {
            CommandResult::Success(s) => CommandOutcome::Success(s@),
            CommandResult::Error(s) => CommandOutcome::Error(s@),
            CommandResult::TimeChange(t) => CommandOutcome::TimeChange(*t),
            CommandResult::RotationChange(r) => CommandOutcome::RotationChange(*r),
        }
    }
}

/// What follows the command word `prefix` in `input`, up to the closing `;`, without
/// whitespace at either end.
pub open spec fn argument(input: Seq<char>, prefix: Seq<char>) -> Seq<char> {
    trim(input.subrange(prefix.len() as int, input.len() - 1))
}

/// The outcome of `use <BlockTypeName>;`, for trimmed input that ends with `;`.
pub open spec fn use_outcome(input: Seq<char>) -> CommandOutcome {
    if !starts_with(input, "use "@) {
        CommandOutcome::Error("Invalid syntax. Expected: use <BlockTypeName>;"@)
    } else {
        let name = argument(input, "use "@);
        match kind_named(name) {
            Some(t) => CommandOutcome::Success("Block type set to: "@ + kind_name(t)),
            None => CommandOutcome::Error("Unknown block type: "@ + name),
        }
    }
}

/// The outcome of `time <night|noon|dawn|dusk|toggle>;`, for trimmed input that ends with `;`.
pub open spec fn time_outcome(input: Seq<char>) -> CommandOutcome {
    if !starts_with(input, "time "@) {
        CommandOutcome::Error("Invalid syntax. Expected: time <night|noon|dawn|dusk|toggle>;"@)
    } else {
        let arg = argument(input, "time "@);
        if arg == "night"@ {
            CommandOutcome::TimeChange(TimeChange::SetTime(0))
        } else if arg == "noon"@ {
            CommandOutcome::TimeChange(TimeChange::SetTime(500))
        } else if arg == "dawn"@ {
            CommandOutcome::TimeChange(TimeChange::SetTime(250))
        } else if arg == "dusk"@ {
            CommandOutcome::TimeChange(TimeChange::SetTime(750))
        } else if arg == "toggle"@ {
            CommandOutcome::TimeChange(TimeChange::ToggleCycle)
        } else {
            CommandOutcome::Error("Unknown time argument: "@ + arg)
        }
    }
}

/// The angle written by `s` for the axis `axis`, or the error that rejects it.
pub open spec fn axis_value(s: Seq<char>, axis: Seq<char>) -> Result<u16, CommandOutcome> {
    match parse_u16(s) {
        Some(v) => if v % 90 != 0 {
            Err(CommandOutcome::Error("Invalid "@ + axis + " value. Must be a multiple of 90."@))
        } else {
            Ok(v)
        },
        None => Err(CommandOutcome::Error("Invalid "@ + axis + " value. Must be a u16."@)),
    }
}

/// The outcome of `rotate <x> <y> <z>;`, for trimmed input that ends with `;`.
pub open spec fn rotate_outcome(input: Seq<char>) -> CommandOutcome {
    if !starts_with(input, "rotate "@) {
        CommandOutcome::Error("Invalid syntax. Expected: rotate <x> <y> <z>;"@)
    } else {
        let parts = words(argument(input, "rotate "@));
        if parts.len() != 3 {
            CommandOutcome::Error("Invalid syntax. Expected: rotate <x> <y> <z>;"@)
        } else {
            match axis_value(parts[0], "x"@) {
                Err(e) => e,
                Ok(x) => match axis_value(parts[1], "y"@) {
                    Err(e) => e,
                    Ok(y) => match axis_value(parts[2], "z"@) {
                        Err(e) => e,
                        Ok(z) => CommandOutcome::RotationChange(Rotation { x, y, z }),
                    },
                },
            }
        }
    }
}

/// The outcome of running the command line `raw`.
pub open spec fn command_outcome(raw: Seq<char>) -> CommandOutcome {
    let input = trim(raw);
    let first = words(input);
    if first.len() == 0 {
        CommandOutcome::Error("Empty command"@)
    } else if !ends_with(input, ";"@) {
        CommandOutcome::Error("Invalid syntax. Command must end with ';'"@)
    } else if first[0] == "use"@ {
        use_outcome(input)
    } else if first[0] == "time"@ {
        time_outcome(input)
    } else if first[0] == "rotate"@ {
        rotate_outcome(input)
    } else {
        CommandOutcome::Error("Unknown command: "@ + first[0])
    }
}

/// Every rotation a command line asks for turns the block by right angles about each axis.
pub proof fn law_rotations_are_right_angles(raw: Seq<char>)
    ensures
        command_outcome(raw) matches CommandOutcome::RotationChange(r) ==> r.x % 90 == 0 && r.y % 90 == 0
            && r.z % 90 == 0,
{
}

/// Every kind of block can be chosen by its name: `use <name>;` selects the kind so named.
pub proof fn law_use_selects_named_kind(t: BlockType)
    ensures
        command_outcome("use "@ + kind_name(t) + ";"@) == CommandOutcome::Success("Block type set to: "@ + kind_name(t)),
{
    let n = kind_name(t);
    let p = "use "@;
    let s = p + n + ";"@;
    reveal_strlit("use ");
    reveal_strlit(";");
    reveal_strlit("use");
    lemma_name_is_plain(t);
    law_names_identify_kinds(t, t);
    assert(s[0] == 'u');
    assert(s.last() == ';');
    assert(trim_start(s) == s);
    assert(trim_end(s) == s);
    assert(trim(s) == s);
    assert(s =~= p + (n + ";"@));
    crate::lexing::lemma_words_concat(p, n + ";"@);
    assert(p.drop_last() =~= seq!['u', 's', 'e']);
    assert(seq!['u', 's', 'e'].drop_last() =~= seq!['u', 's']);
    assert(seq!['u', 's'].drop_last() =~= seq!['u']);
    assert(seq!['u'].drop_last() =~= Seq::<char>::empty());
    assert(words(Seq::<char>::empty()) =~= Seq::<Seq<char>>::empty());
    assert(words(seq!['u']) =~= seq![seq!['u']]);
    assert(seq!['u'].push('s') =~= seq!['u', 's']);
    assert(words(seq!['u', 's']) =~= seq![seq!['u', 's']]);
    assert(seq!['u', 's'].push('e') =~= seq!['u', 's', 'e']);
    assert(words(seq!['u', 's', 'e']) =~= seq![seq!['u', 's', 'e']]);
    assert("use"@ =~= seq!['u', 's', 'e']);
    assert(p.last() == ' ');
    assert(words(p) == words(p.drop_last()));
    assert(words(p) =~= seq!["use"@]);
    assert(words(s)[0] == "use"@);
    assert(ends_with(s, ";"@)) by {
        assert(s.skip(s.len() - 1) =~= ";"@);
    }
    assert(starts_with(s, p)) by {
        assert(s.take(4) =~= p);
    }
    assert(s.subrange(4, s.len() - 1) =~= n);
    let m = n;
    assert(trim_start(m) == m);
    assert(trim_end(m) == m);
    assert(argument(s, p) == n);
}

/// The string `prefix`, then `middle`, then `suffix`.
fn message(prefix: &str, middle: &Vec<char>, suffix: &str) -> (r: String)
    ensures
        r@ == prefix@ + middle@ + suffix@,
{
    let m = chars_to_string(middle);
    String::from_str(prefix).concat(m.as_str()).concat(suffix)
}

/// The string `prefix` followed by `middle`.
fn message_ending(prefix: &str, middle: &Vec<char>) -> (r: String)
    ensures
        r@ == prefix@ + middle@,
{
    let m = chars_to_string(middle);
    String::from_str(prefix).concat(m.as_str())
}

/// An error result carrying `text`.
fn error(text: &str) -> (r: CommandResult)
    ensures
        r@ == CommandOutcome::Error(text@),
{
    CommandResult::Error(String::from_str(text))
}

/// The characters between `prefix` and the closing `;`, trimmed.
fn argument_chars(input: &Vec<char>, prefix: &Vec<char>) -> (r: Vec<char>)
    requires
        starts_with(input@, prefix@),
        ends_with(input@, ";"@),
        prefix@.len() > 0,
        prefix@.last() != ';',
    ensures
        r@ == argument(input@, prefix@),
{
    proof {
        reveal_strlit(";");
        if input@.len() == prefix@.len() {
            assert(input@.take(prefix@.len() as int) =~= input@);
            assert(input@.skip(input@.len() - 1)[0] == input@.last());
        }
    }
    let body = slice_chars(input, prefix.len(), input.len() - 1);
    trim_chars(&body)
}

/// Reads one axis of a `rotate` command.
fn parse_axis(s: &Vec<char>, axis: &str) -> (r: Result<u16, CommandResult>)
    ensures
        match (r, axis_value(s@, axis@)) {
            (Ok(v), Ok(w)) => v == w,
            (Err(e), Err(f)) => e@ == f,
            _ => false,
        },
{
    match parse_u16_chars(s) {
        Some(val) => {
            if val % 90 != 0 {
                let m = message("Invalid ", &str_chars(axis), " value. Must be a multiple of 90.");
                Err(CommandResult::Error(m))
            } else {
                Ok(val)
            }
        },
        None => {
            let m = message("Invalid ", &str_chars(axis), " value. Must be a u16.");
            Err(CommandResult::Error(m))
        },
    }
}

/// Parses and runs the game's console commands.
pub struct CommandHandler;

impl CommandHandler {
    /// Runs the command line `input`.
    pub fn execute(input: &str) -> (r: CommandResult)
        ensures
            r@ == command_outcome(input@),
    {
        let raw = str_chars(input);
        let input = trim_chars(&raw);
        let words = split_words(&input);
        if words.len() == 0 {
            return error("Empty command");
        }
        if !chars_end_with(&input, &str_chars(";")) {
            return error("Invalid syntax. Command must end with ';'");
        }
        let first = &words[0];
        if chars_equal(first, &str_chars("use")) {
            Self::handle_use_command(&input)
        } else if chars_equal(first, &str_chars("time")) {
            Self::handle_time_command(&input)
        } else if chars_equal(first, &str_chars("rotate")) {
            Self::handle_rotate_command(&input)
        } else {
            CommandResult::Error(message_ending("Unknown command: ", first))
        }
    }

    fn handle_use_command(input: &Vec<char>) -> (r: CommandResult)
        requires
            ends_with(input@, ";"@),
        ensures
            r@ == use_outcome(input@),
    {
        let prefix = str_chars("use ");
        if !chars_start_with(input, &prefix) {
            return error("Invalid syntax. Expected: use <BlockTypeName>;");
        }
        proof {
            reveal_strlit("use ");
        }
        let block_name = argument_chars(input, &prefix);
        match BlockType::from_chars(&block_name) {
            Some(block_type) => {
                CommandResult::Success(
                    String::from_str("Block type set to: ").concat(block_type.name()),
                )
            },
            None => CommandResult::Error(message_ending("Unknown block type: ", &block_name)),
        }
    }

    fn handle_time_command(input: &Vec<char>) -> (r: CommandResult)
        requires
            ends_with(input@, ";"@),
        ensures
            r@ == time_outcome(input@),
    {
        let prefix = str_chars("time ");
        if !chars_start_with(input, &prefix) {
            return error("Invalid syntax. Expected: time <night|noon|dawn|dusk|toggle>;");
        }
        proof {
            reveal_strlit("time ");
        }
        let arg = argument_chars(input, &prefix);
        if chars_equal(&arg, &str_chars("night")) {
            CommandResult::TimeChange(TimeChange::SetTime(0))
        } else if chars_equal(&arg, &str_chars("noon")) {
            CommandResult::TimeChange(TimeChange::SetTime(500))
        } else if chars_equal(&arg, &str_chars("dawn")) {
            CommandResult::TimeChange(TimeChange::SetTime(250))
        } else if chars_equal(&arg, &str_chars("dusk")) {
            CommandResult::TimeChange(TimeChange::SetTime(750))
        } else if chars_equal(&arg, &str_chars("toggle")) {
            CommandResult::TimeChange(TimeChange::ToggleCycle)
        } else {
            CommandResult::Error(message_ending("Unknown time argument: ", &arg))
        }
    }

    fn handle_rotate_command(input: &Vec<char>) -> (r: CommandResult)
        requires
            ends_with(input@, ";"@),
        ensures
            r@ == rotate_outcome(input@),
    {
        let prefix = str_chars("rotate ");
        if !chars_start_with(input, &prefix) {
            return error("Invalid syntax. Expected: rotate <x> <y> <z>;");
        }
        proof {
            reveal_strlit("rotate ");
        }
        let args = argument_chars(input, &prefix);
        let parts = split_words(&args);
        if parts.len() != 3 {
            return error("Invalid syntax. Expected: rotate <x> <y> <z>;");
        }
        let x = match parse_axis(&parts[0], "x") {
            Ok(v) => v,
            Err(e) => return e,
        };
        let y = match parse_axis(&parts[1], "y") {
            Ok(v) => v,
            Err(e) => return e,
        };
        let z = match parse_axis(&parts[2], "z") {
            Ok(v) => v,
            Err(e) => return e,
        };
        CommandResult::RotationChange(Rotation { x, y, z })
    }
}

}
