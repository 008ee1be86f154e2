//! Command-line argument handling of the debug CLI.

use vstd::prelude::*;

use crate::text::{has_prefix, same_text, starts_with_text};

verus! {

/// Usage text of the debug CLI.
pub const USAGE: &'static str = "Usage: cargo run --features btleplug-support -- <inspect|probe> [subcommand] [--name <substring>]

Commands:
  inspect
  probe brightness
  probe firmware-stick
  probe firmware-holder
  probe battery";

/// Parsed command-line arguments.
#[derive(Debug, Clone, PartialEq, Eq)]
pub struct CliArgs {
    /// Optional device-name substring filter.
    pub name_filter: Option<String>,
    /// The command to run.
    pub command: Command,
}

/// Top-level CLI command.
#[derive(Debug, Clone, Copy, PartialEq, Eq, Structural)]
pub enum Command {
    /// Inspect a device: metadata, battery and status.
    Inspect,
    /// Probe one reading.
    Probe(ProbeCommand),
}

/// Reading probed by `probe`.
#[derive(Debug, Clone, Copy, PartialEq, Eq, Structural)]
pub enum ProbeCommand {
    /// Brightness setting.
    Brightness,
    /// Stick firmware version.
    FirmwareStick,
    /// Holder firmware version.
    FirmwareHolder,
    /// Battery level.
    Battery,
}

/// Return the usage text.
pub fn usage() -> (r: &'static str)
    ensures
        r@ == USAGE@,
{
    USAGE
}

/// The probe subcommand that a word names.
pub open spec fn probe_for_word(word: Seq<char>) -> Option<ProbeCommand> {
    if word == "brightness"@ {
        Some(ProbeCommand::Brightness)
    } else if word == "firmware-stick"@ {
        Some(ProbeCommand::FirmwareStick)
    } else if word == "firmware-holder"@ {
        Some(ProbeCommand::FirmwareHolder)
    } else if word == "battery"@ {
        Some(ProbeCommand::Battery)
    } else {
        None
    }
}

/// Parse a probe subcommand word.
pub fn parse_probe_command(value: &str) -> (r: Option<ProbeCommand>)
    ensures
        r == probe_for_word(value@),
{
    if same_text(value, "brightness") {
        Some(ProbeCommand::Brightness)
    } else if same_text(value, "firmware-stick") {
        Some(ProbeCommand::FirmwareStick)
    } else if same_text(value, "firmware-holder") {
        Some(ProbeCommand::FirmwareHolder)
    } else if same_text(value, "battery") {
        Some(ProbeCommand::Battery)
    } else {
        None
    }
}

/// The options and positional words found in `args`, scanning from the
/// left with the name filter and positional words found so far: `--name`
/// takes the next argument as the filter, `--name=<value>` takes the text
/// after `=` (which must not be empty), any other argument starting with
/// `--` is rejected, and every other argument is a positional word. A later
/// filter replaces an earlier one.
pub open spec fn scan_args(
    args: Seq<Seq<char>>,
    filter: Option<Seq<char>>,
    words: Seq<Seq<char>>,
) -> Result<(Option<Seq<char>>, Seq<Seq<char>>), Seq<char>>
    decreases args.len(),
{
    if args.len() == 0 {
        Ok((filter, words))
    } else {
        let arg = args[0];
        let rest = args.drop_first();
        if arg == "--name"@ {
            if rest.len() == 0 {
                Err("missing value for --name"@)
            } else {
                scan_args(rest.drop_first(), Some(rest[0]), words)
            }
        } else if has_prefix(arg, "--name="@) {
            let value = arg.subrange("--name="@.len() as int, arg.len() as int);
            if value.len() == 0 {
                Err("missing value for --name"@)
            } else {
                scan_args(rest, Some(value), words)
            }
        } else if has_prefix(arg, "--"@) {
            Err("unknown option: "@ + arg)
        } else {
            scan_args(rest, filter, words.push(arg))
        }
    }
}

/// The command named by the positional words: `inspect` alone, or `probe`
/// followed by a known subcommand.
pub open spec fn command_for_words(words: Seq<Seq<char>>) -> Result<Command, Seq<char>> {
    if words.len() == 1 && words[0] == "inspect"@ {
        Ok(Command::Inspect)
    } else if words.len() == 2 && words[0] == "probe"@ {
        match probe_for_word(words[1]) {
            Some(probe) => Ok(Command::Probe(probe)),
            None => Err("unknown probe subcommand: "@ + words[1]),
        }
    } else if words.len() == 0 {
        Err("missing command"@)
    } else {
        Err("invalid command shape"@)
    }
}

/// What the command line `args` (starting with the binary name) parses to:
/// the name filter and the command, or the error message.
pub open spec fn cli_parsing(args: Seq<Seq<char>>) -> Result<(Option<Seq<char>>, Command), Seq<char>> {
    let options = if args.len() == 0 {
        scan_args(Seq::empty(), None, Seq::empty())
    } else {
        scan_args(args.drop_first(), None, Seq::empty())
    };
    match options {
        Err(m) => Err(m),
        Ok((filter, words)) => match command_for_words(words) {
            Err(m) => Err(m),
            Ok(command) => Ok((filter, command)),
        },
    }
}

/// The text of each argument.
pub open spec fn texts(args: Seq<String>) -> Seq<Seq<char>> {
    args.map_values(|a: String| a@)
}

/// The text of an optional argument.
pub open spec fn opt_text(s: Option<String>) -> Option<Seq<char>> {
    match s {
        Some(v) => Some(v@),
        None => None,
    }
}

/// Parse the command line, whose first argument is the binary name.
pub fn parse_args(args: Vec<String>) -> (r: Result<CliArgs, String>)
    ensures
        match cli_parsing(texts(args@)) {
            Ok((filter, command)) => r matches Ok(parsed) && opt_text(parsed.name_filter) == filter
                && parsed.command == command,
            Err(m) => r matches Err(e) && e@ == m,
        },
{
    let n = args.len();
    let mut name_filter: Option<String> = None;
    let mut words: Vec<String> = Vec::new();
    let mut i: usize = if n == 0 {
        0
    } else {
        1
    };
    let ghost all = texts(args@);
    let ghost start: Seq<Seq<char>> = if n == 0 {
        Seq::empty()
    } else {
        all.drop_first()
    };
    assert(start =~= all.subrange(i as int, n as int));
    assert(texts(words@) =~= Seq::<Seq<char>>::empty());
    while i < n
        invariant
            n == args@.len(),
            all == texts(args@),
            all.len() > 0 ==> start == all.drop_first(),
            all.len() == 0 ==> start == Seq::<Seq<char>>::empty(),
            i <= n,
            scan_args(start, None, Seq::empty()) == scan_args(
                all.subrange(i as int, n as int),
                opt_text(name_filter),
                texts(words@),
            ),
        decreases n - i,
    {
        let ghost rest = all.subrange(i as int, n as int);
        assert(rest[0] == args@[i as int]@);
        let arg = args[i].as_str();
        if same_text(arg, "--name") {
            if i + 1 >= n {
                assert(rest.drop_first().len() == 0);
                return Err(String::from_str("missing value for --name"));
            }
            assert(rest.drop_first()[0] == args@[i + 1]@);
            assert(rest.drop_first().drop_first() =~= all.subrange(i + 2, n as int));
            name_filter = Some(args[i + 1].clone());
            i = i + 2;
        } else if starts_with_text(arg, "--name=") {
            let len = arg.unicode_len();
            let skip = "--name=".unicode_len();
            let value = arg.substring_char(skip, len);
            if value.unicode_len() == 0 {
                return Err(String::from_str("missing value for --name"));
            }
            name_filter = Some(String::from_str(value));
            assert(rest.drop_first() =~= all.subrange(i + 1, n as int));
            i = i + 1;
        } else if starts_with_text(arg, "--") {
            return Err(String::from_str("unknown option: ").concat(arg));
        } else {
            let ghost before = words@;
            words.push(args[i].clone());
            assert(texts(words@) =~= texts(before).push(arg@));
            assert(rest.drop_first() =~= all.subrange(i + 1, n as int));
            i = i + 1;
        }
    }
    assert(all.subrange(n as int, n as int) =~= Seq::<Seq<char>>::empty());
    let ghost scanned = texts(words@);
    let count = words.len();
    let command = if count == 1 && same_text(words[0].as_str(), "inspect") {
        Command::Inspect
    } else if count == 2 && same_text(words[0].as_str(), "probe") {
        match parse_probe_command(words[1].as_str()) {
            Some(probe) => Command::Probe(probe),
            None => {
                return Err(String::from_str("unknown probe subcommand: ").concat(words[1].as_str()));
            },
        }
    } else if count == 0 {
        return Err(String::from_str("missing command"));
    } else {
        return Err(String::from_str("invalid command shape"));
    };
    Ok(CliArgs { name_filter, command })
}

/// `arg` is a name option in either form.
pub open spec fn is_name_option(arg: Seq<char>) -> bool {
    arg == "--name"@ || has_prefix(arg, "--name="@)
}

/// The two forms of the name option agree: `--name=<v>` with a non-empty
/// `v` scans exactly as `--name <v>` does, wherever the scan stands and
/// whatever follows.
pub proof fn law_name_option_forms_agree(
    value: Seq<char>,
    rest: Seq<Seq<char>>,
    filter: Option<Seq<char>>,
    words: Seq<Seq<char>>,
)
    requires
        value.len() > 0,
    ensures
        scan_args(seq!["--name="@ + value] + rest, filter, words) == scan_args(
            seq!["--name"@, value] + rest,
            filter,
            words,
        ),
{
    reveal_strlit("--name=");
    reveal_strlit("--name");
    let joined = "--name="@ + value;
    let a = seq![joined] + rest;
    let b = seq!["--name"@, value] + rest;
    assert(a[0] == joined);
    assert(a.drop_first() =~= rest);
    assert(joined != "--name"@) by {
        assert(joined.len() != "--name"@.len());
    }
    assert(joined.subrange(0, 7) =~= "--name="@);
    assert(joined.subrange(7, joined.len() as int) =~= value);
    assert(b[0] == "--name"@);
    assert(b.drop_first()[0] == value);
    assert(b.drop_first().drop_first() =~= rest);
}

/// Arguments that hold no name option never change the filter found so far.
proof fn lemma_scan_keeps_filter(
    args: Seq<Seq<char>>,
    filter: Option<Seq<char>>,
    words: Seq<Seq<char>>,
)
    requires
        forall|i: int| 0 <= i < args.len() ==> !is_name_option(#[trigger] args[i]),
    ensures
        scan_args(args, filter, words) matches Ok((f, _)) ==> f == filter,
    decreases args.len(),
{
    if args.len() > 0 {
        assert(!is_name_option(args[0]));
        let rest = args.drop_first();
        assert forall|i: int| 0 <= i < rest.len() implies !is_name_option(#[trigger] rest[i]) by {
            assert(rest[i] == args[i + 1]);
        }
        lemma_scan_keeps_filter(rest, filter, words.push(args[0]));
    }
}

/// The last name option decides the filter: a command line that ends in
/// `--name=<v>` (non-empty `v`) followed by arguments with no further name
/// option, and that parses, has the filter `v`.
pub proof fn law_last_name_option_sets_filter(
    binary: Seq<char>,
    before: Seq<Seq<char>>,
    value: Seq<char>,
    after: Seq<Seq<char>>,
    filter: Option<Seq<char>>,
    words: Seq<Seq<char>>,
)
    requires
        value.len() > 0,
        forall|i: int| 0 <= i < after.len() ==> !is_name_option(#[trigger] after[i]),
    ensures
        scan_args(seq!["--name="@ + value] + after, filter, words) matches Ok((f, _)) ==> f
            == Some(value),
        cli_parsing(seq![binary, "--name="@ + value] + after) matches Ok((f, _)) ==> f == Some(
            value,
        ),
{
    reveal_strlit("--name=");
    reveal_strlit("--name");
    let joined = "--name="@ + value;
    let a = seq![joined] + after;
    assert(a[0] == joined);
    assert(a.drop_first() =~= after);
    assert(joined != "--name"@) by {
        assert(joined.len() != "--name"@.len());
    }
    assert(joined.subrange(0, 7) =~= "--name="@);
    assert(joined.subrange(7, joined.len() as int) =~= value);
    lemma_scan_keeps_filter(after, Some(value), words);
    let full = seq![binary, joined] + after;
    assert(full.drop_first() =~= a);
    lemma_scan_keeps_filter(after, Some(value), Seq::empty());
}

} // verus!
