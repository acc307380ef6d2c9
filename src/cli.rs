use vstd::prelude::*;
use vstd::string::StringExecFns;

verus! {

/// Text printed for `--help`.
pub const HELP_TEXT: &'static str = "TermPilot — explain terminal output using GPT-4\n\nUsage:\n  explain < input.txt\n  explain --file <file>\n  explain --reset-key\n";

/// Text printed for `--version`.
pub const VERSION_TEXT: &'static str = "TermPilot 0.1.0";

/// What one run of the tool is asked to do.
pub enum Command {
    /// Print the usage text and stop.
    Help,
    /// Print the version line and stop.
    Version,
    /// Obtain the credential, read the input and ask for an explanation.
    Explain {
        /// Whether the stored credential is to be dropped and entered again.
        reset_key: bool,
        /// The file to read the input from; standard input when absent.
        file: Option<String>,
    },
}

/// The argument list as sequences of characters.
pub open spec fn args_view(args: Seq<String>) -> Seq<Seq<char>> {
    args.map_values(|s: String| s@)
}

/// Whether `flag` is one of the arguments, wherever it stands.
pub open spec fn has_flag(args: Seq<Seq<char>>, flag: Seq<char>) -> bool {
    exists|i: int| 0 <= i < args.len() && args[i] == flag
}

/// The input file named by the arguments: the argument after a `--file`
/// that stands directly after the program name, if there is one.
pub open spec fn file_arg(args: Seq<Seq<char>>) -> Option<Seq<char>> {
    if args.len() > 2 && args[1] == "--file"@ {
        Some(args[2])
    } else {
        None
    }
}

/// What the arguments ask for: help wins over everything, then the version;
/// otherwise an explanation, with the reset flag found anywhere and the
/// input file taken from its fixed position.
pub open spec fn command_of(args: Seq<Seq<char>>) -> CommandModel {
    if has_flag(args, "--help"@) {
        CommandModel::Help
    } else if has_flag(args, "--version"@) {
        CommandModel::Version
    } else {
        CommandModel::Explain { reset_key: has_flag(args, "--reset-key"@), file: file_arg(args) }
    }
}

/// A `Command` with its strings seen as sequences of characters.
pub ghost enum CommandModel {
    Help,
    Version,
    Explain { reset_key: bool, file: Option<Seq<char>> },
}

impl Command {
    /// The command with its strings seen as sequences of characters.
    pub open spec fn view(&self) -> CommandModel {
        match self {
            Command::Help => CommandModel::Help,
            Command::Version => CommandModel::Version,
            Command::Explain { reset_key, file } => CommandModel::Explain {
                reset_key: *reset_key,
                file: match file {
                    Some(f) => Some(f@),
                    None => None,
                },
            },
        }
    }
}

/// Whether some argument equals `flag`.
pub fn contains_flag(args: &Vec<String>, flag: &str) -> (r: bool)
    ensures
        r == has_flag(args_view(args@), flag@),
{
    let wanted = String::from_str(flag);
    let mut i: usize = 0;
    while i < args.len()
        invariant
            i <= args.len(),
            wanted@ == flag@,
            forall|j: int| 0 <= j < i ==> args@[j]@ != flag@,
        decreases args.len() - i,
    {
        if args[i] == wanted {
            assert(args_view(args@)[i as int] == flag@);
            return true;
        }
        i = i + 1;
    }
    assert(forall|j: int| 0 <= j < args@.len() ==> args_view(args@)[j] != flag@);
    false
}

/// The input file named by the arguments, as `file_arg` describes it.
pub fn file_argument(args: &Vec<String>) -> (r: Option<String>)
    ensures
        match r {
            Some(f) => file_arg(args_view(args@)) == Some(f@),
            None => file_arg(args_view(args@)) is None,
        },
{
    let file_flag = String::from_str("--file");
    if args.len() > 2 && args[1] == file_flag {
        Some(args[2].clone())
    } else {
        proof {
            reveal_strlit("--file");
        }
        None
    }
}

/// Reads the whole argument list, program name first, into a command.
pub fn parse_command(args: &Vec<String>) -> (r: Command)
    ensures
        r@ == command_of(args_view(args@)),
{
    if contains_flag(args, "--help") {
        return Command::Help;
    }
    if contains_flag(args, "--version") {
        return Command::Version;
    }
    let reset_key = contains_flag(args, "--reset-key");
    let file = file_argument(args);
    Command::Explain { reset_key, file }
}

/// Wherever `--help` stands, the command is `Help`, whatever else the
/// arguments hold: no other command is chosen.
pub proof fn help_flag_only_prints_help(args: Seq<Seq<char>>)
    requires
        has_flag(args, "--help"@),
    ensures
        command_of(args) == CommandModel::Help,
{
}

/// Without `--help`, a `--version` anywhere makes the command `Version`,
/// whatever else the arguments hold.
pub proof fn version_flag_only_prints_version(args: Seq<Seq<char>>)
    requires
        !has_flag(args, "--help"@),
        has_flag(args, "--version"@),
    ensures
        command_of(args) == CommandModel::Version,
{
}

/// When the run explains, its input comes from the file named after a
/// `--file` in first place, and from standard input in every other case,
/// a `--file` with nothing after it included.
pub proof fn input_comes_from_named_file_or_stdin(args: Seq<Seq<char>>)
    requires
        !has_flag(args, "--help"@),
        !has_flag(args, "--version"@),
    ensures
        command_of(args) matches CommandModel::Explain { file, .. } && (
            if args.len() > 2 && args[1] == "--file"@ {
                file == Some(args[2])
            } else {
                file is None
            }),
{
}

} // verus!
