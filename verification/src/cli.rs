//! The commands the program accepts, and their display names.

use vstd::prelude::*;

verus! {

/// Which shell a completion script is generated for.
#[derive(Clone, Copy, PartialEq, Eq, Structural, Debug)]
pub enum CompletionSubCommand {
    Bash,
    Zsh,
    Fish,
}

/// The top-level commands of the program.
#[derive(PartialEq, Eq, Structural, Debug)]
pub enum AppCommand {
    /// Provoke a file-not-found error, to exercise error reporting.
    FileError,
    /// Fan out the given number of trivial background tasks.
    TasksDemo { num_tasks: usize },
    /// Generate a shell completion script.
    Completion { subcommand: CompletionSubCommand },
}

/// The decimal digit `d` as a character.
pub open spec fn spec_digit_char(d: int) -> char
    recommends
        0 <= d < 10,
{
    if d == 0 {
        '0'
    } else if d == 1 {
        '1'
    } else if d == 2 {
        '2'
    } else if d == 3 {
        '3'
    } else if d == 4 {
        '4'
    } else if d == 5 {
        '5'
    } else if d == 6 {
        '6'
    } else if d == 7 {
        '7'
    } else if d == 8 {
        '8'
    } else {
        '9'
    }
}

/// The decimal digits of `n`, most significant first, without leading
/// zeros (except for `n == 0` itself).
pub open spec fn spec_decimal(n: int) -> Seq<char>
    recommends
        n >= 0,
    decreases n,
{
    if n < 10 {
        seq![spec_digit_char(n)]
    } else {
        spec_decimal(n / 10).push(spec_digit_char(n % 10))
    }
}

fn digit_str(d: usize) -> (r: &'static str)
    requires
        d < 10,
    ensures
        r@ == seq![spec_digit_char(d as int)],
{
    proof {
        reveal_strlit("0");
        reveal_strlit("1");
        reveal_strlit("2");
        reveal_strlit("3");
        reveal_strlit("4");
        reveal_strlit("5");
        reveal_strlit("6");
        reveal_strlit("7");
        reveal_strlit("8");
        reveal_strlit("9");
    }
    let r = match d {
        0 => "0",
        1 => "1",
        2 => "2",
        3 => "3",
        4 => "4",
        5 => "5",
        6 => "6",
        7 => "7",
        8 => "8",
        _ => "9",
    };
    proof {
        assert(r@ =~= seq![spec_digit_char(d as int)]);
    }
    r
}

/// Renders `n` in decimal.
pub fn decimal_string(n: usize) -> (r: String)
    ensures
        r@ == spec_decimal(n as int),
    decreases n,
{
    if n < 10 {
        digit_str(n).to_owned()
    } else {
        let mut s = decimal_string(n / 10);
        s.append(digit_str(n % 10));
        proof {
            assert(s@ =~= spec_decimal(n as int));
        }
        s
    }
}

/// The display name of a completion target shell.
pub open spec fn spec_shell_name(c: CompletionSubCommand) -> Seq<char> {
    match c {
        CompletionSubCommand::Bash => "Bash"@,
        CompletionSubCommand::Zsh => "Zsh"@,
        CompletionSubCommand::Fish => "Fish"@,
    }
}

/// The display name of a command, as it appears in the execution log.
pub open spec fn spec_describe(c: AppCommand) -> Seq<char> {
    match c {
        AppCommand::FileError => "FileError"@,
        AppCommand::TasksDemo { num_tasks } => "TasksDemo("@ + spec_decimal(num_tasks as int)
            + ")"@,
        AppCommand::Completion { subcommand } => "GenerateCompletions("@ + spec_shell_name(
            subcommand,
        ) + ")"@,
    }
}

impl AppCommand {
    /// The command's display name.
    pub fn describe(&self) -> (r: String)
        ensures
            r@ == spec_describe(*self),
    {
        match self {
            AppCommand::FileError => "FileError".to_owned(),
            AppCommand::TasksDemo { num_tasks } => {
                let mut s = "TasksDemo(".to_owned();
                let digits = decimal_string(*num_tasks);
                s.append(digits.as_str());
                s.append(")");
                s
            },
            AppCommand::Completion { subcommand } => {
                let shell = match subcommand {
                    CompletionSubCommand::Bash => "Bash",
                    CompletionSubCommand::Zsh => "Zsh",
                    CompletionSubCommand::Fish => "Fish",
                };
                let mut s = "GenerateCompletions(".to_owned();
                s.append(shell);
                s.append(")");
                s
            },
        }
    }
}

} // verus!
