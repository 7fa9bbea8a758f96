//! Which shell a new session runs, and in what environment.

use vstd::prelude::*;
use vstd::string::*;
use vstd::utf8::is_ascii_chars;
use portable_pty::CommandBuilder;
use crate::text::text_option;

verus! {

/// The family of the host that the sessions run on.
#[derive(Clone, Copy, Debug, PartialEq, Eq, Structural)]
pub enum Platform {
    Windows,
    Linux,
    /// Any other host with a Unix shell.
    Other,
}

// ---------------------------------------------------------------------------
// The policy
// ---------------------------------------------------------------------------

/// The shell of a new session. A Windows host runs its command interpreter.
/// Any other host runs the shell that the environment names in `SHELL`, and
/// `/bin/bash` where it names none.
pub open spec fn shell_for(platform: Platform, shell_variable: Option<Seq<char>>) -> Seq<char> {
    if platform == Platform::Windows {
        "cmd.exe"@
    } else {
        match shell_variable {
            Some(shell) => shell,
            None => "/bin/bash"@,
        }
    }
}

/// The variables that tell the programs of a session that they run in a
/// terminal with colours. A Windows host sets none.
pub open spec fn shell_variables(platform: Platform) -> Seq<(Seq<char>, Seq<char>)> {
    if platform == Platform::Windows {
        Seq::empty()
    } else {
        seq![
            ("TERM"@, "xterm-256color"@),
            ("COLORTERM"@, "truecolor"@),
            ("TERM_PROGRAM"@, "ghostty-web"@),
            ("CLICOLOR"@, "1"@),
        ]
    }
}

// ---------------------------------------------------------------------------
// The command builder
// ---------------------------------------------------------------------------

#[verifier::external_type_specification]
#[verifier::external_body]
pub struct ExCommandBuilder(CommandBuilder);

/// The arguments that the command is started with, the program first.
pub uninterp spec fn command_arguments(command: CommandBuilder) -> Seq<Seq<char>>;

/// The environment that the command is started in: each variable that a
/// lookup by name finds, with its value.
pub uninterp spec fn command_environment(command: CommandBuilder) -> Map<Seq<char>, Seq<char>>;

/// An ASCII letter in lower case, any other character as it is.
pub open spec fn lowered(c: char) -> char {
    if 0x41 <= c as u32 <= 0x5A {
        ((c as u32) + 0x20) as u8 as char
    } else {
        c
    }
}

/// Whether two names of variables differ on every host, also where a host
/// takes no account of case: both are ASCII, and they differ once in lower
/// case.
pub open spec fn names_apart(a: Seq<char>, b: Seq<char>) -> bool {
    is_ascii_chars(a) && is_ascii_chars(b) && a.map_values(|c: char| lowered(c)) != b.map_values(
        |c: char| lowered(c),
    )
}

/// `CommandBuilder::new`: a command whose arguments are the program alone.
/// Its environment is that of this process and is not described.
#[verifier::external_body]
fn new_command(program: &str) -> (command: CommandBuilder)
    ensures
        command_arguments(command) == seq![program@],
{
    CommandBuilder::new(program)
}

/// `CommandBuilder::env`: sets one variable. The arguments stay, a lookup of
/// the name then finds the value, and a lookup of a name apart from it
/// finds what it found before.
#[verifier::external_body]
fn set_variable(command: &mut CommandBuilder, name: &str, value: &str)
    ensures
        command_arguments(*final(command)) == command_arguments(*old(command)),
        command_environment(*final(command)).contains_pair(name@, value@),
        forall|other: Seq<char>| #[trigger]
            names_apart(other, name@) ==> {
                &&& command_environment(*final(command)).contains_key(other)
                    == command_environment(*old(command)).contains_key(other)
                &&& command_environment(*final(command))[other] == command_environment(
                    *old(command),
                )[other]
            },
{
    command.env(name, value)
}

/// Names of different lengths are apart where both are ASCII.
proof fn lemma_lengths_apart(a: Seq<char>, b: Seq<char>)
    requires
        is_ascii_chars(a),
        is_ascii_chars(b),
        a.len() != b.len(),
    ensures
        names_apart(a, b),
{
    assert(a.map_values(|c: char| lowered(c)).len() == a.len());
    assert(b.map_values(|c: char| lowered(c)).len() == b.len());
}

/// Whether the command sets each of the given variables to its value.
pub open spec fn sets_all(command: CommandBuilder, variables: Seq<(Seq<char>, Seq<char>)>) -> bool {
    forall|i: int|
        0 <= i < variables.len() ==> command_environment(command).contains_pair(
            (#[trigger] variables[i]).0,
            variables[i].1,
        )
}

/// The shell of a new session and the command that starts it.
pub fn shell_details(platform: Platform, shell_variable: Option<String>) -> (r: (
    String,
    CommandBuilder,
))
    ensures
        r.0@ == shell_for(platform, text_option(shell_variable)),
        command_arguments(r.1) == seq![r.0@],
        sets_all(r.1, shell_variables(platform)),
{
    if matches!(platform, Platform::Windows) {
        let shell = String::from_str("cmd.exe");
        let command = new_command(shell.as_str());
        return (shell, command);
    }
    let shell = match shell_variable {
        Some(shell) => shell,
        None => String::from_str("/bin/bash"),
    };
    let mut command = new_command(shell.as_str());
    proof {
        reveal_strlit("TERM");
        reveal_strlit("COLORTERM");
        reveal_strlit("TERM_PROGRAM");
        reveal_strlit("CLICOLOR");
        lemma_lengths_apart("TERM"@, "COLORTERM"@);
        lemma_lengths_apart("TERM"@, "TERM_PROGRAM"@);
        lemma_lengths_apart("TERM"@, "CLICOLOR"@);
        lemma_lengths_apart("COLORTERM"@, "TERM_PROGRAM"@);
        lemma_lengths_apart("COLORTERM"@, "CLICOLOR"@);
        lemma_lengths_apart("TERM_PROGRAM"@, "CLICOLOR"@);
    }
    set_variable(&mut command, "TERM", "xterm-256color");
    set_variable(&mut command, "COLORTERM", "truecolor");
    set_variable(&mut command, "TERM_PROGRAM", "ghostty-web");
    set_variable(&mut command, "CLICOLOR", "1");
    (shell, command)
}

} // verus!
