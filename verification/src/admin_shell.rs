//! The administrator's command line: which command a line asks for, and what the
//! shell does with each answer of the line editor. Reading lines, running the
//! database browser and the management screen, and reloading the rules are the
//! console's.
use vstd::prelude::*;
use crate::text::{chars_to_string, push_all, str_chars, str_eq_chars, trim_chars, trim_spec};

verus! {

broadcast use vstd::string::group_string_axioms;

pub const CMD_DATABASE: &'static str = "database";

pub const CMD_MANAGE: &'static str = "manage";

pub const CMD_HELP: &'static str = "help";

pub const CMD_FLUSH_PRIVILEGES: &'static str = "flush_privileges";

pub const CMD_QUIT: &'static str = "quit";

pub const CMD_EXIT: &'static str = "exit";

/// A command of the administrator's shell.
#[derive(Clone, Copy, Debug, PartialEq, Eq, Structural)]
pub enum AdminCommand {
    /// Leave the shell.
    Quit,
    /// Browse the database.
    Database,
    /// Open the management screen.
    Manage,
    /// Reload the access rules.
    FlushPrivileges,
    /// Anything else.
    Unknown,
}

/// What the line editor gave back.
pub enum PromptSignal {
    /// A line was entered.
    Line(String),
    CtrlC,
    CtrlD,
    /// The line editor failed.
    Failed,
}

/// What the shell does next.
pub enum ShellStep {
    /// Read the next line.
    Continue,
    /// Run a command, then read the next line.
    Run(AdminCommand),
    /// Write this text to the user, then read the next line.
    Say(String),
    /// End the session with this exit status.
    Terminate(u32),
}

/// The command a line asks for, once trimmed; none for a blank line. `quit` and `exit`
/// both leave; `help`, though offered for completion, is not a command.
pub open spec fn command_of(line: Seq<char>) -> Option<AdminCommand> {
    let t = trim_spec(line);
    if t.len() == 0 {
        None
    } else if t == "quit"@ || t == "exit"@ {
        Some(AdminCommand::Quit)
    } else if t == "database"@ {
        Some(AdminCommand::Database)
    } else if t == "manage"@ {
        Some(AdminCommand::Manage)
    } else if t == "flush_privileges"@ {
        Some(AdminCommand::FlushPrivileges)
    } else {
        Some(AdminCommand::Unknown)
    }
}

/// The command a line asks for. See [`command_of`].
pub fn admin_command(line: &str) -> (r: Option<AdminCommand>)
    ensures
        r == command_of(line@),
{
    proof {
        reveal_strlit("quit");
        reveal_strlit("exit");
        reveal_strlit("database");
        reveal_strlit("manage");
        reveal_strlit("flush_privileges");
    }
    let t = trim_chars(&str_chars(line));
    if t.len() == 0 {
        None
    } else if str_eq_chars(CMD_QUIT, &t) || str_eq_chars(CMD_EXIT, &t) {
        Some(AdminCommand::Quit)
    } else if str_eq_chars(CMD_DATABASE, &t) {
        Some(AdminCommand::Database)
    } else if str_eq_chars(CMD_MANAGE, &t) {
        Some(AdminCommand::Manage)
    } else if str_eq_chars(CMD_FLUSH_PRIVILEGES, &t) {
        Some(AdminCommand::FlushPrivileges)
    } else {
        Some(AdminCommand::Unknown)
    }
}

/// The commands offered for completion.
pub fn command_list() -> (r: Vec<&'static str>)
    ensures
        r@.len() == 5,
        r@[0]@ == "database"@,
        r@[1]@ == "manage"@,
        r@[2]@ == "flush_privileges"@,
        r@[3]@ == "help"@,
        r@[4]@ == "exit"@,
{
    proof {
        reveal_strlit("database");
        reveal_strlit("manage");
        reveal_strlit("flush_privileges");
        reveal_strlit("help");
        reveal_strlit("exit");
    }
    vec![CMD_DATABASE, CMD_MANAGE, CMD_FLUSH_PRIVILEGES, CMD_HELP, CMD_EXIT]
}

/// What the shell does with an answer of the line editor: a blank line or Ctrl+C
/// reads the next line; `quit`, `exit` or Ctrl+D end the session normally, a failure
/// of the line editor with status 1; an unknown command is reported, as typed.
pub fn shell_step(signal: PromptSignal) -> (r: ShellStep)
    ensures
        match signal {
            PromptSignal::Line(p) => match command_of(p@) {
                None => r is Continue,
                Some(AdminCommand::Quit) => r matches ShellStep::Terminate(c) && c == 0,
                Some(AdminCommand::Unknown) => r matches ShellStep::Say(s) && s@ == "Unknown command: "@ + p@,
                Some(c) => r matches ShellStep::Run(x) && x == c,
            },
            PromptSignal::CtrlC => r is Continue,
            PromptSignal::CtrlD => r matches ShellStep::Terminate(c) && c == 0,
            PromptSignal::Failed => r matches ShellStep::Terminate(c) && c == 1,
        },
{
    match signal {
        PromptSignal::Line(p) => match admin_command(p.as_str()) {
            None => ShellStep::Continue,
            Some(AdminCommand::Quit) => ShellStep::Terminate(0),
            Some(AdminCommand::Unknown) => {
                let mut v = str_chars("Unknown command: ");
                push_all(&mut v, &str_chars(p.as_str()));
                ShellStep::Say(chars_to_string(&v))
            },
            Some(c) => ShellStep::Run(c),
        },
        PromptSignal::CtrlC => ShellStep::Continue,
        PromptSignal::CtrlD => ShellStep::Terminate(0),
        PromptSignal::Failed => ShellStep::Terminate(1),
    }
}

/// The text written after reloading the access rules: the reload's error, or success.
pub fn flush_message(result: Result<(), String>) -> (s: String)
    ensures
        s@ == match result {
            Ok(()) => "flushed successfully"@,
            Err(e) => "flush previleges error: "@ + e@,
        },
{
    match result {
        Ok(()) => "flushed successfully".to_string(),
        Err(e) => {
            let mut v = str_chars("flush previleges error: ");
            push_all(&mut v, &str_chars(e.as_str()));
            chars_to_string(&v)
        },
    }
}

/// Surrounding spaces do not change the command a line asks for.
pub proof fn law_command_ignores_spaces(line: Seq<char>)
    ensures
        command_of(trim_spec(line)) == command_of(line),
{
    crate::text::lemma_trim_idempotent(line);
}

} // verus!
