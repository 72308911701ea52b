//! The command segment: the captured output of a configured command,
//! one line of the dashboard per line of output.  Spawning the command
//! and decoding its output live with acquisition; the outcome rules
//! and the rendering are pure.

use vstd::prelude::*;
use crate::render::{split_lines, spec_lines_of, Info, SegmentRenderer};
use crate::text::{push_i64, spec_dec_i64};

verus! {

/// Snapshot of a command's captured output.
#[derive(Debug)]
pub struct CommandInfo {
    pub output: String,
}

impl Info for CommandInfo {

}

impl Default for CommandInfo {
    fn default() -> (r: Self)
        ensures
            r.output@ == Seq::<char>::empty(),
    {
        CommandInfo { output: String::new() }
    }
}

/// What can go wrong running the command.
#[derive(Debug)]
pub enum CommandError {
    /// The command ran and failed; the code is absent when the process
    /// ended without one.
    CommandFailed { command_ran: String, status_code: Option<i64> },
    /// The command could not be spawned.
    SpawnFailed { message: String },
    /// The output was not valid text.
    OutputParseError { message: String },
}

impl CommandError {
    /// The error's text.
    pub fn message_text(&self) -> (r: String)
        ensures
            self matches CommandError::CommandFailed { command_ran, status_code: Option::Some(c) }
                ==> r@ == "command `"@ + command_ran@ + "` failed with status `"@ + spec_dec_i64(
                c as int,
            ) + "`"@,
            self matches CommandError::CommandFailed { command_ran, status_code: Option::None }
                ==> r@ == "command `"@ + command_ran@ + "` failed without a status"@,
            self matches CommandError::SpawnFailed { message } ==> r@
                == "failed to spawn command: "@ + message@,
            self matches CommandError::OutputParseError { message } ==> r@
                == "couldn't parse output as utf8: "@ + message@,
    {
        match self {
            CommandError::CommandFailed { command_ran, status_code } => {
                let mut s = String::new();
                s.append("command `");
                s.append(command_ran.as_str());
                match status_code {
                    Option::Some(code) => {
                        s.append("` failed with status `");
                        push_i64(&mut s, *code);
                        s.append("`");
                        assert(s@ =~= "command `"@ + command_ran@ + "` failed with status `"@
                            + spec_dec_i64(*code as int) + "`"@);
                    },
                    Option::None => {
                        s.append("` failed without a status");
                        assert(s@ =~= "command `"@ + command_ran@
                            + "` failed without a status"@);
                    },
                }
                s
            },
            CommandError::SpawnFailed { message } => {
                let mut s = String::new();
                s.append("failed to spawn command: ");
                s.append(message.as_str());
                assert(s@ =~= "failed to spawn command: "@ + message@);
                s
            },
            CommandError::OutputParseError { message } => {
                let mut s = String::new();
                s.append("couldn't parse output as utf8: ");
                s.append(message.as_str());
                assert(s@ =~= "couldn't parse output as utf8: "@ + message@);
                s
            },
        }
    }
}

/// Configuration for the command segment: the command to run.
pub struct CommandInfoBuilder {
    pub command: String,
}

impl CommandInfoBuilder {
    pub fn new() -> (r: Self)
        ensures
            r.command@ == Seq::<char>::empty(),
    {
        CommandInfoBuilder { command: String::new() }
    }

    /// Sets the command to run.
    pub fn command(self, command: String) -> (r: Self)
        ensures
            r.command == command,
    {
        CommandInfoBuilder { command }
    }

    /// The outcome of one run: a failing status is the command's
    /// failure, unreadable output is a decode failure, and anything
    /// else is the snapshot of the decoded output.
    pub fn outcome_from_run(
        &self,
        status_success: bool,
        status_code: Option<i64>,
        decoded_output: Option<String>,
    ) -> (r: Result<CommandInfo, CommandError>)
        ensures
            !status_success ==> (r matches Err(CommandError::CommandFailed {
                command_ran,
                status_code: rc,
            }) && command_ran == self.command && rc == status_code),
            status_success && decoded_output is None ==> (r matches Err(
                CommandError::OutputParseError { message },
            ) && message@ == "invalid utf-8 sequence"@),
            status_success ==> (decoded_output matches Some(out) ==> (r matches Ok(info)
                && info.output == out)),
    {
        if !status_success {
            return Result::Err(
                CommandError::CommandFailed { command_ran: self.command.clone(), status_code },
            );
        }
        match decoded_output {
            Option::Some(out) => Result::Ok(CommandInfo { output: out }),
            Option::None => Result::Err(
                CommandError::OutputParseError {
                    message: String::from_str("invalid utf-8 sequence"),
                },
            ),
        }
    }
}

impl Default for CommandInfoBuilder {
    fn default() -> (r: Self)
        ensures
            r.command@ == Seq::<char>::empty(),
    {
        CommandInfoBuilder::new()
    }
}

/// Renders the command snapshot: its output's lines, bare.
pub struct CommandSegmentRenderer {
    pub info: CommandInfo,
}

impl CommandSegmentRenderer {
    pub fn new(info: CommandInfo) -> (r: Self)
        ensures
            r.info == info,
    {
        CommandSegmentRenderer { info }
    }
}

impl SegmentRenderer for CommandSegmentRenderer {
    open spec fn spec_lines(&self) -> Seq<Seq<char>> {
        spec_lines_of(self.info.output@)
    }

    fn height(&self) -> (h: usize) {
        let r = self.render_lines();
        r.len()
    }

    fn render_lines(&self) -> (r: Vec<String>) {
        split_lines(self.info.output.as_str())
    }
}

} // verus!
