//! The shell tool: runs a command through the platform shell, within a
//! time limit, and reports its output.
//!
//! `prepare` checks the parameters and resolves the working directory; the
//! caller spawns the command and waits for it; `finish` turns what came of
//! it into the text handed back to the agent.

use vstd::prelude::*;
use crate::filesystem::{missing_param, require_param, resolves_to};
use crate::params::ParamMap;
use crate::paths::expand_path;
use crate::schema::{string_params, string_schema, ParameterSchema, ToolSchema, ToolSchemaView};
use crate::text::{
    blank, decimal, decimal_string, is_blank, join, join_strings, signed_decimal,
    signed_decimal_string, views,
};

verus! {

/// The time limit of a command when none is configured, in seconds.
pub const DEFAULT_TIMEOUT_SECS: u64 = 60;

/// Output longer than this many characters is cut.
pub const MAX_OUTPUT_CHARS: usize = 10000;

/// What `String::from_utf8_lossy` makes of a byte sequence.
pub uninterp spec fn lossy_text(b: Seq<u8>) -> Seq<char>;

/// Relies on String::from_utf8_lossy, which depends on the bytes alone.
#[verifier::external_body]
fn decode_lossy(b: &Vec<u8>) -> (r: String)
    ensures
        r@ == lossy_text(b@),
{
    String::from_utf8_lossy(b.as_slice()).into_owned()
}

/// A command to run: the command line, the working directory (none: the
/// process's own) and the time limit in seconds.
#[derive(Clone, Debug)]
pub struct CommandRequest {
    pub command: String,
    pub working_dir: Option<String>,
    pub timeout_secs: u64,
}

/// What the finished command left.
#[derive(Clone, Debug)]
pub struct CommandOutput {
    pub stdout: Vec<u8>,
    pub stderr: Vec<u8>,
    /// The exit code; none when a signal ended the process.
    pub exit_code: Option<i32>,
}

/// What came of running a command.
#[derive(Clone, Debug)]
pub enum CommandOutcome {
    Completed(CommandOutput),
    /// The command could not be run; the error's text.
    SpawnFailed(String),
    /// The time limit passed first.
    TimedOut,
}

/// The pieces of a command's report: the standard output if any, the
/// standard error under a `STDERR:` heading if it holds more than
/// whitespace, and the exit code if the command failed (-1: no code).
pub open spec fn output_parts(
    stdout: Option<Seq<char>>,
    stderr: Option<Seq<char>>,
    exit_code: Option<i32>,
) -> Seq<Seq<char>> {
    let out = match stdout {
        Some(s) => seq![s],
        None => Seq::empty(),
    };
    let err = match stderr {
        Some(s) => if blank(s) {
            Seq::empty()
        } else {
            seq!["STDERR:\n"@ + s]
        },
        None => Seq::empty(),
    };
    let code = if exit_code == Some(0i32) {
        Seq::empty()
    } else {
        seq![
            "\nExit code: "@ + signed_decimal(
                match exit_code {
                    Some(c) => c as int,
                    None => -1,
                },
            ),
        ]
    };
    out + err + code
}

/// The text cut to its first [`MAX_OUTPUT_CHARS`] characters, with a note of
/// how many were left out.
pub open spec fn truncated(s: Seq<char>) -> Seq<char> {
    if s.len() > MAX_OUTPUT_CHARS {
        s.subrange(0, MAX_OUTPUT_CHARS as int) + "... (truncated, "@ + decimal(
            (s.len() - MAX_OUTPUT_CHARS) as nat,
        ) + " more chars)"@
    } else {
        s
    }
}

/// The report of a finished command, from its decoded output (none where
/// the stream was empty).
pub open spec fn output_report(
    stdout: Option<Seq<char>>,
    stderr: Option<Seq<char>>,
    exit_code: Option<i32>,
) -> Seq<char> {
    let parts = output_parts(stdout, stderr, exit_code);
    truncated(
        if parts.len() == 0 {
            "(no output)"@
        } else {
            join(parts, "\n"@)
        },
    )
}

/// The decoded text of a stream, none when it is empty.
pub open spec fn stream_text(b: Seq<u8>) -> Option<Seq<char>> {
    if b.len() == 0 {
        None
    } else {
        Some(lossy_text(b))
    }
}

/// The text handed back for what came of a command run with the given time limit.
pub open spec fn command_result(timeout_secs: u64, outcome: CommandOutcome) -> Seq<char> {
    match outcome {
        CommandOutcome::Completed(o) => output_report(
            stream_text(o.stdout@),
            stream_text(o.stderr@),
            o.exit_code,
        ),
        CommandOutcome::SpawnFailed(e) => "Error executing command: "@ + e@,
        CommandOutcome::TimedOut => "Error: Command timed out after "@ + decimal(
            timeout_secs as nat,
        ) + " seconds"@,
    }
}

/// The text an optional string holds.
pub open spec fn text_of(o: Option<String>) -> Option<Seq<char>> {
    match o {
        Some(s) => Some(s@),
        None => None,
    }
}

/// Cuts a report longer than [`MAX_OUTPUT_CHARS`] characters.
pub fn truncate_output(s: String) -> (r: String)
    ensures
        r@ == truncated(s@),
{
    let n = s.unicode_len();
    if n > MAX_OUTPUT_CHARS {
        let mut r = String::from_str(s.as_str().substring_char(0, MAX_OUTPUT_CHARS));
        r.append("... (truncated, ");
        r.append(decimal_string((n - MAX_OUTPUT_CHARS) as u128).as_str());
        r.append(" more chars)");
        r
    } else {
        s
    }
}

/// The report of a finished command from its decoded output.
pub fn render_output(stdout: Option<String>, stderr: Option<String>, exit_code: Option<i32>) -> (r:
    String)
    ensures
        r@ == output_report(text_of(stdout), text_of(stderr), exit_code),
{
    let ghost want = output_parts(text_of(stdout), text_of(stderr), exit_code);
    let mut parts: Vec<String> = Vec::new();
    match stdout {
        Some(s) => parts.push(s),
        None => {},
    }
    match stderr {
        Some(s) => {
            if !is_blank(s.as_str()) {
                let mut t = String::from_str("STDERR:\n");
                t.append(s.as_str());
                parts.push(t);
            }
        },
        None => {},
    }
    let failed = match exit_code {
        Some(c) => c != 0,
        None => true,
    };
    if failed {
        let code: i32 = match exit_code {
            Some(c) => c,
            None => -1,
        };
        let mut t = String::from_str("\nExit code: ");
        t.append(signed_decimal_string(code as i64).as_str());
        parts.push(t);
    }
    assert(views(parts@) =~= want);
    let text = if parts.len() == 0 {
        String::from_str("(no output)")
    } else {
        join_strings(&parts, "\n")
    };
    truncate_output(text)
}

/// Runs shell commands, each within a time limit.
#[derive(Clone, Debug)]
pub struct ExecTool {
    pub timeout_secs: u64,
    /// The working directory of commands that name none.
    pub working_dir: Option<String>,
}

pub open spec fn exec_props() -> Seq<(&'static str, &'static str)> {
    seq![
        ("command", "The shell command to execute"),
        ("working_dir", "Optional working directory for the command"),
    ]
}

pub open spec fn exec_schema() -> ToolSchemaView {
    ToolSchemaView {
        name: "exec"@,
        description: "Execute a shell command and return its output. Use with caution."@,
        parameters: string_params(exec_props(), seq!["command"]),
    }
}

impl Default for ExecTool {
    /// A shell tool with the default time limit, running commands in the
    /// process's current directory.
    fn default() -> (r: Self)
        ensures
            r.timeout_secs == DEFAULT_TIMEOUT_SECS,
            r.working_dir is None,
    {
        ExecTool { timeout_secs: DEFAULT_TIMEOUT_SECS, working_dir: None }
    }
}

impl ExecTool {
    /// A shell tool with the given time limit and default working directory.
    pub fn new(timeout_secs: u64, working_dir: Option<String>) -> (r: Self)
        ensures
            r.timeout_secs == timeout_secs,
            r.working_dir == working_dir,
    {
        ExecTool { timeout_secs, working_dir }
    }

    /// A copy of this tool.
    pub fn duplicate(&self) -> (r: Self)
        ensures
            r == *self,
    {
        let working_dir = match &self.working_dir {
            Some(w) => Some(w.clone()),
            None => None,
        };
        ExecTool { timeout_secs: self.timeout_secs, working_dir }
    }

    pub fn tool_name(&self) -> (r: &'static str)
        ensures
            r@ == exec_schema().name,
    {
        "exec"
    }

    pub fn description(&self) -> (r: &'static str)
        ensures
            r@ == exec_schema().description,
    {
        "Execute a shell command and return its output. Use with caution."
    }

    pub fn parameters(&self) -> (r: ParameterSchema)
        ensures
            r@ == exec_schema().parameters,
    {
        let mut props: Vec<(&str, &str)> = Vec::new();
        props.push(("command", "The shell command to execute"));
        props.push(("working_dir", "Optional working directory for the command"));
        let mut req: Vec<&str> = Vec::new();
        req.push("command");
        proof {
            reveal_strlit("command");
            reveal_strlit("working_dir");
            assert(props@ =~= exec_props());
            assert(req@ =~= seq!["command"]);
            let v = string_params(props@, req@);
            let names = v.property_names();
            assert(names =~= seq!["command"@, "working_dir"@]);
            assert(names[0].len() != names[1].len());
            assert(names.contains(v.required[0]));
        }
        string_schema(&props, &req)
    }

    pub fn to_schema(&self) -> (r: ToolSchema)
        ensures
            r@ == exec_schema(),
    {
        ToolSchema {
            name: String::from_str(self.tool_name()),
            description: String::from_str(self.description()),
            parameters: self.parameters(),
        }
    }

    /// Checks the parameters: `command` is required; `working_dir`, when
    /// given, overrides the tool's own default.
    pub fn prepare(&self, params: &ParamMap) -> (r: Result<CommandRequest, String>)
        ensures
            match r {
                Ok(q) => {
                    &&& params.value_of("command"@) == Some(q.command@)
                    &&& q.timeout_secs == self.timeout_secs
                    &&& match params.value_of("working_dir"@) {
                        Some(w) => q.working_dir is Some && resolves_to(w, q.working_dir->0@),
                        None => match self.working_dir {
                            Some(w) => q.working_dir is Some && resolves_to(
                                w@,
                                q.working_dir->0@,
                            ),
                            None => q.working_dir is None,
                        },
                    }
                },
                Err(e) => params.value_of("command"@) is None && e@ == missing_param("command"@),
            },
    {
        let command = require_param(params, "command")?;
        let working_dir = match params.get("working_dir") {
            Some(w) => Some(expand_path(w.as_str())),
            None => match &self.working_dir {
                Some(w) => Some(expand_path(w.as_str())),
                None => None,
            },
        };
        Ok(CommandRequest { command, working_dir, timeout_secs: self.timeout_secs })
    }

    /// The result of running the command: its report, or the failure.
    pub fn finish(&self, outcome: CommandOutcome) -> (r: String)
        ensures
            r@ == command_result(self.timeout_secs, outcome),
    {
        match outcome {
            CommandOutcome::Completed(o) => {
                let out = if o.stdout.len() == 0 {
                    None
                } else {
                    Some(decode_lossy(&o.stdout))
                };
                let err = if o.stderr.len() == 0 {
                    None
                } else {
                    Some(decode_lossy(&o.stderr))
                };
                render_output(out, err, o.exit_code)
            },
            CommandOutcome::SpawnFailed(e) => {
                let mut r = String::from_str("Error executing command: ");
                r.append(e.as_str());
                r
            },
            CommandOutcome::TimedOut => {
                let mut r = String::from_str("Error: Command timed out after ");
                r.append(decimal_string(self.timeout_secs as u128).as_str());
                r.append(" seconds");
                r
            },
        }
    }
}

} // verus!
