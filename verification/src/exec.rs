//! Shell commands: how they are worded, and what their endings mean.
//!
//! No command is started here. A [`Command`] says what is to be run through
//! `bash -c` and how; whoever runs it reports the ending as an [`Outcome`],
//! and [`run`] turns that into the reply that the rest of the installer reads.

use vstd::prelude::*;
use vstd::string::*;
use crate::cli::{complain, complained, join, log, put, silence, styled, Line, LineView, Lvl};

verus! {

/// The scratch directory in which downloaded artifacts are staged.
pub const TMPDIR: &'static str = "/tmp/cuda_installer";

/// Creates a directory; an existing one is no error.
pub const MKDIR: &'static str = "mkdir -p";

/// Removes a directory and what is in it; a missing one is no error.
pub const RMDIR: &'static str = "rm -rf";

/// Asks a server for the headers of a URL only.
pub const PING: &'static str = "curl -I";

/// How the answer of a reachable URL opens: the protocol version and the
/// status code of success.
pub const REACHED: &'static str = "HTTP/2 200";

/// The reply to a command that ended with exit status 1.
pub const CANCELED: &'static str = "Operation was canceled by the user.";

/// A shell command and the way to run it.
#[derive(Clone, Debug, PartialEq, Eq)]
pub struct Command {
    /// The text handed to `bash -c`.
    pub line: String,
    /// Whether the command gets the terminal: it then reads and writes
    /// there itself, and nothing of its output is captured.
    pub interactive: bool,
    /// Whether its start and its ending are announced.
    pub verbose: bool,
}

/// A [`Command`] as a mathematical value.
pub struct CommandView {
    pub line: Seq<char>,
    pub interactive: bool,
    pub verbose: bool,
}

impl View for Command {
    type V = CommandView;

    open spec fn view(&self) -> CommandView {
        CommandView { line: self.line@, interactive: self.interactive, verbose: self.verbose }
    }
}

/// How a command ended.
#[derive(Clone, Debug, PartialEq, Eq)]
pub enum Outcome {
    /// The command ran and ended.
    Exited {
        /// Whether it ended well, that is with exit status 0.
        success: bool,
        /// Its exit status; none where a signal ended it.
        code: Option<i32>,
        /// What it wrote to standard output, where that was captured.
        stdout: String,
        /// What it wrote to standard error, where that was captured.
        stderr: String,
    },
    /// The command could not be started.
    Failed {
        /// Why not.
        error: String,
    },
}

/// An [`Outcome`] as a mathematical value.
pub enum OutcomeView {
    Exited { success: bool, code: Option<i32>, stdout: Seq<char>, stderr: Seq<char> },
    Failed { error: Seq<char> },
}

impl View for Outcome {
    type V = OutcomeView;

    open spec fn view(&self) -> OutcomeView {
        match self {
            Outcome::Exited { success, code, stdout, stderr } => OutcomeView::Exited {
                success: *success,
                code: *code,
                stdout: stdout@,
                stderr: stderr@,
            },
            Outcome::Failed { error } => OutcomeView::Failed { error: error@ },
        }
    }
}

/// What a command has to say for itself: its output, or why it failed.
pub type Reply = Result<String, String>;

/// A [`Reply`] as a mathematical value.
pub type ReplyView = Result<Seq<char>, Seq<char>>;

/// The mathematical value of a reply.
pub open spec fn reply_view(reply: Reply) -> ReplyView {
    match reply {
        Ok(output) => Ok(output@),
        Err(error) => Err(error@),
    }
}

/// A reply together with the lines that announce it.
#[derive(Debug)]
pub struct Ran {
    pub reply: Reply,
    pub lines: Vec<Line>,
}

/// A [`Ran`] as a mathematical value.
pub struct RanView {
    pub reply: ReplyView,
    pub lines: Seq<LineView>,
}

impl View for Ran {
    type V = RanView;

    open spec fn view(&self) -> RanView {
        RanView { reply: reply_view(self.reply), lines: self.lines.deep_view() }
    }
}

/// Whether `needle` stands in `haystack` from position `at` on.
pub open spec fn occurs_at(needle: Seq<char>, haystack: Seq<char>, at: int) -> bool {
    &&& 0 <= at
    &&& at + needle.len() <= haystack.len()
    &&& haystack.subrange(at, at + needle.len()) == needle
}

/// Whether `needle` stands somewhere in `haystack`, character for character.
pub open spec fn occurs_in(needle: Seq<char>, haystack: Seq<char>) -> bool {
    exists|at: int| #[trigger] occurs_at(needle, haystack, at)
}

/// `str::contains` of the standard library, with a string for the pattern:
/// true exactly if `needle` matches a stretch of `haystack`. Both are valid
/// UTF-8, so a match of the bytes is a match of whole characters.
#[verifier::external_body]
pub(crate) fn contains(haystack: &str, needle: &str) -> (found: bool)
    ensures
        found == occurs_in(needle@, haystack@),
{
    haystack.contains(needle)
}

/// What is written before a command starts.
pub open spec fn announced(cmd: CommandView) -> Seq<LineView> {
    if cmd.verbose {
        seq![styled(Lvl::Info, "Running command: "@ + cmd.line)]
    } else {
        Seq::empty()
    }
}

/// The reply that a command gives by ending in `outcome`.
///
/// Its output if it ended well. Else exit status 1 is read as the user
/// declining inside the command, and every other ending is an error that
/// quotes the command and what it wrote to standard error.
pub open spec fn reply_of(cmd: CommandView, outcome: OutcomeView) -> ReplyView {
    match outcome {
        OutcomeView::Exited { success, code, stdout, stderr } => if success {
            Ok(stdout)
        } else if code == Some(1i32) {
            Err(CANCELED@)
        } else {
            Err("Command executed with errors: "@ + cmd.line + "\nError: "@ + stderr)
        },
        OutcomeView::Failed { error } => Err("Failed to execute command: "@ + error),
    }
}

/// What is written after a command has ended in `outcome`.
pub open spec fn reported(cmd: CommandView, outcome: OutcomeView) -> Seq<LineView> {
    match outcome {
        OutcomeView::Exited { success, code, stdout, stderr } => if !cmd.verbose {
            Seq::empty()
        } else if success {
            seq![styled(Lvl::Success, "Command executed successfully"@)]
        } else if code == Some(1i32) {
            seq![styled(Lvl::Warning, "User declined to proceed with the installation."@)]
        } else {
            Seq::empty()
        },
        OutcomeView::Failed { error } => Seq::empty(),
    }
}

/// What [`run`] makes of `outcome`.
pub open spec fn ran(cmd: CommandView, outcome: OutcomeView) -> RanView {
    RanView { reply: reply_of(cmd, outcome), lines: reported(cmd, outcome) }
}

/// The command that looks whether `link` can be reached.
pub open spec fn probe_of(link: Seq<char>) -> CommandView {
    CommandView { line: PING@ + " "@ + link, interactive: false, verbose: true }
}

/// Whether `c` can follow the status code in a status line: a blank before
/// the reason, or the end of the line.
pub open spec fn ends_status(c: char) -> bool {
    c == ' ' || c == '\r' || c == '\n'
}

/// Whether `output` opens with the status line of success: it begins with
/// the protocol version and the status code 200, and the code ends there.
/// What stands further down, in a header or in a body, does not count.
pub open spec fn succeeded(output: Seq<char>) -> bool {
    &&& occurs_at(REACHED@, output, 0)
    &&& output.len() > REACHED@.len() ==> ends_status(output[REACHED@.len() as int])
}

/// Whether the reply to a probe shows that the URL can be reached: the probe
/// ended well and the answer opens with the status line of success. A probe
/// that failed and an answer with any other status say that it cannot.
pub open spec fn reachable(reply: ReplyView) -> bool {
    match reply {
        Ok(output) => succeeded(output),
        Err(_) => false,
    }
}

/// What is written about the reply to a probe.
pub open spec fn reach_lines(reply: ReplyView) -> Seq<LineView> {
    match reply {
        Ok(output) => if succeeded(output) {
            seq![styled(Lvl::Success, "Valid link"@)]
        } else {
            Seq::empty()
        },
        Err(error) => seq![complained("Failed to check link: "@ + error)],
    }
}

/// The command that creates the scratch directory.
pub open spec fn mktmp_command() -> CommandView {
    CommandView { line: MKDIR@ + " "@ + TMPDIR@, interactive: false, verbose: true }
}

/// The command that removes the scratch directory.
pub open spec fn rmtmp_command() -> CommandView {
    CommandView { line: RMDIR@ + " "@ + TMPDIR@, interactive: false, verbose: true }
}

/// What is written once the scratch directory was to be created.
pub open spec fn made_lines(reply: ReplyView) -> Seq<LineView> {
    match reply {
        Ok(_) => seq![styled(Lvl::Success, "Tmp directory created: "@ + TMPDIR@)],
        Err(error) => seq![styled(Lvl::Error, "Failed to create tmp directory: "@ + error)],
    }
}

/// What is written once the scratch directory was to be removed.
pub open spec fn removed_lines(reply: ReplyView) -> Seq<LineView> {
    match reply {
        Ok(_) => seq![styled(Lvl::Success, "Tmp directory removed: "@ + TMPDIR@)],
        Err(error) => seq![
            styled(Lvl::Error, "Failed to remove tmp directory: "@ + error),
            styled(Lvl::Warning, "Please remove the tmp directory manually at "@ + TMPDIR@),
        ],
    }
}

/// The last line of a run.
pub open spec fn farewell(panicking: bool) -> LineView {
    if panicking {
        styled(Lvl::Error, "Installation exited!"@)
    } else {
        styled(Lvl::Success, "Installation completed successfully!"@)
    }
}

/// The exit status of a run: 0 if it went through, 1 if it was given up, for
/// whatever reason.
pub open spec fn status(panicking: bool) -> i32 {
    if panicking {
        1
    } else {
        0
    }
}

/// The three texts one after the other.
pub fn join3(a: &str, b: &str, c: &str) -> (text: String)
    ensures
        text@ == a@ + b@ + c@,
{
    let mut text = String::from_str(a);
    text.append(b);
    text.append(c);
    text
}

impl Command {
    /// The lines to write before the command is started: its wording, if
    /// it is verbose.
    pub fn announce(&self) -> (lines: Vec<Line>)
        ensures
            lines.deep_view() == announced(self@),
    {
        let mut lines = silence();
        if self.verbose {
            let text = join("Running command: ", self.line.as_str());
            put(&mut lines, log(Lvl::Info, text.as_str()));
        }
        lines
    }
}

/// Reads the ending of `cmd`: the reply is its output if it ended well, and
/// a description of what went wrong if not; the lines say which, if the
/// command is verbose.
pub fn run(cmd: &Command, outcome: Outcome) -> (r: Ran)
    ensures
        r@ == ran(cmd@, outcome@),
{
    let mut lines = silence();
    match outcome {
        Outcome::Exited { success, code, stdout, stderr } => {
            if success {
                if cmd.verbose {
                    put(&mut lines, log(Lvl::Success, "Command executed successfully"));
                }
                Ran { reply: Ok(stdout), lines }
            } else {
                let exit_code: i32 = match code {
                    Some(c) => c,
                    None => -1,
                };
                if exit_code == 1 {
                    if cmd.verbose {
                        put(
                            &mut lines,
                            log(Lvl::Warning, "User declined to proceed with the installation."),
                        );
                    }
                    Ran { reply: Err(String::from_str(CANCELED)), lines }
                } else {
                    let mut error_msg = join3(
                        "Command executed with errors: ",
                        cmd.line.as_str(),
                        "\nError: ",
                    );
                    error_msg.append(stderr.as_str());
                    Ran { reply: Err(error_msg), lines }
                }
            }
        },
        Outcome::Failed { error } => {
            let error_msg = join("Failed to execute command: ", error.as_str());
            Ran { reply: Err(error_msg), lines }
        },
    }
}

/// The probe for `link`: a request for its headers, run quietly in the
/// background and announced.
pub fn probe(link: &str) -> (cmd: Command)
    ensures
        cmd@ == probe_of(link@),
{
    Command { line: join3(PING, " ", link), interactive: false, verbose: true }
}

/// Whether `text` begins with `head`.
pub fn begins(text: &str, head: &str) -> (found: bool)
    ensures
        found == occurs_at(head@, text@, 0),
{
    let n = head.unicode_len();
    if text.unicode_len() < n {
        return false;
    }
    let start = String::from_str(text.substring_char(0, n));
    let wanted = String::from_str(head);
    start == wanted
}

/// Whether the answer to a probe opens with the status line of success.
pub fn success_status(output: &str) -> (found: bool)
    ensures
        found == succeeded(output@),
{
    if !begins(output, REACHED) {
        return false;
    }
    let n = REACHED.unicode_len();
    if output.unicode_len() == n {
        return true;
    }
    let c = output.get_char(n);
    c == ' ' || c == '\r' || c == '\n'
}

/// Reads the reply to a probe. The link counts as reachable only if the
/// probe ended well and its answer opens with the status line of success;
/// the same words further down in the answer do not count. A probe that
/// failed is reported on standard error.
pub fn verify_link(reply: &Reply) -> (r: (bool, Vec<Line>))
    ensures
        r.0 == reachable(reply_view(*reply)),
        r.1.deep_view() == reach_lines(reply_view(*reply)),
{
    let mut lines = silence();
    match reply {
        Ok(output) => {
            if success_status(output.as_str()) {
                put(&mut lines, log(Lvl::Success, "Valid link"));
                (true, lines)
            } else {
                (false, lines)
            }
        },
        Err(error) => {
            let text = join("Failed to check link: ", error.as_str());
            put(&mut lines, complain(text.as_str()));
            (false, lines)
        },
    }
}

/// The command that creates the scratch directory.
pub fn mktmp() -> (cmd: Command)
    ensures
        cmd@ == mktmp_command(),
{
    Command { line: join3(MKDIR, " ", TMPDIR), interactive: false, verbose: true }
}

/// Reads the reply to [`mktmp`]: whether the scratch directory is there, and
/// what to write about it.
pub fn made(reply: &Reply) -> (r: (bool, Vec<Line>))
    ensures
        r.0 == reply is Ok,
        r.1.deep_view() == made_lines(reply_view(*reply)),
{
    let mut lines = silence();
    match reply {
        Ok(_) => {
            let text = join("Tmp directory created: ", TMPDIR);
            put(&mut lines, log(Lvl::Success, text.as_str()));
            (true, lines)
        },
        Err(error) => {
            let text = join("Failed to create tmp directory: ", error.as_str());
            put(&mut lines, log(Lvl::Error, text.as_str()));
            (false, lines)
        },
    }
}

/// The command that removes the scratch directory and all that is in it.
/// It ends well also where no such directory exists.
pub fn rmtmp() -> (cmd: Command)
    ensures
        cmd@ == rmtmp_command(),
{
    Command { line: join3(RMDIR, " ", TMPDIR), interactive: false, verbose: true }
}

/// Reads the reply to [`rmtmp`]. A removal that failed is an error to report
/// and a reason to ask the user to remove the directory by hand, no more.
pub fn removed(reply: &Reply) -> (lines: Vec<Line>)
    ensures
        lines.deep_view() == removed_lines(reply_view(*reply)),
{
    let mut lines = silence();
    match reply {
        Ok(_) => {
            let text = join("Tmp directory removed: ", TMPDIR);
            put(&mut lines, log(Lvl::Success, text.as_str()));
        },
        Err(error) => {
            let text = join("Failed to remove tmp directory: ", error.as_str());
            put(&mut lines, log(Lvl::Error, text.as_str()));
            let hint = join("Please remove the tmp directory manually at ", TMPDIR);
            put(&mut lines, log(Lvl::Warning, hint.as_str()));
        },
    }
    lines
}

/// How a run ends, once the scratch directory has been dealt with: the last
/// line to write and the exit status, 1 for a run that was given up and 0
/// for one that went through.
pub fn end(panicking: bool) -> (r: (Line, i32))
    ensures
        r.0@ == farewell(panicking),
        r.1 == status(panicking),
{
    if panicking {
        (log(Lvl::Error, "Installation exited!"), 1)
    } else {
        (log(Lvl::Success, "Installation completed successfully!"), 0)
    }
}

} // verus!
