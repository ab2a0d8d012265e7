use vstd::prelude::*;
use vstd::utf8::{decode_utf8, valid_utf8};
use crate::credential::{utf8_text, pass_2_stdin, secret_content, stdin_lines_spec, CredentialError};
use secstr::SecVec;
use crate::text::{push_char, chars_of, views};

verus! {

/// Why a shell command did not give its output.
#[derive(Clone, Debug)]
pub enum ProcessError {
    /// The process could not be created.
    SpawnFailed,
    /// The process ended with a non-zero status; its standard error.
    NonZeroExit(String),
    /// The process wrote output that is not valid UTF-8.
    InvalidOutput,
}

/// The message for an error: the standard error of a failed command as it
/// stands.
pub open spec fn message_spec(e: ProcessError) -> Seq<char> {
    match e {
        ProcessError::SpawnFailed => "the command could not be started"@,
        ProcessError::NonZeroExit(m) => m@,
        ProcessError::InvalidOutput => "the command wrote text that is not UTF-8"@,
    }
}

impl ProcessError {
    /// A message for the user.
    pub fn message(&self) -> (r: String)
        ensures
            r@ == message_spec(*self),
    {
        match self {
            ProcessError::SpawnFailed => String::from_str("the command could not be started"),
            ProcessError::NonZeroExit(m) => m.clone(),
            ProcessError::InvalidOutput => String::from_str("the command wrote text that is not UTF-8"),
        }
    }
}

/// The last line shown for a streamed command, from its status.
pub fn completion_message(status: &Result<(), ProcessError>) -> (r: String)
    ensures
        match status {
            Ok(_) => r@ == "Command completed successfully. "@,
            Err(e) => r@ == message_spec(*e) + "\nCommand ended with failure. "@,
        },
{
    match status {
        Ok(_) => String::from_str("Command completed successfully. "),
        Err(e) => {
            let mut r = e.message();
            r.append("\nCommand ended with failure. ");
            r
        },
    }
}

/// What a finished process handed back.
pub struct CommandOutput {
    pub success: bool,
    pub stdout: Vec<u8>,
    pub stderr: Vec<u8>,
}

/// The diagnostic of a failed command that wrote nothing to its standard
/// error.
pub open spec fn silent_failure() -> Seq<char> {
    "the command ended with a failure status and wrote no diagnostic"@
}

/// The failure of a command from its standard error: the text itself, or
/// `silent_failure` when there is none.
pub open spec fn failure_spec(stderr: Seq<u8>) -> Option<Seq<char>> {
    if stderr.len() == 0 {
        Some(silent_failure())
    } else if valid_utf8(stderr) {
        Some(decode_utf8(stderr))
    } else {
        None
    }
}

/// The outcome of a finished shell command: its standard output when it
/// succeeded, its standard error as the failure when it did not.
pub open spec fn run_spec(success: bool, stdout: Seq<u8>, stderr: Seq<u8>) -> Result<Seq<char>, Option<Seq<char>>> {
    if success {
        if valid_utf8(stdout) { Ok(decode_utf8(stdout)) } else { Err(None) }
    } else {
        Err(failure_spec(stderr))
    }
}

/// The failure of a command from its standard error.
fn failure(stderr: Vec<u8>) -> (r: ProcessError)
    ensures
        match failure_spec(stderr@) {
            Some(m) => r matches ProcessError::NonZeroExit(x) && x@ == m,
            None => r is InvalidOutput,
        },
{
    if stderr.len() == 0 {
        return ProcessError::NonZeroExit(String::from_str("the command ended with a failure status and wrote no diagnostic"));
    }
    match utf8_text(stderr) {
        Some(s) => ProcessError::NonZeroExit(s),
        None => ProcessError::InvalidOutput,
    }
}

/// Whether `r` is what `run_spec` describes (`Err(None)`: not valid UTF-8).
pub open spec fn matches_run<T>(r: Result<T, ProcessError>, expected: Result<Seq<char>, Option<Seq<char>>>, ok: spec_fn(T) -> Seq<char>) -> bool {
    match (r, expected) {
        (Ok(v), Ok(e)) => ok(v) == e,
        (Err(ProcessError::NonZeroExit(m)), Err(Some(e))) => m@ == e,
        (Err(ProcessError::InvalidOutput), Err(None)) => true,
        _ => false,
    }
}

/// The result of a shell command from what its process handed back once it
/// ended: the standard output on a zero exit status, the standard error as a
/// `NonZeroExit` otherwise.
pub fn run(output: CommandOutput) -> (r: Result<String, ProcessError>)
    ensures
        matches_run(r, run_spec(output.success, output.stdout@, output.stderr@), |s: String| s@),
{
    if output.success {
        match utf8_text(output.stdout) {
            Some(s) => Ok(s),
            None => Err(ProcessError::InvalidOutput),
        }
    } else {
        Err(failure(output.stderr))
    }
}

/// The status of a streamed command once it ended: success, or its standard
/// error as a `NonZeroExit`.
pub fn close_status(success: bool, stderr: Vec<u8>) -> (r: Result<(), ProcessError>)
    ensures
        success ==> r is Ok,
        !success ==> match failure_spec(stderr@) {
            Some(m) => r matches Err(ProcessError::NonZeroExit(x)) && x@ == m,
            None => r matches Err(ProcessError::InvalidOutput),
        },
{
    if success {
        Ok(())
    } else {
        Err(failure(stderr))
    }
}

/// A program and its arguments.
pub struct ShellInvocation {
    pub program: String,
    pub args: Vec<String>,
}

/// The way a command string is handed to a platform shell: `sh -c` on POSIX,
/// `powershell -c` on Windows.
pub fn build_command(command: &str, windows: bool) -> (r: ShellInvocation)
    ensures
        r.program@ == (if windows { "powershell"@ } else { "sh"@ }),
        views(r.args@) == seq!["-c"@, command@],
{
    let program = if windows { String::from_str("powershell") } else { String::from_str("sh") };
    let mut args: Vec<String> = Vec::new();
    args.push(String::from_str("-c"));
    args.push(String::from_str(command));
    assert(views(args@) =~= seq!["-c"@, command@]);
    ShellInvocation { program, args }
}

/// A command to stream, what to write to its standard input, and whether the
/// cached privilege credentials are to be dropped before and after it.
pub struct CommandSpec {
    pub command: String,
    pub stdin: Option<Vec<String>>,
    pub invalidate_credentials: bool,
}

/// What is to be done next for an install, a removal or an update.
pub enum Action {
    /// Stream this command.
    Run(CommandSpec),
    /// Fetch the asset list at this address, then hand it to the release
    /// backend's `download_command`.
    Download { assets_url: String },
    /// Delete every compatibility-tool directory whose name contains this
    /// version, then stream the release backend's `removed_command`.
    RemoveMatching { version: String },
    /// Load the release backend, then ask for the update again.
    Reload,
}

/// `s` as one shell word in single quotes, each `'` in it written `'\''`.
pub open spec fn quote_spec(s: Seq<char>) -> Seq<char> {
    seq!['\''] + escape_spec(s) + seq!['\'']
}

pub open spec fn escape_spec(s: Seq<char>) -> Seq<char>
    decreases s.len(),
{
    if s.len() == 0 {
        Seq::<char>::empty()
    } else {
        escape_spec(s.drop_last()) + if s.last() == '\'' {
            seq!['\'', '\\', '\'', '\'']
        } else {
            seq![s.last()]
        }
    }
}

/// `s` quoted as one shell word, so that no character of it is read by the
/// shell.
pub fn shell_quote(s: &str) -> (r: String)
    ensures
        r@ == quote_spec(s@),
{
    let chars = chars_of(s);
    let mut r = String::new();
    push_char(&mut r, '\'');
    let mut i: usize = 0;
    while i < chars.len()
        invariant
            i <= chars.len(),
            chars@ == s@,
            r@ == seq!['\''] + escape_spec(chars@.take(i as int)),
        decreases chars.len() - i,
    {
        let c = chars[i];
        proof {
            let t = chars@.take(i + 1);
            assert(t.drop_last() == chars@.take(i as int));
            assert(t.last() == c);
        }
        let ghost before = r@;
        if c == '\'' {
            push_char(&mut r, '\'');
            push_char(&mut r, '\\');
            push_char(&mut r, '\'');
            push_char(&mut r, '\'');
            assert(r@ == before + seq!['\'', '\\', '\'', '\'']);
        } else {
            push_char(&mut r, c);
            assert(r@ == before + seq![c]);
        }
        i = i + 1;
    }
    assert(chars@.take(chars.len() as int) == chars@);
    push_char(&mut r, '\'');
    r
}

/// `s` as one PowerShell word in single quotes, each `'` in it doubled.
pub open spec fn ps_quote_spec(s: Seq<char>) -> Seq<char> {
    seq!['\''] + ps_escape_spec(s) + seq!['\'']
}

pub open spec fn ps_escape_spec(s: Seq<char>) -> Seq<char>
    decreases s.len(),
{
    if s.len() == 0 {
        Seq::<char>::empty()
    } else {
        ps_escape_spec(s.drop_last()) + if s.last() == '\'' {
            seq!['\'', '\'']
        } else {
            seq![s.last()]
        }
    }
}

/// `s` quoted as one PowerShell word.
pub fn powershell_quote(s: &str) -> (r: String)
    ensures
        r@ == ps_quote_spec(s@),
{
    let chars = chars_of(s);
    let mut r = String::new();
    push_char(&mut r, '\'');
    let mut i: usize = 0;
    while i < chars.len()
        invariant
            i <= chars.len(),
            chars@ == s@,
            r@ == seq!['\''] + ps_escape_spec(chars@.take(i as int)),
        decreases chars.len() - i,
    {
        let c = chars[i];
        proof {
            let t = chars@.take(i + 1);
            assert(t.drop_last() == chars@.take(i as int));
            assert(t.last() == c);
        }
        let ghost before = r@;
        if c == '\'' {
            push_char(&mut r, '\'');
            push_char(&mut r, '\'');
            assert(r@ == before + seq!['\'', '\'']);
        } else {
            push_char(&mut r, c);
            assert(r@ == before + seq![c]);
        }
        i = i + 1;
    }
    assert(chars@.take(chars.len() as int) == chars@);
    push_char(&mut r, '\'');
    r
}

/// What is written to a command's standard input for `lines`: each line
/// followed by a line feed.
pub open spec fn stdin_text_spec(lines: Seq<Seq<char>>) -> Seq<char>
    decreases lines.len(),
{
    if lines.len() == 0 {
        Seq::<char>::empty()
    } else {
        stdin_text_spec(lines.drop_last()) + lines.last().push('\n')
    }
}

/// The text written to a command's standard input for `lines`.
pub fn stdin_text(lines: &Vec<String>) -> (r: String)
    ensures
        r@ == stdin_text_spec(views(lines@)),
{
    let mut r = String::new();
    let mut i: usize = 0;
    while i < lines.len()
        invariant
            i <= lines.len(),
            r@ == stdin_text_spec(views(lines@.take(i as int))),
        decreases lines.len() - i,
    {
        proof {
            let t = lines@.take(i + 1);
            assert(t.drop_last() == lines@.take(i as int));
            assert(views(t).drop_last() == views(t.drop_last()));
        }
        r.append(lines[i].as_str());
        push_char(&mut r, '\n');
        i = i + 1;
    }
    assert(lines@.take(lines.len() as int) == lines@);
    r
}

/// Why an install, a removal or an update could not be started.
#[derive(Clone, Copy, Debug, PartialEq, Eq, Structural)]
pub enum OpError {
    /// The secret for a privileged command is missing or unusable.
    Credential(CredentialError),
    /// The package name does not have the form the backend needs.
    MalformedName,
    /// No package of that name is known.
    PackageNotFound,
    /// The release offers no archive to download.
    NoArchive,
}

/// `r` is `command` run with `password` on its standard input, with the
/// cached credentials dropped around it.
pub open spec fn privileged_spec(password: Option<SecVec<u8>>, command: Seq<char>, r: Result<CommandSpec, OpError>) -> bool {
    match password {
        None => r == Err::<CommandSpec, OpError>(OpError::Credential(CredentialError::MissingSecret)),
        Some(s) => match stdin_lines_spec(secret_content(s)) {
            Ok(lines) => {
                &&& r is Ok
                &&& r->Ok_0.command@ == command
                &&& r->Ok_0.stdin is Some
                &&& views(r->Ok_0.stdin->0@) == lines
                &&& r->Ok_0.invalidate_credentials
            },
            Err(e) => r == Err::<CommandSpec, OpError>(OpError::Credential(e)),
        },
    }
}

/// `r` is `command` run with nothing on its standard input.
pub open spec fn plain_spec(command: Seq<char>, r: CommandSpec) -> bool {
    &&& r.command@ == command
    &&& r.stdin is None
    &&& !r.invalidate_credentials
}

/// `command` to be run as root, its password on its standard input.
pub fn privileged(password: Option<SecVec<u8>>, command: String) -> (r: Result<CommandSpec, OpError>)
    ensures
        privileged_spec(password, command@, r),
{
    match pass_2_stdin(password) {
        Ok(lines) => Ok(CommandSpec { command, stdin: Some(lines), invalidate_credentials: true }),
        Err(e) => Err(OpError::Credential(e)),
    }
}

/// The authentication probe: `sudo -S -v` with `password` on its standard
/// input. Its failure means the password is rejected.
pub fn auth_probe(password: Option<SecVec<u8>>) -> (r: Result<CommandSpec, OpError>)
    ensures
        privileged_spec(password, "sudo -S -v"@, r),
{
    privileged(password, String::from_str("sudo -S -v"))
}

/// `command` to be run as it is.
pub fn plain(command: String) -> (r: CommandSpec)
    ensures
        plain_spec(command@, r),
{
    CommandSpec { command, stdin: None, invalidate_credentials: false }
}

/// `head`, then `word` quoted, then `tail`.
pub fn with_word(head: &str, word: &str, tail: &str) -> (r: String)
    ensures
        r@ == head@ + quote_spec(word@) + tail@,
{
    let mut r = String::from_str(head);
    let q = shell_quote(word);
    r.append(q.as_str());
    r.append(tail);
    r
}

} // verus!
