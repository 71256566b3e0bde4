//! Running commands, with their fun names kept: capture a child process's
//! stdout and stderr while forwarding both to caller-supplied sinks, then
//! fold the exit status and the captured bytes into one result — or an
//! error that still names the command and keeps its output.
//!
//! The heart is the stream runner in [`command`]: per stream a duplicating
//! writer pairs a capture buffer with an external sink, a drain loop
//! copies the pipe into it until end-of-stream, and a reconciliation step
//! turns the two drain outcomes and the awaited exit into the final value.
//! Around it sit the naming layer ([`CommandWithName`], [`display`]), the
//! error taxonomy ([`CmdError`]), and an optional post-hoc diagnosis of
//! launch failures ([`map_which_problem`]).
//!
//! Everything that decides or computes carries a contract; the process,
//! pipe and thread handling itself stays outside, handed in through the
//! [`ByteSource`], [`ByteSink`] and [`ChildHandle`] interfaces.

pub mod command;
pub mod memory;
pub mod process;
pub mod text;

pub use command::ByteSink;
pub use command::ByteSource;
pub use command::ChildHandle;
pub use command::DrainReport;
pub use command::RunFault;
pub use command::StreamFault;
pub use command::StreamId;
pub use command::TeeFault;
pub use command::TeeSide;
pub use command::TeeWrite;
pub use command::copy_stream;
pub use command::finish_streams;
pub use command::output_and_write_streams;
pub use command::tee;
pub use memory::BoundedSink;
pub use memory::ExitedChild;
pub use memory::MemorySource;
pub use process::ExitStatus;
pub use process::IoError;
pub use process::Output;
pub use process::ProcessSpec;

use vstd::prelude::*;
use vstd::string::StrSliceExecFns;
use vstd::string::StringExecFns;

use crate::text::debug_quote;
use crate::text::debug_quoted;
use crate::text::is_blank;
use crate::text::lossy_decode;
use crate::text::lossy_string;
use crate::text::needs_quoting;
use crate::text::str_is_blank;
use crate::text::str_needs_quoting;

verus! {

/// How one argument is rendered for people: as it stands when every
/// character is safe to show bare, else quoted and escaped.
pub open spec fn spec_display_arg(a: Seq<char>) -> Seq<char> {
    if needs_quoting(a) {
        debug_quoted(a)
    } else {
        a
    }
}

/// The human-readable rendering of a command: the program, then each
/// argument, separated by single spaces, with arguments quoted as needed.
pub open spec fn spec_display(program: Seq<char>, args: Seq<Seq<char>>) -> Seq<char>
    decreases args.len(),
{
    if args.len() == 0 {
        program
    } else {
        spec_display(program, args.drop_last()) + seq![' '] + spec_display_arg(args.last())
    }
}

/// Converts a command and its arguments into a user readable string.
pub fn display(command: &ProcessSpec) -> (r: String)
    ensures
        r@ == spec_display(command.program@, command.args.deep_view()),
{
    let mut out = command.program.clone();
    proof {
        assert(command.args.deep_view().take(0) =~= Seq::<Seq<char>>::empty());
    }
    let mut i: usize = 0;
    while i < command.args.len()
        invariant
            i <= command.args.len(),
            out@ == spec_display(command.program@, command.args.deep_view().take(i as int)),
        decreases command.args.len() - i,
    {
        out.append(" ");
        let a = &command.args[i];
        if str_needs_quoting(a.as_str()) {
            let q = debug_quote(a.as_str());
            out.append(q.as_str());
        } else {
            out.append(a.as_str());
        }
        proof {
            reveal_strlit(" ");
            assert(" "@ =~= seq![' ']);
            let dv = command.args.deep_view();
            assert(dv.take(i + 1).drop_last() =~= dv.take(i as int));
            assert(dv.take(i + 1).last() == command.args@[i as int]@);
            assert(out@ =~= spec_display(command.program@, dv.take(i + 1)));
        }
        i = i + 1;
    }
    proof {
        assert(command.args.deep_view().take(command.args.len() as int)
            =~= command.args.deep_view());
    }
    out
}

/// The rendering of one captured stream inside an error message: the lossy
/// decoding of its bytes, or `<empty>` when that is all white space.
pub open spec fn spec_display_out_or_empty(bytes: Seq<u8>) -> Seq<char> {
    if is_blank(lossy_decode(bytes)) {
        "<empty>"@
    } else {
        lossy_decode(bytes)
    }
}

/// Render captured stream contents for an error message, standing in
/// `<empty>` for output that is nothing but white space.
pub fn display_out_or_empty(contents: &[u8]) -> (r: String)
    ensures
        r@ == spec_display_out_or_empty(contents@),
{
    let s = lossy_string(contents);
    if str_is_blank(s.as_str()) {
        "<empty>".to_owned()
    } else {
        s
    }
}

/// The value an environment holds for a key, with the empty string for a
/// missing key; when a key repeats, the latest entry wins, as it would
/// when the pairs are collected into a map.
pub open spec fn env_value(env: Seq<(String, String)>, key: Seq<char>) -> Seq<char>
    decreases env.len(),
{
    if env.len() == 0 {
        Seq::empty()
    } else if env.last().0@ == key {
        env.last().1@
    } else {
        env_value(env.drop_last(), key)
    }
}

/// Look a key up in an environment listing, the latest entry winning.
fn lookup_env(env: &Vec<(String, String)>, key: &String) -> (r: String)
    ensures
        r@ == env_value(env@, key@),
{
    proof {
        assert(env@.take(env@.len() as int) =~= env@);
    }
    let mut i: usize = env.len();
    while i > 0
        invariant
            i <= env@.len(),
            env_value(env@, key@) == env_value(env@.take(i as int), key@),
        decreases i,
    {
        i = i - 1;
        proof {
            assert(env@.take(i + 1).drop_last() =~= env@.take(i as int));
            assert(env@.take(i + 1).last() == env@[i as int]);
        }
        let pair = &env[i];
        if pair.0 == *key {
            return pair.1.clone();
        }
    }
    proof {
        assert(env@.take(0) =~= Seq::<(String, String)>::empty());
    }
    String::new()
}

/// The rendered `KEY="value"` pairs for the first `i` keys, each followed
/// by a single space.
pub open spec fn spec_env_prefix(env: Seq<(String, String)>, keys: Seq<String>, i: int) -> Seq<
    char,
>
    decreases i,
{
    if i <= 0 {
        Seq::empty()
    } else {
        spec_env_prefix(env, keys, i - 1) + keys[i - 1]@ + seq!['='] + debug_quoted(
            env_value(env, keys[i - 1]@),
        ) + seq![' ']
    }
}

/// The rendering of a command with chosen environment variables shown in
/// front of it, each as `KEY="value"`.
pub open spec fn spec_display_with_env_keys(
    cmd: ProcessSpec,
    env: Seq<(String, String)>,
    keys: Seq<String>,
) -> Seq<char> {
    spec_env_prefix(env, keys, keys.len() as int) + spec_display(cmd.program@, cmd.args.deep_view())
}

/// Converts a command, arguments, and chosen environment variables to a
/// user readable string, such as `RAILS_ENV="production" bundle install`.
pub fn display_with_env_keys(
    cmd: &ProcessSpec,
    env: &Vec<(String, String)>,
    keys: &Vec<String>,
) -> (r: String)
    ensures
        r@ == spec_display_with_env_keys(*cmd, env@, keys@),
{
    let mut out = String::new();
    let mut i: usize = 0;
    while i < keys.len()
        invariant
            i <= keys@.len(),
            out@ == spec_env_prefix(env@, keys@, i as int),
        decreases keys@.len() - i,
    {
        let key = &keys[i];
        out.append(key.as_str());
        out.append("=");
        let value = lookup_env(env, key);
        let quoted = debug_quote(value.as_str());
        out.append(quoted.as_str());
        out.append(" ");
        proof {
            reveal_strlit("=");
            reveal_strlit(" ");
            assert("="@ =~= seq!['=']);
            assert(" "@ =~= seq![' ']);
            assert(out@ =~= spec_env_prefix(env@, keys@, i + 1));
        }
        i = i + 1;
    }
    let rendered = display(cmd);
    out.append(rendered.as_str());
    out
}

/// The output of one command run together with the name the command was
/// shown under, so both success and failure keep the name.
#[derive(Clone, Debug, PartialEq, Eq)]
pub struct NamedOutput {
    pub name: String,
    pub output: Output,
}

/// Turning an output into an error when its status is non-zero, keeping
/// the output itself either way. `streamed` tells whether the caller has
/// already seen the bytes, which only changes how the error renders.
pub open spec fn spec_nonzero(name: String, output: Output, streamed: bool) -> Result<
    NamedOutput,
    CmdError,
> {
    if output.status.is_success() {
        Ok(NamedOutput { name, output })
    } else if streamed {
        Err(CmdError::NonZeroExitAlreadyStreamed(NamedOutput { name, output }))
    } else {
        Err(CmdError::NonZeroExitNotStreamed(NamedOutput { name, output }))
    }
}

impl NamedOutput {
    /// Check the status and convert into an error if it is non-zero; the
    /// error will render the captured output, which the caller has not
    /// seen yet.
    pub fn nonzero_captured(self) -> (r: Result<NamedOutput, CmdError>)
        ensures
            r == spec_nonzero(self.name, self.output, false),
    {
        nonzero_captured(self.name, self.output)
    }

    /// Check the status and convert into an error if it is non-zero; the
    /// error will not repeat the captured output, which was already
    /// streamed to the caller.
    pub fn nonzero_streamed(self) -> (r: Result<NamedOutput, CmdError>)
        ensures
            r == spec_nonzero(self.name, self.output, true),
    {
        nonzero_streamed(self.name, self.output)
    }

    /// The exit status of the run.
    pub fn status(&self) -> (r: &ExitStatus)
        ensures
            *r == self.output.status,
    {
        &self.output.status
    }

    /// The raw captured stdout.
    pub fn stdout(&self) -> (r: &Vec<u8>)
        ensures
            *r == self.output.stdout,
    {
        &self.output.stdout
    }

    /// The raw captured stderr.
    pub fn stderr(&self) -> (r: &Vec<u8>)
        ensures
            *r == self.output.stderr,
    {
        &self.output.stderr
    }

    /// The captured stdout, lossily decoded to a string.
    pub fn stdout_lossy(&self) -> (r: String)
        ensures
            r@ == lossy_decode(self.output.stdout@),
    {
        lossy_string(self.output.stdout.as_slice())
    }

    /// The captured stderr, lossily decoded to a string.
    pub fn stderr_lossy(&self) -> (r: String)
        ensures
            r@ == lossy_decode(self.output.stderr@),
    {
        lossy_string(self.output.stderr.as_slice())
    }

    /// The name the command was run under.
    pub fn name(&self) -> (r: String)
        ensures
            r@ == self.name@,
    {
        self.name.clone()
    }

    /// The underlying output.
    pub fn output(&self) -> (r: &Output)
        ensures
            *r == self.output,
    {
        &self.output
    }

    /// The output an error stands for: a non-zero exit keeps its real
    /// output; a run that never started has an empty stdout, the rendered
    /// OS error as its stderr, and the status the error reports.
    pub fn from(value: CmdError) -> (r: NamedOutput)
        ensures
            r.name@ == value.spec_name(),
            value matches CmdError::SystemError(_, error) ==> {
                &&& r.output.status == spec_error_status(error)
                &&& r.output.stdout@ == Seq::<u8>::empty()
                &&& r.output.stderr@ == vstd::utf8::encode_utf8(error.message@)
            },
            value matches CmdError::NonZeroExitNotStreamed(named) ==> r == named,
            value matches CmdError::NonZeroExitAlreadyStreamed(named) ==> r == named,
    {
        match value {
            CmdError::SystemError(name, error) => {
                let stderr = error.message.as_str().as_bytes_vec();
                NamedOutput {
                    name,
                    output: Output {
                        status: error_status(&error),
                        stdout: Vec::new(),
                        stderr,
                    },
                }
            },
            CmdError::NonZeroExitNotStreamed(named) => named,
            CmdError::NonZeroExitAlreadyStreamed(named) => named,
        }
    }
}

impl vstd::std_specs::convert::FromSpecImpl<NamedOutput> for Output {
    open spec fn obeys_from_spec() -> bool {
        true
    }

    open spec fn from_spec(v: NamedOutput) -> Output {
        v.output
    }
}

impl From<NamedOutput> for Output {
    /// Strip the name off and keep the bare output.
    fn from(value: NamedOutput) -> (r: Output) {
        value.output
    }
}

/// Why a command run produced no usable output: the process could not be
/// started at all, or it ran and exited with a non-zero status, in which
/// case the output is kept — rendered in the error when it was captured
/// quietly, left out when the caller already saw it streamed.
#[derive(Debug)]
pub enum CmdError {
    SystemError(String, IoError),
    NonZeroExitNotStreamed(NamedOutput),
    NonZeroExitAlreadyStreamed(NamedOutput),
}

/// The status a launch error stands for: the raw OS error code when there
/// is one, else a default failing code.
pub open spec fn spec_error_status(e: IoError) -> ExitStatus {
    match e.raw_os {
        Some(c) => ExitStatus::Exited(c),
        None => ExitStatus::Exited(-1i32),
    }
}

fn error_status(e: &IoError) -> (r: ExitStatus)
    ensures
        r == spec_error_status(*e),
{
    match e.raw_os {
        Some(c) => ExitStatus::Exited(c),
        None => ExitStatus::Exited(-1),
    }
}

/// The exit code an error message shows: the real code when the process
/// exited normally, else one.
pub open spec fn spec_code_or_one(s: ExitStatus) -> int {
    match s.spec_code() {
        Some(c) => c as int,
        None => 1,
    }
}

impl CmdError {
    /// The display name of the command that failed.
    pub open spec fn spec_name(&self) -> Seq<char> {
        match self {
            CmdError::SystemError(name, _) => name@,
            CmdError::NonZeroExitNotStreamed(out) => out.name@,
            CmdError::NonZeroExitAlreadyStreamed(out) => out.name@,
        }
    }

    /// Returns a display representation of the command that failed.
    pub fn name(&self) -> (r: String)
        ensures
            r@ == self.spec_name(),
    {
        match self {
            CmdError::SystemError(name, _) => name.clone(),
            CmdError::NonZeroExitNotStreamed(out) => out.name.clone(),
            CmdError::NonZeroExitAlreadyStreamed(out) => out.name.clone(),
        }
    }

    pub open spec fn spec_status(&self) -> ExitStatus {
        match self {
            CmdError::SystemError(_, error) => spec_error_status(*error),
            CmdError::NonZeroExitNotStreamed(out) => out.output.status,
            CmdError::NonZeroExitAlreadyStreamed(out) => out.output.status,
        }
    }

    /// The exit status the error reports: the real status when the process
    /// ran, else one derived from the OS error code.
    pub fn status(&self) -> (r: ExitStatus)
        ensures
            r == self.spec_status(),
    {
        match self {
            CmdError::SystemError(_, error) => error_status(error),
            CmdError::NonZeroExitNotStreamed(out) => out.output.status,
            CmdError::NonZeroExitAlreadyStreamed(out) => out.output.status,
        }
    }

    /// The rendered error message, line by line: what could not run and
    /// why, or what failed with which status and what it printed.
    pub open spec fn spec_message(&self) -> Seq<char> {
        match self {
            CmdError::SystemError(name, error) => "Could not run command `"@ + name@ + "`. "@
                + error.message@,
            CmdError::NonZeroExitNotStreamed(out) => "Command failed `"@ + out.name@
                + "`\nexit status: "@ + crate::text::spec_decimal(
                spec_code_or_one(out.output.status),
            ) + "\nstdout: "@ + spec_display_out_or_empty(out.output.stdout@) + "\nstderr: "@
                + spec_display_out_or_empty(out.output.stderr@),
            CmdError::NonZeroExitAlreadyStreamed(out) => "Command failed `"@ + out.name@
                + "`\nexit status: "@ + crate::text::spec_decimal(
                spec_code_or_one(out.output.status),
            ) + "\nstdout: <see above>\nstderr: <see above>"@,
        }
    }

    /// Render the error for people.
    pub fn message(&self) -> (r: String)
        ensures
            r@ == self.spec_message(),
    {
        match self {
            CmdError::SystemError(name, error) => {
                let mut m = String::from_str("Could not run command `");
                m.append(name.as_str());
                m.append("`. ");
                m.append(error.message.as_str());
                m
            },
            CmdError::NonZeroExitNotStreamed(out) => {
                let code = match out.output.status.code() {
                    Some(c) => c,
                    None => 1,
                };
                let mut m = String::from_str("Command failed `");
                m.append(out.name.as_str());
                m.append("`\nexit status: ");
                crate::text::append_decimal(code, &mut m);
                m.append("\nstdout: ");
                let so = display_out_or_empty(out.output.stdout.as_slice());
                m.append(so.as_str());
                m.append("\nstderr: ");
                let se = display_out_or_empty(out.output.stderr.as_slice());
                m.append(se.as_str());
                m
            },
            CmdError::NonZeroExitAlreadyStreamed(out) => {
                let code = match out.output.status.code() {
                    Some(c) => c,
                    None => 1,
                };
                let mut m = String::from_str("Command failed `");
                m.append(out.name.as_str());
                m.append("`\nexit status: ");
                crate::text::append_decimal(code, &mut m);
                m.append("\nstdout: <see above>\nstderr: <see above>");
                m
            },
        }
    }
}

/// Converts an OS error into a command error that keeps the formatted
/// command name.
pub fn on_system_error(name: String, error: IoError) -> (r: CmdError)
    ensures
        r == CmdError::SystemError(name, error),
{
    CmdError::SystemError(name, error)
}

/// Converts an output into an error when its status is non-zero. Use when
/// the output was already streamed to the caller: the error will not
/// render it again.
pub fn nonzero_streamed(name: String, output: Output) -> (r: Result<NamedOutput, CmdError>)
    ensures
        r == spec_nonzero(name, output, true),
{
    if output.status.success() {
        Ok(NamedOutput { name, output })
    } else {
        Err(CmdError::NonZeroExitAlreadyStreamed(NamedOutput { name, output }))
    }
}

/// Converts an output into an error when its status is non-zero. Use when
/// the output was captured quietly: the error renders it, so diagnostic
/// output is not lost.
pub fn nonzero_captured(name: String, output: Output) -> (r: Result<NamedOutput, CmdError>)
    ensures
        r == spec_nonzero(name, output, false),
{
    if output.status.success() {
        Ok(NamedOutput { name, output })
    } else {
        Err(CmdError::NonZeroExitNotStreamed(NamedOutput { name, output }))
    }
}

/// What a run decision must look like: a successful status yields the named
/// output; a non-zero status yields the matching error, still carrying the
/// output; a spawn failure yields a system error under the same name.
pub open spec fn run_outcome_matches(
    name: Seq<char>,
    outcome: Result<Output, IoError>,
    streamed: bool,
    r: Result<NamedOutput, CmdError>,
) -> bool {
    match outcome {
        Ok(output) => if output.status.is_success() {
            r matches Ok(no) && no.name@ == name && no.output == output
        } else if streamed {
            r matches Err(CmdError::NonZeroExitAlreadyStreamed(no)) && no.name@ == name
                && no.output == output
        } else {
            r matches Err(CmdError::NonZeroExitNotStreamed(no)) && no.name@ == name && no.output
                == output
        },
        Err(e) => r matches Err(CmdError::SystemError(n, io)) && n@ == name && io == e,
    }
}

/// A command together with the name it is shown under. Renaming is useful
/// when part of the real invocation would distract, or when extra context,
/// such as environment variables, should appear in logs and errors.
pub trait CommandWithName: Sized {
    /// The underlying command.
    spec fn spec_cmd(&self) -> ProcessSpec;

    /// The display name the command is shown under.
    spec fn spec_name(&self) -> Seq<char>;

    /// Returns the desired display name of the command.
    fn name(&self) -> (r: String)
        ensures
            r@ == self.spec_name(),
    ;

    /// Returns a reference to the underlying command, for passing on.
    fn mut_cmd(&mut self) -> (r: &mut ProcessSpec)
        ensures
            *r == old(self).spec_cmd(),
            final(self).spec_cmd() == *final(r),
    ;

    /// Rename the command via a given string.
    fn named(self, s: &str) -> (r: NamedCommand)
        ensures
            r.name@ == s@,
            r.command == self.spec_cmd(),
    ;

    /// Rename the command via a function of the command.
    fn named_fn<F: FnOnce(&ProcessSpec) -> String>(self, f: F) -> (r: NamedCommand)
        requires
            forall|c: &ProcessSpec| *c == self.spec_cmd() ==> #[trigger] call_requires(f, (c,)),
        ensures
            r.command == self.spec_cmd(),
            exists|c: &ProcessSpec| *c == self.spec_cmd() && #[trigger] call_ensures(
                f,
                (c,),
                r.name,
            ),
    ;

    /// Decide the result of a quiet run from its outcome: name the output,
    /// or turn the spawn failure or non-zero exit into an error that will
    /// render the captured output.
    fn named_output(&self, outcome: Result<Output, IoError>) -> (r: Result<NamedOutput, CmdError>)
        ensures
            run_outcome_matches(self.spec_name(), outcome, false, r),
    {
        let name = self.name();
        match outcome {
            Ok(output) => nonzero_captured(name, output),
            Err(e) => Err(CmdError::SystemError(name, e)),
        }
    }

    /// Decide the result of a streamed run from its outcome: as
    /// `named_output`, but the error will not repeat what was streamed.
    fn stream_output(&self, outcome: Result<Output, IoError>) -> (r: Result<NamedOutput, CmdError>)
        ensures
            run_outcome_matches(self.spec_name(), outcome, true, r),
    {
        let name = self.name();
        match outcome {
            Ok(output) => nonzero_streamed(name, output),
            Err(e) => Err(CmdError::SystemError(name, e)),
        }
    }
}

/// A command whose display name was fixed when it was built, instead of
/// being derived from the program and arguments.
#[derive(Debug)]
pub struct NamedCommand {
    pub name: String,
    pub command: ProcessSpec,
}

impl NamedCommand {
    /// Name a command after its own rendering, fixing the name before any
    /// further arguments are added.
    pub fn from(command: ProcessSpec) -> (r: NamedCommand)
        ensures
            r.name@ == spec_display(command.program@, command.args.deep_view()),
            r.command == command,
    {
        let name = display(&command);
        NamedCommand { name, command }
    }
}

impl CommandWithName for ProcessSpec {
    open spec fn spec_cmd(&self) -> ProcessSpec {
        *self
    }

    open spec fn spec_name(&self) -> Seq<char> {
        spec_display(self.program@, self.args.deep_view())
    }

    fn name(&self) -> (r: String) {
        display(self)
    }

    fn mut_cmd(&mut self) -> (r: &mut ProcessSpec) {
        self
    }

    fn named(self, s: &str) -> (r: NamedCommand) {
        NamedCommand { name: s.to_owned(), command: self }
    }

    fn named_fn<F: FnOnce(&ProcessSpec) -> String>(self, f: F) -> (r: NamedCommand) {
        let name = f(&self);
        let r = NamedCommand { name, command: self };
        proof {
            assert(call_ensures(f, (&r.command,), r.name));
        }
        r
    }
}

impl CommandWithName for NamedCommand {
    open spec fn spec_cmd(&self) -> ProcessSpec {
        self.command
    }

    open spec fn spec_name(&self) -> Seq<char> {
        self.name@
    }

    fn name(&self) -> (r: String) {
        self.name.clone()
    }

    fn mut_cmd(&mut self) -> (r: &mut ProcessSpec)
        ensures
            final(self).name == old(self).name,
    {
        &mut self.command
    }

    fn named(self, s: &str) -> (r: NamedCommand) {
        NamedCommand { name: s.to_owned(), command: self.command }
    }

    fn named_fn<F: FnOnce(&ProcessSpec) -> String>(self, f: F) -> (r: NamedCommand) {
        let name = f(&self.command);
        let r = NamedCommand { name, command: self.command };
        proof {
            assert(call_ensures(f, (&r.command,), r.name));
        }
        r
    }
}

/// An OS error together with diagnostic text to show under it.
#[derive(Debug)]
pub struct IoErrorAnnotation {
    pub source: IoError,
    pub annotation: String,
}

impl IoErrorAnnotation {
    pub fn new(source: IoError, annotation: String) -> (r: IoErrorAnnotation)
        ensures
            r.source == source,
            r.annotation == annotation,
    {
        IoErrorAnnotation { source, annotation }
    }

    /// Fold the annotation into one error: the message shows the source
    /// and then the annotation starting on the next line. The combined
    /// error is a synthetic one, so it carries no raw OS code of its own.
    pub fn into_io_error(self) -> (r: IoError)
        ensures
            r.raw_os is None,
            r.message@ == self.source.message@ + "\n"@ + self.annotation@,
    {
        let mut message = self.source.message;
        message.append("\n");
        message.append(self.annotation.as_str());
        IoError { raw_os: None, message }
    }
}

/// Returns an I/O error that displays the given annotation starting on the
/// next line.
pub fn annotate_io_error(source: IoError, annotation: String) -> (r: IoError)
    ensures
        r.raw_os is None,
        r.message@ == source.message@ + "\n"@ + annotation@,
{
    IoErrorAnnotation::new(source, annotation).into_io_error()
}

/// Relies on which_problem's `Which::diagnose`: resolves the program as
/// `which` would and renders what it found about the system, or the error
/// the probing itself hit. The outcome depends on the machine's disk and
/// permissions, so nothing is promised of it.
#[verifier::external_body]
fn diagnose_which(program: &str, cwd: Option<&str>, path_env: Option<String>) -> (r: Result<
    String,
    String,
>) {
    let outcome = which_problem::Which {
        cwd: cwd.map(std::path::PathBuf::from),
        program: program.to_owned().into(),
        path_env: path_env.map(|p| p.into()),
        ..which_problem::Which::default()
    }.diagnose();
    match outcome {
        Ok(details) => Ok(details.to_string()),
        Err(error) => Err(error.to_string()),
    }
}

/// The diagnostic text appended under a launch error, for one outcome of
/// the probe: what it found, or why it could not look.
pub open spec fn spec_annotation(diagnosis: Result<String, String>) -> Seq<char> {
    match diagnosis {
        Ok(details) => "\nSystem diagnostic information:\n\n"@ + details@,
        Err(error) => "\nInternal error while gathering diagnostic information:\n\n"@ + error@,
    }
}

/// Build the annotation text for one outcome of the diagnostic probe.
pub fn annotation_for(diagnosis: Result<String, String>) -> (r: String)
    ensures
        r@ == spec_annotation(diagnosis),
{
    match diagnosis {
        Ok(details) => {
            let mut m = String::from_str("\nSystem diagnostic information:\n\n");
            m.append(details.as_str());
            m
        },
        Err(error) => {
            let mut m = String::from_str("\nInternal error while gathering diagnostic information:\n\n");
            m.append(error.as_str());
            m
        },
    }
}

/// Annotate an OS error with what the diagnostic probe found out about the
/// program. Whatever the probe reports, the original message is kept and
/// the annotation follows on the next line.
fn annotate_which_problem(error: IoError, cmd: &ProcessSpec, path_env: Option<String>) -> (r:
    IoError)
    ensures
        r.raw_os is None,
        exists|d: Result<String, String>| r.message@ == error.message@ + "\n"@
            + #[trigger] spec_annotation(d),
{
    let cwd = match &cmd.current_dir {
        Some(c) => Some(c.as_str()),
        None => None,
    };
    let diagnosis = diagnose_which(cmd.program.as_str(), cwd, path_env);
    let ghost d0 = diagnosis;
    let annotation = annotation_for(diagnosis);
    let annotated = annotate_io_error(error, annotation);
    proof {
        assert(annotated.message@ == error.message@ + "\n"@ + spec_annotation(d0));
    }
    annotated
}

/// Adds diagnostic information to a command error when it is a system
/// error — the command could not be run at all. The probe explains why the
/// program could not be found or started; any other error is returned
/// unchanged. This runs only after the fact, at the caller's request; the
/// runner itself never consults it.
pub fn map_which_problem(error: CmdError, cmd: &ProcessSpec, path_env: Option<String>) -> (r:
    CmdError)
    ensures
        error matches CmdError::SystemError(name, io) ==> r matches CmdError::SystemError(n2, io2)
            && n2 == name && io2.raw_os is None && exists|d: Result<String, String>| io2.message@
            == io.message@ + "\n"@ + #[trigger] spec_annotation(d),
        !(error matches CmdError::SystemError(_, _)) ==> r == error,
{
    match error {
        CmdError::SystemError(name, io) => CmdError::SystemError(
            name,
            annotate_which_problem(io, cmd, path_env),
        ),
        other => other,
    }
}

} // verus!
