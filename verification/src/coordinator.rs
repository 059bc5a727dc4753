//! The phases of one build. Each phase is a type of its own, so that a build
//! can only be driven in the order stage, clean, compile, probe, read.

use crate::artifact::{base64_text, callback_binary_exists, encode_standard, encoded_length};
use crate::request::{BuildRequest, SourceFile};
use crate::response::{completed, BuildResponse, ResponseView};
use crate::text::{lines_of, lossy_text, output_lines, texts};
use std::path::PathBuf;
use vstd::prelude::*;
use vstd::string::StringExecFns;

verus! {

/// The directory under the workspace root into which the files are staged.
pub open spec fn source_subpath() -> Seq<char> {
    "programs/solana_workspace/src"@
}

/// The first line of every build log.
pub open spec fn received_line() -> Seq<char> {
    "Received build request on Rust Server"@
}

/// The log line that names the workspace, given as the caller renders it.
pub open spec fn targeting_line(workspace: Seq<char>) -> Seq<char> {
    "Targeting workspace: "@ + workspace
}

/// The log line for one staged file.
pub open spec fn wrote_line(path: Seq<char>) -> Seq<char> {
    "Wrote file: programs/solana_workspace/src/"@ + path
}

/// The log line that stands before the compiler's output.
pub open spec fn starting_line() -> Seq<char> {
    "Starting compilation..."@
}

/// The log line that ends the log of a compiler that reported failure.
pub open spec fn failed_line() -> Seq<char> {
    "Build command failed."@
}

/// The log line that ends the log of a compiler that left no artifact.
pub open spec fn missing_line() -> Seq<char> {
    "Binary not found after successful build."@
}

/// The program that compiles the workspace.
pub open spec fn compiler_program() -> Seq<char> {
    "anchor"@
}

/// The arguments that the compiler is run with.
pub open spec fn compiler_arguments() -> Seq<Seq<char>> {
    seq!["build"@]
}

/// The log of a build before any file is staged.
pub open spec fn opening_log(workspace: Seq<char>) -> Seq<Seq<char>> {
    seq![received_line(), targeting_line(workspace)]
}

/// The log lines for the first `n` files of a request.
pub open spec fn staged_lines(files: Seq<(Seq<char>, Seq<char>)>, n: int) -> Seq<Seq<char>> {
    Seq::new(n as nat, |i: int| wrote_line(files[i].0))
}

/// The staging phase as plain values: the files, how many of them have been
/// handed out, and the log so far.
pub struct StagingView {
    pub files: Seq<(Seq<char>, Seq<char>)>,
    pub next: int,
    pub logs: Seq<Seq<char>>,
}

impl StagingView {
    /// Whether a file is still to be staged.
    pub open spec fn pending(self) -> bool {
        0 <= self.next < self.files.len()
    }

    /// The file to stage next.
    pub open spec fn current(self) -> (Seq<char>, Seq<char>) {
        self.files[self.next]
    }

    /// The phase once the file to stage next is on disk.
    pub open spec fn advanced(self) -> StagingView {
        StagingView {
            files: self.files,
            next: self.next + 1,
            logs: self.logs.push(wrote_line(self.current().0)),
        }
    }

    /// The files that the phase still hands out, in order.
    pub open spec fn writes(self) -> Seq<(Seq<char>, Seq<char>)>
        decreases self.files.len() - self.next,
    {
        if self.pending() {
            seq![self.current()] + self.advanced().writes()
        } else {
            Seq::empty()
        }
    }

    /// The log with which the phase ends once every file is on disk.
    pub open spec fn final_log(self) -> Seq<Seq<char>>
        decreases self.files.len() - self.next,
    {
        if self.pending() {
            self.advanced().final_log()
        } else {
            self.logs
        }
    }
}

/// The staging phase at the start of a build.
pub open spec fn staging_start(
    files: Seq<(Seq<char>, Seq<char>)>,
    workspace: Seq<char>,
) -> StagingView {
    StagingView { files: files, next: 0, logs: opening_log(workspace) }
}

/// Staging: the files of the request are written one by one.
pub struct Staging {
    files: Vec<SourceFile>,
    next: usize,
    logs: Vec<String>,
}

/// Pre-clean: every file is staged, the stale artifact is to be removed.
pub struct Cleaning {
    logs: Vec<String>,
}

/// Invoke: the compiler is to be run in the workspace root.
pub struct Compiling {
    logs: Vec<String>,
}

/// The compiler reported success: the artifact is to be looked for.
pub struct Probing {
    logs: Vec<String>,
}

/// The artifact is there: it is to be read.
pub struct Reading {
    logs: Vec<String>,
}

/// What staging asks for next.
pub enum StagingStep {
    /// Write `content` to the file `relative` under the directory `subpath`
    /// of the workspace root, creating missing directories and replacing a
    /// file that is there; then go on with `rest`.
    Write { subpath: String, relative: String, content: String, rest: Staging },
    /// Nothing is left to write.
    Staged(Cleaning),
}

/// What follows the compiler's exit.
pub enum CompileStep {
    /// The compiler reported failure: the build ends with this response.
    Done(BuildResponse),
    /// The compiler reported success.
    Probe(Probing),
}

/// What follows the look for the artifact.
pub enum ProbeStep {
    /// No artifact: the build ends with this response.
    Done(BuildResponse),
    /// The artifact is there.
    Read(Reading),
}

impl View for Staging {
    type V = StagingView;

    closed spec fn view(&self) -> StagingView {
        StagingView {
            files: crate::request::file_pairs(self.files@),
            next: self.next as int,
            logs: texts(self.logs@),
        }
    }
}

impl Cleaning {
    /// The log so far.
    pub closed spec fn log(&self) -> Seq<Seq<char>> {
        texts(self.logs@)
    }
}

impl Compiling {
    /// The log so far.
    pub closed spec fn log(&self) -> Seq<Seq<char>> {
        texts(self.logs@)
    }
}

impl Probing {
    /// The log so far.
    pub closed spec fn log(&self) -> Seq<Seq<char>> {
        texts(self.logs@)
    }
}

impl Reading {
    /// The log so far.
    pub closed spec fn log(&self) -> Seq<Seq<char>> {
        texts(self.logs@)
    }
}

/// The log once the compiler has exited: the log before it, the lines of its
/// standard output, then those of its standard error.
pub open spec fn compiled_log(logs: Seq<Seq<char>>, stdout: Seq<u8>, stderr: Seq<u8>) -> Seq<
    Seq<char>,
> {
    logs + lines_of(lossy_text(stdout)) + lines_of(lossy_text(stderr))
}

/// The response of a build whose compiler reported failure: a success of the
/// service with an empty binary, whose log ends with the compiler's output
/// and the line that marks the failure.
pub open spec fn compiler_failure(
    logs: Seq<Seq<char>>,
    stdout: Seq<u8>,
    stderr: Seq<u8>,
) -> ResponseView {
    completed(compiled_log(logs, stdout, stderr).push(failed_line()), Seq::empty())
}

/// The response of a build whose compiler reported success and left no
/// artifact: a success with an empty binary, whose log ends with the line
/// that says so.
pub open spec fn artifact_missing(logs: Seq<Seq<char>>) -> ResponseView {
    completed(logs.push(missing_line()), Seq::empty())
}

/// The response of a build whose artifact was read: a success with the log
/// as it stands, whose binary is the artifact in standard base64.
pub open spec fn artifact_delivered(logs: Seq<Seq<char>>, artifact: Seq<u8>) -> ResponseView {
    completed(logs, base64_text(artifact))
}

impl StagingStep {
    /// Whether this is the step that follows `staging`. While a file is
    /// pending it is the writing of that file, under the source directory
    /// and with its content, and the phase that goes on has the file's line
    /// in its log; when none is, it is the pre-clean phase with the log as
    /// it stands.
    pub open spec fn follows(self, staging: StagingView) -> bool {
        match self {
            StagingStep::Write { subpath, relative, content, rest } => {
                &&& staging.pending()
                &&& subpath@ == source_subpath()
                &&& (relative@, content@) == staging.current()
                &&& rest@ == staging.advanced()
            },
            StagingStep::Staged(cleaning) => {
                &&& !staging.pending()
                &&& cleaning.log() == staging.logs
            },
        }
    }
}

impl CompileStep {
    /// Whether this is the step that follows the exit of a compiler, run
    /// with the log `logs`, that reported `success` and left `stdout` and
    /// `stderr`. A failure ends the build with the response that
    /// `compiler_failure` gives; a success goes on with the output added to
    /// the log.
    pub open spec fn follows(
        self,
        logs: Seq<Seq<char>>,
        success: bool,
        stdout: Seq<u8>,
        stderr: Seq<u8>,
    ) -> bool {
        match self {
            CompileStep::Done(response) => {
                &&& !success
                &&& response@ == compiler_failure(logs, stdout, stderr)
            },
            CompileStep::Probe(probing) => {
                &&& success
                &&& probing.log() == compiled_log(logs, stdout, stderr)
            },
        }
    }
}

impl ProbeStep {
    /// Whether this is the step that follows the look for the artifact, with
    /// the log `logs`. A missing artifact ends the build with the response
    /// that `artifact_missing` gives; one that is there is read, and the log
    /// stays as it is.
    pub open spec fn follows(self, logs: Seq<Seq<char>>, found: bool) -> bool {
        match self {
            ProbeStep::Done(response) => {
                &&& !found
                &&& response@ == artifact_missing(logs)
            },
            ProbeStep::Read(reading) => {
                &&& found
                &&& reading.log() == logs
            },
        }
    }
}

/// Appends the lines of `more` to `logs`.
fn append_lines(logs: &mut Vec<String>, more: Vec<String>)
    ensures
        texts(final(logs)@) == texts(old(logs)@) + texts(more@),
{
    let mut more = more;
    let ghost before = logs@;
    let ghost added = more@;
    logs.append(&mut more);
    assert(texts(logs@) =~= texts(before) + texts(added));
}

/// Appends one line to `logs`.
fn append_line(logs: &mut Vec<String>, line: String)
    ensures
        texts(final(logs)@) == texts(old(logs)@).push(line@),
{
    let ghost before = logs@;
    logs.push(line);
    assert(texts(logs@) =~= texts(before).push(line@));
}

impl Staging {
    /// Starts a build: the log opens with its two fixed lines, the second of
    /// which names the workspace, and no file is staged yet.
    pub fn begin(request: BuildRequest, workspace: &str) -> (staging: Staging)
        ensures
            staging@ == staging_start(request@, workspace@),
    {
        let mut logs: Vec<String> = Vec::new();
        logs.push(String::from_str("Received build request on Rust Server"));
        logs.push(String::from_str("Targeting workspace: ").concat(workspace));
        assert(texts(logs@) =~= opening_log(workspace@));
        Staging { files: request.into_files(), next: 0, logs: logs }
    }

    /// The next step of staging: the next file of the request, with the
    /// phase that follows its writing and has its line in the log; or, when
    /// every file is handed out, the pre-clean phase with the log unchanged.
    pub fn step(self) -> (next: StagingStep)
        ensures
            next.follows(self@),
    {
        let Staging { files, next, logs } = self;
        if next < files.len() {
            let relative = files[next].path.clone();
            let content = files[next].content.clone();
            let line = String::from_str("Wrote file: programs/solana_workspace/src/").concat(
                relative.as_str(),
            );
            let mut logs = logs;
            append_line(&mut logs, line);
            StagingStep::Write {
                subpath: String::from_str("programs/solana_workspace/src"),
                relative: relative,
                content: content,
                rest: Staging { files: files, next: next + 1, logs: logs },
            }
        } else {
            StagingStep::Staged(Cleaning { logs: logs })
        }
    }
}

impl Cleaning {
    /// The stale artifact has been dealt with, removed or not: compilation
    /// starts, and the log says so.
    pub fn cleared(self) -> (compiling: Compiling)
        ensures
            compiling.log() == self.log().push(starting_line()),
    {
        let mut logs = self.logs;
        append_line(&mut logs, String::from_str("Starting compilation..."));
        Compiling { logs: logs }
    }
}

impl Compiling {
    /// The program to run, with the workspace root as its working directory.
    pub fn program(&self) -> (name: String)
        ensures
            name@ == compiler_program(),
    {
        String::from_str("anchor")
    }

    /// The arguments to run the program with.
    pub fn arguments(&self) -> (arguments: Vec<String>)
        ensures
            texts(arguments@) == compiler_arguments(),
    {
        let mut arguments: Vec<String> = Vec::new();
        arguments.push(String::from_str("build"));
        assert(texts(arguments@) =~= compiler_arguments());
        arguments
    }

    /// The compiler has exited. Its output joins the log, standard output
    /// before standard error. Where it reported failure the build ends, as a
    /// success of the service with an empty binary and a last log line that
    /// says so; where it reported success the artifact is looked for.
    pub fn exited(self, success: bool, stdout: &[u8], stderr: &[u8]) -> (next: CompileStep)
        ensures
            next.follows(self.log(), success, stdout@, stderr@),
    {
        let mut logs = self.logs;
        append_lines(&mut logs, output_lines(stdout));
        append_lines(&mut logs, output_lines(stderr));
        if !success {
            append_line(&mut logs, String::from_str("Build command failed."));
            CompileStep::Done(BuildResponse::completed(logs, String::new()))
        } else {
            CompileStep::Probe(Probing { logs: logs })
        }
    }
}

impl Probing {
    /// The artifact has been looked for. Where it is missing the build ends,
    /// as a success with an empty binary and a last log line that says so.
    pub fn probed(self, found: bool) -> (next: ProbeStep)
        ensures
            next.follows(self.log(), found),
    {
        let mut logs = self.logs;
        if found {
            ProbeStep::Read(Reading { logs: logs })
        } else {
            append_line(&mut logs, String::from_str("Binary not found after successful build."));
            ProbeStep::Done(BuildResponse::completed(logs, String::new()))
        }
    }
}

impl Probing {
    /// Looks for the artifact at `path` and goes on as `probed` does with
    /// what was found: whatever is on disk, the step is one of the two that
    /// `probed` gives.
    pub fn probe(self, path: &PathBuf) -> (next: ProbeStep)
        ensures
            next.follows(self.log(), true) || next.follows(self.log(), false),
    {
        let found = callback_binary_exists(path);
        self.probed(found)
    }
}

impl Reading {
    /// The artifact has been read: the build ends with the log as it stands
    /// and the artifact's bytes in standard base64, four characters for
    /// every three bytes: the binary is empty only where the artifact is.
    pub fn loaded(self, bytes: &[u8]) -> (response: BuildResponse)
        requires
            bytes@.len() <= isize::MAX,
        ensures
            response@ == artifact_delivered(self.log(), bytes@),
            response@.binary->0.len() == encoded_length(bytes@.len()),
    {
        let binary = encode_standard(bytes);
        BuildResponse::completed(self.logs, binary)
    }
}

/// From any point of staging on, the files handed out are the request's
/// remaining files, each once, in order, each with its own content.
pub proof fn law_writes_are_the_remaining_files(staging: StagingView)
    requires
        0 <= staging.next <= staging.files.len(),
    ensures
        staging.writes() == staging.files.skip(staging.next),
    decreases staging.files.len() - staging.next,
{
    if staging.pending() {
        law_writes_are_the_remaining_files(staging.advanced());
        assert(seq![staging.current()] + staging.files.skip(staging.next + 1)
            =~= staging.files.skip(staging.next));
    } else {
        assert(staging.files.skip(staging.next) =~= Seq::empty());
    }
}

/// Every file of a request is staged, under its own path and with its own
/// content, and nothing else is: the files handed out from the start of a
/// build are the request's files.
pub proof fn law_every_file_is_staged(files: Seq<(Seq<char>, Seq<char>)>, workspace: Seq<char>)
    ensures
        staging_start(files, workspace).writes() == files,
{
    law_writes_are_the_remaining_files(staging_start(files, workspace));
    assert(files.skip(0) =~= files);
}

/// From any point of staging on, the log gains one line for each remaining
/// file, in order.
pub proof fn law_staging_logs_the_remaining_files(staging: StagingView)
    requires
        0 <= staging.next <= staging.files.len(),
    ensures
        staging.final_log() == staging.logs + staged_lines(
            staging.files,
            staging.files.len() as int,
        ).skip(staging.next),
    decreases staging.files.len() - staging.next,
{
    let lines = staged_lines(staging.files, staging.files.len() as int);
    if staging.pending() {
        law_staging_logs_the_remaining_files(staging.advanced());
        assert(staging.advanced().logs + lines.skip(staging.next + 1) =~= staging.logs
            + lines.skip(staging.next));
    } else {
        assert(staging.logs + lines.skip(staging.next) =~= staging.logs);
    }
}

/// When every file of a request is staged, the log holds its two opening
/// lines and then one line for each file, in the order of the request.
pub proof fn law_staged_log(files: Seq<(Seq<char>, Seq<char>)>, workspace: Seq<char>)
    ensures
        staging_start(files, workspace).final_log() == opening_log(workspace) + staged_lines(
            files,
            files.len() as int,
        ),
{
    law_staging_logs_the_remaining_files(staging_start(files, workspace));
    assert(staged_lines(files, files.len() as int).skip(0) =~= staged_lines(
        files,
        files.len() as int,
    ));
}

/// The log of a build whose files are staged and whose compiler has exited:
/// the two opening lines, one line for each file, the line that starts the
/// compilation, the lines of standard output, then those of standard error.
pub open spec fn build_log(
    files: Seq<(Seq<char>, Seq<char>)>,
    workspace: Seq<char>,
    stdout: Seq<u8>,
    stderr: Seq<u8>,
) -> Seq<Seq<char>> {
    opening_log(workspace) + staged_lines(files, files.len() as int) + seq![starting_line()]
        + lines_of(lossy_text(stdout)) + lines_of(lossy_text(stderr))
}

/// Driven from its start through staging, pre-clean and the compiler's
/// exit, a build has the log that `build_log` gives, whatever the files and
/// the output are.
pub proof fn law_build_log(
    files: Seq<(Seq<char>, Seq<char>)>,
    workspace: Seq<char>,
    stdout: Seq<u8>,
    stderr: Seq<u8>,
)
    ensures
        compiled_log(
            staging_start(files, workspace).final_log().push(starting_line()),
            stdout,
            stderr,
        ) == build_log(files, workspace, stdout, stderr),
{
    law_staged_log(files, workspace);
    let staged = opening_log(workspace) + staged_lines(files, files.len() as int);
    assert(staged.push(starting_line()) =~= staged + seq![starting_line()]);
}

/// A compiler that reports failure still gives a success of the service: the
/// binary is empty, no message is set, the last log line marks the failure,
/// and the lines directly before it are those of the compiler's standard
/// error, after those of its standard output.
pub proof fn law_compiler_failure(logs: Seq<Seq<char>>, stdout: Seq<u8>, stderr: Seq<u8>)
    ensures
        ({
            let response = compiler_failure(logs, stdout, stderr);
            let out = lines_of(lossy_text(stdout));
            let err = lines_of(lossy_text(stderr));
            let n = response.logs.len() as int;
            &&& response.status == "success"@
            &&& response.binary == Some(Seq::<char>::empty())
            &&& response.message is None
            &&& n == logs.len() + out.len() + err.len() + 1
            &&& response.logs.last() == failed_line()
            &&& response.logs.subrange(n - 1 - err.len(), n - 1) == err
            &&& response.logs.subrange(logs.len() as int, (logs.len() + out.len()) as int) == out
            &&& response.logs.take(logs.len() as int) == logs
        }),
{
    let response = compiler_failure(logs, stdout, stderr);
    let out = lines_of(lossy_text(stdout));
    let err = lines_of(lossy_text(stderr));
    let n = response.logs.len() as int;
    assert(response.logs.subrange(n - 1 - err.len(), n - 1) =~= err);
    assert(response.logs.subrange(logs.len() as int, (logs.len() + out.len()) as int) =~= out);
    assert(response.logs.take(logs.len() as int) =~= logs);
}

/// A response carries an artifact only where the artifact was read: the
/// builds that end without one have an empty binary, and the build that ends
/// with one has its base64 text. Each of the three is a success of the
/// service without a message, and each keeps the log that led to it.
pub proof fn law_binary_follows_the_artifact(
    logs: Seq<Seq<char>>,
    stdout: Seq<u8>,
    stderr: Seq<u8>,
    artifact: Seq<u8>,
)
    ensures
        compiler_failure(logs, stdout, stderr).binary == Some(Seq::<char>::empty()),
        artifact_missing(logs).binary == Some(Seq::<char>::empty()),
        artifact_missing(logs).status == "success"@,
        artifact_missing(logs).logs.last() == missing_line(),
        artifact_missing(logs).logs.drop_last() == logs,
        artifact_delivered(logs, artifact).binary == Some(base64_text(artifact)),
        artifact_delivered(logs, artifact).status == "success"@,
        artifact_delivered(logs, artifact).logs == logs,
{
    assert(artifact_missing(logs).logs.drop_last() =~= logs);
}

} // verus!
