//! What an executor hands to the operating system, and what it gets back.
//!
//! An executor turns a job into an [`Invocation`] of the shell. Starting the
//! shell and waiting for it is the work of a [`Launcher`] and of the
//! [`ChildProcess`] it returns; this library decides what is started and what
//! is made of the outcome. The launcher of [`crate::exec::stage`] starts
//! nothing and plays a child that has ended.

use crate::exec::job::Job;
use crate::json::{lemma_object_view, members_view, Json, JsonNumber, JsonView, NumberView};
use vstd::prelude::*;

verus! {

/// One start of the shell.
#[derive(Debug, PartialEq)]
pub struct Invocation {
    /// The arguments that follow the shell's own name.
    pub arguments: Vec<String>,
    /// Variables to set for the child, in this order: where a name occurs
    /// twice, the later value is the one that the child sees.
    pub environment: Vec<(String, String)>,
    /// The directory to start in; `None` for the current one.
    pub directory: Option<String>,
    /// The text to write to the child's standard input before closing it;
    /// `None` for an input that is empty from the start.
    pub input: Option<String>,
}

/// The mathematical value of an [`Invocation`].
pub struct InvocationView {
    pub arguments: Seq<Seq<char>>,
    pub environment: Seq<(Seq<char>, Seq<char>)>,
    pub directory: Option<Seq<char>>,
    pub input: Option<Seq<char>>,
}

/// A list of texts, each by its characters.
pub open spec fn texts_view(texts: Seq<String>) -> Seq<Seq<char>> {
    Seq::new(texts.len(), |i: int| texts[i]@)
}

/// A list of pairs of texts, each by its characters.
pub open spec fn pairs_view(pairs: Seq<(String, String)>) -> Seq<(Seq<char>, Seq<char>)> {
    Seq::new(pairs.len(), |i: int| (pairs[i].0@, pairs[i].1@))
}

impl View for Invocation {
    type V = InvocationView;

    open spec fn view(&self) -> InvocationView {
        InvocationView {
            arguments: texts_view(self.arguments@),
            environment: pairs_view(self.environment@),
            directory: match self.directory {
                Some(directory) => Some(directory@),
                None => None,
            },
            input: match self.input {
                Some(input) => Some(input@),
                None => None,
            },
        }
    }
}

/// How a child process has ended: with which exit code, if it was not a
/// signal that ended it, and what it had written by then.
pub struct Ending {
    pub code: Option<i32>,
    pub stdout: Seq<u8>,
    pub stderr: Seq<u8>,
}

/// A child process that a [`Launcher`] has started.
///
/// Of a child that has ended the calls give how it ended. Of any other
/// child nothing is promised: what the calls return is up to the child.
pub trait ChildProcess: Sized {
    /// How the child has ended, where it has. An implementation that cannot
    /// know leaves this as it stands.
    closed spec fn ends(&self) -> Option<Ending> {
        None
    }

    /// Waits until the child has ended. `Ok` holds its exit code, or `None`
    /// where a signal ended it; `Err` says why waiting failed.
    fn wait(&mut self) -> (r: Result<Option<i32>, String>)
        ensures
            final(self).ends() == old(self).ends(),
            old(self).ends() matches Some(ending) ==> r == Ok::<Option<i32>, String>(ending.code),
    ;

    /// Like `wait`, but returns `Ok(None)` at once while the child still runs.
    fn try_wait(&mut self) -> (r: Result<Option<Option<i32>>, String>)
        ensures
            final(self).ends() == old(self).ends(),
            old(self).ends() matches Some(ending) ==> r == Ok::<Option<Option<i32>>, String>(
                Some(ending.code),
            ),
    ;

    /// Collects what the child wrote to its standard output and to its
    /// standard error, as bytes.
    fn wait_with_output(self) -> (r: Result<(Vec<u8>, Vec<u8>), String>)
        ensures
            self.ends() matches Some(ending) ==> r is Ok && r->Ok_0.0@ == ending.stdout
                && r->Ok_0.1@ == ending.stderr,
    ;
}

/// The part of the operating system that starts the shell.
pub trait Launcher {
    type Child: ChildProcess;

    /// What the launcher has been asked to start so far, in that order. An
    /// implementation that keeps no account leaves this as it stands.
    closed spec fn asked(&self) -> Seq<InvocationView> {
        arbitrary()
    }

    /// Whether the launcher is sure to start the shell for an invocation.
    /// An implementation that may fail leaves this as it stands.
    closed spec fn starts(&self, invocation: InvocationView) -> bool {
        false
    }

    /// How the child that the launcher starts for an invocation has ended
    /// by the time it is handed out, where it has. An implementation that
    /// starts a child of its own leaves this as it stands.
    closed spec fn ends_with(&self, invocation: InvocationView) -> Option<Ending> {
        None
    }

    /// Starts the shell as the invocation says, with its output and its
    /// errors captured. `None` where the shell could not be started.
    fn spawn(&mut self, invocation: &Invocation) -> (child: Option<Self::Child>)
        ensures
            final(self).asked() == old(self).asked().push(invocation@),
            old(self).starts(invocation@) ==> child is Some,
            child matches Some(started) ==> started.ends() == old(self).ends_with(invocation@),
    ;
}

/// A job on its way through an executor.
pub trait ExecutionContext {
    /// Whether the context can still be asked what became of the job.
    spec fn pending(&self) -> bool;

    /// What became of the job: `None` while it still runs, which only a
    /// call with `is_async` may answer; `Some(Ok(None))` where the executor
    /// has nothing to say of a job that went well; `Some(Ok(Some(results)))`
    /// with the results of a job that went well; `Some(Err(error))` with
    /// the error of one that did not.
    fn result(&mut self, job: &Job, is_async: bool) -> (r: Option<Result<Option<Json>, Json>>)
        requires
            old(self).pending(),
        ensures
            !is_async ==> r is Some,
    ;
}

/// What starts a job, with the help of a launcher.
pub trait Executor<L: Launcher> {
    type Context: ExecutionContext;

    /// Starts the job, and returns the context that will say what became
    /// of it.
    fn execute(&mut self, launcher: &mut L, job: &Job) -> (context: Self::Context)
        requires
            job.job_type is Some,
        ensures
            context.pending(),
    ;
}

/// The shell to start where none is configured.
pub open spec fn default_shell() -> Seq<char> {
    "/bin/bash"@
}

/// The shell to start: the configured one, or `/bin/bash`.
pub fn shell_program(configured: Option<String>) -> (program: String)
    ensures
        program@ == match configured {
            Some(shell) => shell@,
            None => default_shell(),
        },
{
    match configured {
        Some(shell) => shell,
        None => String::from_str("/bin/bash"),
    }
}

/// The text that `String::from_utf8_lossy` makes of bytes.
pub uninterp spec fn lossy_text(bytes: Seq<u8>) -> Seq<char>;

/// Calls `String::from_utf8_lossy`: the text that the bytes spell, with a
/// replacement character wherever they spell none. The text depends on the
/// bytes alone and is only named here.
#[verifier::external_body]
fn text_of_bytes(bytes: &Vec<u8>) -> (text: String)
    ensures
        text@ == lossy_text(bytes@),
{
    String::from_utf8_lossy(bytes.as_slice()).into_owned()
}

/// An exit code as a JSON number; null where there is none.
pub open spec fn exit_code_json(code: Option<i32>) -> JsonView {
    match code {
        Some(code) => if code >= 0 {
            JsonView::Number(NumberView::Unsigned(code as u64))
        } else {
            JsonView::Number(NumberView::Negative(code as i64))
        },
        None => JsonView::Null,
    }
}

/// What a job that ran to its end reports: what it wrote, and how it ended.
pub open spec fn payload(stdout: Seq<char>, stderr: Seq<char>, code: Option<i32>) -> JsonView {
    JsonView::Object(
        seq![
            ("stdout"@, JsonView::Text(stdout)),
            ("stderr"@, JsonView::Text(stderr)),
            ("exit_code"@, exit_code_json(code)),
        ],
    )
}

/// What a job reports whose child has ended as `ending` says.
pub open spec fn report_of(ending: Ending) -> JsonView {
    payload(lossy_text(ending.stdout), lossy_text(ending.stderr), ending.code)
}

/// Builds the report of a job that ran to its end.
pub fn make_payload(stdout: String, stderr: String, code: Option<i32>) -> (report: Json)
    ensures
        report@ == payload(stdout@, stderr@, code),
{
    let code_json = match code {
        Some(code) => if code >= 0 {
            Json::Number(JsonNumber::Unsigned(code as u64))
        } else {
            Json::Number(JsonNumber::Negative(code as i64))
        },
        None => Json::Null,
    };
    let mut members: Vec<(String, Json)> = Vec::new();
    members.push((String::from_str("stdout"), Json::Text(stdout)));
    members.push((String::from_str("stderr"), Json::Text(stderr)));
    members.push((String::from_str("exit_code"), code_json));
    proof {
        lemma_object_view(members);
        assert(members_view(members@) =~= payload(stdout@, stderr@, code)->Object_0);
    }
    Json::Object(members)
}

/// Builds the report of a job from the bytes that its child wrote.
pub fn make_payload_from_bytes(stdout: &Vec<u8>, stderr: &Vec<u8>, code: Option<i32>) -> (report:
    Json)
    ensures
        report@ == payload(lossy_text(stdout@), lossy_text(stderr@), code),
{
    make_payload(text_of_bytes(stdout), text_of_bytes(stderr), code)
}

} // verus!
