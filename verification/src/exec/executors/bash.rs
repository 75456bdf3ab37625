//! The shell executor: a job is a command line handed to `$SHELL -c`.

use crate::codec::Members;
use crate::exec::executor::{
    lossy_text, make_payload_from_bytes, payload, report_of, texts_view, ChildProcess,
    ExecutionContext, Executor, Invocation, InvocationView, Launcher,
};
use crate::exec::executors::environment::{merge_environment, merged_environment};
use crate::exec::job::Job;
use crate::json::{items_view, lemma_array_view, lookup, member, members_view, Json, JsonView};
use vstd::prelude::*;

verus! {

/// The executor that runs a job as a shell command.
#[derive(Debug, PartialEq)]
pub struct BashExecutor {}

/// A job on its way through an executor: the child that runs it, or the
/// note that none could be started.
#[derive(Debug, PartialEq)]
pub struct BashExecutorContext<H> {
    /// Set where the job could not be started at all.
    pub internal_failure: bool,
    /// The child, until its output has been collected.
    pub handle: Option<H>,
    /// Milliseconds the job may run; carried along, not enforced.
    pub timeout: Option<u64>,
}

/// A text with a backslash put before each backslash and each double quote.
pub open spec fn escaped(text: Seq<char>) -> Seq<char>
    decreases text.len(),
{
    if text.len() == 0 {
        Seq::empty()
    } else {
        let c = text.last();
        let before = escaped(text.drop_last());
        if c == '\\' || c == '"' {
            before.push('\\').push(c)
        } else {
            before.push(c)
        }
    }
}

/// A text as one word of a shell command: escaped, between double quotes.
pub open spec fn quoted(text: Seq<char>) -> Seq<char> {
    seq!['"'] + escaped(text) + seq!['"']
}

/// The words of an array command, quoted, with one space between them.
/// `None` where an element is not a string.
pub open spec fn rendered_items(items: Seq<JsonView>) -> Option<Seq<char>>
    decreases items.len(),
{
    if items.len() == 0 {
        Some(Seq::empty())
    } else {
        match (rendered_items(items.drop_last()), items.last()) {
            (Some(before), JsonView::Text(word)) => if items.len() == 1 {
                Some(quoted(word))
            } else {
                Some(before + seq![' '] + quoted(word))
            },
            _ => None,
        }
    }
}

/// A command as the shell gets it: a string as it stands, an array as its
/// quoted words. `None` for any other value.
pub open spec fn rendered(command: JsonView) -> Option<Seq<char>> {
    match command {
        JsonView::Text(line) => Some(line),
        JsonView::Array(items) => rendered_items(items),
        _ => None,
    }
}

/// The command line for a job: what the job type's `command` renders to, a
/// space, and what the job's own `command` renders to (nothing where the job
/// has none). `None` where the job type has no command or where either is
/// not a string or an array of strings.
pub open spec fn composed(metadata: Members, arguments: Members) -> Option<Seq<char>> {
    match member(metadata, "command"@) {
        None => None,
        Some(meta_command) => match rendered(meta_command) {
            None => None,
            Some(first) => match member(arguments, "command"@) {
                None => Some(first + seq![' ']),
                Some(job_command) => match rendered(job_command) {
                    None => None,
                    Some(second) => Some(first + seq![' '] + second),
                },
            },
        },
    }
}

/// The pattern that finds what `escaped` puts a backslash before.
pub open spec fn escape_pattern() -> Seq<char> {
    "\\\\|\""@
}

/// The replacement that puts a backslash before what was found.
pub open spec fn escape_replacement() -> Seq<char> {
    "\\$0"@
}

/// Calls `regex::Regex::replace_all` with the pattern compiled by
/// `regex::Regex::new`. The pattern is the one that matches a single
/// backslash or a single double quote, and the replacement writes a
/// backslash and then what was matched; so every such character of the text
/// gets a backslash before it and the rest of the text is copied.
#[verifier::external_body]
fn replace_all(pattern: &str, text: &str, replacement: &str) -> (replaced: String)
    requires
        pattern@ == escape_pattern(),
        replacement@ == escape_replacement(),
    ensures
        replaced@ == escaped(text@),
{
    match regex::Regex::new(pattern) {
        Ok(matcher) => matcher.replace_all(text, replacement).into_owned(),
        Err(_) => text.to_string(),
    }
}

/// Quotes one word of an array command.
pub fn quote(word: &str) -> (r: String)
    ensures
        r@ == quoted(word@),
{
    let inner = replace_all("\\\\|\"", word, "\\$0");
    let mut r = String::from_str("\"");
    r.append(inner.as_str());
    r.append("\"");
    proof {
        reveal_strlit("\"");
        assert("\""@ =~= seq!['"']);
    }
    r
}

fn render_items(items: &Vec<Json>) -> (r: Option<String>)
    ensures
        r is Some == rendered_items(items_view(items@)) is Some,
        r matches Some(line) ==> Some(line@) == rendered_items(items_view(items@)),
{
    let ghost all = items_view(items@);
    let mut line = String::new();
    let mut i: usize = 0;
    proof {
        assert(all.subrange(0, 0) =~= Seq::empty());
    }
    while i < items.len()
        invariant
            i <= items.len(),
            all == items_view(items@),
            rendered_items(all.subrange(0, i as int)) == Some(line@),
        decreases items.len() - i,
    {
        proof {
            let upto = all.subrange(0, i + 1);
            assert(upto.last() == all[i as int]);
            assert(upto.drop_last() =~= all.subrange(0, i as int));
        }
        match &items[i] {
            Json::Text(word) => {
                if i > 0 {
                    line.append(" ");
                }
                let next = quote(word.as_str());
                line.append(next.as_str());
                proof {
                    reveal_strlit(" ");
                    assert(" "@ =~= seq![' ']);
                    if i == 0 {
                        assert(Seq::<char>::empty() + quoted(word@) =~= quoted(word@));
                    }
                }
            },
            _ => {
                proof {
                    lemma_rendered_items_prefix(all, i + 1);
                }
                return None;
            },
        }
        i += 1;
    }
    proof {
        assert(all.subrange(0, items.len() as int) =~= all);
    }
    Some(line)
}

/// An array with an element that is not a string renders to nothing,
/// however many elements follow it.
proof fn lemma_rendered_items_prefix(items: Seq<JsonView>, n: int)
    requires
        0 <= n <= items.len(),
        rendered_items(items.subrange(0, n)) is None,
    ensures
        rendered_items(items) is None,
    decreases items.len() - n,
{
    if n < items.len() {
        let longer = items.subrange(0, n + 1);
        assert(longer.drop_last() =~= items.subrange(0, n));
        lemma_rendered_items_prefix(items, n + 1);
    } else {
        assert(items.subrange(0, n) =~= items);
    }
}

/// Renders a command.
pub fn render(command: &Json) -> (r: Option<String>)
    ensures
        r is Some == rendered(command@) is Some,
        r matches Some(line) ==> Some(line@) == rendered(command@),
{
    match command {
        Json::Text(line) => Some(line.clone()),
        Json::Array(items) => {
            proof {
                lemma_array_view(*items);
            }
            render_items(items)
        },
        _ => None,
    }
}

/// Composes the command line for a job.
pub fn compose(metadata: &Vec<(String, Json)>, arguments: &Vec<(String, Json)>) -> (r: Option<
    String,
>)
    ensures
        r is Some == composed(members_view(metadata@), members_view(arguments@)) is Some,
        r matches Some(line) ==> Some(line@) == composed(
            members_view(metadata@),
            members_view(arguments@),
        ),
{
    let meta_command = match lookup(metadata, "command") {
        None => {
            return None;
        },
        Some(command) => command,
    };
    let mut line = match render(meta_command) {
        None => {
            return None;
        },
        Some(line) => line,
    };
    line.append(" ");
    proof {
        reveal_strlit(" ");
        assert(" "@ =~= seq![' ']);
    }
    match lookup(arguments, "command") {
        None => Some(line),
        Some(command) => match render(command) {
            None => None,
            Some(second) => {
                line.append(second.as_str());
                Some(line)
            },
        },
    }
}

impl BashExecutor {
    /// What the shell is started with for a job of the given arguments whose
    /// job type has the given metadata: `-c` and the composed command line,
    /// the merged environment, the current directory and no input. `None`
    /// where no command line can be composed.
    pub open spec fn invocation_of(metadata: Members, arguments: Members) -> Option<
        InvocationView,
    > {
        match composed(metadata, arguments) {
            None => None,
            Some(line) => Some(
                InvocationView {
                    arguments: seq!["-c"@, line],
                    environment: merged_environment(metadata, arguments),
                    directory: None,
                    input: None,
                },
            ),
        }
    }

    /// Decides what to start for a job.
    pub fn invocation(metadata: &Vec<(String, Json)>, arguments: &Vec<(String, Json)>) -> (r:
        Option<Invocation>)
        ensures
            r is Some == Self::invocation_of(
                members_view(metadata@),
                members_view(arguments@),
            ) is Some,
            r matches Some(invocation) ==> Some(invocation@) == Self::invocation_of(
                members_view(metadata@),
                members_view(arguments@),
            ),
    {
        match compose(metadata, arguments) {
            None => None,
            Some(line) => {
                let environment = merge_environment(metadata, arguments);
                let mut words: Vec<String> = Vec::new();
                words.push(String::from_str("-c"));
                words.push(line);
                proof {
                    assert(texts_view(words@) =~= seq!["-c"@, line@]);
                }
                Some(Invocation { arguments: words, environment, directory: None, input: None })
            },
        }
    }
}

/// What a child that has ended leaves a job with: its report, or null where
/// its output could not be collected.
pub fn conclude(code: Option<i32>, output: Result<(Vec<u8>, Vec<u8>), String>) -> (r: Result<
    Option<Json>,
    Json,
>)
    ensures
        match output {
            Ok(written) => r matches Ok(Some(report)) && report@ == payload(
                lossy_text(written.0@),
                lossy_text(written.1@),
                code,
            ),
            Err(_) => r matches Err(error) && error@ == JsonView::Null,
        },
{
    match output {
        Ok(written) => Ok(Some(make_payload_from_bytes(&written.0, &written.1, code))),
        Err(_) => Err(Json::Null),
    }
}

impl<L: Launcher> Executor<L> for BashExecutor {
    type Context = BashExecutorContext<L::Child>;

    /// Starts the shell for a job. Where nothing can be started for the job,
    /// the launcher is not asked and the context notes an internal failure.
    /// Else the launcher is asked once, for what `invocation` says, and the
    /// context holds the child it hands out; the context notes an internal
    /// failure where it hands out none.
    fn execute(&mut self, launcher: &mut L, job: &Job) -> (context: BashExecutorContext<L::Child>)
        ensures
            context.timeout == job@.job_type->Some_0.timeout,
            context.internal_failure == (context.handle is None),
            match Self::invocation_of(job@.job_type->Some_0.metadata, job@.arguments) {
                None => context.internal_failure
                    && final(launcher).asked() == old(launcher).asked(),
                Some(invocation) => final(launcher).asked() == old(launcher).asked().push(
                    invocation,
                ) && (old(launcher).starts(invocation) ==> !context.internal_failure) && (
                context.handle is Some ==> context.handle->Some_0.ends()
                    == old(launcher).ends_with(invocation)),
            },
    {
        let job_type = match &job.job_type {
            Some(job_type) => job_type,
            None => {
                return BashExecutorContext { internal_failure: true, handle: None, timeout: None };
            },
        };
        let timeout = job_type.timeout;
        match Self::invocation(&job_type.metadata, &job.arguments) {
            None => BashExecutorContext { internal_failure: true, handle: None, timeout },
            Some(invocation) => match launcher.spawn(&invocation) {
                None => BashExecutorContext { internal_failure: true, handle: None, timeout },
                Some(child) => BashExecutorContext {
                    internal_failure: false,
                    handle: Some(child),
                    timeout,
                },
            },
        }
    }
}

impl<H: ChildProcess> ExecutionContext for BashExecutorContext<H> {
    /// A context that can be asked: one that notes a failure, or one that
    /// still holds its child.
    open spec fn pending(&self) -> bool {
        self.internal_failure || self.handle is Some
    }

    /// What became of the job. With `is_async` the call does not wait and
    /// returns `None` while the child still runs; without it the call waits
    /// for the child to end and never returns `None`.
    ///
    /// A context that notes an internal failure answers `Some(Err(null))`.
    /// So does one whose child cannot be waited for. A child that has ended
    /// gives up its output, and the answer is `Some(Ok(Some(report)))` with
    /// the report of how it ended.
    fn result(&mut self, job: &Job, is_async: bool) -> (r: Option<Result<Option<Json>, Json>>)
        ensures
            final(self).internal_failure == old(self).internal_failure,
            final(self).timeout == old(self).timeout,
            old(self).internal_failure ==> r is Some && r->Some_0 is Err,
            r is None ==> final(self).handle is Some,
            r matches Some(Err(error)) ==> error@ == JsonView::Null,
            !old(self).internal_failure && old(self).handle is Some
                && old(self).handle->Some_0.ends() is Some ==> r is Some && r->Some_0 is Ok
                && r->Some_0->Ok_0 is Some && r->Some_0->Ok_0->Some_0@ == report_of(
                old(self).handle->Some_0.ends()->Some_0,
            ),
            r matches Some(Ok(report)) ==> final(self).handle is None && report is Some && exists|
                stdout: Seq<u8>,
                stderr: Seq<u8>,
                code: Option<i32>,
            |
                report->Some_0@ == payload(lossy_text(stdout), lossy_text(stderr), code),
    {
        if self.internal_failure {
            return Some(Err(Json::Null));
        }
        let mut child = match self.handle.take() {
            Some(child) => child,
            None => {
                return Some(Err(Json::Null));
            },
        };
        let status = if is_async {
            match child.try_wait() {
                Ok(None) => {
                    self.handle = Some(child);
                    return None;
                },
                Ok(Some(code)) => Ok(code),
                Err(message) => Err(message),
            }
        } else {
            child.wait()
        };
        match status {
            Err(_) => {
                self.handle = Some(child);
                Some(Err(Json::Null))
            },
            Ok(code) => {
                let output = child.wait_with_output();
                let ghost written = output;
                let outcome = conclude(code, output);
                proof {
                    if written is Ok {
                        let w = written->Ok_0;
                        assert(outcome->Ok_0->Some_0@ == payload(
                            lossy_text(w.0@),
                            lossy_text(w.1@),
                            code,
                        ));
                    }
                }
                Some(outcome)
            },
        }
    }
}

} // verus!
