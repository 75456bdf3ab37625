//! The Sidekiq executor: a job is one call of a Ruby worker class, made by a
//! Ruby interpreter that runs in the directory of a Rails application and
//! reads its script from standard input.

use crate::codec::Members;
use crate::exec::executor::{
    texts_view, ChildProcess, Executor, Invocation, InvocationView, Launcher,
};
use crate::exec::executors::bash::BashExecutorContext;
use crate::exec::executors::environment::{merge_environment, merged_environment};
use crate::exec::job::Job;
use crate::json::{json_text, lookup, member, members_view, Json, JsonView};
use vstd::prelude::*;

verus! {

/// The executor that runs a job as a Sidekiq worker.
#[derive(Debug, PartialEq)]
pub struct SidekiqExecutor {}

/// A letter of the English alphabet or a digit.
pub open spec fn is_alphanumeric(c: char) -> bool {
    ('a' <= c && c <= 'z') || ('A' <= c && c <= 'Z') || ('0' <= c && c <= '9')
}

/// A name that may stand in the script as a worker class: one or more
/// letters and digits, nothing else.
pub open spec fn safe_worker(name: Seq<char>) -> bool {
    name.len() > 0 && forall|i: int| 0 <= i < name.len() ==> is_alphanumeric(#[trigger] name[i])
}

/// The pattern that matches the safe worker names.
pub open spec fn worker_pattern() -> Seq<char> {
    "^[a-zA-Z0-9]+$"@
}

/// A text with every `from` replaced by `to`.
pub open spec fn replaced(text: Seq<char>, from: char, to: Seq<char>) -> Seq<char>
    decreases text.len(),
{
    if text.len() == 0 {
        Seq::empty()
    } else if text.last() == from {
        replaced(text.drop_last(), from, to) + to
    } else {
        replaced(text.drop_last(), from, to).push(text.last())
    }
}

/// A text as it may stand between single quotes in Ruby: every backslash
/// doubled, and then a backslash put before every single quote.
pub open spec fn ruby_escaped(text: Seq<char>) -> Seq<char> {
    replaced(replaced(text, '\\', "\\\\"@), '\'', "\\'"@)
}

/// What the worker is called with: `nil` where the job has no
/// `sidekiq_arguments`, and else the arguments as JSON, read by Ruby.
pub open spec fn arguments_expression(arguments: Members) -> Seq<char> {
    match member(arguments, "sidekiq_arguments"@) {
        None => "nil"@,
        Some(value) => "JSON.parse('"@ + ruby_escaped(json_text(value)) + "')"@,
    }
}

/// The script that the interpreter reads.
pub open spec fn script(worker: Seq<char>, expression: Seq<char>) -> Seq<char> {
    "require './config/environment'\n"@ + worker + ".new.perform("@ + expression + ")\n"@
}

/// The interpreter to start: the job type's `ruby_executable` where that is
/// a string, and `ruby` otherwise.
pub open spec fn interpreter(metadata: Members) -> Seq<char> {
    match member(metadata, "ruby_executable"@) {
        Some(JsonView::Text(program)) => program,
        _ => "ruby"@,
    }
}

/// Calls `regex::Regex::is_match` with the pattern compiled by
/// `regex::Regex::new`. The pattern is anchored at both ends of the text and
/// asks for one or more characters from `a` to `z`, `A` to `Z` or `0` to `9`.
#[verifier::external_body]
fn is_match(pattern: &str, text: &str) -> (found: bool)
    requires
        pattern@ == worker_pattern(),
    ensures
        found == safe_worker(text@),
{
    match regex::Regex::new(pattern) {
        Ok(matcher) => matcher.is_match(text),
        Err(_) => false,
    }
}

/// Calls `str::replace` with a character as the pattern: every occurrence
/// of the character is replaced, and the rest of the text is copied.
#[verifier::external_body]
fn replace(text: &str, from: char, to: &str) -> (r: String)
    ensures
        r@ == replaced(text@, from, to@),
{
    text.replace(from, to)
}

/// Escapes a text for Ruby's single quotes.
pub fn ruby_escape(text: &str) -> (r: String)
    ensures
        r@ == ruby_escaped(text@),
{
    let doubled = replace(text, '\\', "\\\\");
    replace(doubled.as_str(), '\'', "\\'")
}

/// Writes the script for one call of a worker.
pub fn write_script(worker: &str, arguments: &Vec<(String, Json)>) -> (r: String)
    ensures
        r@ == script(worker@, arguments_expression(members_view(arguments@))),
{
    let expression = match lookup(arguments, "sidekiq_arguments") {
        None => String::from_str("nil"),
        Some(value) => {
            let written = value.to_text();
            let mut expression = String::from_str("JSON.parse('");
            expression.append(ruby_escape(written.as_str()).as_str());
            expression.append("')");
            expression
        },
    };
    let mut r = String::from_str("require './config/environment'\n");
    r.append(worker);
    r.append(".new.perform(");
    r.append(expression.as_str());
    r.append(")\n");
    r
}

impl SidekiqExecutor {
    /// What is started for a job of the given arguments whose job type has
    /// the given metadata: the shell with `-c` and the interpreter, in the
    /// Rails directory, with the merged environment and the script as input.
    /// `None` where the job type names no Rails directory or no safe worker.
    pub open spec fn invocation_of(metadata: Members, arguments: Members) -> Option<
        InvocationView,
    > {
        match (member(metadata, "rails_dir"@), member(metadata, "sidekiq_worker"@)) {
            (Some(JsonView::Text(directory)), Some(JsonView::Text(worker))) => if safe_worker(
                worker,
            ) {
                Some(
                    InvocationView {
                        arguments: seq!["-c"@, interpreter(metadata)],
                        environment: merged_environment(metadata, arguments),
                        directory: Some(directory),
                        input: Some(script(worker, arguments_expression(arguments))),
                    },
                )
            } else {
                None
            },
            _ => None,
        }
    }

    /// Decides what to start for a job.
    pub fn invocation(metadata: &Vec<(String, Json)>, arguments: &Vec<(String, Json)>) -> (r:
        Option<Invocation>)
        ensures
            r is Some == Self::invocation_of(
                members_view(metadata@),
                members_view(arguments@),
            ) is Some,
            r matches Some(invocation) ==> Some(invocation@) == Self::invocation_of(
                members_view(metadata@),
                members_view(arguments@),
            ),
    {
        let directory = match lookup(metadata, "rails_dir") {
            Some(Json::Text(directory)) => directory,
            _ => {
                return None;
            },
        };
        let worker = match lookup(metadata, "sidekiq_worker") {
            Some(Json::Text(worker)) => worker,
            _ => {
                return None;
            },
        };
        if !is_match("^[a-zA-Z0-9]+$", worker.as_str()) {
            return None;
        }
        let program = match lookup(metadata, "ruby_executable") {
            Some(Json::Text(program)) => program.clone(),
            _ => String::from_str("ruby"),
        };
        let input = write_script(worker.as_str(), arguments);
        let environment = merge_environment(metadata, arguments);
        let mut words: Vec<String> = Vec::new();
        words.push(String::from_str("-c"));
        words.push(program);
        proof {
            assert(texts_view(words@) =~= seq!["-c"@, interpreter(members_view(metadata@))]);
        }
        Some(
            Invocation {
                arguments: words,
                environment,
                directory: Some(directory.clone()),
                input: Some(input),
            },
        )
    }
}

impl<L: Launcher> Executor<L> for SidekiqExecutor {
    type Context = BashExecutorContext<L::Child>;

    /// Starts the interpreter for a job. Where nothing can be started for
    /// the job, the launcher is not asked and the context notes an internal
    /// failure. Else the launcher is asked once, for what `invocation`
    /// says, and the context holds the child it hands out; the context
    /// notes an internal failure where it hands out none.
    fn execute(&mut self, launcher: &mut L, job: &Job) -> (context: BashExecutorContext<L::Child>)
        ensures
            context.timeout == job@.job_type->Some_0.timeout,
            context.internal_failure == (context.handle is None),
            match Self::invocation_of(job@.job_type->Some_0.metadata, job@.arguments) {
                None => context.internal_failure
                    && final(launcher).asked() == old(launcher).asked(),
                Some(invocation) => final(launcher).asked() == old(launcher).asked().push(
                    invocation,
                ) && (old(launcher).starts(invocation) ==> !context.internal_failure) && (
                context.handle is Some ==> context.handle->Some_0.ends()
                    == old(launcher).ends_with(invocation)),
            },
    {
        let job_type = match &job.job_type {
            Some(job_type) => job_type,
            None => {
                return BashExecutorContext { internal_failure: true, handle: None, timeout: None };
            },
        };
        let timeout = job_type.timeout;
        match Self::invocation(&job_type.metadata, &job.arguments) {
            None => BashExecutorContext { internal_failure: true, handle: None, timeout },
            Some(invocation) => match launcher.spawn(&invocation) {
                None => BashExecutorContext { internal_failure: true, handle: None, timeout },
                Some(child) => BashExecutorContext {
                    internal_failure: false,
                    handle: Some(child),
                    timeout,
                },
            },
        }
    }
}

} // verus!
