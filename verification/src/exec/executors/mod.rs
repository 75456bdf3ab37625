//! The executors, and what becomes of a job once its executor is done.

pub mod bash;
pub mod environment;
pub mod sidekiq;

use crate::exec::executor::{
    lossy_text, payload, report_of, ExecutionContext, Executor, InvocationView, Launcher,
};
use crate::exec::executors::bash::BashExecutor;
use crate::exec::executors::sidekiq::SidekiqExecutor;
use crate::exec::job::{Job, JobView};
use crate::json::{Json, JsonView};
use crate::store::redis::{finished, opt_json_view, server_failed, RedisStore};
use crate::store::server::Server;
use crate::store::StoreError;
use vstd::prelude::*;

verus! {

/// What an executor reports of a job, by its value.
pub open spec fn report_view(report: Option<Result<Option<Json>, Json>>) -> Option<
    Result<Option<JsonView>, JsonView>,
> {
    match report {
        None => None,
        Some(Err(error)) => Some(Err(error@)),
        Some(Ok(None)) => Some(Ok(None)),
        Some(Ok(Some(results))) => Some(Ok(Some(results@))),
    }
}

/// The error of a job whose executor gave no report.
pub open spec fn no_report_text() -> Seq<char> {
    "invalid executor context [async not supported]"@
}

/// The results and the errors that a report leaves a job with: an error
/// alone, results alone (or nothing, where the executor had nothing to
/// say), or, where there is no report, an error that says so.
pub open spec fn settled(report: Option<Result<Option<JsonView>, JsonView>>) -> (
    Option<JsonView>,
    Option<JsonView>,
) {
    match report {
        Some(Err(error)) => (None, Some(error)),
        Some(Ok(results)) => (results, None),
        None => (None, Some(JsonView::Text(no_report_text()))),
    }
}

/// Turns the report of an executor into the results and the errors of the job.
pub fn settle(report: Option<Result<Option<Json>, Json>>) -> (r: (Option<Json>, Option<Json>))
    ensures
        (opt_json_view(r.0), opt_json_view(r.1)) == settled(report_view(report)),
{
    match report {
        Some(Err(error)) => (None, Some(error)),
        Some(Ok(results)) => (results, None),
        None => (
            None,
            Some(Json::Text(String::from_str("invalid executor context [async not supported]"))),
        ),
    }
}

/// Finishes a job with what its executor reported.
pub fn finish_job_execution<C: Server>(
    store: &RedisStore,
    conn: &mut C,
    job: Job,
    report: Option<Result<Option<Json>, Json>>,
) -> (r: Result<(), StoreError>)
    requires
        store.bound(),
    ensures
        final(conn).reliable() == old(conn).reliable(),
        old(conn).reliable() ==> r is Ok,
        r is Err ==> server_failed(r),
        r is Ok ==> finished(
            old(conn).state(),
            store.node.node_type_uuid->Some_0,
            job@,
            settled(report_view(report)).0,
            settled(report_view(report)).1,
            final(conn).state(),
        ),
{
    let (results, errors) = settle(report);
    store.finish_job(conn, job, results, errors)
}

/// Which executor a job type names.
pub enum ExecutorKind {
    Bash,
    Sidekiq,
    Unknown,
}

/// The executor that a name stands for.
pub open spec fn executor_named(name: Seq<char>) -> ExecutorKind {
    if name == "bash"@ {
        ExecutorKind::Bash
    } else if name == "sidekiq"@ {
        ExecutorKind::Sidekiq
    } else {
        ExecutorKind::Unknown
    }
}

/// Finds the executor that a name stands for.
pub fn executor_for(name: &String) -> (kind: ExecutorKind)
    ensures
        kind == executor_named(name@),
{
    if *name == String::from_str("bash") {
        ExecutorKind::Bash
    } else if *name == String::from_str("sidekiq") {
        ExecutorKind::Sidekiq
    } else {
        ExecutorKind::Unknown
    }
}

/// What is started for a job: what the executor that its job type names
/// asks the launcher for, and nothing where the job type names no executor
/// of this library or where that executor can start nothing for the job.
pub open spec fn invocation_for(job: JobView) -> Option<InvocationView> {
    let job_type = job.job_type->Some_0;
    match executor_named(job_type.executor) {
        ExecutorKind::Unknown => None,
        ExecutorKind::Bash => BashExecutor::invocation_of(job_type.metadata, job.arguments),
        ExecutorKind::Sidekiq => SidekiqExecutor::invocation_of(job_type.metadata, job.arguments),
    }
}

/// Whether `results` and `errors` are what running `job` with `launcher`
/// leaves it with.
///
/// A job whose job type names no executor of this library ends with
/// neither. A job for which nothing can be started ends with a null error.
/// A job whose child is sure to be started and has ended ends with the
/// report of how the child ended. Any other job ends with the report of
/// some child, or with a null error where none was started or its end
/// could not be awaited.
pub open spec fn verdict<L: Launcher>(
    job: JobView,
    launcher: L,
    results: Option<JsonView>,
    errors: Option<JsonView>,
) -> bool {
    let failed = results is None && errors == Some(JsonView::Null);
    let reported = errors is None && exists|stdout: Seq<u8>, stderr: Seq<u8>, code: Option<i32>|
        results == Some(#[trigger] payload(lossy_text(stdout), lossy_text(stderr), code));
    if executor_named(job.job_type->Some_0.executor) is Unknown {
        results is None && errors is None
    } else {
        match invocation_for(job) {
            None => failed,
            Some(invocation) => if launcher.starts(invocation) && launcher.ends_with(
                invocation,
            ) is Some {
                errors is None && results == Some(
                    report_of(launcher.ends_with(invocation)->Some_0),
                )
            } else {
                failed || reported
            },
        }
    }
}

/// What a launcher has been asked for once a job has been run with it: one
/// more invocation where there is one for the job, and else what it had
/// been asked for before.
pub open spec fn asked_after(job: JobView, before: Seq<InvocationView>) -> Seq<InvocationView> {
    match invocation_for(job) {
        Some(invocation) => before.push(invocation),
        None => before,
    }
}

/// Runs a job to its end and finishes it: the executor that the job type
/// names starts the job, the call waits for it, and the job is written to
/// the finished jobs with what came of it.
pub fn run_job<C: Server, L: Launcher>(
    store: &RedisStore,
    conn: &mut C,
    launcher: &mut L,
    job: Job,
) -> (r: Result<(), StoreError>)
    requires
        store.bound(),
        job.job_type is Some,
    ensures
        final(conn).reliable() == old(conn).reliable(),
        final(launcher).asked() == asked_after(job@, old(launcher).asked()),
        old(conn).reliable() ==> r is Ok,
        r is Err ==> server_failed(r),
        r is Ok ==> exists|results: Option<JsonView>, errors: Option<JsonView>|
            verdict(job@, *old(launcher), results, errors) && #[trigger] finished(
                old(conn).state(),
                store.node.node_type_uuid->Some_0,
                job@,
                results,
                errors,
                final(conn).state(),
            ),
{
    let kind = match &job.job_type {
        Some(job_type) => executor_for(&job_type.executor),
        None => ExecutorKind::Unknown,
    };
    let ghost before = conn.state();
    match kind {
        ExecutorKind::Bash => {
            let mut executor = BashExecutor {  };
            let mut context = executor.execute(launcher, &job);
            let report = context.result(&job, false);
            let ghost (results, errors) = settled(report_view(report));
            let r = finish_job_execution(store, conn, job, report);
            proof {
                if r is Ok {
                    assert(verdict(job@, *old(launcher), results, errors));
                    assert(finished(
                        before,
                        store.node.node_type_uuid->Some_0,
                        job@,
                        results,
                        errors,
                        conn.state(),
                    ));
                }
            }
            r
        },
        ExecutorKind::Sidekiq => {
            let mut executor = SidekiqExecutor {  };
            let mut context = executor.execute(launcher, &job);
            let report = context.result(&job, false);
            let ghost (results, errors) = settled(report_view(report));
            let r = finish_job_execution(store, conn, job, report);
            proof {
                if r is Ok {
                    assert(verdict(job@, *old(launcher), results, errors));
                    assert(finished(
                        before,
                        store.node.node_type_uuid->Some_0,
                        job@,
                        results,
                        errors,
                        conn.state(),
                    ));
                }
            }
            r
        },
        ExecutorKind::Unknown => {
            let r = store.finish_job(conn, job, None, None);
            proof {
                if r is Ok {
                    assert(verdict(job@, *old(launcher), None, None));
                    assert(finished(
                        before,
                        store.node.node_type_uuid->Some_0,
                        job@,
                        None,
                        None,
                        conn.state(),
                    ));
                }
            }
            r
        },
    }
}

} // verus!
