use jobfleet::exec::executor::{ChildProcess, ExecutionContext, Executor, Launcher};
use jobfleet::exec::executors::bash::BashExecutor;
use jobfleet::exec::executors::run_job;
use jobfleet::exec::executors::sidekiq::SidekiqExecutor;
use jobfleet::exec::job::Job;
use jobfleet::exec::job_type::JobType;
use jobfleet::exec::node_type::NodeType;
use jobfleet::exec::stage::{Ended, Played, Stage};
use jobfleet::ident::Uuid;
use jobfleet::json::{Json, JsonNumber};
use jobfleet::store::memory::MemoryServer;
use jobfleet::store::redis::RedisStore;
use jobfleet::threads::worker_thread::run_loop;

fn played(stdout: &str, stderr: &str, code: Option<i32>) -> Played {
    Played { code, stdout: stdout.as_bytes().to_vec(), stderr: stderr.as_bytes().to_vec() }
}

fn job_type(executor: &str, metadata: Vec<(String, Json)>) -> JobType {
    JobType {
        executor: executor.to_string(),
        name: "test".to_string(),
        node_type: "default".to_string(),
        timeout: Some(7),
        unique: false,
        uuid: Uuid::new_v4(),
        metadata,
    }
}

fn job(job_type: &JobType) -> Job {
    Job {
        uuid: Uuid::new_v4(),
        job_type_uuid: job_type.uuid,
        job_type: Some(job_type.clone()),
        arguments: Vec::new(),
        executing_node: None,
        enqueued_at: None,
        started_at: None,
        ended_at: None,
        results: None,
        errors: None,
    }
}

fn text(s: &str) -> Json {
    Json::Text(s.to_string())
}

fn report(stdout: &str, stderr: &str, code: Json) -> Json {
    Json::Object(vec![
        ("stdout".to_string(), text(stdout)),
        ("stderr".to_string(), text(stderr)),
        ("exit_code".to_string(), code),
    ])
}

#[test]
fn stage_keeps_account_and_plays_an_ended_child() {
    let mut stage = Stage::new(Some(played("out", "err", Some(3))));
    assert!(stage.seen.is_empty());
    let kind = job_type("bash", vec![("command".to_string(), text("true"))]);
    let invocation = BashExecutor::invocation(&kind.metadata, &vec![]).unwrap();
    let mut child: Ended = stage.spawn(&invocation).unwrap();
    assert_eq!(stage.seen, vec![invocation.clone()]);
    assert_eq!(child.try_wait(), Ok(Some(Some(3))));
    assert_eq!(child.wait(), Ok(Some(3)));
    assert_eq!(child.wait_with_output(), Ok((b"out".to_vec(), b"err".to_vec())));
    let again = stage.spawn(&invocation).unwrap();
    assert_eq!(again.played, played("out", "err", Some(3)));
    assert_eq!(stage.seen.len(), 2);
    let mut empty = Stage::new(None);
    assert!(empty.spawn(&invocation).is_none());
    assert_eq!(empty.seen, vec![invocation]);
}

#[test]
fn job_that_can_be_started_is_started_once_and_ends_with_its_report() {
    let kind = job_type("bash", vec![("command".to_string(), text("echo 'test'"))]);
    let made = job(&kind);
    let mut stage = Stage::new(Some(played("test\n", "", Some(0))));
    let mut context = (BashExecutor {}).execute(&mut stage, &made);
    assert!(!context.internal_failure);
    assert!(context.handle.is_some());
    assert_eq!(context.timeout, Some(7));
    assert_eq!(stage.seen.len(), 1);
    assert_eq!(stage.seen[0].arguments, vec!["-c".to_string(), "echo 'test' ".to_string()]);
    assert_eq!(
        context.result(&made, false),
        Some(Ok(Some(report("test\n", "", Json::Number(JsonNumber::Unsigned(0))))))
    );
    assert!(context.handle.is_none());
    let mut killed = Stage::new(Some(played("", "x", None)));
    let mut context = (BashExecutor {}).execute(&mut killed, &made);
    assert_eq!(context.result(&made, true), Some(Ok(Some(report("", "x", Json::Null)))));
}

#[test]
fn job_that_cannot_be_started_does_not_reach_the_launcher() {
    let kind = job_type("bash", vec![("command".to_string(), Json::Bool(true))]);
    let made = job(&kind);
    let mut stage = Stage::new(Some(played("", "", Some(0))));
    let mut context = (BashExecutor {}).execute(&mut stage, &made);
    assert!(context.internal_failure);
    assert!(stage.seen.is_empty());
    assert_eq!(context.result(&made, false), Some(Err(Json::Null)));
    let rails = job_type("sidekiq", vec![("rails_dir".to_string(), text("."))]);
    let made = job(&rails);
    let context = (SidekiqExecutor {}).execute(&mut stage, &made);
    assert!(context.internal_failure);
    assert!(stage.seen.is_empty());
}

#[test]
fn launcher_that_starts_nothing_gives_an_internal_failure() {
    let kind = job_type(
        "sidekiq",
        vec![
            ("rails_dir".to_string(), text("./app")),
            ("sidekiq_worker".to_string(), text("Worker")),
        ],
    );
    let made = job(&kind);
    let mut stage = Stage::new(None);
    let mut context = (SidekiqExecutor {}).execute(&mut stage, &made);
    assert!(context.internal_failure);
    assert_eq!(stage.seen.len(), 1);
    assert_eq!(stage.seen[0].directory, Some("./app".to_string()));
    assert_eq!(context.result(&made, false), Some(Err(Json::Null)));
}

fn started() -> (MemoryServer, RedisStore) {
    let mut server = MemoryServer::new();
    let mut store = RedisStore::connect(&mut server).unwrap();
    let node_type = NodeType { name: "default".to_string(), uuid: Uuid::new_v4(), thread_count: 1 };
    store.new_node_type(&mut server, &node_type).unwrap();
    store.set_node_type(&mut server, node_type.uuid).unwrap();
    (server, store)
}

#[test]
fn worker_finishes_a_job_with_the_report_of_its_child() {
    let (mut server, mut store) = started();
    let kind = job_type("bash", vec![("command".to_string(), text("echo hi"))]);
    store.new_job_type(&mut server, &kind).unwrap();
    let made = job(&kind);
    store.enqueue_job(&mut server, made.clone()).unwrap();
    let mut stage = Stage::new(Some(played("hi\n", "", Some(0))));
    assert_eq!(run_loop(&mut store, &mut server, &mut stage), Ok(made.uuid));
    assert_eq!(stage.seen.len(), 1);
    let finished = store.get_finished_job(&mut server, made.uuid).unwrap().unwrap();
    assert_eq!(
        finished.results,
        Some(report("hi\n", "", Json::Number(JsonNumber::Unsigned(0))))
    );
    assert_eq!(finished.errors, None);
}

#[test]
fn run_job_of_an_unknown_executor_asks_the_launcher_for_nothing() {
    let (mut server, mut store) = started();
    let kind = job_type("fortran", vec![("command".to_string(), text("echo hi"))]);
    store.new_job_type(&mut server, &kind).unwrap();
    store.enqueue_job(&mut server, job(&kind)).unwrap();
    let taken = store.dequeue_job(&mut server).unwrap();
    let id = taken.uuid;
    let mut stage = Stage::new(Some(played("hi\n", "", Some(0))));
    run_job(&store, &mut server, &mut stage, taken).unwrap();
    assert!(stage.seen.is_empty());
    let finished = store.get_finished_job(&mut server, id).unwrap().unwrap();
    assert_eq!((finished.results, finished.errors), (None, None));
}
