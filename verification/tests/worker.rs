use jobfleet::exec::executor::{ChildProcess, Invocation, Launcher};
use jobfleet::exec::executors::run_job;
use jobfleet::exec::job::Job;
use jobfleet::exec::job_type::JobType;
use jobfleet::exec::node_type::NodeType;
use jobfleet::ident::Uuid;
use jobfleet::json::{Json, JsonNumber};
use jobfleet::store::memory::MemoryServer;
use jobfleet::store::redis::RedisStore;
use jobfleet::store::server::Server;
use jobfleet::store::StoreError;
use jobfleet::threads::worker_thread::run_loop;

struct Finished;

impl ChildProcess for Finished {
    fn wait(&mut self) -> Result<Option<i32>, String> {
        Ok(Some(0))
    }
    fn try_wait(&mut self) -> Result<Option<Option<i32>>, String> {
        Ok(Some(Some(0)))
    }
    fn wait_with_output(self) -> Result<(Vec<u8>, Vec<u8>), String> {
        Ok((b"test\n".to_vec(), Vec::new()))
    }
}

struct Echo {
    lines: Vec<String>,
}

impl Launcher for Echo {
    type Child = Finished;

    fn spawn(&mut self, invocation: &Invocation) -> Option<Finished> {
        self.lines.push(invocation.arguments[1].clone());
        Some(Finished)
    }
}

fn make_node_type(server: &mut MemoryServer, store: &RedisStore) -> Result<NodeType, StoreError> {
    let test_node_type =
        NodeType { name: "test_node_type".to_string(), uuid: Uuid::new_v4(), thread_count: 1 };
    store.new_node_type(server, &test_node_type)?;
    Ok(test_node_type)
}

fn make_job_type(server: &mut MemoryServer, store: &RedisStore, executor: &str) -> Result<JobType, StoreError> {
    let mut test_job_type = JobType {
        executor: executor.to_string(),
        name: "test".to_string(),
        node_type: "default".to_string(),
        timeout: None,
        unique: false,
        uuid: Uuid::new_v4(),
        metadata: Vec::new(),
    };
    test_job_type.metadata.push(("command".to_string(), Json::Text("echo 'test'".to_string())));
    store.new_job_type(server, &test_job_type)?;
    Ok(test_job_type)
}

fn make_job(server: &mut MemoryServer, store: &RedisStore, job_type: &JobType) -> Result<Job, StoreError> {
    let job = Job {
        uuid: Uuid::new_v4(),
        job_type_uuid: job_type.uuid,
        job_type: Some(job_type.clone()),
        arguments: Vec::new(),
        executing_node: None,
        enqueued_at: None,
        started_at: None,
        ended_at: None,
        results: None,
        errors: None,
    };
    store.enqueue_job(server, job.clone())?;
    Ok(job)
}

fn started() -> (MemoryServer, RedisStore) {
    let mut server = MemoryServer::new();
    let mut store = RedisStore::connect(&mut server).unwrap();
    store.clean(&mut server);
    let test_node_type = make_node_type(&mut server, &store).unwrap();
    store.set_node_type(&mut server, test_node_type.uuid).unwrap();
    (server, store)
}

#[test]
fn can_execute_job() -> Result<(), StoreError> {
    let (mut server, mut store) = started();
    let test_job_type = make_job_type(&mut server, &store, "bash")?;
    let mut test_job = make_job(&mut server, &store, &test_job_type)?;
    let mut shell = Echo { lines: Vec::new() };
    assert_eq!(run_loop(&mut store, &mut server, &mut shell), Ok(test_job.uuid));
    let finished_jobs = store.get_all_jobs_finished(&mut server)?;
    assert_eq!(finished_jobs.len(), 1);
    test_job.enqueued_at = finished_jobs[0].enqueued_at;
    test_job.started_at = finished_jobs[0].started_at;
    test_job.executing_node = finished_jobs[0].executing_node;
    test_job.ended_at = finished_jobs[0].ended_at;
    let output = vec![
        ("stdout".to_string(), Json::Text("test\n".to_string())),
        ("stderr".to_string(), Json::Text("".to_string())),
        ("exit_code".to_string(), Json::Number(JsonNumber::Unsigned(0))),
    ];
    test_job.results = Some(Json::Object(output));
    assert_eq!(finished_jobs[0], test_job);
    assert_eq!(finished_jobs[0].errors, None);
    assert_eq!(shell.lines, vec!["echo 'test' ".to_string()]);
    let (enqueued, begun, ended) = (
        finished_jobs[0].enqueued_at.unwrap(),
        finished_jobs[0].started_at.unwrap(),
        finished_jobs[0].ended_at.unwrap(),
    );
    assert!(enqueued <= begun && begun <= ended);
    assert_eq!(store.get_all_jobs_waiting(&mut server)?, vec![]);
    assert_eq!(store.get_all_jobs_in_progress(&mut server)?, vec![]);
    Ok(())
}

#[test]
fn job_of_an_unknown_executor_finishes_with_nothing() -> Result<(), StoreError> {
    let (mut server, mut store) = started();
    let test_job_type = make_job_type(&mut server, &store, "powershell")?;
    let test_job = make_job(&mut server, &store, &test_job_type)?;
    let mut shell = Echo { lines: Vec::new() };
    assert_eq!(run_loop(&mut store, &mut server, &mut shell), Ok(test_job.uuid));
    let finished = store.get_finished_job(&mut server, test_job.uuid)?.unwrap();
    assert_eq!((finished.results, finished.errors), (None, None));
    assert!(finished.ended_at.is_some());
    assert!(shell.lines.is_empty());
    Ok(())
}

#[test]
fn job_that_cannot_be_started_finishes_with_null_where_errors_stand() -> Result<(), StoreError> {
    let (mut server, mut store) = started();
    let mut job_type = make_job_type(&mut server, &store, "bash")?;
    job_type.metadata = vec![("command".to_string(), Json::Bool(true))];
    store.new_job_type(&mut server, &job_type)?;
    let job = make_job(&mut server, &store, &job_type)?;
    let dequeued = store.dequeue_job(&mut server)?;
    assert_eq!(dequeued.uuid, job.uuid);
    let mut shell = Echo { lines: Vec::new() };
    run_job(&store, &mut server, &mut shell, dequeued)?;
    assert!(shell.lines.is_empty());
    let text = {
        let key = format!("jobs_finished_{}", store.get_node().node_type_uuid.unwrap().hyphenated());
        server.hget(&key, &job.uuid.hyphenated()).unwrap().unwrap()
    };
    assert!(text.contains("\"results\":null"));
    assert!(text.contains("\"errors\":null"));
    Ok(())
}

#[test]
fn empty_queue_is_an_error_on_a_server_that_cannot_wait() {
    let (mut server, mut store) = started();
    let mut shell = Echo { lines: Vec::new() };
    assert!(matches!(run_loop(&mut store, &mut server, &mut shell), Err(StoreError::Server(_))));
}
