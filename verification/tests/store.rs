use jobfleet::exec::job::Job;
use jobfleet::exec::job_type::JobType;
use jobfleet::exec::node::Node;
use jobfleet::exec::node_type::NodeType;
use jobfleet::ident::Uuid;
use jobfleet::json::Json;
use jobfleet::scheduler::ScheduleItem;
use jobfleet::store::memory::MemoryServer;
use jobfleet::store::redis::RedisStore;
use jobfleet::store::server::Server;
use jobfleet::store::StoreError;
use jobfleet::util::time::epoch;

fn make_node_type(server: &mut MemoryServer, store: &RedisStore) -> Result<NodeType, StoreError> {
    let test_node_type = NodeType {
        name: "test_node_type".to_string(),
        uuid: Uuid::new_v4(),
        thread_count: 1,
    };
    store.new_node_type(server, &test_node_type)?;
    Ok(test_node_type)
}

fn make_job_type(server: &mut MemoryServer, store: &RedisStore) -> Result<JobType, StoreError> {
    let mut test_job_type = JobType {
        executor: "bash".to_string(),
        name: "test".to_string(),
        node_type: "default".to_string(),
        timeout: None,
        unique: false,
        uuid: Uuid::new_v4(),
        metadata: Vec::new(),
    };
    test_job_type.metadata.push(("command".to_string(), Json::Text("echo 'test'".to_string())));
    store.new_job_type(server, &test_job_type)?;
    Ok(test_job_type)
}

fn make_job(server: &mut MemoryServer, store: &RedisStore, job_type: &JobType) -> Result<Job, StoreError> {
    let job = Job {
        uuid: Uuid::new_v4(),
        job_type_uuid: job_type.uuid,
        job_type: Some(job_type.clone()),
        arguments: Vec::new(),
        executing_node: None,
        enqueued_at: None,
        started_at: None,
        ended_at: None,
        results: None,
        errors: None,
    };
    store.enqueue_job(server, job.clone())?;
    Ok(job)
}

fn make_schedule_item(
    server: &mut MemoryServer,
    store: &RedisStore,
    job_type_uuid: Uuid,
    last_scheduled_by: Option<Uuid>,
    last_scheduled_at: Option<u64>,
) -> Result<ScheduleItem, StoreError> {
    let mut test_schedule_item = ScheduleItem {
        uuid: Uuid::new_v4(),
        interval: 500,
        last_scheduled_by,
        last_scheduled_at,
        job_type_uuid,
        job_arguments: Vec::new(),
    };
    test_schedule_item
        .job_arguments
        .push(("command".to_string(), Json::Text("echo 'test'".to_string())));
    store.new_job_schedule_item(server, &test_schedule_item)?;
    Ok(test_schedule_item)
}

#[test]
fn can_connect() -> Result<(), StoreError> {
    let mut server = MemoryServer::new();
    let store = RedisStore::connect(&mut server)?;
    assert_eq!(store.get_ping_interval_ms(), 5000);
    assert_eq!(store.get_node().node_type_uuid, None);
    let written = server.hget("nodes", &store.get_node().uuid.hyphenated()).unwrap();
    assert_eq!(written, Some(store.get_node().to_text()));
    Ok(())
}

#[test]
fn can_get_node_types() -> Result<(), StoreError> {
    let mut server = MemoryServer::new();
    let store = RedisStore::connect(&mut server)?;
    store.clean(&mut server);
    let node_types = store.get_node_types(&mut server)?;
    assert_eq!(node_types, vec![]);
    let test_node_type = make_node_type(&mut server, &store)?;
    let node_types_new = store.get_node_types(&mut server)?;
    assert_eq!(node_types_new, vec![test_node_type.clone()]);
    let node_types_singular_new = store.get_node_type(&mut server, test_node_type.uuid)?;
    assert_eq!(node_types_singular_new, Some(test_node_type));
    Ok(())
}

#[test]
fn can_set_node_type() -> Result<(), StoreError> {
    let mut server = MemoryServer::new();
    let store = RedisStore::connect(&mut server)?;
    let mut boxed_store = store.replicate();
    boxed_store.clean(&mut server);
    let test_node_type = make_node_type(&mut server, &boxed_store)?;
    boxed_store.set_node_type(&mut server, test_node_type.uuid)?;
    let redis_result = server.hget("nodes", &boxed_store.get_node().uuid.hyphenated());
    assert_eq!(redis_result.unwrap().unwrap(), boxed_store.get_node().to_text());
    assert_eq!(boxed_store.get_node().node_type_uuid, Some(test_node_type.uuid));
    assert_eq!(boxed_store.get_node().node_type, Some(test_node_type));
    Ok(())
}

#[test]
fn can_get_job_types() -> Result<(), StoreError> {
    let mut server = MemoryServer::new();
    let mut store = RedisStore::connect(&mut server)?;
    store.clean(&mut server);
    let test_node_type = make_node_type(&mut server, &store)?;
    store.set_node_type(&mut server, test_node_type.uuid)?;
    let job_types = store.get_job_types(&mut server)?;
    assert_eq!(job_types, vec![]);
    let test_job_type = make_job_type(&mut server, &store)?;
    let job_types_new = store.get_job_types(&mut server)?;
    assert_eq!(job_types_new, vec![test_job_type]);
    Ok(())
}

#[test]
fn can_get_job_schedule() -> Result<(), StoreError> {
    let mut server = MemoryServer::new();
    let mut store = RedisStore::connect(&mut server)?;
    store.clean(&mut server);
    let test_node_type = make_node_type(&mut server, &store)?;
    store.set_node_type(&mut server, test_node_type.uuid)?;
    let schedule = store.get_job_schedule(&mut server)?;
    assert_eq!(schedule, vec![]);
    let test_job_type = make_job_type(&mut server, &store)?;
    let test_schedule_item = make_schedule_item(&mut server, &store, test_job_type.uuid, None, None)?;
    let schedule_new = store.get_job_schedule(&mut server)?;
    assert_eq!(schedule_new, vec![test_schedule_item]);
    Ok(())
}

#[test]
fn can_get_and_delete_job_schedule_item() -> Result<(), StoreError> {
    let mut server = MemoryServer::new();
    let mut store = RedisStore::connect(&mut server)?;
    store.clean(&mut server);
    let test_node_type = make_node_type(&mut server, &store)?;
    store.set_node_type(&mut server, test_node_type.uuid)?;
    let test_job_type = make_job_type(&mut server, &store)?;
    let test_schedule_item = make_schedule_item(&mut server, &store, test_job_type.uuid, None, None)?;
    let schedule_new = store.get_job_schedule_item(&mut server, test_schedule_item.uuid)?;
    assert_eq!(schedule_new, Some(test_schedule_item.clone()));
    store.delete_job_schedule_item(&mut server, test_schedule_item.uuid)?;
    let schedule = store.get_job_schedule(&mut server)?;
    assert_eq!(schedule, vec![]);
    Ok(())
}

#[test]
fn can_claim_job_schedule() -> Result<(), StoreError> {
    let mut server = MemoryServer::new();
    let mut store = RedisStore::connect(&mut server)?;
    store.clean(&mut server);
    let test_node_type = make_node_type(&mut server, &store)?;
    store.set_node_type(&mut server, test_node_type.uuid)?;
    let test_job_type = make_job_type(&mut server, &store)?;
    let mut test_schedule_item = make_schedule_item(&mut server, &store, test_job_type.uuid, None, None)?;
    let claimed = store.claim_job_scheduled(&mut server, &test_schedule_item)?;
    assert_ne!(claimed, Some(test_schedule_item.clone()));
    assert_ne!(claimed, None);
    test_schedule_item.last_scheduled_at = claimed.as_ref().unwrap().last_scheduled_at;
    test_schedule_item.last_scheduled_by = claimed.as_ref().unwrap().last_scheduled_by;
    assert_eq!(claimed, Some(test_schedule_item));
    Ok(())
}

#[test]
fn can_enqueue_dequeue_jobs() -> Result<(), StoreError> {
    let mut server = MemoryServer::new();
    let mut store = RedisStore::connect(&mut server)?;
    store.clean(&mut server);
    let test_node_type = make_node_type(&mut server, &store)?;
    store.set_node_type(&mut server, test_node_type.uuid)?;
    let test_job_type = make_job_type(&mut server, &store)?;
    let mut test_job = make_job(&mut server, &store, &test_job_type)?;
    assert_eq!(test_job.enqueued_at, None);
    assert_eq!(test_job.started_at, None);
    assert_eq!(test_job.executing_node, None);
    let enqueued_jobs = store.get_all_jobs_waiting(&mut server)?;
    assert_eq!(enqueued_jobs.len(), 1);
    let dequeued_job = store.dequeue_job(&mut server)?;
    test_job.enqueued_at = dequeued_job.enqueued_at;
    assert_eq!(enqueued_jobs[0], test_job);
    test_job.started_at = dequeued_job.started_at;
    test_job.executing_node = dequeued_job.executing_node;
    let all_jobs_waiting = store.get_all_jobs_in_progress(&mut server)?;
    assert_eq!(all_jobs_waiting, vec![test_job.clone()]);
    assert_eq!(dequeued_job, test_job);
    assert_eq!(dequeued_job.executing_node, Some(store.get_node().uuid));
    assert!(dequeued_job.enqueued_at.unwrap() <= dequeued_job.started_at.unwrap());
    assert_eq!(store.get_all_jobs_waiting(&mut server)?, vec![]);
    Ok(())
}

#[test]
fn can_enqueue_dequeue_finish_jobs() -> Result<(), StoreError> {
    let mut server = MemoryServer::new();
    let mut store = RedisStore::connect(&mut server)?;
    store.clean(&mut server);
    let test_node_type = make_node_type(&mut server, &store)?;
    store.set_node_type(&mut server, test_node_type.uuid)?;
    let test_job_type = make_job_type(&mut server, &store)?;
    make_job(&mut server, &store, &test_job_type)?;
    let dequeued_job = store.dequeue_job(&mut server)?;
    store.finish_job(&mut server, dequeued_job.clone(), Some(Json::Bool(true)), Some(Json::Bool(false)))?;
    let all_jobs_finished = store.get_all_jobs_finished(&mut server)?;
    let mut theoretical_finished_job = dequeued_job.clone();
    assert_eq!(all_jobs_finished.len(), 1);
    theoretical_finished_job.ended_at = all_jobs_finished[0].ended_at;
    theoretical_finished_job.results = Some(Json::Bool(true));
    theoretical_finished_job.errors = Some(Json::Bool(false));
    assert_eq!(all_jobs_finished, vec![theoretical_finished_job.clone()]);
    assert_eq!(
        store.get_finished_job(&mut server, theoretical_finished_job.uuid),
        Ok(Some(theoretical_finished_job))
    );
    assert_eq!(store.get_all_jobs_in_progress(&mut server)?, vec![]);
    Ok(())
}

#[test]
fn can_ping() -> Result<(), StoreError> {
    let mut server = MemoryServer::new();
    let store = RedisStore::connect(&mut server)?;
    let mut boxed_store = store.replicate();
    boxed_store.clean(&mut server);
    let test_node_type = make_node_type(&mut server, &boxed_store)?;
    boxed_store.set_node_type(&mut server, test_node_type.uuid)?;
    let before = boxed_store.get_node().clone();
    boxed_store.ping(&mut server)?;
    let redis_result = server.hget("nodes", &boxed_store.get_node().uuid.hyphenated()).unwrap();
    let raw_node = Node::from_text(&redis_result.unwrap()).unwrap();
    let mut expected = boxed_store.get_node().clone();
    expected.node_type = None;
    assert_eq!(raw_node, expected);
    assert_eq!(boxed_store.get_node().uuid, before.uuid);
    assert_eq!(boxed_store.get_node().node_type_uuid, before.node_type_uuid);
    assert_eq!(boxed_store.get_node().node_type, before.node_type);
    assert!(boxed_store.get_node().last_ping >= before.last_ping);
    Ok(())
}

#[test]
fn can_get_all_nodes() -> Result<(), StoreError> {
    let mut server = MemoryServer::new();
    let mut store = RedisStore::connect(&mut server)?;
    store.clean(&mut server);
    let test_node_type = make_node_type(&mut server, &store)?;
    store.set_node_type(&mut server, test_node_type.uuid)?;
    let nodes = store.get_nodes(&mut server)?;
    assert_eq!(nodes.len(), 1);
    let mut store_node = store.get_node().clone();
    assert!(nodes.iter().any(|node| node.uuid == store_node.uuid));
    let test_other_node = store.get_other_node(&mut server, store_node.uuid)?;
    store_node.node_type = None;
    assert_eq!(test_other_node.unwrap(), store_node);
    Ok(())
}

#[test]
fn stale_node_is_left_out() -> Result<(), StoreError> {
    let mut server = MemoryServer::new();
    let store = RedisStore::connect(&mut server)?;
    store.clean(&mut server);
    let stale = Node { uuid: Uuid::new_v4(), node_type_uuid: None, node_type: None, last_ping: epoch() - 30000 };
    server.hset("nodes", &stale.uuid.hyphenated(), &stale.to_text()).unwrap();
    assert_eq!(store.get_nodes(&mut server)?, vec![]);
    assert_eq!(store.get_other_node(&mut server, stale.uuid)?, None);
    let fresh = Node { uuid: Uuid::new_v4(), node_type_uuid: None, node_type: None, last_ping: epoch() - 10000 };
    server.hset("nodes", &fresh.uuid.hyphenated(), &fresh.to_text()).unwrap();
    assert_eq!(store.get_nodes(&mut server)?, vec![fresh.clone()]);
    assert_eq!(store.get_other_node(&mut server, fresh.uuid)?, Some(fresh));
    Ok(())
}

#[test]
fn reads_report_what_is_wrong_with_a_record() {
    let mut server = MemoryServer::new();
    let store = RedisStore::connect(&mut server).unwrap();
    store.clean(&mut server);
    let id = Uuid::new_v4();
    server.hset("node_types", &id.hyphenated(), "{not json").unwrap();
    assert!(matches!(
        store.get_node_type(&mut server, id),
        Err(StoreError::Decode(jobfleet::codec::DecodeError::Syntax(_)))
    ));
    server.hset("node_types", &id.hyphenated(), "{\"uuid\":5}").unwrap();
    assert_eq!(
        store.get_node_types(&mut server),
        Err(StoreError::Decode(jobfleet::codec::DecodeError::Shape))
    );
    let other = NodeType { uuid: Uuid::new_v4(), name: "other".to_string(), thread_count: 2 };
    server.hset("node_types", &id.hyphenated(), &other.to_text()).unwrap();
    assert_eq!(
        store.get_node_types(&mut server),
        Err(StoreError::Consistency { field: id.hyphenated(), found: other.uuid })
    );
    assert_eq!(
        store.get_node_type(&mut server, id),
        Err(StoreError::Consistency { field: id.hyphenated(), found: other.uuid })
    );
}

#[test]
fn job_with_unknown_job_type_is_an_error() {
    let mut server = MemoryServer::new();
    let mut store = RedisStore::connect(&mut server).unwrap();
    store.clean(&mut server);
    let node_type = make_node_type(&mut server, &store).unwrap();
    store.set_node_type(&mut server, node_type.uuid).unwrap();
    let missing = Uuid::new_v4();
    let job = Job {
        uuid: Uuid::new_v4(),
        job_type_uuid: missing,
        job_type: None,
        arguments: Vec::new(),
        executing_node: None,
        enqueued_at: None,
        started_at: None,
        ended_at: None,
        results: None,
        errors: None,
    };
    store.enqueue_job(&mut server, job).unwrap();
    assert_eq!(store.get_all_jobs_waiting(&mut server), Err(StoreError::InvalidJobType(missing)));
    assert_eq!(store.dequeue_job(&mut server), Err(StoreError::InvalidJobType(missing)));
    assert_eq!(
        StoreError::InvalidJobType(missing).message(),
        format!("invalid job type: '{}'", missing.hyphenated())
    );
}

#[test]
fn set_node_type_of_unknown_type_changes_nothing() {
    let mut server = MemoryServer::new();
    let mut store = RedisStore::connect(&mut server).unwrap();
    let before = store.get_node().clone();
    assert_eq!(store.set_node_type(&mut server, Uuid::new_v4()), Ok(None));
    assert_eq!(store.set_node_type_soft(&mut server, Uuid::new_v4()), Ok(None));
    assert_eq!(*store.get_node(), before);
}

#[test]
fn soft_binding_is_not_written() {
    let mut server = MemoryServer::new();
    let mut store = RedisStore::connect(&mut server).unwrap();
    let node_type = make_node_type(&mut server, &store).unwrap();
    let written_before = server.hget("nodes", &store.get_node().uuid.hyphenated()).unwrap();
    assert_eq!(store.set_node_type_soft(&mut server, node_type.uuid), Ok(Some(())));
    assert_eq!(store.get_node().node_type_uuid, Some(node_type.uuid));
    let written_after = server.hget("nodes", &store.get_node().uuid.hyphenated()).unwrap();
    assert_eq!(written_before, written_after);
}
