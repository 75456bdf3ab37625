use jobfleet::exec::job::Job;
use jobfleet::exec::job_type::JobType;
use jobfleet::exec::node::Node;
use jobfleet::exec::node_type::NodeType;
use jobfleet::http::controllers::api::{
    get_uuid_from_arg, job_types, jobs, node_types, nodes, option_translate,
    redis_error_translate, schedule, PostResponse,
};
use jobfleet::http::controllers::health;
use jobfleet::http::helpers::control::{status_error, Status};
use jobfleet::http::helpers::post_wrapper::{json_wrap, required, serialize_wrap};
use jobfleet::http::middleware::api_auth::ApiAuth;
use jobfleet::http::middleware::assert_json::AssertJson;
use jobfleet::ident::Uuid;
use jobfleet::json::Json;
use jobfleet::scheduler::ScheduleItem;
use jobfleet::store::memory::MemoryServer;
use jobfleet::store::redis::RedisStore;
use jobfleet::store::server::Server;
use jobfleet::store::StoreError;
use jobfleet::util::time::epoch;

fn make_node_type(server: &mut MemoryServer, store: &RedisStore) -> Result<NodeType, StoreError> {
    let test_node_type =
        NodeType { name: "test_node_type".to_string(), uuid: Uuid::new_v4(), thread_count: 1 };
    store.new_node_type(server, &test_node_type)?;
    Ok(test_node_type)
}

fn make_job_type(server: &mut MemoryServer, store: &RedisStore) -> Result<JobType, StoreError> {
    let mut test_job_type = JobType {
        executor: "bash".to_string(),
        name: "test".to_string(),
        node_type: "default".to_string(),
        timeout: None,
        unique: false,
        uuid: Uuid::new_v4(),
        metadata: Vec::new(),
    };
    test_job_type.metadata.push(("command".to_string(), Json::Text("echo 'test'".to_string())));
    store.new_job_type(server, &test_job_type)?;
    Ok(test_job_type)
}

fn make_job(server: &mut MemoryServer, store: &RedisStore, job_type: &JobType) -> Result<Job, StoreError> {
    let job = Job {
        uuid: Uuid::new_v4(),
        job_type_uuid: job_type.uuid,
        job_type: Some(job_type.clone()),
        arguments: Vec::new(),
        executing_node: None,
        enqueued_at: None,
        started_at: None,
        ended_at: None,
        results: None,
        errors: None,
    };
    store.enqueue_job(server, job.clone())?;
    Ok(job)
}

fn make_schedule_item(
    server: &mut MemoryServer,
    store: &RedisStore,
    job_type_uuid: Uuid,
) -> Result<ScheduleItem, StoreError> {
    let mut test_schedule_item = ScheduleItem {
        uuid: Uuid::new_v4(),
        interval: 500,
        last_scheduled_by: None,
        last_scheduled_at: None,
        job_type_uuid,
        job_arguments: Vec::new(),
    };
    test_schedule_item
        .job_arguments
        .push(("command".to_string(), Json::Text("echo 'test'".to_string())));
    store.new_job_schedule_item(server, &test_schedule_item)?;
    Ok(test_schedule_item)
}

fn started() -> (MemoryServer, RedisStore, NodeType) {
    let mut server = MemoryServer::new();
    let mut store = RedisStore::connect(&mut server).unwrap();
    store.clean(&mut server);
    let test_node_type = make_node_type(&mut server, &store).unwrap();
    store.set_node_type(&mut server, test_node_type.uuid).unwrap();
    (server, store, test_node_type)
}

#[test]
fn test_can_get_health() {
    assert_eq!(health::handle(), "ok");
}

#[test]
fn test_node_types_index() {
    let (mut server, store, test_node_type) = started();
    let body = node_types::index(&store, &mut server).unwrap();
    assert_eq!(body, node_types::IndexResponse { node_types: vec![test_node_type.clone()] });
    assert_eq!(
        body.to_json().to_text(),
        format!(
            "{{\"node_types\":[{{\"uuid\":\"{}\",\"name\":\"test_node_type\",\"thread_count\":1}}]}}",
            test_node_type.uuid.hyphenated()
        )
    );
}

#[test]
fn test_node_types_get() {
    let (mut server, store, _) = started();
    let store_node = store.get_node().clone();
    let arg = store_node.node_type_uuid.unwrap().hyphenated();
    let body = node_types::get(&store, &mut server, Some(&arg)).unwrap();
    assert_eq!(body, store_node.node_type.unwrap());
    assert_eq!(node_types::get(&store, &mut server, Some("nonsense")), Err(Status::BadRequest));
    assert_eq!(node_types::get(&store, &mut server, None), Err(Status::BadRequest));
    let unknown = Uuid::new_v4().hyphenated();
    assert_eq!(node_types::get(&store, &mut server, Some(&unknown)), Err(Status::NotFound));
    server.hset("node_types", &unknown, "[]").unwrap();
    assert_eq!(
        node_types::get(&store, &mut server, Some(&unknown)),
        Err(Status::InternalServerError)
    );
}

#[test]
fn test_node_types_post() {
    let mut server = MemoryServer::new();
    let mut store = RedisStore::connect(&mut server).unwrap();
    store.clean(&mut server);
    let test_node_type =
        NodeType { name: "test_node_type".to_string(), uuid: Uuid::new_v4(), thread_count: 1 };
    let node_type_serialized = test_node_type.to_text();
    let body = NodeType::from_text(&node_type_serialized).unwrap();
    let response =
        node_types::post(&store, &mut server, Some(&test_node_type.uuid.hyphenated()), &body);
    assert_eq!(response, Ok(PostResponse { status: "ok".to_string(), uuid: None }));
    assert_eq!(response.unwrap().to_json().to_text(), "{\"status\":\"ok\"}");
    store.set_node_type(&mut server, test_node_type.uuid).unwrap();
    assert_eq!(store.get_node().node_type.as_ref().unwrap().clone(), test_node_type);
    let other = Uuid::new_v4().hyphenated();
    assert_eq!(node_types::post(&store, &mut server, Some(&other), &body), Err(Status::BadRequest));
    assert_eq!(server.hget("node_types", &other), Ok(None));
}

#[test]
fn test_nodes_index() {
    let (mut server, store, _) = started();
    let found = store.get_nodes(&mut server).unwrap();
    assert_eq!(found.len(), 1);
    let store_node = store.get_node().clone();
    let body = nodes::index(&store, &mut server).unwrap();
    assert_eq!(body, nodes::IndexResponse { nodes: vec![Node { node_type: None, ..store_node }] });
}

#[test]
fn test_nodes_get() {
    let (mut server, store, _) = started();
    let store_node = store.get_node().clone();
    let body = nodes::get(&store, &mut server, Some(&store_node.uuid.hyphenated())).unwrap();
    assert_eq!(body, Node { node_type: None, ..store_node });
}

#[test]
fn stale_node_is_not_listed_and_not_found() {
    let (mut server, store, _) = started();
    store.clean(&mut server);
    let stale =
        Node { uuid: Uuid::new_v4(), node_type_uuid: None, node_type: None, last_ping: epoch() - 30000 };
    server.hset("nodes", &stale.uuid.hyphenated(), &stale.to_text()).unwrap();
    assert_eq!(nodes::index(&store, &mut server), Ok(nodes::IndexResponse { nodes: vec![] }));
    assert_eq!(
        nodes::index(&store, &mut server).unwrap().to_json().to_text(),
        "{\"nodes\":[]}"
    );
    assert_eq!(
        nodes::get(&store, &mut server, Some(&stale.uuid.hyphenated())),
        Err(Status::NotFound)
    );
}

#[test]
fn test_job_types_index() {
    let (mut server, store, _) = started();
    let test_job_type = make_job_type(&mut server, &store).unwrap();
    let body = job_types::index(&store, &mut server).unwrap();
    assert_eq!(body, job_types::IndexResponse { job_types: vec![test_job_type] });
}

#[test]
fn test_job_types_get() {
    let (mut server, store, _) = started();
    let test_job_type = make_job_type(&mut server, &store).unwrap();
    let body = job_types::get(&store, &mut server, Some(&test_job_type.uuid.hyphenated())).unwrap();
    assert_eq!(body, test_job_type);
}

#[test]
fn test_job_types_post() {
    let (mut server, store, _) = started();
    let test_job_type = job_types::PostBody {
        executor: "bash".to_string(),
        name: "test".to_string(),
        node_type: "default".to_string(),
        timeout: None,
        unique: false,
        metadata: Vec::new(),
    };
    let job_type_serialized = test_job_type.to_text();
    assert_eq!(
        job_type_serialized,
        "{\"name\":\"test\",\"executor\":\"bash\",\"metadata\":{},\"unique\":false,\"node_type\":\"default\",\"timeout\":null}"
    );
    let posted = job_types::PostBody::from_text(&job_type_serialized).unwrap();
    let body = job_types::post(&store, &mut server, &posted).unwrap();
    assert_eq!(body.status, "ok");
    let uuid = body.uuid.unwrap();
    let new_job = store.get_job_type(&mut server, uuid).unwrap().unwrap();
    assert_eq!(
        new_job,
        JobType {
            uuid,
            executor: test_job_type.executor,
            name: test_job_type.name,
            node_type: test_job_type.node_type,
            timeout: test_job_type.timeout,
            unique: test_job_type.unique,
            metadata: test_job_type.metadata,
        }
    );
    assert_eq!(
        body.to_json().to_text(),
        format!("{{\"status\":\"ok\",\"uuid\":\"{}\"}}", uuid.hyphenated())
    );
}

#[test]
fn test_jobs_index_queued() {
    let (mut server, store, test_node_type) = started();
    let test_job_type = make_job_type(&mut server, &store).unwrap();
    let mut test_job = make_job(&mut server, &store, &test_job_type).unwrap();
    let mut handle = store.replicate();
    let arg = test_node_type.uuid.hyphenated();
    let body = jobs::index_queued(&mut handle, &mut server, Some(&arg)).unwrap();
    assert_eq!(body.jobs.len(), 1);
    test_job.enqueued_at = body.jobs[0].enqueued_at;
    assert_eq!(body, jobs::IndexResponse { jobs: vec![test_job.clone()] });
    assert_eq!(store.get_node().node_type_uuid.unwrap(), test_node_type.uuid);
    assert_eq!(handle.get_node().node_type_uuid.unwrap(), test_node_type.uuid);
    let written = Job::from_text(&body.jobs[0].to_text()).unwrap();
    test_job.job_type = None;
    assert_eq!(written, test_job);
}

#[test]
fn test_jobs_index_in_progress() {
    let (mut server, mut store, test_node_type) = started();
    let test_job_type = make_job_type(&mut server, &store).unwrap();
    let mut test_job = make_job(&mut server, &store, &test_job_type).unwrap();
    store.dequeue_job(&mut server).unwrap();
    let mut handle = store.replicate();
    let arg = test_node_type.uuid.hyphenated();
    let body = jobs::index_in_progress(&mut handle, &mut server, Some(&arg)).unwrap();
    assert_eq!(body.jobs.len(), 1);
    test_job.enqueued_at = body.jobs[0].enqueued_at;
    test_job.started_at = body.jobs[0].started_at;
    test_job.executing_node = body.jobs[0].executing_node;
    assert_eq!(body, jobs::IndexResponse { jobs: vec![test_job] });
    assert_eq!(store.get_node().node_type_uuid.unwrap(), test_node_type.uuid);
}

#[test]
fn test_jobs_index_finished() {
    let (mut server, mut store, test_node_type) = started();
    let test_job_type = make_job_type(&mut server, &store).unwrap();
    let mut test_job = make_job(&mut server, &store, &test_job_type).unwrap();
    store.dequeue_job(&mut server).unwrap();
    store
        .finish_job(
            &mut server,
            test_job.clone(),
            Some(Json::Text("output".to_string())),
            Some(Json::Text("errors".to_string())),
        )
        .unwrap();
    let mut handle = store.replicate();
    let arg = test_node_type.uuid.hyphenated();
    let body = jobs::index_finished(&mut handle, &mut server, Some(&arg)).unwrap();
    test_job.job_type = None;
    assert_eq!(body.jobs.len(), 1);
    test_job.enqueued_at = body.jobs[0].enqueued_at;
    test_job.started_at = body.jobs[0].started_at;
    test_job.ended_at = body.jobs[0].ended_at;
    test_job.executing_node = body.jobs[0].executing_node;
    test_job.results = Some(Json::Bool(true));
    test_job.errors = Some(Json::Bool(true));
    assert_eq!(body, jobs::IndexResponse { jobs: vec![test_job] });
    assert_eq!(store.get_node().node_type_uuid.unwrap(), test_node_type.uuid);
}

#[test]
fn test_jobs_get() {
    let (mut server, mut store, test_node_type) = started();
    let test_job_type = make_job_type(&mut server, &store).unwrap();
    let mut test_job = make_job(&mut server, &store, &test_job_type).unwrap();
    store.dequeue_job(&mut server).unwrap();
    store
        .finish_job(
            &mut server,
            test_job.clone(),
            Some(Json::Text("output".to_string())),
            Some(Json::Text("errors".to_string())),
        )
        .unwrap();
    let body = jobs::get(
        &mut store,
        &mut server,
        Some(&test_node_type.uuid.hyphenated()),
        Some(&test_job.uuid.hyphenated()),
    )
    .unwrap();
    test_job.enqueued_at = body.enqueued_at;
    test_job.started_at = body.started_at;
    test_job.ended_at = body.ended_at;
    test_job.executing_node = body.executing_node;
    test_job.results = Some(Json::Text("output".to_string()));
    test_job.errors = Some(Json::Text("errors".to_string()));
    assert_eq!(body, test_job);
    assert_eq!(
        jobs::get(
            &mut store,
            &mut server,
            Some(&test_node_type.uuid.hyphenated()),
            Some(&Uuid::new_v4().hyphenated())
        ),
        Err(Status::NotFound)
    );
}

fn job_type_for(server: &mut MemoryServer, store: &RedisStore, node_type: &str) -> JobType {
    let job_type = JobType {
        executor: "bash".to_string(),
        name: "test".to_string(),
        node_type: node_type.to_string(),
        timeout: None,
        unique: false,
        uuid: Uuid::new_v4(),
        metadata: vec![("command".to_string(), Json::Text("echo 'test'".to_string()))],
    };
    store.new_job_type(server, &job_type).unwrap();
    job_type
}

#[test]
fn test_jobs_post() {
    let (mut server, mut store, test_node_type) = started();
    let test_job_type = job_type_for(&mut server, &store, &test_node_type.name);

    let test_job = jobs::PostBody { job_type_uuid: test_job_type.uuid, arguments: Vec::new() };
    let test_job_serialized = test_job.to_text();
    let posted = jobs::PostBody::from_text(&test_job_serialized).unwrap();
    let body = jobs::post(&store, &mut server, &posted).unwrap();
    assert_eq!(body.status, "ok");
    let new_job = store.dequeue_job(&mut server).unwrap();
    assert_eq!(Some(new_job.uuid), body.uuid);
    assert_eq!(new_job.job_type_uuid, test_job_type.uuid);
    assert_eq!(new_job.arguments, test_job.arguments);
}

#[test]
fn posted_job_goes_to_the_queue_of_the_node_type_that_its_job_type_names() {
    let (mut server, mut store, own) = started();
    let other = NodeType { name: "batch".to_string(), uuid: Uuid::new_v4(), thread_count: 2 };
    store.new_node_type(&mut server, &other).unwrap();
    let job_type = job_type_for(&mut server, &store, "batch");
    let arguments = vec![("command".to_string(), Json::Text("x".to_string()))];
    let asked = jobs::PostBody { job_type_uuid: job_type.uuid, arguments: arguments.clone() };
    let answer = jobs::post(&store, &mut server, &asked).unwrap();
    assert_eq!(answer.status, "ok");
    let own_queue = format!("jobs_waiting_{}", own.uuid.hyphenated());
    let other_queue = format!("jobs_waiting_{}", other.uuid.hyphenated());
    assert_eq!(server.lrange(&own_queue), Ok(vec![]));
    let waiting = server.lrange(&other_queue).unwrap();
    assert_eq!(waiting.len(), 1);
    let job = Job::from_text(&waiting[0]).unwrap();
    assert_eq!(Some(job.uuid), answer.uuid);
    assert_eq!(job.job_type_uuid, job_type.uuid);
    assert_eq!(job.arguments, arguments);
    assert!(job.enqueued_at.is_some());
    assert_eq!((job.started_at, job.executing_node), (None, None));
    assert_eq!(store.get_node().node_type_uuid, Some(own.uuid));
    assert_eq!(store.get_all_jobs_waiting(&mut server).unwrap(), vec![]);
}

#[test]
fn posted_job_without_a_place_to_go_is_refused() {
    let (mut server, store, own) = started();
    let own_queue = format!("jobs_waiting_{}", own.uuid.hyphenated());
    let orphan = jobs::PostBody { job_type_uuid: Uuid::new_v4(), arguments: Vec::new() };
    assert_eq!(jobs::post(&store, &mut server, &orphan), Err(Status::NotFound));
    let job_type = job_type_for(&mut server, &store, "nowhere");
    let stray = jobs::PostBody { job_type_uuid: job_type.uuid, arguments: Vec::new() };
    assert_eq!(jobs::post(&store, &mut server, &stray), Err(Status::NotFound));
    assert_eq!(server.lrange(&own_queue), Ok(vec![]));
    server.hset("job_types", &job_type.uuid.hyphenated(), "{}").unwrap();
    assert_eq!(jobs::post(&store, &mut server, &stray), Err(Status::InternalServerError));
    assert_eq!(server.lrange(&own_queue), Ok(vec![]));
}

#[test]
fn store_is_bound_back_when_the_jobs_cannot_be_read() {
    let (mut server, mut store, own) = started();
    let other = NodeType { name: "batch".to_string(), uuid: Uuid::new_v4(), thread_count: 2 };
    store.new_node_type(&mut server, &other).unwrap();
    let written = server.hget("nodes", &store.get_node().uuid.hyphenated()).unwrap();
    let finished = format!("jobs_finished_{}", other.uuid.hyphenated());
    server.hset(&finished, "x", "not a job").unwrap();
    let arg = other.uuid.hyphenated();
    assert_eq!(
        jobs::index_finished(&mut store, &mut server, Some(&arg)),
        Err(Status::InternalServerError)
    );
    assert_eq!(store.get_node().node_type_uuid, Some(own.uuid));
    assert_eq!(store.get_node().node_type, Some(own.clone()));
    assert_eq!(server.hget("nodes", &store.get_node().uuid.hyphenated()).unwrap(), written);
    assert_eq!(
        jobs::get(&mut store, &mut server, Some(&arg), Some(&Uuid::new_v4().hyphenated())),
        Err(Status::NotFound)
    );
    assert_eq!(store.get_node().node_type_uuid, Some(own.uuid));
    let waiting = format!("jobs_waiting_{}", other.uuid.hyphenated());
    server.rpush(&waiting, "{").unwrap();
    assert_eq!(
        jobs::index_queued(&mut store, &mut server, Some(&arg)),
        Err(Status::InternalServerError)
    );
    assert_eq!(store.get_node().node_type_uuid, Some(own.uuid));
    assert_eq!(jobs::index_in_progress(&mut store, &mut server, Some(&arg)).unwrap().jobs, vec![]);
    assert_eq!(store.get_node().node_type_uuid, Some(own.uuid));
}

#[test]
fn store_whose_own_node_type_is_gone_stays_bound_to_the_other() {
    let (mut server, mut store, own) = started();
    let other = NodeType { name: "batch".to_string(), uuid: Uuid::new_v4(), thread_count: 2 };
    store.new_node_type(&mut server, &other).unwrap();
    server.hdel("node_types", &own.uuid.hyphenated()).unwrap();
    let arg = other.uuid.hyphenated();
    assert_eq!(jobs::index_queued(&mut store, &mut server, Some(&arg)), Err(Status::NotFound));
    assert_eq!(store.get_node().node_type_uuid, Some(other.uuid));
}

#[test]
fn node_type_that_asks_for_no_worker_is_refused() {
    let mut server = MemoryServer::new();
    let store = RedisStore::connect(&mut server).unwrap();
    let idle = NodeType { name: "idle".to_string(), uuid: Uuid::new_v4(), thread_count: 0 };
    assert!(!idle.is_valid());
    let arg = idle.uuid.hyphenated();
    assert_eq!(node_types::post(&store, &mut server, Some(&arg), &idle), Err(Status::BadRequest));
    assert_eq!(server.hget("node_types", &arg), Ok(None));
    assert_eq!(store.get_node_types(&mut server), Ok(vec![]));
    let busy = NodeType { name: "busy".to_string(), uuid: idle.uuid, thread_count: 1 };
    assert!(busy.is_valid());
    assert!(node_types::post(&store, &mut server, Some(&arg), &busy).is_ok());
    assert_eq!(store.get_node_types(&mut server), Ok(vec![busy]));
}

#[test]
fn jobs_of_another_node_type_are_read_and_the_binding_is_put_back() {
    let (mut server, mut store, own) = started();
    let other = make_node_type(&mut server, &store).unwrap();
    let mut there = RedisStore::connect(&mut server).unwrap();
    there.set_node_type(&mut server, other.uuid).unwrap();
    let test_job_type = make_job_type(&mut server, &store).unwrap();
    let far = make_job(&mut server, &there, &test_job_type).unwrap();
    let written_before = server.hget("nodes", &store.get_node().uuid.hyphenated()).unwrap();
    let body = jobs::index_queued(&mut store, &mut server, Some(&other.uuid.hyphenated())).unwrap();
    assert_eq!(body.jobs.len(), 1);
    assert_eq!(body.jobs[0].uuid, far.uuid);
    assert_eq!(store.get_node().node_type_uuid, Some(own.uuid));
    assert_eq!(store.get_node().node_type, Some(own.clone()));
    assert_eq!(server.hget("nodes", &store.get_node().uuid.hyphenated()).unwrap(), written_before);
    let own_arg = own.uuid.hyphenated();
    assert_eq!(jobs::index_queued(&mut store, &mut server, Some(&own_arg)).unwrap().jobs, vec![]);
    let unknown = Uuid::new_v4().hyphenated();
    assert_eq!(jobs::index_queued(&mut store, &mut server, Some(&unknown)), Err(Status::NotFound));
    assert_eq!(jobs::index_finished(&mut store, &mut server, Some("x")), Err(Status::BadRequest));
    assert_eq!(store.get_node().node_type_uuid, Some(own.uuid));
}

#[test]
fn test_schedule_item_index() {
    let (mut server, store, _) = started();
    let test_job_type = make_job_type(&mut server, &store).unwrap();
    let test_schedule = make_schedule_item(&mut server, &store, test_job_type.uuid).unwrap();
    let body = schedule::index(&store, &mut server).unwrap();
    assert_eq!(body, schedule::IndexResponse { schedules: vec![test_schedule] });
}

#[test]
fn test_schedule_item_get() {
    let (mut server, store, _) = started();
    let test_job_type = make_job_type(&mut server, &store).unwrap();
    let test_schedule = make_schedule_item(&mut server, &store, test_job_type.uuid).unwrap();
    let body = schedule::get(&store, &mut server, Some(&test_schedule.uuid.hyphenated())).unwrap();
    assert_eq!(body, test_schedule);
}

#[test]
fn test_schedule_item_post() {
    let (mut server, store, _) = started();
    let test_job_type = make_job_type(&mut server, &store).unwrap();
    let test_schedule_item = schedule::PostBody {
        interval: 1000,
        job_type_uuid: test_job_type.uuid,
        job_arguments: Vec::new(),
    };
    let test_schedule_item_serialized = test_schedule_item.to_text();
    let posted = schedule::PostBody::from_text(&test_schedule_item_serialized).unwrap();
    let body = schedule::post(&store, &mut server, &posted).unwrap();
    assert_eq!(body.status, "ok");
    let new_job = store.get_job_schedule_item(&mut server, body.uuid.unwrap()).unwrap().unwrap();
    assert_eq!(
        new_job,
        ScheduleItem {
            uuid: body.uuid.unwrap(),
            interval: test_schedule_item.interval,
            job_type_uuid: test_schedule_item.job_type_uuid,
            job_arguments: test_schedule_item.job_arguments,
            last_scheduled_at: None,
            last_scheduled_by: None,
        }
    );
    let orphan =
        schedule::PostBody { interval: 1, job_type_uuid: Uuid::new_v4(), job_arguments: Vec::new() };
    assert_eq!(schedule::post(&store, &mut server, &orphan), Err(Status::NotFound));
}

#[test]
fn test_schedule_item_delete() {
    let (mut server, store, _) = started();
    let test_job_type = make_job_type(&mut server, &store).unwrap();
    let test_schedule = make_schedule_item(&mut server, &store, test_job_type.uuid).unwrap();
    let response = schedule::delete(&store, &mut server, Some(&test_schedule.uuid.hyphenated()));
    assert_eq!(response, Ok(PostResponse { status: "ok".to_string(), uuid: Some(test_schedule.uuid) }));
    assert_eq!(store.get_job_schedule_item(&mut server, test_schedule.uuid).unwrap(), None);
    assert_eq!(schedule::delete(&store, &mut server, Some("1-2-3")), Err(Status::BadRequest));
}

#[test]
fn statuses_have_their_numbers() {
    assert_eq!(Status::BadRequest.code(), 400);
    assert_eq!(Status::Unauthorized.code(), 401);
    assert_eq!(Status::NotFound.code(), 404);
    assert_eq!(Status::UnsupportedMediaType.code(), 415);
    assert_eq!(Status::InternalServerError.code(), 500);
    assert_eq!(status_error::<u8>(Status::NotFound), Err(Status::NotFound));
}

#[test]
fn failures_are_answered_with_statuses() {
    assert_eq!(get_uuid_from_arg(None), Err(Status::BadRequest));
    assert_eq!(get_uuid_from_arg(Some("")), Err(Status::BadRequest));
    assert_eq!(
        get_uuid_from_arg(Some("a1a2a3a4-b1b2-c1c2-d1d2-d3d4d5d6d7d8")),
        Ok(Uuid::from_u128(0xa1a2a3a4b1b2c1c2d1d2d3d4d5d6d7d8))
    );
    assert_eq!(
        get_uuid_from_arg(Some("A1A2A3A4B1B2C1C2D1D2D3D4D5D6D7D8")),
        Ok(Uuid::from_u128(0xa1a2a3a4b1b2c1c2d1d2d3d4d5d6d7d8))
    );
    assert_eq!(redis_error_translate(Ok::<u8, StoreError>(3)), Ok(3));
    assert_eq!(
        redis_error_translate::<u8>(Err(StoreError::Server("down".to_string()))),
        Err(Status::InternalServerError)
    );
    assert_eq!(option_translate(Some(3)), Ok(3));
    assert_eq!(option_translate::<u8>(None), Err(Status::NotFound));
}

#[test]
fn requests_need_the_key_and_posts_need_json() {
    let auth = ApiAuth {};
    assert_eq!(auth.before(Some("dev_key"), "dev_key"), Ok(()));
    assert_eq!(auth.before(Some("dev_key "), "dev_key"), Err(Status::Unauthorized));
    assert_eq!(auth.before(Some(""), "dev_key"), Err(Status::Unauthorized));
    assert_eq!(auth.before(None, "dev_key"), Err(Status::Unauthorized));
    let json = AssertJson {};
    assert_eq!(json.before(true, Some(true)), Ok(()));
    assert_eq!(json.before(true, Some(false)), Err(Status::UnsupportedMediaType));
    assert_eq!(json.before(true, None), Err(Status::UnsupportedMediaType));
    assert_eq!(json.before(false, None), Ok(()));
    assert_eq!(json.before(false, Some(false)), Ok(()));
}

#[test]
fn bodies_are_read_as_json_or_refused() {
    assert_eq!(serialize_wrap().handle(None), Ok(None));
    assert_eq!(json_wrap().handle(None), Err(Status::BadRequest));
    assert_eq!(json_wrap().handle(Some("{\"a\":[1,-2,2.5]")), Err(Status::BadRequest));
    assert_eq!(serialize_wrap().handle(Some("{")), Err(Status::BadRequest));
    assert_eq!(json_wrap().handle(Some("true")), Ok(Some(Json::Bool(true))));
    assert_eq!(required(Some(1)), Ok(1));
    assert_eq!(required::<u8>(None), Err(Status::BadRequest));
    assert_eq!(job_types::PostBody::from_json(&Json::Bool(true)), None);
    assert_eq!(jobs::PostBody::from_json(&Json::Object(vec![])), None);
}
