use jobfleet::exec::job::Job;
use jobfleet::exec::job_type::JobType;
use jobfleet::exec::node_type::NodeType;
use jobfleet::ident::Uuid;
use jobfleet::json::Json;
use jobfleet::store::memory::MemoryServer;
use jobfleet::store::redis::{redis_hcheck_set, RedisStore};
use jobfleet::store::server::{check_set_script, Server};

fn node_type(server: &mut MemoryServer, store: &RedisStore, name: &str) -> NodeType {
    let made = NodeType { name: name.to_string(), uuid: Uuid::new_v4(), thread_count: 2 };
    store.new_node_type(server, &made).unwrap();
    made
}

fn job_type(server: &mut MemoryServer, store: &RedisStore) -> JobType {
    let made = JobType {
        executor: "bash".to_string(),
        name: "test".to_string(),
        node_type: "default".to_string(),
        timeout: Some(10),
        unique: true,
        uuid: Uuid::new_v4(),
        metadata: vec![("command".to_string(), Json::Text("true".to_string()))],
    };
    store.new_job_type(server, &made).unwrap();
    made
}

fn job(job_type: &JobType) -> Job {
    Job {
        uuid: Uuid::new_v4(),
        job_type_uuid: job_type.uuid,
        job_type: None,
        arguments: Vec::new(),
        executing_node: None,
        enqueued_at: None,
        started_at: None,
        ended_at: None,
        results: None,
        errors: None,
    }
}

#[test]
fn job_is_seen_only_by_nodes_of_its_node_type() {
    let mut server = MemoryServer::new();
    let mut here = RedisStore::connect(&mut server).unwrap();
    let mut there = RedisStore::connect(&mut server).unwrap();
    let one = node_type(&mut server, &here, "one");
    let other = node_type(&mut server, &here, "other");
    here.set_node_type(&mut server, one.uuid).unwrap();
    there.set_node_type(&mut server, other.uuid).unwrap();
    let kind = job_type(&mut server, &here);
    let made = job(&kind);
    here.enqueue_job(&mut server, made.clone()).unwrap();
    assert_eq!(there.get_all_jobs_waiting(&mut server).unwrap(), vec![]);
    assert!(there.dequeue_job(&mut server).is_err());
    assert_eq!(there.get_all_jobs_in_progress(&mut server).unwrap(), vec![]);
    let seen = here.get_all_jobs_waiting(&mut server).unwrap();
    assert_eq!(seen.len(), 1);
    assert_eq!(seen[0].uuid, made.uuid);
    assert_eq!(
        server.lrange(&format!("jobs_waiting_{}", one.uuid.hyphenated())).unwrap().len(),
        1
    );
    assert_eq!(
        server.lrange(&format!("jobs_waiting_{}", other.uuid.hyphenated())).unwrap().len(),
        0
    );
}

#[test]
fn job_is_in_one_place_at_a_time() {
    let mut server = MemoryServer::new();
    let mut store = RedisStore::connect(&mut server).unwrap();
    let bound = node_type(&mut server, &store, "one");
    store.set_node_type(&mut server, bound.uuid).unwrap();
    let kind = job_type(&mut server, &store);
    let made = job(&kind);
    let places = |server: &mut MemoryServer, store: &mut RedisStore| {
        let count = |jobs: Vec<Job>| jobs.iter().filter(|j| j.uuid == made.uuid).count();
        (
            count(store.get_all_jobs_waiting(server).unwrap()),
            count(store.get_all_jobs_in_progress(server).unwrap()),
            count(store.get_all_jobs_finished(server).unwrap()),
        )
    };
    assert_eq!(places(&mut server, &mut store), (0, 0, 0));
    store.enqueue_job(&mut server, made.clone()).unwrap();
    assert_eq!(places(&mut server, &mut store), (1, 0, 0));
    let taken = store.dequeue_job(&mut server).unwrap();
    assert_eq!(places(&mut server, &mut store), (0, 1, 0));
    store.finish_job(&mut server, taken, None, None).unwrap();
    assert_eq!(places(&mut server, &mut store), (0, 0, 1));
}

#[test]
fn queue_is_first_in_first_out() {
    let mut server = MemoryServer::new();
    let mut store = RedisStore::connect(&mut server).unwrap();
    let bound = node_type(&mut server, &store, "one");
    store.set_node_type(&mut server, bound.uuid).unwrap();
    let kind = job_type(&mut server, &store);
    let (first, second, third) = (job(&kind), job(&kind), job(&kind));
    for made in [&first, &second, &third] {
        store.enqueue_job(&mut server, made.clone()).unwrap();
    }
    let order: Vec<Uuid> =
        store.get_all_jobs_waiting(&mut server).unwrap().iter().map(|j| j.uuid).collect();
    assert_eq!(order, vec![first.uuid, second.uuid, third.uuid]);
    assert_eq!(store.dequeue_job(&mut server).unwrap().uuid, first.uuid);
    assert_eq!(store.dequeue_job(&mut server).unwrap().uuid, second.uuid);
    assert_eq!(store.dequeue_job(&mut server).unwrap().uuid, third.uuid);
}

#[test]
fn check_and_set_writes_only_what_is_expected() {
    let mut server = MemoryServer::new();
    let call = |server: &mut MemoryServer, old: Option<&str>, new: Option<&str>| {
        redis_hcheck_set(
            server,
            "h".to_string(),
            "f".to_string(),
            old.map(|s| s.to_string()),
            new.map(|s| s.to_string()),
        )
    };
    assert_eq!(call(&mut server, Some("a"), Some("b")), Ok(false));
    assert_eq!(server.hget("h", "f"), Ok(None));
    assert_eq!(call(&mut server, None, Some("a")), Ok(true));
    assert_eq!(server.hget("h", "f"), Ok(Some("a".to_string())));
    assert_eq!(call(&mut server, None, Some("x")), Ok(false));
    assert_eq!(call(&mut server, Some("a"), Some("b")), Ok(true));
    assert_eq!(call(&mut server, Some("a"), Some("c")), Ok(false));
    assert_eq!(server.hget("h", "f"), Ok(Some("b".to_string())));
    assert_eq!(call(&mut server, Some("b"), None), Ok(true));
    assert_eq!(server.hget("h", "f"), Ok(Some("false".to_string())));
    assert_eq!(call(&mut server, None, Some("again")), Ok(true));
    assert_eq!(server.hget("h", "f"), Ok(Some("again".to_string())));
}

#[test]
fn script_compares_and_sets_inside_the_server() {
    let script = check_set_script();
    assert!(script.contains("redis.call('hget', KEYS[1], KEYS[2])"));
    assert!(script.contains("if c == ARGV[1] then"));
    assert!(script.contains("redis.call('hset', KEYS[1], KEYS[2], ARGV[2])"));
    assert!(script.contains("return 'true'"));
    assert!(script.ends_with("return 'false';\n"));
}

#[test]
fn memory_server_keeps_hashes_and_lists() {
    let mut server = MemoryServer::new();
    assert_eq!(server.hgetall("h"), Ok(vec![]));
    server.hset("h", "a", "1").unwrap();
    server.hset("h", "b", "2").unwrap();
    server.hset("h", "a", "3").unwrap();
    server.hset("other", "a", "9").unwrap();
    let mut listed = server.hgetall("h").unwrap();
    assert_eq!(listed.len(), 4);
    let mut pairs: Vec<(String, String)> =
        listed.chunks(2).map(|pair| (pair[0].clone(), pair[1].clone())).collect();
    pairs.sort();
    assert_eq!(pairs, vec![("a".to_string(), "3".to_string()), ("b".to_string(), "2".to_string())]);
    server.hdel("h", "a").unwrap();
    server.hdel("h", "missing").unwrap();
    listed = server.hgetall("h").unwrap();
    assert_eq!(listed, vec!["b".to_string(), "2".to_string()]);
    assert_eq!(server.hget("other", "a"), Ok(Some("9".to_string())));
    server.rpush("l", "x").unwrap();
    server.rpush("l", "y").unwrap();
    assert_eq!(server.lrange("l"), Ok(vec!["x".to_string(), "y".to_string()]));
    assert_eq!(server.blpop("l"), Ok("x".to_string()));
    assert_eq!(server.blpop("l"), Ok("y".to_string()));
    assert!(server.blpop("l").is_err());
    assert_eq!(server.lrange("l"), Ok(vec![]));
    server.flushdb().unwrap();
    assert_eq!(server.hgetall("h"), Ok(vec![]));
    assert_eq!(server.hget("other", "a"), Ok(None));
}

#[test]
fn repeated_pings_change_the_time_alone() {
    let mut server = MemoryServer::new();
    let mut store = RedisStore::connect(&mut server).unwrap();
    let bound = node_type(&mut server, &store, "one");
    store.set_node_type(&mut server, bound.uuid).unwrap();
    let before = store.get_node().clone();
    for _ in 0..3 {
        store.ping(&mut server).unwrap();
        let mut now = store.get_node().clone();
        assert!(now.last_ping >= before.last_ping);
        now.last_ping = before.last_ping;
        assert_eq!(now, before);
    }
    assert_eq!(store.ping_interval, 5000);
}
