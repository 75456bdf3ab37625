//! The store of one node: the node's own record, and the operations that
//! keep the records of the fleet in the key/value server.
//!
//! | Key | Kind | Holds |
//! |---|---|---|
//! | `nodes` | hash | a node under its identifier |
//! | `node_types` | hash | a node type under its identifier |
//! | `job_types` | hash | a job type under its identifier |
//! | `schedule_items` | hash | a schedule item under its identifier |
//! | `jobs_waiting_<node type>` | list | the jobs that wait, oldest first |
//! | `jobs_in_progress_<node type>` | hash | a job in progress under its identifier |
//! | `jobs_finished_<node type>` | hash | a finished job under its identifier |

use crate::exec::job::{Job, JobView};
use crate::exec::job_type::{JobType, JobTypeView};
use crate::exec::node::{Node, NodeView};
use crate::exec::node_type::NodeType;
use crate::ident::{hyphenated_text, Uuid};
use crate::json::{json_text, Json, JsonView};
use crate::scheduler::{ScheduleItem, ScheduleItemView};
use crate::store::record::{
    agrees, agrees_all, checked, decoded, lemma_records_each, lemma_records_kind,
    lemma_records_of_texts_kind,
    read_checked, read_listing, read_record, read_texts, records, records_of_texts, views, Record,
};
use crate::store::server::{
    absent_text, lines_view, opt_text_view, pairs_of, Server, ServerState,
};
use crate::store::{ErrorKind, StoreError};
use crate::util::time::epoch;
use std::collections::HashMap;
use vstd::prelude::*;

verus! {

/// The hash of the nodes.
pub open spec fn nodes_key() -> Seq<char> {
    "nodes"@
}

/// The hash of the node types.
pub open spec fn node_types_key() -> Seq<char> {
    "node_types"@
}

/// The hash of the job types.
pub open spec fn job_types_key() -> Seq<char> {
    "job_types"@
}

/// The hash of the schedule items.
pub open spec fn schedule_items_key() -> Seq<char> {
    "schedule_items"@
}

/// The list of the jobs that wait for a node of the given node type.
pub open spec fn waiting_key(node_type: Uuid) -> Seq<char> {
    "jobs_waiting_"@ + hyphenated_text(node_type.value)
}

/// The hash of the jobs in progress on the nodes of the given node type.
pub open spec fn in_progress_key(node_type: Uuid) -> Seq<char> {
    "jobs_in_progress_"@ + hyphenated_text(node_type.value)
}

/// The hash of the jobs that the nodes of the given node type have finished.
pub open spec fn finished_key(node_type: Uuid) -> Seq<char> {
    "jobs_finished_"@ + hyphenated_text(node_type.value)
}

/// Milliseconds after its last sign of life during which a node counts as alive.
pub const LIVENESS_WINDOW_MS: u64 = 20000;

/// Milliseconds between two signs of life of a node.
pub const PING_INTERVAL_MS: u32 = 5000;

/// Whether a node that last gave a sign of life at `last_ping` counts as
/// alive at `now`.
pub open spec fn is_live(last_ping: u64, now: u64) -> bool {
    last_ping + LIVENESS_WINDOW_MS >= now
}

/// The nodes of a list that count as alive at `now`, in their order.
pub open spec fn live_nodes(nodes: Seq<NodeView>, now: u64) -> Seq<NodeView>
    decreases nodes.len(),
{
    if nodes.len() == 0 {
        Seq::empty()
    } else if is_live(nodes.last().last_ping, now) {
        live_nodes(nodes.drop_last(), now).push(nodes.last())
    } else {
        live_nodes(nodes.drop_last(), now)
    }
}

/// A node is among the nodes that count as alive exactly where it is
/// among the nodes and its last sign of life is no more than the window
/// back: a node that is older is left out.
pub proof fn lemma_live_nodes(nodes: Seq<NodeView>, now: u64, node: NodeView)
    ensures
        live_nodes(nodes, now).contains(node) <==> nodes.contains(node) && is_live(
            node.last_ping,
            now,
        ),
    decreases nodes.len(),
{
    if nodes.len() > 0 {
        let before = nodes.drop_last();
        lemma_live_nodes(before, now, node);
        let kept = live_nodes(before, now);
        if nodes.contains(node) {
            let i = choose|i: int| 0 <= i < nodes.len() && nodes[i] == node;
            if i < before.len() {
                assert(before[i] == node);
            }
        }
        if before.contains(node) {
            let i = choose|i: int| 0 <= i < before.len() && before[i] == node;
            assert(nodes[i] == node);
        }
        if is_live(nodes.last().last_ping, now) {
            let longer = kept.push(nodes.last());
            assert(longer[longer.len() - 1] == nodes.last());
            if longer.contains(node) {
                let i = choose|i: int| 0 <= i < longer.len() && longer[i] == node;
                if i < kept.len() {
                    assert(kept[i] == node);
                }
            }
            if kept.contains(node) {
                let i = choose|i: int| 0 <= i < kept.len() && kept[i] == node;
                assert(longer[i] == node);
            }
        }
        assert(nodes[nodes.len() - 1] == nodes.last());
    }
}

/// Whether an operation failed because the server did.
pub open spec fn server_failed<T>(r: Result<T, StoreError>) -> bool {
    r matches Err(error) && error.kind() is Server
}

/// What looking a record up under its identifier gives: nothing where the
/// field is not set, and else the record that stands there.
pub open spec fn found<R: Record>(state: ServerState, key: Seq<char>, id: Uuid) -> Result<
    Option<R::V>,
    ErrorKind,
> {
    match state.hget(key, hyphenated_text(id.value)) {
        None => Ok(None),
        Some(text) => match checked::<R>(hyphenated_text(id.value), text) {
            Ok(record) => Ok(Some(record)),
            Err(kind) => Err(kind),
        },
    }
}

/// Like `found`, for a hash whose readers do not check the field against
/// the identifier in the record.
pub open spec fn found_unchecked<R: Record>(state: ServerState, key: Seq<char>, id: Uuid) -> Result<
    Option<R::V>,
    ErrorKind,
> {
    match state.hget(key, hyphenated_text(id.value)) {
        None => Ok(None),
        Some(text) => match decoded::<R>(text) {
            Ok(record) => Ok(Some(record)),
            Err(kind) => Err(kind),
        },
    }
}

/// Whether an outcome that may be no record is the one wanted.
pub open spec fn agrees_opt<R: Record>(
    r: Result<Option<R>, StoreError>,
    wanted: Result<Option<R::V>, ErrorKind>,
) -> bool {
    match wanted {
        Ok(Some(record)) => r matches Ok(Some(got)) && got@ == record,
        Ok(None) => r matches Ok(None),
        Err(kind) => r matches Err(error) && error.kind() == kind,
    }
}

/// Reads the record that stands under an identifier.
pub fn fetch<R: Record, C: Server>(conn: &mut C, key: &str, id: Uuid, check: bool) -> (r: Result<
    Option<R>,
    StoreError,
>)
    ensures
        final(conn).reliable() == old(conn).reliable(),
        server_failed(r) ==> !old(conn).reliable(),
        !server_failed(r) ==> final(conn).state() == old(conn).state() && agrees_opt(
            r,
            if check {
                found::<R>(old(conn).state(), key@, id)
            } else {
                found_unchecked::<R>(old(conn).state(), key@, id)
            },
        ),
{
    let field = id.hyphenated();
    match conn.hget(key, field.as_str()) {
        Err(message) => Err(StoreError::Server(message)),
        Ok(None) => Ok(None),
        Ok(Some(text)) => {
            let read = if check {
                read_checked::<R>(&field, text.as_str())
            } else {
                read_record::<R>(text.as_str())
            };
            match read {
                Ok(record) => Ok(Some(record)),
                Err(error) => Err(error),
            }
        },
    }
}

/// Reads all the records of a hash.
pub fn fetch_all<R: Record, C: Server>(conn: &mut C, key: &str) -> (r: Result<Vec<R>, StoreError>)
    ensures
        final(conn).reliable() == old(conn).reliable(),
        server_failed(r) ==> !old(conn).reliable(),
        !server_failed(r) ==> final(conn).state() == old(conn).state() && exists|
            flat: Seq<Seq<char>>,
        |
            old(conn).state().listed(key@, flat) && agrees_all(
                r,
                #[trigger] records::<R>(pairs_of(flat)),
            ),
{
    match conn.hgetall(key) {
        Err(message) => Err(StoreError::Server(message)),
        Ok(flat) => {
            let r = read_listing::<R>(&flat);
            proof {
                lemma_records_kind::<R>(pairs_of(lines_view(flat@)));
                assert(agrees_all(r, records::<R>(pairs_of(lines_view(flat@)))));
            }
            r
        },
    }
}

/// Writes a record under its identifier.
pub fn store_record<R: Record, C: Server>(conn: &mut C, key: &str, record: &R) -> (r: Result<
    (),
    StoreError,
>)
    ensures
        final(conn).reliable() == old(conn).reliable(),
        old(conn).reliable() ==> r is Ok,
        r is Err ==> server_failed(r),
        r is Ok ==> final(conn).state() == old(conn).state().hset(
            key@,
            hyphenated_text(R::id_of(record@).value),
            json_text(R::written(record@)),
        ),
{
    let field = record.id().hyphenated();
    let text = record.write();
    match conn.hset(key, field.as_str(), text.as_str()) {
        Err(message) => Err(StoreError::Server(message)),
        Ok(()) => Ok(()),
    }
}

/// Writes a field only where it holds what the caller expects. An absent
/// text, expected or new, is the word `false`: that is what the script sees
/// in a field that is not set.
pub fn redis_hcheck_set<C: Server>(
    connection: &mut C,
    key: String,
    hkey: String,
    old_value: Option<String>,
    new_value: Option<String>,
) -> (r: Result<bool, String>)
    ensures
        final(connection).reliable() == old(connection).reliable(),
        old(connection).reliable() ==> r is Ok,
        r matches Ok(wrote) ==> wrote == old(connection).state().check(
            key@,
            hkey@,
            sentinel(opt_text_view(old_value)),
        ) && final(connection).state() == old(connection).state().check_set(
            key@,
            hkey@,
            sentinel(opt_text_view(old_value)),
            sentinel(opt_text_view(new_value)),
        ),
{
    let expected = match old_value {
        Some(text) => text,
        None => String::from_str("false"),
    };
    let new = match new_value {
        Some(text) => text,
        None => String::from_str("false"),
    };
    match connection.check_set(key.as_str(), hkey.as_str(), expected.as_str(), new.as_str()) {
        Err(message) => Err(message),
        Ok(answer) => {
            let answer = match answer {
                Some(answer) => answer,
                None => String::from_str("false"),
            };
            proof {
                reveal_strlit("true");
                reveal_strlit("false");
                assert("true"@.len() != "false"@.len());
            }
            Ok(answer == String::from_str("true"))
        },
    }
}

/// A text as the check-and-set script takes it.
pub open spec fn sentinel(text: Option<Seq<char>>) -> Seq<char> {
    match text {
        Some(text) => text,
        None => absent_text(),
    }
}

fn prefixed(prefix: &str, id: Uuid) -> (key: String)
    ensures
        key@ == prefix@ + hyphenated_text(id.value),
{
    let mut key = String::from_str(prefix);
    key.append(id.hyphenated().as_str());
    key
}

/// Whether a node that last gave a sign of life at `last_ping` counts as alive at `now`.
pub fn live(last_ping: u64, now: u64) -> (r: bool)
    ensures
        r == is_live(last_ping, now),
{
    now <= LIVENESS_WINDOW_MS || last_ping >= now - LIVENESS_WINDOW_MS
}

/// Drops the nodes that no longer count as alive at `now`.
pub fn keep_live(nodes: Vec<Node>, now: u64) -> (kept: Vec<Node>)
    ensures
        views(kept@) == live_nodes(views(nodes@), now),
{
    let ghost all = views(nodes@);
    let mut kept: Vec<Node> = Vec::new();
    let mut i: usize = 0;
    proof {
        assert(all.subrange(0, 0) =~= Seq::empty());
        assert(views(kept@) =~= Seq::empty());
    }
    while i < nodes.len()
        invariant
            i <= nodes.len(),
            all == views(nodes@),
            views(kept@) == live_nodes(all.subrange(0, i as int), now),
        decreases nodes.len() - i,
    {
        let ghost before = views(kept@);
        proof {
            let upto = all.subrange(0, i + 1);
            assert(upto.drop_last() =~= all.subrange(0, i as int));
            assert(upto.last() == all[i as int]);
        }
        if live(nodes[i].last_ping, now) {
            kept.push(nodes[i].clone());
            proof {
                assert(views(kept@) =~= before.push(all[i as int]));
            }
        }
        i += 1;
    }
    proof {
        assert(all.subrange(0, nodes.len() as int) =~= all);
    }
    kept
}

/// The store of one node.
#[derive(Debug, PartialEq)]
pub struct RedisStore {
    /// The record of this node.
    pub node: Node,
    /// Milliseconds between two signs of life of this node.
    pub ping_interval: u32,
    /// The job types that this node has looked up so far, each under the
    /// value of the identifier it was looked up by. Nothing is ever taken
    /// out.
    pub job_types: HashMap<u128, JobType>,
}

/// The job types that a node remembers, each by its value and under the
/// identifier it was looked up by.
pub open spec fn cache_view(cache: Map<u128, JobType>) -> Map<Uuid, JobTypeView> {
    Map::new(|id: Uuid| cache.contains_key(id.value), |id: Uuid| cache[id.value]@)
}

/// The job type that a node remembers under an identifier.
pub open spec fn cached(cache: Map<Uuid, JobTypeView>, id: Uuid) -> Option<JobTypeView> {
    if cache.contains_key(id) {
        Some(cache[id])
    } else {
        None
    }
}

/// The job type that a node takes an identifier for: the one it remembers,
/// and else the one that the server holds.
pub open spec fn job_type_for(
    state: ServerState,
    cache: Map<Uuid, JobTypeView>,
    id: Uuid,
) -> Result<
    JobTypeView,
    ErrorKind,
> {
    match cached(cache, id) {
        Some(job_type) => Ok(job_type),
        None => match found::<JobType>(state, job_types_key(), id) {
            Ok(Some(job_type)) => Ok(job_type),
            Ok(None) => Err(ErrorKind::InvalidJobType(id)),
            Err(kind) => Err(kind),
        },
    }
}

/// Whether a node that remembered `before` and now remembers `after` has
/// forgotten nothing, and takes every identifier for what it took it for.
pub open spec fn remembers(
    state: ServerState,
    before: Map<Uuid, JobTypeView>,
    after: Map<Uuid, JobTypeView>,
) -> bool {
    forall|id: Uuid|
        (#[trigger] job_type_for(state, after, id)) == job_type_for(state, before, id) && (cached(
            before,
            id,
        ) is Some ==> cached(after, id) == cached(before, id))
}

/// A job with the job type that a node takes its `job_type_uuid` for.
pub open spec fn hydrated_one(
    job: JobView,
    state: ServerState,
    cache: Map<Uuid, JobTypeView>,
) -> Result<
    JobView,
    ErrorKind,
> {
    match job_type_for(state, cache, job.job_type_uuid) {
        Ok(job_type) => Ok(JobView { job_type: Some(job_type), ..job }),
        Err(kind) => Err(kind),
    }
}

/// Jobs with their job types, or the failure of the first job whose job
/// type cannot be had.
pub open spec fn hydrated(
    jobs: Seq<JobView>,
    state: ServerState,
    cache: Map<Uuid, JobTypeView>,
) -> Result<
    Seq<JobView>,
    ErrorKind,
>
    decreases jobs.len(),
{
    if jobs.len() == 0 {
        Ok(Seq::empty())
    } else {
        match hydrated(jobs.drop_last(), state, cache) {
            Err(kind) => Err(kind),
            Ok(before) => match hydrated_one(jobs.last(), state, cache) {
                Err(kind) => Err(kind),
                Ok(job) => Ok(before.push(job)),
            },
        }
    }
}

/// Jobs read from a listing or a list, then given their job types.
pub open spec fn read_and_hydrated(
    read: Result<Seq<JobView>, ErrorKind>,
    state: ServerState,
    cache: Map<Uuid, JobTypeView>,
) -> Result<Seq<JobView>, ErrorKind> {
    match read {
        Err(kind) => Err(kind),
        Ok(jobs) => hydrated(jobs, state, cache),
    }
}

proof fn lemma_hydrated_fail(
    jobs: Seq<JobView>,
    state: ServerState,
    cache: Map<Uuid, JobTypeView>,
    n: int,
)
    requires
        0 <= n <= jobs.len(),
        hydrated(jobs.subrange(0, n), state, cache) is Err,
    ensures
        hydrated(jobs, state, cache) == hydrated(jobs.subrange(0, n), state, cache),
    decreases jobs.len() - n,
{
    if n < jobs.len() {
        let longer = jobs.subrange(0, n + 1);
        assert(longer.drop_last() =~= jobs.subrange(0, n));
        lemma_hydrated_fail(jobs, state, cache, n + 1);
    } else {
        assert(jobs.subrange(0, n) =~= jobs);
    }
}

/// A job as it is written when it joins the queue.
pub open spec fn enqueued(job: JobView, now: u64) -> JobView {
    JobView { enqueued_at: Some(now), ..job }
}

/// A job as it is written when a node takes it from the queue.
pub open spec fn started(job: JobView, node: Uuid, now: u64) -> JobView {
    JobView { started_at: Some(now), executing_node: Some(node), ..job }
}

/// A job as it is written when it is finished.
pub open spec fn ended(
    job: JobView,
    results: Option<JsonView>,
    errors: Option<JsonView>,
    now: u64,
) -> JobView {
    JobView { ended_at: Some(now), results, errors, ..job }
}

/// What taking a job from the queue does: the oldest text of the queue of
/// `node_type` is popped and read as a job, the job is stamped with the
/// node and some moment and written to the hash of the jobs in progress,
/// and `job` is that job with its job type.
pub open spec fn took(
    before: ServerState,
    node: Uuid,
    node_type: Uuid,
    cache: Map<Uuid, JobTypeView>,
    job: JobView,
    after: ServerState,
) -> bool {
    let queue = before.list(waiting_key(node_type));
    &&& queue.len() > 0
    &&& decoded::<Job>(queue[0]) is Ok
    &&& exists|now: u64|
        {
            let taken = #[trigger] started(decoded::<Job>(queue[0])->Ok_0, node, now);
            &&& after == before.lpop(waiting_key(node_type)).hset(
                in_progress_key(node_type),
                hyphenated_text(taken.uuid.value),
                json_text(taken.json()),
            )
            &&& Ok::<JobView, ErrorKind>(job) == hydrated_one(taken, after, cache)
        }
}

/// What comes of taking a job from a queue that is not empty, on a server
/// that does not fail. A text that does not read as a job is popped and
/// lost. A job whose job type cannot be had is in progress all the same.
pub open spec fn taken(
    before: ServerState,
    node: Uuid,
    node_type: Uuid,
    cache: Map<Uuid, JobTypeView>,
    r: Result<Job, StoreError>,
    after: ServerState,
) -> bool {
    let queue = before.list(waiting_key(node_type));
    match decoded::<Job>(queue[0]) {
        Err(kind) => r matches Err(error) && error.kind() == kind && after == before.lpop(
            waiting_key(node_type),
        ),
        Ok(read) => exists|now: u64|
            {
                let stamped = #[trigger] started(read, node, now);
                &&& after == before.lpop(waiting_key(node_type)).hset(
                    in_progress_key(node_type),
                    hyphenated_text(stamped.uuid.value),
                    json_text(stamped.json()),
                )
                &&& agrees(r, hydrated_one(stamped, after, cache))
            },
    }
}

/// What the head of a queue that is not empty is good for: the job that it
/// reads as and the job type that the node takes the job for, or the
/// failure to read the one or to have the other.
pub open spec fn head(
    before: ServerState,
    node_type: Uuid,
    cache: Map<Uuid, JobTypeView>,
) -> Result<(JobView, JobTypeView), ErrorKind> {
    match decoded::<Job>(before.list(waiting_key(node_type))[0]) {
        Err(kind) => Err(kind),
        Ok(read) => match job_type_for(before, cache, read.job_type_uuid) {
            Ok(job_type) => Ok((read, job_type)),
            Err(kind) => Err(kind),
        },
    }
}

/// Taking a job succeeds exactly where the head of the queue reads as a job
/// whose job type can be had, and fails with the failure of the head
/// otherwise.
pub proof fn lemma_taken_head(
    before: ServerState,
    node: Uuid,
    node_type: Uuid,
    cache: Map<Uuid, JobTypeView>,
    r: Result<Job, StoreError>,
    after: ServerState,
)
    requires
        taken(before, node, node_type, cache, r, after),
    ensures
        match head(before, node_type, cache) {
            Ok(found) => r matches Ok(job) && job@.uuid == found.0.uuid && job@.job_type == Some(
                found.1,
            ),
            Err(kind) => r matches Err(error) && error.kind() == kind,
        },
{
    let queue = before.list(waiting_key(node_type));
    match decoded::<Job>(queue[0]) {
        Err(kind) => {},
        Ok(read) => {
            let now = choose|now: u64|
                {
                    let stamped = #[trigger] started(read, node, now);
                    &&& after == before.lpop(waiting_key(node_type)).hset(
                        in_progress_key(node_type),
                        hyphenated_text(stamped.uuid.value),
                        json_text(stamped.json()),
                    )
                    &&& agrees(r, hydrated_one(stamped, after, cache))
                };
            let stamped = started(read, node, now);
            lemma_job_type_for_started(
                before,
                node_type,
                hyphenated_text(stamped.uuid.value),
                json_text(stamped.json()),
                cache,
                read.job_type_uuid,
            );
        },
    }
}

/// What finishing a job does: the job leaves the hash of the jobs in
/// progress and is written, with `results` and `errors` and stamped with
/// some moment, to the hash of the finished jobs.
pub open spec fn finished(
    before: ServerState,
    node_type: Uuid,
    job: JobView,
    results: Option<JsonView>,
    errors: Option<JsonView>,
    after: ServerState,
) -> bool {
    exists|now: u64|
        after == before.hdel(in_progress_key(node_type), hyphenated_text(job.uuid.value)).hset(
            finished_key(node_type),
            hyphenated_text(job.uuid.value),
            json_text((#[trigger] ended(job, results, errors, now)).json()),
        )
}

/// A schedule item as it is written when a node claims it.
pub open spec fn claimed(item: ScheduleItemView, node: Uuid, now: u64) -> ScheduleItemView {
    ScheduleItemView { last_scheduled_by: Some(node), last_scheduled_at: Some(now), ..item }
}

/// What a claim on a schedule item does. Where the server holds the item
/// as the claimant has it, the item is rewritten with the claimant and
/// some moment as its last claim, and that is the outcome. Where the server
/// holds anything else, nothing is written and there is no outcome.
pub open spec fn claim_made(
    before: ServerState,
    node: Uuid,
    item: ScheduleItemView,
    outcome: Option<ScheduleItemView>,
    after: ServerState,
) -> bool {
    let field = hyphenated_text(item.uuid.value);
    let held = before.check(schedule_items_key(), field, json_text(item.json()));
    match outcome {
        Some(new) => held && (exists|now: u64| new == #[trigger] claimed(item, node, now))
            && after == before.hset(schedule_items_key(), field, json_text(new.json())),
        None => !held && after == before,
    }
}

/// A schedule item that may be absent, by its value.
pub open spec fn opt_item_view(item: Option<ScheduleItem>) -> Option<ScheduleItemView> {
    match item {
        Some(item) => Some(item@),
        None => None,
    }
}

/// A value that may be absent, by its value.
pub open spec fn opt_json_view(value: Option<Json>) -> Option<JsonView> {
    match value {
        Some(value) => Some(value@),
        None => None,
    }
}

impl RedisStore {
    /// Whether the node is bound to a node type. The operations on jobs
    /// need that: the queue and the two hashes of jobs are those of the
    /// node type.
    pub open spec fn bound(&self) -> bool {
        self.node.node_type_uuid is Some
    }

    /// Whether the node is bound to a node type.
    pub fn is_bound(&self) -> (r: bool)
        ensures
            r == self.bound(),
    {
        self.node.node_type_uuid.is_some()
    }

    /// Makes the store of a new node: a fresh identifier, no node type, and
    /// a first sign of life, written to the server.
    pub fn connect<C: Server>(conn: &mut C) -> (r: Result<RedisStore, StoreError>)
        ensures
            final(conn).reliable() == old(conn).reliable(),
            old(conn).reliable() ==> r is Ok,
            r is Err ==> server_failed(r),
            r matches Ok(store) ==> !store.bound() && store.node.node_type is None
                && store.ping_interval == PING_INTERVAL_MS && cache_view(store.job_types@)
                == Map::<Uuid, JobTypeView>::empty()
                && final(conn).state() == old(conn).state().hset(
                nodes_key(),
                hyphenated_text(store.node.uuid.value),
                json_text(store.node@.json()),
            ),
    {
        let node = Node {
            uuid: Uuid::new_v4(),
            node_type_uuid: None,
            node_type: None,
            last_ping: epoch(),
        };
        store_record::<Node, C>(conn, "nodes", &node)?;
        let store = RedisStore { node, ping_interval: PING_INTERVAL_MS, job_types: HashMap::new() };
        proof {
            assert(cache_view(store.job_types@) =~= Map::<Uuid, JobTypeView>::empty());
        }
        Ok(store)
    }

    /// A second store for the same node, to be used with a connection of
    /// its own.
    pub fn replicate(&self) -> (copy: RedisStore)
        ensures
            copy.node@ == self.node@,
            copy.ping_interval == self.ping_interval,
            cache_view(copy.job_types@) == cache_view(self.job_types@),
    {
        let job_types = self.job_types.clone();
        RedisStore { node: self.node.clone(), ping_interval: self.ping_interval, job_types }
    }

    /// All node types.
    pub fn get_node_types<C: Server>(&self, conn: &mut C) -> (r: Result<Vec<NodeType>, StoreError>)
        ensures
            final(conn).reliable() == old(conn).reliable(),
            server_failed(r) ==> !old(conn).reliable(),
            !server_failed(r) ==> final(conn).state() == old(conn).state() && exists|
                flat: Seq<Seq<char>>,
            |
                old(conn).state().listed(node_types_key(), flat) && agrees_all(
                    r,
                    #[trigger] records::<NodeType>(pairs_of(flat)),
                ),
    {
        fetch_all::<NodeType, C>(conn, "node_types")
    }

    /// The node type with the given identifier, if there is one.
    pub fn get_node_type<C: Server>(&self, conn: &mut C, node_type_uuid: Uuid) -> (r: Result<
        Option<NodeType>,
        StoreError,
    >)
        ensures
            final(conn).reliable() == old(conn).reliable(),
            server_failed(r) ==> !old(conn).reliable(),
            !server_failed(r) ==> final(conn).state() == old(conn).state() && agrees_opt(
                r,
                found::<NodeType>(old(conn).state(), node_types_key(), node_type_uuid),
            ),
    {
        fetch::<NodeType, C>(conn, "node_types", node_type_uuid, true)
    }

    /// Writes a node type, new or not. A node type asks for at least one
    /// worker: one that asks for none could not be read back.
    pub fn new_node_type<C: Server>(&self, conn: &mut C, node_type: &NodeType) -> (r: Result<
        (),
        StoreError,
    >)
        requires
            node_type@.valid(),
        ensures
            final(conn).reliable() == old(conn).reliable(),
            old(conn).reliable() ==> r is Ok,
            r is Err ==> server_failed(r),
            r is Ok ==> final(conn).state() == old(conn).state().hset(
                node_types_key(),
                hyphenated_text(node_type.uuid.value),
                json_text(node_type@.json()),
            ),
    {
        store_record::<NodeType, C>(conn, "node_types", node_type)
    }

    /// Binds the node to a node type, here and in the server. `Ok(None)`
    /// where there is no such node type; nothing changes then.
    pub fn set_node_type<C: Server>(&mut self, conn: &mut C, node_type_uuid: Uuid) -> (r: Result<
        Option<()>,
        StoreError,
    >)
        ensures
            final(conn).reliable() == old(conn).reliable(),
            final(self).ping_interval == old(self).ping_interval,
            final(self).job_types == old(self).job_types,
            final(self).node.uuid == old(self).node.uuid,
            final(self).node.last_ping == old(self).node.last_ping,
            server_failed(r) ==> !old(conn).reliable(),
            !server_failed(r) ==> match found::<NodeType>(
                old(conn).state(),
                node_types_key(),
                node_type_uuid,
            ) {
                Ok(Some(node_type)) => r == Ok::<Option<()>, StoreError>(Some(()))
                    && final(self).node@.node_type_uuid == Some(node_type_uuid)
                    && final(self).node@.node_type == Some(node_type) && final(conn).state()
                    == old(conn).state().hset(
                    nodes_key(),
                    hyphenated_text(old(self).node.uuid.value),
                    json_text(final(self).node@.json()),
                ),
                Ok(None) => r == Ok::<Option<()>, StoreError>(None) && *final(self) == *old(self)
                    && final(conn).state() == old(conn).state(),
                Err(kind) => r matches Err(error) && error.kind() == kind && *final(self) == *old(
                    self,
                ) && final(conn).state() == old(conn).state(),
            },
    {
        let node_type = match fetch::<NodeType, C>(conn, "node_types", node_type_uuid, true) {
            Err(error) => {
                return Err(error);
            },
            Ok(None) => {
                return Ok(None);
            },
            Ok(Some(node_type)) => node_type,
        };
        self.node.node_type_uuid = Some(node_type_uuid);
        self.node.node_type = Some(node_type);
        store_record::<Node, C>(conn, "nodes", &self.node)?;
        Ok(Some(()))
    }

    /// Binds the node to a node type here, and not in the server: the
    /// record of the node in the server stays as it is. `Ok(None)` where
    /// there is no such node type; nothing changes then.
    pub fn set_node_type_soft<C: Server>(&mut self, conn: &mut C, node_type_uuid: Uuid) -> (r:
        Result<Option<()>, StoreError>)
        ensures
            final(conn).reliable() == old(conn).reliable(),
            final(self).ping_interval == old(self).ping_interval,
            final(self).job_types == old(self).job_types,
            final(self).node.uuid == old(self).node.uuid,
            final(self).node.last_ping == old(self).node.last_ping,
            server_failed(r) ==> !old(conn).reliable(),
            !server_failed(r) ==> final(conn).state() == old(conn).state() && match found::<
                NodeType,
            >(old(conn).state(), node_types_key(), node_type_uuid) {
                Ok(Some(node_type)) => r == Ok::<Option<()>, StoreError>(Some(()))
                    && final(self).node@.node_type_uuid == Some(node_type_uuid)
                    && final(self).node@.node_type == Some(node_type),
                Ok(None) => r == Ok::<Option<()>, StoreError>(None) && *final(self) == *old(self),
                Err(kind) => r matches Err(error) && error.kind() == kind && *final(self) == *old(
                    self,
                ),
            },
            r matches Ok(Some(_)) ==> final(self).node.node_type_uuid == Some(node_type_uuid)
                && final(self).node.node_type is Some,
            !(r matches Ok(Some(_))) ==> *final(self) == *old(self),
    {
        let node_type = match fetch::<NodeType, C>(conn, "node_types", node_type_uuid, true) {
            Err(error) => {
                return Err(error);
            },
            Ok(None) => {
                return Ok(None);
            },
            Ok(Some(node_type)) => node_type,
        };
        self.node.node_type_uuid = Some(node_type_uuid);
        self.node.node_type = Some(node_type);
        Ok(Some(()))
    }

    /// All job types.
    pub fn get_job_types<C: Server>(&self, conn: &mut C) -> (r: Result<Vec<JobType>, StoreError>)
        ensures
            final(conn).reliable() == old(conn).reliable(),
            server_failed(r) ==> !old(conn).reliable(),
            !server_failed(r) ==> final(conn).state() == old(conn).state() && exists|
                flat: Seq<Seq<char>>,
            |
                old(conn).state().listed(job_types_key(), flat) && agrees_all(
                    r,
                    #[trigger] records::<JobType>(pairs_of(flat)),
                ),
    {
        fetch_all::<JobType, C>(conn, "job_types")
    }

    /// The job type with the given identifier, if there is one.
    pub fn get_job_type<C: Server>(&self, conn: &mut C, uuid: Uuid) -> (r: Result<
        Option<JobType>,
        StoreError,
    >)
        ensures
            final(conn).reliable() == old(conn).reliable(),
            server_failed(r) ==> !old(conn).reliable(),
            !server_failed(r) ==> final(conn).state() == old(conn).state() && agrees_opt(
                r,
                found::<JobType>(old(conn).state(), job_types_key(), uuid),
            ),
    {
        fetch::<JobType, C>(conn, "job_types", uuid, true)
    }

    /// Writes a job type, new or not.
    pub fn new_job_type<C: Server>(&self, conn: &mut C, job_type: &JobType) -> (r: Result<
        (),
        StoreError,
    >)
        ensures
            final(conn).reliable() == old(conn).reliable(),
            old(conn).reliable() ==> r is Ok,
            r is Err ==> server_failed(r),
            r is Ok ==> final(conn).state() == old(conn).state().hset(
                job_types_key(),
                hyphenated_text(job_type.uuid.value),
                json_text(job_type@.json()),
            ),
    {
        store_record::<JobType, C>(conn, "job_types", job_type)
    }

    /// All schedule items.
    pub fn get_job_schedule<C: Server>(&self, conn: &mut C) -> (r: Result<
        Vec<ScheduleItem>,
        StoreError,
    >)
        ensures
            final(conn).reliable() == old(conn).reliable(),
            server_failed(r) ==> !old(conn).reliable(),
            !server_failed(r) ==> final(conn).state() == old(conn).state() && exists|
                flat: Seq<Seq<char>>,
            |
                old(conn).state().listed(schedule_items_key(), flat) && agrees_all(
                    r,
                    #[trigger] records::<ScheduleItem>(pairs_of(flat)),
                ),
    {
        fetch_all::<ScheduleItem, C>(conn, "schedule_items")
    }

    /// The schedule item with the given identifier, if there is one.
    pub fn get_job_schedule_item<C: Server>(&self, conn: &mut C, uuid: Uuid) -> (r: Result<
        Option<ScheduleItem>,
        StoreError,
    >)
        ensures
            final(conn).reliable() == old(conn).reliable(),
            server_failed(r) ==> !old(conn).reliable(),
            !server_failed(r) ==> final(conn).state() == old(conn).state() && agrees_opt(
                r,
                found::<ScheduleItem>(old(conn).state(), schedule_items_key(), uuid),
            ),
    {
        fetch::<ScheduleItem, C>(conn, "schedule_items", uuid, true)
    }

    /// Deletes the schedule item with the given identifier, if there is one.
    pub fn delete_job_schedule_item<C: Server>(&self, conn: &mut C, uuid: Uuid) -> (r: Result<
        (),
        StoreError,
    >)
        ensures
            final(conn).reliable() == old(conn).reliable(),
            old(conn).reliable() ==> r is Ok,
            r is Err ==> server_failed(r),
            r is Ok ==> final(conn).state() == old(conn).state().hdel(
                schedule_items_key(),
                hyphenated_text(uuid.value),
            ),
    {
        match conn.hdel("schedule_items", uuid.hyphenated().as_str()) {
            Err(message) => Err(StoreError::Server(message)),
            Ok(()) => Ok(()),
        }
    }

    /// Writes a schedule item, new or not.
    pub fn new_job_schedule_item<C: Server>(
        &self,
        conn: &mut C,
        schedule_item: &ScheduleItem,
    ) -> (r:
        Result<(), StoreError>)
        ensures
            final(conn).reliable() == old(conn).reliable(),
            old(conn).reliable() ==> r is Ok,
            r is Err ==> server_failed(r),
            r is Ok ==> final(conn).state() == old(conn).state().hset(
                schedule_items_key(),
                hyphenated_text(schedule_item.uuid.value),
                json_text(schedule_item@.json()),
            ),
    {
        store_record::<ScheduleItem, C>(conn, "schedule_items", schedule_item)
    }

    /// Tries to claim a schedule item for this node: the item is rewritten
    /// with this node and the present time as its last claim, but only
    /// where the server still holds the item as the caller has it. The
    /// claimed item is returned; `Ok(None)` says that the server holds
    /// something else by now, and that nothing was written.
    pub fn claim_job_scheduled<C: Server>(&self, conn: &mut C, schedule_item: &ScheduleItem) -> (r:
        Result<Option<ScheduleItem>, StoreError>)
        ensures
            final(conn).reliable() == old(conn).reliable(),
            old(conn).reliable() ==> r is Ok,
            r is Err ==> server_failed(r),
            r matches Ok(Some(item)) ==> old(conn).state().check(
                schedule_items_key(),
                hyphenated_text(schedule_item.uuid.value),
                json_text(schedule_item@.json()),
            ) && (exists|now: u64| item@ == #[trigger] claimed(schedule_item@, self.node.uuid, now))
                && final(conn).state() == old(conn).state().hset(
                schedule_items_key(),
                hyphenated_text(schedule_item.uuid.value),
                json_text(item@.json()),
            ),
            r matches Ok(None) ==> !old(conn).state().check(
                schedule_items_key(),
                hyphenated_text(schedule_item.uuid.value),
                json_text(schedule_item@.json()),
            ) && final(conn).state() == old(conn).state(),
            r matches Ok(outcome) ==> claim_made(
                old(conn).state(),
                self.node.uuid,
                schedule_item@,
                opt_item_view(outcome),
                final(conn).state(),
            ),
    {
        let now = epoch();
        let mut new_item = schedule_item.clone();
        new_item.last_scheduled_by = Some(self.node.uuid);
        new_item.last_scheduled_at = Some(now);
        proof {
            assert(new_item@ == claimed(schedule_item@, self.node.uuid, now));
        }
        let updated = redis_hcheck_set(
            conn,
            String::from_str("schedule_items"),
            schedule_item.uuid.hyphenated(),
            Some(schedule_item.to_text()),
            Some(new_item.to_text()),
        );
        match updated {
            Err(message) => Err(StoreError::Server(message)),
            Ok(true) => Ok(Some(new_item)),
            Ok(false) => Ok(None),
        }
    }

    /// Puts a job at the end of the queue of the node type that this node
    /// is bound to, with the present time as the time it was enqueued.
    pub fn enqueue_job<C: Server>(&self, conn: &mut C, job: Job) -> (r: Result<(), StoreError>)
        requires
            self.bound(),
        ensures
            final(conn).reliable() == old(conn).reliable(),
            old(conn).reliable() ==> r is Ok,
            r is Err ==> server_failed(r),
            r is Ok ==> exists|now: u64|
                final(conn).state() == old(conn).state().rpush(
                    waiting_key(self.node.node_type_uuid->Some_0),
                    json_text((#[trigger] enqueued(job@, now)).json()),
                ),
    {
        self.enqueue_job_for(conn, self.node_type_id(), job)
    }

    /// Puts a job at the end of the queue of the given node type, with the
    /// present time as the time it was enqueued.
    pub fn enqueue_job_for<C: Server>(&self, conn: &mut C, node_type: Uuid, job: Job) -> (r: Result<
        (),
        StoreError,
    >)
        ensures
            final(conn).reliable() == old(conn).reliable(),
            old(conn).reliable() ==> r is Ok,
            r is Err ==> server_failed(r),
            r is Ok ==> exists|now: u64|
                final(conn).state() == old(conn).state().rpush(
                    waiting_key(node_type),
                    json_text((#[trigger] enqueued(job@, now)).json()),
                ),
    {
        let ghost given = job@;
        let mut job = job;
        let now = epoch();
        job.enqueued_at = Some(now);
        proof {
            assert(job@ == enqueued(given, now));
        }
        let key = prefixed("jobs_waiting_", node_type);
        match conn.rpush(key.as_str(), job.to_text().as_str()) {
            Err(message) => Err(StoreError::Server(message)),
            Ok(()) => Ok(()),
        }
    }

    fn node_type_id(&self) -> (id: Uuid)
        requires
            self.bound(),
        ensures
            Some(id) == self.node.node_type_uuid,
    {
        match self.node.node_type_uuid {
            Some(id) => id,
            None => Uuid { value: 0 },
        }
    }

    /// Milliseconds between two signs of life of this node.
    pub fn get_ping_interval_ms(&self) -> (interval: u32)
        ensures
            interval == self.ping_interval,
    {
        self.ping_interval
    }

    /// The record of this node.
    pub fn get_node(&self) -> (node: &Node)
        ensures
            *node == self.node,
    {
        &self.node
    }

    /// Gives a sign of life: the present time becomes the node's
    /// `last_ping`, here and in the server. Nothing else of the node
    /// changes.
    pub fn ping<C: Server>(&mut self, conn: &mut C) -> (r: Result<(), StoreError>)
        ensures
            final(conn).reliable() == old(conn).reliable(),
            old(conn).reliable() ==> r is Ok,
            r is Err ==> server_failed(r),
            final(self).ping_interval == old(self).ping_interval,
            final(self).job_types == old(self).job_types,
            final(self).node.uuid == old(self).node.uuid,
            final(self).node.node_type_uuid == old(self).node.node_type_uuid,
            final(self).node.node_type == old(self).node.node_type,
            r is Ok ==> final(conn).state() == old(conn).state().hset(
                nodes_key(),
                hyphenated_text(old(self).node.uuid.value),
                json_text(final(self).node@.json()),
            ),
    {
        self.node.last_ping = epoch();
        store_record::<Node, C>(conn, "nodes", &self.node)
    }

    /// Deletes everything that the server holds.
    pub fn clean<C: Server>(&self, conn: &mut C)
        ensures
            final(conn).reliable() == old(conn).reliable(),
            old(conn).reliable() ==> final(conn).state() == ServerState::empty(),
    {
        let _ = conn.flushdb();
    }
}

impl RedisStore {
    /// The job type that this node remembers under an identifier.
    fn recall(&self, id: Uuid) -> (r: Option<JobType>)
        ensures
            r is Some == cached(cache_view(self.job_types@), id) is Some,
            r matches Some(job_type) ==> Some(job_type@) == cached(cache_view(self.job_types@), id),
    {
        broadcast use vstd::std_specs::hash::group_hash_axioms;

        match self.job_types.get(&id.value) {
            Some(job_type) => Some(job_type.clone()),
            None => None,
        }
    }

    /// The job type with the given identifier: the one that this node
    /// remembers, and else the one that the server holds, which the node
    /// remembers from then on. A job type that the server does not hold is
    /// an error.
    pub fn get_cached_job_type<C: Server>(&mut self, conn: &mut C, uuid: Uuid) -> (r: Result<
        JobType,
        StoreError,
    >)
        ensures
            final(conn).reliable() == old(conn).reliable(),
            final(self).node == old(self).node,
            final(self).ping_interval == old(self).ping_interval,
            remembers(
                old(conn).state(),
                cache_view(old(self).job_types@),
                cache_view(final(self).job_types@),
            ),
            server_failed(r) ==> !old(conn).reliable(),
            !server_failed(r) ==> final(conn).state() == old(conn).state() && agrees(
                r,
                job_type_for(old(conn).state(), cache_view(old(self).job_types@), uuid),
            ),
    {
        if let Some(job_type) = self.recall(uuid) {
            return Ok(job_type);
        }
        let ghost before = cache_view(self.job_types@);
        let ghost state = conn.state();
        match fetch::<JobType, C>(conn, "job_types", uuid, true) {
            Err(error) => Err(error),
            Ok(None) => Err(StoreError::InvalidJobType(uuid)),
            Ok(Some(job_type)) => {
                let copy = job_type.clone();
                self.job_types.insert(uuid.value, copy);
                proof {
                    let after = cache_view(self.job_types@);
                    assert(after =~= before.insert(uuid, job_type@));
                    assert forall|id: Uuid|
                        (#[trigger] job_type_for(state, after, id)) == job_type_for(
                            state,
                            before,
                            id,
                        ) && (cached(before, id) is Some ==> cached(after, id) == cached(
                            before,
                            id,
                        )) by {}
                }
                Ok(job_type)
            },
        }
    }

    /// Gives each job its job type.
    fn hydrate<C: Server>(&mut self, conn: &mut C, jobs: Vec<Job>) -> (r: Result<
        Vec<Job>,
        StoreError,
    >)
        ensures
            final(conn).reliable() == old(conn).reliable(),
            final(self).node == old(self).node,
            final(self).ping_interval == old(self).ping_interval,
            server_failed(r) ==> !old(conn).reliable(),
            !server_failed(r) ==> final(conn).state() == old(conn).state() && remembers(
                old(conn).state(),
                cache_view(old(self).job_types@),
                cache_view(final(self).job_types@),
            ) && agrees_all(
                r,
                hydrated(views(jobs@), old(conn).state(), cache_view(old(self).job_types@)),
            ),
    {
        let ghost all = views(jobs@);
        let ghost state = conn.state();
        let ghost cache = cache_view(self.job_types@);
        let mut list: Vec<Job> = Vec::new();
        let mut i: usize = 0;
        proof {
            assert(all.subrange(0, 0) =~= Seq::empty());
            assert(views(list@) =~= Seq::empty());
        }
        while i < jobs.len()
            invariant
                i <= jobs.len(),
                all == views(jobs@),
                state == old(conn).state(),
                cache == cache_view(old(self).job_types@),
                conn.state() == state,
                conn.reliable() == old(conn).reliable(),
                self.node == old(self).node,
                self.ping_interval == old(self).ping_interval,
                remembers(state, cache, cache_view(self.job_types@)),
                hydrated(all.subrange(0, i as int), state, cache) == Ok::<
                    Seq<JobView>,
                    ErrorKind,
                >(views(list@)),
            decreases jobs.len() - i,
        {
            let ghost before = views(list@);
            let ghost remembered = cache_view(self.job_types@);
            proof {
                let upto = all.subrange(0, i + 1);
                assert(upto.drop_last() =~= all.subrange(0, i as int));
                assert(upto.last() == all[i as int]);
            }
            let mut job = jobs[i].clone();
            match self.get_cached_job_type(conn, job.job_type_uuid) {
                Err(error) => {
                    proof {
                        if !server_failed::<JobType>(Err(error)) {
                            let id = all[i as int].job_type_uuid;
                            assert(job_type_for(state, remembered, id) == job_type_for(
                                state,
                                cache,
                                id,
                            ));
                            assert(hydrated_one(all[i as int], state, cache) is Err);
                            assert(hydrated(all.subrange(0, i + 1), state, cache) is Err);
                            lemma_hydrated_fail(all, state, cache, i + 1);
                        }
                    }
                    return Err(error);
                },
                Ok(job_type) => {
                    job.job_type = Some(job_type);
                    list.push(job);
                    proof {
                        assert(views(list@) =~= before.push(job@));
                    }
                },
            }
            i += 1;
        }
        proof {
            assert(all.subrange(0, jobs.len() as int) =~= all);
            lemma_hydrated_kind(all, state, cache);
        }
        Ok(list)
    }

    /// Takes the oldest job from the queue of the node type that this node
    /// is bound to, waiting for one where the queue is empty. The job gets
    /// the present time as the time it was started and this node as the one
    /// that runs it, is written to the hash of the jobs in progress, and is
    /// returned with its job type.
    pub fn dequeue_job<C: Server>(&mut self, conn: &mut C) -> (r: Result<Job, StoreError>)
        requires
            old(self).bound(),
        ensures
            final(conn).reliable() == old(conn).reliable(),
            final(self).node == old(self).node,
            final(self).ping_interval == old(self).ping_interval,
            r matches Ok(job) ==> took(
                old(conn).state(),
                old(self).node.uuid,
                old(self).node.node_type_uuid->Some_0,
                cache_view(old(self).job_types@),
                job@,
                final(conn).state(),
            ),
            old(conn).reliable() && old(conn).state().list(
                waiting_key(old(self).node.node_type_uuid->Some_0),
            ).len() > 0 ==> !server_failed(r) && taken(
                old(conn).state(),
                old(self).node.uuid,
                old(self).node.node_type_uuid->Some_0,
                cache_view(old(self).job_types@),
                r,
                final(conn).state(),
            ),
    {
        let node_type = self.node_type_id();
        let waiting = prefixed("jobs_waiting_", node_type);
        let text = match conn.blpop(waiting.as_str()) {
            Err(message) => {
                return Err(StoreError::Server(message));
            },
            Ok(text) => text,
        };
        let mut job = match read_record::<Job>(text.as_str()) {
            Ok(job) => job,
            Err(error) => {
                return Err(error);
            },
        };
        let ghost read = job@;
        let now = epoch();
        job.started_at = Some(now);
        job.executing_node = Some(self.node.uuid);
        proof {
            assert(job@ == started(read, self.node.uuid, now));
        }
        let in_progress = prefixed("jobs_in_progress_", node_type);
        let field = job.uuid.hyphenated();
        match conn.hset(in_progress.as_str(), field.as_str(), job.to_text().as_str()) {
            Err(message) => {
                return Err(StoreError::Server(message));
            },
            Ok(()) => {},
        }
        let ghost stamped = job@;
        let ghost after = conn.state();
        match self.get_cached_job_type(conn, job.job_type_uuid) {
            Err(error) => {
                proof {
                    if !server_failed::<JobType>(Err(error)) {
                        assert(agrees::<Job>(
                            Err(error),
                            hydrated_one(stamped, after, cache_view(old(self).job_types@)),
                        ));
                    }
                }
                Err(error)
            },
            Ok(job_type) => {
                job.job_type = Some(job_type);
                Ok(job)
            },
        }
    }

    /// Moves a job from the hash of the jobs in progress to the hash of the
    /// finished jobs, with the present time as the time it ended and with
    /// what it produced.
    pub fn finish_job<C: Server>(
        &self,
        conn: &mut C,
        job: Job,
        results: Option<Json>,
        errors: Option<Json>,
    ) -> (r: Result<(), StoreError>)
        requires
            self.bound(),
        ensures
            final(conn).reliable() == old(conn).reliable(),
            old(conn).reliable() ==> r is Ok,
            r is Err ==> server_failed(r),
            r is Ok ==> finished(
                old(conn).state(),
                self.node.node_type_uuid->Some_0,
                job@,
                opt_json_view(results),
                opt_json_view(errors),
                final(conn).state(),
            ),
    {
        let ghost given = job@;
        let mut job = job;
        let node_type = self.node_type_id();
        let field = job.uuid.hyphenated();
        let in_progress = prefixed("jobs_in_progress_", node_type);
        match conn.hdel(in_progress.as_str(), field.as_str()) {
            Err(message) => {
                return Err(StoreError::Server(message));
            },
            Ok(()) => {},
        }
        let now = epoch();
        job.ended_at = Some(now);
        job.results = results;
        job.errors = errors;
        proof {
            assert(job@ == ended(given, opt_json_view(results), opt_json_view(errors), now));
        }
        let finished = prefixed("jobs_finished_", node_type);
        match conn.hset(finished.as_str(), field.as_str(), job.to_text().as_str()) {
            Err(message) => Err(StoreError::Server(message)),
            Ok(()) => Ok(()),
        }
    }

    /// The jobs that wait for a node of the node type that this node is
    /// bound to, oldest first, each with its job type.
    pub fn get_all_jobs_waiting<C: Server>(&mut self, conn: &mut C) -> (r: Result<
        Vec<Job>,
        StoreError,
    >)
        requires
            old(self).bound(),
        ensures
            final(conn).reliable() == old(conn).reliable(),
            final(self).node == old(self).node,
            final(self).ping_interval == old(self).ping_interval,
            server_failed(r) ==> !old(conn).reliable(),
            !server_failed(r) ==> final(conn).state() == old(conn).state() && remembers(
                old(conn).state(),
                cache_view(old(self).job_types@),
                cache_view(final(self).job_types@),
            ) && agrees_all(
                r,
                read_and_hydrated(
                    records_of_texts::<Job>(
                        old(conn).state().list(waiting_key(old(self).node.node_type_uuid->Some_0)),
                    ),
                    old(conn).state(),
                    cache_view(old(self).job_types@),
                ),
            ),
    {
        let key = prefixed("jobs_waiting_", self.node_type_id());
        let texts = match conn.lrange(key.as_str()) {
            Err(message) => {
                return Err(StoreError::Server(message));
            },
            Ok(texts) => texts,
        };
        proof {
            lemma_records_of_texts_kind::<Job>(lines_view(texts@));
            lemma_remembers_itself(conn.state(), cache_view(self.job_types@));
        }
        let jobs = read_texts::<Job>(&texts)?;
        self.hydrate(conn, jobs)
    }

    /// The jobs of one of the two hashes of jobs, each with its job type.
    pub fn get_all_jobs_in<C: Server>(&mut self, conn: &mut C, key: String) -> (r: Result<
        Vec<Job>,
        StoreError,
    >)
        ensures
            final(conn).reliable() == old(conn).reliable(),
            final(self).node == old(self).node,
            final(self).ping_interval == old(self).ping_interval,
            server_failed(r) ==> !old(conn).reliable(),
            !server_failed(r) ==> final(conn).state() == old(conn).state() && remembers(
                old(conn).state(),
                cache_view(old(self).job_types@),
                cache_view(final(self).job_types@),
            ) && exists|flat: Seq<Seq<char>>|
                old(conn).state().listed(key@, flat) && agrees_all(
                    r,
                    read_and_hydrated(
                        #[trigger] records::<Job>(pairs_of(flat)),
                        old(conn).state(),
                        cache_view(old(self).job_types@),
                    ),
                ),
    {
        let flat = match conn.hgetall(key.as_str()) {
            Err(message) => {
                return Err(StoreError::Server(message));
            },
            Ok(flat) => flat,
        };
        let ghost listing = lines_view(flat@);
        let ghost state = conn.state();
        let ghost cache = cache_view(self.job_types@);
        proof {
            lemma_records_kind::<Job>(pairs_of(listing));
            lemma_remembers_itself(state, cache);
        }
        let jobs = match read_listing::<Job>(&flat) {
            Err(error) => {
                proof {
                    assert(agrees_all::<Job>(
                        Err(error),
                        read_and_hydrated(records::<Job>(pairs_of(listing)), state, cache),
                    ));
                }
                return Err(error);
            },
            Ok(jobs) => jobs,
        };
        let r = self.hydrate(conn, jobs);
        proof {
            if !server_failed(r) {
                assert(agrees_all(
                    r,
                    read_and_hydrated(records::<Job>(pairs_of(listing)), state, cache),
                ));
            }
        }
        r
    }

    /// The jobs in progress on the nodes of the node type that this node
    /// is bound to, each with its job type.
    pub fn get_all_jobs_in_progress<C: Server>(&mut self, conn: &mut C) -> (r: Result<
        Vec<Job>,
        StoreError,
    >)
        requires
            old(self).bound(),
        ensures
            final(conn).reliable() == old(conn).reliable(),
            final(self).node == old(self).node,
            final(self).ping_interval == old(self).ping_interval,
            server_failed(r) ==> !old(conn).reliable(),
            !server_failed(r) ==> final(conn).state() == old(conn).state() && remembers(
                old(conn).state(),
                cache_view(old(self).job_types@),
                cache_view(final(self).job_types@),
            ) && exists|flat: Seq<Seq<char>>|
                old(conn).state().listed(
                    in_progress_key(old(self).node.node_type_uuid->Some_0),
                    flat,
                ) && agrees_all(
                    r,
                    read_and_hydrated(
                        #[trigger] records::<Job>(pairs_of(flat)),
                        old(conn).state(),
                        cache_view(old(self).job_types@),
                    ),
                ),
    {
        let key = prefixed("jobs_in_progress_", self.node_type_id());
        self.get_all_jobs_in(conn, key)
    }

    /// The jobs that the nodes of the node type that this node is bound to
    /// have finished, each with its job type.
    pub fn get_all_jobs_finished<C: Server>(&mut self, conn: &mut C) -> (r: Result<
        Vec<Job>,
        StoreError,
    >)
        requires
            old(self).bound(),
        ensures
            final(conn).reliable() == old(conn).reliable(),
            final(self).node == old(self).node,
            final(self).ping_interval == old(self).ping_interval,
            server_failed(r) ==> !old(conn).reliable(),
            !server_failed(r) ==> final(conn).state() == old(conn).state() && remembers(
                old(conn).state(),
                cache_view(old(self).job_types@),
                cache_view(final(self).job_types@),
            ) && exists|flat: Seq<Seq<char>>|
                old(conn).state().listed(
                    finished_key(old(self).node.node_type_uuid->Some_0),
                    flat,
                ) && agrees_all(
                    r,
                    read_and_hydrated(
                        #[trigger] records::<Job>(pairs_of(flat)),
                        old(conn).state(),
                        cache_view(old(self).job_types@),
                    ),
                ),
    {
        let key = prefixed("jobs_finished_", self.node_type_id());
        self.get_all_jobs_in(conn, key)
    }

    /// The finished job with the given identifier, with its job type, if
    /// the nodes of the node type that this node is bound to have finished
    /// such a job.
    pub fn get_finished_job<C: Server>(&mut self, conn: &mut C, uuid: Uuid) -> (r: Result<
        Option<Job>,
        StoreError,
    >)
        requires
            old(self).bound(),
        ensures
            final(conn).reliable() == old(conn).reliable(),
            final(self).node == old(self).node,
            final(self).ping_interval == old(self).ping_interval,
            server_failed(r) ==> !old(conn).reliable(),
            !server_failed(r) ==> final(conn).state() == old(conn).state() && remembers(
                old(conn).state(),
                cache_view(old(self).job_types@),
                cache_view(final(self).job_types@),
            ) && agrees_opt(
                r,
                match found_unchecked::<Job>(
                    old(conn).state(),
                    finished_key(old(self).node.node_type_uuid->Some_0),
                    uuid,
                ) {
                    Err(kind) => Err(kind),
                    Ok(None) => Ok(None),
                    Ok(Some(job)) => match hydrated_one(
                        job,
                        old(conn).state(),
                        cache_view(old(self).job_types@),
                    ) {
                        Ok(job) => Ok(Some(job)),
                        Err(kind) => Err(kind),
                    },
                },
            ),
    {
        let key = prefixed("jobs_finished_", self.node_type_id());
        proof {
            lemma_remembers_itself(conn.state(), cache_view(self.job_types@));
        }
        let mut job = match fetch::<Job, C>(conn, key.as_str(), uuid, false) {
            Err(error) => {
                return Err(error);
            },
            Ok(None) => {
                return Ok(None);
            },
            Ok(Some(job)) => job,
        };
        let job_type = self.get_cached_job_type(conn, job.job_type_uuid)?;
        job.job_type = Some(job_type);
        Ok(Some(job))
    }

    /// The nodes that count as alive at the moment of the call.
    pub fn get_nodes<C: Server>(&self, conn: &mut C) -> (r: Result<Vec<Node>, StoreError>)
        ensures
            final(conn).reliable() == old(conn).reliable(),
            server_failed(r) ==> !old(conn).reliable(),
            !server_failed(r) ==> final(conn).state() == old(conn).state() && exists|
                flat: Seq<Seq<char>>,
                now: u64,
            |
                old(conn).state().listed(nodes_key(), flat) && agrees_all(
                    r,
                    #[trigger] nodes_alive(records::<Node>(pairs_of(flat)), now),
                ),
    {
        let flat = match conn.hgetall("nodes") {
            Err(message) => {
                return Err(StoreError::Server(message));
            },
            Ok(flat) => flat,
        };
        let now = epoch();
        proof {
            lemma_records_kind::<Node>(pairs_of(lines_view(flat@)));
        }
        match read_listing::<Node>(&flat) {
            Err(error) => {
                proof {
                    assert(agrees_all::<Node>(
                        Err(error),
                        nodes_alive(records::<Node>(pairs_of(lines_view(flat@))), now),
                    ));
                }
                Err(error)
            },
            Ok(nodes) => {
                let r = Ok(keep_live(nodes, now));
                proof {
                    assert(agrees_all::<Node>(
                        r,
                        nodes_alive(records::<Node>(pairs_of(lines_view(flat@))), now),
                    ));
                }
                r
            },
        }
    }

    /// The node with the given identifier, if there is one and it counts as
    /// alive at the moment of the call.
    pub fn get_other_node<C: Server>(&self, conn: &mut C, uuid: Uuid) -> (r: Result<
        Option<Node>,
        StoreError,
    >)
        ensures
            final(conn).reliable() == old(conn).reliable(),
            server_failed(r) ==> !old(conn).reliable(),
            !server_failed(r) ==> final(conn).state() == old(conn).state() && exists|now: u64|
                agrees_opt(
                    r,
                    #[trigger] node_alive(
                        found_unchecked::<Node>(old(conn).state(), nodes_key(), uuid),
                        now,
                    ),
                ),
    {
        let found = fetch::<Node, C>(conn, "nodes", uuid, false);
        let now = epoch();
        let r = match found {
            Err(error) => Err(error),
            Ok(None) => Ok(None),
            Ok(Some(node)) => if live(node.last_ping, now) {
                Ok(Some(node))
            } else {
                Ok(None)
            },
        };
        proof {
            if !server_failed(r) {
                assert(agrees_opt(
                    r,
                    node_alive(found_unchecked::<Node>(old(conn).state(), nodes_key(), uuid), now),
                ));
            }
        }
        r
    }
}

/// The nodes of a reading that count as alive at `now`.
pub open spec fn nodes_alive(read: Result<Seq<NodeView>, ErrorKind>, now: u64) -> Result<
    Seq<NodeView>,
    ErrorKind,
> {
    match read {
        Err(kind) => Err(kind),
        Ok(nodes) => Ok(live_nodes(nodes, now)),
    }
}

/// The node of a reading, if it counts as alive at `now`.
pub open spec fn node_alive(read: Result<Option<NodeView>, ErrorKind>, now: u64) -> Result<
    Option<NodeView>,
    ErrorKind,
> {
    match read {
        Err(kind) => Err(kind),
        Ok(None) => Ok(None),
        Ok(Some(node)) => if is_live(node.last_ping, now) {
            Ok(Some(node))
        } else {
            Ok(None)
        },
    }
}

/// What the listing of a hash shows is what a lookup finds: a record of the
/// listing stands under its own identifier.
pub proof fn lemma_listed_is_found<R: Record>(
    state: ServerState,
    key: Seq<char>,
    flat: Seq<Seq<char>>,
    i: int,
)
    requires
        state.listed(key, flat),
        records::<R>(pairs_of(flat)) is Ok,
        0 <= i < records::<R>(pairs_of(flat))->Ok_0.len(),
    ensures
        found::<R>(state, key, R::id_of(records::<R>(pairs_of(flat))->Ok_0[i])) == Ok::<
            Option<R::V>,
            ErrorKind,
        >(Some(records::<R>(pairs_of(flat))->Ok_0[i])),
{
    let pairs = pairs_of(flat);
    lemma_records_each::<R>(pairs);
    assert(state.hget(key, pairs[i].0) == Some(pairs[i].1));
}

/// What is written to the queue and the hashes of jobs changes no job type.
pub proof fn lemma_job_types_apart(node_type: Uuid)
    ensures
        in_progress_key(node_type) != job_types_key(),
        finished_key(node_type) != job_types_key(),
        in_progress_key(node_type) != node_types_key(),
        finished_key(node_type) != node_types_key(),
{
    reveal_strlit("jobs_in_progress_");
    reveal_strlit("jobs_finished_");
    reveal_strlit("job_types");
    reveal_strlit("node_types");
    assert("jobs_in_progress_"@.len() == 17);
    assert("jobs_finished_"@.len() == 14);
    assert("job_types"@.len() == 9);
    assert("node_types"@.len() == 10);
    assert(in_progress_key(node_type).len() >= 17);
    assert(finished_key(node_type).len() >= 14);
}

/// A job that goes from the queue into the hash of the jobs in progress
/// leaves every job type as the node takes it.
pub proof fn lemma_job_type_for_started(
    state: ServerState,
    node_type: Uuid,
    field: Seq<char>,
    text: Seq<char>,
    cache: Map<Uuid, JobTypeView>,
    id: Uuid,
)
    ensures
        job_type_for(
            state.lpop(waiting_key(node_type)).hset(in_progress_key(node_type), field, text),
            cache,
            id,
        ) == job_type_for(state, cache, id),
{
    lemma_job_types_apart(node_type);
}

/// A node that remembers the same as before has forgotten nothing.
pub proof fn lemma_remembers_itself(state: ServerState, cache: Map<Uuid, JobTypeView>)
    ensures
        remembers(state, cache, cache),
{
}

/// Giving jobs their job types never fails the way the server does.
pub proof fn lemma_hydrated_kind(
    jobs: Seq<JobView>,
    state: ServerState,
    cache: Map<Uuid, JobTypeView>,
)
    ensures
        hydrated(jobs, state, cache) matches Err(kind) ==> !(kind is Server),
    decreases jobs.len(),
{
    if jobs.len() > 0 {
        lemma_hydrated_kind(jobs.drop_last(), state, cache);
    }
}

} // verus!
