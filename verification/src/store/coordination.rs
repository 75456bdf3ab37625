//! Why the nodes of a fleet can share one server without leading each
//! other: of the claims on a schedule item one goes through, the queues of
//! two node types have nothing in common, and a job is in one place at a
//! time.

use crate::exec::job::{Job, JobView};
use crate::exec::job_type::JobTypeView;
use crate::ident::{hyphenated_text, lemma_hyphenated_injective, lemma_hyphenated_len, Uuid};
use crate::json::{json_text, JsonView};
use crate::scheduler::ScheduleItemView;
use crate::store::record::decoded;
use crate::store::redis::{
    claim_made, claimed, finished, finished_key, in_progress_key, schedule_items_key, took,
    waiting_key,
};
use crate::store::server::ServerState;
use crate::threads::scheduler_thread::{is_due, scheduled, Outcome};
use vstd::prelude::*;

verus! {

/// Of two claims on a schedule item as both claimants read it, the second
/// fails: the first has rewritten the item, and the server no longer holds
/// what the second expects. Where the server does not hold the item as
/// read, the first fails too and writes nothing.
///
/// The first claim must change how the item is written. It does not where
/// the item already says that the claimant claimed it at the very moment of
/// the new claim.
pub proof fn lemma_one_claim(
    state: ServerState,
    item: ScheduleItemView,
    first: Uuid,
    first_at: u64,
)
    requires
        json_text(claimed(item, first, first_at).json()) != json_text(item.json()),
    ensures
        ({
            let key = schedule_items_key();
            let field = hyphenated_text(item.uuid.value);
            let expected = json_text(item.json());
            let after = state.check_set(
                key,
                field,
                expected,
                json_text(claimed(item, first, first_at).json()),
            );
            &&& !after.check(key, field, expected)
            &&& !state.check(key, field, expected) ==> after == state
        }),
{
    let key = schedule_items_key();
    let field = hyphenated_text(item.uuid.value);
    let expected = json_text(item.json());
    let new = json_text(claimed(item, first, first_at).json());
    if state.check(key, field, expected) {
        assert(state.hset(key, field, new).hget(key, field) == Some(new));
    }
}

/// Two schedulers that find the same item due, one after the other, where
/// the server holds the item as both read it: the first claims it, the
/// second loses it and leaves the server as the first left it. So only the
/// first can have enqueued a job.
pub proof fn lemma_single_claim_per_tick(
    start: ServerState,
    item: ScheduleItemView,
    first: Uuid,
    first_type: Uuid,
    first_now: u64,
    first_at: u64,
    first_outcome: Outcome,
    between: ServerState,
    second: Uuid,
    second_type: Uuid,
    second_now: u64,
    second_at: u64,
    second_outcome: Outcome,
    end: ServerState,
)
    requires
        is_due(item, first_now),
        is_due(item, second_now),
        start.check(schedule_items_key(), hyphenated_text(item.uuid.value), json_text(item.json())),
        json_text(claimed(item, first, first_at).json()) != json_text(item.json()),
        scheduled(start, first, first_type, item, first_now, first_at, first_outcome, between),
        scheduled(between, second, second_type, item, second_now, second_at, second_outcome, end),
    ensures
        !(first_outcome is Lost) && !(first_outcome is NotDue),
        second_outcome is Lost,
        end == between,
{
    let key = schedule_items_key();
    let field = hyphenated_text(item.uuid.value);
    let new = json_text(claimed(item, first, first_at).json());
    let claim = start.hset(key, field, new);
    assert(claim.hget(key, field) == Some(new));
    assert(between.fields == claim.fields);
    assert(between.hget(key, field) == Some(new));
}

/// Two nodes that claim a schedule item as both read it, one after the
/// other, where the server holds the item as read: the first claim goes
/// through and the second does not, and the server holds the item as the
/// first claimant wrote it, with that claimant as the last to schedule it.
///
/// The first claim must change how the item is written.
pub proof fn lemma_two_claims(
    start: ServerState,
    item: ScheduleItemView,
    first: Uuid,
    first_outcome: Option<ScheduleItemView>,
    between: ServerState,
    second: Uuid,
    second_outcome: Option<ScheduleItemView>,
    end: ServerState,
)
    requires
        start.check(schedule_items_key(), hyphenated_text(item.uuid.value), json_text(item.json())),
        claim_made(start, first, item, first_outcome, between),
        claim_made(between, second, item, second_outcome, end),
        first_outcome matches Some(new) ==> json_text(new.json()) != json_text(item.json()),
    ensures
        first_outcome is Some,
        second_outcome is None,
        first_outcome->Some_0.last_scheduled_by == Some(first),
        end == between,
        end.hget(schedule_items_key(), hyphenated_text(item.uuid.value)) == Some(
            json_text(first_outcome->Some_0.json()),
        ),
{
    let key = schedule_items_key();
    let field = hyphenated_text(item.uuid.value);
    let new = first_outcome->Some_0;
    assert(start.hset(key, field, json_text(new.json())).hget(key, field) == Some(
        json_text(new.json()),
    ));
}

/// Different node types have different queues and different hashes of jobs.
pub proof fn lemma_keys_apart(one: Uuid, other: Uuid)
    requires
        one != other,
    ensures
        waiting_key(one) != waiting_key(other),
        in_progress_key(one) != in_progress_key(other),
        finished_key(one) != finished_key(other),
{
    let a = hyphenated_text(one.value);
    let b = hyphenated_text(other.value);
    if a == b {
        lemma_hyphenated_injective(one.value, other.value);
    }
    lemma_prefix_cancels("jobs_waiting_"@, a, b);
    lemma_prefix_cancels("jobs_in_progress_"@, a, b);
    lemma_prefix_cancels("jobs_finished_"@, a, b);
}

proof fn lemma_prefix_cancels(prefix: Seq<char>, a: Seq<char>, b: Seq<char>)
    requires
        a != b,
    ensures
        prefix + a != prefix + b,
{
    if prefix + a == prefix + b {
        assert((prefix + a).subrange(prefix.len() as int, (prefix + a).len() as int) =~= a);
        assert((prefix + b).subrange(prefix.len() as int, (prefix + b).len() as int) =~= b);
    }
}

/// The hash of the jobs in progress and the hash of the finished jobs of
/// one node type are different keys.
pub proof fn lemma_three_keys(node_type: Uuid)
    ensures
        in_progress_key(node_type) != finished_key(node_type),
{
    lemma_hyphenated_len(node_type.value);
    reveal_strlit("jobs_in_progress_");
    reveal_strlit("jobs_finished_");
    assert("jobs_in_progress_"@.len() == 17);
    assert("jobs_finished_"@.len() == 14);
    assert(in_progress_key(node_type).len() == 53);
    assert(finished_key(node_type).len() == 50);
}

/// A job that is enqueued by a node bound to one node type changes nothing
/// in the queue or the hashes of another: the nodes of the other node type
/// neither see the job waiting nor take it.
pub proof fn lemma_queue_partitioning(state: ServerState, bound: Uuid, other: Uuid, text: Seq<char>)
    requires
        bound != other,
    ensures
        ({
            let after = state.rpush(waiting_key(bound), text);
            &&& after.list(waiting_key(bound)) == state.list(waiting_key(bound)).push(text)
            &&& after.list(waiting_key(other)) == state.list(waiting_key(other))
            &&& after.fields == state.fields
        }),
{
    lemma_keys_apart(bound, other);
}

/// Whether a text of the queue is a job with the given identifier.
pub open spec fn is_job(text: Seq<char>, id: Uuid) -> bool {
    decoded::<Job>(text) matches Ok(job) && job.uuid == id
}

/// How often a job with the given identifier waits in a queue.
pub open spec fn queued(texts: Seq<Seq<char>>, id: Uuid) -> nat
    decreases texts.len(),
{
    if texts.len() == 0 {
        0
    } else {
        queued(texts.drop_last(), id) + if is_job(texts.last(), id) {
            1nat
        } else {
            0nat
        }
    }
}

/// In how many places the server holds a job of a node type: once for each
/// time it waits in the queue, once if it is in progress, once if it is
/// finished.
pub open spec fn places(state: ServerState, node_type: Uuid, id: Uuid) -> nat {
    queued(state.list(waiting_key(node_type)), id) + if state.hget(
        in_progress_key(node_type),
        hyphenated_text(id.value),
    ) is Some {
        1nat
    } else {
        0nat
    } + if state.hget(finished_key(node_type), hyphenated_text(id.value)) is Some {
        1nat
    } else {
        0nat
    }
}

/// Whether every job of a node type is in one place at most.
pub open spec fn linear(state: ServerState, node_type: Uuid) -> bool {
    forall|id: Uuid| #[trigger] places(state, node_type, id) <= 1
}

proof fn lemma_queued_first(texts: Seq<Seq<char>>, id: Uuid)
    requires
        texts.len() > 0,
    ensures
        queued(texts, id) == queued(texts.drop_first(), id) + if is_job(texts[0], id) {
            1nat
        } else {
            0nat
        },
    decreases texts.len(),
{
    let before = texts.drop_last();
    let rest = texts.drop_first();
    if before.len() == 0 {
        assert(rest.len() == 0);
        assert(texts.last() == texts[0]);
        assert(queued(before, id) == 0);
        assert(queued(rest, id) == 0);
    } else {
        lemma_queued_first(before, id);
        assert(rest.len() > 0);
        assert(rest.drop_last() =~= before.drop_first());
        assert(rest.last() == texts.last());
        assert(before[0] == texts[0]);
        assert(queued(rest, id) == queued(rest.drop_last(), id) + if is_job(rest.last(), id) {
            1nat
        } else {
            0nat
        });
    }
}

/// Enqueueing keeps every job in one place, where the text that is pushed
/// is not a job that the server holds already.
pub proof fn lemma_enqueue_linear(state: ServerState, node_type: Uuid, text: Seq<char>)
    requires
        linear(state, node_type),
        decoded::<Job>(text) matches Ok(job) ==> places(state, node_type, job.uuid) == 0,
    ensures
        linear(state.rpush(waiting_key(node_type), text), node_type),
{
    let after = state.rpush(waiting_key(node_type), text);
    let queue = state.list(waiting_key(node_type));
    assert forall|id: Uuid| #[trigger] places(after, node_type, id) <= 1 by {
        assert(after.list(waiting_key(node_type)) == queue.push(text));
        assert(queue.push(text).drop_last() =~= queue);
        assert(places(state, node_type, id) <= 1);
    }
}

/// Taking a job from the queue keeps every job in one place, and the job
/// that was taken is in progress and nowhere else.
pub proof fn lemma_dequeue_linear(
    before: ServerState,
    node: Uuid,
    node_type: Uuid,
    cache: Map<Uuid, JobTypeView>,
    job: JobView,
    after: ServerState,
)
    requires
        linear(before, node_type),
        took(before, node, node_type, cache, job, after),
    ensures
        linear(after, node_type),
        queued(after.list(waiting_key(node_type)), job.uuid) == 0,
        after.hget(in_progress_key(node_type), hyphenated_text(job.uuid.value)) is Some,
        after.hget(finished_key(node_type), hyphenated_text(job.uuid.value)) is None,
{
    let queue = before.list(waiting_key(node_type));
    let read = decoded::<Job>(queue[0])->Ok_0;
    let popped = before.lpop(waiting_key(node_type));
    let field = hyphenated_text(job.uuid.value);
    lemma_three_keys(node_type);
    assert(job.uuid == read.uuid);
    assert(after.list(waiting_key(node_type)) == queue.drop_first());
    assert forall|id: Uuid| #[trigger] places(after, node_type, id) <= 1 && (id == job.uuid
        ==> places(after, node_type, id) == 1 && queued(queue.drop_first(), id) == 0
        && before.hget(finished_key(node_type), field) is None) by {
        lemma_queued_first(queue, id);
        assert(places(before, node_type, id) <= 1);
        if id != job.uuid {
            if hyphenated_text(id.value) == field {
                lemma_hyphenated_injective(id.value, job.uuid.value);
            }
        }
    }
    assert(places(after, node_type, job.uuid) == 1);
}

/// Finishing a job that is in progress keeps every job in one place, and
/// the job that was finished is among the finished jobs and nowhere else.
pub proof fn lemma_finish_linear(
    before: ServerState,
    node_type: Uuid,
    job: JobView,
    results: Option<JsonView>,
    errors: Option<JsonView>,
    after: ServerState,
)
    requires
        linear(before, node_type),
        before.hget(in_progress_key(node_type), hyphenated_text(job.uuid.value)) is Some,
        finished(before, node_type, job, results, errors, after),
    ensures
        linear(after, node_type),
        queued(after.list(waiting_key(node_type)), job.uuid) == 0,
        after.hget(in_progress_key(node_type), hyphenated_text(job.uuid.value)) is None,
        after.hget(finished_key(node_type), hyphenated_text(job.uuid.value)) is Some,
{
    let field = hyphenated_text(job.uuid.value);
    lemma_three_keys(node_type);
    assert(after.lists == before.lists);
    assert forall|id: Uuid| #[trigger] places(after, node_type, id) <= 1 by {
        assert(places(before, node_type, id) <= 1);
        if id != job.uuid {
            if hyphenated_text(id.value) == field {
                lemma_hyphenated_injective(id.value, job.uuid.value);
            }
        }
    }
    assert(places(before, node_type, job.uuid) <= 1);
}

} // verus!
