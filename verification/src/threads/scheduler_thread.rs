//! The scheduler: it turns the schedule items that are due into jobs.
//!
//! Every node runs a scheduler, and none of them leads. A node that finds an
//! item due tries to claim it; the server lets one claim through for every
//! state of the item, so the item gives one job however many nodes try.

use crate::exec::job::{Job, JobView};
use crate::exec::job_type::JobType;
use crate::ident::{hyphenated_text, Uuid};
use crate::json::{clone_members, json_text};
use crate::scheduler::{ScheduleItem, ScheduleItemView};
use crate::store::record::{agrees_all, records, views};
use crate::store::redis::{
    claimed, enqueued, found, job_types_key, schedule_items_key, server_failed, waiting_key,
    RedisStore,
};
use crate::store::server::{pairs_of, Server, ServerState};
use crate::store::{ErrorKind, StoreError};
use crate::util::time::epoch;
use vstd::prelude::*;

verus! {

/// Whether a schedule item is due at `now`: it was never claimed, or its
/// last claim lies at least one interval back.
pub open spec fn is_due(item: ScheduleItemView, now: u64) -> bool {
    match item.last_scheduled_at {
        None => true,
        Some(last) => now - last >= item.interval,
    }
}

/// Whether a schedule item is due at `now`.
pub fn due(item: &ScheduleItem, now: u64) -> (r: bool)
    ensures
        r == is_due(item@, now),
{
    match item.last_scheduled_at {
        None => true,
        Some(last) => now >= last && now - last >= item.interval,
    }
}

/// The job that a schedule item gives: the item's job type and arguments
/// under an identifier of the job's own, and nothing else yet.
pub open spec fn job_of(item: ScheduleItemView, uuid: Uuid) -> JobView {
    JobView {
        uuid,
        job_type_uuid: item.job_type_uuid,
        job_type: None,
        arguments: item.job_arguments,
        executing_node: None,
        enqueued_at: None,
        started_at: None,
        ended_at: None,
        results: None,
        errors: None,
    }
}

/// Makes the job that a schedule item gives.
pub fn make_job(item: &ScheduleItem, uuid: Uuid, job_type: JobType) -> (job: Job)
    ensures
        job@.persisted() == job_of(item@, uuid),
        job@.job_type == Some(job_type@),
{
    Job {
        uuid,
        job_type_uuid: item.job_type_uuid,
        job_type: Some(job_type),
        arguments: clone_members(&item.job_arguments),
        executing_node: None,
        enqueued_at: None,
        started_at: None,
        ended_at: None,
        results: None,
        errors: None,
    }
}

/// What the scheduler did with one schedule item.
#[derive(Debug, PartialEq)]
pub enum Outcome {
    /// The item is not due.
    NotDue,
    /// Another node claimed the item first, or the item was changed or
    /// deleted in the meantime.
    Lost,
    /// This node claimed the item, and the server holds no job type for it.
    MissingJobType,
    /// This node claimed the item and enqueued the job with this identifier.
    Enqueued(Uuid),
    /// The store failed. An item that was claimed before stays claimed.
    Failed(StoreError),
}

/// What the scheduler does with one item that it judges at `now`: `before`
/// and `after` are what the server holds before and after, `node` and
/// `node_type` say who claims and into which queue the job goes, and `at` is
/// the time that the claim is stamped with.
pub open spec fn scheduled(
    before: ServerState,
    node: Uuid,
    node_type: Uuid,
    item: ScheduleItemView,
    now: u64,
    at: u64,
    outcome: Outcome,
    after: ServerState,
) -> bool {
    let field = hyphenated_text(item.uuid.value);
    let claim = before.hset(schedule_items_key(), field, json_text(claimed(item, node, at).json()));
    if !is_due(item, now) {
        outcome is NotDue && after == before
    } else if !before.check(schedule_items_key(), field, json_text(item.json())) {
        outcome is Lost && after == before
    } else {
        match found::<JobType>(claim, job_types_key(), item.job_type_uuid) {
            Ok(None) => outcome is MissingJobType && after == claim,
            Err(kind) => outcome matches Outcome::Failed(error) && error.kind() == kind && after
                == claim,
            Ok(Some(_)) => outcome matches Outcome::Enqueued(uuid) && exists|pushed: u64|
                after == claim.rpush(
                    waiting_key(node_type),
                    json_text((#[trigger] enqueued(job_of(item, uuid), pushed)).json()),
                ),
        }
    }
}

/// Whether the scheduler gave up on an item because the server failed.
pub open spec fn gave_up(outcome: Outcome) -> bool {
    outcome matches Outcome::Failed(error) && error.kind() is Server
}

/// Does with one schedule item what is due at `now`: claims the item if it
/// is due, and enqueues its job if the claim went through.
pub fn schedule_at<C: Server>(
    store: &RedisStore,
    conn: &mut C,
    item: &ScheduleItem,
    now: u64,
) -> (outcome:
    Outcome)
    requires
        store.bound(),
    ensures
        final(conn).reliable() == old(conn).reliable(),
        gave_up(outcome) ==> !old(conn).reliable(),
        !is_due(item@, now) ==> outcome is NotDue && final(conn).state() == old(conn).state(),
        !gave_up(outcome) ==> exists|at: u64| #[trigger]
            scheduled(
                old(conn).state(),
                store.node.uuid,
                store.node.node_type_uuid->Some_0,
                item@,
                now,
                at,
                outcome,
                final(conn).state(),
            ),
{
    let ghost before = conn.state();
    let ghost node = store.node.uuid;
    let ghost node_type = store.node.node_type_uuid->Some_0;
    if !due(item, now) {
        proof {
            assert(scheduled(before, node, node_type, item@, now, 0, Outcome::NotDue, before));
        }
        return Outcome::NotDue;
    }
    let claim = match store.claim_job_scheduled(conn, item) {
        Err(error) => {
            return Outcome::Failed(error);
        },
        Ok(None) => {
            proof {
                assert(scheduled(before, node, node_type, item@, now, 0, Outcome::Lost, before));
            }
            return Outcome::Lost;
        },
        Ok(Some(claim)) => claim,
    };
    let ghost at = choose|at: u64| claim@ == #[trigger] claimed(item@, node, at);
    let ghost claimed_state = conn.state();
    let outcome = match store.get_job_type(conn, item.job_type_uuid) {
        Err(error) => Outcome::Failed(error),
        Ok(None) => Outcome::MissingJobType,
        Ok(Some(job_type)) => {
            let uuid = Uuid::new_v4();
            let job = make_job(item, uuid, job_type);
            proof {
                assert(job@.json() == job_of(item@, uuid).json());
            }
            match store.enqueue_job(conn, job) {
                Err(error) => Outcome::Failed(error),
                Ok(()) => {
                    proof {
                        let pushed = choose|pushed: u64|
                            conn.state() == claimed_state.rpush(
                                waiting_key(node_type),
                                json_text((#[trigger] enqueued(job@, pushed)).json()),
                            );
                        assert(enqueued(job@, pushed).json() == enqueued(
                            job_of(item@, uuid),
                            pushed,
                        ).json());
                    }
                    Outcome::Enqueued(uuid)
                },
            }
        },
    };
    proof {
        if !gave_up(outcome) {
            assert(scheduled(before, node, node_type, item@, now, at, outcome, conn.state()));
        }
    }
    outcome
}

/// What one turn of the scheduler does with a list of items, all judged at
/// `now`: the server goes through `states`, from what it holds before the
/// first item to what it holds after the last. Where the scheduler gave up
/// on an item, nothing is known of what the server holds after it.
pub open spec fn ran(
    states: Seq<ServerState>,
    node: Uuid,
    node_type: Uuid,
    items: Seq<ScheduleItemView>,
    now: u64,
    outcomes: Seq<Outcome>,
) -> bool {
    &&& states.len() == items.len() + 1
    &&& outcomes.len() == items.len()
    &&& forall|i: int|
        0 <= i < items.len() ==> gave_up(#[trigger] outcomes[i]) || exists|at: u64| #[trigger]
            scheduled(
                states[i],
                node,
                node_type,
                items[i],
                now,
                at,
                outcomes[i],
                states[i + 1],
            )
}

/// What one turn of the scheduler does: it reads the listing `flat` of the
/// schedule, judges every item of it at `now`, and takes the server from
/// `before` to `after` through `states`.
pub open spec fn turned(
    before: ServerState,
    node: Uuid,
    node_type: Uuid,
    flat: Seq<Seq<char>>,
    now: u64,
    states: Seq<ServerState>,
    outcomes: Seq<Outcome>,
    after: ServerState,
) -> bool {
    &&& before.listed(schedule_items_key(), flat)
    &&& records::<ScheduleItem>(pairs_of(flat)) matches Ok(items) && ran(
        states,
        node,
        node_type,
        items,
        now,
        outcomes,
    )
    &&& states.first() == before
    &&& states.last() == after
}

/// One turn of the scheduler: reads the schedule and the clock, and does
/// with every item what is due. The turn fails where the schedule cannot be
/// read; else it says, item by item, what was done.
pub fn run_loop<C: Server>(
    store: &RedisStore,
    conn: &mut C,
) -> (r: Result<Vec<Outcome>, StoreError>)
    requires
        store.bound(),
    ensures
        final(conn).reliable() == old(conn).reliable(),
        server_failed(r) ==> !old(conn).reliable(),
        r is Err && !server_failed(r) ==> final(conn).state() == old(conn).state() && exists|
            flat: Seq<Seq<char>>,
        |
            old(conn).state().listed(schedule_items_key(), flat) && agrees_all::<ScheduleItem>(
                Err(r->Err_0),
                #[trigger] records::<ScheduleItem>(pairs_of(flat)),
            ),
        r is Ok ==> exists|flat: Seq<Seq<char>>, now: u64, states: Seq<ServerState>| #[trigger]
            turned(
                old(conn).state(),
                store.node.uuid,
                store.node.node_type_uuid->Some_0,
                flat,
                now,
                states,
                r->Ok_0@,
                final(conn).state(),
            ),
{
    let ghost node = store.node.uuid;
    let ghost node_type = store.node.node_type_uuid->Some_0;
    let ghost start = conn.state();
    let job_schedule = match store.get_job_schedule(conn) {
        Err(error) => {
            return Err(error);
        },
        Ok(job_schedule) => job_schedule,
    };
    let ghost flat = choose|flat: Seq<Seq<char>>|
        start.listed(schedule_items_key(), flat) && agrees_all(
            Ok::<Vec<ScheduleItem>, StoreError>(job_schedule),
            #[trigger] records::<ScheduleItem>(pairs_of(flat)),
        );
    let ghost items = views(job_schedule@);
    let eval_time = epoch();
    let mut outcomes: Vec<Outcome> = Vec::new();
    let ghost mut states: Seq<ServerState> = seq![start];
    proof {
        assert(states.first() == start);
    }
    let mut i: usize = 0;
    while i < job_schedule.len()
        invariant
            i <= job_schedule.len(),
            store.bound(),
            node == store.node.uuid,
            node_type == store.node.node_type_uuid->Some_0,
            items == views(job_schedule@),
            conn.reliable() == old(conn).reliable(),
            states.len() == i + 1,
            states[0] == start,
            states.last() == conn.state(),
            ran(states, node, node_type, items.subrange(0, i as int), eval_time, outcomes@),
        decreases job_schedule.len() - i,
    {
        let ghost before = conn.state();
        let ghost states_before = states;
        let ghost outcomes_before = outcomes@;
        let outcome = schedule_at(store, conn, &job_schedule[i], eval_time);
        let ghost after = conn.state();
        let ghost this = outcome;
        proof {
            states = states.push(after);
        }
        outcomes.push(outcome);
        proof {
            let upto = items.subrange(0, i + 1);
            assert forall|k: int| 0 <= k < upto.len() implies gave_up(#[trigger] outcomes@[k])
                || exists|at: u64| #[trigger]
                scheduled(
                    states[k],
                    node,
                    node_type,
                    upto[k],
                    eval_time,
                    at,
                    outcomes@[k],
                    states[k + 1],
                ) by {
                if k < i {
                    assert(outcomes@[k] == outcomes_before[k]);
                    assert(states[k] == states_before[k]);
                    assert(states[k + 1] == states_before[k + 1]);
                    assert(upto[k] == items.subrange(0, i as int)[k]);
                } else {
                    assert(upto[k] == job_schedule[i as int]@);
                    assert(states[k] == before);
                    assert(states[k + 1] == after);
                    assert(outcomes@[k] == this);
                    if !gave_up(this) {
                        let at = choose|at: u64| #[trigger]
                            scheduled(
                                before,
                                node,
                                node_type,
                                job_schedule[i as int]@,
                                eval_time,
                                at,
                                this,
                                after,
                            );
                        assert(scheduled(
                            states[k],
                            node,
                            node_type,
                            upto[k],
                            eval_time,
                            at,
                            outcomes@[k],
                            states[k + 1],
                        ));
                    }
                }
            }
        }
        i += 1;
    }
    proof {
        assert(items.subrange(0, job_schedule.len() as int) =~= items);
        assert(records::<ScheduleItem>(pairs_of(flat)) == Ok::<Seq<ScheduleItemView>, ErrorKind>(
            items,
        ));
        assert(turned(
            old(conn).state(),
            store.node.uuid,
            store.node.node_type_uuid->Some_0,
            flat,
            eval_time,
            states,
            outcomes@,
            conn.state(),
        ));
    }
    let ghost listed = outcomes@;
    let r = Ok(outcomes);
    assert(r->Ok_0@ == listed);
    r
}

} // verus!
