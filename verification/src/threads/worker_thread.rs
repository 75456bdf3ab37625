//! The worker: it takes a job from the queue, runs it, and finishes it.

use crate::exec::executor::Launcher;
use crate::exec::executors::{asked_after, run_job, verdict};
use crate::exec::job::JobView;
use crate::ident::Uuid;
use crate::json::JsonView;
use crate::store::redis::{
    cache_view, finished, head, lemma_taken_head, server_failed, took, waiting_key, RedisStore,
};
use crate::store::server::{Server, ServerState};
use crate::store::StoreError;
use vstd::prelude::*;

verus! {

/// What one turn of the worker does with the job it took: the server goes
/// from `before` to `after` by way of what it holds once the job is in
/// progress, and the job ends as running it with `launcher` leaves it.
pub open spec fn worked<L: Launcher>(
    before: ServerState,
    node: Uuid,
    node_type: Uuid,
    launcher: L,
    job: JobView,
    after: ServerState,
) -> bool {
    exists|
        cache: Map<Uuid, crate::exec::job_type::JobTypeView>,
        between: ServerState,
        results: Option<JsonView>,
        errors: Option<JsonView>,
    |
        #![trigger
            took(before, node, node_type, cache, job, between),
            finished(between, node_type, job, results, errors, after),
        ]
        took(before, node, node_type, cache, job, between) && verdict(
            job,
            launcher,
            results,
            errors,
        ) && finished(between, node_type, job, results, errors, after)
}

/// One turn of the worker: waits for a job in the queue of the node type
/// that this node is bound to, runs it to its end and finishes it. The turn
/// returns the identifier of the job, or the failure of the store.
pub fn run_loop<C: Server, L: Launcher>(
    store: &mut RedisStore,
    conn: &mut C,
    launcher: &mut L,
) -> (r: Result<Uuid, StoreError>)
    requires
        old(store).bound(),
    ensures
        final(conn).reliable() == old(conn).reliable(),
        final(store).node == old(store).node,
        final(store).ping_interval == old(store).ping_interval,
        old(conn).reliable() && old(conn).state().list(
            waiting_key(old(store).node.node_type_uuid->Some_0),
        ).len() > 0 ==> !server_failed(r) && match head(
            old(conn).state(),
            old(store).node.node_type_uuid->Some_0,
            cache_view(old(store).job_types@),
        ) {
            Ok(found) => r == Ok::<Uuid, StoreError>(found.0.uuid),
            Err(kind) => r matches Err(error) && error.kind() == kind && final(launcher).asked()
                == old(launcher).asked(),
        },
        r matches Ok(id) ==> exists|job: JobView|
            job.uuid == id && final(launcher).asked() == asked_after(job, old(launcher).asked())
                && #[trigger] worked(
                old(conn).state(),
                old(store).node.uuid,
                old(store).node.node_type_uuid->Some_0,
                *old(launcher),
                job,
                final(conn).state(),
            ),
{
    let ghost before = conn.state();
    let ghost cache = cache_view(store.job_types@);
    let ghost node_type = store.node.node_type_uuid->Some_0;
    let taking = store.dequeue_job(conn);
    proof {
        if conn.reliable() && before.list(waiting_key(node_type)).len() > 0 {
            lemma_taken_head(before, store.node.uuid, node_type, cache, taking, conn.state());
        }
    }
    let job = match taking {
        Ok(job) => job,
        Err(error) => {
            return Err(error);
        },
    };
    let ghost between = conn.state();
    let ghost taken = job@;
    let id = job.uuid;
    match run_job(store, conn, launcher, job) {
        Ok(()) => {},
        Err(error) => {
            return Err(error);
        },
    }
    proof {
        let node = store.node.uuid;
        let node_type = store.node.node_type_uuid->Some_0;
        let (results, errors) = choose|results: Option<JsonView>, errors: Option<JsonView>|
            verdict(taken, *old(launcher), results, errors) && #[trigger] finished(
                between,
                node_type,
                taken,
                results,
                errors,
                conn.state(),
            );
        assert(took(before, node, node_type, cache, taken, between));
        assert(worked(before, node, node_type, *old(launcher), taken, conn.state()));
    }
    Ok(id)
}

} // verus!
