//! `/api/jobs`: the jobs of a node type, by the place they are in.
//!
//! The store of a node reads the queue and the hashes of the node type that
//! the node is bound to. To read those of another node type, a request binds
//! the store to that node type for as long as it reads, and binds it back
//! afterwards. The binding is made in the store alone: the record of the
//! node in the server stays as it is.
//!
//! A job that is posted goes to the queue of the node type that its job
//! type names, whichever node type the store is bound to.

use crate::codec::{
    decoding, field_object, field_uuid, get_object, get_uuid, push_member, put_object, put_uuid,
    uuid_json, DecodeError, Members,
};
use crate::exec::job::{Job, JobView};
use crate::exec::job_type::JobType;
use crate::exec::node_type::{NodeType, NodeTypeView};
use crate::http::controllers::api::{
    answer, answer_all, arg_view, found_or_status, get_uuid_from_arg, redis_error_translate,
    uuid_of_arg, wrap, wrapped,
};
pub use crate::http::controllers::api::PostResponse;
use crate::http::helpers::control::Status;
use crate::ident::Uuid;
use crate::json::{
    clone_members, json_text, lemma_member_push, lemma_object_view, member, members_view, Json,
    JsonView,
};
use crate::exec::job_type::JobTypeView;
use crate::store::record::{
    agrees_all, list_json, records, records_of_texts, views, written_list,
};
use crate::store::{find_named, named};
use crate::store::redis::{
    cache_view, enqueued, finished_key, found, found_unchecked, hydrated_one, in_progress_key,
    job_types_key, node_types_key, read_and_hydrated, waiting_key, RedisStore,
};
use crate::store::server::{pairs_of, Server, ServerState};
use crate::store::{ErrorKind, StoreError};
use vstd::prelude::*;

verus! {

/// The answer to a request for the jobs of a node type.
#[derive(Debug, PartialEq)]
pub struct IndexResponse {
    pub jobs: Vec<Job>,
}

impl IndexResponse {
    /// Writes the answer as a JSON object.
    pub fn to_json(&self) -> (value: Json)
        ensures
            value@ == wrapped("jobs"@, written_list::<Job>(views(self.jobs@))),
    {
        wrap("jobs", list_json::<Job>(&self.jobs))
    }
}

/// The place of a job.
#[derive(Clone, Copy, Debug, PartialEq, Eq, Structural)]
pub enum Place {
    Queued,
    InProgress,
    Finished,
}

/// Whether `outcome` is what reading the jobs of a node type that are in
/// one place comes to, for a node that remembers the job types of `cache`:
/// the jobs, each with its job type, or the failure of the first job that
/// cannot be read or whose job type cannot be had.
pub open spec fn jobs_read(
    state: ServerState,
    node_type: Uuid,
    place: Place,
    cache: Map<Uuid, JobTypeView>,
    outcome: Result<Seq<JobView>, ErrorKind>,
) -> bool {
    match place {
        Place::Queued => outcome == read_and_hydrated(
            records_of_texts::<Job>(state.list(waiting_key(node_type))),
            state,
            cache,
        ),
        Place::InProgress => exists|flat: Seq<Seq<char>>|
            state.listed(in_progress_key(node_type), flat) && outcome == read_and_hydrated(
                #[trigger] records::<Job>(pairs_of(flat)),
                state,
                cache,
            ),
        Place::Finished => exists|flat: Seq<Seq<char>>|
            state.listed(finished_key(node_type), flat) && outcome == read_and_hydrated(
                #[trigger] records::<Job>(pairs_of(flat)),
                state,
                cache,
            ),
    }
}

/// What looking up a finished job of a node type comes to, for a node that
/// remembers the job types of `cache`.
pub open spec fn job_looked_up(
    state: ServerState,
    node_type: Uuid,
    id: Uuid,
    cache: Map<Uuid, JobTypeView>,
) -> Result<Option<JobView>, ErrorKind> {
    match found_unchecked::<Job>(state, finished_key(node_type), id) {
        Err(kind) => Err(kind),
        Ok(None) => Ok(None),
        Ok(Some(job)) => match hydrated_one(job, state, cache) {
            Ok(job) => Ok(Some(job)),
            Err(kind) => Err(kind),
        },
    }
}

/// Whether a store is bound to its own node type again, as the server
/// holds that node type.
pub open spec fn bound_back(before: RedisStore, own: NodeTypeView, after: RedisStore) -> bool {
    after.node.node_type_uuid == before.node.node_type_uuid && after.node@.node_type == Some(own)
}

/// What a reading of jobs has come to, by the values of the jobs and the
/// kind of the failure.
pub open spec fn reading_view(read: Result<Vec<Job>, StoreError>) -> Result<
    Seq<JobView>,
    ErrorKind,
> {
    match read {
        Ok(jobs) => Ok(views(jobs@)),
        Err(error) => Err(error.kind()),
    }
}

/// A list of jobs or a refusal, by the values of the jobs.
pub open spec fn listing_view(r: Result<Vec<Job>, Status>) -> Result<Seq<JobView>, Status> {
    match r {
        Ok(jobs) => Ok(views(jobs@)),
        Err(status) => Err(status),
    }
}

/// The jobs of an answer or a refusal, by the values of the jobs.
pub open spec fn response_view(r: Result<IndexResponse, Status>) -> Result<Seq<JobView>, Status> {
    match r {
        Ok(response) => Ok(views(response.jobs@)),
        Err(status) => Err(status),
    }
}

/// A job or a refusal, by the value of the job.
pub open spec fn job_view(r: Result<Job, Status>) -> Result<JobView, Status> {
    match r {
        Ok(job) => Ok(job@),
        Err(status) => Err(status),
    }
}

/// The summaries of a listing that was not refused.
pub open spec fn summarized(read: Result<Seq<JobView>, Status>) -> Result<Seq<JobView>, Status> {
    match read {
        Ok(jobs) => Ok(summaries(jobs)),
        Err(status) => Err(status),
    }
}

/// What a request for the jobs of a place is answered with on a server
/// that does not fail.
///
/// An identifier that cannot be read is refused with 400, and a node type
/// that the server does not hold with 404; the store is then as it was.
/// Else the store is bound to the node type, reads, and is bound back.
/// Where its own node type is gone by then, or cannot be read, that is the
/// answer, and the store stays bound to the other node type. Else the store
/// is bound to its own node type as the server now holds it, whatever the
/// reading has come to, and the answer is the jobs that were read, or 500
/// where they could not be read.
pub open spec fn listing_answered(
    state: ServerState,
    before: RedisStore,
    arg: Option<Seq<char>>,
    place: Place,
    r: Result<Seq<JobView>, Status>,
    after: RedisStore,
) -> bool {
    match uuid_of_arg(arg) {
        Err(status) => r == Err::<Seq<JobView>, Status>(status) && after == before,
        Ok(node_type) => match answer(found::<NodeType>(state, node_types_key(), node_type)) {
            Err(status) => r == Err::<Seq<JobView>, Status>(status) && after == before,
            Ok(_) => match answer(
                found::<NodeType>(state, node_types_key(), before.node.node_type_uuid->Some_0),
            ) {
                Err(status) => r == Err::<Seq<JobView>, Status>(status)
                    && after.node.node_type_uuid == Some(node_type),
                Ok(own) => bound_back(before, own, after) && exists|
                    outcome: Result<Seq<JobView>, ErrorKind>,
                |
                    #![trigger answer_all(outcome)]
                    jobs_read(state, node_type, place, cache_view(before.job_types@), outcome)
                        && r == answer_all(outcome),
            },
        },
    }
}

/// A finished job as a listing shows it: without its job type, and with
/// `true` or `false` in place of its results and in place of its errors,
/// saying whether there are any.
pub open spec fn summary(job: JobView) -> JobView {
    JobView {
        job_type: None,
        results: Some(JsonView::Bool(job.results is Some)),
        errors: Some(JsonView::Bool(job.errors is Some)),
        ..job
    }
}

/// Makes the summary of a finished job.
pub fn summarize(job: &Job) -> (r: Job)
    ensures
        r@ == summary(job@),
{
    Job {
        uuid: job.uuid,
        job_type_uuid: job.job_type_uuid,
        job_type: None,
        arguments: clone_members(&job.arguments),
        executing_node: job.executing_node,
        enqueued_at: job.enqueued_at,
        started_at: job.started_at,
        ended_at: job.ended_at,
        results: Some(Json::Bool(job.results.is_some())),
        errors: Some(Json::Bool(job.errors.is_some())),
    }
}

/// The summaries of a list of finished jobs.
pub open spec fn summaries(jobs: Seq<JobView>) -> Seq<JobView> {
    Seq::new(jobs.len(), |i: int| summary(jobs[i]))
}

/// Makes the summaries of a list of finished jobs.
pub fn summarize_all(jobs: &Vec<Job>) -> (r: Vec<Job>)
    ensures
        views(r@) == summaries(views(jobs@)),
{
    let mut list: Vec<Job> = Vec::new();
    let mut i: usize = 0;
    while i < jobs.len()
        invariant
            i <= jobs.len(),
            list.len() == i,
            forall|k: int| 0 <= k < i ==> (#[trigger] list[k])@ == summary(jobs[k]@),
        decreases jobs.len() - i,
    {
        list.push(summarize(&jobs[i]));
        i += 1;
    }
    proof {
        assert(views(list@) =~= summaries(views(jobs@)));
    }
    list
}

/// Reads the jobs that are in one place, for the node type that the route
/// names. The store is bound to that node type while it reads and to its
/// own node type again when the request is answered. A node type that the
/// server does not hold is refused with 404, and so is a request whose
/// store cannot be bound back because its own node type is gone.
pub fn list_jobs<C: Server>(
    store: &mut RedisStore,
    conn: &mut C,
    node_type_uuid: Option<&str>,
    place: Place,
) -> (r: Result<Vec<Job>, Status>)
    requires
        old(store).bound(),
    ensures
        final(conn).reliable() == old(conn).reliable(),
        final(store).node.uuid == old(store).node.uuid,
        final(store).node.last_ping == old(store).node.last_ping,
        final(store).ping_interval == old(store).ping_interval,
        uuid_of_arg(arg_view(node_type_uuid)) is Err ==> r == Err::<Vec<Job>, Status>(
            Status::BadRequest,
        ) && *final(store) == *old(store) && final(conn).state() == old(conn).state(),
        final(store).node.node_type_uuid == old(store).node.node_type_uuid || (uuid_of_arg(
            arg_view(node_type_uuid),
        ) is Ok && final(store).node.node_type_uuid == Some(
            uuid_of_arg(arg_view(node_type_uuid))->Ok_0,
        )),
        r is Ok ==> final(store).node.node_type_uuid == old(store).node.node_type_uuid,
        old(conn).reliable() ==> final(conn).state() == old(conn).state() && listing_answered(
            old(conn).state(),
            *old(store),
            arg_view(node_type_uuid),
            place,
            listing_view(r),
            *final(store),
        ),
{
    let ghost state = conn.state();
    let ghost cache = cache_view(store.job_types@);
    let current = match store.node.node_type_uuid {
        Some(current) => current,
        None => {
            return Err(Status::InternalServerError);
        },
    };
    let target = match get_uuid_from_arg(node_type_uuid) {
        Ok(target) => target,
        Err(status) => {
            return Err(status);
        },
    };
    match found_or_status(store.set_node_type_soft(conn, target)) {
        Ok(()) => {},
        Err(status) => {
            return Err(status);
        },
    }
    let read = match place {
        Place::Queued => store.get_all_jobs_waiting(conn),
        Place::InProgress => store.get_all_jobs_in_progress(conn),
        Place::Finished => store.get_all_jobs_finished(conn),
    };
    let ghost outcome = reading_view(read);
    proof {
        if conn.reliable() {
            assert(jobs_read(state, target, place, cache, outcome));
        }
    }
    let jobs = redis_error_translate(read);
    let r = match found_or_status(store.set_node_type_soft(conn, current)) {
        Ok(()) => jobs,
        Err(status) => Err(status),
    };
    proof {
        if conn.reliable() && r is Ok {
            assert(listing_view(r) == answer_all(outcome));
        }
    }
    r
}

/// Lists the jobs that wait for a node of the node type that the route names.
pub fn index_queued<C: Server>(
    store: &mut RedisStore,
    conn: &mut C,
    node_type_uuid: Option<&str>,
) -> (r: Result<IndexResponse, Status>)
    requires
        old(store).bound(),
    ensures
        final(conn).reliable() == old(conn).reliable(),
        final(store).node.uuid == old(store).node.uuid,
        uuid_of_arg(arg_view(node_type_uuid)) is Err ==> r == Err::<IndexResponse, Status>(
            Status::BadRequest,
        ) && *final(store) == *old(store) && final(conn).state() == old(conn).state(),
        final(store).node.node_type_uuid == old(store).node.node_type_uuid || (uuid_of_arg(
            arg_view(node_type_uuid),
        ) is Ok && final(store).node.node_type_uuid == Some(
            uuid_of_arg(arg_view(node_type_uuid))->Ok_0,
        )),
        r is Ok ==> final(store).node.node_type_uuid == old(store).node.node_type_uuid,
        old(conn).reliable() ==> final(conn).state() == old(conn).state() && listing_answered(
            old(conn).state(),
            *old(store),
            arg_view(node_type_uuid),
            Place::Queued,
            response_view(r),
            *final(store),
        ),
{
    match list_jobs(store, conn, node_type_uuid, Place::Queued) {
        Err(status) => Err(status),
        Ok(jobs) => {
            let ghost listed = views(jobs@);
            let response = IndexResponse { jobs };
            assert(views(response.jobs@) == listed);
            Ok(response)
        },
    }
}

/// Lists the jobs in progress on the nodes of the node type that the route names.
pub fn index_in_progress<C: Server>(
    store: &mut RedisStore,
    conn: &mut C,
    node_type_uuid: Option<&str>,
) -> (r: Result<IndexResponse, Status>)
    requires
        old(store).bound(),
    ensures
        final(conn).reliable() == old(conn).reliable(),
        final(store).node.uuid == old(store).node.uuid,
        uuid_of_arg(arg_view(node_type_uuid)) is Err ==> r == Err::<IndexResponse, Status>(
            Status::BadRequest,
        ) && *final(store) == *old(store) && final(conn).state() == old(conn).state(),
        final(store).node.node_type_uuid == old(store).node.node_type_uuid || (uuid_of_arg(
            arg_view(node_type_uuid),
        ) is Ok && final(store).node.node_type_uuid == Some(
            uuid_of_arg(arg_view(node_type_uuid))->Ok_0,
        )),
        r is Ok ==> final(store).node.node_type_uuid == old(store).node.node_type_uuid,
        old(conn).reliable() ==> final(conn).state() == old(conn).state() && listing_answered(
            old(conn).state(),
            *old(store),
            arg_view(node_type_uuid),
            Place::InProgress,
            response_view(r),
            *final(store),
        ),
{
    match list_jobs(store, conn, node_type_uuid, Place::InProgress) {
        Err(status) => Err(status),
        Ok(jobs) => {
            let ghost listed = views(jobs@);
            let response = IndexResponse { jobs };
            assert(views(response.jobs@) == listed);
            Ok(response)
        },
    }
}

/// Lists the jobs that the nodes of the node type that the route names
/// have finished, each as its summary.
pub fn index_finished<C: Server>(
    store: &mut RedisStore,
    conn: &mut C,
    node_type_uuid: Option<&str>,
) -> (r: Result<IndexResponse, Status>)
    requires
        old(store).bound(),
    ensures
        final(conn).reliable() == old(conn).reliable(),
        final(store).node.uuid == old(store).node.uuid,
        uuid_of_arg(arg_view(node_type_uuid)) is Err ==> r == Err::<IndexResponse, Status>(
            Status::BadRequest,
        ) && *final(store) == *old(store) && final(conn).state() == old(conn).state(),
        final(store).node.node_type_uuid == old(store).node.node_type_uuid || (uuid_of_arg(
            arg_view(node_type_uuid),
        ) is Ok && final(store).node.node_type_uuid == Some(
            uuid_of_arg(arg_view(node_type_uuid))->Ok_0,
        )),
        r is Ok ==> final(store).node.node_type_uuid == old(store).node.node_type_uuid,
        old(conn).reliable() ==> final(conn).state() == old(conn).state() && exists|
            read: Result<Seq<JobView>, Status>,
        |
            #![trigger summarized(read)]
            listing_answered(
                old(conn).state(),
                *old(store),
                arg_view(node_type_uuid),
                Place::Finished,
                read,
                *final(store),
            ) && response_view(r) == summarized(read),
{
    let listing = list_jobs(store, conn, node_type_uuid, Place::Finished);
    let ghost read = listing_view(listing);
    let r = match listing {
        Err(status) => Err(status),
        Ok(finished) => {
            let jobs = summarize_all(&finished);
            let ghost listed = views(jobs@);
            let response = IndexResponse { jobs };
            assert(views(response.jobs@) == listed);
            Ok(response)
        },
    };
    proof {
        assert(response_view(r) == summarized(read));
    }
    r
}

/// What a request for one finished job is answered with on a server that
/// does not fail: as a request for the jobs of a place, with the lookup of
/// the job in place of the reading, and 404 where there is no such job.
pub open spec fn job_answered(
    state: ServerState,
    before: RedisStore,
    node_type_arg: Option<Seq<char>>,
    arg: Option<Seq<char>>,
    r: Result<JobView, Status>,
    after: RedisStore,
) -> bool {
    match (uuid_of_arg(node_type_arg), uuid_of_arg(arg)) {
        (Ok(node_type), Ok(id)) => match answer(
            found::<NodeType>(state, node_types_key(), node_type),
        ) {
            Err(status) => r == Err::<JobView, Status>(status) && after == before,
            Ok(_) => match answer(
                found::<NodeType>(state, node_types_key(), before.node.node_type_uuid->Some_0),
            ) {
                Err(status) => r == Err::<JobView, Status>(status)
                    && after.node.node_type_uuid == Some(node_type),
                Ok(own) => bound_back(before, own, after) && r == answer(
                    job_looked_up(state, node_type, id, cache_view(before.job_types@)),
                ),
            },
        },
        _ => r == Err::<JobView, Status>(Status::BadRequest) && after == before,
    }
}

/// Shows the finished job that the route names, with its results and its
/// errors in full, among the jobs of the node type that the route names.
pub fn get<C: Server>(
    store: &mut RedisStore,
    conn: &mut C,
    node_type_uuid: Option<&str>,
    uuid: Option<&str>,
) -> (r: Result<Job, Status>)
    requires
        old(store).bound(),
    ensures
        final(conn).reliable() == old(conn).reliable(),
        final(store).node.uuid == old(store).node.uuid,
        uuid_of_arg(arg_view(node_type_uuid)) is Err || uuid_of_arg(arg_view(uuid)) is Err
            ==> r == Err::<Job, Status>(Status::BadRequest) && *final(store) == *old(store)
            && final(conn).state() == old(conn).state(),
        final(store).node.node_type_uuid == old(store).node.node_type_uuid || (uuid_of_arg(
            arg_view(node_type_uuid),
        ) is Ok && final(store).node.node_type_uuid == Some(
            uuid_of_arg(arg_view(node_type_uuid))->Ok_0,
        )),
        r is Ok ==> final(store).node.node_type_uuid == old(store).node.node_type_uuid,
        old(conn).reliable() ==> final(conn).state() == old(conn).state() && job_answered(
            old(conn).state(),
            *old(store),
            arg_view(node_type_uuid),
            arg_view(uuid),
            job_view(r),
            *final(store),
        ),
{
    let target = match get_uuid_from_arg(node_type_uuid) {
        Ok(target) => target,
        Err(status) => {
            return Err(status);
        },
    };
    let job_uuid = match get_uuid_from_arg(uuid) {
        Ok(job_uuid) => job_uuid,
        Err(status) => {
            return Err(status);
        },
    };
    let current = match store.node.node_type_uuid {
        Some(current) => current,
        None => {
            return Err(Status::InternalServerError);
        },
    };
    match found_or_status(store.set_node_type_soft(conn, target)) {
        Ok(()) => {},
        Err(status) => {
            return Err(status);
        },
    }
    let job = found_or_status(store.get_finished_job(conn, job_uuid));
    match found_or_status(store.set_node_type_soft(conn, current)) {
        Ok(()) => job,
        Err(status) => Err(status),
    }
}

/// What a request for a new job says of it.
#[derive(Debug, PartialEq)]
pub struct PostBody {
    pub job_type_uuid: Uuid,
    pub arguments: Vec<(String, Json)>,
}

/// The mathematical value of a [`PostBody`].
pub struct PostBodyView {
    pub job_type_uuid: Uuid,
    pub arguments: Members,
}

impl View for PostBody {
    type V = PostBodyView;

    open spec fn view(&self) -> PostBodyView {
        PostBodyView {
            job_type_uuid: self.job_type_uuid,
            arguments: members_view(self.arguments@),
        }
    }
}

impl Clone for PostBody {
    fn clone(&self) -> (copy: Self)
        ensures
            copy@ == self@,
    {
        PostBody {
            job_type_uuid: self.job_type_uuid,
            arguments: clone_members(&self.arguments),
        }
    }
}

impl PostBodyView {
    /// The JSON object that stands for the request.
    pub open spec fn json(self) -> JsonView {
        JsonView::Object(
            seq![
                ("job_type_uuid"@, uuid_json(self.job_type_uuid)),
                ("arguments"@, JsonView::Object(self.arguments)),
            ],
        )
    }

    /// The request that a JSON value stands for, if it stands for one.
    pub open spec fn of_json(value: JsonView) -> Option<PostBodyView> {
        match value {
            JsonView::Object(members) => match (
                field_uuid(members, "job_type_uuid"@),
                field_object(members, "arguments"@),
            ) {
                (Some(job_type_uuid), Some(arguments)) => Some(
                    PostBodyView {
                        job_type_uuid,
                        arguments,
                    },
                ),
                _ => None,
            },
            _ => None,
        }
    }

    /// Reading back what was written gives the request that was written.
    pub proof fn lemma_round_trip(self)
        ensures
            Self::of_json(self.json()) == Some(self),
    {
        reveal_strlit("job_type_uuid");
        reveal_strlit("arguments");
        assert("job_type_uuid"@.len() == 13);
        assert("arguments"@.len() == 9);
        crate::ident::lemma_uuid_round_trip(self.job_type_uuid);
        let m0 = Seq::<(Seq<char>, JsonView)>::empty();
        let m1 = m0.push(("job_type_uuid"@, uuid_json(self.job_type_uuid)));
        let m2 = m1.push(("arguments"@, JsonView::Object(self.arguments)));
        assert(self.json()->Object_0 =~= m2);
        assert forall|wanted: Seq<char>| #[trigger] member(m2, wanted) ==
            if wanted == m2.last().0 { Some(m2.last().1) }
            else if wanted == m1.last().0 { Some(m1.last().1) }
            else { None } by {
            lemma_member_push(m0, m1.last().0, m1.last().1, wanted);
            lemma_member_push(m1, m2.last().0, m2.last().1, wanted);
        }
    }
}

impl PostBody {
    /// Writes the request as a JSON object.
    pub fn to_json(&self) -> (value: Json)
        ensures
            value@ == self@.json(),
    {
        let mut members: Vec<(String, Json)> = Vec::new();
        push_member(&mut members, "job_type_uuid", put_uuid(self.job_type_uuid));
        push_member(&mut members, "arguments", put_object(&self.arguments));
        proof {
            lemma_object_view(members);
            assert(members_view(members@) =~= self@.json()->Object_0);
        }
        Json::Object(members)
    }

    /// Reads a request from a JSON value.
    pub fn from_json(value: &Json) -> (r: Option<PostBody>)
        ensures
            r is Some == PostBodyView::of_json(value@) is Some,
            r matches Some(record) ==> Some(record@) == PostBodyView::of_json(value@),
    {
        match value {
            Json::Object(members) => {
                proof {
                    lemma_object_view(*members);
                }
                let job_type_uuid = get_uuid(members, "job_type_uuid");
                let arguments = get_object(members, "arguments");
                match (job_type_uuid, arguments) {
                    (Some(job_type_uuid), Some(arguments)) => Some(
                        PostBody {
                            job_type_uuid,
                            arguments,
                        },
                    ),
                    _ => None,
                }
            },
            _ => None,
        }
    }

    /// The text under which the request is kept.
    pub fn to_text(&self) -> (text: String)
        ensures
            text@ == json_text(self@.json()),
    {
        self.to_json().to_text()
    }

    /// Reads a request from the text under which one is kept.
    pub fn from_text(text: &str) -> (r: Result<PostBody, DecodeError>)
        ensures
            match decoding(text@, |value: JsonView| PostBodyView::of_json(value)) {
                Ok(wanted) => r matches Ok(record) && record@ == wanted,
                Err(message) => r matches Err(error) && error.message() == message,
            },
    {
        match Json::parse(text) {
            Err(message) => Err(DecodeError::Syntax(message)),
            Ok(value) => match PostBody::from_json(&value) {
                Some(record) => Ok(record),
                None => Err(DecodeError::Shape),
            },
        }
    }
}


/// The job that a request asks for, under the identifier that the server chose.
pub open spec fn job_asked(body: PostBodyView, uuid: Uuid) -> JobView {
    JobView {
        uuid,
        job_type_uuid: body.job_type_uuid,
        job_type: None,
        arguments: body.arguments,
        executing_node: None,
        enqueued_at: None,
        started_at: None,
        ended_at: None,
        results: None,
        errors: None,
    }
}

/// What a request for a new job comes to once its job type is found, on a
/// server that does not fail, where `flat` is the listing of the node
/// types.
///
/// A job whose job type names a node type that none of the node types
/// bears is refused with 404. Nothing is written then, nor where the node
/// types cannot be read, which gives 500. Else the job goes to the end of
/// the queue of the first node type of the listing that bears the name,
/// stamped with some moment, and the answer bears its identifier.
pub open spec fn enqueued_for(
    before: ServerState,
    body: PostBodyView,
    job_type: JobTypeView,
    flat: Seq<Seq<char>>,
    r: Result<PostResponse, Status>,
    after: ServerState,
) -> bool {
    match answer_all(records::<NodeType>(pairs_of(flat))) {
        Err(status) => r == Err::<PostResponse, Status>(status) && after == before,
        Ok(node_types) => match named(node_types, job_type.node_type) {
            None => r == Err::<PostResponse, Status>(Status::NotFound) && after == before,
            Some(node_type) => r is Ok && r->Ok_0.status@ == "ok"@ && r->Ok_0.uuid is Some
                && exists|now: u64|
                after == before.rpush(
                    waiting_key(node_type.uuid),
                    json_text(
                        (#[trigger] enqueued(job_asked(body, r->Ok_0.uuid->Some_0), now)).json(),
                    ),
                ),
        },
    }
}

/// What a request for a new job comes to on a server that does not fail: a
/// job of a job type that the server does not hold is refused with 404, one
/// whose job type cannot be read with 500, and nothing is written; else the
/// job is enqueued for the node type that its job type names.
pub open spec fn posted(
    before: ServerState,
    body: PostBodyView,
    r: Result<PostResponse, Status>,
    after: ServerState,
) -> bool {
    match answer(found::<JobType>(before, job_types_key(), body.job_type_uuid)) {
        Err(status) => r == Err::<PostResponse, Status>(status) && after == before,
        Ok(job_type) => exists|flat: Seq<Seq<char>>|
            before.listed(node_types_key(), flat) && #[trigger] enqueued_for(
                before,
                body,
                job_type,
                flat,
                r,
                after,
            ),
    }
}

/// Enqueues a new job under an identifier that the server chooses, in the
/// queue of the node type that the job type of the job names, and answers
/// with the identifier. The node type that the store is bound to plays no
/// part.
pub fn post<C: Server>(store: &RedisStore, conn: &mut C, body: &PostBody) -> (r: Result<
    PostResponse,
    Status,
>)
    ensures
        final(conn).reliable() == old(conn).reliable(),
        r matches Err(status) ==> status == Status::InternalServerError || status
            == Status::NotFound,
        old(conn).reliable() ==> posted(old(conn).state(), body@, r, final(conn).state()),
{
    let ghost before = conn.state();
    let job_type = match found_or_status(store.get_job_type(conn, body.job_type_uuid)) {
        Ok(job_type) => job_type,
        Err(status) => {
            return Err(status);
        },
    };
    let ghost named_by = job_type@;
    let listing = store.get_node_types(conn);
    let ghost flat = choose|flat: Seq<Seq<char>>|
        before.listed(node_types_key(), flat) && agrees_all(
            listing,
            #[trigger] records::<NodeType>(pairs_of(flat)),
        );
    let node_types = match redis_error_translate(listing) {
        Ok(node_types) => node_types,
        Err(status) => {
            proof {
                if conn.reliable() {
                    assert(enqueued_for(
                        before,
                        body@,
                        named_by,
                        flat,
                        Err::<PostResponse, Status>(status),
                        before,
                    ));
                }
            }
            return Err(status);
        },
    };
    let node_type = match find_named(&node_types, &job_type.node_type) {
        Some(node_type) => node_type.uuid,
        None => {
            proof {
                if conn.reliable() {
                    assert(enqueued_for(
                        before,
                        body@,
                        named_by,
                        flat,
                        Err::<PostResponse, Status>(Status::NotFound),
                        before,
                    ));
                }
            }
            return Err(Status::NotFound);
        },
    };
    let job_uuid = Uuid::new_v4();
    let job = Job {
        uuid: job_uuid,
        job_type_uuid: body.job_type_uuid,
        job_type: Some(job_type),
        arguments: clone_members(&body.arguments),
        executing_node: None,
        enqueued_at: None,
        started_at: None,
        ended_at: None,
        results: None,
        errors: None,
    };
    let ghost asked = job@;
    match store.enqueue_job_for(conn, node_type, job) {
        Ok(()) => {},
        Err(_) => {
            return Err(Status::InternalServerError);
        },
    }
    let r = Ok(PostResponse::ok(Some(job_uuid)));
    proof {
        let now = choose|now: u64|
            conn.state() == before.rpush(
                waiting_key(node_type),
                json_text((#[trigger] enqueued(asked, now)).json()),
            );
        assert(enqueued(asked, now).json() == enqueued(job_asked(body@, job_uuid), now).json());
        if conn.reliable() {
            assert(enqueued_for(before, body@, named_by, flat, r, conn.state()));
        }
    }
    r
}

} // verus!
