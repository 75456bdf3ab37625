//! `/api/job_types`: the job types.

use crate::exec::job_type::{JobType, JobTypeView};
use crate::http::controllers::api::{
    answer, answer_all, arg_view, found_or_status, get_uuid_from_arg, redis_error_translate,
    uuid_of_arg, wrap, wrapped,
};
pub use crate::http::controllers::api::PostResponse;
use crate::http::helpers::control::Status;
use crate::ident::{hyphenated_text, Uuid};
use crate::json::json_text;
use crate::json::{Json, JsonView};
use crate::store::record::{list_json, records, views, written_list};
use crate::codec::{
    decoding, field_bool, field_object, field_opt_u64, field_text, get_bool, get_object,
    get_opt_u64, get_text, opt_u64_json, push_member, put_object, put_opt_u64, put_text,
    DecodeError, Members,
};
use crate::json::{clone_members, lemma_member_push, lemma_object_view, member, members_view};
use crate::store::redis::{found, job_types_key, RedisStore};
use crate::store::server::{pairs_of, Server};
use vstd::prelude::*;

verus! {

/// The answer to a request for all job types.
#[derive(Debug, PartialEq)]
pub struct IndexResponse {
    pub job_types: Vec<JobType>,
}

impl IndexResponse {
    /// Writes the answer as a JSON object.
    pub fn to_json(&self) -> (value: Json)
        ensures
            value@ == wrapped("job_types"@, written_list::<JobType>(views(self.job_types@))),
    {
        wrap("job_types", list_json::<JobType>(&self.job_types))
    }
}

/// Lists all job types.
pub fn index<C: Server>(store: &RedisStore, conn: &mut C) -> (r: Result<IndexResponse, Status>)
    ensures
        final(conn).reliable() == old(conn).reliable(),
        r matches Err(status) ==> status == Status::InternalServerError,
        old(conn).reliable() ==> final(conn).state() == old(conn).state() && exists|
            flat: Seq<Seq<char>>,
        |
            old(conn).state().listed(job_types_key(), flat) && match answer_all(
                #[trigger] records::<JobType>(pairs_of(flat)),
            ) {
                Ok(list) => r matches Ok(response) && views(response.job_types@) == list,
                Err(status) => r == Err::<IndexResponse, Status>(status),
            },
{
    let job_types = redis_error_translate(store.get_job_types(conn))?;
    Ok(IndexResponse { job_types })
}

/// Shows the one of the job types that the route names.
pub fn get<C: Server>(store: &RedisStore, conn: &mut C, uuid: Option<&str>) -> (r: Result<
    JobType,
    Status,
>)
    ensures
        final(conn).reliable() == old(conn).reliable(),
        uuid_of_arg(arg_view(uuid)) is Err ==> r == Err::<JobType, Status>(Status::BadRequest)
            && final(conn).state() == old(conn).state(),
        uuid_of_arg(arg_view(uuid)) is Ok
            && old(conn).reliable() ==> final(conn).state() == old(conn).state() && match answer(
            found::<JobType>(old(conn).state(), job_types_key(), uuid_of_arg(arg_view(uuid))->Ok_0),
        ) {
            Ok(record) => r matches Ok(shown) && shown@ == record,
            Err(status) => r == Err::<JobType, Status>(status),
        },
{
    let uuid = get_uuid_from_arg(uuid)?;
    found_or_status(store.get_job_type(conn, uuid))
}

/// What a request for a new job type says of it: all but the identifier,
/// which the server chooses.
#[derive(Debug, PartialEq)]
pub struct PostBody {
    pub name: String,
    pub executor: String,
    pub metadata: Vec<(String, Json)>,
    pub unique: bool,
    pub node_type: String,
    pub timeout: Option<u64>,
}

/// The mathematical value of a [`PostBody`].
pub struct PostBodyView {
    pub name: Seq<char>,
    pub executor: Seq<char>,
    pub metadata: Members,
    pub unique: bool,
    pub node_type: Seq<char>,
    pub timeout: Option<u64>,
}

impl View for PostBody {
    type V = PostBodyView;

    open spec fn view(&self) -> PostBodyView {
        PostBodyView {
            name: self.name@,
            executor: self.executor@,
            metadata: members_view(self.metadata@),
            unique: self.unique,
            node_type: self.node_type@,
            timeout: self.timeout,
        }
    }
}

impl Clone for PostBody {
    fn clone(&self) -> (copy: Self)
        ensures
            copy@ == self@,
    {
        PostBody {
            name: self.name.clone(),
            executor: self.executor.clone(),
            metadata: clone_members(&self.metadata),
            unique: self.unique,
            node_type: self.node_type.clone(),
            timeout: self.timeout,
        }
    }
}

impl PostBodyView {
    /// The JSON object that stands for the request.
    pub open spec fn json(self) -> JsonView {
        JsonView::Object(
            seq![
                ("name"@, JsonView::Text(self.name)),
                ("executor"@, JsonView::Text(self.executor)),
                ("metadata"@, JsonView::Object(self.metadata)),
                ("unique"@, JsonView::Bool(self.unique)),
                ("node_type"@, JsonView::Text(self.node_type)),
                ("timeout"@, opt_u64_json(self.timeout)),
            ],
        )
    }

    /// The request that a JSON value stands for, if it stands for one.
    pub open spec fn of_json(value: JsonView) -> Option<PostBodyView> {
        match value {
            JsonView::Object(members) => match (
                field_text(members, "name"@),
                field_text(members, "executor"@),
                field_object(members, "metadata"@),
                field_bool(members, "unique"@),
                field_text(members, "node_type"@),
                field_opt_u64(members, "timeout"@),
            ) {
                (
                    Some(name), Some(executor), Some(metadata), Some(unique), Some(node_type),
                    Some(timeout),
                ) => Some(
                    PostBodyView {
                        name,
                        executor,
                        metadata,
                        unique,
                        node_type,
                        timeout,
                    },
                ),
                _ => None,
            },
            _ => None,
        }
    }

    /// Reading back what was written gives the request that was written.
    pub proof fn lemma_round_trip(self)
        ensures
            Self::of_json(self.json()) == Some(self),
    {
        reveal_strlit("name");
        reveal_strlit("executor");
        reveal_strlit("metadata");
        reveal_strlit("unique");
        reveal_strlit("node_type");
        reveal_strlit("timeout");
        assert("name"@.len() == 4);
        assert("executor"@[0] == 'e');
        assert("metadata"@[0] == 'm');
        assert("unique"@.len() == 6);
        assert("node_type"@.len() == 9);
        assert("timeout"@.len() == 7);
        assert("executor"@.len() == 8);
        assert("metadata"@.len() == 8);
        let m0 = Seq::<(Seq<char>, JsonView)>::empty();
        let m1 = m0.push(("name"@, JsonView::Text(self.name)));
        let m2 = m1.push(("executor"@, JsonView::Text(self.executor)));
        let m3 = m2.push(("metadata"@, JsonView::Object(self.metadata)));
        let m4 = m3.push(("unique"@, JsonView::Bool(self.unique)));
        let m5 = m4.push(("node_type"@, JsonView::Text(self.node_type)));
        let m6 = m5.push(("timeout"@, opt_u64_json(self.timeout)));
        assert(self.json()->Object_0 =~= m6);
        assert forall|wanted: Seq<char>| #[trigger] member(m6, wanted) ==
            if wanted == m6.last().0 { Some(m6.last().1) }
            else if wanted == m5.last().0 { Some(m5.last().1) }
            else if wanted == m4.last().0 { Some(m4.last().1) }
            else if wanted == m3.last().0 { Some(m3.last().1) }
            else if wanted == m2.last().0 { Some(m2.last().1) }
            else if wanted == m1.last().0 { Some(m1.last().1) }
            else { None } by {
            lemma_member_push(m0, m1.last().0, m1.last().1, wanted);
            lemma_member_push(m1, m2.last().0, m2.last().1, wanted);
            lemma_member_push(m2, m3.last().0, m3.last().1, wanted);
            lemma_member_push(m3, m4.last().0, m4.last().1, wanted);
            lemma_member_push(m4, m5.last().0, m5.last().1, wanted);
            lemma_member_push(m5, m6.last().0, m6.last().1, wanted);
        }
    }
}

impl PostBody {
    /// Writes the request as a JSON object.
    pub fn to_json(&self) -> (value: Json)
        ensures
            value@ == self@.json(),
    {
        let mut members: Vec<(String, Json)> = Vec::new();
        push_member(&mut members, "name", put_text(&self.name));
        push_member(&mut members, "executor", put_text(&self.executor));
        push_member(&mut members, "metadata", put_object(&self.metadata));
        push_member(&mut members, "unique", Json::Bool(self.unique));
        push_member(&mut members, "node_type", put_text(&self.node_type));
        push_member(&mut members, "timeout", put_opt_u64(self.timeout));
        proof {
            lemma_object_view(members);
            assert(members_view(members@) =~= self@.json()->Object_0);
        }
        Json::Object(members)
    }

    /// Reads a request from a JSON value.
    pub fn from_json(value: &Json) -> (r: Option<PostBody>)
        ensures
            r is Some == PostBodyView::of_json(value@) is Some,
            r matches Some(record) ==> Some(record@) == PostBodyView::of_json(value@),
    {
        match value {
            Json::Object(members) => {
                proof {
                    lemma_object_view(*members);
                }
                let name = get_text(members, "name");
                let executor = get_text(members, "executor");
                let metadata = get_object(members, "metadata");
                let unique = get_bool(members, "unique");
                let node_type = get_text(members, "node_type");
                let timeout = get_opt_u64(members, "timeout");
                match (name, executor, metadata, unique, node_type, timeout) {
                    (
                        Some(name), Some(executor), Some(metadata), Some(unique), Some(node_type),
                        Some(timeout),
                    ) => Some(
                        PostBody {
                            name,
                            executor,
                            metadata,
                            unique,
                            node_type,
                            timeout,
                        },
                    ),
                    _ => None,
                }
            },
            _ => None,
        }
    }

    /// The text under which the request is kept.
    pub fn to_text(&self) -> (text: String)
        ensures
            text@ == json_text(self@.json()),
    {
        self.to_json().to_text()
    }

    /// Reads a request from the text under which one is kept.
    pub fn from_text(text: &str) -> (r: Result<PostBody, DecodeError>)
        ensures
            match decoding(text@, |value: JsonView| PostBodyView::of_json(value)) {
                Ok(wanted) => r matches Ok(record) && record@ == wanted,
                Err(message) => r matches Err(error) && error.message() == message,
            },
    {
        match Json::parse(text) {
            Err(message) => Err(DecodeError::Syntax(message)),
            Ok(value) => match PostBody::from_json(&value) {
                Some(record) => Ok(record),
                None => Err(DecodeError::Shape),
            },
        }
    }
}


/// The job type that a request asks for, under the identifier that the
/// server chose.
pub open spec fn job_type_of(body: PostBodyView, uuid: Uuid) -> JobTypeView {
    JobTypeView {
        uuid,
        name: body.name,
        executor: body.executor,
        metadata: body.metadata,
        unique: body.unique,
        node_type: body.node_type,
        timeout: body.timeout,
    }
}

/// Writes a new job type under an identifier that the server chooses, and
/// answers with the identifier.
pub fn post<C: Server>(store: &RedisStore, conn: &mut C, body: &PostBody) -> (r: Result<
    PostResponse,
    Status,
>)
    ensures
        final(conn).reliable() == old(conn).reliable(),
        r matches Err(status) ==> status == Status::InternalServerError,
        old(conn).reliable() ==> r is Ok && r->Ok_0.status@ == "ok"@ && r->Ok_0.uuid is Some
            && final(conn).state() == old(conn).state().hset(
            job_types_key(),
            hyphenated_text(r->Ok_0.uuid->Some_0.value),
            json_text(job_type_of(body@, r->Ok_0.uuid->Some_0).json()),
        ),
{
    let job_type = JobType {
        uuid: Uuid::new_v4(),
        name: body.name.clone(),
        executor: body.executor.clone(),
        metadata: clone_members(&body.metadata),
        unique: body.unique,
        node_type: body.node_type.clone(),
        timeout: body.timeout,
    };
    redis_error_translate(store.new_job_type(conn, &job_type))?;
    Ok(PostResponse::ok(Some(job_type.uuid)))
}

} // verus!
