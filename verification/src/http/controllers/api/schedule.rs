//! `/api/schedules`: the schedule items.

use crate::scheduler::{ScheduleItem, ScheduleItemView};
use crate::http::controllers::api::{
    answer, answer_all, arg_view, found_or_status, get_uuid_from_arg, redis_error_translate,
    uuid_of_arg, wrap, wrapped,
};
pub use crate::http::controllers::api::PostResponse;
use crate::http::helpers::control::Status;
use crate::ident::{hyphenated_text, Uuid};
use crate::json::json_text;
use crate::json::{Json, JsonView};
use crate::store::record::{list_json, records, views, written_list};
use crate::codec::{
    decoding, field_object, field_u64, field_uuid, get_object, get_u64, get_uuid, push_member,
    put_object, put_u64, put_uuid, u64_json, uuid_json, DecodeError, Members,
};
use crate::exec::job_type::JobType;
use crate::json::{clone_members, lemma_member_push, lemma_object_view, member, members_view};
use crate::store::redis::{found, job_types_key, schedule_items_key, RedisStore};
use crate::store::server::{pairs_of, Server};
use vstd::prelude::*;

verus! {

/// The answer to a request for all schedule items.
#[derive(Debug, PartialEq)]
pub struct IndexResponse {
    pub schedules: Vec<ScheduleItem>,
}

impl IndexResponse {
    /// Writes the answer as a JSON object.
    pub fn to_json(&self) -> (value: Json)
        ensures
            value@ == wrapped("schedules"@, written_list::<ScheduleItem>(views(self.schedules@))),
    {
        wrap("schedules", list_json::<ScheduleItem>(&self.schedules))
    }
}

/// Lists all schedule items.
pub fn index<C: Server>(store: &RedisStore, conn: &mut C) -> (r: Result<IndexResponse, Status>)
    ensures
        final(conn).reliable() == old(conn).reliable(),
        r matches Err(status) ==> status == Status::InternalServerError,
        old(conn).reliable() ==> final(conn).state() == old(conn).state() && exists|
            flat: Seq<Seq<char>>,
        |
            old(conn).state().listed(schedule_items_key(), flat) && match answer_all(
                #[trigger] records::<ScheduleItem>(pairs_of(flat)),
            ) {
                Ok(list) => r matches Ok(response) && views(response.schedules@) == list,
                Err(status) => r == Err::<IndexResponse, Status>(status),
            },
{
    let schedules = redis_error_translate(store.get_job_schedule(conn))?;
    Ok(IndexResponse { schedules })
}

/// Shows the one of the schedule items that the route names.
pub fn get<C: Server>(store: &RedisStore, conn: &mut C, uuid: Option<&str>) -> (r: Result<
    ScheduleItem,
    Status,
>)
    ensures
        final(conn).reliable() == old(conn).reliable(),
        uuid_of_arg(arg_view(uuid)) is Err ==> r == Err::<ScheduleItem, Status>(Status::BadRequest)
            && final(conn).state() == old(conn).state(),
        uuid_of_arg(arg_view(uuid)) is Ok
            && old(conn).reliable() ==> final(conn).state() == old(conn).state() && match answer(
            found::<ScheduleItem>(
                old(conn).state(),
                schedule_items_key(),
                uuid_of_arg(arg_view(uuid))->Ok_0,
            ),
        ) {
            Ok(record) => r matches Ok(shown) && shown@ == record,
            Err(status) => r == Err::<ScheduleItem, Status>(status),
        },
{
    let uuid = get_uuid_from_arg(uuid)?;
    found_or_status(store.get_job_schedule_item(conn, uuid))
}

/// What a request for a new schedule item says of it.
#[derive(Debug, PartialEq)]
pub struct PostBody {
    pub interval: u64,
    pub job_type_uuid: Uuid,
    pub job_arguments: Vec<(String, Json)>,
}

/// The mathematical value of a [`PostBody`].
pub struct PostBodyView {
    pub interval: u64,
    pub job_type_uuid: Uuid,
    pub job_arguments: Members,
}

impl View for PostBody {
    type V = PostBodyView;

    open spec fn view(&self) -> PostBodyView {
        PostBodyView {
            interval: self.interval,
            job_type_uuid: self.job_type_uuid,
            job_arguments: members_view(self.job_arguments@),
        }
    }
}

impl Clone for PostBody {
    fn clone(&self) -> (copy: Self)
        ensures
            copy@ == self@,
    {
        PostBody {
            interval: self.interval,
            job_type_uuid: self.job_type_uuid,
            job_arguments: clone_members(&self.job_arguments),
        }
    }
}

impl PostBodyView {
    /// The JSON object that stands for the request.
    pub open spec fn json(self) -> JsonView {
        JsonView::Object(
            seq![
                ("interval"@, u64_json(self.interval)),
                ("job_type_uuid"@, uuid_json(self.job_type_uuid)),
                ("job_arguments"@, JsonView::Object(self.job_arguments)),
            ],
        )
    }

    /// The request that a JSON value stands for, if it stands for one.
    pub open spec fn of_json(value: JsonView) -> Option<PostBodyView> {
        match value {
            JsonView::Object(members) => match (
                field_u64(members, "interval"@),
                field_uuid(members, "job_type_uuid"@),
                field_object(members, "job_arguments"@),
            ) {
                (Some(interval), Some(job_type_uuid), Some(job_arguments)) => Some(
                    PostBodyView {
                        interval,
                        job_type_uuid,
                        job_arguments,
                    },
                ),
                _ => None,
            },
            _ => None,
        }
    }

    /// Reading back what was written gives the request that was written.
    pub proof fn lemma_round_trip(self)
        ensures
            Self::of_json(self.json()) == Some(self),
    {
        reveal_strlit("interval");
        reveal_strlit("job_type_uuid");
        reveal_strlit("job_arguments");
        assert("interval"@.len() == 8);
        assert("job_type_uuid"@[4] == 't');
        assert("job_arguments"@[4] == 'a');
        crate::ident::lemma_uuid_round_trip(self.job_type_uuid);
        let m0 = Seq::<(Seq<char>, JsonView)>::empty();
        let m1 = m0.push(("interval"@, u64_json(self.interval)));
        let m2 = m1.push(("job_type_uuid"@, uuid_json(self.job_type_uuid)));
        let m3 = m2.push(("job_arguments"@, JsonView::Object(self.job_arguments)));
        assert(self.json()->Object_0 =~= m3);
        assert forall|wanted: Seq<char>| #[trigger] member(m3, wanted) ==
            if wanted == m3.last().0 { Some(m3.last().1) }
            else if wanted == m2.last().0 { Some(m2.last().1) }
            else if wanted == m1.last().0 { Some(m1.last().1) }
            else { None } by {
            lemma_member_push(m0, m1.last().0, m1.last().1, wanted);
            lemma_member_push(m1, m2.last().0, m2.last().1, wanted);
            lemma_member_push(m2, m3.last().0, m3.last().1, wanted);
        }
    }
}

impl PostBody {
    /// Writes the request as a JSON object.
    pub fn to_json(&self) -> (value: Json)
        ensures
            value@ == self@.json(),
    {
        let mut members: Vec<(String, Json)> = Vec::new();
        push_member(&mut members, "interval", put_u64(self.interval));
        push_member(&mut members, "job_type_uuid", put_uuid(self.job_type_uuid));
        push_member(&mut members, "job_arguments", put_object(&self.job_arguments));
        proof {
            lemma_object_view(members);
            assert(members_view(members@) =~= self@.json()->Object_0);
        }
        Json::Object(members)
    }

    /// Reads a request from a JSON value.
    pub fn from_json(value: &Json) -> (r: Option<PostBody>)
        ensures
            r is Some == PostBodyView::of_json(value@) is Some,
            r matches Some(record) ==> Some(record@) == PostBodyView::of_json(value@),
    {
        match value {
            Json::Object(members) => {
                proof {
                    lemma_object_view(*members);
                }
                let interval = get_u64(members, "interval");
                let job_type_uuid = get_uuid(members, "job_type_uuid");
                let job_arguments = get_object(members, "job_arguments");
                match (interval, job_type_uuid, job_arguments) {
                    (Some(interval), Some(job_type_uuid), Some(job_arguments)) => Some(
                        PostBody {
                            interval,
                            job_type_uuid,
                            job_arguments,
                        },
                    ),
                    _ => None,
                }
            },
            _ => None,
        }
    }

    /// The text under which the request is kept.
    pub fn to_text(&self) -> (text: String)
        ensures
            text@ == json_text(self@.json()),
    {
        self.to_json().to_text()
    }

    /// Reads a request from the text under which one is kept.
    pub fn from_text(text: &str) -> (r: Result<PostBody, DecodeError>)
        ensures
            match decoding(text@, |value: JsonView| PostBodyView::of_json(value)) {
                Ok(wanted) => r matches Ok(record) && record@ == wanted,
                Err(message) => r matches Err(error) && error.message() == message,
            },
    {
        match Json::parse(text) {
            Err(message) => Err(DecodeError::Syntax(message)),
            Ok(value) => match PostBody::from_json(&value) {
                Some(record) => Ok(record),
                None => Err(DecodeError::Shape),
            },
        }
    }
}


/// The schedule item that a request asks for, under the identifier that
/// the server chose: never claimed yet.
pub open spec fn item_of(body: PostBodyView, uuid: Uuid) -> ScheduleItemView {
    ScheduleItemView {
        uuid,
        interval: body.interval,
        last_scheduled_by: None,
        last_scheduled_at: None,
        job_type_uuid: body.job_type_uuid,
        job_arguments: body.job_arguments,
    }
}

/// Writes a new schedule item under an identifier that the server chooses,
/// and answers with the identifier. An item for a job type that the server
/// does not hold is refused with 404.
pub fn post<C: Server>(store: &RedisStore, conn: &mut C, body: &PostBody) -> (r: Result<
    PostResponse,
    Status,
>)
    ensures
        final(conn).reliable() == old(conn).reliable(),
        r matches Err(status) ==> status == Status::InternalServerError || status
            == Status::NotFound,
        old(conn).reliable() ==> match answer(
            found::<JobType>(old(conn).state(), job_types_key(), body.job_type_uuid),
        ) {
            Err(status) => r == Err::<PostResponse, Status>(status)
                && final(conn).state() == old(conn).state(),
            Ok(_) => r is Ok && r->Ok_0.status@ == "ok"@ && r->Ok_0.uuid is Some
                && final(conn).state() == old(conn).state().hset(
                schedule_items_key(),
                hyphenated_text(r->Ok_0.uuid->Some_0.value),
                json_text(item_of(body@, r->Ok_0.uuid->Some_0).json()),
            ),
        },
{
    let _ = found_or_status(store.get_job_type(conn, body.job_type_uuid))?;
    let schedule_item = ScheduleItem {
        uuid: Uuid::new_v4(),
        interval: body.interval,
        job_type_uuid: body.job_type_uuid,
        job_arguments: clone_members(&body.job_arguments),
        last_scheduled_at: None,
        last_scheduled_by: None,
    };
    redis_error_translate(store.new_job_schedule_item(conn, &schedule_item))?;
    Ok(PostResponse::ok(Some(schedule_item.uuid)))
}

/// Deletes the schedule item that the route names, whether there is one or
/// not, and answers with its identifier.
pub fn delete<C: Server>(store: &RedisStore, conn: &mut C, uuid: Option<&str>) -> (r: Result<
    PostResponse,
    Status,
>)
    ensures
        final(conn).reliable() == old(conn).reliable(),
        uuid_of_arg(arg_view(uuid)) is Err ==> r == Err::<PostResponse, Status>(Status::BadRequest)
            && final(conn).state() == old(conn).state(),
        uuid_of_arg(arg_view(uuid)) is Ok && old(conn).reliable() ==> r is Ok && r->Ok_0.status@
            == "ok"@ && r->Ok_0.uuid == Some(uuid_of_arg(arg_view(uuid))->Ok_0)
                && final(conn).state() == old(conn).state().hdel(
            schedule_items_key(),
            hyphenated_text(uuid_of_arg(arg_view(uuid))->Ok_0.value),
        ),
        r matches Err(status) ==> status == Status::BadRequest || status
            == Status::InternalServerError,
{
    let uuid = get_uuid_from_arg(uuid)?;
    redis_error_translate(store.delete_job_schedule_item(conn, uuid))?;
    Ok(PostResponse::ok(Some(uuid)))
}

} // verus!
