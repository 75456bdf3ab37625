//! Jobs: the pieces of work that the fleet carries out.

use crate::codec::{
    decoding, field_object, field_opt_json, field_opt_u64, field_opt_uuid, field_uuid, get_object,
    get_opt_json, get_opt_u64, get_opt_uuid, get_uuid, opt_json, opt_u64_json, opt_uuid_json,
    push_member, put_object, put_opt_json, put_opt_u64, put_opt_uuid, put_uuid, uuid_json,
    DecodeError, Members,
};
use crate::exec::job_type::{JobType, JobTypeView};
use crate::ident::{lemma_uuid_round_trip, Uuid};
use crate::json::{
    clone_members, json_text, lemma_member_push, lemma_object_view, member, members_view, Json,
    JsonView,
};
use vstd::prelude::*;

verus! {

/// One piece of work. A job waits in the queue of a node type, is then in
/// progress on one node, and is at last finished.
#[derive(Debug, PartialEq)]
pub struct Job {
    pub uuid: Uuid,
    pub job_type_uuid: Uuid,
    /// The job type that `job_type_uuid` names; never written to the server.
    pub job_type: Option<JobType>,
    pub arguments: Vec<(String, Json)>,
    pub executing_node: Option<Uuid>,
    pub enqueued_at: Option<u64>,
    pub started_at: Option<u64>,
    pub ended_at: Option<u64>,
    pub results: Option<Json>,
    pub errors: Option<Json>,
}

/// The mathematical value of a [`Job`].
pub struct JobView {
    pub uuid: Uuid,
    pub job_type_uuid: Uuid,
    pub job_type: Option<JobTypeView>,
    pub arguments: Members,
    pub executing_node: Option<Uuid>,
    pub enqueued_at: Option<u64>,
    pub started_at: Option<u64>,
    pub ended_at: Option<u64>,
    pub results: Option<JsonView>,
    pub errors: Option<JsonView>,
}

impl View for Job {
    type V = JobView;

    open spec fn view(&self) -> JobView {
        JobView {
            uuid: self.uuid,
            job_type_uuid: self.job_type_uuid,
            job_type: match self.job_type {
                Some(inner) => Some(inner@),
                None => None,
            },
            arguments: members_view(self.arguments@),
            executing_node: self.executing_node,
            enqueued_at: self.enqueued_at,
            started_at: self.started_at,
            ended_at: self.ended_at,
            results: match self.results {
                Some(inner) => Some(inner@),
                None => None,
            },
            errors: match self.errors {
                Some(inner) => Some(inner@),
                None => None,
            },
        }
    }
}

impl Clone for Job {
    fn clone(&self) -> (copy: Self)
        ensures
            copy@ == self@,
    {
        Job {
            uuid: self.uuid,
            job_type_uuid: self.job_type_uuid,
            job_type: match &self.job_type {
                Some(inner) => Some(inner.clone()),
                None => None,
            },
            arguments: clone_members(&self.arguments),
            executing_node: self.executing_node,
            enqueued_at: self.enqueued_at,
            started_at: self.started_at,
            ended_at: self.ended_at,
            results: match &self.results {
                Some(inner) => Some(inner.clone()),
                None => None,
            },
            errors: match &self.errors {
                Some(inner) => Some(inner.clone()),
                None => None,
            },
        }
    }
}

impl JobView {
    /// The part of the job that is kept in the server: all but the
    /// copy of the record it refers to.
    pub open spec fn persisted(self) -> JobView {
        JobView { job_type: None, ..self }
    }

    /// The JSON object that stands for the job.
    pub open spec fn json(self) -> JsonView {
        JsonView::Object(
            seq![
                ("uuid"@, uuid_json(self.uuid)),
                ("job_type_uuid"@, uuid_json(self.job_type_uuid)),
                ("arguments"@, JsonView::Object(self.arguments)),
                ("executing_node"@, opt_uuid_json(self.executing_node)),
                ("enqueued_at"@, opt_u64_json(self.enqueued_at)),
                ("started_at"@, opt_u64_json(self.started_at)),
                ("ended_at"@, opt_u64_json(self.ended_at)),
                ("results"@, opt_json(self.results)),
                ("errors"@, opt_json(self.errors)),
            ],
        )
    }

    /// The job that a JSON value stands for, if it stands for one.
    pub open spec fn of_json(value: JsonView) -> Option<JobView> {
        match value {
            JsonView::Object(members) => match (
                field_uuid(members, "uuid"@),
                field_uuid(members, "job_type_uuid"@),
                field_object(members, "arguments"@),
                field_opt_uuid(members, "executing_node"@),
                field_opt_u64(members, "enqueued_at"@),
                field_opt_u64(members, "started_at"@),
                field_opt_u64(members, "ended_at"@),
                field_opt_json(members, "results"@),
                field_opt_json(members, "errors"@),
            ) {
                (
                    Some(uuid), Some(job_type_uuid), Some(arguments), Some(executing_node),
                    Some(enqueued_at), Some(started_at), Some(ended_at), results, errors,
                ) => Some(
                    JobView {
                        uuid,
                        job_type_uuid,
                        job_type: None,
                        arguments,
                        executing_node,
                        enqueued_at,
                        started_at,
                        ended_at,
                        results,
                        errors,
                    },
                ),
                _ => None,
            },
            _ => None,
        }
    }

    /// Reading back what was written gives the job that was written,
    /// without the copy of the record it refers to.
    pub proof fn lemma_round_trip(self)
        requires
            self.results != Some(JsonView::Null),
            self.errors != Some(JsonView::Null),
        ensures
            Self::of_json(self.json()) == Some(self.persisted()),
    {
        reveal_strlit("uuid");
        reveal_strlit("job_type_uuid");
        reveal_strlit("arguments");
        reveal_strlit("executing_node");
        reveal_strlit("enqueued_at");
        reveal_strlit("started_at");
        reveal_strlit("ended_at");
        reveal_strlit("results");
        reveal_strlit("errors");
        assert("uuid"@.len() == 4);
        assert("job_type_uuid"@.len() == 13);
        assert("arguments"@.len() == 9);
        assert("executing_node"@.len() == 14);
        assert("enqueued_at"@.len() == 11);
        assert("started_at"@.len() == 10);
        assert("ended_at"@.len() == 8);
        assert("results"@.len() == 7);
        assert("errors"@.len() == 6);
        lemma_uuid_round_trip(self.uuid);
        lemma_uuid_round_trip(self.job_type_uuid);
        if self.executing_node is Some {
            lemma_uuid_round_trip(self.executing_node->Some_0);
        }
        let m0 = Seq::<(Seq<char>, JsonView)>::empty();
        let m1 = m0.push(("uuid"@, uuid_json(self.uuid)));
        let m2 = m1.push(("job_type_uuid"@, uuid_json(self.job_type_uuid)));
        let m3 = m2.push(("arguments"@, JsonView::Object(self.arguments)));
        let m4 = m3.push(("executing_node"@, opt_uuid_json(self.executing_node)));
        let m5 = m4.push(("enqueued_at"@, opt_u64_json(self.enqueued_at)));
        let m6 = m5.push(("started_at"@, opt_u64_json(self.started_at)));
        let m7 = m6.push(("ended_at"@, opt_u64_json(self.ended_at)));
        let m8 = m7.push(("results"@, opt_json(self.results)));
        let m9 = m8.push(("errors"@, opt_json(self.errors)));
        assert(self.json()->Object_0 =~= m9);
        assert forall|wanted: Seq<char>| #[trigger] member(m9, wanted) ==
            if wanted == m9.last().0 { Some(m9.last().1) }
            else if wanted == m8.last().0 { Some(m8.last().1) }
            else if wanted == m7.last().0 { Some(m7.last().1) }
            else if wanted == m6.last().0 { Some(m6.last().1) }
            else if wanted == m5.last().0 { Some(m5.last().1) }
            else if wanted == m4.last().0 { Some(m4.last().1) }
            else if wanted == m3.last().0 { Some(m3.last().1) }
            else if wanted == m2.last().0 { Some(m2.last().1) }
            else if wanted == m1.last().0 { Some(m1.last().1) }
            else { None } by {
            lemma_member_push(m0, m1.last().0, m1.last().1, wanted);
            lemma_member_push(m1, m2.last().0, m2.last().1, wanted);
            lemma_member_push(m2, m3.last().0, m3.last().1, wanted);
            lemma_member_push(m3, m4.last().0, m4.last().1, wanted);
            lemma_member_push(m4, m5.last().0, m5.last().1, wanted);
            lemma_member_push(m5, m6.last().0, m6.last().1, wanted);
            lemma_member_push(m6, m7.last().0, m7.last().1, wanted);
            lemma_member_push(m7, m8.last().0, m8.last().1, wanted);
            lemma_member_push(m8, m9.last().0, m9.last().1, wanted);
        }
    }
}

impl Job {
    /// Writes the job as a JSON object.
    pub fn to_json(&self) -> (value: Json)
        ensures
            value@ == self@.json(),
    {
        let mut members: Vec<(String, Json)> = Vec::new();
        push_member(&mut members, "uuid", put_uuid(self.uuid));
        push_member(&mut members, "job_type_uuid", put_uuid(self.job_type_uuid));
        push_member(&mut members, "arguments", put_object(&self.arguments));
        push_member(&mut members, "executing_node", put_opt_uuid(self.executing_node));
        push_member(&mut members, "enqueued_at", put_opt_u64(self.enqueued_at));
        push_member(&mut members, "started_at", put_opt_u64(self.started_at));
        push_member(&mut members, "ended_at", put_opt_u64(self.ended_at));
        push_member(&mut members, "results", put_opt_json(&self.results));
        push_member(&mut members, "errors", put_opt_json(&self.errors));
        proof {
            lemma_object_view(members);
            assert(members_view(members@) =~= self@.json()->Object_0);
        }
        Json::Object(members)
    }

    /// Reads a job from a JSON value.
    pub fn from_json(value: &Json) -> (r: Option<Job>)
        ensures
            r is Some == JobView::of_json(value@) is Some,
            r matches Some(record) ==> Some(record@) == JobView::of_json(value@),
    {
        match value {
            Json::Object(members) => {
                proof {
                    lemma_object_view(*members);
                }
                let uuid = get_uuid(members, "uuid");
                let job_type_uuid = get_uuid(members, "job_type_uuid");
                let arguments = get_object(members, "arguments");
                let executing_node = get_opt_uuid(members, "executing_node");
                let enqueued_at = get_opt_u64(members, "enqueued_at");
                let started_at = get_opt_u64(members, "started_at");
                let ended_at = get_opt_u64(members, "ended_at");
                let results = get_opt_json(members, "results");
                let errors = get_opt_json(members, "errors");
                match (
                    uuid, job_type_uuid, arguments, executing_node, enqueued_at, started_at,
                    ended_at, results, errors,
                ) {
                    (
                        Some(uuid), Some(job_type_uuid), Some(arguments), Some(executing_node),
                        Some(enqueued_at), Some(started_at), Some(ended_at), results, errors,
                    ) => Some(
                        Job {
                            uuid,
                            job_type_uuid,
                            job_type: None,
                            arguments,
                            executing_node,
                            enqueued_at,
                            started_at,
                            ended_at,
                            results,
                            errors,
                        },
                    ),
                    _ => None,
                }
            },
            _ => None,
        }
    }

    /// The text under which the job is kept.
    pub fn to_text(&self) -> (text: String)
        ensures
            text@ == json_text(self@.json()),
    {
        self.to_json().to_text()
    }

    /// Reads a job from the text under which one is kept.
    pub fn from_text(text: &str) -> (r: Result<Job, DecodeError>)
        ensures
            match decoding(text@, |value: JsonView| JobView::of_json(value)) {
                Ok(wanted) => r matches Ok(record) && record@ == wanted,
                Err(message) => r matches Err(error) && error.message() == message,
            },
    {
        match Json::parse(text) {
            Err(message) => Err(DecodeError::Syntax(message)),
            Ok(value) => match Job::from_json(&value) {
                Some(record) => Ok(record),
                None => Err(DecodeError::Shape),
            },
        }
    }
}

} // verus!
