//! Job types: the templates that jobs are made from.

use crate::codec::{
    decoding, field_bool, field_object, field_opt_u64, field_text, field_uuid, get_bool,
    get_object, get_opt_u64, get_text, get_uuid, opt_u64_json, push_member, put_object,
    put_opt_u64, put_text, put_uuid, uuid_json, DecodeError, Members,
};
use crate::ident::{lemma_uuid_round_trip, Uuid};
use crate::json::{
    clone_members, json_text, lemma_member_push, lemma_object_view, member, members_view, Json,
    JsonView,
};
use vstd::prelude::*;

verus! {

/// A template for work: which executor runs it, with what settings, and on
/// the nodes of which node type.
#[derive(Debug, PartialEq)]
pub struct JobType {
    pub uuid: Uuid,
    pub name: String,
    /// `"bash"` or `"sidekiq"`.
    pub executor: String,
    /// Settings for the executor.
    pub metadata: Vec<(String, Json)>,
    pub unique: bool,
    /// The name, not the identifier, of the node type whose nodes run such jobs.
    pub node_type: String,
    /// Milliseconds a job may run; carried along, not enforced.
    pub timeout: Option<u64>,
}

/// The mathematical value of a [`JobType`].
pub struct JobTypeView {
    pub uuid: Uuid,
    pub name: Seq<char>,
    pub executor: Seq<char>,
    pub metadata: Members,
    pub unique: bool,
    pub node_type: Seq<char>,
    pub timeout: Option<u64>,
}

impl View for JobType {
    type V = JobTypeView;

    open spec fn view(&self) -> JobTypeView {
        JobTypeView {
            uuid: self.uuid,
            name: self.name@,
            executor: self.executor@,
            metadata: members_view(self.metadata@),
            unique: self.unique,
            node_type: self.node_type@,
            timeout: self.timeout,
        }
    }
}

impl Clone for JobType {
    fn clone(&self) -> (copy: Self)
        ensures
            copy@ == self@,
    {
        JobType {
            uuid: self.uuid,
            name: self.name.clone(),
            executor: self.executor.clone(),
            metadata: clone_members(&self.metadata),
            unique: self.unique,
            node_type: self.node_type.clone(),
            timeout: self.timeout,
        }
    }
}

impl JobTypeView {
    /// The JSON object that stands for the job type.
    pub open spec fn json(self) -> JsonView {
        JsonView::Object(
            seq![
                ("uuid"@, uuid_json(self.uuid)),
                ("name"@, JsonView::Text(self.name)),
                ("executor"@, JsonView::Text(self.executor)),
                ("metadata"@, JsonView::Object(self.metadata)),
                ("unique"@, JsonView::Bool(self.unique)),
                ("node_type"@, JsonView::Text(self.node_type)),
                ("timeout"@, opt_u64_json(self.timeout)),
            ],
        )
    }

    /// The job type that a JSON value stands for, if it stands for one.
    pub open spec fn of_json(value: JsonView) -> Option<JobTypeView> {
        match value {
            JsonView::Object(members) => match (
                field_uuid(members, "uuid"@),
                field_text(members, "name"@),
                field_text(members, "executor"@),
                field_object(members, "metadata"@),
                field_bool(members, "unique"@),
                field_text(members, "node_type"@),
                field_opt_u64(members, "timeout"@),
            ) {
                (
                    Some(uuid), Some(name), Some(executor), Some(metadata), Some(unique),
                    Some(node_type), Some(timeout),
                ) => Some(
                    JobTypeView {
                        uuid,
                        name,
                        executor,
                        metadata,
                        unique,
                        node_type,
                        timeout,
                    },
                ),
                _ => None,
            },
            _ => None,
        }
    }

    /// Reading back what was written gives the job type that was written.
    pub proof fn lemma_round_trip(self)
        ensures
            Self::of_json(self.json()) == Some(self),
    {
        reveal_strlit("uuid");
        reveal_strlit("name");
        reveal_strlit("executor");
        reveal_strlit("metadata");
        reveal_strlit("unique");
        reveal_strlit("node_type");
        reveal_strlit("timeout");
        assert("uuid"@[0] == 'u');
        assert("name"@[0] == 'n');
        assert("executor"@[0] == 'e');
        assert("metadata"@[0] == 'm');
        assert("unique"@.len() == 6);
        assert("node_type"@.len() == 9);
        assert("timeout"@.len() == 7);
        assert("uuid"@.len() == 4);
        assert("name"@.len() == 4);
        assert("executor"@.len() == 8);
        assert("metadata"@.len() == 8);
        lemma_uuid_round_trip(self.uuid);
        let m0 = Seq::<(Seq<char>, JsonView)>::empty();
        let m1 = m0.push(("uuid"@, uuid_json(self.uuid)));
        let m2 = m1.push(("name"@, JsonView::Text(self.name)));
        let m3 = m2.push(("executor"@, JsonView::Text(self.executor)));
        let m4 = m3.push(("metadata"@, JsonView::Object(self.metadata)));
        let m5 = m4.push(("unique"@, JsonView::Bool(self.unique)));
        let m6 = m5.push(("node_type"@, JsonView::Text(self.node_type)));
        let m7 = m6.push(("timeout"@, opt_u64_json(self.timeout)));
        assert(self.json()->Object_0 =~= m7);
        assert forall|wanted: Seq<char>| #[trigger] member(m7, wanted) ==
            if wanted == m7.last().0 { Some(m7.last().1) }
            else if wanted == m6.last().0 { Some(m6.last().1) }
            else if wanted == m5.last().0 { Some(m5.last().1) }
            else if wanted == m4.last().0 { Some(m4.last().1) }
            else if wanted == m3.last().0 { Some(m3.last().1) }
            else if wanted == m2.last().0 { Some(m2.last().1) }
            else if wanted == m1.last().0 { Some(m1.last().1) }
            else { None } by {
            lemma_member_push(m0, m1.last().0, m1.last().1, wanted);
            lemma_member_push(m1, m2.last().0, m2.last().1, wanted);
            lemma_member_push(m2, m3.last().0, m3.last().1, wanted);
            lemma_member_push(m3, m4.last().0, m4.last().1, wanted);
            lemma_member_push(m4, m5.last().0, m5.last().1, wanted);
            lemma_member_push(m5, m6.last().0, m6.last().1, wanted);
            lemma_member_push(m6, m7.last().0, m7.last().1, wanted);
        }
    }
}

impl JobType {
    /// Writes the job type as a JSON object.
    pub fn to_json(&self) -> (value: Json)
        ensures
            value@ == self@.json(),
    {
        let mut members: Vec<(String, Json)> = Vec::new();
        push_member(&mut members, "uuid", put_uuid(self.uuid));
        push_member(&mut members, "name", put_text(&self.name));
        push_member(&mut members, "executor", put_text(&self.executor));
        push_member(&mut members, "metadata", put_object(&self.metadata));
        push_member(&mut members, "unique", Json::Bool(self.unique));
        push_member(&mut members, "node_type", put_text(&self.node_type));
        push_member(&mut members, "timeout", put_opt_u64(self.timeout));
        proof {
            lemma_object_view(members);
            assert(members_view(members@) =~= self@.json()->Object_0);
        }
        Json::Object(members)
    }

    /// Reads a job type from a JSON value.
    pub fn from_json(value: &Json) -> (r: Option<JobType>)
        ensures
            r is Some == JobTypeView::of_json(value@) is Some,
            r matches Some(record) ==> Some(record@) == JobTypeView::of_json(value@),
    {
        match value {
            Json::Object(members) => {
                proof {
                    lemma_object_view(*members);
                }
                let uuid = get_uuid(members, "uuid");
                let name = get_text(members, "name");
                let executor = get_text(members, "executor");
                let metadata = get_object(members, "metadata");
                let unique = get_bool(members, "unique");
                let node_type = get_text(members, "node_type");
                let timeout = get_opt_u64(members, "timeout");
                match (uuid, name, executor, metadata, unique, node_type, timeout) {
                    (
                        Some(uuid), Some(name), Some(executor), Some(metadata), Some(unique),
                        Some(node_type), Some(timeout),
                    ) => Some(
                        JobType {
                            uuid,
                            name,
                            executor,
                            metadata,
                            unique,
                            node_type,
                            timeout,
                        },
                    ),
                    _ => None,
                }
            },
            _ => None,
        }
    }

    /// The text under which the job type is kept.
    pub fn to_text(&self) -> (text: String)
        ensures
            text@ == json_text(self@.json()),
    {
        self.to_json().to_text()
    }

    /// Reads a job type from the text under which one is kept.
    pub fn from_text(text: &str) -> (r: Result<JobType, DecodeError>)
        ensures
            match decoding(text@, |value: JsonView| JobTypeView::of_json(value)) {
                Ok(wanted) => r matches Ok(record) && record@ == wanted,
                Err(message) => r matches Err(error) && error.message() == message,
            },
    {
        match Json::parse(text) {
            Err(message) => Err(DecodeError::Syntax(message)),
            Ok(value) => match JobType::from_json(&value) {
                Some(record) => Ok(record),
                None => Err(DecodeError::Shape),
            },
        }
    }
}

} // verus!
