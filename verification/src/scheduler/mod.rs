//! Schedule items: the recurring triggers that the scheduler turns into jobs.

use crate::codec::{
    decoding, field_object, field_opt_u64, field_opt_uuid, field_u64, field_uuid, get_object,
    get_opt_u64, get_opt_uuid, get_u64, get_uuid, opt_u64_json, opt_uuid_json, push_member,
    put_object, put_opt_u64, put_opt_uuid, put_u64, put_uuid, u64_json, uuid_json, DecodeError,
    Members,
};
use crate::ident::{lemma_uuid_round_trip, Uuid};
use crate::json::{
    clone_members, json_text, lemma_member_push, lemma_object_view, member, members_view, Json,
    JsonView,
};
use vstd::prelude::*;

verus! {

/// A recurring trigger: every `interval` milliseconds one job of the given
/// job type is due.
#[derive(Debug, PartialEq)]
pub struct ScheduleItem {
    pub uuid: Uuid,
    pub interval: u64,
    /// The node that last claimed the item.
    pub last_scheduled_by: Option<Uuid>,
    /// When it was last claimed, in milliseconds since 1970.
    pub last_scheduled_at: Option<u64>,
    pub job_type_uuid: Uuid,
    pub job_arguments: Vec<(String, Json)>,
}

/// The mathematical value of a [`ScheduleItem`].
pub struct ScheduleItemView {
    pub uuid: Uuid,
    pub interval: u64,
    pub last_scheduled_by: Option<Uuid>,
    pub last_scheduled_at: Option<u64>,
    pub job_type_uuid: Uuid,
    pub job_arguments: Members,
}

impl View for ScheduleItem {
    type V = ScheduleItemView;

    open spec fn view(&self) -> ScheduleItemView {
        ScheduleItemView {
            uuid: self.uuid,
            interval: self.interval,
            last_scheduled_by: self.last_scheduled_by,
            last_scheduled_at: self.last_scheduled_at,
            job_type_uuid: self.job_type_uuid,
            job_arguments: members_view(self.job_arguments@),
        }
    }
}

impl Clone for ScheduleItem {
    fn clone(&self) -> (copy: Self)
        ensures
            copy@ == self@,
    {
        ScheduleItem {
            uuid: self.uuid,
            interval: self.interval,
            last_scheduled_by: self.last_scheduled_by,
            last_scheduled_at: self.last_scheduled_at,
            job_type_uuid: self.job_type_uuid,
            job_arguments: clone_members(&self.job_arguments),
        }
    }
}

impl ScheduleItemView {
    /// The JSON object that stands for the schedule item.
    pub open spec fn json(self) -> JsonView {
        JsonView::Object(
            seq![
                ("uuid"@, uuid_json(self.uuid)),
                ("interval"@, u64_json(self.interval)),
                ("last_scheduled_by"@, opt_uuid_json(self.last_scheduled_by)),
                ("last_scheduled_at"@, opt_u64_json(self.last_scheduled_at)),
                ("job_type_uuid"@, uuid_json(self.job_type_uuid)),
                ("job_arguments"@, JsonView::Object(self.job_arguments)),
            ],
        )
    }

    /// The schedule item that a JSON value stands for, if it stands for one.
    pub open spec fn of_json(value: JsonView) -> Option<ScheduleItemView> {
        match value {
            JsonView::Object(members) => match (
                field_uuid(members, "uuid"@),
                field_u64(members, "interval"@),
                field_opt_uuid(members, "last_scheduled_by"@),
                field_opt_u64(members, "last_scheduled_at"@),
                field_uuid(members, "job_type_uuid"@),
                field_object(members, "job_arguments"@),
            ) {
                (
                    Some(uuid), Some(interval), Some(last_scheduled_by), Some(last_scheduled_at),
                    Some(job_type_uuid), Some(job_arguments),
                ) => Some(
                    ScheduleItemView {
                        uuid,
                        interval,
                        last_scheduled_by,
                        last_scheduled_at,
                        job_type_uuid,
                        job_arguments,
                    },
                ),
                _ => None,
            },
            _ => None,
        }
    }

    /// Reading back what was written gives the schedule item that was written.
    pub proof fn lemma_round_trip(self)
        ensures
            Self::of_json(self.json()) == Some(self),
    {
        reveal_strlit("uuid");
        reveal_strlit("interval");
        reveal_strlit("last_scheduled_by");
        reveal_strlit("last_scheduled_at");
        reveal_strlit("job_type_uuid");
        reveal_strlit("job_arguments");
        assert("uuid"@.len() == 4);
        assert("interval"@.len() == 8);
        assert("last_scheduled_by"@.len() == 17);
        assert("last_scheduled_at"@.len() == 17);
        assert("job_type_uuid"@.len() == 13);
        assert("job_arguments"@.len() == 13);
        assert("last_scheduled_by"@[15] == 'b');
        assert("last_scheduled_at"@[15] == 'a');
        assert("job_type_uuid"@[4] == 't');
        assert("job_arguments"@[4] == 'a');
        lemma_uuid_round_trip(self.uuid);
        if self.last_scheduled_by is Some {
            lemma_uuid_round_trip(self.last_scheduled_by->Some_0);
        }
        lemma_uuid_round_trip(self.job_type_uuid);
        let m0 = Seq::<(Seq<char>, JsonView)>::empty();
        let m1 = m0.push(("uuid"@, uuid_json(self.uuid)));
        let m2 = m1.push(("interval"@, u64_json(self.interval)));
        let m3 = m2.push(("last_scheduled_by"@, opt_uuid_json(self.last_scheduled_by)));
        let m4 = m3.push(("last_scheduled_at"@, opt_u64_json(self.last_scheduled_at)));
        let m5 = m4.push(("job_type_uuid"@, uuid_json(self.job_type_uuid)));
        let m6 = m5.push(("job_arguments"@, JsonView::Object(self.job_arguments)));
        assert(self.json()->Object_0 =~= m6);
        assert forall|wanted: Seq<char>| #[trigger] member(m6, wanted) ==
            if wanted == m6.last().0 { Some(m6.last().1) }
            else if wanted == m5.last().0 { Some(m5.last().1) }
            else if wanted == m4.last().0 { Some(m4.last().1) }
            else if wanted == m3.last().0 { Some(m3.last().1) }
            else if wanted == m2.last().0 { Some(m2.last().1) }
            else if wanted == m1.last().0 { Some(m1.last().1) }
            else { None } by {
            lemma_member_push(m0, m1.last().0, m1.last().1, wanted);
            lemma_member_push(m1, m2.last().0, m2.last().1, wanted);
            lemma_member_push(m2, m3.last().0, m3.last().1, wanted);
            lemma_member_push(m3, m4.last().0, m4.last().1, wanted);
            lemma_member_push(m4, m5.last().0, m5.last().1, wanted);
            lemma_member_push(m5, m6.last().0, m6.last().1, wanted);
        }
    }
}

impl ScheduleItem {
    /// Writes the schedule item as a JSON object.
    pub fn to_json(&self) -> (value: Json)
        ensures
            value@ == self@.json(),
    {
        let mut members: Vec<(String, Json)> = Vec::new();
        push_member(&mut members, "uuid", put_uuid(self.uuid));
        push_member(&mut members, "interval", put_u64(self.interval));
        push_member(&mut members, "last_scheduled_by", put_opt_uuid(self.last_scheduled_by));
        push_member(&mut members, "last_scheduled_at", put_opt_u64(self.last_scheduled_at));
        push_member(&mut members, "job_type_uuid", put_uuid(self.job_type_uuid));
        push_member(&mut members, "job_arguments", put_object(&self.job_arguments));
        proof {
            lemma_object_view(members);
            assert(members_view(members@) =~= self@.json()->Object_0);
        }
        Json::Object(members)
    }

    /// Reads a schedule item from a JSON value.
    pub fn from_json(value: &Json) -> (r: Option<ScheduleItem>)
        ensures
            r is Some == ScheduleItemView::of_json(value@) is Some,
            r matches Some(record) ==> Some(record@) == ScheduleItemView::of_json(value@),
    {
        match value {
            Json::Object(members) => {
                proof {
                    lemma_object_view(*members);
                }
                let uuid = get_uuid(members, "uuid");
                let interval = get_u64(members, "interval");
                let last_scheduled_by = get_opt_uuid(members, "last_scheduled_by");
                let last_scheduled_at = get_opt_u64(members, "last_scheduled_at");
                let job_type_uuid = get_uuid(members, "job_type_uuid");
                let job_arguments = get_object(members, "job_arguments");
                match (
                    uuid, interval, last_scheduled_by, last_scheduled_at, job_type_uuid,
                    job_arguments,
                ) {
                    (
                        Some(uuid), Some(interval), Some(last_scheduled_by),
                        Some(last_scheduled_at), Some(job_type_uuid), Some(job_arguments),
                    ) => Some(
                        ScheduleItem {
                            uuid,
                            interval,
                            last_scheduled_by,
                            last_scheduled_at,
                            job_type_uuid,
                            job_arguments,
                        },
                    ),
                    _ => None,
                }
            },
            _ => None,
        }
    }

    /// The text under which the schedule item is kept.
    pub fn to_text(&self) -> (text: String)
        ensures
            text@ == json_text(self@.json()),
    {
        self.to_json().to_text()
    }

    /// Reads a schedule item from the text under which one is kept.
    pub fn from_text(text: &str) -> (r: Result<ScheduleItem, DecodeError>)
        ensures
            match decoding(text@, |value: JsonView| ScheduleItemView::of_json(value)) {
                Ok(wanted) => r matches Ok(record) && record@ == wanted,
                Err(message) => r matches Err(error) && error.message() == message,
            },
    {
        match Json::parse(text) {
            Err(message) => Err(DecodeError::Syntax(message)),
            Ok(value) => match ScheduleItem::from_json(&value) {
                Some(record) => Ok(record),
                None => Err(DecodeError::Shape),
            },
        }
    }
}

} // verus!
