//! Node types: the named partitions of the fleet.

use crate::codec::{
    decoding, field_text, field_u64, field_uuid, get_text, get_u64, get_uuid, push_member,
    put_text, put_u64, put_uuid, u64_json, uuid_json, DecodeError,
};
use crate::ident::{lemma_uuid_round_trip, Uuid};
use crate::json::{
    json_text, lemma_member_push, lemma_object_view, member, members_view, Json, JsonView,
};
use vstd::prelude::*;

verus! {

/// A partition of the fleet: a name and the number of workers that each of
/// its nodes runs.
#[derive(Debug, PartialEq)]
pub struct NodeType {
    pub uuid: Uuid,
    pub name: String,
    pub thread_count: u32,
}

/// The mathematical value of a [`NodeType`].
pub struct NodeTypeView {
    pub uuid: Uuid,
    pub name: Seq<char>,
    pub thread_count: u32,
}

impl View for NodeType {
    type V = NodeTypeView;

    open spec fn view(&self) -> NodeTypeView {
        NodeTypeView { uuid: self.uuid, name: self.name@, thread_count: self.thread_count }
    }
}

impl Clone for NodeType {
    fn clone(&self) -> (copy: Self)
        ensures
            copy@ == self@,
    {
        NodeType { uuid: self.uuid, name: self.name.clone(), thread_count: self.thread_count }
    }
}

impl NodeTypeView {
    /// A node type asks for at least one worker.
    pub open spec fn valid(self) -> bool {
        self.thread_count >= 1
    }

    /// The JSON object that stands for the node type.
    pub open spec fn json(self) -> JsonView {
        JsonView::Object(
            seq![
                ("uuid"@, uuid_json(self.uuid)),
                ("name"@, JsonView::Text(self.name)),
                ("thread_count"@, u64_json(self.thread_count as u64)),
            ],
        )
    }

    /// The node type that a JSON value stands for, if it stands for one.
    pub open spec fn of_json(value: JsonView) -> Option<NodeTypeView> {
        match value {
            JsonView::Object(members) => match (
                field_uuid(members, "uuid"@),
                field_text(members, "name"@),
                field_u64(members, "thread_count"@),
            ) {
                (Some(uuid), Some(name), Some(count)) => if 1 <= count <= u32::MAX {
                    Some(NodeTypeView { uuid, name, thread_count: count as u32 })
                } else {
                    None
                },
                _ => None,
            },
            _ => None,
        }
    }

    /// Reading back what was written gives the node type that was written.
    pub proof fn lemma_round_trip(self)
        requires
            self.valid(),
        ensures
            Self::of_json(self.json()) == Some(self),
    {
        reveal_strlit("uuid");
        reveal_strlit("name");
        reveal_strlit("thread_count");
        lemma_uuid_round_trip(self.uuid);
        let a = ("uuid"@, uuid_json(self.uuid));
        let b = ("name"@, JsonView::Text(self.name));
        let c = ("thread_count"@, u64_json(self.thread_count as u64));
        let m0 = Seq::<(Seq<char>, JsonView)>::empty();
        let m1 = m0.push(a);
        let m2 = m1.push(b);
        let m3 = m2.push(c);
        assert(self.json()->Object_0 =~= m3);
        assert forall|wanted: Seq<char>| #[trigger] member(m3, wanted) == if wanted == c.0 {
            Some(c.1)
        } else if wanted == b.0 {
            Some(b.1)
        } else if wanted == a.0 {
            Some(a.1)
        } else {
            None
        } by {
            lemma_member_push(m0, a.0, a.1, wanted);
            lemma_member_push(m1, b.0, b.1, wanted);
            lemma_member_push(m2, c.0, c.1, wanted);
        }
        assert("thread_count"@.len() == 12);
        assert("uuid"@[0] == 'u');
        assert("name"@[0] == 'n');
    }
}

impl NodeType {
    /// Whether the node type asks for at least one worker.
    pub fn is_valid(&self) -> (r: bool)
        ensures
            r == self@.valid(),
    {
        self.thread_count >= 1
    }

    /// Writes the node type as a JSON object.
    pub fn to_json(&self) -> (value: Json)
        ensures
            value@ == self@.json(),
    {
        let mut members: Vec<(String, Json)> = Vec::new();
        push_member(&mut members, "uuid", put_uuid(self.uuid));
        push_member(&mut members, "name", put_text(&self.name));
        push_member(&mut members, "thread_count", put_u64(self.thread_count as u64));
        proof {
            lemma_object_view(members);
            assert(members_view(members@) =~= self@.json()->Object_0);
        }
        Json::Object(members)
    }

    /// Reads a node type from a JSON value.
    pub fn from_json(value: &Json) -> (r: Option<NodeType>)
        ensures
            r is Some == NodeTypeView::of_json(value@) is Some,
            r matches Some(node_type) ==> Some(node_type@) == NodeTypeView::of_json(value@),
    {
        match value {
            Json::Object(members) => {
                proof {
                    lemma_object_view(*members);
                }
                let uuid = get_uuid(members, "uuid");
                let name = get_text(members, "name");
                let count = get_u64(members, "thread_count");
                match (uuid, name, count) {
                    (Some(uuid), Some(name), Some(count)) => {
                        if 1 <= count && count <= 0xffff_ffff {
                            Some(NodeType { uuid, name, thread_count: count as u32 })
                        } else {
                            None
                        }
                    },
                    _ => None,
                }
            },
            _ => None,
        }
    }

    /// The text under which the node type is kept.
    pub fn to_text(&self) -> (text: String)
        ensures
            text@ == json_text(self@.json()),
    {
        self.to_json().to_text()
    }

    /// Reads a node type from the text under which one is kept.
    pub fn from_text(text: &str) -> (r: Result<NodeType, DecodeError>)
        ensures
            match decoding(text@, |value: JsonView| NodeTypeView::of_json(value)) {
                Ok(record) => r matches Ok(node_type) && node_type@ == record,
                Err(message) => r matches Err(error) && error.message() == message,
            },
    {
        match Json::parse(text) {
            Err(message) => Err(DecodeError::Syntax(message)),
            Ok(value) => match NodeType::from_json(&value) {
                Some(node_type) => Ok(node_type),
                None => Err(DecodeError::Shape),
            },
        }
    }
}

} // verus!
