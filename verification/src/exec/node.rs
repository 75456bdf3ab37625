//! Nodes: the running processes of the fleet.

use crate::codec::{
    decoding, field_opt_uuid, field_u64, field_uuid, get_opt_uuid, get_u64, get_uuid,
    opt_uuid_json, push_member, put_opt_uuid, put_u64, put_uuid, u64_json, uuid_json, DecodeError,
};
use crate::exec::node_type::{NodeType, NodeTypeView};
use crate::ident::{lemma_uuid_round_trip, Uuid};
use crate::json::{
    json_text, lemma_member_push, lemma_object_view, member, members_view, Json, JsonView,
};
use vstd::prelude::*;

verus! {

/// One running process of the fleet. The process writes the record when it
/// starts and rewrites it with every heartbeat; nobody deletes it.
#[derive(Debug, PartialEq)]
pub struct Node {
    pub uuid: Uuid,
    pub node_type_uuid: Option<Uuid>,
    /// The node type that `node_type_uuid` names; never written to the server.
    pub node_type: Option<NodeType>,
    /// When the node last gave a sign of life, in milliseconds since 1970.
    pub last_ping: u64,
}

/// The mathematical value of a [`Node`].
pub struct NodeView {
    pub uuid: Uuid,
    pub node_type_uuid: Option<Uuid>,
    pub node_type: Option<NodeTypeView>,
    pub last_ping: u64,
}

impl View for Node {
    type V = NodeView;

    open spec fn view(&self) -> NodeView {
        NodeView {
            uuid: self.uuid,
            node_type_uuid: self.node_type_uuid,
            node_type: match self.node_type {
                Some(inner) => Some(inner@),
                None => None,
            },
            last_ping: self.last_ping,
        }
    }
}

impl Clone for Node {
    fn clone(&self) -> (copy: Self)
        ensures
            copy@ == self@,
    {
        Node {
            uuid: self.uuid,
            node_type_uuid: self.node_type_uuid,
            node_type: match &self.node_type {
                Some(inner) => Some(inner.clone()),
                None => None,
            },
            last_ping: self.last_ping,
        }
    }
}

impl NodeView {
    /// The part of the node that is kept in the server: all but the
    /// copy of the record it refers to.
    pub open spec fn persisted(self) -> NodeView {
        NodeView { node_type: None, ..self }
    }

    /// The JSON object that stands for the node.
    pub open spec fn json(self) -> JsonView {
        JsonView::Object(
            seq![
                ("uuid"@, uuid_json(self.uuid)),
                ("node_type_uuid"@, opt_uuid_json(self.node_type_uuid)),
                ("last_ping"@, u64_json(self.last_ping)),
            ],
        )
    }

    /// The node that a JSON value stands for, if it stands for one.
    pub open spec fn of_json(value: JsonView) -> Option<NodeView> {
        match value {
            JsonView::Object(members) => match (
                field_uuid(members, "uuid"@),
                field_opt_uuid(members, "node_type_uuid"@),
                field_u64(members, "last_ping"@),
            ) {
                (Some(uuid), Some(node_type_uuid), Some(last_ping)) => Some(
                    NodeView {
                        uuid,
                        node_type_uuid,
                        node_type: None,
                        last_ping,
                    },
                ),
                _ => None,
            },
            _ => None,
        }
    }

    /// Reading back what was written gives the node that was written,
    /// without the copy of the record it refers to.
    pub proof fn lemma_round_trip(self)
        ensures
            Self::of_json(self.json()) == Some(self.persisted()),
    {
        reveal_strlit("uuid");
        reveal_strlit("node_type_uuid");
        reveal_strlit("last_ping");
        assert("uuid"@.len() == 4);
        assert("node_type_uuid"@.len() == 14);
        assert("last_ping"@.len() == 9);
        lemma_uuid_round_trip(self.uuid);
        if self.node_type_uuid is Some {
            lemma_uuid_round_trip(self.node_type_uuid->Some_0);
        }
        let m0 = Seq::<(Seq<char>, JsonView)>::empty();
        let m1 = m0.push(("uuid"@, uuid_json(self.uuid)));
        let m2 = m1.push(("node_type_uuid"@, opt_uuid_json(self.node_type_uuid)));
        let m3 = m2.push(("last_ping"@, u64_json(self.last_ping)));
        assert(self.json()->Object_0 =~= m3);
        assert forall|wanted: Seq<char>| #[trigger] member(m3, wanted) ==
            if wanted == m3.last().0 { Some(m3.last().1) }
            else if wanted == m2.last().0 { Some(m2.last().1) }
            else if wanted == m1.last().0 { Some(m1.last().1) }
            else { None } by {
            lemma_member_push(m0, m1.last().0, m1.last().1, wanted);
            lemma_member_push(m1, m2.last().0, m2.last().1, wanted);
            lemma_member_push(m2, m3.last().0, m3.last().1, wanted);
        }
    }
}

impl Node {
    /// Writes the node as a JSON object.
    pub fn to_json(&self) -> (value: Json)
        ensures
            value@ == self@.json(),
    {
        let mut members: Vec<(String, Json)> = Vec::new();
        push_member(&mut members, "uuid", put_uuid(self.uuid));
        push_member(&mut members, "node_type_uuid", put_opt_uuid(self.node_type_uuid));
        push_member(&mut members, "last_ping", put_u64(self.last_ping));
        proof {
            lemma_object_view(members);
            assert(members_view(members@) =~= self@.json()->Object_0);
        }
        Json::Object(members)
    }

    /// Reads a node from a JSON value.
    pub fn from_json(value: &Json) -> (r: Option<Node>)
        ensures
            r is Some == NodeView::of_json(value@) is Some,
            r matches Some(record) ==> Some(record@) == NodeView::of_json(value@),
    {
        match value {
            Json::Object(members) => {
                proof {
                    lemma_object_view(*members);
                }
                let uuid = get_uuid(members, "uuid");
                let node_type_uuid = get_opt_uuid(members, "node_type_uuid");
                let last_ping = get_u64(members, "last_ping");
                match (uuid, node_type_uuid, last_ping) {
                    (Some(uuid), Some(node_type_uuid), Some(last_ping)) => Some(
                        Node {
                            uuid,
                            node_type_uuid,
                            node_type: None,
                            last_ping,
                        },
                    ),
                    _ => None,
                }
            },
            _ => None,
        }
    }

    /// The text under which the node is kept.
    pub fn to_text(&self) -> (text: String)
        ensures
            text@ == json_text(self@.json()),
    {
        self.to_json().to_text()
    }

    /// Reads a node from the text under which one is kept.
    pub fn from_text(text: &str) -> (r: Result<Node, DecodeError>)
        ensures
            match decoding(text@, |value: JsonView| NodeView::of_json(value)) {
                Ok(wanted) => r matches Ok(record) && record@ == wanted,
                Err(message) => r matches Err(error) && error.message() == message,
            },
    {
        match Json::parse(text) {
            Err(message) => Err(DecodeError::Syntax(message)),
            Ok(value) => match Node::from_json(&value) {
                Some(record) => Ok(record),
                None => Err(DecodeError::Shape),
            },
        }
    }
}

} // verus!
