//! The store: what the fleet keeps in the key/value server, and how.

pub mod coordination;
pub mod memory;
pub mod record;
pub mod redis;
pub mod server;

use crate::codec::DecodeError;
use crate::exec::node_type::{NodeType, NodeTypeView};
use crate::ident::{hyphenated_text, Uuid};
use crate::store::record::{agrees_all, records, views};
use crate::json::json_text;
use crate::store::redis::{lemma_listed_is_found, node_types_key, nodes_key, RedisStore};
use crate::store::server::{lemma_listed_elsewhere, pairs_of, Server};
use crate::util::config::Config;
use vstd::prelude::*;

verus! {

/// Why an operation of the store failed.
#[derive(Debug, PartialEq)]
pub enum StoreError {
    /// The server, or the connection to it, failed; the text says how.
    Server(String),
    /// What the server holds could not be read as the record it should be.
    Decode(DecodeError),
    /// A record was found under a field that does not spell its identifier.
    Consistency { field: String, found: Uuid },
    /// A job refers to a job type that the server does not hold.
    InvalidJobType(Uuid),
}

/// A [`StoreError`] without the wording of the server's complaint.
pub enum ErrorKind {
    Server,
    Syntax(Seq<char>),
    Shape,
    Consistency,
    InvalidJobType(Uuid),
}

impl StoreError {
    /// What kind of failure this is.
    pub open spec fn kind(self) -> ErrorKind {
        match self {
            StoreError::Server(_) => ErrorKind::Server,
            StoreError::Decode(DecodeError::Syntax(message)) => ErrorKind::Syntax(message@),
            StoreError::Decode(DecodeError::Shape) => ErrorKind::Shape,
            StoreError::Consistency { .. } => ErrorKind::Consistency,
            StoreError::InvalidJobType(id) => ErrorKind::InvalidJobType(id),
        }
    }

    /// A line of text that says what went wrong.
    pub open spec fn described(self) -> Seq<char> {
        match self {
            StoreError::Server(message) => message@,
            StoreError::Decode(error) => error.described(),
            StoreError::Consistency { field, found } => "consistency error: hash key '"@ + field@
                + "' not equal data given uuid '"@ + hyphenated_text(found.value) + "'"@,
            StoreError::InvalidJobType(id) => "invalid job type: '"@ + hyphenated_text(id.value)
                + "'"@,
        }
    }

    /// A line of text that says what went wrong.
    pub fn message(&self) -> (text: String)
        ensures
            text@ == self.described(),
    {
        match self {
            StoreError::Server(message) => message.clone(),
            StoreError::Decode(error) => error.describe(),
            StoreError::Consistency { field, found } => {
                let mut text = String::from_str("consistency error: hash key '");
                text.append(field.as_str());
                text.append("' not equal data given uuid '");
                text.append(found.hyphenated().as_str());
                text.append("'");
                text
            },
            StoreError::InvalidJobType(id) => {
                let mut text = String::from_str("invalid job type: '");
                text.append(id.hyphenated().as_str());
                text.append("'");
                text
            },
        }
    }
}

/// Why a node could not be started.
#[derive(Debug, PartialEq)]
pub enum InitError {
    /// The settings name a kind of store that this library does not know.
    InvalidStoreType(String),
    /// The store failed.
    Store(StoreError),
    /// The server holds no node type of the name that the settings give.
    NodeTypeNotFound(String),
    /// The node type was found, and was gone when the node tried to bind to it.
    NodeTypeVanished(Uuid),
}

impl InitError {
    /// A line of text that says what went wrong.
    pub open spec fn described(self) -> Seq<char> {
        match self {
            InitError::InvalidStoreType(kind) => "Invalid STORE_TYPE configuration option: "@
                + kind@,
            InitError::Store(error) => error.described(),
            InitError::NodeTypeNotFound(name) => "Invalid node type specified, not found: "@
                + name@,
            InitError::NodeTypeVanished(id) => "Node type UUID was not found: "@ + hyphenated_text(
                id.value,
            ),
        }
    }

    /// A line of text that says what went wrong.
    pub fn message(&self) -> (text: String)
        ensures
            text@ == self.described(),
    {
        match self {
            InitError::InvalidStoreType(kind) => {
                let mut text = String::from_str("Invalid STORE_TYPE configuration option: ");
                text.append(kind.as_str());
                text
            },
            InitError::Store(error) => error.message(),
            InitError::NodeTypeNotFound(name) => {
                let mut text = String::from_str("Invalid node type specified, not found: ");
                text.append(name.as_str());
                text
            },
            InitError::NodeTypeVanished(id) => {
                let mut text = String::from_str("Node type UUID was not found: ");
                text.append(id.hyphenated().as_str());
                text
            },
        }
    }
}

/// The first node type of a list that bears a name.
pub open spec fn named(node_types: Seq<NodeTypeView>, name: Seq<char>) -> Option<NodeTypeView>
    decreases node_types.len(),
{
    if node_types.len() == 0 {
        None
    } else if node_types[0].name == name {
        Some(node_types[0])
    } else {
        named(node_types.drop_first(), name)
    }
}

/// A node type that `named` finds stands in the list and bears the name.
pub proof fn lemma_named_found(node_types: Seq<NodeTypeView>, name: Seq<char>) -> (k: int)
    requires
        named(node_types, name) is Some,
    ensures
        0 <= k < node_types.len(),
        node_types[k] == named(node_types, name)->Some_0,
        node_types[k].name == name,
    decreases node_types.len(),
{
    if node_types[0].name == name {
        0
    } else {
        let k = lemma_named_found(node_types.drop_first(), name);
        assert(node_types.drop_first()[k] == node_types[k + 1]);
        k + 1
    }
}

/// Finds the first node type of a list that bears a name.
pub fn find_named<'a>(node_types: &'a Vec<NodeType>, name: &String) -> (r: Option<&'a NodeType>)
    ensures
        r is Some == named(views(node_types@), name@) is Some,
        r matches Some(node_type) ==> Some(node_type@) == named(views(node_types@), name@),
{
    let ghost all = views(node_types@);
    let mut i: usize = 0;
    proof {
        assert(all.subrange(0, all.len() as int) =~= all);
    }
    while i < node_types.len()
        invariant
            i <= node_types.len(),
            all == views(node_types@),
            named(all, name@) == named(all.subrange(i as int, all.len() as int), name@),
        decreases node_types.len() - i,
    {
        proof {
            let from = all.subrange(i as int, all.len() as int);
            assert(from[0] == all[i as int]);
            assert(from.drop_first() =~= all.subrange(i + 1, all.len() as int));
        }
        if node_types[i].name == *name {
            return Some(&node_types[i]);
        }
        i += 1;
    }
    proof {
        assert(all.subrange(all.len() as int, all.len() as int).len() == 0);
    }
    None
}

/// Makes the store of a new node, where the settings ask for the one kind
/// of store that there is.
pub fn init_store_untyped<C: Server>(conn: &mut C, config: &Config) -> (r: Result<
    RedisStore,
    InitError,
>)
    ensures
        final(conn).reliable() == old(conn).reliable(),
        config.store_type@ != "redis"@ ==> final(conn).state() == old(conn).state(),
        config.store_type@ != "redis"@ ==> (r matches Err(InitError::InvalidStoreType(kind))
            && kind@ == config.store_type@),
        config.store_type@ == "redis"@ && old(conn).reliable() ==> r is Ok,
        r matches Ok(store) ==> config.store_type@ == "redis"@ && !store.bound()
            && store.node.node_type is None && final(conn).state()
            == old(conn).state().hset(
            nodes_key(),
            hyphenated_text(store.node.uuid.value),
            json_text(store.node@.json()),
        ),
        r matches Err(error) ==> error is InvalidStoreType || error is Store,
        r matches Err(InitError::Store(error)) ==> error.kind() is Server && !old(conn).reliable(),
{
    if config.store_type == String::from_str("redis") {
        match RedisStore::connect(conn) {
            Err(error) => Err(InitError::Store(error)),
            Ok(store) => Ok(store),
        }
    } else {
        Err(InitError::InvalidStoreType(config.store_type.clone()))
    }
}

/// What starting a node comes to on a server that does not fail, where
/// `flat` is the listing of the node types: the failure to read the
/// listing, or the news that no node type bears the name, or a store that
/// is bound to the first node type of the listing that bears it.
pub open spec fn bound_at_start(
    flat: Seq<Seq<char>>,
    name: Seq<char>,
    r: Result<RedisStore, InitError>,
) -> bool {
    match records::<NodeType>(pairs_of(flat)) {
        Err(kind) => r matches Err(InitError::Store(error)) && error.kind() == kind,
        Ok(list) => match named(list, name) {
            None => r matches Err(InitError::NodeTypeNotFound(missing)) && missing@ == name,
            Some(node_type) => r matches Ok(store) && store.node.node_type_uuid == Some(
                node_type.uuid,
            ) && store.node@.node_type == Some(node_type),
        },
    }
}

/// Makes the store of a new node and binds the node to the node type that
/// the settings name.
pub fn init_store<C: Server>(conn: &mut C, config: &Config) -> (r: Result<RedisStore, InitError>)
    ensures
        final(conn).reliable() == old(conn).reliable(),
        config.store_type@ != "redis"@ ==> r matches Err(InitError::InvalidStoreType(_)),
        config.store_type@ == "redis"@ && old(conn).reliable() ==> exists|flat: Seq<Seq<char>>|
            old(conn).state().listed(node_types_key(), flat) && #[trigger] bound_at_start(
                flat,
                config.node_type@,
                r,
            ),
        r matches Ok(store) ==> store.bound() && store.node@.node_type is Some
            && store.node@.node_type->Some_0.name == config.node_type@
            && store.node@.node_type->Some_0.uuid == store.node.node_type_uuid->Some_0
            && store.node@.node_type->Some_0.valid(),
        r matches Err(InitError::NodeTypeNotFound(name)) ==> name@ == config.node_type@,
        r matches Err(InitError::Store(error)) ==> (error.kind() is Server ==> !old(
            conn,
        ).reliable()),
{
    let ghost start = conn.state();
    let mut store = match init_store_untyped(conn, config) {
        Ok(store) => store,
        Err(error) => {
            return Err(error);
        },
    };
    let ghost state = conn.state();
    let ghost written = json_text(store.node@.json());
    let listing = store.get_node_types(conn);
    let ghost flat = choose|flat: Seq<Seq<char>>|
        state.listed(node_types_key(), flat) && agrees_all(
            listing,
            #[trigger] records::<NodeType>(pairs_of(flat)),
        );
    proof {
        if conn.reliable() {
            reveal_strlit("nodes");
            reveal_strlit("node_types");
            assert("nodes"@.len() == 5);
            assert("node_types"@.len() == 10);
            lemma_listed_elsewhere(
                start,
                nodes_key(),
                hyphenated_text(store.node.uuid.value),
                written,
                node_types_key(),
                flat,
            );
            assert(start.listed(node_types_key(), flat));
        }
    }
    let node_types = match listing {
        Err(error) => {
            let r = Err(InitError::Store(error));
            proof {
                if conn.reliable() {
                    assert(bound_at_start(flat, config.node_type@, r));
                }
            }
            return r;
        },
        Ok(node_types) => node_types,
    };
    let id = match find_named(&node_types, &config.node_type) {
        None => {
            let r = Err(InitError::NodeTypeNotFound(config.node_type.clone()));
            proof {
                if conn.reliable() {
                    assert(bound_at_start(flat, config.node_type@, r));
                }
            }
            return r;
        },
        Some(node_type) => node_type.uuid,
    };
    proof {
        let k = lemma_named_found(views(node_types@), config.node_type@);
        lemma_listed_is_found::<NodeType>(state, node_types_key(), flat, k);
    }
    let r = match store.set_node_type(conn, id) {
        Err(error) => Err(InitError::Store(error)),
        Ok(None) => Err(InitError::NodeTypeVanished(id)),
        Ok(Some(())) => Ok(store),
    };
    proof {
        if conn.reliable() {
            assert(bound_at_start(flat, config.node_type@, r));
        }
    }
    r
}

} // verus!
