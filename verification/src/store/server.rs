//! The key/value server that the fleet shares, as one client sees it.
//!
//! The server keeps hashes, whose fields are read, written and deleted one by
//! one, and lists, which are pushed at the right and popped at the left. One
//! script runs inside the server: it writes a field only where the field
//! holds what the caller expects. Every command is carried out in one piece.

use vstd::prelude::*;

verus! {

/// All that the server holds.
pub struct ServerState {
    /// The value of every hash field that is set, by key and field.
    pub fields: Map<(Seq<char>, Seq<char>), Seq<char>>,
    /// The lists, by key. A key without an entry is an empty list.
    pub lists: Map<Seq<char>, Seq<Seq<char>>>,
}

/// What the check-and-set script sees in a field that is not set, and what
/// it writes for a value that is absent.
pub open spec fn absent_text() -> Seq<char> {
    "false"@
}

/// The script's answer when it wrote.
pub open spec fn written_text() -> Seq<char> {
    "true"@
}

impl ServerState {
    /// A server that holds nothing.
    pub open spec fn empty() -> ServerState {
        ServerState { fields: Map::empty(), lists: Map::empty() }
    }

    /// The value of a hash field, if it is set.
    pub open spec fn hget(self, key: Seq<char>, field: Seq<char>) -> Option<Seq<char>> {
        if self.fields.contains_key((key, field)) {
            Some(self.fields[(key, field)])
        } else {
            None
        }
    }

    /// The server after a hash field was set.
    pub open spec fn hset(self, key: Seq<char>, field: Seq<char>, value: Seq<char>) -> ServerState {
        ServerState { fields: self.fields.insert((key, field), value), ..self }
    }

    /// The server after a hash field was deleted.
    pub open spec fn hdel(self, key: Seq<char>, field: Seq<char>) -> ServerState {
        ServerState { fields: self.fields.remove((key, field)), ..self }
    }

    /// The list under a key.
    pub open spec fn list(self, key: Seq<char>) -> Seq<Seq<char>> {
        if self.lists.contains_key(key) {
            self.lists[key]
        } else {
            Seq::empty()
        }
    }

    /// The server after a value was pushed at the right of a list.
    pub open spec fn rpush(self, key: Seq<char>, value: Seq<char>) -> ServerState {
        ServerState { lists: self.lists.insert(key, self.list(key).push(value)), ..self }
    }

    /// The server after the leftmost value of a list was popped.
    pub open spec fn lpop(self, key: Seq<char>) -> ServerState {
        ServerState { lists: self.lists.insert(key, self.list(key).drop_first()), ..self }
    }

    /// What the check-and-set script compares with the expected text: the
    /// value of the field, or `false` where the field is not set.
    pub open spec fn seen(self, key: Seq<char>, field: Seq<char>) -> Seq<char> {
        match self.hget(key, field) {
            Some(value) => value,
            None => absent_text(),
        }
    }

    /// Whether the check-and-set script writes.
    pub open spec fn check(self, key: Seq<char>, field: Seq<char>, expected: Seq<char>) -> bool {
        self.seen(key, field) == expected
    }

    /// The server after the check-and-set script ran.
    pub open spec fn check_set(
        self,
        key: Seq<char>,
        field: Seq<char>,
        expected: Seq<char>,
        new: Seq<char>,
    ) -> ServerState {
        if self.check(key, field, expected) {
            self.hset(key, field, new)
        } else {
            self
        }
    }

    /// Whether `pairs` holds every field of the hash under `key` once, with
    /// its value, in any order.
    pub open spec fn holds(self, key: Seq<char>, pairs: Seq<(Seq<char>, Seq<char>)>) -> bool {
        &&& forall|i: int|
            0 <= i < pairs.len() ==> self.hget(key, (#[trigger] pairs[i]).0) == Some(pairs[i].1)
        &&& forall|i: int, j: int|
            0 <= i < j < pairs.len() ==> (#[trigger] pairs[i]).0 != (#[trigger] pairs[j]).0
        &&& forall|field: Seq<char>| #[trigger]
            self.fields.contains_key((key, field)) ==> exists|i: int|
                0 <= i < pairs.len() && (#[trigger] pairs[i]).0 == field
    }

    /// Whether `flat` lists the hash under `key`: field, value, field, value
    /// and so on, every field of the hash once, in any order.
    pub open spec fn listed(self, key: Seq<char>, flat: Seq<Seq<char>>) -> bool {
        flat.len() % 2 == 0 && self.holds(key, pairs_of(flat))
    }
}

/// The pairs of a flat listing: the first text with the second, the third
/// with the fourth, and so on. A text left over at the end is dropped.
pub open spec fn pairs_of(flat: Seq<Seq<char>>) -> Seq<(Seq<char>, Seq<char>)> {
    Seq::new((flat.len() / 2) as nat, |i: int| (flat[2 * i], flat[2 * i + 1]))
}

/// Writing a field of one hash changes the listing of no other hash.
pub proof fn lemma_listed_elsewhere(
    state: ServerState,
    other: Seq<char>,
    field: Seq<char>,
    value: Seq<char>,
    key: Seq<char>,
    flat: Seq<Seq<char>>,
)
    requires
        key != other,
    ensures
        state.hset(other, field, value).listed(key, flat) == state.listed(key, flat),
{
    let after = state.hset(other, field, value);
    let pairs = pairs_of(flat);
    assert forall|name: Seq<char>| after.hget(key, name) == state.hget(key, name) by {}
    assert forall|name: Seq<char>|
        after.fields.contains_key((key, name)) == state.fields.contains_key((key, name)) by {}
    if state.holds(key, pairs) {
        assert(after.holds(key, pairs));
    }
    if after.holds(key, pairs) {
        assert forall|name: Seq<char>| #[trigger]
            state.fields.contains_key((key, name)) implies exists|i: int|
            0 <= i < pairs.len() && (#[trigger] pairs[i]).0 == name by {
            assert(after.fields.contains_key((key, name)));
        }
        assert(state.holds(key, pairs));
    }
}

/// A list of texts, each by its characters.
pub open spec fn lines_view(lines: Seq<String>) -> Seq<Seq<char>> {
    Seq::new(lines.len(), |i: int| lines[i]@)
}

/// A text that may be absent, by its characters.
pub open spec fn opt_text_view(text: Option<String>) -> Option<Seq<char>> {
    match text {
        Some(text) => Some(text@),
        None => None,
    }
}

/// A connection to the key/value server.
///
/// The contract of each command says what the server does with it when the
/// command succeeds, as if no other client wrote in between this command and
/// the one before. Of a command that fails nothing is known. A server is
/// `reliable` where its commands never fail.
pub trait Server {
    /// What the server holds. An implementation that talks to a server
    /// elsewhere cannot say what that is, and leaves this as it stands.
    closed spec fn state(&self) -> ServerState {
        arbitrary()
    }

    /// Whether every command succeeds. An implementation that may fail
    /// leaves this as it stands.
    closed spec fn reliable(&self) -> bool {
        false
    }

    /// Reads a hash field.
    fn hget(&mut self, key: &str, field: &str) -> (r: Result<Option<String>, String>)
        ensures
            final(self).reliable() == old(self).reliable(),
            old(self).reliable() ==> r is Ok,
            r matches Ok(value) ==> final(self).state() == old(self).state() && opt_text_view(
                value,
            ) == old(self).state().hget(key@, field@),
    ;

    /// Writes a hash field.
    fn hset(&mut self, key: &str, field: &str, value: &str) -> (r: Result<(), String>)
        ensures
            final(self).reliable() == old(self).reliable(),
            old(self).reliable() ==> r is Ok,
            r is Ok ==> final(self).state() == old(self).state().hset(key@, field@, value@),
    ;

    /// Deletes a hash field.
    fn hdel(&mut self, key: &str, field: &str) -> (r: Result<(), String>)
        ensures
            final(self).reliable() == old(self).reliable(),
            old(self).reliable() ==> r is Ok,
            r is Ok ==> final(self).state() == old(self).state().hdel(key@, field@),
    ;

    /// Reads a whole hash: field, value, field, value and so on.
    fn hgetall(&mut self, key: &str) -> (r: Result<Vec<String>, String>)
        ensures
            final(self).reliable() == old(self).reliable(),
            old(self).reliable() ==> r is Ok,
            r matches Ok(flat) ==> final(self).state() == old(self).state() && old(
                self,
            ).state().listed(key@, lines_view(flat@)),
    ;

    /// Pushes a value at the right of a list.
    fn rpush(&mut self, key: &str, value: &str) -> (r: Result<(), String>)
        ensures
            final(self).reliable() == old(self).reliable(),
            old(self).reliable() ==> r is Ok,
            r is Ok ==> final(self).state() == old(self).state().rpush(key@, value@),
    ;

    /// Pops the leftmost value of a list, waiting for one where the list is
    /// empty. A server that cannot wait may fail instead.
    fn blpop(&mut self, key: &str) -> (r: Result<String, String>)
        ensures
            final(self).reliable() == old(self).reliable(),
            old(self).reliable() && old(self).state().list(key@).len() > 0 ==> r is Ok,
            r matches Ok(value) ==> old(self).state().list(key@).len() > 0 && value@ == old(
                self,
            ).state().list(key@)[0] && final(self).state() == old(self).state().lpop(key@),
    ;

    /// Reads a whole list, from the left to the right.
    fn lrange(&mut self, key: &str) -> (r: Result<Vec<String>, String>)
        ensures
            final(self).reliable() == old(self).reliable(),
            old(self).reliable() ==> r is Ok,
            r matches Ok(values) ==> final(self).state() == old(self).state() && lines_view(
                values@,
            ) == old(self).state().list(key@),
    ;

    /// Runs the check-and-set script on a hash field and returns its answer:
    /// `true` where it wrote, `false` where it did not.
    fn check_set(&mut self, key: &str, field: &str, expected: &str, new: &str) -> (r: Result<
        Option<String>,
        String,
    >)
        ensures
            final(self).reliable() == old(self).reliable(),
            old(self).reliable() ==> r is Ok,
            r matches Ok(answer) ==> final(self).state() == old(self).state().check_set(
                key@,
                field@,
                expected@,
                new@,
            ) && opt_text_view(answer) == Some(
                if old(self).state().check(key@, field@, expected@) {
                    written_text()
                } else {
                    absent_text()
                },
            ),
    ;

    /// Deletes everything.
    fn flushdb(&mut self) -> (r: Result<(), String>)
        ensures
            final(self).reliable() == old(self).reliable(),
            old(self).reliable() ==> r is Ok,
            r is Ok ==> final(self).state() == ServerState::empty(),
    ;
}

/// The text of the check-and-set script.
pub open spec fn script_text() -> Seq<char> {
    "local c = tostring(redis.call('hget', KEYS[1], KEYS[2]));\nif c == ARGV[1] then\n    redis.call('hset', KEYS[1], KEYS[2], ARGV[2]);\n    return 'true';\nend\nreturn 'false';\n"@
}

/// The text of the check-and-set script, for a server that runs Lua. Its
/// keys are the hash key and the field, its arguments the expected text and
/// the new one.
pub fn check_set_script() -> (script: String)
    ensures
        script@ == script_text(),
{
    String::from_str(
        "local c = tostring(redis.call('hget', KEYS[1], KEYS[2]));\nif c == ARGV[1] then\n    redis.call('hset', KEYS[1], KEYS[2], ARGV[2]);\n    return 'true';\nend\nreturn 'false';\n",
    )
}

} // verus!
