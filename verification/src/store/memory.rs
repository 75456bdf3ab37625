//! A key/value server that lives in memory: the server of the model, made
//! executable. It never fails, and it cannot wait: popping an empty list is
//! an error.

use crate::store::server::{lines_view, pairs_of, Server, ServerState};
use vstd::prelude::*;

verus! {

/// The map that a list of entries stands for: where a key occurs twice, the
/// later entry counts.
pub open spec fn table<K, V>(entries: Seq<(K, V)>) -> Map<K, V>
    decreases entries.len(),
{
    if entries.len() == 0 {
        Map::empty()
    } else {
        table(entries.drop_last()).insert(entries.last().0, entries.last().1)
    }
}

proof fn lemma_table_push<K, V>(entries: Seq<(K, V)>, key: K, value: V)
    ensures
        table(entries.push((key, value))) == table(entries).insert(key, value),
{
    assert(entries.push((key, value)).drop_last() =~= entries);
}

/// A key that no entry bears is not in the table.
proof fn lemma_table_absent<K, V>(entries: Seq<(K, V)>, key: K)
    requires
        forall|j: int| 0 <= j < entries.len() ==> (#[trigger] entries[j]).0 != key,
    ensures
        !table(entries).contains_key(key),
    decreases entries.len(),
{
    if entries.len() > 0 {
        let before = entries.drop_last();
        assert forall|j: int| 0 <= j < before.len() implies (#[trigger] before[j]).0 != key by {
            assert(before[j] == entries[j]);
        }
        lemma_table_absent(before, key);
        assert(entries[entries.len() - 1].0 != key);
    }
}

/// The table gives a key the value of the last entry that bears it.
proof fn lemma_table_last<K, V>(entries: Seq<(K, V)>, key: K, i: int)
    requires
        0 <= i < entries.len(),
        entries[i].0 == key,
        forall|j: int| i < j < entries.len() ==> (#[trigger] entries[j]).0 != key,
    ensures
        table(entries).contains_key(key),
        table(entries)[key] == entries[i].1,
    decreases entries.len(),
{
    let before = entries.drop_last();
    if i < entries.len() - 1 {
        assert(before[i] == entries[i]);
        assert forall|j: int| i < j < before.len() implies (#[trigger] before[j]).0 != key by {
            assert(before[j] == entries[j]);
        }
        lemma_table_last(before, key, i);
        assert(entries[entries.len() - 1].0 != key);
    }
}

/// A key of the table is borne by some entry.
proof fn lemma_table_present<K, V>(entries: Seq<(K, V)>, key: K) -> (j: int)
    requires
        table(entries).contains_key(key),
    ensures
        0 <= j < entries.len(),
        entries[j].0 == key,
    decreases entries.len(),
{
    if entries.last().0 == key {
        entries.len() - 1
    } else {
        let before = entries.drop_last();
        let j = lemma_table_present(before, key);
        assert(before[j] == entries[j]);
        j
    }
}

/// A server that keeps everything in two lists of entries.
pub struct MemoryServer {
    fields: Vec<(String, String, String)>,
    lists: Vec<(String, Vec<String>)>,
}

/// The entries of the hashes: key and field, then value.
pub open spec fn field_entries(fields: Seq<(String, String, String)>) -> Seq<
    ((Seq<char>, Seq<char>), Seq<char>),
> {
    Seq::new(fields.len(), |i: int| ((fields[i].0@, fields[i].1@), fields[i].2@))
}

/// The entries of the lists: key, then values.
pub open spec fn list_entries(lists: Seq<(String, Vec<String>)>) -> Seq<
    (Seq<char>, Seq<Seq<char>>),
> {
    Seq::new(lists.len(), |i: int| (lists[i].0@, lines_view(lists[i].1@)))
}

fn clone_lines(lines: &Vec<String>) -> (copy: Vec<String>)
    ensures
        lines_view(copy@) == lines_view(lines@),
{
    let mut copy: Vec<String> = Vec::new();
    let mut i: usize = 0;
    while i < lines.len()
        invariant
            i <= lines.len(),
            copy.len() == i,
            forall|k: int| 0 <= k < i ==> (#[trigger] copy[k])@ == lines[k]@,
        decreases lines.len() - i,
    {
        copy.push(lines[i].clone());
        i += 1;
    }
    proof {
        assert(lines_view(copy@) =~= lines_view(lines@));
    }
    copy
}

impl MemoryServer {
    /// A server that holds nothing.
    pub fn new() -> (server: MemoryServer)
        ensures
            server.state() == ServerState::empty(),
            server.reliable(),
    {
        let server = MemoryServer { fields: Vec::new(), lists: Vec::new() };
        proof {
            assert(field_entries(server.fields@) =~= Seq::empty());
            assert(list_entries(server.lists@) =~= Seq::empty());
        }
        server
    }

    /// The entry that counts for a hash field.
    fn find_field(&self, key: &str, field: &str) -> (r: Option<usize>)
        ensures
            r is Some == self.state().fields.contains_key((key@, field@)),
            r matches Some(i) ==> i < self.fields.len() && self.fields[i as int].2@
                == self.state().fields[(key@, field@)],
    {
        let wanted_key = String::from_str(key);
        let wanted_field = String::from_str(field);
        let ghost entries = field_entries(self.fields@);
        let mut i: usize = self.fields.len();
        while i > 0
            invariant
                i <= self.fields.len(),
                wanted_key@ == key@,
                wanted_field@ == field@,
                entries == field_entries(self.fields@),
                forall|j: int|
                    i <= j < entries.len() ==> (#[trigger] entries[j]).0 != (key@, field@),
            decreases i,
        {
            i -= 1;
            if self.fields[i].0 == wanted_key && self.fields[i].1 == wanted_field {
                proof {
                    assert(entries[i as int].0 == (key@, field@));
                    lemma_table_last(entries, (key@, field@), i as int);
                }
                return Some(i);
            }
            proof {
                assert(entries[i as int].0 != (key@, field@));
            }
        }
        proof {
            lemma_table_absent(entries, (key@, field@));
        }
        None
    }

    /// The entry that counts for a list.
    fn find_list(&self, key: &str) -> (r: Option<usize>)
        ensures
            r is Some == self.state().lists.contains_key(key@),
            r matches Some(i) ==> i < self.lists.len() && lines_view(self.lists[i as int].1@)
                == self.state().lists[key@],
    {
        let wanted = String::from_str(key);
        let ghost entries = list_entries(self.lists@);
        let mut i: usize = self.lists.len();
        while i > 0
            invariant
                i <= self.lists.len(),
                wanted@ == key@,
                entries == list_entries(self.lists@),
                forall|j: int| i <= j < entries.len() ==> (#[trigger] entries[j]).0 != key@,
            decreases i,
        {
            i -= 1;
            if self.lists[i].0 == wanted {
                proof {
                    assert(entries[i as int].0 == key@);
                    lemma_table_last(entries, key@, i as int);
                }
                return Some(i);
            }
            proof {
                assert(entries[i as int].0 != key@);
            }
        }
        proof {
            lemma_table_absent(entries, key@);
        }
        None
    }

    /// The entries of the hashes without those of one field.
    fn fields_without(&self, key: &str, field: &str) -> (rest: Vec<(String, String, String)>)
        ensures
            table(field_entries(rest@)) == self.state().fields.remove((key@, field@)),
    {
        let wanted_key = String::from_str(key);
        let wanted_field = String::from_str(field);
        let ghost entries = field_entries(self.fields@);
        let mut rest: Vec<(String, String, String)> = Vec::new();
        let mut i: usize = 0;
        proof {
            assert(entries.subrange(0, 0) =~= Seq::empty());
            assert(field_entries(rest@) =~= Seq::empty());
            assert(table(field_entries(rest@)) =~= table(entries.subrange(0, 0)).remove(
                (key@, field@),
            ));
        }
        while i < self.fields.len()
            invariant
                i <= self.fields.len(),
                wanted_key@ == key@,
                wanted_field@ == field@,
                entries == field_entries(self.fields@),
                table(field_entries(rest@)) == table(entries.subrange(0, i as int)).remove(
                    (key@, field@),
                ),
            decreases self.fields.len() - i,
        {
            let ghost before = field_entries(rest@);
            proof {
                let upto = entries.subrange(0, i + 1);
                assert(upto.drop_last() =~= entries.subrange(0, i as int));
                assert(upto.last() == entries[i as int]);
            }
            if self.fields[i].0 == wanted_key && self.fields[i].1 == wanted_field {
                proof {
                    assert(table(entries.subrange(0, i + 1)).remove((key@, field@)) =~= table(
                        entries.subrange(0, i as int),
                    ).remove((key@, field@)));
                }
            } else {
                let entry = (
                    self.fields[i].0.clone(),
                    self.fields[i].1.clone(),
                    self.fields[i].2.clone(),
                );
                rest.push(entry);
                proof {
                    let e = entries[i as int];
                    assert(field_entries(rest@) =~= before.push(e));
                    lemma_table_push(before, e.0, e.1);
                    assert(table(before).insert(e.0, e.1) =~= table(
                        entries.subrange(0, i + 1),
                    ).remove((key@, field@)));
                }
            }
            i += 1;
        }
        proof {
            assert(entries.subrange(0, self.fields.len() as int) =~= entries);
        }
        rest
    }

    /// The entries of the lists without those of one key.
    fn lists_without(&self, key: &str) -> (rest: Vec<(String, Vec<String>)>)
        ensures
            table(list_entries(rest@)) == self.state().lists.remove(key@),
    {
        let wanted = String::from_str(key);
        let ghost entries = list_entries(self.lists@);
        let mut rest: Vec<(String, Vec<String>)> = Vec::new();
        let mut i: usize = 0;
        proof {
            assert(entries.subrange(0, 0) =~= Seq::empty());
            assert(list_entries(rest@) =~= Seq::empty());
            assert(table(list_entries(rest@)) =~= table(entries.subrange(0, 0)).remove(key@));
        }
        while i < self.lists.len()
            invariant
                i <= self.lists.len(),
                wanted@ == key@,
                entries == list_entries(self.lists@),
                table(list_entries(rest@)) == table(entries.subrange(0, i as int)).remove(key@),
            decreases self.lists.len() - i,
        {
            let ghost before = list_entries(rest@);
            proof {
                let upto = entries.subrange(0, i + 1);
                assert(upto.drop_last() =~= entries.subrange(0, i as int));
                assert(upto.last() == entries[i as int]);
            }
            if self.lists[i].0 == wanted {
                proof {
                    assert(table(entries.subrange(0, i + 1)).remove(key@) =~= table(
                        entries.subrange(0, i as int),
                    ).remove(key@));
                }
            } else {
                let entry = (self.lists[i].0.clone(), clone_lines(&self.lists[i].1));
                rest.push(entry);
                proof {
                    let e = entries[i as int];
                    assert(list_entries(rest@) =~= before.push(e));
                    lemma_table_push(before, e.0, e.1);
                    assert(table(before).insert(e.0, e.1) =~= table(
                        entries.subrange(0, i + 1),
                    ).remove(key@));
                }
            }
            i += 1;
        }
        proof {
            assert(entries.subrange(0, self.lists.len() as int) =~= entries);
        }
        rest
    }

    /// A copy of the list under a key.
    fn list_of(&self, key: &str) -> (values: Vec<String>)
        ensures
            lines_view(values@) == self.state().list(key@),
    {
        match self.find_list(key) {
            Some(i) => clone_lines(&self.lists[i].1),
            None => {
                let values: Vec<String> = Vec::new();
                proof {
                    assert(lines_view(values@) =~= Seq::empty());
                }
                values
            },
        }
    }

    /// Puts a list under a key.
    fn put_list(&mut self, key: &str, values: Vec<String>)
        ensures
            final(self).state().fields == old(self).state().fields,
            final(self).state().lists == old(self).state().lists.insert(key@, lines_view(values@)),
    {
        let mut rest = self.lists_without(key);
        let ghost before = list_entries(rest@);
        rest.push((String::from_str(key), values));
        proof {
            assert(list_entries(rest@) =~= before.push((key@, lines_view(values@))));
            lemma_table_push(before, key@, lines_view(values@));
            assert(old(self).state().lists.remove(key@).insert(key@, lines_view(values@))
                =~= old(self).state().lists.insert(key@, lines_view(values@)));
        }
        self.lists = rest;
    }

    /// Puts a value under a hash field.
    fn put_field(&mut self, key: &str, field: &str, value: &str)
        ensures
            final(self).state() == old(self).state().hset(key@, field@, value@),
    {
        let mut rest = self.fields_without(key, field);
        let ghost before = field_entries(rest@);
        rest.push((String::from_str(key), String::from_str(field), String::from_str(value)));
        proof {
            assert(field_entries(rest@) =~= before.push(((key@, field@), value@)));
            lemma_table_push(before, (key@, field@), value@);
            assert(old(self).state().fields.remove((key@, field@)).insert((key@, field@), value@)
                =~= old(self).state().fields.insert((key@, field@), value@));
        }
        self.fields = rest;
    }
}

impl Server for MemoryServer {
    closed spec fn state(&self) -> ServerState {
        ServerState {
            fields: table(field_entries(self.fields@)),
            lists: table(list_entries(self.lists@)),
        }
    }

    closed spec fn reliable(&self) -> bool {
        true
    }

    fn hget(&mut self, key: &str, field: &str) -> (r: Result<Option<String>, String>) {
        match self.find_field(key, field) {
            Some(i) => Ok(Some(self.fields[i].2.clone())),
            None => Ok(None),
        }
    }

    fn hset(&mut self, key: &str, field: &str, value: &str) -> (r: Result<(), String>) {
        self.put_field(key, field, value);
        Ok(())
    }

    fn hdel(&mut self, key: &str, field: &str) -> (r: Result<(), String>) {
        let rest = self.fields_without(key, field);
        self.fields = rest;
        Ok(())
    }

    fn hgetall(&mut self, key: &str) -> (r: Result<Vec<String>, String>) {
        Ok(self.listing(key))
    }

    fn rpush(&mut self, key: &str, value: &str) -> (r: Result<(), String>) {
        let mut values = self.list_of(key);
        let ghost before = lines_view(values@);
        values.push(String::from_str(value));
        proof {
            assert(lines_view(values@) =~= before.push(value@));
        }
        self.put_list(key, values);
        Ok(())
    }

    fn blpop(&mut self, key: &str) -> (r: Result<String, String>) {
        let mut values = self.list_of(key);
        if values.len() == 0 {
            return Err(String::from_str("the list is empty and this server cannot wait"));
        }
        let ghost before = lines_view(values@);
        let value = values.remove(0);
        proof {
            assert(lines_view(values@) =~= before.drop_first());
            assert(before[0] == value@);
        }
        self.put_list(key, values);
        Ok(value)
    }

    fn lrange(&mut self, key: &str) -> (r: Result<Vec<String>, String>) {
        Ok(self.list_of(key))
    }

    fn check_set(&mut self, key: &str, field: &str, expected: &str, new: &str) -> (r: Result<
        Option<String>,
        String,
    >) {
        let seen = match self.find_field(key, field) {
            Some(i) => self.fields[i].2.clone(),
            None => String::from_str("false"),
        };
        if seen == String::from_str(expected) {
            self.put_field(key, field, new);
            Ok(Some(String::from_str("true")))
        } else {
            Ok(Some(String::from_str("false")))
        }
    }

    fn flushdb(&mut self) -> (r: Result<(), String>) {
        self.fields = Vec::new();
        self.lists = Vec::new();
        proof {
            assert(field_entries(self.fields@) =~= Seq::empty());
            assert(list_entries(self.lists@) =~= Seq::empty());
        }
        Ok(())
    }
}

impl MemoryServer {
    /// Whether a field stands among the pairs.
    fn among(pairs: &Vec<(String, String)>, field: &String) -> (r: bool)
        ensures
            r == exists|p: int| 0 <= p < pairs.len() && (#[trigger] pairs[p]).0@ == field@,
    {
        let mut p: usize = 0;
        while p < pairs.len()
            invariant
                p <= pairs.len(),
                forall|q: int| 0 <= q < p ==> (#[trigger] pairs[q]).0@ != field@,
            decreases pairs.len() - p,
        {
            if pairs[p].0 == *field {
                return true;
            }
            p += 1;
        }
        false
    }

    /// Every field of the hash under a key, once, with its value.
    fn pairs_under(&self, key: &str) -> (pairs: Vec<(String, String)>)
        ensures
            self.state().holds(key@, crate::exec::executor::pairs_view(pairs@)),
    {
        let wanted = String::from_str(key);
        let ghost entries = field_entries(self.fields@);
        let ghost state = self.state();
        let mut pairs: Vec<(String, String)> = Vec::new();
        let mut i: usize = self.fields.len();
        while i > 0
            invariant
                i <= self.fields.len(),
                wanted@ == key@,
                entries == field_entries(self.fields@),
                state == self.state(),
                forall|p: int|
                    0 <= p < pairs.len() ==> state.hget(key@, (#[trigger] pairs[p]).0@) == Some(
                        pairs[p].1@,
                    ),
                forall|p: int, q: int|
                    0 <= p < q < pairs.len() ==> (#[trigger] pairs[p]).0@ != (
                    #[trigger] pairs[q]).0@,
                forall|j: int|
                    i <= j < entries.len() && (#[trigger] entries[j]).0.0 == key@ ==> exists|p: int|
                        0 <= p < pairs.len() && (#[trigger] pairs[p]).0@ == entries[j].0.1,
            decreases i,
        {
            i -= 1;
            let ghost before = pairs@;
            if self.fields[i].0 == wanted {
                let seen = Self::among(&pairs, &self.fields[i].1);
                if !seen {
                    proof {
                        let field = self.fields[i as int].1@;
                        assert forall|j: int| i < j < entries.len() implies (
                        #[trigger] entries[j]).0 != (key@, field) by {
                            if entries[j].0.0 == key@ {
                                let p = choose|p: int|
                                    0 <= p < pairs.len() && (#[trigger] pairs[p]).0@
                                        == entries[j].0.1;
                                assert(pairs[p].0@ != field);
                            }
                        }
                        assert(entries[i as int].0 == (key@, field));
                        lemma_table_last(entries, (key@, field), i as int);
                    }
                    pairs.push((self.fields[i].1.clone(), self.fields[i].2.clone()));
                    proof {
                        let n = before.len() as int;
                        assert forall|p: int| 0 <= p < pairs.len() implies state.hget(
                            key@,
                            (#[trigger] pairs[p]).0@,
                        ) == Some(pairs[p].1@) by {
                            if p < n {
                                assert(pairs[p] == before[p]);
                            }
                        }
                        assert forall|p: int, q: int| 0 <= p < q < pairs.len() implies (
                        #[trigger] pairs[p]).0@ != (#[trigger] pairs[q]).0@ by {
                            assert(pairs[p] == before[p]);
                            if q < n {
                                assert(pairs[q] == before[q]);
                            }
                        }
                        assert forall|j: int|
                            i <= j < entries.len() && (#[trigger] entries[j]).0.0
                                == key@ implies exists|p: int|
                            0 <= p < pairs.len() && (#[trigger] pairs[p]).0@
                                == entries[j].0.1 by {
                            if j == i {
                                assert(pairs[n].0@ == entries[j].0.1);
                            } else {
                                let p = choose|p: int|
                                    0 <= p < n && (#[trigger] before[p]).0@ == entries[j].0.1;
                                assert(pairs[p] == before[p]);
                            }
                        }
                    }
                }
            }
        }
        proof {
            let seen = crate::exec::executor::pairs_view(pairs@);
            assert forall|field: Seq<char>| #[trigger]
                state.fields.contains_key((key@, field)) implies exists|p: int|
                0 <= p < seen.len() && (#[trigger] seen[p]).0 == field by {
                let j = lemma_table_present(entries, (key@, field));
                assert(entries[j].0.0 == key@);
                let p = choose|p: int|
                    0 <= p < pairs.len() && (#[trigger] pairs[p]).0@ == entries[j].0.1;
                assert(seen[p].0 == field);
            }
            assert forall|p: int| 0 <= p < seen.len() implies state.hget(
                key@,
                (#[trigger] seen[p]).0,
            ) == Some(seen[p].1) by {
                assert(pairs[p].0@ == seen[p].0);
            }
            assert forall|p: int, q: int| 0 <= p < q < seen.len() implies (#[trigger] seen[p]).0
                != (#[trigger] seen[q]).0 by {
                assert(pairs[p].0@ == seen[p].0);
                assert(pairs[q].0@ == seen[q].0);
            }
        }
        pairs
    }

    /// The hash under a key: field, value, field, value and so on.
    fn listing(&self, key: &str) -> (flat: Vec<String>)
        ensures
            self.state().listed(key@, lines_view(flat@)),
    {
        let pairs = self.pairs_under(key);
        let mut flat: Vec<String> = Vec::new();
        let mut i: usize = 0;
        while i < pairs.len()
            invariant
                i <= pairs.len(),
                flat.len() == 2 * i,
                forall|k: int|
                    0 <= k < i ==> flat[2 * k]@ == (#[trigger] pairs[k]).0@ && flat[2 * k + 1]@
                        == pairs[k].1@,
            decreases pairs.len() - i,
        {
            flat.push(pairs[i].0.clone());
            flat.push(pairs[i].1.clone());
            i += 1;
        }
        proof {
            assert(pairs_of(lines_view(flat@)) =~= crate::exec::executor::pairs_view(pairs@));
        }
        flat
    }
}

} // verus!
