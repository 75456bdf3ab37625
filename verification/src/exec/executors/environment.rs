//! The environment of a child process: the variables that the job type sets,
//! with those that the job sets on top.

use crate::codec::Members;
use crate::exec::executor::pairs_view;
use crate::json::{lemma_object_view, lookup, member, members_view, Json, JsonView};
use vstd::prelude::*;

verus! {

/// The variables that a record sets: the members of its `environment`, where
/// that is an object, and none otherwise.
pub open spec fn environment_of(members: Members) -> Members {
    match member(members, "environment"@) {
        Some(JsonView::Object(variables)) => variables,
        _ => Seq::empty(),
    }
}

/// The value that the child sees for `name`: what the job says, else what
/// the job type says. Only a string is a value; anything else leaves the
/// variable unset.
pub open spec fn merged_value(meta: Members, job: Members, name: Seq<char>) -> Option<Seq<char>> {
    let chosen = match member(job, name) {
        Some(value) => Some(value),
        None => member(meta, name),
    };
    match chosen {
        Some(JsonView::Text(text)) => Some(text),
        _ => None,
    }
}

/// For each member of `source` in turn, its name with the value that the
/// child sees for it, where it sees one.
pub open spec fn effective_pairs(source: Members, meta: Members, job: Members) -> Seq<
    (Seq<char>, Seq<char>),
>
    decreases source.len(),
{
    if source.len() == 0 {
        Seq::empty()
    } else {
        let before = effective_pairs(source.drop_last(), meta, job);
        match merged_value(meta, job, source.last().0) {
            Some(text) => before.push((source.last().0, text)),
            None => before,
        }
    }
}

/// The variables to set for the child of a job with the given arguments,
/// made from a job type with the given metadata.
pub open spec fn merged_environment(metadata: Members, arguments: Members) -> Seq<
    (Seq<char>, Seq<char>),
> {
    let meta = environment_of(metadata);
    let job = environment_of(arguments);
    effective_pairs(meta, meta, job) + effective_pairs(job, meta, job)
}

/// The value that a list of variables gives to `name`: the last one listed.
pub open spec fn variable(pairs: Seq<(Seq<char>, Seq<char>)>, name: Seq<char>) -> Option<Seq<char>>
    decreases pairs.len(),
{
    if pairs.len() == 0 {
        None
    } else if pairs.last().0 == name {
        Some(pairs.last().1)
    } else {
        variable(pairs.drop_last(), name)
    }
}

/// What `effective_pairs` lists under a name is what the child sees for it,
/// where `source` has a member of that name.
proof fn lemma_effective_pairs(source: Members, meta: Members, job: Members, name: Seq<char>)
    ensures
        variable(effective_pairs(source, meta, job), name) == if member(source, name) is Some {
            merged_value(meta, job, name)
        } else {
            None
        },
    decreases source.len(),
{
    if source.len() > 0 {
        lemma_effective_pairs(source.drop_last(), meta, job, name);
        let before = effective_pairs(source.drop_last(), meta, job);
        match merged_value(meta, job, source.last().0) {
            Some(text) => {
                assert(before.push((source.last().0, text)).drop_last() =~= before);
            },
            None => {},
        }
    }
}

proof fn lemma_variable_concat(
    first: Seq<(Seq<char>, Seq<char>)>,
    second: Seq<(Seq<char>, Seq<char>)>,
    name: Seq<char>,
)
    ensures
        variable(first + second, name) == match variable(second, name) {
            Some(text) => Some(text),
            None => variable(first, name),
        },
    decreases second.len(),
{
    if second.len() == 0 {
        assert(first + second =~= first);
    } else {
        lemma_variable_concat(first, second.drop_last(), name);
        assert((first + second).drop_last() =~= first + second.drop_last());
        assert((first + second).last() == second.last());
    }
}

/// The child sees for every name what the job sets, and else what the job
/// type sets: the job wins. A value that is not a string unsets the name,
/// also where the other side would set it.
pub proof fn lemma_job_wins(metadata: Members, arguments: Members, name: Seq<char>)
    ensures
        variable(merged_environment(metadata, arguments), name) == merged_value(
            environment_of(metadata),
            environment_of(arguments),
            name,
        ),
{
    let meta = environment_of(metadata);
    let job = environment_of(arguments);
    lemma_effective_pairs(meta, meta, job, name);
    lemma_effective_pairs(job, meta, job, name);
    lemma_variable_concat(effective_pairs(meta, meta, job), effective_pairs(job, meta, job), name);
}

fn variables_of(members: &Vec<(String, Json)>) -> (variables: Vec<(String, Json)>)
    ensures
        members_view(variables@) == environment_of(members_view(members@)),
{
    match lookup(members, "environment") {
        Some(Json::Object(inner)) => {
            proof {
                lemma_object_view(*inner);
            }
            crate::json::clone_members(inner)
        },
        _ => {
            let empty: Vec<(String, Json)> = Vec::new();
            proof {
                assert(members_view(empty@) =~= Seq::empty());
            }
            empty
        },
    }
}

fn value_for(meta: &Vec<(String, Json)>, job: &Vec<(String, Json)>, name: &str) -> (r: Option<
    String,
>)
    ensures
        r is Some == merged_value(members_view(meta@), members_view(job@), name@) is Some,
        r matches Some(text) ==> Some(text@) == merged_value(
            members_view(meta@),
            members_view(job@),
            name@,
        ),
{
    let chosen = match lookup(job, name) {
        Some(value) => Some(value),
        None => lookup(meta, name),
    };
    match chosen {
        Some(Json::Text(text)) => Some(text.clone()),
        _ => None,
    }
}

fn collect(
    source: &Vec<(String, Json)>,
    meta: &Vec<(String, Json)>,
    job: &Vec<(String, Json)>,
    pairs: &mut Vec<(String, String)>,
)
    ensures
        pairs_view(final(pairs)@) == pairs_view(old(pairs)@) + effective_pairs(
            members_view(source@),
            members_view(meta@),
            members_view(job@),
        ),
{
    let ghost all = members_view(source@);
    let ghost m = members_view(meta@);
    let ghost j = members_view(job@);
    let ghost start = pairs_view(pairs@);
    let mut i: usize = 0;
    proof {
        assert(all.subrange(0, 0) =~= Seq::empty());
        assert(start + effective_pairs(all.subrange(0, 0), m, j) =~= start);
    }
    while i < source.len()
        invariant
            i <= source.len(),
            all == members_view(source@),
            m == members_view(meta@),
            j == members_view(job@),
            pairs_view(pairs@) == start + effective_pairs(all.subrange(0, i as int), m, j),
        decreases source.len() - i,
    {
        let ghost before = pairs_view(pairs@);
        let found = value_for(meta, job, source[i].0.as_str());
        proof {
            let upto = all.subrange(0, i + 1);
            assert(upto.last() == all[i as int]);
            assert(upto.drop_last() =~= all.subrange(0, i as int));
        }
        match found {
            Some(text) => {
                let name = source[i].0.clone();
                pairs.push((name, text));
                proof {
                    assert(pairs_view(pairs@) =~= before.push((all[i as int].0, text@)));
                    assert(before.push((all[i as int].0, text@)) =~= start + effective_pairs(
                        all.subrange(0, i + 1),
                        m,
                        j,
                    ));
                }
            },
            None => {},
        }
        i += 1;
    }
    proof {
        assert(all.subrange(0, source.len() as int) =~= all);
    }
}

/// Lists the variables to set for the child of a job.
pub fn merge_environment(metadata: &Vec<(String, Json)>, arguments: &Vec<(String, Json)>) -> (pairs:
    Vec<(String, String)>)
    ensures
        pairs_view(pairs@) == merged_environment(
            members_view(metadata@),
            members_view(arguments@),
        ),
{
    let meta = variables_of(metadata);
    let job = variables_of(arguments);
    let mut pairs: Vec<(String, String)> = Vec::new();
    proof {
        assert(pairs_view(pairs@) =~= Seq::empty());
    }
    collect(&meta, &meta, &job, &mut pairs);
    collect(&job, &meta, &job, &mut pairs);
    proof {
        let m = members_view(meta@);
        let j = members_view(job@);
        assert(Seq::<(Seq<char>, Seq<char>)>::empty() + effective_pairs(m, m, j)
            =~= effective_pairs(m, m, j));
    }
    pairs
}

} // verus!
