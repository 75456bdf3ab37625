//! A launcher that starts nothing. It keeps account of what it is asked to
//! start, and hands out children that have ended already, the way the one
//! who set the stage has said. With it an executor can be tried out where
//! there is no shell to start.

use crate::exec::executor::{
    pairs_view, texts_view, ChildProcess, Ending, Invocation, InvocationView, Launcher,
};
use vstd::prelude::*;

verus! {

/// How a child of the stage has ended.
#[derive(Debug, PartialEq)]
pub struct Played {
    /// The exit code; `None` for a child that a signal ended.
    pub code: Option<i32>,
    /// What the child wrote to its standard output.
    pub stdout: Vec<u8>,
    /// What the child wrote to its standard error.
    pub stderr: Vec<u8>,
}

impl View for Played {
    type V = Ending;

    open spec fn view(&self) -> Ending {
        Ending { code: self.code, stdout: self.stdout@, stderr: self.stderr@ }
    }
}

fn copy_bytes(bytes: &Vec<u8>) -> (copy: Vec<u8>)
    ensures
        copy@ == bytes@,
{
    let mut copy: Vec<u8> = Vec::new();
    let mut i: usize = 0;
    while i < bytes.len()
        invariant
            i <= bytes.len(),
            copy@ == bytes@.subrange(0, i as int),
        decreases bytes.len() - i,
    {
        copy.push(bytes[i]);
        proof {
            assert(copy@ =~= bytes@.subrange(0, i + 1));
        }
        i += 1;
    }
    proof {
        assert(bytes@.subrange(0, bytes.len() as int) =~= bytes@);
    }
    copy
}

impl Clone for Played {
    fn clone(&self) -> (copy: Self)
        ensures
            copy@ == self@,
    {
        Played {
            code: self.code,
            stdout: copy_bytes(&self.stdout),
            stderr: copy_bytes(&self.stderr),
        }
    }
}

fn copy_texts(texts: &Vec<String>) -> (copy: Vec<String>)
    ensures
        texts_view(copy@) == texts_view(texts@),
{
    let mut copy: Vec<String> = Vec::new();
    let mut i: usize = 0;
    while i < texts.len()
        invariant
            i <= texts.len(),
            copy.len() == i,
            forall|k: int| 0 <= k < i ==> (#[trigger] copy[k])@ == texts[k]@,
        decreases texts.len() - i,
    {
        copy.push(texts[i].clone());
        i += 1;
    }
    proof {
        assert(texts_view(copy@) =~= texts_view(texts@));
    }
    copy
}

fn copy_pairs(pairs: &Vec<(String, String)>) -> (copy: Vec<(String, String)>)
    ensures
        pairs_view(copy@) == pairs_view(pairs@),
{
    let mut copy: Vec<(String, String)> = Vec::new();
    let mut i: usize = 0;
    while i < pairs.len()
        invariant
            i <= pairs.len(),
            copy.len() == i,
            forall|k: int|
                0 <= k < i ==> (#[trigger] copy[k]).0@ == pairs[k].0@ && copy[k].1@ == pairs[k].1@,
        decreases pairs.len() - i,
    {
        copy.push((pairs[i].0.clone(), pairs[i].1.clone()));
        i += 1;
    }
    proof {
        assert(pairs_view(copy@) =~= pairs_view(pairs@));
    }
    copy
}

impl Clone for Invocation {
    fn clone(&self) -> (copy: Self)
        ensures
            copy@ == self@,
    {
        Invocation {
            arguments: copy_texts(&self.arguments),
            environment: copy_pairs(&self.environment),
            directory: match &self.directory {
                Some(directory) => Some(directory.clone()),
                None => None,
            },
            input: match &self.input {
                Some(input) => Some(input.clone()),
                None => None,
            },
        }
    }
}

/// A child of the stage: one that has ended.
#[derive(Debug, PartialEq)]
pub struct Ended {
    /// How the child has ended.
    pub played: Played,
}

impl ChildProcess for Ended {
    open spec fn ends(&self) -> Option<Ending> {
        Some(self.played@)
    }

    fn wait(&mut self) -> (r: Result<Option<i32>, String>) {
        Ok(self.played.code)
    }

    fn try_wait(&mut self) -> (r: Result<Option<Option<i32>>, String>) {
        Ok(Some(self.played.code))
    }

    fn wait_with_output(self) -> (r: Result<(Vec<u8>, Vec<u8>), String>) {
        Ok((self.played.stdout, self.played.stderr))
    }
}

/// The launcher that starts nothing.
#[derive(Debug, PartialEq)]
pub struct Stage {
    /// What the launcher has been asked to start, in that order.
    pub seen: Vec<Invocation>,
    /// How every child of the stage has ended; `None` for a stage on which
    /// no child can be started.
    pub play: Option<Played>,
}

/// A list of invocations, each by its value.
pub open spec fn invocations_view(seen: Seq<Invocation>) -> Seq<InvocationView> {
    Seq::new(seen.len(), |i: int| seen[i]@)
}

impl Stage {
    /// A stage whose children have all ended as `play` says, or on which
    /// no child can be started.
    pub fn new(play: Option<Played>) -> (stage: Stage)
        ensures
            stage.seen@.len() == 0,
            stage.asked() == Seq::<InvocationView>::empty(),
            stage.play == play,
    {
        let stage = Stage { seen: Vec::new(), play };
        proof {
            assert(invocations_view(stage.seen@) =~= Seq::<InvocationView>::empty());
        }
        stage
    }
}

impl Launcher for Stage {
    type Child = Ended;

    open spec fn asked(&self) -> Seq<InvocationView> {
        invocations_view(self.seen@)
    }

    open spec fn starts(&self, invocation: InvocationView) -> bool {
        self.play is Some
    }

    open spec fn ends_with(&self, invocation: InvocationView) -> Option<Ending> {
        match self.play {
            Some(played) => Some(played@),
            None => None,
        }
    }

    /// Notes the invocation and hands out a child that has ended, if the
    /// stage has one to play.
    fn spawn(&mut self, invocation: &Invocation) -> (child: Option<Ended>)
        ensures
            final(self).play == old(self).play,
    {
        let ghost before = invocations_view(self.seen@);
        self.seen.push(invocation.clone());
        proof {
            assert(invocations_view(self.seen@) =~= before.push(invocation@));
        }
        match &self.play {
            Some(played) => Some(Ended { played: played.clone() }),
            None => None,
        }
    }
}

} // verus!
