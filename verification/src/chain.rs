//! Handles to what the engine owns, and the walk along one of its chains.
//!
//! The engine hands its results out as chains of nodes. A step from one
//! node to the next gives the earlier node back to the engine, and the step
//! past the last node gives back the whole chain. A chain that is left
//! before its end has to be given back by one explicit release.

use crate::error::{Error, ErrorKind};
use vstd::prelude::*;

verus! {

/// The node that an address stands for; the address 0 stands for none.
pub open spec fn node_at(raw: usize) -> Option<usize> {
    if raw == 0 {
        None
    } else {
        Some(raw)
    }
}

/// Where a walk stands after one more step, which the engine answered with
/// the address `successor`: a walk that has ended stays ended.
pub open spec fn step(pending: Option<usize>, successor: usize) -> Option<usize> {
    if pending is Some {
        node_at(successor)
    } else {
        None
    }
}

/// Where a walk that began at the address `start` stands after the steps
/// that the engine answered with `answers`, in that order.
pub open spec fn walk(start: usize, answers: Seq<usize>) -> Option<usize>
    decreases answers.len(),
{
    if answers.len() == 0 {
        node_at(start)
    } else {
        step(walk(start, answers.drop_last()), answers.last())
    }
}

/// Turns the engine's "no object" answer into a failure of kind `kind`.
pub fn require_handle(raw: usize, kind: ErrorKind) -> (handle: Result<usize, Error>)
    ensures
        handle is Ok <==> raw != 0,
        handle matches Ok(h) ==> h == raw,
        handle matches Err(e) ==> e.kind == kind,
{
    if raw == 0 {
        Err(Error::new(kind))
    } else {
        Ok(raw)
    }
}

/// A place in a chain of the engine. It owns what is left of the chain:
/// the value cannot be copied, and `dispose` takes it for good.
#[derive(Debug)]
pub struct Cursor {
    node: usize,
}

impl Cursor {
    /// The node the cursor stands on, which is also the one that still has
    /// to be given back; nothing once the walk has passed the end.
    pub closed spec fn pending(&self) -> Option<usize> {
        node_at(self.node)
    }

    /// A cursor on the node at `raw`, or an exhausted one for address 0.
    pub fn new(raw: usize) -> (cursor: Cursor)
        ensures
            cursor.pending() == node_at(raw),
    {
        Cursor { node: raw }
    }

    /// The node to read next, if the walk has not ended.
    pub fn current(&self) -> (node: Option<usize>)
        ensures
            node == self.pending(),
    {
        if self.node == 0 {
            None
        } else {
            Some(self.node)
        }
    }

    /// Takes the step whose result the engine gave as `successor`, and
    /// returns the node that was left. An exhausted cursor stays exhausted
    /// whatever `successor` is.
    pub fn advance(&mut self, successor: usize) -> (visited: Option<usize>)
        ensures
            visited == old(self).pending(),
            final(self).pending() == step(old(self).pending(), successor),
    {
        if self.node == 0 {
            None
        } else {
            let visited: usize = self.node;
            self.node = successor;
            Some(visited)
        }
    }

    /// Ends the walk and returns the node that the caller has to release:
    /// the current one, or nothing when the engine already took the chain
    /// back at its end.
    pub fn dispose(self) -> (release: Option<usize>)
        ensures
            release == self.pending(),
    {
        if self.node == 0 {
            None
        } else {
            Some(self.node)
        }
    }
}

/// A walk that has ended stays ended, whatever the engine answers to
/// later steps: a cursor cannot be started again.
pub proof fn lemma_ended_walk_stays_ended(start: usize, answers: Seq<usize>, k: int)
    requires
        0 <= k <= answers.len(),
        walk(start, answers.take(k)) is None,
    ensures
        walk(start, answers) is None,
    decreases answers.len() - k,
{
    if k == answers.len() {
        assert(answers.take(k) =~= answers);
    } else {
        assert(answers.take(k + 1).drop_last() =~= answers.take(k));
        lemma_ended_walk_stays_ended(start, answers, k + 1);
    }
}

/// A chain is given back once. As long as the engine has answered no step
/// with "no node", the walk holds exactly one node to release, the one it
/// reached last. From the step that the engine answered with "no node",
/// by which it took the chain back itself, the walk holds none.
pub proof fn lemma_released_once(start: usize, answers: Seq<usize>)
    ensures
        walk(start, answers) is Some <==> start != 0 && forall|i: int|
            0 <= i < answers.len() ==> answers[i] != 0,
        walk(start, answers) is Some ==> walk(start, answers) == Some(
            if answers.len() == 0 {
                start
            } else {
                answers.last()
            },
        ),
    decreases answers.len(),
{
    if answers.len() > 0 {
        let before = answers.drop_last();
        lemma_released_once(start, before);
        assert forall|i: int| 0 <= i < before.len() implies before[i] == answers[i] by {}
        if walk(start, answers) is Some {
            assert forall|i: int| 0 <= i < answers.len() implies answers[i] != 0 by {
                if i < before.len() {
                    assert(before[i] != 0);
                }
            }
        }
    }
}

} // verus!
