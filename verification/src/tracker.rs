//! The set of descriptors that currently stand for a redirected socket.

use std::collections::HashSet;
use vstd::prelude::*;

verus! {

broadcast use vstd::std_specs::hash::group_hash_axioms;

/// The descriptors that were redirected and not closed since.
///
/// Membership is by descriptor number alone. A descriptor that is closed
/// behind this set's back stays a member, and a later descriptor that reuses
/// the number is then taken for a redirected one.
pub struct ConvertedSockets {
    descriptors: HashSet<i32>,
}

impl View for ConvertedSockets {
    type V = Set<i32>;

    closed spec fn view(&self) -> Set<i32> {
        self.descriptors@
    }
}

impl ConvertedSockets {
    /// An empty set.
    pub fn new() -> (converted: ConvertedSockets)
        ensures
            converted@ == Set::<i32>::empty(),
    {
        ConvertedSockets { descriptors: HashSet::new() }
    }

    /// Records `fd` as redirected. Marking a member again changes nothing.
    pub fn mark(&mut self, fd: i32)
        ensures
            final(self)@ == old(self)@.insert(fd),
    {
        self.descriptors.insert(fd);
    }

    /// Whether `fd` is recorded as redirected.
    pub fn is_marked(&self, fd: i32) -> (marked: bool)
        ensures
            marked == self@.contains(fd),
    {
        self.descriptors.contains(&fd)
    }

    /// Forgets `fd`. Unmarking a descriptor that is no member changes nothing.
    pub fn unmark(&mut self, fd: i32)
        ensures
            final(self)@ == old(self)@.remove(fd),
    {
        self.descriptors.remove(&fd);
    }
}

/// The record after a close of `fd`: the descriptor is forgotten, whether or
/// not it was a member, and every other member stays.
pub open spec fn spec_close(converted: Set<i32>, fd: i32) -> Set<i32> {
    converted.remove(fd)
}

/// Handles an intercepted close of `fd`: the descriptor is forgotten before
/// the caller hands it to the native close, whose result is the call's result.
pub fn close(converted: &mut ConvertedSockets, fd: i32)
    ensures
        final(converted)@ == spec_close(old(converted)@, fd),
{
    converted.unmark(fd);
}

} // verus!
