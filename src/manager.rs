//! Keeps at most one derivative of each photo in progress at a time; a
//! derivative already on disk is served as it is.

use vstd::prelude::*;
use std::collections::HashSet;

verus! {

broadcast use vstd::std_specs::hash::group_hash_axioms;

/// What a request for a derivative does next.
#[derive(Clone, Copy, Debug, PartialEq, Eq, Structural)]
pub enum Begin {
    /// A generation for the photo is running: wait a moment and ask again.
    Wait,
    /// The derivative exists: serve it.
    Ready,
    /// The photo is now in flight: generate, then call `finish`.
    Generate,
}

/// The next set of photos in flight, and what the request does, when a
/// request for `id` arrives and the derivative file exists or not.
pub open spec fn begin_spec(in_flight: Set<i64>, id: i64, target_exists: bool) -> (Set<i64>, Begin) {
    if in_flight.contains(id) {
        (in_flight, Begin::Wait)
    } else if target_exists {
        (in_flight, Begin::Ready)
    } else {
        (in_flight.insert(id), Begin::Generate)
    }
}

/// The ids of the photos whose derivative is being made.
pub struct InFlight {
    ids: HashSet<i64>,
}

impl View for InFlight {
    type V = Set<i64>;

    closed spec fn view(&self) -> Set<i64> {
        self.ids@
    }
}

impl InFlight {
    pub fn new() -> (r: InFlight)
        ensures
            r@ == Set::<i64>::empty(),
    {
        InFlight { ids: HashSet::new() }
    }

    /// Whether a generation for `id` is running.
    pub fn contains(&self, id: i64) -> (r: bool)
        ensures
            r == self@.contains(id),
    {
        self.ids.contains(&id)
    }

    /// Starts a request for `id`: it waits while a generation for `id` runs,
    /// is served when the derivative exists, and otherwise puts `id` in
    /// flight and generates.
    pub fn begin(&mut self, id: i64, target_exists: bool) -> (r: Begin)
        ensures
            (final(self)@, r) == begin_spec(old(self)@, id, target_exists),
    {
        if self.ids.contains(&id) {
            Begin::Wait
        } else if target_exists {
            Begin::Ready
        } else {
            self.ids.insert(id);
            Begin::Generate
        }
    }

    /// Ends the generation for `id`, whatever its result.
    pub fn finish(&mut self, id: i64)
        ensures
            final(self)@ == old(self)@.remove(id),
    {
        self.ids.remove(&id);
    }
}

/// Requests for a photo that arrive while its derivative is being made all
/// wait, whatever they find on disk, so that of concurrent requests for one
/// photo only the first starts work. Once that work is over and the
/// derivative is on disk, a waiting request is served it and starts nothing.
pub proof fn lemma_one_generation_per_photo(in_flight: Set<i64>, id: i64, later_sees_file: bool)
    requires
        !in_flight.contains(id),
    ensures
        begin_spec(in_flight, id, false).1 == Begin::Generate,
        begin_spec(begin_spec(in_flight, id, false).0, id, later_sees_file) == (
            begin_spec(in_flight, id, false).0,
            Begin::Wait,
        ),
        begin_spec(begin_spec(in_flight, id, false).0.remove(id), id, true) == (
            in_flight,
            Begin::Ready,
        ),
{
    assert(in_flight.insert(id).remove(id) =~= in_flight);
}

} // verus!
