//! The event-type registry: built once from the header's type table, sealed
//! afterwards, and consulted by the dispatcher to frame every record of the
//! data section.

use vstd::prelude::*;
use std::collections::HashMap;
use crate::types::EventSize;
use crate::types::EventType;

verus! {

broadcast use vstd::std_specs::hash::group_hash_axioms;

/// Maps each declared tag to its table entry.  The decoder's contracts only
/// depend on the size classes, exposed as the `sizes` map; the description
/// strings are informational.
pub struct Registry {
    table: HashMap<u16, EventType>,
}

impl Registry {
    /// The framing contract of the registry: which tags are declared, and
    /// under which size class each one's records are laid out.
    pub closed spec fn sizes(&self) -> Map<u16, EventSize> {
        Map::new(
            |t: u16| self.table@.dom().contains(t),
            |t: u16| self.table@[t].size,
        )
    }

    /// The informational descriptions, keyed by declared tag.
    pub closed spec fn descrs(&self) -> Map<u16, Seq<char>> {
        Map::new(
            |t: u16| self.table@.dom().contains(t),
            |t: u16| self.table@[t].descr@,
        )
    }

    pub fn new() -> (r: Registry)
        ensures
            r.sizes() == Map::<u16, EventSize>::empty(),
    {
        let r = Registry { table: HashMap::new() };
        proof {
            assert(r.sizes() =~= Map::<u16, EventSize>::empty());
        }
        r
    }

    /// Declares a tag.  A tag declared twice keeps the later entry, as the
    /// header decoder processes descriptors in stream order.
    pub fn set(&mut self, tag: u16, et: EventType)
        ensures
            final(self).sizes() == old(self).sizes().insert(tag, et.size),
            final(self).descrs() == old(self).descrs().insert(tag, et.descr@),
    {
        let ghost size = et.size;
        let ghost descr = et.descr@;
        self.table.insert(tag, et);
        proof {
            assert(final(self).sizes() =~= old(self).sizes().insert(tag, size));
            assert(final(self).descrs() =~= old(self).descrs().insert(tag, descr));
        }
    }

    /// Looks a tag up, yielding the size class its records are framed under.
    pub fn get_size(&self, tag: u16) -> (r: Option<EventSize>)
        ensures
            match r {
                Some(sz) => self.sizes().contains_key(tag) && self.sizes()[tag] == sz,
                None => !self.sizes().contains_key(tag),
            },
    {
        match self.table.get(&tag) {
            Some(et) => Some(et.size),
            None => None,
        }
    }

    /// The informational description a tag was declared with.
    pub fn get_descr(&self, tag: u16) -> (r: Option<&String>)
        ensures
            r is Some <==> self.descrs().contains_key(tag),
            r matches Some(d) ==> d@ == self.descrs()[tag],
    {
        match self.table.get(&tag) {
            Some(et) => Some(&et.descr),
            None => None,
        }
    }
}

} // verus!
