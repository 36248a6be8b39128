//! Helpers for pairs of colliding entities.

use vstd::prelude::*;

verus! {

/// A contact between two collision shapes, by entity: whether it has just
/// started or just ended, the entities that carry the two shapes, and the
/// entities that carry the rigid bodies the shapes belong to.
#[derive(Clone, Copy, Debug)]
pub struct CollisionEvent {
    pub started: bool,
    pub shapes: (u64, u64),
    pub bodies: (u64, u64),
}

/// Questions about the two members of a pair.
pub trait TupleUtil<T> {
    /// Whether `element` is one of the two.
    spec fn holds(&self, element: T) -> bool;

    /// The member that is not `element`, if `element` is one of the two. For
    /// a pair of two equal members that is the same value again.
    spec fn other(&self, element: T) -> Option<T>;

    /// Whether `element` is one of the two.
    fn any(&self, element: T) -> (found: bool)
        ensures
            found == self.holds(element),
    ;

    /// Whether `element1` and `element2` are both in the pair.
    fn both(&self, element1: T, element2: T) -> (found: bool)
        ensures
            found == (self.holds(element1) && self.holds(element2)),
    ;

    /// The partner of `element` in the pair.
    fn not(&self, element: T) -> (partner: Option<T>)
        ensures
            partner == self.other(element),
    ;
}

impl TupleUtil<u64> for (u64, u64) {
    open spec fn holds(&self, element: u64) -> bool {
        self.0 == element || self.1 == element
    }

    open spec fn other(&self, element: u64) -> Option<u64> {
        if self.0 == element {
            Some(self.1)
        } else if self.1 == element {
            Some(self.0)
        } else {
            None
        }
    }

    fn any(&self, element: u64) -> (found: bool) {
        self.0 == element || self.1 == element
    }

    fn both(&self, element1: u64, element2: u64) -> (found: bool) {
        self.any(element1) && self.any(element2)
    }

    fn not(&self, element: u64) -> (partner: Option<u64>) {
        if self.0 == element {
            Some(self.1)
        } else if self.1 == element {
            Some(self.0)
        } else {
            None
        }
    }
}

/// The entities whose shapes have just come into contact with the shape of
/// `entity`, in the order of the contacts.
pub open spec fn partners_of(entity: u64, events: Seq<CollisionEvent>) -> Seq<u64>
    decreases events.len(),
{
    if events.len() == 0 {
        Seq::empty()
    } else {
        let earlier = partners_of(entity, events.drop_last());
        match events.last().shapes.other(entity) {
            Some(partner) => if events.last().started {
                earlier.push(partner)
            } else {
                earlier
            },
            None => earlier,
        }
    }
}

/// Collects the entities whose shapes have just come into contact with the
/// shape of `entity`.
pub fn overlap_partners(entity: u64, events: &Vec<CollisionEvent>) -> (partners: Vec<u64>)
    ensures
        partners@ == partners_of(entity, events@),
{
    let mut partners: Vec<u64> = Vec::new();
    let mut i: usize = 0;
    while i < events.len()
        invariant
            i <= events@.len(),
            partners@ == partners_of(entity, events@.take(i as int)),
        decreases events@.len() - i,
    {
        let event = events[i];
        proof {
            assert(events@.take(i + 1).drop_last() == events@.take(i as int));
            assert(events@.take(i + 1).last() == event);
        }
        if event.shapes.any(entity) && event.started {
            if let Some(partner) = event.shapes.not(entity) {
                partners.push(partner);
            }
        }
        i += 1;
    }
    proof {
        assert(events@.take(events@.len() as int) == events@);
    }
    partners
}

} // verus!
