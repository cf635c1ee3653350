use vstd::prelude::*;
use crate::identifier::{Identifier, IdKey};

verus! {

/// The identifiers whose resolution has been started and not yet committed.
pub struct InFlight {
    ids: Vec<Identifier>,
}

impl View for InFlight {
    type V = Set<IdKey>;

    closed spec fn view(&self) -> Set<IdKey> {
        Set::new(|k: IdKey| exists|i: int| 0 <= i < self.ids.len() && #[trigger] self.ids@[i]@ == k)
    }
}

impl InFlight {
    pub fn new() -> (r: InFlight)
        ensures
            r@ == Set::<IdKey>::empty(),
    {
        let r = InFlight { ids: Vec::new() };
        assert(r@ =~= Set::<IdKey>::empty());
        r
    }

    pub fn contains(&self, id: &Identifier) -> (r: bool)
        ensures
            r == self@.contains(id@),
    {
        let mut i: usize = 0;
        while i < self.ids.len()
            invariant
                i <= self.ids.len(),
                forall|j: int| 0 <= j < i ==> #[trigger] self.ids@[j]@ != id@,
            decreases self.ids.len() - i,
        {
            if self.ids[i].same_as(id) {
                assert(self.ids@[i as int]@ == id@);
                return true;
            }
            i = i + 1;
        }
        false
    }

    pub fn add(&mut self, id: Identifier)
        ensures
            final(self)@ == old(self)@.insert(id@),
    {
        let ghost k = id@;
        self.ids.push(id);
        assert(self@ =~= old(self)@.insert(k)) by {
            assert(self.ids@[self.ids.len() - 1]@ == k);
            assert forall|x: IdKey| old(self)@.contains(x) implies self@.contains(x) by {
                let i = choose|i: int| 0 <= i < old(self).ids.len() && #[trigger] old(self).ids@[i]@ == x;
                assert(self.ids@[i]@ == x);
            }
        }
    }

    pub fn remove(&mut self, id: &Identifier)
        ensures
            final(self)@ == old(self)@.remove(id@),
    {
        let mut kept: Vec<Identifier> = Vec::new();
        let mut i: usize = 0;
        let ghost old_ids = self.ids@;
        while i < self.ids.len()
            invariant
                i <= self.ids.len(),
                self.ids@ == old_ids,
                forall|j: int| 0 <= j < kept.len() ==> #[trigger] kept@[j]@ != id@,
                forall|j: int|
                    #![trigger kept@[j]]
                    0 <= j < kept.len() ==> exists|m: int|
                        #![trigger old_ids[m]]
                        0 <= m < i && old_ids[m]@ == kept@[j]@,
                forall|m: int|
                    #![trigger old_ids[m]]
                    0 <= m < i && old_ids[m]@ != id@ ==> exists|j: int|
                        #![trigger kept@[j]]
                        0 <= j < kept.len() && kept@[j]@ == old_ids[m]@,
            decreases self.ids.len() - i,
        {
            let ghost prev = kept@;
            if !self.ids[i].same_as(id) {
                kept.push(self.ids[i].duplicate());
                assert(kept@[kept.len() - 1]@ == old_ids[i as int]@);
            }
            proof {
                assert forall|m: int|
                    #![trigger old_ids[m]]
                    0 <= m < i + 1 && old_ids[m]@ != id@ implies exists|j: int|
                        #![trigger kept@[j]]
                        0 <= j < kept.len() && kept@[j]@ == old_ids[m]@ by {
                    if m < i {
                        let j = choose|j: int|
                            #![trigger prev[j]]
                            0 <= j < prev.len() && prev[j]@ == old_ids[m]@;
                        assert(kept@[j] == prev[j]);
                    } else {
                        assert(kept@[kept.len() - 1]@ == old_ids[m]@);
                    }
                }
            }
            i = i + 1;
        }
        self.ids = kept;
        assert(self@ =~= old(self)@.remove(id@)) by {
            assert forall|x: IdKey| old(self)@.remove(id@).contains(x) implies self@.contains(x) by {
                let m = choose|m: int| 0 <= m < old_ids.len() && #[trigger] old_ids[m]@ == x;
                assert(old_ids[m]@ != id@);
            }
            assert forall|x: IdKey| self@.contains(x) implies old(self)@.remove(id@).contains(x) by {
                let j = choose|j: int| 0 <= j < self.ids.len() && #[trigger] self.ids@[j]@ == x;
                assert(kept@[j]@ == x);
            }
        }
    }
}

} // verus!
