use vstd::prelude::*;
use crate::item::GenericItem;

verus! {

/// A shop's stock: items that age together, one day at a time.
pub struct GildedRose<T: GenericItem> {
    pub items: Vec<T>,
}

impl<T: GenericItem> GildedRose<T> {
    /// What every item needs for one day's update: bounds in order, and room
    /// to count sell-in down where its rule is not constant.
    pub open spec fn can_update(&self) -> bool {
        forall|i: int|
            0 <= i < self.items@.len() ==> {
                &&& (#[trigger] self.items@[i]).rule_of().wf()
                &&& self.items@[i].rule_of() is Constant || self.items@[i].sell_in_of() > i32::MIN
            }
    }

    pub fn new(items: Vec<T>) -> (r: Self)
        ensures
            r.items@ == items@,
    {
        GildedRose { items }
    }

    /// One day for every item, each on its own: the items keep their order
    /// and rules, and each one's sell-in and quality move as its rule says.
    pub fn update_quality(&mut self)
        requires
            old(self).can_update(),
        ensures
            final(self).items@.len() == old(self).items@.len(),
            forall|i: int|
                0 <= i < old(self).items@.len() ==> {
                    &&& (#[trigger] final(self).items@[i]).rule_of() == old(self).items@[i].rule_of()
                    &&& (final(self).items@[i].sell_in_of(), final(self).items@[i].quality_of())
                        == old(self).items@[i].rule_of().tick(
                        old(self).items@[i].sell_in_of(),
                        old(self).items@[i].quality_of(),
                    )
                },
    {
        let n = self.items.len();
        let mut i: usize = 0;
        while i < n
            invariant
                old(self).can_update(),
                n == old(self).items@.len(),
                self.items@.len() == n,
                i <= n,
                forall|j: int| i <= j < n ==> #[trigger] self.items@[j] == old(self).items@[j],
                forall|j: int|
                    0 <= j < i ==> {
                        &&& (#[trigger] self.items@[j]).rule_of() == old(self).items@[j].rule_of()
                        &&& (self.items@[j].sell_in_of(), self.items@[j].quality_of())
                            == old(self).items@[j].rule_of().tick(
                            old(self).items@[j].sell_in_of(),
                            old(self).items@[j].quality_of(),
                        )
                    },
            decreases n - i,
        {
            assert(old(self).items@[i as int].rule_of().wf());
            self.items[i].update_quality();
            i = i + 1;
        }
    }
}

} // verus!
