//! Shoes picked by size, and a counter that counts to five.

use vstd::prelude::*;

verus! {

/// A shoe.
#[derive(PartialEq, Debug)]
pub struct Shoe {
    pub size: u32,
    pub style: String,
}

/// The test for shoes of size `shoe_size`.
pub open spec fn has_size(shoe_size: u32) -> spec_fn(Shoe) -> bool {
    |shoe: Shoe| shoe.size == shoe_size
}

/// Those of `shoes` that have size `shoe_size`, in their order.
pub fn shoes_in_my_size(shoes: Vec<Shoe>, shoe_size: u32) -> (fitting: Vec<Shoe>)
    ensures
        fitting@ == shoes@.filter(has_size(shoe_size)),
{
    let mut fitting: Vec<Shoe> = Vec::new();
    let ghost all = shoes@;
    for shoe in it: shoes
        invariant
            it.seq() == all,
            fitting@ == all.take(it.index() as int).filter(has_size(shoe_size)),
    {
        proof {
            let seen = all.take(it.index() as int);
            assert(all.take(it.index() + 1) =~= seen.push(shoe));
            seen.lemma_filter_push(shoe, has_size(shoe_size));
        }
        if shoe.size == shoe_size {
            fitting.push(shoe);
        }
    }
    assert(all.take(all.len() as int) =~= all);
    fitting
}

/// Counts from 1 to 5.
pub struct Counter {
    count: u32,
}

impl Counter {
    /// How far the counter has counted.
    pub closed spec fn count(&self) -> u32 {
        self.count
    }

    /// A counter that has not counted yet.
    pub fn new() -> (counter: Counter)
        ensures
            counter.count() == 0,
    {
        Counter { count: 0 }
    }

    /// Counts one further, and returns the count as long as it is below 6.
    /// The counter goes on counting after that, and returns nothing.
    pub fn next(&mut self) -> (item: Option<u32>)
        requires
            old(self).count() < u32::MAX,
        ensures
            final(self).count() == old(self).count() + 1,
            item == if final(self).count() < 6 {
                Some(final(self).count())
            } else {
                None
            },
    {
        self.count += 1;
        if self.count < 6 {
            Some(self.count)
        } else {
            None
        }
    }
}

} // verus!
