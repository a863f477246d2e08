//! The exact-count collector that a rejection sampler fills.

use vstd::prelude::*;

verus! {

/// The accepted items of one sampling run, in the order of their
/// acceptance, together with the number that the run has to deliver.
pub struct Batch<T> {
    wanted: u32,
    items: Vec<T>,
}

impl<T> View for Batch<T> {
    type V = Seq<T>;

    /// The items accepted so far, oldest first.
    closed spec fn view(&self) -> Seq<T> {
        self.items@
    }
}

impl<T> Batch<T> {
    /// The number of items that the run has to deliver.
    pub closed spec fn spec_wanted(&self) -> nat {
        self.wanted as nat
    }

    /// A batch never holds more items than were asked for.
    pub open spec fn wf(&self) -> bool {
        self@.len() <= self.spec_wanted()
    }

    /// Whether the batch holds as many items as were asked for.
    pub open spec fn spec_is_full(&self) -> bool {
        self@.len() == self.spec_wanted()
    }

    /// An empty batch that is to take `wanted` items.
    pub fn new(wanted: u32) -> (out: Self)
        ensures
            out.wf(),
            out@ == Seq::<T>::empty(),
            out.spec_wanted() == wanted,
    {
        Batch { wanted, items: Vec::with_capacity(wanted as usize) }
    }

    /// The number of items that the run has to deliver.
    pub fn wanted(&self) -> (out: u32)
        ensures
            out == self.spec_wanted(),
    {
        self.wanted
    }

    /// The number of items accepted so far.
    pub fn len(&self) -> (out: usize)
        ensures
            out == self@.len(),
    {
        self.items.len()
    }

    /// Whether the run is over: no further item may be accepted.
    pub fn is_full(&self) -> (out: bool)
        ensures
            out == self.spec_is_full(),
    {
        self.items.len() == self.wanted as usize
    }

    /// Accepts one more item, behind those accepted before.
    pub fn push(&mut self, item: T)
        requires
            old(self).wf(),
            !old(self).spec_is_full(),
        ensures
            final(self).wf(),
            final(self)@ == old(self)@.push(item),
            final(self).spec_wanted() == old(self).spec_wanted(),
    {
        self.items.push(item);
    }

    /// Ends the run and hands out its items: exactly as many as were asked
    /// for, in the order of their acceptance.
    pub fn finish(self) -> (out: Vec<T>)
        requires
            self.spec_is_full(),
        ensures
            out@ == self@,
            out@.len() == self.spec_wanted(),
    {
        self.items
    }
}

} // verus!
