//! A list of items that a user steps through, one of which is current.

use vstd::prelude::*;
use vstd::std_specs::iter::IteratorSpec;

verus! {

/// A list of items with a current position. The position never leaves the
/// list: stepping past either end stays at that end.
#[derive(Debug)]
pub struct ItemList<T: Copy> {
    index: usize,
    items: Vec<T>,
}

impl<T: Copy> ItemList<T> {
    /// The items, in order.
    pub closed spec fn items(&self) -> Seq<T> {
        self.items@
    }

    /// The current position.
    pub closed spec fn position(&self) -> int {
        self.index as int
    }

    /// The current position is that of an item.
    pub open spec fn wf(&self) -> bool {
        0 <= self.position() < self.items().len()
    }

    /// A list of the items that `item_iter` hands out, in its order, with
    /// `index` as the current position.
    pub fn new<I: Iterator<Item = T>>(item_iter: I, index: usize) -> (list: Self)
        requires
            item_iter.obeys_prophetic_iter_laws(),
            item_iter.decrease() is Some,
        ensures
            list.items() == item_iter.remaining(),
            list.position() == index,
    {
        let mut source = item_iter;
        let mut items: Vec<T> = Vec::new();
        loop
            invariant
                source.obeys_prophetic_iter_laws(),
                source.decrease() is Some,
                items@ + source.remaining() == item_iter.remaining(),
            ensures
                source.remaining().len() == 0,
            decreases source.decrease()->0,
        {
            let ghost before = source.remaining();
            match source.next() {
                Some(item) => {
                    items.push(item);
                    assert(items@ + source.remaining() =~= items@.drop_last() + before);
                },
                None => {
                    break ;
                },
            }
        }
        assert(items@ =~= items@ + source.remaining());
        ItemList { index, items }
    }

    /// Steps to the next item, or to the last if there is no next.
    pub fn move_forward(&mut self)
        requires
            old(self).items().len() > 0,
        ensures
            final(self).wf(),
            final(self).items() == old(self).items(),
            final(self).position() == if old(self).position() + 1 < old(self).items().len() {
                old(self).position() + 1
            } else {
                old(self).items().len() - 1
            },
    {
        let last: usize = self.items.len() - 1;
        if self.index < last {
            self.index = self.index + 1;
        } else {
            self.index = last;
        }
    }

    /// Steps to the item before, or stays on the first.
    pub fn move_back(&mut self)
        ensures
            final(self).items() == old(self).items(),
            final(self).position() == if old(self).position() > 0 {
                old(self).position() - 1
            } else {
                0
            },
            old(self).wf() ==> final(self).wf(),
    {
        if self.index > 0 {
            self.index = self.index - 1;
        }
    }

    /// The item at the current position.
    pub fn current_item(&self) -> (item: T)
        requires
            self.wf(),
        ensures
            item == self.items()[self.position()],
    {
        self.items[self.index]
    }

    /// Whether the current position is that of an item.
    pub fn check_wf(&self) -> (ok: bool)
        ensures
            ok == self.wf(),
    {
        self.index < self.items.len()
    }

    /// The current position.
    pub fn current_index(&self) -> (index: usize)
        ensures
            index == self.position(),
    {
        self.index
    }
}

} // verus!
