//! The paste queue: items the user lined up to paste one after another.
use vstd::prelude::*;

verus! {

/// Ids of history items waiting to be pasted, first in line first.
pub struct PasteQueue {
    ids: Vec<i64>,
}

impl View for PasteQueue {
    type V = Seq<i64>;

    closed spec fn view(&self) -> Seq<i64> {
        self.ids@
    }
}

impl PasteQueue {
    /// An empty queue.
    pub fn new() -> (q: Self)
        ensures
            q@ == Seq::<i64>::empty(),
    {
        PasteQueue { ids: Vec::new() }
    }

    /// Replaces the queue with `ids`.
    pub fn set(&mut self, ids: Vec<i64>)
        ensures
            final(self)@ == ids@,
    {
        self.ids = ids;
    }

    /// Takes the first id off the queue, if there is one.
    pub fn take_next(&mut self) -> (next: Option<i64>)
        ensures
            old(self)@.len() == 0 ==> next is None && final(self)@ == old(self)@,
            old(self)@.len() > 0 ==> next == Some(old(self)@[0]) && final(self)@ == old(self)@.drop_first(),
    {
        if self.ids.len() == 0 {
            None
        } else {
            let first = self.ids.remove(0);
            assert(self.ids@ =~= old(self)@.drop_first());
            Some(first)
        }
    }
}

/// The queue pastes in the order it was given: after `k` items were taken
/// from a queue set to `ids`, the queue holds `ids[k..]`, and the next item
/// taken is `ids[k]` (none once all were taken).
pub proof fn law_queue_in_order(ids: Seq<i64>, k: int)
    requires
        0 <= k <= ids.len(),
    ensures
        k < ids.len() ==> ids.skip(k)[0] == ids[k] && ids.skip(k).drop_first() == ids.skip(k + 1),
        k == ids.len() ==> ids.skip(k).len() == 0,
{
    if k < ids.len() {
        assert(ids.skip(k).drop_first() =~= ids.skip(k + 1));
    }
}

} // verus!
