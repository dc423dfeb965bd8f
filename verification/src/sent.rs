//! The recency window: which titles have been mailed lately.

use std::collections::VecDeque;
use vstd::prelude::*;
use vstd::std_specs::vecdeque::*;

verus! {

/// The capacity of the window where none is configured.
pub const DEFAULT_MAX: usize = 25;

/// What a window holds after `id` is remembered: `id` in front of the earlier
/// entries, cut at the back to `max` entries.
pub open spec fn remembered(window: Seq<Seq<char>>, max: nat, id: Seq<char>) -> Seq<Seq<char>> {
    let grown = seq![id] + window;
    if grown.len() <= max {
        grown
    } else {
        grown.take(max as int)
    }
}

/// The window after every title of `ids` has been remembered in turn, starting
/// from an empty window.
pub open spec fn remembered_all(max: nat, ids: Seq<Seq<char>>) -> Seq<Seq<char>>
    decreases ids.len(),
{
    if ids.len() == 0 {
        Seq::empty()
    } else {
        remembered(remembered_all(max, ids.drop_last()), max, ids.last())
    }
}

/// A window never outgrows its capacity: whatever it held, after one more
/// title it holds at most `max`.
pub proof fn lemma_window_bounded(window: Seq<Seq<char>>, max: nat, id: Seq<char>)
    ensures
        remembered(window, max, id).len() <= max,
        window.len() < max ==> remembered(window, max, id).len() == window.len() + 1,
{
}

/// From a full window, the title that leaves is the one that was added
/// longest ago, the last one; every other title stays, in its order, behind
/// the new one.
pub proof fn lemma_oldest_is_evicted(window: Seq<Seq<char>>, max: nat, id: Seq<char>)
    requires
        window.len() == max,
        max > 0,
    ensures
        remembered(window, max, id) == seq![id] + window.drop_last(),
{
}

/// While there is room, nothing leaves.
pub proof fn lemma_room_keeps_all(window: Seq<Seq<char>>, max: nat, id: Seq<char>)
    requires
        window.len() < max,
    ensures
        remembered(window, max, id) == seq![id] + window,
{
}

/// A title is held right after it was added, unless the window keeps nothing.
pub proof fn lemma_added_is_held(window: Seq<Seq<char>>, max: nat, id: Seq<char>)
    ensures
        max > 0 ==> remembered(window, max, id).contains(id),
        max == 0 ==> remembered(window, max, id).len() == 0,
{
    if max > 0 {
        assert(remembered(window, max, id)[0] == id);
    }
}

/// Adding a title brings in no other title: what is held afterwards is the new
/// title or was held before.
pub proof fn lemma_nothing_else_appears(
    window: Seq<Seq<char>>,
    max: nat,
    id: Seq<char>,
    other: Seq<char>,
)
    requires
        other != id,
        !window.contains(other),
    ensures
        !remembered(window, max, id).contains(other),
{
}

/// After any run of additions to an empty window, the window holds the `max`
/// titles added last, newest first; so it never holds more than `max`, and
/// the titles that left are exactly those added longest ago.
pub proof fn lemma_window_is_latest(max: nat, ids: Seq<Seq<char>>)
    ensures
        remembered_all(max, ids).len() == if ids.len() <= max {
            ids.len()
        } else {
            max
        },
        forall|i: int|
            0 <= i < remembered_all(max, ids).len() ==> #[trigger] remembered_all(max, ids)[i]
                == ids[ids.len() - 1 - i],
    decreases ids.len(),
{
    if ids.len() > 0 {
        lemma_window_is_latest(max, ids.drop_last());
    }
}

/// A title that was never added is not held.
pub proof fn lemma_never_added_not_held(max: nat, ids: Seq<Seq<char>>, id: Seq<char>)
    requires
        !ids.contains(id),
    ensures
        !remembered_all(max, ids).contains(id),
{
    lemma_window_is_latest(max, ids);
}

/// A bounded, insertion-ordered record of the titles that were mailed most
/// recently. The newest title is first; once `max` titles are held, adding
/// another drops the oldest.
pub struct Sent {
    list: VecDeque<String>,
    max: usize,
}

impl View for Sent {
    type V = Seq<Seq<char>>;

    /// The titles held, newest first.
    closed spec fn view(&self) -> Seq<Seq<char>> {
        self.list@.map_values(|s: String| s@)
    }
}

impl Sent {
    /// The largest number of titles the window keeps.
    pub closed spec fn capacity(&self) -> nat {
        self.max as nat
    }

    #[verifier::type_invariant]
    spec fn bounded(&self) -> bool {
        self.list@.len() <= self.max
    }

    /// An empty window that keeps at most `max` titles.
    pub fn new(max: usize) -> (sent: Sent)
        ensures
            sent@ == Seq::<Seq<char>>::empty(),
            sent.capacity() == max,
    {
        Sent { list: VecDeque::new(), max }
    }

    /// Remembers `item` as the newest title, dropping the oldest one when the
    /// window is full. A window of capacity zero keeps nothing.
    pub fn add(&mut self, item: String)
        ensures
            final(self)@ == remembered(old(self)@, old(self).capacity(), item@),
            final(self)@.len() <= final(self).capacity(),
            final(self).capacity() == old(self).capacity(),
    {
        proof {
            use_type_invariant(&*self);
        }
        if self.max == 0 {
            return ;
        }
        // The queue is edited outside `self`, so that the bound holds of `self`
        // at every step.
        let mut list: VecDeque<String> = VecDeque::new();
        core::mem::swap(&mut self.list, &mut list);
        if list.len() == self.max {
            list.pop_back();
        }
        list.push_front(item);
        core::mem::swap(&mut self.list, &mut list);
    }

    /// Whether `item` is one of the titles held, by exact equality.
    pub fn contains(&self, item: String) -> (found: bool)
        ensures
            found == self@.contains(item@),
    {
        let mut i: usize = 0;
        while i < self.list.len()
            invariant
                i <= self.list@.len(),
                forall|j: int| 0 <= j < i ==> self@[j] != item@,
            decreases self.list@.len() - i,
        {
            if self.list[i] == item {
                assert(self@[i as int] == item@);
                return true;
            }
            i += 1;
        }
        false
    }

    /// How many titles are held.
    pub fn len(&self) -> (n: usize)
        ensures
            n == self@.len(),
            n <= self.capacity(),
    {
        proof {
            use_type_invariant(self);
        }
        self.list.len()
    }

    /// The capacity the window was made with.
    pub fn max(&self) -> (max: usize)
        ensures
            max == self.capacity(),
    {
        self.max
    }
}

} // verus!
