use std::collections::VecDeque;
use vstd::prelude::*;

verus! {

/// Number of entries the history keeps by default.
pub const MAX_ITEMS: usize = 5;

/// The history after `s` is appended to `h` with room for `cap` entries:
/// when `h` is full its oldest entry is evicted first.
pub open spec fn bounded_push(h: Seq<String>, cap: nat, s: String) -> Seq<String> {
    if h.len() >= cap {
        h.drop_first().push(s)
    } else {
        h.push(s)
    }
}

/// The history after each value of `pushes` is appended to `h`, in order.
pub open spec fn push_all(h: Seq<String>, cap: nat, pushes: Seq<String>) -> Seq<String>
    decreases pushes.len(),
{
    if pushes.len() == 0 {
        h
    } else {
        bounded_push(push_all(h, cap, pushes.drop_last()), cap, pushes.last())
    }
}

/// The last `cap` values of `s`, or all of them when there are fewer.
pub open spec fn most_recent(s: Seq<String>, cap: nat) -> Seq<String> {
    if s.len() > cap {
        s.subrange(s.len() - cap, s.len() as int)
    } else {
        s
    }
}

/// A capacity-bounded, oldest-first record of clipboard text.
pub struct History {
    entries: VecDeque<String>,
    capacity: usize,
}

impl View for History {
    type V = Seq<String>;

    closed spec fn view(&self) -> Seq<String> {
        self.entries@
    }
}

impl History {
    /// The number of entries this history keeps.
    pub closed spec fn cap(&self) -> nat {
        self.capacity as nat
    }

    /// The capacity is positive and never exceeded.
    pub closed spec fn wf(&self) -> bool {
        &&& self.capacity > 0
        &&& self.entries@.len() <= self.capacity
    }

    /// An empty history with room for `MAX_ITEMS` entries.
    pub fn new() -> (r: History)
        ensures
            r.wf(),
            r@ == Seq::<String>::empty(),
            r.cap() == MAX_ITEMS as nat,
    {
        History::with_capacity(MAX_ITEMS)
    }

    /// An empty history with room for `capacity` entries.
    pub fn with_capacity(capacity: usize) -> (r: History)
        requires
            capacity > 0,
        ensures
            r.wf(),
            r@ == Seq::<String>::empty(),
            r.cap() == capacity as nat,
    {
        History { entries: VecDeque::new(), capacity }
    }

    /// The number of entries this history keeps.
    pub fn capacity(&self) -> (r: usize)
        ensures
            r as nat == self.cap(),
    {
        self.capacity
    }

    /// The number of entries held now.
    pub fn len(&self) -> (r: usize)
        ensures
            r == self@.len(),
    {
        self.entries.len()
    }

    /// Appends `text`, evicting the oldest entry when the history is full.
    pub fn push(&mut self, text: String)
        requires
            old(self).wf(),
        ensures
            final(self).wf(),
            final(self).cap() == old(self).cap(),
            final(self)@ == bounded_push(old(self)@, old(self).cap(), text),
    {
        if self.entries.len() >= self.capacity {
            self.entries.pop_front();
        }
        self.entries.push_back(text);
        proof {
            assert(self.entries@ =~= bounded_push(old(self)@, old(self).cap(), text));
        }
    }

    /// A copy of the entries, oldest first.
    pub fn snapshot(&self) -> (r: Vec<String>)
        ensures
            r@ == self@,
    {
        let mut out: Vec<String> = Vec::new();
        let n: usize = self.entries.len();
        let mut i: usize = 0;
        while i < n
            invariant
                n == self.entries@.len(),
                i <= n,
                out@ == self.entries@.subrange(0, i as int),
            decreases n - i,
        {
            let s: String = self.entries[i].clone();
            out.push(s);
            i = i + 1;
            proof {
                assert(out@ =~= self.entries@.subrange(0, i as int));
            }
        }
        proof {
            assert(out@ =~= self.entries@);
        }
        out
    }
}

/// Pushing any sequence of values into a well-formed history leaves exactly
/// the most recent `cap` values of the old entries followed by the pushed
/// values, in push order; in particular, from an empty history with more
/// pushes than room, the snapshot is the last `cap` pushed values.
pub proof fn lemma_push_all_keeps_most_recent(h: Seq<String>, cap: nat, pushes: Seq<String>)
    requires
        cap > 0,
        h.len() <= cap,
    ensures
        push_all(h, cap, pushes) == most_recent(h + pushes, cap),
        push_all(h, cap, pushes).len() <= cap,
    decreases pushes.len(),
{
    if pushes.len() == 0 {
        assert(h + pushes =~= h);
    } else {
        let rest = pushes.drop_last();
        let x = pushes.last();
        lemma_push_all_keeps_most_recent(h, cap, rest);
        let all = h + pushes;
        let prev_all = h + rest;
        assert(all =~= prev_all.push(x));
        let prev = most_recent(prev_all, cap);
        if prev_all.len() >= cap {
            assert(prev.len() == cap);
            assert(bounded_push(prev, cap, x) =~= all.subrange(all.len() - cap, all.len() as int));
        } else {
            assert(bounded_push(prev, cap, x) =~= all);
        }
    }
}

/// From an empty history, more pushes than room leave a snapshot of exactly
/// `cap` entries: the last `cap` pushed values, in push order.
pub proof fn lemma_overflowing_pushes(cap: nat, pushes: Seq<String>)
    requires
        cap > 0,
        pushes.len() > cap,
    ensures
        push_all(Seq::empty(), cap, pushes).len() == cap,
        push_all(Seq::empty(), cap, pushes) == pushes.subrange(pushes.len() - cap, pushes.len() as int),
{
    lemma_push_all_keeps_most_recent(Seq::empty(), cap, pushes);
    assert(Seq::<String>::empty() + pushes =~= pushes);
}

} // verus!
