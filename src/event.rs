//! The scheduler's queue of pending events, ordered by the clock cycle at
//! which each one falls due.
use vstd::prelude::*;

verus! {

/// Something that another component asks the processor to react to.
#[derive(Debug, Clone, Copy, PartialEq, Eq)]
pub enum Event {
    /// A maskable interrupt request.
    Interrupt,
    /// A timer tick.
    Timer,
}

/// Pending events with their due cycles, earliest first.
pub struct EventQueue {
    events: Vec<(Event, u64)>,
}

impl View for EventQueue {
    type V = Seq<(Event, u64)>;

    closed spec fn view(&self) -> Seq<(Event, u64)> {
        self.events@
    }
}

/// Due cycles never decrease along the queue.
pub open spec fn sorted(s: Seq<(Event, u64)>) -> bool {
    forall|i: int, j: int| 0 <= i < j < s.len() ==> s[i].1 <= s[j].1
}

/// Where an entry due at `t` goes: after every leading entry due at or
/// before `t`, so that entries with equal due cycles keep insertion order.
pub open spec fn insert_pos(s: Seq<(Event, u64)>, t: u64) -> nat
    decreases s.len(),
{
    if s.len() == 0 {
        0
    } else if s[0].1 > t {
        0
    } else {
        1 + insert_pos(s.drop_first(), t)
    }
}

proof fn lemma_insert_pos_bounds(s: Seq<(Event, u64)>, t: u64)
    ensures
        insert_pos(s, t) <= s.len(),
        forall|k: int| 0 <= k < insert_pos(s, t) ==> s[k].1 <= t,
        insert_pos(s, t) < s.len() ==> s[insert_pos(s, t) as int].1 > t,
    decreases s.len(),
{
    if s.len() > 0 && s[0].1 <= t {
        lemma_insert_pos_bounds(s.drop_first(), t);
        assert forall|k: int| 0 <= k < insert_pos(s, t) implies s[k].1 <= t by {
            if k > 0 {
                assert(s[k] == s.drop_first()[k - 1]);
            }
        }
    }
}

/// An entry placed at its `insert_pos` keeps a sorted queue sorted.
pub proof fn lemma_insert_sorted(s: Seq<(Event, u64)>, e: Event, t: u64)
    requires
        sorted(s),
    ensures
        sorted(s.insert(insert_pos(s, t) as int, (e, t))),
{
    lemma_insert_pos_bounds(s, t);
    let p = insert_pos(s, t) as int;
    let r = s.insert(p, (e, t));
    assert forall|i: int, j: int| 0 <= i < j < r.len() implies r[i].1 <= r[j].1 by {
        if j < p {
        } else if j == p {
        } else if i < p {
            assert(s[i].1 <= t);
        } else if i == p {
            assert(s[p].1 > t);
            assert(s[p].1 <= s[j - 1].1);
        } else {
        }
    }
}

impl EventQueue {
    #[verifier::type_invariant]
    spec fn ordered(&self) -> bool {
        sorted(self.events@)
    }

    /// An empty queue.
    pub fn new() -> (q: EventQueue)
        ensures
            q@ == Seq::<(Event, u64)>::empty(),
    {
        EventQueue { events: Vec::new() }
    }

    /// Schedules `event` at cycle `t_state`, after every pending entry due at
    /// or before it; the queue stays ordered by due cycle.
    pub fn push(&mut self, event: Event, t_state: u64)
        ensures
            final(self)@ == old(self)@.insert(insert_pos(old(self)@, t_state) as int, (event, t_state)),
            sorted(final(self)@),
    {
        proof {
            use_type_invariant(&*self);
            lemma_insert_pos_bounds(self@, t_state);
            lemma_insert_sorted(self@, event, t_state);
        }
        let mut events: Vec<(Event, u64)> = Vec::new();
        core::mem::swap(&mut events, &mut self.events);
        let ghost s = events@;
        proof {
            assert(s.skip(0) =~= s);
        }
        let mut i: usize = 0;
        while i < events.len() && events[i].1 <= t_state
            invariant
                events@ == s,
                i <= s.len(),
                insert_pos(s, t_state) == i + insert_pos(s.skip(i as int), t_state),
            decreases s.len() - i,
        {
            proof {
                assert(s.skip(i as int).drop_first() =~= s.skip(i + 1));
            }
            i = i + 1;
        }
        proof {
            if i < s.len() {
                assert(s.skip(i as int)[0] == s[i as int]);
            }
        }
        events.insert(i, (event, t_state));
        core::mem::swap(&mut events, &mut self.events);
    }

    /// The entry at the front of the queue, if any.
    pub fn peek(&self) -> (r: Option<&(Event, u64)>)
        ensures
            self@.len() == 0 ==> r is None,
            self@.len() > 0 ==> r == Some(&self@[0]),
            sorted(self@),
    {
        proof {
            use_type_invariant(self);
        }
        if self.events.len() == 0 {
            None
        } else {
            Some(&self.events[0])
        }
    }

    /// Removes and returns the entry at the front of the queue, which is
    /// the earliest due, if any.
    pub fn pop(&mut self) -> (r: Option<(Event, u64)>)
        ensures
            old(self)@.len() == 0 ==> r is None && final(self)@ == old(self)@,
            old(self)@.len() > 0 ==> r == Some(old(self)@[0]) && final(self)@ == old(self)@.drop_first(),
            sorted(old(self)@),
            sorted(final(self)@),
    {
        proof {
            use_type_invariant(&*self);
        }
        if self.events.len() == 0 {
            None
        } else {
            let mut events: Vec<(Event, u64)> = Vec::new();
            core::mem::swap(&mut events, &mut self.events);
            let first = events.remove(0);
            proof {
                assert(events@ =~= old(self)@.drop_first());
            }
            core::mem::swap(&mut events, &mut self.events);
            Some(first)
        }
    }

    /// Whether no event is pending.
    pub fn is_empty(&self) -> (r: bool)
        ensures
            r == (self@.len() == 0),
            sorted(self@),
    {
        proof {
            use_type_invariant(self);
        }
        self.events.len() == 0
    }

    /// Number of pending events.
    pub fn len(&self) -> (n: usize)
        ensures
            n == self@.len(),
    {
        self.events.len()
    }
}

impl Default for EventQueue {
    fn default() -> (q: EventQueue)
        ensures
            q@ == Seq::<(Event, u64)>::empty(),
    {
        EventQueue::new()
    }
}

} // verus!
