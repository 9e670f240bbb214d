//! A bounded first-in first-out buffer of the most recent output lines of the
//! managed core.

use vstd::prelude::*;

verus! {

/// How many lines the service keeps.
pub const LOG_CAPACITY: usize = 1000;

/// The last `n` items of `s`, or all of them when there are fewer.
pub open spec fn keep_last<T>(s: Seq<T>, n: nat) -> Seq<T> {
    if s.len() > n {
        s.skip(s.len() - n)
    } else {
        s
    }
}

/// The text of each line, in order.
pub open spec fn lines_view(v: Seq<String>) -> Seq<Seq<char>> {
    v.map_values(|s: String| s@)
}

pub struct LogRing {
    lines: Vec<String>,
    capacity: usize,
}

impl View for LogRing {
    type V = Seq<Seq<char>>;

    /// The lines held, oldest first.
    closed spec fn view(&self) -> Seq<Seq<char>> {
        lines_view(self.lines@)
    }
}

impl LogRing {
    /// How many lines the ring holds at most.
    pub closed spec fn capacity(&self) -> nat {
        self.capacity as nat
    }

    pub closed spec fn wf(&self) -> bool {
        &&& self.capacity > 0
        &&& self.lines@.len() <= self.capacity
    }

    /// An empty ring that keeps at most `capacity` lines.
    pub fn new(capacity: usize) -> (r: LogRing)
        requires
            capacity > 0,
        ensures
            r.wf(),
            r@ == Seq::<Seq<char>>::empty(),
            r.capacity() == capacity,
    {
        let r = LogRing { lines: Vec::new(), capacity };
        proof {
            assert(r@ =~= Seq::<Seq<char>>::empty());
        }
        r
    }

    /// Appends a line at the tail, dropping the oldest one when the ring
    /// would hold more than its capacity.
    pub fn append(&mut self, line: String)
        requires
            old(self).wf(),
        ensures
            final(self).wf(),
            final(self).capacity() == old(self).capacity(),
            final(self)@ == keep_last(old(self)@.push(line@), old(self).capacity()),
    {
        let ghost before = self.lines@;
        self.lines.push(line);
        if self.lines.len() > self.capacity {
            self.lines.remove(0);
            proof {
                assert(lines_view(self.lines@) =~= keep_last(lines_view(before).push(line@), self.capacity as nat));
            }
        } else {
            proof {
                assert(lines_view(self.lines@) =~= lines_view(before).push(line@));
            }
        }
    }

    /// Empties the ring.
    pub fn clear(&mut self)
        requires
            old(self).wf(),
        ensures
            final(self).wf(),
            final(self).capacity() == old(self).capacity(),
            final(self)@ == Seq::<Seq<char>>::empty(),
    {
        self.lines.clear();
        proof {
            assert(lines_view(self.lines@) =~= Seq::<Seq<char>>::empty());
        }
    }

    /// A copy of the lines, oldest first.
    pub fn snapshot(&self) -> (r: Vec<String>)
        ensures
            lines_view(r@) == self@,
    {
        let mut out: Vec<String> = Vec::new();
        let mut i: usize = 0;
        while i < self.lines.len()
            invariant
                i <= self.lines@.len(),
                lines_view(out@) =~= lines_view(self.lines@.take(i as int)),
            decreases self.lines@.len() - i,
        {
            let line = self.lines[i].clone();
            proof {
                assert(self.lines@.take(i + 1) =~= self.lines@.take(i as int).push(line));
                assert(lines_view(self.lines@.take(i as int).push(line)) =~= lines_view(
                    self.lines@.take(i as int),
                ).push(line@));
                assert(lines_view(out@.push(line)) =~= lines_view(out@).push(line@));
            }
            out.push(line);
            i = i + 1;
        }
        proof {
            assert(self.lines@.take(i as int) =~= self.lines@);
        }
        out
    }
}

} // verus!
