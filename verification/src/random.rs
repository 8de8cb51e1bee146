use vstd::prelude::*;

verus! {

/// A drawn value forced into `[1, max]`.
pub open spec fn clamp_draw(v: u32, max: u32) -> u32 {
    if v < 1 {
        1u32
    } else if v > max {
        max
    } else {
        v
    }
}

/// A source of integers uniform over `[1, max]`, callable arbitrarily many
/// times. How the values are produced (host random numbers, a seeded
/// generator, a fixed list for reproducible runs) is the implementor's
/// business.
pub trait RandomSource {
    /// The values the source will hand out next, where the source is
    /// deterministic. A genuinely random source leaves this empty - the
    /// default - and then nothing beyond the range bound is promised of its
    /// draws.
    open spec fn upcoming(&self) -> Seq<u32> {
        Seq::empty()
    }

    /// Draws one value in `[1, max]`. A deterministic source hands out the
    /// head of `upcoming`, forced into range, and drops it from the model.
    fn next_in_range(&mut self, max: u32) -> (r: u32)
        requires
            max >= 1,
        ensures
            1 <= r <= max,
            old(self).upcoming().len() > 0 ==> {
                &&& r == clamp_draw(old(self).upcoming()[0], max)
                &&& final(self).upcoming() == old(self).upcoming().drop_first()
            },
            old(self).upcoming().len() == 0 ==> final(self).upcoming() == old(self).upcoming(),
    ;
}

/// A deterministic source backed by a fixed list of values, consumed front to
/// back; once the list is exhausted every further draw is 1. Intended for
/// reproducible runs and tests.
pub struct FixedSource {
    pub values: Vec<u32>,
    pub next: usize,
}

impl FixedSource {
    pub fn new(values: Vec<u32>) -> (s: FixedSource)
        ensures
            s.values@ == values@,
            s.next == 0,
            s.upcoming() == values@,
    {
        let s = FixedSource { values, next: 0 };
        proof {
            assert(s.upcoming() =~= s.values@);
        }
        s
    }
}

impl RandomSource for FixedSource {
    open spec fn upcoming(&self) -> Seq<u32> {
        if self.next <= self.values@.len() {
            self.values@.skip(self.next as int)
        } else {
            Seq::empty()
        }
    }

    fn next_in_range(&mut self, max: u32) -> (r: u32) {
        if self.next < self.values.len() {
            let v = self.values[self.next];
            self.next = self.next + 1;
            proof {
                assert(self.upcoming() =~= old(self).upcoming().drop_first());
                assert(old(self).upcoming()[0] == v);
            }
            if v < 1 {
                1
            } else if v > max {
                max
            } else {
                v
            }
        } else {
            proof {
                assert(self.upcoming() =~= old(self).upcoming());
            }
            1
        }
    }
}

} // verus!
