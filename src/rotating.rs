use vstd::prelude::*;

verus! {

/// Reports how many samples a statistics buffer holds.
pub trait Size {
    /// The number of samples held.  An implementation checked by Verus gives
    /// its own definition; the default body lets a buffer written in plain
    /// Rust implement the trait, and proofs over a generic buffer never use it.
    open spec fn spec_size(&self) -> nat {
        0
    }

    fn size(&self) -> (r: u64)
        ensures
            r == self.spec_size(),
    ;
}

/// Resets a statistics buffer so that it holds no samples.
pub trait Clear: Size {
    fn clear(&mut self)
        ensures
            final(self).spec_size() == 0,
    ;
}

/// One of the two buffer slots of a [`Rotating`] pair.
#[derive(Clone, Copy, Debug, PartialEq, Eq, Structural)]
pub enum Slot {
    First,
    Second,
}

impl Slot {
    pub open spec fn other(self) -> Slot {
        match self {
            Slot::First => Slot::Second,
            Slot::Second => Slot::First,
        }
    }
}

/// A pair of statistics buffers in complementary roles: samples go into the
/// write buffer while queries are answered from the read buffer, which holds
/// the last completed window.  Once a full period has passed, the next access
/// swaps the roles and clears the buffer that takes over writing.
pub struct Rotating<T> {
    first: T,
    second: T,
    write_slot: Slot,
    period_ms: u64,
    last_rotation_ms: u64,
}

impl<T> Rotating<T> {
    pub closed spec fn buf(self, slot: Slot) -> T {
        match slot {
            Slot::First => self.first,
            Slot::Second => self.second,
        }
    }

    pub closed spec fn write_slot(self) -> Slot {
        self.write_slot
    }

    pub closed spec fn period(self) -> u64 {
        self.period_ms
    }

    pub closed spec fn last_rotation(self) -> u64 {
        self.last_rotation_ms
    }

    pub open spec fn write_buf(self) -> T {
        self.buf(self.write_slot())
    }

    pub open spec fn read_buf(self) -> T {
        self.buf(self.write_slot().other())
    }

    /// An access at `now` rotates: a whole period has passed since the last
    /// rotation.
    pub open spec fn due(self, now: u64) -> bool {
        now >= self.last_rotation() && now - self.last_rotation() >= self.period()
    }

    pub open spec fn wf(self) -> bool {
        self.period() > 0
    }

    /// `next` differs from `self` at most in the contents of the write
    /// buffer: what recording samples does between rotations.
    pub open spec fn written(self, next: Self) -> bool {
        &&& next.period() == self.period()
        &&& next.write_slot() == self.write_slot()
        &&& next.last_rotation() == self.last_rotation()
        &&& next.read_buf() == self.read_buf()
    }
}

impl<T: Size> Rotating<T> {
    /// `next` is what an access at `now` leaves of `self`: when a period has
    /// passed, the roles swap, the former write buffer becomes the read
    /// buffer, and the buffer now taking writes is empty.
    pub open spec fn rotated(self, next: Self, now: u64) -> bool {
        &&& next.period() == self.period()
        &&& if self.due(now) {
            &&& next.write_slot() == self.write_slot().other()
            &&& next.last_rotation() == now
            &&& next.read_buf() == self.write_buf()
            &&& next.write_buf().spec_size() == 0
        } else {
            next == self
        }
    }

    /// Samples recorded before a rotation stop counting once a second
    /// rotation follows: after rotations at `t1` and `t2`, with only recording
    /// in between, queries read exactly the buffer that was emptied at `t1`
    /// and then written during `[t1, t2)`.  Nothing of `s0`, the state before
    /// the first rotation, is left in it.
    pub proof fn lemma_rotation_retires_old_samples(
        s0: Self,
        s1: Self,
        w1: Self,
        s2: Self,
        t1: u64,
        t2: u64,
    )
        requires
            s0.wf(),
            s0.due(t1),
            s0.rotated(s1, t1),
            s1.written(w1),
            w1.due(t2),
            w1.rotated(s2, t2),
        ensures
            s1.write_buf().spec_size() == 0,
            s1.read_buf() == s0.write_buf(),
            s2.read_buf() == w1.write_buf(),
            s2.write_slot() == s0.write_slot(),
            s2.write_buf().spec_size() == 0,
            t2 >= t1 + s0.period(),
    {
    }
}

impl<T: Clear + Size> Rotating<T> {
    /// Builds the pair from two fresh, empty buffers made by `new_buf`; the
    /// first window starts at `now_ms`.
    pub fn new<F: Fn() -> T>(period_ms: u64, now_ms: u64, new_buf: F) -> (r: Self)
        requires
            period_ms > 0,
            new_buf.requires(()),
            forall|b: T| new_buf.ensures((), b) ==> b.spec_size() == 0,
        ensures
            r.read_buf().spec_size() == 0,
            r.write_buf().spec_size() == 0,
            r.wf(),
            r.period() == period_ms,
            r.last_rotation() == now_ms,
            r.write_slot() == Slot::First,
            new_buf.ensures((), r.write_buf()),
            new_buf.ensures((), r.read_buf()),
    {
        let first = new_buf();
        let second = new_buf();
        Rotating { first, second, write_slot: Slot::First, period_ms, last_rotation_ms: now_ms }
    }

    /// Swaps the roles and clears the new write buffer when a period has
    /// passed since the last rotation.
    fn rotate_if_due(&mut self, now_ms: u64)
        ensures
            old(self).rotated(*final(self), now_ms),
    {
        if now_ms >= self.last_rotation_ms && now_ms - self.last_rotation_ms >= self.period_ms {
            match self.write_slot {
                Slot::First => {
                    self.second.clear();
                    self.write_slot = Slot::Second;
                },
                Slot::Second => {
                    self.first.clear();
                    self.write_slot = Slot::First;
                },
            }
            self.last_rotation_ms = now_ms;
        }
    }

    /// The buffer of the last completed window, after the rotation that an
    /// access at `now_ms` calls for.
    pub fn read(&mut self, now_ms: u64) -> (r: &T)
        ensures
            old(self).rotated(*final(self), now_ms),
            *r == final(self).read_buf(),
    {
        self.rotate_if_due(now_ms);
        match self.write_slot {
            Slot::First => &self.second,
            Slot::Second => &self.first,
        }
    }

    /// The buffer that takes new samples, after the rotation that an access at
    /// `now_ms` calls for.
    pub fn write(&mut self, now_ms: u64) -> (r: &mut T)
        ensures
            final(self).period() == old(self).period(),
            final(self).write_slot() == (if old(self).due(now_ms) {
                old(self).write_slot().other()
            } else {
                old(self).write_slot()
            }),
            final(self).last_rotation() == (if old(self).due(now_ms) {
                now_ms
            } else {
                old(self).last_rotation()
            }),
            final(self).read_buf() == (if old(self).due(now_ms) {
                old(self).write_buf()
            } else {
                old(self).read_buf()
            }),
            !old(self).due(now_ms) ==> *r == old(self).write_buf(),
            old(self).due(now_ms) ==> (*r).spec_size() == 0,
            final(self).write_buf() == *final(r),
    {
        self.rotate_if_due(now_ms);
        match self.write_slot {
            Slot::First => &mut self.first,
            Slot::Second => &mut self.second,
        }
    }

    /// The read buffer's sample count, paired with the read buffer itself when
    /// that count reaches `min_samples`; with fewer samples there is no
    /// threshold to take from it.
    pub fn threshold(&mut self, now_ms: u64, min_samples: u64) -> (r: (u64, Option<&T>))
        ensures
            old(self).rotated(*final(self), now_ms),
            r.0 == final(self).read_buf().spec_size(),
            r.0 >= min_samples ==> r.1 == Some(&final(self).read_buf()),
            r.0 < min_samples ==> r.1.is_none(),
    {
        let buf = self.read(now_ms);
        let n = buf.size();
        if n >= min_samples {
            (n, Some(buf))
        } else {
            (n, None)
        }
    }
}

} // verus!
