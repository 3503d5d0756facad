use vstd::prelude::*;

verus! {

use vstd::arithmetic::div_mod::{lemma_mod_multiples_vanish, lemma_small_mod};

/// Number of samples in `time` milliseconds at `sample_rate` samples per
/// second. Only whole seconds of `time` count: the milliseconds are divided
/// down before the rate is applied.
pub fn msec_to_n_samples(time: u32, sample_rate: u32) -> (r: usize)
    requires
        (time / 1000) * sample_rate <= u32::MAX,
    ensures
        r == (time / 1000) * sample_rate,
{
    let s: u32 = time / 1000 * sample_rate;
    s as usize
}

/// What a delay line holds: its slots, the slot the next exchange reads and
/// writes, and the active length that the position wraps at.
pub struct DelayView<T> {
    pub slots: Seq<T>,
    pub index: nat,
    pub length: nat,
}

impl<T> DelayView<T> {
    /// At least one slot, an active length within the slots, and a position
    /// inside the slots.
    pub open spec fn wf(self) -> bool {
        &&& self.slots.len() > 0
        &&& self.length <= self.slots.len()
        &&& self.index < self.slots.len()
    }

    /// The number of exchanges after which a written sample comes back out:
    /// the active length, where an active length of 0 behaves as 1.
    pub open spec fn period(self) -> nat {
        if self.length == 0 {
            1
        } else {
            self.length
        }
    }

    /// The position lies inside the active length. A line falls out of this
    /// only when its length shrinks below the position, and comes back after
    /// one exchange.
    pub open spec fn settled(self) -> bool {
        self.index < self.period()
    }

    /// The position after an exchange: one further on, back to 0 where that
    /// reaches the end of the slots or the active length.
    pub open spec fn next_index(self) -> nat {
        if self.index + 1 >= self.slots.len() || self.index + 1 >= self.length {
            0
        } else {
            (self.index + 1) as nat
        }
    }

    /// The sample that the next exchange hands out.
    pub open spec fn output(self) -> T {
        self.slots[self.index as int]
    }

    /// The line after `x` is exchanged for the sample at the position.
    pub open spec fn step(self, x: T) -> DelayView<T> {
        DelayView {
            slots: self.slots.update(self.index as int, x),
            index: self.next_index(),
            length: self.length,
        }
    }

    /// The samples that the next `period` exchanges hand out, oldest first.
    pub open spec fn window(self) -> Seq<T> {
        Seq::new(self.period(), |j: int| self.slots[(self.index + j) % (self.period() as int)])
    }

    /// The samples handed out when `xs` is exchanged in, one after another.
    pub open spec fn feed(self, xs: Seq<T>) -> Seq<T>
        decreases xs.len(),
    {
        if xs.len() == 0 {
            Seq::empty()
        } else {
            seq![self.output()] + self.step(xs[0]).feed(xs.drop_first())
        }
    }
}

/// A circular buffer of samples that hands back each written sample after a
/// fixed number of exchanges.
#[derive(Debug)]
pub struct Delay<T> {
    buffer: Vec<T>,
    index: usize,
    length: usize,
}

impl<T> View for Delay<T> {
    type V = DelayView<T>;

    closed spec fn view(&self) -> DelayView<T> {
        DelayView { slots: self.buffer@, index: self.index as nat, length: self.length as nat }
    }
}

impl<T: Copy> Delay<T> {
    pub open spec fn wf(&self) -> bool {
        self@.wf()
    }

    /// A line of `size` slots filled with `silence`, at position 0 and with an
    /// active length of 0.
    pub fn new(size: usize, silence: T) -> (r: Self)
        requires
            size > 0,
        ensures
            r.wf(),
            r@.slots == Seq::new(size as nat, |_i: int| silence),
            r@.index == 0,
            r@.length == 0,
    {
        let mut buffer: Vec<T> = Vec::new();
        let mut i: usize = 0;
        while i < size
            invariant
                i <= size,
                buffer@ == Seq::new(i as nat, |_i: int| silence),
            decreases size - i,
        {
            buffer.push(silence);
            i = i + 1;
            assert(buffer@ =~= Seq::new(i as nat, |_i: int| silence));
        }
        Delay { buffer, index: 0, length: 0 }
    }

    /// Sets the active length, clamped to the number of slots. The position
    /// is left where it is.
    pub fn set_length(&mut self, new_length: usize)
        requires
            old(self).wf(),
        ensures
            final(self).wf(),
            final(self)@.slots == old(self)@.slots,
            final(self)@.index == old(self)@.index,
            final(self)@.length == if new_length > old(self)@.slots.len() {
                old(self)@.slots.len()
            } else {
                new_length as nat
            },
    {
        if new_length != self.length {
            let len = if new_length > self.buffer.len() {
                self.buffer.len()
            } else {
                new_length
            };
            self.length = len;
        }
    }

    /// Number of slots.
    pub fn capacity(&self) -> (r: usize)
        ensures
            r == self@.slots.len(),
    {
        self.buffer.len()
    }

    /// Active length.
    pub fn length(&self) -> (r: usize)
        ensures
            r == self@.length,
    {
        self.length
    }

    /// Position of the next exchange.
    pub fn index(&self) -> (r: usize)
        ensures
            r == self@.index,
    {
        self.index
    }

    /// The sample that the next exchange hands out.
    pub fn current(&self) -> (r: T)
        requires
            self.wf(),
        ensures
            r == self@.output(),
    {
        self.buffer[self.index]
    }

    fn advance(&mut self)
        requires
            old(self).wf(),
        ensures
            final(self).wf(),
            final(self)@.slots == old(self)@.slots,
            final(self)@.length == old(self)@.length,
            final(self)@.index == old(self)@.next_index(),
    {
        let n = self.buffer.len();
        self.index = self.index + 1;
        if self.index >= n || self.index >= self.length {
            self.index = 0;
        }
    }

    /// Hands out the sample at the position, stores `x` in its place and
    /// moves the position on.
    pub fn exchange(&mut self, x: T) -> (r: T)
        requires
            old(self).wf(),
        ensures
            final(self).wf(),
            r == old(self)@.output(),
            final(self)@ == old(self)@.step(x),
    {
        let y = self.buffer[self.index];
        self.buffer.set(self.index, x);
        self.advance();
        y
    }
}

proof fn lemma_wrap_once(m: int, p: int)
    requires
        0 < p,
        0 <= m < 2 * p,
    ensures
        m % p == if m < p {
            m
        } else {
            m - p
        },
{
    if m < p {
        lemma_small_mod(m as nat, p as nat);
    } else {
        lemma_mod_multiples_vanish(1, m - p, p);
        lemma_small_mod((m - p) as nat, p as nat);
    }
}

/// One exchange on a settled line hands out the oldest sample of the window
/// and appends the new one to it; the line stays settled.
pub proof fn lemma_exchange_shifts_window<T>(s: DelayView<T>, x: T)
    requires
        s.wf(),
        s.settled(),
    ensures
        s.output() == s.window()[0],
        s.step(x).wf(),
        s.step(x).settled(),
        s.step(x).period() == s.period(),
        s.step(x).window() == s.window().drop_first().push(x),
{
    let p = s.period() as int;
    let t = s.step(x);
    lemma_wrap_once(s.index as int, p);
    lemma_wrap_once(s.index + 1int, p);
    assert(t.index == (s.index + 1int) % p);
    assert forall|j: int| 0 <= j < p implies #[trigger] t.window()[j] == s.window().drop_first().push(
        x,
    )[j] by {
        lemma_wrap_once(t.index as int + j, p);
        lemma_wrap_once(s.index as int + 1 + j, p);
        lemma_wrap_once(s.index as int + (j + 1), p);
    }
    assert(t.window() =~= s.window().drop_first().push(x));
}

/// Every exchange, settled or not, leaves the line settled.
pub proof fn lemma_exchange_settles<T>(s: DelayView<T>, x: T)
    requires
        s.wf(),
    ensures
        s.step(x).wf(),
        s.step(x).settled(),
{
}

/// A settled delay line is a queue of `period` samples: exchanging `xs` in
/// hands out the current window followed by `xs` itself, so each input comes
/// back unchanged exactly `period` exchanges after it went in.
pub proof fn lemma_delay_round_trip<T>(s: DelayView<T>, xs: Seq<T>)
    requires
        s.wf(),
        s.settled(),
    ensures
        s.feed(xs) == (s.window() + xs).take(xs.len() as int),
        forall|k: int|
            s.period() <= k < xs.len() ==> #[trigger] s.feed(xs)[k] == xs[k - s.period()],
    decreases xs.len(),
{
    let w = s.window();
    if xs.len() == 0 {
        assert(s.feed(xs) =~= (w + xs).take(0));
    } else {
        let t = s.step(xs[0]);
        lemma_exchange_shifts_window(s, xs[0]);
        lemma_delay_round_trip(t, xs.drop_first());
        assert(t.window() + xs.drop_first() =~= w.drop_first() + xs);
        assert(s.feed(xs) =~= (w + xs).take(xs.len() as int));
    }
    assert forall|k: int| s.period() <= k < xs.len() implies #[trigger] s.feed(xs)[k] == xs[k
        - s.period()] by {
        assert(w.len() == s.period());
    }
}

} // verus!
