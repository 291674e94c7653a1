//! Sample distribution: one producer, any number of consumers, each with its
//! own cursor. History is bounded; a consumer that falls behind it is told
//! so explicitly and resumes from the oldest retained sample.

use vstd::prelude::*;

use crate::utils::{Sample, SampleView};

verus! {

/// What one poll of a consumer cursor yields.
pub enum PollOutcome {
    /// Nothing published past this cursor yet.
    Empty,
    /// The consumer fell behind the retained history and lost this many
    /// samples; its cursor now points at the oldest retained one.
    Lagged { missed: u64 },
    /// The next sample, in publish order.
    Next { sample: Sample },
}

/// A consumer's private cursor into the stream.
pub struct SampleRx {
    next: u64,
}

impl SampleRx {
    /// Absolute index of the next sample this consumer will observe.
    pub closed spec fn cursor(&self) -> u64 {
        self.next
    }
}

/// Bounded-history broadcast of [`Sample`]s. The ghost `log` records every
/// sample ever published; the window `buf` retains the most recent ones.
pub struct SampleHub {
    base: u64,
    buf: Vec<Sample>,
    cap: usize,
    consumers: usize,
    log: Ghost<Seq<SampleView>>,
}

impl SampleHub {
    /// Every sample ever published, in publish order.
    pub closed spec fn log(&self) -> Seq<SampleView> {
        self.log@
    }

    /// Absolute index of the oldest sample still retained.
    pub closed spec fn first_retained(&self) -> u64 {
        self.base
    }

    /// Bound on the retained history.
    pub closed spec fn capacity(&self) -> usize {
        self.cap
    }

    /// Number of live consumers.
    pub closed spec fn consumer_total(&self) -> usize {
        self.consumers
    }

    /// The retained window mirrors the tail of the log.
    pub closed spec fn wf(&self) -> bool {
        &&& self.cap >= 1
        &&& self.log@.len() <= u64::MAX
        &&& self.buf@.len() <= self.cap
        &&& self.base + self.buf@.len() == self.log@.len()
        &&& forall|i: int|
            0 <= i < self.buf@.len() ==> #[trigger] self.buf@[i]@ == self.log@[self.base + i]
    }

    /// An empty hub retaining at most `cap` samples.
    pub fn new(cap: usize) -> (h: SampleHub)
        requires
            cap >= 1,
        ensures
            h.wf(),
            h.log() == Seq::<SampleView>::empty(),
            h.capacity() == cap,
            h.consumer_total() == 0,
    {
        SampleHub { base: 0, buf: Vec::new(), cap, consumers: 0, log: Ghost(Seq::empty()) }
    }

    /// Live consumer count, as the encoding loop reads it each cycle.
    pub fn consumer_count(&self) -> (r: usize)
        ensures
            r == self.consumer_total(),
    {
        self.consumers
    }

    /// The retained window lies inside the log — exported so that callers
    /// holding a cursor can reason about `poll`'s outcomes, a lagging
    /// cursor included.
    pub proof fn lemma_wf_bounds(&self)
        requires
            self.wf(),
        ensures
            self.first_retained() <= self.log().len(),
            self.log().len() <= u64::MAX,
    {
    }

    /// How many samples have ever been published.
    pub fn published_count(&self) -> (r: u64)
        requires
            self.wf(),
        ensures
            r == self.log().len(),
    {
        self.base + self.buf.len() as u64
    }

    /// Registers a consumer; it will observe exactly the samples published
    /// after this point, until it lags or unsubscribes.
    pub fn subscribe(&mut self) -> (rx: SampleRx)
        requires
            old(self).wf(),
            old(self).consumer_total() < usize::MAX,
        ensures
            final(self).wf(),
            final(self).log() == old(self).log(),
            final(self).first_retained() == old(self).first_retained(),
            final(self).capacity() == old(self).capacity(),
            final(self).consumer_total() == old(self).consumer_total() + 1,
            rx.cursor() == old(self).log().len(),
    {
        self.consumers = self.consumers + 1;
        let next = self.base + self.buf.len() as u64;
        SampleRx { next }
    }

    /// Drops a consumer, decrementing the live count.
    pub fn unsubscribe(&mut self, rx: SampleRx)
        requires
            old(self).wf(),
        ensures
            final(self).wf(),
            final(self).log() == old(self).log(),
            final(self).first_retained() == old(self).first_retained(),
            final(self).capacity() == old(self).capacity(),
            final(self).consumer_total() == if old(self).consumer_total() > 0 {
                (old(self).consumer_total() - 1) as usize
            } else {
                0usize
            },
    {
        let _ = rx;
        if self.consumers > 0 {
            self.consumers = self.consumers - 1;
        }
    }

    /// Publishes one sample to every consumer, evicting the oldest retained
    /// sample once the history bound is reached.
    pub fn publish(&mut self, s: Sample)
        requires
            old(self).wf(),
            old(self).log().len() < u64::MAX,
        ensures
            final(self).wf(),
            final(self).log() == old(self).log().push(s@),
            final(self).capacity() == old(self).capacity(),
            final(self).consumer_total() == old(self).consumer_total(),
    {
        if self.buf.len() == self.cap {
            self.buf.remove(0);
            self.base = self.base + 1;
        }
        self.buf.push(s);
        proof {
            self.log@ = self.log@.push(s@);
        }
    }

    /// Advances `rx` by one observed sample, or reports why it cannot.
    pub fn poll(&self, rx: &mut SampleRx) -> (r: PollOutcome)
        requires
            self.wf(),
            old(rx).cursor() <= self.log().len(),
        ensures
            self.log().len() <= u64::MAX,
            match r {
                PollOutcome::Empty => {
                    &&& old(rx).cursor() == self.log().len()
                    &&& final(rx).cursor() == old(rx).cursor()
                },
                PollOutcome::Lagged { missed } => {
                    &&& old(rx).cursor() < self.first_retained()
                    &&& missed == self.first_retained() - old(rx).cursor()
                    &&& final(rx).cursor() == self.first_retained()
                },
                PollOutcome::Next { sample } => {
                    &&& old(rx).cursor() >= self.first_retained()
                    &&& old(rx).cursor() < self.log().len()
                    &&& sample@ == self.log()[old(rx).cursor() as int]
                    &&& final(rx).cursor() == old(rx).cursor() + 1
                },
            },
    {
        let end = self.base + self.buf.len() as u64;
        if rx.next >= end {
            PollOutcome::Empty
        } else if rx.next < self.base {
            let missed = self.base - rx.next;
            rx.next = self.base;
            PollOutcome::Lagged { missed }
        } else {
            let idx = (rx.next - self.base) as usize;
            let sample = self.buf[idx].clone();
            rx.next = rx.next + 1;
            PollOutcome::Next { sample }
        }
    }

    /// Every sample currently available past `rx`, in publish order, with
    /// no duplicate and no gap: what a non-lagging consumer observes is
    /// exactly the published subsequence.
    pub fn drain_available(&self, rx: &mut SampleRx) -> (r: Vec<Sample>)
        requires
            self.wf(),
            old(rx).cursor() >= self.first_retained(),
            old(rx).cursor() <= self.log().len(),
        ensures
            final(rx).cursor() == self.log().len(),
            r@.map_values(|s: Sample| s@) == self.log().subrange(
                old(rx).cursor() as int,
                self.log().len() as int,
            ),
    {
        let ghost start = rx.cursor();
        let mut out: Vec<Sample> = Vec::new();
        proof {
            assert(out@.map_values(|s: Sample| s@) =~= self.log().subrange(
                start as int,
                start as int,
            ));
        }
        loop
            invariant
                self.wf(),
                start <= rx.cursor() <= self.log().len(),
                rx.cursor() >= self.first_retained(),
                out@.map_values(|s: Sample| s@) == self.log().subrange(
                    start as int,
                    rx.cursor() as int,
                ),
            ensures
                rx.cursor() == self.log().len(),
                out@.map_values(|s: Sample| s@) == self.log().subrange(
                    start as int,
                    self.log().len() as int,
                ),
            decreases self.log().len() - rx.cursor(),
        {
            let ghost before = rx.cursor();
            match self.poll(rx) {
                PollOutcome::Next { sample } => {
                    let ghost sample_view = sample@;
                    let ghost prev = out@;
                    out.push(sample);
                    proof {
                        prev.lemma_push_map_commute(|s: Sample| s@, sample);
                        assert(out@.map_values(|s: Sample| s@) == prev.map_values(
                            |s: Sample| s@,
                        ).push(sample_view));
                        assert(out@.map_values(|s: Sample| s@) =~= self.log().subrange(
                            start as int,
                            rx.cursor() as int,
                        ));
                    }
                },
                PollOutcome::Empty => {
                    break;
                },
                PollOutcome::Lagged { .. } => {
                    break;
                },
            }
        }
        out
    }
}

} // verus!
