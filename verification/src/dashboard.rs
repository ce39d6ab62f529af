//! The status screen's history of the average CPU load.
use vstd::prelude::*;

verus! {

/// How many samples the CPU load history keeps.
pub const CPU_HISTORY_LEN: usize = 10;

/// Horizontal distance between two points of the history chart.
pub const CHART_STEP: usize = 11;

/// The history `h` after one more sample `x`: once it holds
/// [`CPU_HISTORY_LEN`] samples, the oldest is dropped.
pub open spec fn with_sample<T>(h: Seq<T>, x: T) -> Seq<T> {
    if h.len() >= CPU_HISTORY_LEN {
        h.drop_first().push(x)
    } else {
        h.push(x)
    }
}

/// The history `h` after the samples `xs`, in order.
pub open spec fn with_samples<T>(h: Seq<T>, xs: Seq<T>) -> Seq<T>
    decreases xs.len(),
{
    if xs.len() == 0 {
        h
    } else {
        with_sample(with_samples(h, xs.drop_last()), xs.last())
    }
}

/// Adds the sample `x` to `history`, dropping the oldest sample first when
/// the history is full.
pub fn record_sample<T>(history: &mut Vec<T>, x: T)
    ensures
        final(history)@ == with_sample(old(history)@, x),
{
    if history.len() >= CPU_HISTORY_LEN {
        history.remove(0);
    }
    history.push(x);
}

/// The horizontal position of the `index`-th point of the history chart.
pub fn chart_x(index: usize) -> (r: usize)
    requires
        index < CPU_HISTORY_LEN,
    ensures
        r == index * CHART_STEP,
{
    index * CHART_STEP
}

/// The last [`CPU_HISTORY_LEN`] elements of `s`.
pub open spec fn latest<T>(s: Seq<T>) -> Seq<T> {
    s.subrange(s.len() - CPU_HISTORY_LEN, s.len() as int)
}

/// State of the status screen: the recent average CPU loads, oldest first.
pub struct DashboardTab<T> {
    cpu_history: Vec<T>,
    recorded: Ghost<Seq<T>>,
}

impl<T> DashboardTab<T> {
    /// The history, oldest sample first.
    pub closed spec fn history(&self) -> Seq<T> {
        self.cpu_history@
    }

    /// Every sample the history has taken in, oldest first: the initial
    /// copies, then each recorded load.
    pub closed spec fn recorded(&self) -> Seq<T> {
        self.recorded@
    }

    /// The history is always the latest [`CPU_HISTORY_LEN`] samples taken in.
    #[verifier::type_invariant]
    spec fn holds_latest(&self) -> bool {
        &&& self.recorded@.len() >= CPU_HISTORY_LEN
        &&& self.cpu_history@ == latest(self.recorded@)
    }
}

impl<T: Copy> DashboardTab<T> {
    /// A history of [`CPU_HISTORY_LEN`] copies of `initial`.
    pub fn new(initial: T) -> (r: DashboardTab<T>)
        ensures
            r.history() == Seq::new(CPU_HISTORY_LEN as nat, |i: int| initial),
            r.recorded() == Seq::new(CPU_HISTORY_LEN as nat, |i: int| initial),
            r.history().len() == CPU_HISTORY_LEN,
    {
        let mut h: Vec<T> = Vec::new();
        let mut i: usize = 0;
        while i < CPU_HISTORY_LEN
            invariant
                i <= CPU_HISTORY_LEN,
                h@ == Seq::new(i as nat, |k: int| initial),
            decreases CPU_HISTORY_LEN - i,
        {
            h.push(initial);
            i = i + 1;
            assert(h@ =~= Seq::new(i as nat, |k: int| initial));
        }
        let ghost all = h@;
        assert(latest(all) =~= all);
        DashboardTab { cpu_history: h, recorded: Ghost(all) }
    }

    /// Records the newest average load `load`; the oldest sample leaves.
    pub fn record_cpu_load(&mut self, load: T)
        ensures
            final(self).history() == with_sample(old(self).history(), load),
            final(self).history() == old(self).history().drop_first().push(load),
            final(self).recorded() == old(self).recorded().push(load),
            final(self).history() == latest(final(self).recorded()),
            final(self).history().len() == CPU_HISTORY_LEN,
    {
        proof {
            use_type_invariant(&*self);
        }
        let ghost before = self.cpu_history@;
        let mut h: Vec<T> = Vec::new();
        let mut i: usize = 0;
        while i < self.cpu_history.len()
            invariant
                self.cpu_history@ == before,
                i <= before.len(),
                h@ == before.subrange(0, i as int),
            decreases before.len() - i,
        {
            let x: T = self.cpu_history[i];
            h.push(x);
            i = i + 1;
            assert(h@ =~= before.subrange(0, i as int));
        }
        assert(h@ =~= before);
        record_sample(&mut h, load);
        let ghost all = self.recorded@.push(load);
        assert(h@ =~= latest(all));
        *self = DashboardTab { cpu_history: h, recorded: Ghost(all) };
    }

    /// The samples, oldest first.
    pub fn cpu_history(&self) -> (r: &Vec<T>)
        ensures
            r@ == self.history(),
            r@ == latest(self.recorded()),
            r@.len() == CPU_HISTORY_LEN,
    {
        proof {
            use_type_invariant(self);
        }
        &self.cpu_history
    }
}

/// A full history keeps exactly the latest [`CPU_HISTORY_LEN`] samples of
/// everything recorded, oldest first.
pub proof fn lemma_history_keeps_latest<T>(h: Seq<T>, xs: Seq<T>)
    requires
        h.len() == CPU_HISTORY_LEN,
    ensures
        with_samples(h, xs) == (h + xs).subrange(xs.len() as int, xs.len() + CPU_HISTORY_LEN),
        with_samples(h, xs).len() == CPU_HISTORY_LEN,
    decreases xs.len(),
{
    if xs.len() == 0 {
        assert((h + xs).subrange(0, CPU_HISTORY_LEN as int) =~= h);
    } else {
        let ys = xs.drop_last();
        lemma_history_keeps_latest(h, ys);
        let prev = with_samples(h, ys);
        assert(prev.drop_first().push(xs.last()) =~= (h + xs).subrange(
            xs.len() as int,
            xs.len() + CPU_HISTORY_LEN,
        )) by {
            assert forall|i: int| 0 <= i < CPU_HISTORY_LEN implies #[trigger] prev.drop_first().push(
                xs.last(),
            )[i] == (h + xs)[xs.len() + i] by {
                if i < CPU_HISTORY_LEN - 1 {
                    assert(prev[i + 1] == (h + ys)[ys.len() + i + 1]);
                    if ys.len() + i + 1 < CPU_HISTORY_LEN {
                        assert((h + ys)[ys.len() + i + 1] == h[ys.len() + i + 1]);
                    } else {
                        assert((h + ys)[ys.len() + i + 1] == ys[ys.len() + i + 1 - CPU_HISTORY_LEN]);
                    }
                }
            }
        }
    }
}

} // verus!
