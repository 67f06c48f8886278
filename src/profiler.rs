//! Timing samples of a run: how long each frame took to draw, to tick, and
//! overall, in milliseconds.

use vstd::prelude::*;

verus! {

/// The durations of one frame, in milliseconds.
#[derive(Clone, Copy, Debug, PartialEq, Eq, Structural)]
pub struct ProfilerData {
    pub draw: u128,
    pub tick: u128,
    pub overall: u128,
}

/// The samples recorded so far, in the order they were added.
pub struct Profiler {
    data: Vec<ProfilerData>,
}

impl View for Profiler {
    type V = Seq<ProfilerData>;

    closed spec fn view(&self) -> Seq<ProfilerData> {
        self.data@
    }
}

proof fn lemma_swap_keeps_multiset(s: Seq<ProfilerData>, i: int, j: int)
    requires
        0 <= i < s.len(),
        0 <= j < s.len(),
    ensures
        s.update(i, s[j]).update(j, s[i]).to_multiset() == s.to_multiset(),
{
    broadcast use vstd::seq_lib::to_multiset_update, vstd::multiset::group_multiset_axioms;

    if i == j {
        assert(s.update(i, s[j]).update(j, s[i]) =~= s);
    } else {
        let m = s.to_multiset();
        let t = s.update(i, s[j]);
        assert(t[j] == s[j]);
        assert(t.to_multiset() == m.insert(s[j]).remove(s[i]));
        assert(t.update(j, s[i]).to_multiset() == t.to_multiset().insert(s[i]).remove(s[j]));
        vstd::seq_lib::to_multiset_contains(s, s[i]);
        assert(m.count(s[i]) > 0);
        assert(m.insert(s[j]).remove(s[i]).insert(s[i]).remove(s[j]) =~= m);
    }
}

impl Profiler {
    /// A profiler with no samples.
    pub fn new() -> (r: Self)
        ensures
            r@ == Seq::<ProfilerData>::empty(),
    {
        Profiler { data: Vec::new() }
    }

    /// Records the durations of one frame.
    pub fn add(&mut self, draw: u128, tick: u128, overall: u128)
        ensures
            final(self)@ == old(self)@.push(ProfilerData { draw, tick, overall }),
    {
        self.data.push(ProfilerData { draw, tick, overall });
    }

    /// Reorders the samples from the slowest overall to the fastest, keeping
    /// every sample.
    pub fn sort_by_overall_desc(&mut self)
        ensures
            final(self)@.to_multiset() == old(self)@.to_multiset(),
            forall|i: int, j: int|
                0 <= i < j < final(self)@.len() ==> final(self)@[i].overall >= final(self)@[j].overall,
    {
        let n = self.data.len();
        let mut k: usize = 1;
        while k < n
            invariant
                n == self.data@.len(),
                1 <= k || n == 0,
                self.data@.to_multiset() == old(self)@.to_multiset(),
                forall|i: int, j: int|
                    0 <= i < j < k && j < n ==> self.data@[i].overall >= self.data@[j].overall,
            decreases n - k,
        {
            let mut m: usize = k;
            while m > 0 && self.data[m - 1].overall < self.data[m].overall
                invariant
                    n == self.data@.len(),
                    m <= k < n,
                    self.data@.to_multiset() == old(self)@.to_multiset(),
                    forall|i: int, j: int|
                        0 <= i < j <= k && j != m ==> self.data@[i].overall >= self.data@[j].overall,
                decreases m,
            {
                let a = self.data[m - 1];
                let b = self.data[m];
                let ghost before = self.data@;
                self.data[m - 1] = b;
                self.data[m] = a;
                proof {
                    lemma_swap_keeps_multiset(before, m - 1, m as int);
                }
                m -= 1;
            }
            k += 1;
        }
    }

    /// The samples, in their current order.
    pub fn samples(&self) -> (r: &Vec<ProfilerData>)
        ensures
            r@ == self@,
    {
        &self.data
    }
}

} // verus!
