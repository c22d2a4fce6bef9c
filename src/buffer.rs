use vstd::prelude::*;

verus! {

/// Number of recent samples the history keeps.
pub const HISTORY_LEN: usize = 8;

/// Ring of the most recent temperature samples, oldest first.
#[derive(Debug, Clone)]
pub struct TemperatureBuffer {
    temp_history: Vec<u8>,
}

/// The smallest sample of a non-empty sequence.
pub open spec fn seq_min(s: Seq<u8>) -> u8
    recommends
        s.len() > 0,
    decreases s.len(),
{
    if s.len() <= 1 {
        s[0]
    } else {
        let m = seq_min(s.drop_last());
        if s.last() < m {
            s.last()
        } else {
            m
        }
    }
}

/// The history after a new reading: the oldest sample leaves once the history is full.
pub open spec fn pushed(s: Seq<u8>, temp: u8) -> Seq<u8> {
    if s.len() >= HISTORY_LEN {
        s.drop_first().push(temp)
    } else {
        s.push(temp)
    }
}

/// Ceiling of the volatility signal.
pub const VOLATILITY_CAP: u8 = 15;

/// Latest sample minus the smallest one, capped at `VOLATILITY_CAP`.
pub open spec fn volatility(s: Seq<u8>) -> u8
    recommends
        s.len() > 0,
{
    let d = s.last() - seq_min(s);
    if d > VOLATILITY_CAP {
        VOLATILITY_CAP
    } else {
        d as u8
    }
}

/// The minimum never exceeds the latest sample.
pub proof fn lemma_seq_min_le_last(s: Seq<u8>)
    requires
        s.len() > 0,
    ensures
        seq_min(s) <= s.last(),
{
}

/// The minimum is one of the samples and no sample lies below it.
pub proof fn lemma_seq_min_is_min(s: Seq<u8>)
    requires
        s.len() > 0,
    ensures
        s.contains(seq_min(s)),
        forall|j: int| 0 <= j < s.len() ==> seq_min(s) <= #[trigger] s[j],
    decreases s.len(),
{
    if s.len() > 1 {
        lemma_seq_min_is_min(s.drop_last());
        let m = seq_min(s.drop_last());
        let k = choose|k: int| 0 <= k < s.drop_last().len() && s.drop_last()[k] == m;
        if s.last() < m {
            assert(s[s.len() - 1] == seq_min(s));
        } else {
            assert(s[k] == seq_min(s));
        }
        assert forall|j: int| 0 <= j < s.len() implies seq_min(s) <= #[trigger] s[j] by {
            if j < s.len() - 1 {
                assert(s.drop_last()[j] == s[j]);
            }
        }
    } else {
        assert(s[0] == seq_min(s));
    }
}

impl View for TemperatureBuffer {
    type V = Seq<u8>;

    closed spec fn view(&self) -> Seq<u8> {
        self.temp_history@
    }
}

impl TemperatureBuffer {
    pub open spec fn wf(&self) -> bool {
        0 < self@.len() <= HISTORY_LEN
    }

    /// A history holding only the first reading.
    pub fn new(temp: u8) -> (r: TemperatureBuffer)
        ensures
            r.wf(),
            r@ == seq![temp],
    {
        let mut temp_history: Vec<u8> = Vec::new();
        temp_history.push(temp);
        TemperatureBuffer { temp_history }
    }

    /// Pushes a new reading, evicting the oldest one when the history is full.
    pub fn update(&mut self, temp: u8)
        requires
            old(self).wf(),
        ensures
            final(self).wf(),
            final(self)@ == pushed(old(self)@, temp),
    {
        if self.temp_history.len() >= HISTORY_LEN {
            self.temp_history.remove(0);
        }
        self.temp_history.push(temp);
    }

    /// The readings held, oldest first.
    pub fn samples(&self) -> (r: &Vec<u8>)
        ensures
            r@ == self@,
    {
        &self.temp_history
    }

    /// The most recent reading.
    pub fn get_latest(&self) -> (r: u8)
        requires
            self.wf(),
        ensures
            r == self@.last(),
    {
        self.temp_history[self.temp_history.len() - 1]
    }

    /// The smallest reading in the history: the apparent temperature.
    pub fn min(&self) -> (r: u8)
        requires
            self.wf(),
        ensures
            r == seq_min(self@),
            self@.contains(r),
            forall|j: int| 0 <= j < self@.len() ==> r <= #[trigger] self@[j],
    {
        proof {
            lemma_seq_min_is_min(self@);
        }
        let mut m: u8 = self.temp_history[0];
        let mut i: usize = 1;
        while i < self.temp_history.len()
            invariant
                self.wf(),
                1 <= i <= self@.len(),
                m == seq_min(self@.take(i as int)),
            decreases self@.len() - i,
        {
            assert(self@.take(i as int + 1).drop_last() =~= self@.take(i as int));
            if self.temp_history[i] < m {
                m = self.temp_history[i];
            }
            i = i + 1;
        }
        assert(self@.take(i as int) =~= self@);
        m
    }

    /// How far the latest reading lies above the apparent temperature, capped
    /// at `VOLATILITY_CAP`.
    pub fn diff_to_min_in_history(&self) -> (r: u8)
        requires
            self.wf(),
        ensures
            r == volatility(self@),
    {
        let latest = self.get_latest();
        let min = self.min();
        proof {
            lemma_seq_min_le_last(self@);
        }
        let d = latest - min;
        if d > VOLATILITY_CAP {
            VOLATILITY_CAP
        } else {
            d
        }
    }
}

} // verus!
