//! The sample buffer: an ordered, growable sequence of fixed-point mono
//! samples. The producer appends at the tail; the detector reads a bounded
//! tail window and may trim a stale prefix while no speech has been
//! confirmed; the orchestrator drains the whole buffer at the end of an
//! utterance. Every shrink removes a contiguous prefix and nothing else.

use vstd::prelude::*;

verus! {

/// What `tail_window` returns: the last `n` samples, or the whole
/// sequence when it is shorter than `n`.
pub open spec fn tail_window_spec(s: Seq<i32>, n: int) -> Seq<i32> {
    if n >= s.len() {
        s
    } else {
        s.subrange(s.len() - n, s.len() as int)
    }
}

/// What trimming to a cap leaves behind: the last `cap` samples when the
/// sequence is longer than `cap`, otherwise the sequence unchanged.
pub open spec fn trim_spec(s: Seq<i32>, cap: int) -> Seq<i32> {
    if s.len() > cap {
        s.subrange(s.len() - cap, s.len() as int)
    } else {
        s
    }
}

/// How many samples trimming to a cap removes from the front.
pub open spec fn trim_dropped(s: Seq<i32>, cap: int) -> int {
    if s.len() > cap {
        s.len() - cap
    } else {
        0
    }
}

pub struct SampleBuffer {
    data: Vec<i32>,
}

impl View for SampleBuffer {
    type V = Seq<i32>;

    closed spec fn view(&self) -> Seq<i32> {
        self.data@
    }
}

impl SampleBuffer {
    /// A fresh, empty buffer.
    pub fn new() -> (b: SampleBuffer)
        ensures
            b@ == Seq::<i32>::empty(),
    {
        SampleBuffer { data: Vec::new() }
    }

    pub fn len(&self) -> (n: usize)
        ensures
            n == self@.len(),
    {
        self.data.len()
    }

    /// Append a frame of samples at the tail. Growth only: nothing already
    /// buffered moves or disappears.
    pub fn append(&mut self, frames: &Vec<i32>)
        ensures
            final(self)@ == old(self)@ + frames@,
    {
        let ghost orig: Seq<i32> = self@;
        let n = frames.len();
        for i in 0..n
            invariant
                n == frames@.len(),
                self@ == orig + frames@.take(i as int),
        {
            self.data.push(frames[i]);
            assert(frames@.take(i + 1) == frames@.take(i as int).push(frames@[i as int]));
        }
        assert(frames@.take(n as int) == frames@);
    }

    /// Copy out up to `n` trailing samples. The copy lets the caller release
    /// the buffer before doing further work with the window.
    pub fn tail_window(&self, n: usize) -> (w: Vec<i32>)
        ensures
            w@ == tail_window_spec(self@, n as int),
    {
        let len = self.data.len();
        let start = if n >= len {
            0
        } else {
            len - n
        };
        let mut w: Vec<i32> = Vec::new();
        for i in start..len
            invariant
                start <= i <= len,
                len == self@.len(),
                w@ == self@.subrange(start as int, i as int),
        {
            w.push(self.data[i]);
            assert(self@.subrange(start as int, i + 1) == self@.subrange(start as int, i as int).push(
                self@[i as int]));
        }
        assert(w@ == self@.subrange(start as int, len as int));
        assert(tail_window_spec(self@, n as int) == self@.subrange(start as int, len as int));
        w
    }

    /// Keep at most the last `seconds * sample_rate` samples, removing the
    /// excess from the front; a no-op when the buffer is already within the
    /// cap. This is the idle-time lookback trim that bounds memory during
    /// long silence.
    pub fn trim_prefix_to_last(&mut self, seconds: u32, sample_rate: u32)
        ensures
            final(self)@ == trim_spec(old(self)@, seconds as int * sample_rate as int),
            final(self)@.len() <= seconds as int * sample_rate as int,
    {
        proof {
            assert(seconds as int * sample_rate as int <= 0xFFFF_FFFF * 0xFFFF_FFFF)
                by (nonlinear_arith)
                requires
                    seconds as int <= 0xFFFF_FFFF,
                    sample_rate as int <= 0xFFFF_FFFF,
            ;
        }
        let cap: u64 = seconds as u64 * sample_rate as u64;
        let len = self.data.len();
        if (len as u64) > cap {
            let cap_usize: usize = cap as usize;
            let kept = self.tail_window(cap_usize);
            self.data = kept;
        }
    }

    /// Hand the whole contents over and leave the buffer observably empty.
    pub fn drain(&mut self) -> (out: Vec<i32>)
        ensures
            out@ == old(self)@,
            final(self)@ == Seq::<i32>::empty(),
    {
        let len = self.data.len();
        let out = self.tail_window(len);
        self.data.clear();
        assert(tail_window_spec(old(self)@, len as int) == old(self)@);
        out
    }
}

/// A drained buffer answers every subsequent window request with the empty
/// sequence, whatever window size is asked for.
pub proof fn lemma_tail_window_of_empty(n: int)
    requires
        n >= 0,
    ensures
        tail_window_spec(Seq::<i32>::empty(), n) == Seq::<i32>::empty(),
{
}

/// Trimming removes only a contiguous prefix: every sample it keeps stands
/// unchanged, at its old position shifted down by the dropped count.
pub proof fn lemma_trim_removes_only_a_prefix(s: Seq<i32>, cap: int)
    requires
        cap >= 0,
    ensures
        trim_spec(s, cap) == s.subrange(trim_dropped(s, cap), s.len() as int),
        forall|i: int|
            0 <= i < trim_spec(s, cap).len() ==> trim_spec(s, cap)[i] == s[i + trim_dropped(
                s,
                cap,
            )],
{
    assert(trim_spec(s, cap) =~= s.subrange(trim_dropped(s, cap), s.len() as int));
}

/// Samples appended after a trim decision are never lost: the buffer after
/// the trim and then the append carries the appended frame unchanged as its
/// suffix, after exactly the trimmed contents.
pub proof fn lemma_append_after_trim_preserved(s: Seq<i32>, f: Seq<i32>, cap: int)
    requires
        cap >= 0,
    ensures
        (trim_spec(s, cap) + f).subrange(
            trim_spec(s, cap).len() as int,
            (trim_spec(s, cap) + f).len() as int,
        ) == f,
        (trim_spec(s, cap) + f).subrange(0, trim_spec(s, cap).len() as int) == trim_spec(s, cap),
{
    let t = trim_spec(s, cap);
    assert((t + f).subrange(t.len() as int, (t + f).len() as int) =~= f);
    assert((t + f).subrange(0, t.len() as int) =~= t);
}

} // verus!
