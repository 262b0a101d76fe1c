//! Assembling a transcription from the recognizer's output: the ordered
//! text segments of one utterance are concatenated into a single
//! transcript, in order, with nothing added or dropped.

use vstd::prelude::*;
use vstd::string::StringExecFns;

verus! {

/// The concatenation of a sequence of text segments, in order.
pub open spec fn joined(segs: Seq<Seq<char>>) -> Seq<char>
    decreases segs.len(),
{
    if segs.len() == 0 {
        Seq::<char>::empty()
    } else {
        joined(segs.drop_last()) + segs.last()
    }
}

/// Concatenate the recognizer's segments into the final transcript.
pub fn concat_segments(segs: &Vec<String>) -> (out: String)
    ensures
        out@ == joined(segs@.map_values(|s: String| s@)),
{
    let mut out = String::new();
    let n = segs.len();
    for i in 0..n
        invariant
            n == segs@.len(),
            out@ == joined(segs@.take(i as int).map_values(|s: String| s@)),
    {
        out.append(segs[i].as_str());
        proof {
            let prefix = segs@.take(i as int).map_values(|s: String| s@);
            let step = segs@.take(i + 1).map_values(|s: String| s@);
            assert(step.drop_last() =~= prefix);
            assert(step.last() == segs@[i as int]@);
            assert(joined(step) == joined(prefix) + segs@[i as int]@);
        }
    }
    assert(segs@.take(n as int) == segs@);
    out
}

} // verus!
