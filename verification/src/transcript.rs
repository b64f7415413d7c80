//! What the local whisper engine's output becomes: its readable segments joined and trimmed.
use vstd::prelude::*;

use crate::text::{trim, trim_str};

verus! {

/// Sample rate that whisper expects.
pub const WHISPER_SAMPLE_RATE: u32 = 16000;

/// Whether audio recorded at `device_rate` must be resampled before transcription.
pub fn needs_resampling(device_rate: u32) -> (r: bool)
    ensures
        r == (device_rate != WHISPER_SAMPLE_RATE),
{
    device_rate != WHISPER_SAMPLE_RATE
}

/// The segments' texts one after the other, skipping segments that could not be read.
pub open spec fn joined_segments(s: Seq<Option<String>>) -> Seq<char>
    decreases s.len(),
{
    if s.len() == 0 {
        Seq::empty()
    } else {
        joined_segments(s.drop_last()) + match s.last() {
            Some(t) => t@,
            None => Seq::empty(),
        }
    }
}

/// The transcription: the readable segments joined, without surrounding whitespace.
pub fn join_segments(segments: &Vec<Option<String>>) -> (r: String)
    ensures
        r@ == trim(joined_segments(segments@)),
{
    let mut text = String::new();
    let n = segments.len();
    let mut i: usize = 0;
    while i < n
        invariant
            n == segments@.len(),
            i <= n,
            text@ == joined_segments(segments@.take(i as int)),
        decreases n - i,
    {
        assert(segments@.take(i + 1).drop_last() =~= segments@.take(i as int));
        assert(segments@.take(i + 1).last() == segments@[i as int]);
        match &segments[i] {
            Some(t) => text.append(t.as_str()),
            None => {
                assert(text@ + Seq::<char>::empty() =~= text@);
            },
        }
        i = i + 1;
    }
    assert(segments@.take(n as int) =~= segments@);
    trim_str(text.as_str()).to_owned()
}

} // verus!
