//! Choosing the track of a container to play, and its stream format.
//!
//! The caller probes the container and lists, for each track in order,
//! whether its codec is known; this module picks the track and fills in
//! the format the container leaves unset.

use vstd::prelude::*;

verus! {

/// Sample rate assumed when the container does not give one (Hz).
pub open spec fn default_sample_rate() -> u32 {
    44100
}

/// Channel count assumed when the container does not give one (stereo).
pub open spec fn default_channel_count() -> u16 {
    2
}

/// Index of the first track whose codec is known, if any.
pub fn first_audio_track(known_codec: &Vec<bool>) -> (r: Option<usize>)
    ensures
        match r {
            Some(i) => {
                &&& i < known_codec@.len()
                &&& known_codec@[i as int]
                &&& forall|j: int| 0 <= j < i ==> !known_codec@[j]
            },
            None => forall|j: int| 0 <= j < known_codec@.len() ==> !known_codec@[j],
        },
{
    let mut i: usize = 0;
    while i < known_codec.len()
        invariant
            i <= known_codec@.len(),
            forall|j: int| 0 <= j < i ==> !known_codec@[j],
        decreases known_codec@.len() - i,
    {
        if known_codec[i] {
            return Some(i);
        }
        i = i + 1;
    }
    None
}

/// Sample rate and channel count of a track: what the container gives, and
/// 44100 Hz and stereo where it gives nothing.
pub fn stream_format(sample_rate: Option<u32>, channels: Option<u16>) -> (f: (u32, u16))
    ensures
        f.0 == match sample_rate {
            Some(r) => r,
            None => default_sample_rate(),
        },
        f.1 == match channels {
            Some(n) => n,
            None => default_channel_count(),
        },
{
    let rate = match sample_rate {
        Some(r) => r,
        None => 44100,
    };
    let count = match channels {
        Some(n) => n,
        None => 2,
    };
    (rate, count)
}

} // verus!
