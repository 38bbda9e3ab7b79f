//! Recorded samples. The type of a sample is left open.

use vstd::prelude::*;

verus! {

/// How many samples a second of audio has.
pub const WHISPER_SAMPLE_RATE: usize = 16000;

/// How many samples a recording of less than a second is filled up to.
pub const PADDED_LENGTH: usize = 20000;

/// So many samples of silence.
pub open spec fn silent<S>(silence: S, n: nat) -> Seq<S> {
    Seq::new(n, |i: int| silence)
}

/// A recording of less than a second, unless it is empty, filled up with
/// silence to a second and a quarter; any other as it is.
pub open spec fn padded<S>(samples: Seq<S>, silence: S) -> Seq<S> {
    if 0 < samples.len() < WHISPER_SAMPLE_RATE {
        samples + silent(silence, (PADDED_LENGTH - samples.len()) as nat)
    } else {
        samples
    }
}

/// Fills a very short recording up with silence.
pub fn pad_short<S: Copy>(samples: Vec<S>, silence: S) -> (r: Vec<S>)
    ensures
        r@ == padded(samples@, silence),
{
    let mut r = samples;
    let len = r.len();
    if len > 0 && len < WHISPER_SAMPLE_RATE {
        while r.len() < PADDED_LENGTH
            invariant
                len == samples@.len(),
                len <= r@.len() <= PADDED_LENGTH,
                r@ == samples@ + silent(silence, (r@.len() - len) as nat),
            decreases PADDED_LENGTH - r.len(),
        {
            r.push(silence);
            proof {
                assert(r@ =~= samples@ + silent(silence, (r@.len() - len) as nat));
            }
        }
    }
    r
}

/// Padding keeps the samples in front, leaves nothing shorter than a second but
/// the empty recording, and does nothing to what it has padded.
pub proof fn law_padding<S>(samples: Seq<S>, silence: S)
    ensures
        samples.is_prefix_of(padded(samples, silence)),
        padded(samples, silence).len() == 0 <==> samples.len() == 0,
        samples.len() > 0 ==> padded(samples, silence).len() >= WHISPER_SAMPLE_RATE,
        padded(padded(samples, silence), silence) == padded(samples, silence),
        forall|i: int|
            samples.len() <= i < padded(samples, silence).len() ==> #[trigger] padded(
                samples,
                silence,
            )[i] == silence,
{
}

/// A recording of less than a second at 16 kHz is filled up with silence to a
/// second and a quarter; an empty one, and any of a second or more, stays as it
/// is.
pub proof fn law_short_recordings_are_filled_up<S>(samples: Seq<S>, silence: S)
    ensures
        0 < samples.len() < 16000 ==> padded(samples, silence).len() == 20000,
        0 < samples.len() < 16000 ==> padded(samples, silence).take(samples.len() as int)
            == samples,
        samples.len() == 0 || samples.len() >= 16000 ==> padded(samples, silence) == samples,
{
}

} // verus!
