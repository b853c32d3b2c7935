//! The integer geometry of the windowed spectral transform.
//!
//! The forward transform cuts the signal into hops of overlapping windows
//! and keeps the non-redundant half of each frame's spectrum; the inverse
//! transform mirrors the stored bins back to a full spectrum and places
//! each synthesis frame into the output by overlap-add.  Everything those
//! two passes decide with integers is computed here under contract: how
//! many bins and frames a spectrogram has, at which sample offset each
//! frame starts, which stored bin each mirrored spectrum position reads,
//! and that the inverse pass loses no frame the forward pass produced.

use vstd::prelude::*;

use vstd::arithmetic::div_mod::lemma_fundamental_div_mod;
use vstd::arithmetic::div_mod::lemma_mod_division_less_than_divisor;
use vstd::arithmetic::mul::lemma_mul_inequality;

verus! {

/// Number of stored frequency bins: only the non-redundant half of a
/// real-input spectrum is kept.
pub open spec fn spec_num_bins(window_size: nat) -> nat {
    window_size / 2 + 1
}

/// Number of frames the forward transform allocates: one frame per hop
/// whose window fits inside the signal, and a single all-zero frame when
/// the signal is shorter than the window (short input is not dropped, it
/// yields a zero spectrogram).
pub open spec fn spec_num_frames(num_samples: nat, window_size: nat, hop_size: nat) -> nat
    recommends
        hop_size > 0,
{
    if num_samples >= window_size {
        ((num_samples - window_size) as nat) / hop_size + 1
    } else {
        1
    }
}

/// Number of frames that actually hold data: those whose whole window lies
/// inside the signal.  A signal shorter than the window has none.
pub open spec fn spec_full_frames(num_samples: nat, window_size: nat, hop_size: nat) -> nat
    recommends
        hop_size > 0,
{
    if num_samples >= window_size {
        ((num_samples - window_size) as nat) / hop_size + 1
    } else {
        0
    }
}

/// How many of `num_frames` synthesis frames the inverse transform places:
/// the prefix of frames whose windows fit inside the output buffer.
pub open spec fn spec_placed_frames(
    num_frames: nat,
    window_size: nat,
    hop_size: nat,
    output_length: nat,
) -> nat
    recommends
        hop_size > 0,
{
    if window_size > output_length {
        0
    } else {
        let cap = ((output_length - window_size) as nat) / hop_size + 1;
        if num_frames <= cap {
            num_frames
        } else {
            cap
        }
    }
}

proof fn lemma_mul_le_of_div_bound(j: int, bound: int, h: int)
    requires
        0 <= j,
        0 < h,
        0 <= bound,
        j <= bound / h,
    ensures
        j * h <= bound,
{
    lemma_fundamental_div_mod(bound, h);
    lemma_mod_division_less_than_divisor(bound, h);
    lemma_mul_inequality(j, bound / h, h);
}

/// The count of stored bins for a window of `window_size` samples.
pub fn num_bins(window_size: usize) -> (r: usize)
    ensures
        r == spec_num_bins(window_size as nat),
{
    window_size / 2 + 1
}

/// The count of frames the forward transform allocates for a signal of
/// `num_samples` samples.
pub fn num_frames(num_samples: usize, window_size: usize, hop_size: usize) -> (r: usize)
    requires
        window_size >= 1,
        hop_size >= 1,
    ensures
        r == spec_num_frames(num_samples as nat, window_size as nat, hop_size as nat),
{
    if num_samples >= window_size {
        (num_samples - window_size) / hop_size + 1
    } else {
        1
    }
}

/// The sample offsets at which the forward transform cuts its frames: every
/// multiple of the hop whose whole window lies inside the signal, in order.
/// A signal shorter than the window yields no offsets.
pub fn stft_frame_starts(num_samples: usize, window_size: usize, hop_size: usize) -> (r: Vec<
    usize,
>)
    requires
        window_size >= 1,
        hop_size >= 1,
    ensures
        r@.len() == spec_full_frames(num_samples as nat, window_size as nat, hop_size as nat),
        forall|k: int| 0 <= k < r@.len() ==> r@[k] == k * hop_size,
        forall|k: int| 0 <= k < r@.len() ==> r@[k] + window_size <= num_samples,
{
    let mut starts: Vec<usize> = Vec::new();
    if num_samples < window_size {
        return starts;
    }
    let bound = num_samples - window_size;
    let count = bound / hop_size + 1;
    let mut k: usize = 0;
    while k < count
        invariant
            window_size >= 1,
            hop_size >= 1,
            num_samples >= window_size,
            bound == num_samples - window_size,
            count == bound / hop_size + 1,
            k <= count,
            starts@.len() == k,
            forall|j: int| 0 <= j < k ==> starts@[j] == j * hop_size,
            forall|j: int| 0 <= j < k ==> starts@[j] + window_size <= num_samples,
        decreases count - k,
    {
        proof {
            lemma_mul_le_of_div_bound(k as int, bound as int, hop_size as int);
        }
        let start = k * hop_size;
        starts.push(start);
        k = k + 1;
    }
    starts
}

/// The sample offsets at which the inverse transform places its synthesis
/// frames: every multiple of the hop, for the prefix of frames whose whole
/// window lies inside the output buffer; later frames are not placed.
pub fn istft_frame_starts(
    num_frames: usize,
    window_size: usize,
    hop_size: usize,
    output_length: usize,
) -> (r: Vec<usize>)
    requires
        window_size >= 1,
        hop_size >= 1,
    ensures
        r@.len() == spec_placed_frames(
            num_frames as nat,
            window_size as nat,
            hop_size as nat,
            output_length as nat,
        ),
        forall|k: int| 0 <= k < r@.len() ==> r@[k] == k * hop_size,
        forall|k: int| 0 <= k < r@.len() ==> r@[k] + window_size <= output_length,
{
    let mut starts: Vec<usize> = Vec::new();
    if window_size > output_length {
        return starts;
    }
    let bound = output_length - window_size;
    let cap = bound / hop_size + 1;
    let count = if num_frames <= cap {
        num_frames
    } else {
        cap
    };
    let mut k: usize = 0;
    while k < count
        invariant
            window_size >= 1,
            hop_size >= 1,
            window_size <= output_length,
            bound == output_length - window_size,
            count <= bound / hop_size + 1,
            k <= count,
            starts@.len() == k,
            forall|j: int| 0 <= j < k ==> starts@[j] == j * hop_size,
            forall|j: int| 0 <= j < k ==> starts@[j] + window_size <= output_length,
        decreases count - k,
    {
        proof {
            lemma_mul_le_of_div_bound(k as int, bound as int, hop_size as int);
        }
        let start = k * hop_size;
        starts.push(start);
        k = k + 1;
    }
    starts
}

/// The synthesis layout of one frame mirrors the stored bins back to a full
/// spectrum: positions `0 ..= window_size / 2` hold the stored bins in
/// order, and each later position holds the conjugate of a mirrored stored
/// bin.  This returns those mirrored bin indices in placement order,
/// `window_size / 2 - 1` down to `1`; together with the stored bins they
/// fill a full even-sized window exactly.
pub fn mirrored_bins(window_size: usize) -> (r: Vec<usize>)
    requires
        window_size >= 2,
    ensures
        r@.len() == window_size / 2 - 1,
        forall|k: int| 0 <= k < r@.len() ==> r@[k] == window_size / 2 - 1 - k,
        forall|k: int|
            0 <= k < r@.len() ==> 1 <= r@[k] && r@[k] + 2 <= spec_num_bins(window_size as nat),
        window_size % 2 == 0 ==> spec_num_bins(window_size as nat) + r@.len() == window_size,
{
    let half = window_size / 2;
    let len = half - 1;
    let mut bins: Vec<usize> = Vec::new();
    let mut k: usize = 0;
    while k < len
        invariant
            half == window_size / 2,
            window_size >= 2,
            len == half - 1,
            k <= len,
            bins@.len() == k,
            forall|j: int| 0 <= j < k ==> bins@[j] == half - 1 - j,
        decreases len - k,
    {
        bins.push(half - 1 - k);
        k = k + 1;
    }
    bins
}

/// Whether the frame starting at hop `k` covers the sample at index `i`.
pub open spec fn spec_frame_covers(k: nat, hop_size: nat, window_size: nat, i: nat) -> bool {
    k * hop_size <= i < k * hop_size + window_size
}

/// With a hop no larger than the window, overlap-add leaves no gap: every
/// sample index up to the end of the last full frame lies inside at least
/// one frame's window.  Only the tail the frames never reach — fewer than
/// one hop of samples — is outside every window, which is why round-trip
/// reconstruction is owed only away from the boundary.
pub proof fn lemma_hops_leave_no_gap(
    num_samples: nat,
    window_size: nat,
    hop_size: nat,
    i: nat,
)
    requires
        1 <= hop_size <= window_size <= num_samples,
        i < (spec_full_frames(num_samples, window_size, hop_size) - 1) * hop_size + window_size,
    ensures
        exists|k: nat|
            k < spec_full_frames(num_samples, window_size, hop_size) && spec_frame_covers(
                k,
                hop_size,
                window_size,
                i,
            ),
{
    let count = spec_full_frames(num_samples, window_size, hop_size);
    assert(count >= 1);
    lemma_fundamental_div_mod(i as int, hop_size as int);
    lemma_mod_division_less_than_divisor(i as int, hop_size as int);
    if i / hop_size <= count - 1 {
        let k = i / hop_size;
        // The window starts at or before `i` and, because the hop is no
        // larger than the window, still reaches past it.
        assert(k * hop_size <= i < k * hop_size + hop_size);
        assert(spec_frame_covers(k, hop_size, window_size, i));
    } else {
        let k = (count - 1) as nat;
        lemma_mul_inequality(count as int, i as int / hop_size as int, hop_size as int);
        assert(count * hop_size <= (i / hop_size) * hop_size);
        assert((i / hop_size) * hop_size <= i);
        assert((count - 1) * hop_size == count * hop_size - hop_size) by (nonlinear_arith);
        assert(k * hop_size <= i);
        assert(spec_frame_covers(k, hop_size, window_size, i));
    }
}

/// No analysis frame is lost on the way back: when the inverse transform is
/// asked for exactly the source length, it places every frame the forward
/// transform produced for that source.
pub proof fn lemma_inverse_places_all_frames(
    num_samples: nat,
    window_size: nat,
    hop_size: nat,
)
    requires
        1 <= window_size <= num_samples,
        hop_size >= 1,
    ensures
        spec_placed_frames(
            spec_num_frames(num_samples, window_size, hop_size),
            window_size,
            hop_size,
            num_samples,
        ) == spec_num_frames(num_samples, window_size, hop_size),
{
}

} // verus!
