//! The integer decisions of the decomposer and the mixer.
//!
//! The decomposer keeps at most as many components as the centered
//! magnitude matrix has singular values; the mixer pairs component
//! waveforms with volumes positionally up to the shorter list and sizes
//! its output after the first component.  Those rules are computed here
//! under contract; the floating-point summation itself happens outside.

use vstd::prelude::*;

verus! {

/// How many samples a mix over components of the given lengths produces:
/// as many as the first component has, and none when there is no component.
pub open spec fn spec_mix_output_len(lens: Seq<usize>) -> usize {
    if lens.len() == 0 {
        0
    } else {
        lens[0]
    }
}

/// Clamp a requested component count to the rank the decomposition offers:
/// the number of retained components is the smaller of the two.
pub fn clamp_components(requested: usize, rank: usize) -> (r: usize)
    ensures
        r == if requested <= rank {
            requested
        } else {
            rank
        },
{
    if requested <= rank {
        requested
    } else {
        rank
    }
}

/// The mixer's plan: its output holds as many samples as the first
/// component (zero without components), and exactly
/// `min(#components, #volumes)` component/volume pairs contribute;
/// unmatched components or volumes are ignored.
pub fn mix_plan(component_lens: &Vec<usize>, num_volumes: usize) -> (r: (usize, usize))
    ensures
        r.0 == spec_mix_output_len(component_lens@),
        r.1 == if component_lens@.len() <= num_volumes {
            component_lens@.len()
        } else {
            num_volumes as nat
        },
{
    let out_len = if component_lens.len() == 0 {
        0
    } else {
        component_lens[0]
    };
    let pairs = if component_lens.len() <= num_volumes {
        component_lens.len()
    } else {
        num_volumes
    };
    (out_len, pairs)
}

/// The mix keeps the source length: when every component waveform has the
/// source length and there is at least one, the mix output has the source
/// length too.
pub proof fn lemma_mix_keeps_source_len(lens: Seq<usize>, source_len: usize)
    requires
        lens.len() > 0,
        forall|i: int| 0 <= i < lens.len() ==> lens[i] == source_len,
    ensures
        spec_mix_output_len(lens) == source_len,
{
}

} // verus!
