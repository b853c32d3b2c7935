//! Spectral principal-component decomposition of audio: the verified core.
//!
//! A waveform is carried into a time-frequency matrix by a windowed forward
//! transform, decomposed by singular values into variance-ranked components,
//! reconstructed per component by the inverse transform, and remixed by
//! weighted summation.  The floating-point arithmetic of that pipeline lives
//! outside this crate; what is verified here is everything the pipeline
//! decides with integers: input validation, format detection from header
//! bytes, the geometry of the spectrogram (bin and frame counts, frame
//! placement for overlap-add, the conjugate-mirror layout of a real
//! spectrum), the pairing rule of the mixer, and the session store that
//! keeps a finished decomposition for later mix requests.

pub mod error;
pub mod format;
pub mod frames;
pub mod plan;
pub mod session;

pub use crate::format::detect_format;
pub use crate::format::AudioFormat;

use vstd::prelude::*;

use crate::error::PcaError;

verus! {

/// Accepts a decomposition request exactly when the sample buffer is
/// non-empty and the window and hop sizes are positive; any other request
/// is rejected as invalid input and no work is done on it.
pub fn validate_request(num_samples: usize, window_size: usize, hop_size: usize) -> (r: Result<
    (),
    PcaError,
>)
    ensures
        r is Ok <==> (num_samples > 0 && window_size > 0 && hop_size > 0),
        r is Err ==> r->Err_0 == PcaError::InvalidInput,
{
    if num_samples > 0 && window_size > 0 && hop_size > 0 {
        Ok(())
    } else {
        Err(PcaError::InvalidInput)
    }
}

} // verus!
