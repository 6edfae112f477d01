use vstd::prelude::*;

verus! {

/// Why a request to the engine was rejected before any computation.
#[derive(Debug)]
pub enum EngineError {
    /// The name given for the swept input is none of the recognised ones.
    InvalidParameter(String),
    /// A sweep or a distribution asked for fewer than two sample points.
    DegenerateSampling(usize),
    /// A market input that must be strictly positive is not.
    InvalidDomain(crate::inputs::SweepParameter),
}

/// Smallest number of sample points that spans an interval with both ends.
pub const MIN_SAMPLES: usize = 2;

/// Accepts a sample count when it is at least two, so that the step between
/// neighbouring samples is well defined.
pub fn check_sampling(count: usize) -> (r: Result<(), EngineError>)
    ensures
        count >= MIN_SAMPLES <==> r is Ok,
        count < MIN_SAMPLES ==> r == Err::<(), EngineError>(EngineError::DegenerateSampling(count)),
{
    if count < MIN_SAMPLES {
        Err(EngineError::DegenerateSampling(count))
    } else {
        Ok(())
    }
}

} // verus!
