use vstd::prelude::*;

verus! {

/// Failure taxonomy of the aggregation pipeline.
///
/// File and JSON loading failures stay with the surrounding binary; the
/// library reports only what its own checks decide.
#[derive(Clone, Copy, Debug, PartialEq, Eq, Structural)]
pub enum Error {
    /// The verifying key's commitment count does not match its declared
    /// public-input layout.
    MalformedKey,
    /// A proof's byte length or point encoding is inconsistent with the
    /// protocol it claims to follow.
    MalformedProof,
    /// An accumulation proof does not match the transcript that the
    /// accumulators themselves induce.
    FoldingTranscriptError,
    /// The decider's pairing check rejected the folded accumulator; the
    /// batch must not proceed to circuit-instance construction.
    AccumulatorInvalid,
    /// The cheap structural satisfaction check failed before real proving.
    UnsatisfiedCircuit,
    /// The structured reference string's degree bound is below the
    /// aggregation circuit's required row count.
    InsufficientSrsDegree,
    /// The freshly created proof failed its immediate self-verification;
    /// an unaccepted proof must never be published.
    ProofRejected,
}

} // verus!
