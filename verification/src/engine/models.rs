//! Passive records describing a queued submission's judging state and its
//! test-case file pair, as the surrounding engine stores them.

use vstd::prelude::*;

verus! {

/// Where a queued submission stands in its lifecycle.
#[derive(Debug, Clone)]
pub enum Status {
    /// Waiting to be judged.
    InQueue,
    /// Being judged right now.
    Judging,
    /// Judged; results are available.
    Ready,
}

/// One stored test case: the path of its input file and the path of its
/// expected-output file.
#[derive(Debug, Clone)]
pub struct TestCase {
    pub input: String,
    pub output: String,
}

} // verus!
