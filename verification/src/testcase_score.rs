//! Scoring policies: a scalar weight per testcase.
//!
//! A `TestcaseScore` is a stateless policy handing the weighted schedulers a
//! non-negative integer weight per testcase (the fixed-point stand-in for
//! the engine's finite, non-negative real scores). The score is a function
//! of the testcase alone; the campaign state is passed for context but the
//! policy must not let it change the score, which is what makes recomputing
//! a score on add and replace well defined.

use vstd::prelude::*;

use crate::corpus::Testcase;
use crate::state::CampaignState;
use crate::Error;

verus! {

/// The constant weight of the uniform policy.
pub const UNIFORM_WEIGHT: u64 = 1337;

/// A stateless policy producing a scalar score per testcase.
pub trait TestcaseScore: Sized {
    /// The score the policy assigns to a testcase.
    spec fn spec_compute(testcase: Testcase) -> u64;

    /// Computes the score of `testcase`: always a non-negative weight.
    fn compute(state: &CampaignState, testcase: &Testcase) -> (r: Result<u64, Error>)
        ensures
            r == Ok::<u64, Error>(Self::spec_compute(*testcase)),
    ;
}

/// The same weight for every testcase: uniform sampling.
#[derive(Clone, Copy, Debug, PartialEq, Eq, Structural)]
pub struct UniformTestcaseScore;

impl TestcaseScore for UniformTestcaseScore {
    open spec fn spec_compute(testcase: Testcase) -> u64 {
        UNIFORM_WEIGHT
    }

    fn compute(state: &CampaignState, testcase: &Testcase) -> Result<u64, Error> {
        Ok(UNIFORM_WEIGHT)
    }
}

/// Weight proportional to `input_len * exec_time_us`, saturating at the
/// weight type's maximum.
#[derive(Clone, Copy, Debug, PartialEq, Eq, Structural)]
pub struct LenTimeMulTestcaseScore;

impl TestcaseScore for LenTimeMulTestcaseScore {
    open spec fn spec_compute(testcase: Testcase) -> u64 {
        if testcase.input_len * testcase.exec_time_us > u64::MAX {
            u64::MAX
        } else {
            (testcase.input_len * testcase.exec_time_us) as u64
        }
    }

    fn compute(state: &CampaignState, testcase: &Testcase) -> Result<u64, Error> {
        match testcase.input_len.checked_mul(testcase.exec_time_us) {
            Some(p) => Ok(p),
            None => Ok(u64::MAX),
        }
    }
}

} // verus!
