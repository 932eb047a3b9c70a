//! The campaign state: everything a scheduler borrows per call.
//!
//! One fuzzing worker owns one `CampaignState`; all feedback and scheduler
//! operations run on that single thread. The state bundles the corpus, the
//! campaign random number generator and the campaign-wide metadata entries
//! (modelled as typed optional slots of the keyed metadata bag).

use vstd::prelude::*;

use crate::corpus::Corpus;
use crate::probabilistic_sampling::ProbabilityMetadata;
use crate::rands::rand_with_seed;
use crate::schedulers::SchedulerMetadata;

verus! {

/// The per-worker campaign state.
pub struct CampaignState {
    /// The retained testcases and the currently scheduled id.
    pub corpus: Corpus,
    /// The campaign random number generator.
    pub rand: libafl_bolts::rands::RomuDuoJrRand,
    /// Campaign-wide frequency table of the AFL-style schedulers, once one
    /// has been installed.
    pub scheduler_metadata: Option<SchedulerMetadata>,
    /// Campaign-wide weight table of the probability-sampling scheduler,
    /// created by its first `on_add`.
    pub probability_metadata: Option<ProbabilityMetadata>,
}

impl CampaignState {
    /// A fresh state: empty corpus, seeded generator, no metadata yet.
    pub fn with_seed(seed: u64) -> (r: Self)
        ensures
            r.corpus.spec_entries() == Seq::<(crate::CorpusId, crate::corpus::Testcase)>::empty(),
            r.corpus.spec_current() is None,
            r.corpus.spec_next_id() == 0,
            r.corpus.wf(),
            r.scheduler_metadata is None,
            r.probability_metadata is None,
    {
        CampaignState {
            corpus: Corpus::new(),
            rand: rand_with_seed(seed),
            scheduler_metadata: None,
            probability_metadata: None,
        }
    }
}

} // verus!
