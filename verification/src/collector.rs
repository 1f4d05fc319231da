//! Folding the judgment outcomes of all agents into an ordered vote list.

use vstd::prelude::*;

use crate::types::{JudgmentOutcome, PipelineError, Vote};
use crate::validator::{agent_label, outcome_approves, spec_agent_label, validate};

verus! {

/// Every outcome before position `k` is an answer.
pub open spec fn all_answers_before(outcomes: Seq<JudgmentOutcome>, k: int) -> bool {
    forall|j: int| 0 <= j < k ==> (#[trigger] outcomes[j]) matches JudgmentOutcome::Answer(_)
}

/// Every outcome is an answer: no judgment call failed.
pub open spec fn all_answers(outcomes: Seq<JudgmentOutcome>) -> bool {
    all_answers_before(outcomes, outcomes.len() as int)
}

/// The vote list a sequence of outcomes yields: one vote per agent, at the
/// agent's own index, carrying the agent's label, approving exactly when
/// the agent's answer affirms.
pub open spec fn votes_match_outcomes(votes: Seq<Vote>, outcomes: Seq<JudgmentOutcome>) -> bool {
    &&& votes.len() == outcomes.len()
    &&& forall|k: int|
        0 <= k < votes.len() ==> {
            &&& (#[trigger] votes[k]).agent_index == k
            &&& votes[k].agent_label@ == spec_agent_label(k)
            &&& votes[k].approved == outcome_approves(outcomes[k])
        }
}

/// The collection failed with the message of the first observed service
/// failure: every outcome before it is an answer.
pub open spec fn first_failure_message(outcomes: Seq<JudgmentOutcome>, m: String) -> bool {
    exists|k: int|
        {
            &&& 0 <= k < outcomes.len()
            &&& all_answers_before(outcomes, k)
            &&& (#[trigger] outcomes[k]) matches JudgmentOutcome::ServiceFailure(f) && f == m
        }
}

/// Folds the outcomes of the per-agent judgment calls, ordered by agent
/// index ascending, into the agents' votes.
///
/// All-or-nothing: one vote per agent exactly when every call answered.
/// If any call failed, the whole collection fails with the first observed
/// service failure, and no partial vote list is returned.
pub fn collect_votes(outcomes: &Vec<JudgmentOutcome>) -> (r: Result<Vec<Vote>, PipelineError>)
    requires
        outcomes@.len() >= 1,
    ensures
        match r {
            Ok(votes) => all_answers(outcomes@) && votes_match_outcomes(votes@, outcomes@),
            Err(e) => {
                &&& !all_answers(outcomes@)
                &&& e matches PipelineError::ExternalService(m) && first_failure_message(
                    outcomes@,
                    m,
                )
            },
        },
{
    let n = outcomes.len();
    let mut votes: Vec<Vote> = Vec::new();
    let mut i: usize = 0;
    while i < n
        invariant
            n == outcomes@.len(),
            i <= n,
            votes@.len() == i,
            all_answers_before(outcomes@, i as int),
            votes_match_outcomes(votes@, outcomes@.take(i as int)),
        decreases n - i,
    {
        let outcome = outcomes[i].clone();
        let label = agent_label(i).to_owned();
        match validate(i, label, outcome) {
            Ok(v) => {
                votes.push(v);
                proof {
                    assert(votes@.take(i as int + 1) =~= votes@);
                }
            },
            Err(e) => {
                proof {
                    assert(outcomes@[i as int] matches JudgmentOutcome::ServiceFailure(_));
                    assert(!all_answers(outcomes@));
                }
                return Err(e);
            },
        }
        i = i + 1;
    }
    proof {
        assert(outcomes@.take(n as int) =~= outcomes@);
    }
    Ok(votes)
}

} // verus!
