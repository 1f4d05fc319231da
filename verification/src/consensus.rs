//! Aggregation of agent votes into a strict-majority consensus decision.

use vstd::prelude::*;

use crate::types::{ConsensusDecision, Vote};

verus! {

/// How many of the votes approve.
pub open spec fn count_approved(votes: Seq<Vote>) -> int
    decreases votes.len(),
{
    if votes.len() == 0 {
        0
    } else {
        count_approved(votes.drop_last()) + if votes.last().approved {
            1int
        } else {
            0int
        }
    }
}

/// A strict majority of the votes approve. An exact tie, and the empty
/// sequence, do not reach consensus.
pub open spec fn decision_reached(votes: Seq<Vote>) -> bool {
    count_approved(votes) * 2 > votes.len()
}

/// The fixed narrative for each of the two outcomes.
pub open spec fn spec_decision_note(reached: bool) -> Seq<char> {
    if reached {
        "Consensus reached: Transaction is valid."@
    } else {
        "Consensus failed: Transaction is invalid."@
    }
}

/// The narrative text for a decision.
pub fn decision_note_text(reached: bool) -> (s: &'static str)
    ensures
        s@ == spec_decision_note(reached),
{
    if reached {
        "Consensus reached: Transaction is valid."
    } else {
        "Consensus failed: Transaction is invalid."
    }
}

pub proof fn lemma_count_approved_bounds(votes: Seq<Vote>)
    ensures
        0 <= count_approved(votes) <= votes.len(),
    decreases votes.len(),
{
    if votes.len() > 0 {
        lemma_count_approved_bounds(votes.drop_last());
    }
}

/// The approval flags of a vote sequence, in order.
pub open spec fn approvals(votes: Seq<Vote>) -> Seq<bool> {
    votes.map_values(|v: Vote| v.approved)
}

/// How many elements of a flag sequence are true.
pub open spec fn count_true(flags: Seq<bool>) -> int
    decreases flags.len(),
{
    if flags.len() == 0 {
        0
    } else {
        count_true(flags.drop_last()) + if flags.last() {
            1int
        } else {
            0int
        }
    }
}

proof fn lemma_count_approved_is_count_true(votes: Seq<Vote>)
    ensures
        count_approved(votes) == count_true(approvals(votes)),
    decreases votes.len(),
{
    if votes.len() > 0 {
        lemma_count_approved_is_count_true(votes.drop_last());
        assert(approvals(votes.drop_last()) =~= approvals(votes).drop_last());
    }
}

proof fn lemma_count_true_is_multiset_count(flags: Seq<bool>)
    ensures
        count_true(flags) == flags.to_multiset().count(true),
    decreases flags.len(),
{
    broadcast use vstd::seq_lib::group_to_multiset_ensures;
    broadcast use vstd::multiset::group_multiset_axioms;

    if flags.len() == 0 {
        assert(flags.to_multiset().len() == 0);
    } else {
        lemma_count_true_is_multiset_count(flags.drop_last());
        assert(flags =~= flags.drop_last().push(flags.last()));
        assert(flags.to_multiset() =~= flags.drop_last().to_multiset().insert(flags.last()));
    }
}

/// The decision is a pure function of the multiset of approval flags:
/// two vote sequences whose approvals are permutations of one another
/// yield the same outcome, whatever the agent order.
pub proof fn lemma_decision_is_permutation_invariant(a: Seq<Vote>, b: Seq<Vote>)
    requires
        approvals(a).to_multiset() == approvals(b).to_multiset(),
    ensures
        decision_reached(a) == decision_reached(b),
{
    broadcast use vstd::seq_lib::group_to_multiset_ensures;

    lemma_count_approved_is_count_true(a);
    lemma_count_approved_is_count_true(b);
    lemma_count_true_is_multiset_count(approvals(a));
    lemma_count_true_is_multiset_count(approvals(b));
    assert(approvals(a).len() == approvals(a).to_multiset().len());
    assert(approvals(b).len() == approvals(b).to_multiset().len());
}

/// The strict-majority law: for any vote sequence of at least one vote,
/// consensus is reached exactly when the approving votes outnumber half
/// the total under integer (floor) division. In particular an exact
/// half of an even total does not reach consensus.
pub proof fn lemma_strict_majority(votes: Seq<Vote>)
    requires
        votes.len() >= 1,
    ensures
        decision_reached(votes) <==> count_approved(votes) > votes.len() as int / 2,
        count_approved(votes) * 2 == votes.len() ==> !decision_reached(votes),
{
    lemma_count_approved_bounds(votes);
}

/// Aggregating no votes at all yields a decision that is not reached.
pub proof fn lemma_empty_votes_no_consensus()
    ensures
        !decision_reached(Seq::<Vote>::empty()),
{
}

/// Maps a sequence of votes to a decision: reached exactly when strictly
/// more than half of the votes approve, with the matching narrative.
/// An empty sequence yields a decision that is not reached.
pub fn aggregate(votes: &Vec<Vote>) -> (d: ConsensusDecision)
    ensures
        d.reached == decision_reached(votes@),
        d.rationale@ == spec_decision_note(decision_reached(votes@)),
{
    let n = votes.len();
    let mut approved: usize = 0;
    let mut i: usize = 0;
    while i < n
        invariant
            n == votes@.len(),
            i <= n,
            approved <= i,
            approved == count_approved(votes@.take(i as int)),
        decreases n - i,
    {
        proof {
            assert(votes@.take(i as int + 1).drop_last() =~= votes@.take(i as int));
        }
        if votes[i].approved {
            approved = approved + 1;
        }
        i = i + 1;
    }
    proof {
        assert(votes@.take(n as int) =~= votes@);
    }
    let reached = approved > n / 2;
    proof {
        lemma_count_approved_bounds(votes@);
    }
    ConsensusDecision { reached, rationale: decision_note_text(reached).to_owned() }
}

} // verus!
