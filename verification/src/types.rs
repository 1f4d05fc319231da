//! The data the pipeline works on: statements, votes, decisions, ledger
//! entries, the outcome of a judgment call, and the pipeline's errors.

use vstd::prelude::*;

verus! {

/// The value recorded as an entry's external reference when the
/// reference-number lookup failed.
pub const REFERENCE_SENTINEL: u64 = 0;

/// A user-submitted statement, immutable once created.
pub struct Statement {
    /// A fresh opaque identifier assigned when the statement is submitted.
    pub id: String,
    /// The submitted text, judged by every agent of the run.
    pub text: String,
}

/// One agent's boolean judgment of a statement.
pub struct Vote {
    /// The agent's position in the fan-out, in `0 .. agent_count`.
    pub agent_index: usize,
    /// A human-readable name for the agent.
    pub agent_label: String,
    /// Whether the agent judged the statement valid.
    pub approved: bool,
}

/// The outcome of aggregating a sequence of votes.
pub struct ConsensusDecision {
    /// Whether a strict majority of the votes approved.
    pub reached: bool,
    /// A fixed-format narrative distinguishing the two outcomes.
    pub rationale: String,
}

/// One immutable record of a completed pipeline run.
pub struct LedgerEntry {
    /// A fresh opaque identifier assigned at append time.
    pub id: String,
    /// The statement the run judged.
    pub statement: Statement,
    /// The votes, ordered by agent index ascending.
    pub votes: Vec<Vote>,
    /// The narrative of the consensus decision.
    pub decision_note: String,
    /// A reference number from an external service, or
    /// [`REFERENCE_SENTINEL`] when the lookup failed.
    pub external_ref: u64,
    /// Seconds since the epoch at append time.
    pub created_at: i64,
}

/// The mathematical model of a ledger entry: the entry with its vote
/// sequence abstracted to a `Seq`. Contracts compare entries through it.
pub struct LedgerEntryModel {
    pub id: String,
    pub statement: Statement,
    pub votes: Seq<Vote>,
    pub decision_note: String,
    pub external_ref: u64,
    pub created_at: i64,
}

impl View for LedgerEntry {
    type V = LedgerEntryModel;

    open spec fn view(&self) -> LedgerEntryModel {
        LedgerEntryModel {
            id: self.id,
            statement: self.statement,
            votes: self.votes@,
            decision_note: self.decision_note,
            external_ref: self.external_ref,
            created_at: self.created_at,
        }
    }
}

/// What one call of the external judgment service produced: a free-text
/// answer, or a structured failure carrying the service's message.
/// A call that timed out counts as a failure.
pub enum JudgmentOutcome {
    Answer(String),
    ServiceFailure(String),
}

/// The errors a pipeline run or the startup configuration check can surface.
///
/// A malformed but successful judgment answer is not an error: it is read as
/// a `false` vote. A failed reference-number lookup is absorbed with
/// [`REFERENCE_SENTINEL`]. Only a structured judgment-service failure aborts
/// a run, and only a missing credential fails the startup check.
#[derive(Debug)]
pub enum PipelineError {
    /// The judgment service reported a structured failure, or a call
    /// timed out; the message is the service's own.
    ExternalService(String),
    /// A required credential was missing at startup.
    Configuration(String),
}

impl Clone for JudgmentOutcome {
    fn clone(&self) -> (r: Self)
        ensures
            r == *self,
    {
        match self {
            JudgmentOutcome::Answer(a) => JudgmentOutcome::Answer(a.clone()),
            JudgmentOutcome::ServiceFailure(m) => JudgmentOutcome::ServiceFailure(m.clone()),
        }
    }
}

impl Clone for Statement {
    fn clone(&self) -> (r: Self)
        ensures
            r == *self,
    {
        Statement { id: self.id.clone(), text: self.text.clone() }
    }
}

impl Clone for Vote {
    fn clone(&self) -> (r: Self)
        ensures
            r == *self,
    {
        Vote {
            agent_index: self.agent_index,
            agent_label: self.agent_label.clone(),
            approved: self.approved,
        }
    }
}

/// An element-for-element copy of a vote sequence.
pub fn copy_votes(votes: &Vec<Vote>) -> (r: Vec<Vote>)
    ensures
        r@ == votes@,
{
    let mut r: Vec<Vote> = Vec::new();
    let n = votes.len();
    let mut i: usize = 0;
    while i < n
        invariant
            n == votes@.len(),
            i <= n,
            r@ == votes@.take(i as int),
        decreases n - i,
    {
        r.push(votes[i].clone());
        proof {
            assert(r@ =~= votes@.take(i as int + 1));
        }
        i = i + 1;
    }
    proof {
        assert(votes@.take(n as int) =~= votes@);
    }
    r
}

impl Clone for LedgerEntry {
    fn clone(&self) -> (r: Self)
        ensures
            r@ == self@,
    {
        LedgerEntry {
            id: self.id.clone(),
            statement: self.statement.clone(),
            votes: copy_votes(&self.votes),
            decision_note: self.decision_note.clone(),
            external_ref: self.external_ref,
            created_at: self.created_at,
        }
    }
}

} // verus!
