//! The public surface of the pipeline: one run per submitted statement,
//! and the read side of the ledger.

use vstd::prelude::*;

use crate::collector::{all_answers, collect_votes, first_failure_message, votes_match_outcomes};
use crate::consensus::{aggregate, decision_reached, spec_decision_note};
use crate::external::fresh_id;
use crate::ledger::{entries_model, Ledger};
use crate::types::{JudgmentOutcome, LedgerEntry, PipelineError, Statement, REFERENCE_SENTINEL};

verus! {

/// One full pipeline run for one submitted statement, with the outside
/// world's contributions handed in as plain values: the outcome of each
/// agent's judgment call, ordered by agent index, and the result of the
/// optional reference-number lookup, `None` when it failed.
///
/// If every agent answered, the answers become votes, the votes a
/// strict-majority decision, and the ledger gains exactly one entry
/// recording statement, votes, narrative and reference; the entry is
/// returned. If any judgment call failed, the run fails with the first
/// observed service failure and the ledger is left unchanged. A failed
/// reference lookup never fails the run: the sentinel is recorded.
pub fn run_pipeline(
    ledger: &mut Ledger,
    statement_text: String,
    outcomes: &Vec<JudgmentOutcome>,
    reference: Option<u64>,
) -> (r: Result<LedgerEntry, PipelineError>)
    requires
        outcomes@.len() >= 1,
    ensures
        match r {
            Ok(e) => {
                &&& all_answers(outcomes@)
                &&& final(ledger)@ == old(ledger)@.push(e@)
                &&& e@.statement.text == statement_text
                &&& e@.statement.id@.len() == 36
                &&& votes_match_outcomes(e@.votes, outcomes@)
                &&& e@.decision_note@ == spec_decision_note(decision_reached(e@.votes))
                &&& e@.external_ref == (match reference {
                    Some(v) => v,
                    None => REFERENCE_SENTINEL,
                })
                &&& e@.id@.len() == 36
            },
            Err(e) => {
                &&& final(ledger)@ == old(ledger)@
                &&& !all_answers(outcomes@)
                &&& e matches PipelineError::ExternalService(m) && first_failure_message(
                    outcomes@,
                    m,
                )
            },
        },
{
    let statement = Statement { id: fresh_id(), text: statement_text };
    let votes = match collect_votes(outcomes) {
        Ok(votes) => votes,
        Err(e) => {
            return Err(e);
        },
    };
    let decision = aggregate(&votes);
    let entry = ledger.append(statement, votes, decision.rationale, reference);
    Ok(entry)
}

/// The ledger's entries in append order, as copies: an earlier snapshot is
/// never changed by a later run.
pub fn ledger_snapshot(ledger: &Ledger) -> (r: Vec<LedgerEntry>)
    ensures
        entries_model(r@) == ledger@,
{
    ledger.snapshot()
}

/// The startup configuration check: the judgment service needs a
/// credential, and a missing (empty) one fails fast, before any statement
/// is processed.
pub fn check_credential(credential: &str) -> (r: Result<(), PipelineError>)
    ensures
        r matches Ok(_) <==> credential@.len() > 0,
        credential@.len() == 0 ==> r matches Err(PipelineError::Configuration(_)),
{
    if credential.is_empty() {
        Err(PipelineError::Configuration("required credential is not set".to_owned()))
    } else {
        Ok(())
    }
}

} // verus!
