use consensus_ledger::ledger::Ledger;
use consensus_ledger::pipeline::{check_credential, ledger_snapshot, run_pipeline};
use consensus_ledger::types::{JudgmentOutcome, PipelineError, REFERENCE_SENTINEL};

const REACHED_NOTE: &str = "Consensus reached: Transaction is valid.";
const FAILED_NOTE: &str = "Consensus failed: Transaction is invalid.";

fn answer(text: &str) -> JudgmentOutcome {
    JudgmentOutcome::Answer(text.to_string())
}

fn failure(message: &str) -> JudgmentOutcome {
    JudgmentOutcome::ServiceFailure(message.to_string())
}

#[test]
fn scenario_majority_approves() {
    let mut ledger = Ledger::new();
    let outcomes = vec![answer("yes"), answer("yes"), answer("no"), answer("yes"), answer("no")];
    let entry = run_pipeline(&mut ledger, "water is wet".to_string(), &outcomes, Some(7)).unwrap();
    assert_eq!(entry.votes.len(), 5);
    assert_eq!(entry.decision_note, REACHED_NOTE);
    assert_eq!(entry.statement.text, "water is wet");
    assert_eq!(entry.external_ref, 7);
    let entries = ledger_snapshot(&ledger);
    assert_eq!(entries.len(), 1);
    assert_eq!(entries[0].decision_note, REACHED_NOTE);
}

#[test]
fn scenario_minority_still_appends() {
    let mut ledger = Ledger::new();
    let outcomes = vec![answer("yes"), answer("no"), answer("no"), answer("yes"), answer("no")];
    let entry = run_pipeline(&mut ledger, "statement".to_string(), &outcomes, Some(7)).unwrap();
    assert_eq!(entry.votes.len(), 5);
    assert_eq!(entry.decision_note, FAILED_NOTE);
    // The ledger records the outcome; it does not gate on it.
    assert_eq!(ledger_snapshot(&ledger).len(), 1);
}

#[test]
fn scenario_judgment_timeout_fails_the_run() {
    let mut ledger = Ledger::new();
    run_pipeline(&mut ledger, "first".to_string(), &vec![answer("yes")], None).unwrap();
    let len_before = ledger_snapshot(&ledger).len();

    let outcomes =
        vec![answer("yes"), answer("yes"), failure("request timed out"), answer("no"), answer("yes")];
    match run_pipeline(&mut ledger, "second".to_string(), &outcomes, Some(7)) {
        Err(PipelineError::ExternalService(m)) => assert_eq!(m, "request timed out"),
        _ => panic!("expected an external-service error"),
    }
    assert_eq!(ledger_snapshot(&ledger).len(), len_before);
}

#[test]
fn scenario_failed_reference_lookup_uses_the_sentinel() {
    let mut ledger = Ledger::new();
    let outcomes = vec![answer("yes"), answer("yes"), answer("no"), answer("yes"), answer("no")];
    let entry = run_pipeline(&mut ledger, "water is wet".to_string(), &outcomes, None).unwrap();
    // The run succeeds exactly as with a reference, except for the sentinel.
    assert_eq!(entry.decision_note, REACHED_NOTE);
    assert_eq!(entry.votes.len(), 5);
    assert_eq!(entry.external_ref, REFERENCE_SENTINEL);
    assert_eq!(ledger_snapshot(&ledger).len(), 1);
}

#[test]
fn repeated_runs_grow_the_ledger_by_one_each() {
    let mut ledger = Ledger::new();
    let texts = ["first", "second", "third", "fourth"];
    let mut returned = Vec::new();
    for text in texts {
        let outcomes = vec![answer("yes"), answer("no"), answer("yes")];
        returned.push(run_pipeline(&mut ledger, text.to_string(), &outcomes, None).unwrap());
    }
    let entries = ledger_snapshot(&ledger);
    assert_eq!(entries.len(), texts.len());
    for (i, entry) in entries.iter().enumerate() {
        assert_eq!(entry.statement.text, texts[i]);
        // The stored entries match what each run returned, field for field.
        assert_eq!(entry.id, returned[i].id);
        assert_eq!(entry.created_at, returned[i].created_at);
        assert_eq!(entry.decision_note, returned[i].decision_note);
        assert_eq!(entry.external_ref, returned[i].external_ref);
        assert_eq!(entry.votes.len(), returned[i].votes.len());
    }
}

#[test]
fn votes_in_an_entry_are_ordered_by_agent_index() {
    let mut ledger = Ledger::new();
    let outcomes = vec![answer("no"), answer("yes"), answer("no"), answer("yes"), answer("yes")];
    let entry = run_pipeline(&mut ledger, "s".to_string(), &outcomes, None).unwrap();
    for (i, vote) in entry.votes.iter().enumerate() {
        assert_eq!(vote.agent_index, i);
    }
    let approvals: Vec<bool> = entry.votes.iter().map(|v| v.approved).collect();
    assert_eq!(approvals, vec![false, true, false, true, true]);
}

#[test]
fn entry_identifiers_are_fresh_and_well_formed() {
    let mut ledger = Ledger::new();
    let a = run_pipeline(&mut ledger, "s".to_string(), &vec![answer("yes")], None).unwrap();
    let b = run_pipeline(&mut ledger, "s".to_string(), &vec![answer("yes")], None).unwrap();
    assert_eq!(a.id.len(), 36);
    assert_eq!(a.statement.id.len(), 36);
    assert_ne!(a.id, b.id);
}

#[test]
fn missing_credential_fails_the_startup_check() {
    match check_credential("") {
        Err(PipelineError::Configuration(_)) => {}
        _ => panic!("expected a configuration error"),
    }
    assert!(check_credential("configured-credential").is_ok());
}
