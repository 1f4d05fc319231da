use consensus_ledger::types::{JudgmentOutcome, PipelineError};
use consensus_ledger::validator::{
    agent_label, answer_is_affirmative, build_prompt, decimal_string, validate,
};

#[test]
fn affirmative_answers_are_recognised() {
    assert!(answer_is_affirmative("yes"));
    assert!(answer_is_affirmative("Yes."));
    assert!(answer_is_affirmative("YES"));
    assert!(answer_is_affirmative("yEs"));
    assert!(answer_is_affirmative("The statement is valid, so yes"));
    assert!(answer_is_affirmative("eyesore"));
}

#[test]
fn other_answers_are_refusals() {
    assert!(!answer_is_affirmative(""));
    assert!(!answer_is_affirmative("no"));
    assert!(!answer_is_affirmative("nope"));
    assert!(!answer_is_affirmative("y e s"));
    assert!(!answer_is_affirmative("ye"));
    assert!(!answer_is_affirmative("certainly not"));
}

#[test]
fn validate_answer_yields_vote() {
    let outcome = JudgmentOutcome::Answer("Yes, it is valid".to_string());
    let vote = validate(2, "judge".to_string(), outcome).unwrap();
    assert_eq!(vote.agent_index, 2);
    assert_eq!(vote.agent_label, "judge");
    assert!(vote.approved);
}

#[test]
fn validate_malformed_answer_is_refusal_not_error() {
    let outcome = JudgmentOutcome::Answer("".to_string());
    let vote = validate(0, "judge".to_string(), outcome).unwrap();
    assert!(!vote.approved);
    let outcome = JudgmentOutcome::Answer("no valid response".to_string());
    let vote = validate(0, "judge".to_string(), outcome).unwrap();
    assert!(!vote.approved);
}

#[test]
fn validate_service_failure_is_an_error() {
    let outcome = JudgmentOutcome::ServiceFailure("quota exceeded".to_string());
    match validate(1, "judge".to_string(), outcome) {
        Err(PipelineError::ExternalService(m)) => assert_eq!(m, "quota exceeded"),
        _ => panic!("expected an external-service error"),
    }
}

#[test]
fn agent_labels_cycle_through_the_table() {
    assert_eq!(agent_label(0), "GPT-3.5 (text-davinci-003)");
    assert_eq!(agent_label(4), "Llama 2 (Meta AI)");
    assert_eq!(agent_label(9), "OpenAssistant (LAION)");
    assert_eq!(agent_label(10), agent_label(0));
    assert_eq!(agent_label(23), agent_label(3));
}

#[test]
fn decimal_rendering_is_exact() {
    assert_eq!(decimal_string(0), "0");
    assert_eq!(decimal_string(7), "7");
    assert_eq!(decimal_string(10), "10");
    assert_eq!(decimal_string(90210), "90210");
    assert_eq!(decimal_string(u64::MAX), "18446744073709551615");
}

#[test]
fn prompt_has_the_fixed_format() {
    let p = build_prompt(3, "Mistral 7B", "water is wet");
    assert_eq!(
        p,
        "Agent 3 (Mistral 7B) is validating the following transaction: 'water is wet'. \
         Is it valid? Respond with 'yes' or 'no'.\n"
    );
}
