//! Interpretation of one agent's judgment of a statement: the prompt the
//! agent is asked, and the reading of its free-text answer as a vote.

use vstd::prelude::*;

use crate::types::{JudgmentOutcome, PipelineError, Vote};

verus! {

/// The affirmative marker stands at position `i` of the answer: the three
/// letters of "yes", each in either case, in a row.
pub open spec fn affirmative_at(s: Seq<char>, i: int) -> bool {
    &&& 0 <= i
    &&& i + 3 <= s.len()
    &&& (s[i] == 'y' || s[i] == 'Y')
    &&& (s[i + 1] == 'e' || s[i + 1] == 'E')
    &&& (s[i + 2] == 's' || s[i + 2] == 'S')
}

/// The answer carries the affirmative marker somewhere. Any other content,
/// the empty answer included, is read as a refusal.
pub open spec fn is_affirmative(s: Seq<char>) -> bool {
    exists|i: int| affirmative_at(s, i)
}

/// Whether a free-text answer affirms the statement: true exactly when the
/// marker "yes" occurs in it, letter cases mixed freely.
pub fn answer_is_affirmative(answer: &str) -> (b: bool)
    ensures
        b == is_affirmative(answer@),
{
    let n = answer.unicode_len();
    if n < 3 {
        return false;
    }
    let mut i: usize = 0;
    while i <= n - 3
        invariant
            3 <= n,
            n == answer@.len(),
            i <= n - 2,
            forall|j: int| 0 <= j < i ==> !affirmative_at(answer@, j),
        decreases n - i,
    {
        let c0 = answer.get_char(i);
        let c1 = answer.get_char(i + 1);
        let c2 = answer.get_char(i + 2);
        if (c0 == 'y' || c0 == 'Y') && (c1 == 'e' || c1 == 'E') && (c2 == 's' || c2 == 'S') {
            proof {
                assert(affirmative_at(answer@, i as int));
            }
            return true;
        }
        i = i + 1;
    }
    false
}

/// The label of the agent at an index: the names cycle through a fixed
/// table of ten.
pub open spec fn spec_agent_label(i: int) -> Seq<char> {
    let r = i % 10;
    if r == 0 {
        "GPT-3.5 (text-davinci-003)"@
    } else if r == 1 {
        "GPT-4 (gpt-4-turbo)"@
    } else if r == 2 {
        "Gemini Pro (Google DeepMind)"@
    } else if r == 3 {
        "Grok-1 (xAI)"@
    } else if r == 4 {
        "Llama 2 (Meta AI)"@
    } else if r == 5 {
        "Cohere Command R"@
    } else if r == 6 {
        "Mistral 7B"@
    } else if r == 7 {
        "BLOOM (Hugging Face)"@
    } else if r == 8 {
        "PaLM 2 (Google AI)"@
    } else {
        "OpenAssistant (LAION)"@
    }
}

/// The label of the agent at an index.
pub fn agent_label(i: usize) -> (s: &'static str)
    ensures
        s@ == spec_agent_label(i as int),
{
    let r = i % 10;
    if r == 0 {
        "GPT-3.5 (text-davinci-003)"
    } else if r == 1 {
        "GPT-4 (gpt-4-turbo)"
    } else if r == 2 {
        "Gemini Pro (Google DeepMind)"
    } else if r == 3 {
        "Grok-1 (xAI)"
    } else if r == 4 {
        "Llama 2 (Meta AI)"
    } else if r == 5 {
        "Cohere Command R"
    } else if r == 6 {
        "Mistral 7B"
    } else if r == 7 {
        "BLOOM (Hugging Face)"
    } else if r == 8 {
        "PaLM 2 (Google AI)"
    } else {
        "OpenAssistant (LAION)"
    }
}

/// The decimal digit character of a value below ten.
pub open spec fn spec_digit_char(d: int) -> char {
    if d == 0 {
        '0'
    } else if d == 1 {
        '1'
    } else if d == 2 {
        '2'
    } else if d == 3 {
        '3'
    } else if d == 4 {
        '4'
    } else if d == 5 {
        '5'
    } else if d == 6 {
        '6'
    } else if d == 7 {
        '7'
    } else if d == 8 {
        '8'
    } else {
        '9'
    }
}

/// The usual decimal rendering of a natural number, no sign and no
/// leading zero except for the number zero itself.
pub open spec fn spec_decimal(n: nat) -> Seq<char>
    decreases n,
{
    if n < 10 {
        seq![spec_digit_char(n as int)]
    } else {
        spec_decimal(n / 10) + seq![spec_digit_char((n % 10) as int)]
    }
}

fn digit_str(d: u64) -> (s: &'static str)
    requires
        d < 10,
    ensures
        s@ == seq![spec_digit_char(d as int)],
{
    let s: &'static str = if d == 0 {
        "0"
    } else if d == 1 {
        "1"
    } else if d == 2 {
        "2"
    } else if d == 3 {
        "3"
    } else if d == 4 {
        "4"
    } else if d == 5 {
        "5"
    } else if d == 6 {
        "6"
    } else if d == 7 {
        "7"
    } else if d == 8 {
        "8"
    } else {
        "9"
    };
    proof {
        reveal_strlit("0");
        reveal_strlit("1");
        reveal_strlit("2");
        reveal_strlit("3");
        reveal_strlit("4");
        reveal_strlit("5");
        reveal_strlit("6");
        reveal_strlit("7");
        reveal_strlit("8");
        reveal_strlit("9");
        assert(s@ =~= seq![spec_digit_char(d as int)]);
    }
    s
}

/// Renders a number in decimal.
pub fn decimal_string(n: u64) -> (s: String)
    ensures
        s@ == spec_decimal(n as nat),
    decreases n,
{
    if n < 10 {
        digit_str(n).to_owned()
    } else {
        let mut s = decimal_string(n / 10);
        s.append(digit_str(n % 10));
        proof {
            assert(s@ =~= spec_decimal(n as nat));
        }
        s
    }
}

/// The request handed to the judgment service for one agent and one
/// statement: the agent's number and label, the statement text, and the
/// instruction to answer with "yes" or "no".
pub open spec fn spec_prompt(agent_number: nat, label: Seq<char>, text: Seq<char>) -> Seq<char> {
    "Agent "@ + spec_decimal(agent_number) + " ("@ + label
        + ") is validating the following transaction: '"@ + text
        + "'. Is it valid? Respond with 'yes' or 'no'.\n"@
}

/// Builds the judgment request for one agent.
pub fn build_prompt(agent_number: u64, agent_label_text: &str, statement_text: &str) -> (p: String)
    ensures
        p@ == spec_prompt(agent_number as nat, agent_label_text@, statement_text@),
{
    let mut p = "Agent ".to_owned();
    let num = decimal_string(agent_number);
    p.append(num.as_str());
    p.append(" (");
    p.append(agent_label_text);
    p.append(") is validating the following transaction: '");
    p.append(statement_text);
    p.append("'. Is it valid? Respond with 'yes' or 'no'.\n");
    proof {
        assert(p@ =~= spec_prompt(agent_number as nat, agent_label_text@, statement_text@));
    }
    p
}

/// Whether a judgment outcome counts as an approving vote: it must be an
/// answer, and the answer must affirm.
pub open spec fn outcome_approves(o: JudgmentOutcome) -> bool {
    o matches JudgmentOutcome::Answer(a) && is_affirmative(a@)
}

/// Turns the outcome of one agent's judgment call into that agent's vote.
///
/// An answer always yields a vote: it approves exactly when it carries the
/// affirmative marker, so an empty, truncated or malformed answer reads as
/// a refusal rather than an error. Only a structured service failure makes
/// the call fail, carrying the service's own message.
pub fn validate(agent_index: usize, agent_label_text: String, outcome: JudgmentOutcome) -> (r:
    Result<Vote, PipelineError>)
    ensures
        match outcome {
            JudgmentOutcome::Answer(_) => {
                &&& r matches Ok(v)
                &&& v.agent_index == agent_index
                &&& v.agent_label == agent_label_text
                &&& v.approved == outcome_approves(outcome)
            },
            JudgmentOutcome::ServiceFailure(m) => r matches Err(
                PipelineError::ExternalService(e),
            ) && e == m,
        },
{
    match outcome {
        JudgmentOutcome::Answer(answer) => {
            let approved = answer_is_affirmative(answer.as_str());
            Ok(Vote { agent_index, agent_label: agent_label_text, approved })
        },
        JudgmentOutcome::ServiceFailure(message) => Err(PipelineError::ExternalService(message)),
    }
}

} // verus!
