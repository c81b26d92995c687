//! Mixture of agents: the agents of an ensemble, the prompt each is given,
//! the stand-in answer each gives, the prompt that asks for a synthesis of
//! their answers, and the tokens the answers took. Weighing the answers'
//! confidences happens at the caller.

use vstd::prelude::*;
use crate::text::{decimal, owned, push_str, replace_all, replace_str, u64_to_decimal, utf8_len};

verus! {

/// An agent of the ensemble.
pub struct MoAAgent {
    pub name: String,
    pub model: String,
    pub provider: Option<String>,
    pub role: String,
    pub prompt_template: Option<String>,
}

/// The prompt an agent is given: its template with `{prompt}` filled in,
/// else its name and role before the prompt.
pub open spec fn agent_prompt_text(a: MoAAgent, prompt: Seq<char>) -> Seq<char> {
    match a.prompt_template {
        Some(t) => replace_all(t@, "{prompt}"@, prompt),
        None => "You are "@ + a.name@ + ". "@ + a.role@ + ":\n\n"@ + prompt,
    }
}

/// The prompt an agent is given.
pub fn agent_prompt(agent: &MoAAgent, prompt: &str) -> (r: String)
    ensures
        r@ == agent_prompt_text(*agent, prompt@),
{
    proof {
        reveal_strlit("{prompt}");
    }
    match &agent.prompt_template {
        Some(t) => replace_str(t.as_str(), "{prompt}", prompt),
        None => {
            let mut s = owned("You are ");
            push_str(&mut s, agent.name.as_str());
            push_str(&mut s, ". ");
            push_str(&mut s, agent.role.as_str());
            push_str(&mut s, ":\n\n");
            push_str(&mut s, prompt);
            s
        },
    }
}

/// The answer an agent stands in with: its name and the first 50
/// characters of the prompt.
pub fn stand_in_answer(agent: &MoAAgent, prompt: &str) -> (r: String)
    ensures
        r@ == "["@ + agent.name@ + "] Response to: "@ + (if prompt@.len() > 50 {
            prompt@.subrange(0, 50)
        } else {
            prompt@
        }),
{
    let v = crate::text::chars_of(prompt);
    let m: usize = if v.len() > 50 { 50 } else { v.len() };
    let mut out: Vec<char> = Vec::new();
    let mut i: usize = 0;
    while i < m
        invariant
            i <= m <= v@.len(),
            out@ == v@.subrange(0, i as int),
        decreases m - i,
    {
        out.push(v[i]);
        i = i + 1;
    }
    if v.len() <= 50 {
        assert(v@.subrange(0, m as int) =~= v@);
    }
    let mut s = owned("[");
    push_str(&mut s, agent.name.as_str());
    push_str(&mut s, "] Response to: ");
    let t = crate::text::string_of(out.as_slice());
    push_str(&mut s, t.as_str());
    s
}

/// The blocks of the first `n` answers, numbered from 1.
pub open spec fn answer_blocks(answers: Seq<(String, String)>, n: int) -> Seq<char>
    decreases n,
{
    if n <= 0 {
        Seq::empty()
    } else {
        answer_blocks(answers, n - 1) + "[Agent "@ + decimal(n as nat) + " - "@ + answers[n - 1].0@ + "]:\n"@
            + answers[n - 1].1@ + "\n\n"@
    }
}

/// The prompt that asks for a synthesis of the answers (agent name,
/// answer) to the original question.
pub fn aggregation_prompt(original: &str, answers: &[(String, String)]) -> (r: String)
    ensures
        r@ == "Original question: "@ + original@ + "\n\nResponses from different agents:\n\n"@ + answer_blocks(
            answers@,
            answers@.len() as int,
        ) + "\nSynthesize the best aspects of each response into a comprehensive answer."@,
{
    let mut s = owned("Original question: ");
    push_str(&mut s, original);
    push_str(&mut s, "\n\nResponses from different agents:\n\n");
    let ghost head = s@;
    let mut i: usize = 0;
    while i < answers.len()
        invariant
            i <= answers@.len(),
            s@ == head + answer_blocks(answers@, i as int),
        decreases answers.len() - i,
    {
        push_str(&mut s, "[Agent ");
        let d = u64_to_decimal((i + 1) as u64);
        push_str(&mut s, d.as_str());
        push_str(&mut s, " - ");
        push_str(&mut s, answers[i].0.as_str());
        push_str(&mut s, "]:\n");
        push_str(&mut s, answers[i].1.as_str());
        push_str(&mut s, "\n\n");
        i = i + 1;
    }
    push_str(&mut s, "\nSynthesize the best aspects of each response into a comprehensive answer.");
    s
}

/// The tokens of answers: a quarter of each answer's bytes, summed.
pub open spec fn answer_tokens(answers: Seq<String>) -> int
    decreases answers.len(),
{
    if answers.len() == 0 {
        0
    } else {
        answer_tokens(answers.drop_last()) + utf8_len(answers.last()@) / 4
    }
}

/// The tokens the answers took.
pub fn tokens_used(answers: &[String]) -> (n: usize)
    requires
        answer_tokens(answers@) <= usize::MAX,
    ensures
        n == answer_tokens(answers@),
{
    let mut n: usize = 0;
    let mut i: usize = 0;
    while i < answers.len()
        invariant
            i <= answers@.len(),
            answer_tokens(answers@) <= usize::MAX,
            n == answer_tokens(answers@.subrange(0, i as int)),
        decreases answers.len() - i,
    {
        proof {
            let pre = answers@.subrange(0, i + 1);
            assert(pre.drop_last() =~= answers@.subrange(0, i as int));
            lemma_tokens_prefix(answers@, i + 1);
        }
        n = n + crate::text::byte_len(answers[i].as_str()) / 4;
        i = i + 1;
    }
    assert(answers@.subrange(0, answers@.len() as int) =~= answers@);
    n
}

proof fn lemma_tokens_prefix(a: Seq<String>, k: int)
    requires
        0 <= k <= a.len(),
    ensures
        answer_tokens(a.subrange(0, k)) <= answer_tokens(a),
    decreases a.len() - k,
{
    if k < a.len() {
        lemma_tokens_prefix(a, k + 1);
        assert(a.subrange(0, k + 1).drop_last() =~= a.subrange(0, k));
    } else {
        assert(a.subrange(0, k) =~= a);
    }
}

} // verus!
