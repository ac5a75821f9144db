use vstd::prelude::*;

verus! {

/// The instructions for the grounding model, with the user's request quoted
/// verbatim between them.
pub open spec fn grounding_prompt(user_request: Seq<char>) -> Seq<char> {
    "You are a UI grounding model.\nGiven this screenshot, locate the UI element matching this instruction:\n\""@
        + user_request
        + "\"\n\nReturn only valid JSON with this exact shape:\n{\"action\":\"click\",\"x\":number,\"y\":number,\"confidence\":number}\n\nRules:\n- Coordinates must be image pixel coordinates from the top-left corner.\n- Click the center of the target, not an edge or label.\n- Do not include markdown, explanation, or extra text."@
}

/// The request stands verbatim in the prompt, right after the fixed opening
/// that ends in a quote, and the rest of the prompt is the same whatever the
/// request; so different requests give different prompts.
pub proof fn lemma_prompt_quotes_request(a: Seq<char>, b: Seq<char>)
    ensures
        ({
            let opening = "You are a UI grounding model.\nGiven this screenshot, locate the UI element matching this instruction:\n\""@;
            let p = grounding_prompt(a);
            &&& p.len() == grounding_prompt(Seq::empty()).len() + a.len()
            &&& p.subrange(0, opening.len() as int) == opening
            &&& p.subrange(opening.len() as int, (opening.len() + a.len()) as int) == a
            &&& p.skip((opening.len() + a.len()) as int) == grounding_prompt(Seq::empty()).skip(
                opening.len() as int,
            )
        }),
        grounding_prompt(a) == grounding_prompt(b) ==> a == b,
{
    let opening = "You are a UI grounding model.\nGiven this screenshot, locate the UI element matching this instruction:\n\""@;
    let closing = "\"\n\nReturn only valid JSON with this exact shape:\n{\"action\":\"click\",\"x\":number,\"y\":number,\"confidence\":number}\n\nRules:\n- Coordinates must be image pixel coordinates from the top-left corner.\n- Click the center of the target, not an edge or label.\n- Do not include markdown, explanation, or extra text."@;
    let p = grounding_prompt(a);
    let q = grounding_prompt(b);
    let e = grounding_prompt(Seq::empty());
    assert(p =~= opening + a + closing);
    assert(q =~= opening + b + closing);
    assert(e =~= opening + closing);
    assert(p.subrange(0, opening.len() as int) =~= opening);
    assert(p.subrange(opening.len() as int, (opening.len() + a.len()) as int) =~= a);
    assert(p.skip((opening.len() + a.len()) as int) =~= closing);
    assert(e.skip(opening.len() as int) =~= closing);
    if p == q {
        assert(a.len() == b.len());
        assert(q.subrange(opening.len() as int, (opening.len() + b.len()) as int) =~= b);
    }
}

/// The system prompt that asks the grounding model to locate the element
/// described by `user_request`.
pub fn system(user_request: &str) -> (prompt: String)
    ensures
        prompt@ == grounding_prompt(user_request@),
{
    let mut prompt = String::from_str(
        "You are a UI grounding model.\nGiven this screenshot, locate the UI element matching this instruction:\n\"",
    );
    prompt.append(user_request);
    prompt.append(
        "\"\n\nReturn only valid JSON with this exact shape:\n{\"action\":\"click\",\"x\":number,\"y\":number,\"confidence\":number}\n\nRules:\n- Coordinates must be image pixel coordinates from the top-left corner.\n- Click the center of the target, not an edge or label.\n- Do not include markdown, explanation, or extra text.",
    );
    prompt
}

} // verus!
