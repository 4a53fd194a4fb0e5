//! Properties of the relay that span its parts.
use vstd::prelude::*;
use crate::json::{decimal, json_string_of};
use crate::payload::{
    json_key, max_tokens_choice, messages_text, model_choice, system_member, temperature_choice,
    GenerateRequest, RelayConfig,
};
use crate::relay::request_payload;

verus! {

/// Whether `t` occurs in `s` as a contiguous run.
pub open spec fn contains(s: Seq<char>, t: Seq<char>) -> bool {
    exists|i: int| 0 <= i <= s.len() - t.len() && #[trigger] s.subrange(i, i + t.len()) == t
}

/// A run occurs in any text that ends with it.
pub proof fn lemma_contains_suffix(a: Seq<char>, t: Seq<char>)
    ensures
        contains(a + t, t),
{
    assert((a + t).subrange(a.len() as int, (a.len() + t.len()) as int) =~= t);
}

/// A run that occurs in a text occurs in that text extended on the right.
pub proof fn lemma_contains_extend(s: Seq<char>, t: Seq<char>, b: Seq<char>)
    requires
        contains(s, t),
    ensures
        contains(s + b, t),
{
    let i = choose|i: int| 0 <= i <= s.len() - t.len() && #[trigger] s.subrange(i, i + t.len()) == t;
    assert((s + b).subrange(i, i + t.len()) =~= s.subrange(i, i + t.len()));
}

/// Every payload the relay can send names its model, token limit,
/// temperature and messages, whatever the request left out: the left-out
/// fields are filled before the payload is written.
pub proof fn law_payload_names_every_field(req: GenerateRequest, c: RelayConfig)
    ensures
        contains(request_payload(req, c), json_key("model"@)),
        contains(request_payload(req, c), json_key("max_tokens"@)),
        contains(request_payload(req, c), json_key("temperature"@)),
        contains(request_payload(req, c), json_key("messages"@)),
{
    let model_q = json_string_of(model_choice(req, c));
    let d = decimal(max_tokens_choice(req, c) as nat);
    let t = temperature_choice(req, c);
    let m = messages_text(json_string_of(req.prompt@));
    let y = system_member(
        match req.system {
            Some(x) => Some(json_string_of(x@)),
            None => None,
        },
    );
    let k_tokens = json_key("max_tokens"@);
    let k_messages = json_key("messages"@);
    let k_model = json_key("model"@);
    let k_temp = json_key("temperature"@);
    let p1 = "{"@ + k_tokens;
    let p2 = p1 + d;
    let p3 = p2 + ","@;
    let p4 = p3 + k_messages;
    let p5 = p4 + m;
    let p6 = p5 + ","@;
    let p7 = p6 + k_model;
    let p8 = p7 + model_q;
    let p9 = p8 + y;
    let p10 = p9 + ","@;
    let p11 = p10 + k_temp;
    let p12 = p11 + t;
    let s = p12 + "}"@;
    assert(s == request_payload(req, c));

    lemma_contains_suffix("{"@, k_tokens);
    lemma_contains_extend(p1, k_tokens, d);
    lemma_contains_extend(p2, k_tokens, ","@);
    lemma_contains_extend(p3, k_tokens, k_messages);
    lemma_contains_suffix(p3, k_messages);
    lemma_contains_extend(p4, k_tokens, m);
    lemma_contains_extend(p4, k_messages, m);
    lemma_contains_extend(p5, k_tokens, ","@);
    lemma_contains_extend(p5, k_messages, ","@);
    lemma_contains_extend(p6, k_tokens, k_model);
    lemma_contains_extend(p6, k_messages, k_model);
    lemma_contains_suffix(p6, k_model);
    lemma_contains_extend(p7, k_tokens, model_q);
    lemma_contains_extend(p7, k_messages, model_q);
    lemma_contains_extend(p7, k_model, model_q);
    lemma_contains_extend(p8, k_tokens, y);
    lemma_contains_extend(p8, k_messages, y);
    lemma_contains_extend(p8, k_model, y);
    lemma_contains_extend(p9, k_tokens, ","@);
    lemma_contains_extend(p9, k_messages, ","@);
    lemma_contains_extend(p9, k_model, ","@);
    lemma_contains_extend(p10, k_tokens, k_temp);
    lemma_contains_extend(p10, k_messages, k_temp);
    lemma_contains_extend(p10, k_model, k_temp);
    lemma_contains_suffix(p10, k_temp);
    lemma_contains_extend(p11, k_tokens, t);
    lemma_contains_extend(p11, k_messages, t);
    lemma_contains_extend(p11, k_model, t);
    lemma_contains_extend(p11, k_temp, t);
    lemma_contains_extend(p12, k_tokens, "}"@);
    lemma_contains_extend(p12, k_messages, "}"@);
    lemma_contains_extend(p12, k_model, "}"@);
    lemma_contains_extend(p12, k_temp, "}"@);
}

} // verus!
