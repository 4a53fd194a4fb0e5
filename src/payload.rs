//! The generation request, the relay's configuration, and the JSON payload
//! sent to the provider.
use vstd::prelude::*;
use crate::json::{decimal, json_string_of, push_decimal, quote};

verus! {

/// An inbound generation request. `temperature` is the JSON number text the
/// caller sent.
#[derive(Clone, Debug)]
pub struct GenerateRequest {
    pub prompt: String,
    pub model: Option<String>,
    pub max_tokens: Option<u32>,
    pub temperature: Option<String>,
    pub system: Option<String>,
}

/// How a relay is set up: the provider key, if any, and the values that fill
/// the optional fields a request leaves out.
#[derive(Clone, Debug)]
pub struct RelayConfig {
    pub api_key: Option<String>,
    pub default_model: String,
    pub default_max_tokens: u32,
    pub default_temperature: String,
}

/// The texts of an optional text.
pub open spec fn opt_view(o: Option<String>) -> Option<Seq<char>> {
    match o {
        Some(s) => Some(s@),
        None => None,
    }
}

/// The key a relay sends upstream: a configured key that is not empty.
pub open spec fn usable_key(c: RelayConfig) -> Option<Seq<char>> {
    match c.api_key {
        Some(k) => if k@.len() > 0 {
            Some(k@)
        } else {
            None
        },
        None => None,
    }
}

impl RelayConfig {
    /// The setup of the per-request deployment, with the model that serves
    /// requests that name none.
    pub fn serverless(api_key: Option<String>, default_model: String) -> (r: RelayConfig)
        ensures
            opt_view(r.api_key) == opt_view(api_key),
            r.default_model@ == default_model@,
            r.default_max_tokens == 4096,
            r.default_temperature@ == "1.0"@,
    {
        RelayConfig {
            api_key,
            default_model,
            default_max_tokens: 4096,
            default_temperature: String::from_str("1.0"),
        }
    }

    /// The setup of the long-running server, with the model that serves
    /// requests that name none.
    pub fn server(api_key: Option<String>, default_model: String) -> (r: RelayConfig)
        ensures
            opt_view(r.api_key) == opt_view(api_key),
            r.default_model@ == default_model@,
            r.default_max_tokens == 2048,
            r.default_temperature@ == "1.0"@,
    {
        RelayConfig {
            api_key,
            default_model,
            default_max_tokens: 2048,
            default_temperature: String::from_str("1.0"),
        }
    }

    /// The key to send upstream, if one is configured and not empty.
    pub fn key(&self) -> (r: Option<&String>)
        ensures
            match r {
                Some(k) => usable_key(*self) == Some(k@),
                None => usable_key(*self) is None,
            },
    {
        match &self.api_key {
            Some(k) => if k.as_str().unicode_len() > 0 {
                Some(k)
            } else {
                None
            },
            None => None,
        }
    }
}

/// The payload sent to the provider, with every optional field filled.
#[derive(Clone, Debug)]
pub struct ProviderMessage {
    pub model: String,
    pub max_tokens: u32,
    pub temperature: String,
    pub prompt: String,
    pub system: Option<String>,
}

/// The model that relays `req` under `c`.
pub open spec fn model_choice(req: GenerateRequest, c: RelayConfig) -> Seq<char> {
    match req.model {
        Some(x) => x@,
        None => c.default_model@,
    }
}

/// The token limit that relays `req` under `c`.
pub open spec fn max_tokens_choice(req: GenerateRequest, c: RelayConfig) -> u32 {
    match req.max_tokens {
        Some(n) => n,
        None => c.default_max_tokens,
    }
}

/// The temperature that relays `req` under `c`.
pub open spec fn temperature_choice(req: GenerateRequest, c: RelayConfig) -> Seq<char> {
    match req.temperature {
        Some(t) => t@,
        None => c.default_temperature@,
    }
}

/// The provider message for `req` under `c`: the request's fields where given,
/// the configured defaults where not.
pub open spec fn fills(m: ProviderMessage, req: GenerateRequest, c: RelayConfig) -> bool {
    &&& m.model@ == model_choice(req, c)
    &&& m.max_tokens == max_tokens_choice(req, c)
    &&& m.temperature@ == temperature_choice(req, c)
    &&& m.prompt@ == req.prompt@
    &&& opt_view(m.system) == opt_view(req.system)
}

/// Builds the provider message for `req`, filling what it leaves out from `config`.
pub fn provider_message(req: GenerateRequest, config: &RelayConfig) -> (m: ProviderMessage)
    ensures
        fills(m, req, *config),
{
    let model = match req.model {
        Some(x) => x,
        None => config.default_model.clone(),
    };
    let max_tokens = match req.max_tokens {
        Some(n) => n,
        None => config.default_max_tokens,
    };
    let temperature = match req.temperature {
        Some(t) => t,
        None => config.default_temperature.clone(),
    };
    ProviderMessage { model, max_tokens, temperature, prompt: req.prompt, system: req.system }
}

/// A JSON object key, quoted and followed by its colon.
pub open spec fn json_key(name: Seq<char>) -> Seq<char> {
    "\""@ + name + "\":"@
}

/// The `messages` value: one user entry holding one text block, `prompt_q`
/// being the prompt as a JSON string.
pub open spec fn messages_text(prompt_q: Seq<char>) -> Seq<char> {
    "[{\"content\":[{\"text\":"@ + prompt_q + ",\"type\":\"text\"}],\"role\":\"user\"}]"@
}

/// The optional `system` member, with its leading comma.
pub open spec fn system_member(system_q: Option<Seq<char>>) -> Seq<char> {
    match system_q {
        Some(q) => ","@ + json_key("system"@) + q,
        None => Seq::empty(),
    }
}

/// The JSON text of the provider payload, members in key order, from the
/// model, prompt and system prompt already written as JSON strings and the
/// temperature as a JSON number.
pub open spec fn payload_text(
    model_q: Seq<char>,
    max_tokens: u32,
    temperature: Seq<char>,
    prompt_q: Seq<char>,
    system_q: Option<Seq<char>>,
) -> Seq<char> {
    "{"@ + json_key("max_tokens"@) + decimal(max_tokens as nat) + ","@ + json_key("messages"@)
        + messages_text(prompt_q) + ","@ + json_key("model"@) + model_q + system_member(system_q)
        + ","@ + json_key("temperature"@) + temperature + "}"@
}

/// The JSON text of the payload for message `m`.
pub open spec fn message_text(m: ProviderMessage) -> Seq<char> {
    payload_text(
        json_string_of(m.model@),
        m.max_tokens,
        m.temperature@,
        json_string_of(m.prompt@),
        match m.system {
            Some(s) => Some(json_string_of(s@)),
            None => None,
        },
    )
}

/// Writes the provider payload from its parts: the model, prompt and system
/// prompt as JSON strings, the temperature as a JSON number.
pub fn frame_payload(
    model_q: &str,
    max_tokens: u32,
    temperature: &str,
    prompt_q: &str,
    system_q: Option<&str>,
) -> (r: String)
    ensures
        r@ == payload_text(
            model_q@,
            max_tokens,
            temperature@,
            prompt_q@,
            match system_q {
                Some(q) => Some(q@),
                None => None,
            },
        ),
{
    let mut s = String::from_str("{\"max_tokens\":");
    push_decimal(&mut s, max_tokens);
    s.append(",\"messages\":[{\"content\":[{\"text\":");
    s.append(prompt_q);
    s.append(",\"type\":\"text\"}],\"role\":\"user\"}],\"model\":");
    s.append(model_q);
    match system_q {
        Some(q) => {
            s.append(",\"system\":");
            s.append(q);
        },
        None => {},
    }
    s.append(",\"temperature\":");
    s.append(temperature);
    s.append("}");
    proof {
        reveal_strlit("{\"max_tokens\":");
        reveal_strlit(",\"messages\":[{\"content\":[{\"text\":");
        reveal_strlit(",\"type\":\"text\"}],\"role\":\"user\"}],\"model\":");
        reveal_strlit(",\"system\":");
        reveal_strlit(",\"temperature\":");
        reveal_strlit("{");
        reveal_strlit(",");
        reveal_strlit("\"");
        reveal_strlit("\":");
        reveal_strlit("max_tokens");
        reveal_strlit("messages");
        reveal_strlit("model");
        reveal_strlit("system");
        reveal_strlit("temperature");
        reveal_strlit("[{\"content\":[{\"text\":");
        reveal_strlit(",\"type\":\"text\"}],\"role\":\"user\"}]");
    }
    assert(s@ =~= payload_text(
        model_q@,
        max_tokens,
        temperature@,
        prompt_q@,
        match system_q {
            Some(q) => Some(q@),
            None => None,
        },
    ));
    s
}

/// Writes the JSON payload for `m`.
pub fn encode_message(m: &ProviderMessage) -> (r: String)
    ensures
        r@ == message_text(*m),
{
    let model_q = quote(m.model.as_str()).unwrap();
    let prompt_q = quote(m.prompt.as_str()).unwrap();
    let system_q = match &m.system {
        Some(sys) => Some(quote(sys.as_str()).unwrap()),
        None => None,
    };
    let body = match &system_q {
        Some(q) => frame_payload(
            model_q.as_str(),
            m.max_tokens,
            m.temperature.as_str(),
            prompt_q.as_str(),
            Some(q.as_str()),
        ),
        None => frame_payload(
            model_q.as_str(),
            m.max_tokens,
            m.temperature.as_str(),
            prompt_q.as_str(),
            None,
        ),
    };
    body
}

} // verus!
