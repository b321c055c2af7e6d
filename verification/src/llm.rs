//! Language-model client settings, request framing and the fallback summarizer.

use vstd::prelude::*;
use crate::config::{
    clone_setting, get_setting, seq_or, setting_of, text_of, text_or, AppConfig,
};
use crate::encode::{json_quoted, json_string};
use crate::text::{
    collapse_whitespace, collapse_ws, decimal, decimal_string, is_ws,
    law_collapse_keeps_non_ws, lemma_collapse_is_collapsed, lemma_collapse_of_single_spaced,
    lemma_non_ws_chars_add, non_ws_chars, spaces_single,
    string_from_prefix,
};

verus! {

/// The chat-completion service a client talks to.
#[derive(Clone, Copy, Debug, PartialEq, Eq, Structural)]
pub enum Provider {
    Groq,
    Glm,
}

/// The environment settings that choose and configure the language model.
/// Each field is `None` when the variable is unset.
pub struct LlmEnv {
    pub glm_api_key: Option<String>,
    pub glm_model: Option<String>,
    pub glm_base_url: Option<String>,
    pub groq_api_key: Option<String>,
    pub groq_model: Option<String>,
}

/// A configured chat-completion endpoint.
pub struct LlmClient {
    pub api_key: String,
    pub model: String,
    pub base_url: String,
    pub provider: Provider,
}

/// Why a summary could not be had from the model.
#[derive(Clone, Copy, Debug, PartialEq, Eq, Structural)]
pub enum LlmError {
    /// The request failed or the service answered with an error status.
    Request,
    /// The reply body was not JSON.
    MalformedReply,
    /// The reply held no `choices[0].message.content` string.
    UnexpectedResponseShape,
}

/// Default model for the GLM service.
pub open spec fn glm_default_model() -> Seq<char> {
    "glm-5"@
}

/// Default endpoint of the GLM service.
pub open spec fn glm_default_base_url() -> Seq<char> {
    "https://open.bigmodel.cn/api/paas/v4/chat/completions"@
}

/// Default model for the Groq service.
pub open spec fn groq_default_model() -> Seq<char> {
    "llama3-8b-8192"@
}

/// Endpoint of the Groq service.
pub open spec fn groq_base_url() -> Seq<char> {
    "https://api.groq.com/openai/v1/chat/completions"@
}

fn string_or(opt: &Option<String>, default: &str) -> (res: String)
    ensures
        res@ == text_or(*opt, default@),
{
    match opt {
        Some(s) => s.clone(),
        None => String::from_str(default),
    }
}

/// The five values that choose and configure the model, by their
/// characters: GLM key, GLM model, GLM endpoint, Groq key, Groq model.
pub type LlmChoice = (
    Option<Seq<char>>,
    Option<Seq<char>>,
    Option<Seq<char>>,
    Option<Seq<char>>,
    Option<Seq<char>>,
);

/// `env` by its characters.
pub open spec fn env_choice(env: LlmEnv) -> LlmChoice {
    (
        text_of(env.glm_api_key),
        text_of(env.glm_model),
        text_of(env.glm_base_url),
        text_of(env.groq_api_key),
        text_of(env.groq_model),
    )
}

/// The stored value when there is one, otherwise the environment's.
pub open spec fn stored_first(stored: Option<Seq<char>>, env: Option<Seq<char>>) -> Option<Seq<char>> {
    match stored {
        Some(s) => Some(s),
        None => env,
    }
}

/// The values that choose the model when the settings `cfg` and the
/// environment `env` are both consulted: for each value, the stored one
/// first, then the environment's.
pub open spec fn settings_choice(cfg: AppConfig, env: LlmEnv) -> LlmChoice {
    (
        stored_first(setting_of(cfg, "GLM_API_KEY"@), text_of(env.glm_api_key)),
        stored_first(setting_of(cfg, "GLM_MODEL"@), text_of(env.glm_model)),
        stored_first(setting_of(cfg, "GLM_BASE_URL"@), text_of(env.glm_base_url)),
        stored_first(setting_of(cfg, "GROQ_API_KEY"@), text_of(env.groq_api_key)),
        stored_first(setting_of(cfg, "GROQ_MODEL"@), text_of(env.groq_model)),
    )
}

/// `res` is the client that the values `v` configure: GLM when its key is
/// set, otherwise Groq when its key is set, otherwise none.
pub open spec fn client_for(v: LlmChoice, res: Option<LlmClient>) -> bool {
    match v.0 {
        Some(key) => res matches Some(c) && c.provider == Provider::Glm && c.api_key@ == key
            && c.model@ == seq_or(v.1, glm_default_model()) && c.base_url@ == seq_or(
            v.2,
            glm_default_base_url(),
        ),
        None => match v.3 {
            Some(key) => res matches Some(c) && c.provider == Provider::Groq && c.api_key@ == key
                && c.model@ == seq_or(v.4, groq_default_model()) && c.base_url@
                == groq_base_url(),
            None => res is None,
        },
    }
}

/// `res` is the client that the environment `env` alone configures.
pub open spec fn client_from_env(env: LlmEnv, res: Option<LlmClient>) -> bool {
    client_for(env_choice(env), res)
}

/// `res` is the client that the stored settings `cfg` and the environment
/// `env` configure, stored values taking precedence.
pub open spec fn client_from_settings(cfg: AppConfig, env: LlmEnv, res: Option<LlmClient>) -> bool {
    client_for(settings_choice(cfg, env), res)
}

fn stored_or_env(stored: Option<String>, env: &Option<String>) -> (res: Option<String>)
    ensures
        text_of(res) == stored_first(text_of(stored), text_of(*env)),
{
    match stored {
        Some(s) => Some(s),
        None => clone_setting(env),
    }
}

impl LlmEnv {
    /// The settings to choose the model from: each value taken from the
    /// stored settings `cfg` when it is set there, otherwise from `self`.
    pub fn with_stored(&self, cfg: &AppConfig) -> (res: LlmEnv)
        ensures
            env_choice(res) == settings_choice(*cfg, *self),
    {
        LlmEnv {
            glm_api_key: stored_or_env(get_setting(cfg, "GLM_API_KEY"), &self.glm_api_key),
            glm_model: stored_or_env(get_setting(cfg, "GLM_MODEL"), &self.glm_model),
            glm_base_url: stored_or_env(get_setting(cfg, "GLM_BASE_URL"), &self.glm_base_url),
            groq_api_key: stored_or_env(get_setting(cfg, "GROQ_API_KEY"), &self.groq_api_key),
            groq_model: stored_or_env(get_setting(cfg, "GROQ_MODEL"), &self.groq_model),
        }
    }
}

impl LlmClient {
    /// Picks the model service from the environment: GLM when its key is set,
    /// otherwise Groq when its key is set, otherwise none.
    pub fn from_env(env: &LlmEnv) -> (res: Option<LlmClient>)
        ensures
            client_from_env(*env, res),
    {
        if let Some(key) = &env.glm_api_key {
            return Some(
                LlmClient {
                    api_key: key.clone(),
                    model: string_or(&env.glm_model, "glm-5"),
                    base_url: string_or(
                        &env.glm_base_url,
                        "https://open.bigmodel.cn/api/paas/v4/chat/completions",
                    ),
                    provider: Provider::Glm,
                },
            );
        }
        if let Some(key) = &env.groq_api_key {
            return Some(
                LlmClient {
                    api_key: key.clone(),
                    model: string_or(&env.groq_model, "llama3-8b-8192"),
                    base_url: String::from_str("https://api.groq.com/openai/v1/chat/completions"),
                    provider: Provider::Groq,
                },
            );
        }
        None
    }

    /// Picks the model service from the stored settings and the
    /// environment, each value taken from the stored settings first: GLM
    /// when a GLM key is set in either, otherwise Groq when a Groq key is,
    /// otherwise none.
    pub fn from_settings(cfg: &AppConfig, env: &LlmEnv) -> (res: Option<LlmClient>)
        ensures
            client_from_settings(*cfg, *env, res),
    {
        let merged = env.with_stored(cfg);
        LlmClient::from_env(&merged)
    }
}

/// The JSON body of a chat-completion request for `prompt`, with the keys in
/// the order that `serde_json` writes an object built by `json!`.
pub open spec fn request_body_of(model: Seq<char>, prompt: Seq<char>, max_tokens: nat) -> Seq<char> {
    "{\"max_tokens\":"@ + decimal(max_tokens) + ",\"messages\":[{\"content\":"@ + json_quoted(prompt)
        + ",\"role\":\"user\"}],\"model\":"@ + json_quoted(model) + ",\"temperature\":0.0}"@
}

impl LlmClient {
    /// The `Authorization` header value: a bearer token, for either provider.
    pub fn authorization(&self) -> (res: String)
        ensures
            res@ == "Bearer "@ + self.api_key@,
    {
        let mut out = String::from_str("Bearer ");
        out.append(self.api_key.as_str());
        out
    }

    /// The JSON body asking the model to answer `prompt` in at most
    /// `max_tokens` tokens, deterministically (temperature zero).
    pub fn request_body(&self, prompt: &str, max_tokens: usize) -> (res: String)
        ensures
            res@ == request_body_of(self.model@, prompt@, max_tokens as nat),
    {
        let mut out = String::from_str("{\"max_tokens\":");
        let n = decimal_string(max_tokens);
        out.append(n.as_str());
        out.append(",\"messages\":[{\"content\":");
        let p = json_string(prompt);
        out.append(p.as_str());
        out.append(",\"role\":\"user\"}],\"model\":");
        let m = json_string(self.model.as_str());
        out.append(m.as_str());
        out.append(",\"temperature\":0.0}");
        out
    }
}

/// What a reply body holds: `None` when it is not JSON, otherwise the string
/// at `choices[0].message.content`, if there is one.
pub uninterp spec fn reply_content_of(body: Seq<u8>) -> Option<Option<Seq<char>>>;

/// `parsed` taken by its characters.
pub open spec fn reply_text(parsed: Option<Option<String>>) -> Option<Option<Seq<char>>> {
    match parsed {
        Some(Some(s)) => Some(Some(s@)),
        Some(None) => Some(None),
        None => None,
    }
}

/// `serde_json::from_slice::<serde_json::Value>` on a reply body, then the
/// string at `choices[0].message.content` (`Value` indexing and `as_str`).
/// What the JSON parser accepts takes pages to state, so the result is named.
#[verifier::external_body]
fn reply_content(body: &[u8]) -> (res: Option<Option<String>>)
    ensures
        reply_text(res) == reply_content_of(body@),
{
    match serde_json::from_slice::<serde_json::Value>(body) {
        Ok(v) => Some(v["choices"][0]["message"]["content"].as_str().map(String::from)),
        Err(_) => None,
    }
}

/// The summary carried by a decoded reply (see [`reply_content_of`]).
pub open spec fn summary_of_reply(parsed: Option<Option<Seq<char>>>, res: Result<String, LlmError>) -> bool {
    match parsed {
        Some(Some(c)) => res matches Ok(s) && s@ == c,
        Some(None) => res == Err::<String, LlmError>(LlmError::UnexpectedResponseShape),
        None => res == Err::<String, LlmError>(LlmError::MalformedReply),
    }
}

/// The summary in a decoded reply: its content string, or why there is none.
pub fn summary_from_reply(parsed: Option<Option<String>>) -> (res: Result<String, LlmError>)
    ensures
        summary_of_reply(reply_text(parsed), res),
{
    match parsed {
        Some(Some(c)) => Ok(c),
        Some(None) => Err(LlmError::UnexpectedResponseShape),
        None => Err(LlmError::MalformedReply),
    }
}

/// The summary in the body of a chat-completion reply.
pub fn summary_from_body(body: &[u8]) -> (res: Result<String, LlmError>)
    ensures
        summary_of_reply(reply_content_of(body@), res),
{
    summary_from_reply(reply_content(body))
}

/// Which client the environment alone gives, stated over its variables:
/// GLM when `GLM_API_KEY` is set, with `GLM_MODEL` (default `glm-5`) and
/// `GLM_BASE_URL` (default the bigmodel endpoint); otherwise Groq when
/// `GROQ_API_KEY` is set, with `GROQ_MODEL` (default `llama3-8b-8192`) and
/// always the Groq endpoint, whatever the GLM variables hold; otherwise none.
pub proof fn law_client_from_env(env: LlmEnv, res: Option<LlmClient>)
    requires
        client_from_env(env, res),
    ensures
        match env.glm_api_key {
            Some(k) => res matches Some(c) && c.provider == Provider::Glm && c.api_key@ == k@
                && c.model@ == (match env.glm_model {
                Some(m) => m@,
                None => "glm-5"@,
            }) && c.base_url@ == (match env.glm_base_url {
                Some(u) => u@,
                None => "https://open.bigmodel.cn/api/paas/v4/chat/completions"@,
            }),
            None => match env.groq_api_key {
                Some(k) => res matches Some(c) && c.provider == Provider::Groq && c.api_key@
                    == k@ && c.model@ == (match env.groq_model {
                    Some(m) => m@,
                    None => "llama3-8b-8192"@,
                }) && c.base_url@ == "https://api.groq.com/openai/v1/chat/completions"@,
                None => res is None,
            },
        },
{
}

/// `stored` when it is set, otherwise `env`, by its characters.
pub open spec fn stored_else_env(stored: Option<String>, env: Option<String>) -> Option<Seq<char>> {
    match stored {
        Some(s) => Some(s@),
        None => match env {
            Some(e) => Some(e@),
            None => None,
        },
    }
}

/// Which client the stored settings and the environment give, stated over
/// the stored fields and the variables: each value is the stored one when
/// set, otherwise the variable's. A GLM key gives GLM with the GLM model and
/// endpoint (or their defaults); otherwise a Groq key gives Groq with the
/// Groq model (or `llama3-8b-8192`) and always the Groq endpoint, so the GLM
/// model and endpoint never reach a Groq client; otherwise none.
pub proof fn law_client_from_settings(cfg: AppConfig, env: LlmEnv, res: Option<LlmClient>)
    requires
        client_from_settings(cfg, env, res),
    ensures
        match stored_else_env(cfg.glm_api_key, env.glm_api_key) {
            Some(k) => res matches Some(c) && c.provider == Provider::Glm && c.api_key@ == k
                && c.model@ == (match stored_else_env(cfg.glm_model, env.glm_model) {
                Some(m) => m,
                None => "glm-5"@,
            }) && c.base_url@ == (match stored_else_env(cfg.glm_base_url, env.glm_base_url) {
                Some(u) => u,
                None => "https://open.bigmodel.cn/api/paas/v4/chat/completions"@,
            }),
            None => match stored_else_env(cfg.groq_api_key, env.groq_api_key) {
                Some(k) => res matches Some(c) && c.provider == Provider::Groq && c.api_key@ == k
                    && c.model@ == (match stored_else_env(cfg.groq_model, env.groq_model) {
                    Some(m) => m,
                    None => "llama3-8b-8192"@,
                }) && c.base_url@ == "https://api.groq.com/openai/v1/chat/completions"@,
                None => res is None,
            },
        },
{
    reveal_strlit("GLM_API_KEY");
    reveal_strlit("GLM_MODEL");
    reveal_strlit("GLM_BASE_URL");
    reveal_strlit("BRAVE_API_KEY");
    reveal_strlit("GROQ_API_KEY");
    reveal_strlit("GROQ_MODEL");
    assert("GLM_API_KEY"@.len() == 11);
    assert("GLM_MODEL"@.len() == 9);
    assert("GLM_BASE_URL"@.len() == 12);
    assert("BRAVE_API_KEY"@.len() == 13);
    assert("GROQ_API_KEY"@.len() == 12);
    assert("GROQ_MODEL"@.len() == 10);
    assert("GLM_BASE_URL"@[1] != "GROQ_API_KEY"@[1]);
    assert("GLM_MODEL"@ != "GLM_API_KEY"@);
    assert("GLM_BASE_URL"@ != "GLM_API_KEY"@);
    assert("GLM_BASE_URL"@ != "GLM_MODEL"@);
    assert("GROQ_API_KEY"@ != "GLM_API_KEY"@);
    assert("GROQ_API_KEY"@ != "GLM_MODEL"@);
    assert("GROQ_API_KEY"@ != "GLM_BASE_URL"@);
    assert("GROQ_API_KEY"@ != "BRAVE_API_KEY"@);
    assert("GROQ_MODEL"@ != "GLM_API_KEY"@);
    assert("GROQ_MODEL"@ != "GLM_MODEL"@);
    assert("GROQ_MODEL"@ != "GLM_BASE_URL"@);
    assert("GROQ_MODEL"@ != "BRAVE_API_KEY"@);
    assert("GROQ_MODEL"@ != "GROQ_API_KEY"@);
}

/// `chars().take(n)`: the first `n` characters of `s`, or all of `s` when it is shorter.
pub open spec fn take_chars(s: Seq<char>, n: nat) -> Seq<char> {
    if n < s.len() {
        s.take(n as int)
    } else {
        s
    }
}

/// The summary used when no model answers: the words of `text` joined by
/// single spaces, cut to `max_chars` characters.
pub open spec fn fallback_summary_of(text: Seq<char>, max_chars: nat) -> Seq<char> {
    take_chars(collapse_ws(text), max_chars)
}

/// Joins the whitespace-separated words of `text` by single spaces and keeps
/// at most the first `max_chars` characters.
pub fn fallback_summary(text: &str, max_chars: usize) -> (res: String)
    ensures
        res@ == fallback_summary_of(text@, max_chars as nat),
        res@.len() <= max_chars,
{
    let cleaned = collapse_whitespace(text);
    let n = if max_chars < cleaned.len() {
        max_chars
    } else {
        cleaned.len()
    };
    let res = string_from_prefix(&cleaned, n);
    assert(cleaned@.take(cleaned@.len() as int) == cleaned@);
    res
}

/// A shorter cut of the fallback summary is a prefix of a longer one.
pub proof fn law_fallback_summary_prefix(text: Seq<char>, m: nat, n: nat)
    requires
        m <= n,
    ensures
        fallback_summary_of(text, m).is_prefix_of(fallback_summary_of(text, n)),
{
    let c = collapse_ws(text);
    let a = fallback_summary_of(text, m);
    let b = fallback_summary_of(text, n);
    assert(a.len() <= b.len());
    assert forall|i: int| 0 <= i < a.len() implies a[i] == b[i] by {
        assert(a[i] == c[i]);
        assert(b[i] == c[i]);
    }
}

/// The fallback summary has no whitespace at its start, and its whitespace
/// characters are single spaces each following a non-whitespace character.
pub proof fn law_fallback_summary_single_spaced(text: Seq<char>, max_chars: nat)
    ensures
        spaces_single(fallback_summary_of(text, max_chars)),
{
    let c = collapse_ws(text);
    lemma_collapse_is_collapsed(text);
    let r = fallback_summary_of(text, max_chars);
    assert forall|i: int| 0 <= i < r.len() && is_ws(#[trigger] r[i]) implies r[i] == ' ' && i > 0
        && !is_ws(r[i - 1]) by {
        assert(r[i] == c[i]);
        assert(is_ws(c[i]));
        assert(r[i - 1] == c[i - 1]);
    }
}

/// The fallback summary takes the text's non-whitespace characters from the
/// start, in order, skipping none and adding none: they are a prefix of the
/// text's non-whitespace characters (all of them when nothing is cut).
pub proof fn law_fallback_summary_keeps_text(text: Seq<char>, max_chars: nat)
    ensures
        non_ws_chars(fallback_summary_of(text, max_chars)).is_prefix_of(non_ws_chars(text)),
        collapse_ws(text).len() <= max_chars ==> non_ws_chars(fallback_summary_of(
            text,
            max_chars,
        )) == non_ws_chars(text),
{
    let c = collapse_ws(text);
    law_collapse_keeps_non_ws(text);
    let r = fallback_summary_of(text, max_chars);
    let k = r.len() as int;
    assert(c == r + c.subrange(k, c.len() as int));
    lemma_non_ws_chars_add(r, c.subrange(k, c.len() as int));
    let a = non_ws_chars(r);
    let b = non_ws_chars(text);
    assert(a.len() <= b.len());
    assert forall|i: int| 0 <= i < a.len() implies a[i] == b[i] by {
        assert(b == a + non_ws_chars(c.subrange(k, c.len() as int)));
    }
}

/// Summarizing a fallback summary again with the same limit changes nothing,
/// unless the first cut ended right after a space.
pub proof fn law_fallback_summary_stable(text: Seq<char>, max_chars: nat)
    requires
        !(fallback_summary_of(text, max_chars).len() > 0 && is_ws(
            fallback_summary_of(text, max_chars).last(),
        )),
    ensures
        fallback_summary_of(fallback_summary_of(text, max_chars), max_chars)
            == fallback_summary_of(text, max_chars),
{
    let r = fallback_summary_of(text, max_chars);
    law_fallback_summary_single_spaced(text, max_chars);
    lemma_collapse_of_single_spaced(r);
}

} // verus!
