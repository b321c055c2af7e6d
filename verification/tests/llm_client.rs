use groqqle::llm::{summary_from_body, summary_from_reply, LlmClient, LlmEnv, LlmError, Provider};

fn env(glm: Option<&str>, groq: Option<&str>) -> LlmEnv {
    LlmEnv {
        glm_api_key: glm.map(|s| s.to_string()),
        glm_model: None,
        glm_base_url: None,
        groq_api_key: groq.map(|s| s.to_string()),
        groq_model: None,
    }
}

#[test]
fn glm_is_preferred_when_both_keys_are_set() {
    let c = LlmClient::from_env(&env(Some("g"), Some("q"))).unwrap();
    assert_eq!(c.provider, Provider::Glm);
    assert_eq!(c.api_key, "g");
    assert_eq!(c.model, "glm-5");
    assert_eq!(c.base_url, "https://open.bigmodel.cn/api/paas/v4/chat/completions");
}

#[test]
fn glm_model_and_url_can_be_overridden() {
    let mut e = env(Some("g"), None);
    e.glm_model = Some("glm-4-plus".to_string());
    e.glm_base_url = Some("http://localhost:9/v1".to_string());
    let c = LlmClient::from_env(&e).unwrap();
    assert_eq!(c.model, "glm-4-plus");
    assert_eq!(c.base_url, "http://localhost:9/v1");
}

#[test]
fn groq_is_used_without_glm_key() {
    let mut e = env(None, Some("q"));
    e.glm_model = Some("ignored".to_string());
    let c = LlmClient::from_env(&e).unwrap();
    assert_eq!(c.provider, Provider::Groq);
    assert_eq!(c.api_key, "q");
    assert_eq!(c.model, "llama3-8b-8192");
    assert_eq!(c.base_url, "https://api.groq.com/openai/v1/chat/completions");
    e.groq_model = Some("mixtral".to_string());
    assert_eq!(LlmClient::from_env(&e).unwrap().model, "mixtral");
}

#[test]
fn no_client_without_keys() {
    assert!(LlmClient::from_env(&env(None, None)).is_none());
}

#[test]
fn authorization_is_bearer_token_for_both_providers() {
    let g = LlmClient::from_env(&env(Some("abc"), None)).unwrap();
    let q = LlmClient::from_env(&env(None, Some("abc"))).unwrap();
    assert_eq!(g.authorization(), "Bearer abc");
    assert_eq!(q.authorization(), "Bearer abc");
}

#[test]
fn request_body_is_the_json_payload() {
    let c = LlmClient::from_env(&env(Some("k"), None)).unwrap();
    let body = c.request_body("Say \"hi\"\n\tnow\\ \u{1}", 1024);
    assert_eq!(
        body,
        "{\"max_tokens\":1024,\"messages\":[{\"content\":\"Say \\\"hi\\\"\\n\\tnow\\\\ \\u0001\",\"role\":\"user\"}],\"model\":\"glm-5\",\"temperature\":0.0}"
    );
    let v: serde_json::Value = serde_json::from_str(&body).unwrap();
    assert_eq!(v["model"], "glm-5");
    assert_eq!(v["max_tokens"], 1024);
    assert_eq!(v["temperature"], 0.0);
    assert_eq!(v["messages"][0]["role"], "user");
    assert_eq!(v["messages"][0]["content"], "Say \"hi\"\n\tnow\\ \u{1}");
}

#[test]
fn request_body_keeps_non_ascii_text() {
    let c = LlmClient::from_env(&env(None, Some("k"))).unwrap();
    let body = c.request_body("résumé 日本", 5);
    assert_eq!(
        body,
        "{\"max_tokens\":5,\"messages\":[{\"content\":\"résumé 日本\",\"role\":\"user\"}],\"model\":\"llama3-8b-8192\",\"temperature\":0.0}"
    );
}

#[test]
fn decoded_reply_gives_summary_or_reason() {
    assert_eq!(summary_from_reply(Some(Some("text".to_string()))), Ok("text".to_string()));
    assert_eq!(summary_from_reply(Some(None)), Err(LlmError::UnexpectedResponseShape));
    assert_eq!(summary_from_reply(None), Err(LlmError::MalformedReply));
}

#[test]
fn reply_body_content_is_the_summary() {
    let body = br#"{"id":"x","choices":[{"index":0,"message":{"role":"assistant","content":"Headline\nBody"}}]}"#;
    assert_eq!(summary_from_body(body), Ok("Headline\nBody".to_string()));
}

#[test]
fn reply_body_without_content_string() {
    assert_eq!(summary_from_body(br#"{"choices":[]}"#), Err(LlmError::UnexpectedResponseShape));
    assert_eq!(
        summary_from_body(br#"{"choices":[{"message":{"content":42}}]}"#),
        Err(LlmError::UnexpectedResponseShape)
    );
    assert_eq!(summary_from_body(br#"{"error":"rate limited"}"#), Err(LlmError::UnexpectedResponseShape));
}

#[test]
fn reply_body_that_is_not_json() {
    assert_eq!(summary_from_body(b"<html>502</html>"), Err(LlmError::MalformedReply));
    assert_eq!(summary_from_body(b""), Err(LlmError::MalformedReply));
}

use groqqle::config::AppConfig;

#[test]
fn stored_settings_come_before_the_environment() {
    let mut cfg = AppConfig::default();
    cfg.glm_api_key = Some("stored-glm".to_string());
    cfg.glm_model = Some("glm-4".to_string());
    let mut e = env(Some("env-glm"), Some("env-groq"));
    e.glm_base_url = Some("http://env/url".to_string());
    let c = LlmClient::from_settings(&cfg, &e).unwrap();
    assert_eq!(c.provider, Provider::Glm);
    assert_eq!(c.api_key, "stored-glm");
    assert_eq!(c.model, "glm-4");
    assert_eq!(c.base_url, "http://env/url");
}

#[test]
fn stored_groq_key_without_any_glm_key() {
    let mut cfg = AppConfig::default();
    cfg.groq_api_key = Some("stored-groq".to_string());
    let c = LlmClient::from_settings(&cfg, &env(None, None)).unwrap();
    assert_eq!(c.provider, Provider::Groq);
    assert_eq!(c.api_key, "stored-groq");
    assert_eq!(c.model, "llama3-8b-8192");
}

#[test]
fn environment_glm_key_beats_stored_groq_key() {
    let mut cfg = AppConfig::default();
    cfg.groq_api_key = Some("stored-groq".to_string());
    let c = LlmClient::from_settings(&cfg, &env(Some("env-glm"), None)).unwrap();
    assert_eq!(c.provider, Provider::Glm);
    assert_eq!(c.api_key, "env-glm");
}

#[test]
fn nothing_stored_means_environment_alone() {
    let cfg = AppConfig::default();
    assert!(LlmClient::from_settings(&cfg, &env(None, None)).is_none());
    let c = LlmClient::from_settings(&cfg, &env(None, Some("q"))).unwrap();
    assert_eq!(c.api_key, "q");
    let merged = env(None, Some("q")).with_stored(&cfg);
    assert_eq!(merged.groq_api_key.as_deref(), Some("q"));
    assert!(merged.glm_api_key.is_none());
}
