//! Stored API settings and lookups into them.

use vstd::prelude::*;
use crate::text::same_text;

verus! {

/// The settings that the settings page edits; `None` means "not set".
pub struct AppConfig {
    pub glm_api_key: Option<String>,
    pub glm_model: Option<String>,
    pub glm_base_url: Option<String>,
    pub brave_api_key: Option<String>,
    pub groq_api_key: Option<String>,
    pub groq_model: Option<String>,
}

/// `o` taken by its characters.
pub open spec fn text_of(o: Option<String>) -> Option<Seq<char>> {
    match o {
        Some(s) => Some(s@),
        None => None,
    }
}

/// `o`'s text, or `default` when it is `None`.
pub open spec fn text_or(o: Option<String>, default: Seq<char>) -> Seq<char> {
    match o {
        Some(s) => s@,
        None => default,
    }
}

/// `o`'s text, or `default` when it is `None`.
pub open spec fn seq_or(o: Option<Seq<char>>, default: Seq<char>) -> Seq<char> {
    match o {
        Some(s) => s,
        None => default,
    }
}

pub(crate) fn clone_setting(o: &Option<String>) -> (res: Option<String>)
    ensures
        text_of(res) == text_of(*o),
{
    match o {
        Some(s) => Some(s.clone()),
        None => None,
    }
}

impl Default for AppConfig {
    /// The configuration with nothing set.
    fn default() -> (res: AppConfig)
        ensures
            res.glm_api_key is None,
            res.glm_model is None,
            res.glm_base_url is None,
            res.brave_api_key is None,
            res.groq_api_key is None,
            res.groq_model is None,
    {
        AppConfig {
            glm_api_key: None,
            glm_model: None,
            glm_base_url: None,
            brave_api_key: None,
            groq_api_key: None,
            groq_model: None,
        }
    }
}

/// The stored value that `key` names; keys other than the six setting
/// names name nothing.
pub open spec fn setting_of(cfg: AppConfig, key: Seq<char>) -> Option<Seq<char>> {
    if key == "GLM_API_KEY"@ {
        text_of(cfg.glm_api_key)
    } else if key == "GLM_MODEL"@ {
        text_of(cfg.glm_model)
    } else if key == "GLM_BASE_URL"@ {
        text_of(cfg.glm_base_url)
    } else if key == "BRAVE_API_KEY"@ {
        text_of(cfg.brave_api_key)
    } else if key == "GROQ_API_KEY"@ {
        text_of(cfg.groq_api_key)
    } else if key == "GROQ_MODEL"@ {
        text_of(cfg.groq_model)
    } else {
        None
    }
}

/// Each setting name reads its own field of the configuration, and any
/// other key reads nothing.
pub proof fn law_setting_names_read_own_fields(cfg: AppConfig, key: Seq<char>)
    ensures
        setting_of(cfg, "GLM_API_KEY"@) == (match cfg.glm_api_key {
            Some(s) => Some(s@),
            None => None,
        }),
        setting_of(cfg, "GLM_MODEL"@) == (match cfg.glm_model {
            Some(s) => Some(s@),
            None => None,
        }),
        setting_of(cfg, "GLM_BASE_URL"@) == (match cfg.glm_base_url {
            Some(s) => Some(s@),
            None => None,
        }),
        setting_of(cfg, "BRAVE_API_KEY"@) == (match cfg.brave_api_key {
            Some(s) => Some(s@),
            None => None,
        }),
        setting_of(cfg, "GROQ_API_KEY"@) == (match cfg.groq_api_key {
            Some(s) => Some(s@),
            None => None,
        }),
        setting_of(cfg, "GROQ_MODEL"@) == (match cfg.groq_model {
            Some(s) => Some(s@),
            None => None,
        }),
        (key != "GLM_API_KEY"@ && key != "GLM_MODEL"@ && key != "GLM_BASE_URL"@ && key
            != "BRAVE_API_KEY"@ && key != "GROQ_API_KEY"@ && key != "GROQ_MODEL"@) ==> setting_of(
            cfg,
            key,
        ) is None,
{
    reveal_strlit("GLM_API_KEY");
    reveal_strlit("GLM_MODEL");
    reveal_strlit("GLM_BASE_URL");
    reveal_strlit("BRAVE_API_KEY");
    reveal_strlit("GROQ_API_KEY");
    reveal_strlit("GROQ_MODEL");
    assert("GLM_API_KEY"@.len() == 11);
    assert("GLM_MODEL"@.len() == 9);
    assert("GLM_BASE_URL"@.len() == 12);
    assert("BRAVE_API_KEY"@.len() == 13);
    assert("GROQ_API_KEY"@.len() == 12);
    assert("GROQ_MODEL"@.len() == 10);
    assert("GLM_BASE_URL"@[1] != "GROQ_API_KEY"@[1]);
}

/// Looks up the setting named `key` (such as `"BRAVE_API_KEY"`) in `cfg`.
pub fn get_setting(cfg: &AppConfig, key: &str) -> (res: Option<String>)
    ensures
        text_of(res) == setting_of(*cfg, key@),
{
    if same_text(key, "GLM_API_KEY") {
        clone_setting(&cfg.glm_api_key)
    } else if same_text(key, "GLM_MODEL") {
        clone_setting(&cfg.glm_model)
    } else if same_text(key, "GLM_BASE_URL") {
        clone_setting(&cfg.glm_base_url)
    } else if same_text(key, "BRAVE_API_KEY") {
        clone_setting(&cfg.brave_api_key)
    } else if same_text(key, "GROQ_API_KEY") {
        clone_setting(&cfg.groq_api_key)
    } else if same_text(key, "GROQ_MODEL") {
        clone_setting(&cfg.groq_model)
    } else {
        None
    }
}

/// The location of the settings file: the `APP_CONFIG_PATH` variable when it
/// is set (`env_path`), otherwise `/data/config.json`.
pub fn config_path(env_path: Option<String>) -> (res: String)
    ensures
        res@ == match env_path {
            Some(p) => p@,
            None => "/data/config.json"@,
        },
{
    match env_path {
        Some(p) => p,
        None => String::from_str("/data/config.json"),
    }
}

} // verus!
