use groqqle::api::{clean_setting, settings_from_form, settings_page, SettingsForm};
use groqqle::config::{config_path, get_setting, AppConfig};

fn sample_config() -> AppConfig {
    AppConfig {
        glm_api_key: Some("glm-key".to_string()),
        glm_model: Some("glm-4".to_string()),
        glm_base_url: None,
        brave_api_key: Some("brave".to_string()),
        groq_api_key: None,
        groq_model: Some("llama".to_string()),
    }
}

#[test]
fn get_setting_reads_each_named_field() {
    let cfg = sample_config();
    assert_eq!(get_setting(&cfg, "GLM_API_KEY"), Some("glm-key".to_string()));
    assert_eq!(get_setting(&cfg, "GLM_MODEL"), Some("glm-4".to_string()));
    assert_eq!(get_setting(&cfg, "GLM_BASE_URL"), None);
    assert_eq!(get_setting(&cfg, "BRAVE_API_KEY"), Some("brave".to_string()));
    assert_eq!(get_setting(&cfg, "GROQ_API_KEY"), None);
    assert_eq!(get_setting(&cfg, "GROQ_MODEL"), Some("llama".to_string()));
}

#[test]
fn get_setting_of_unknown_key_is_none() {
    let cfg = sample_config();
    assert_eq!(get_setting(&cfg, "OTHER"), None);
    assert_eq!(get_setting(&cfg, "glm_api_key"), None);
    assert_eq!(get_setting(&cfg, ""), None);
}

#[test]
fn default_config_has_nothing_set() {
    let cfg = AppConfig::default();
    for key in ["GLM_API_KEY", "GLM_MODEL", "GLM_BASE_URL", "BRAVE_API_KEY", "GROQ_API_KEY", "GROQ_MODEL"] {
        assert_eq!(get_setting(&cfg, key), None);
    }
}

#[test]
fn config_path_prefers_environment() {
    assert_eq!(config_path(Some("/tmp/x.json".to_string())), "/tmp/x.json");
    assert_eq!(config_path(None), "/data/config.json");
}

#[test]
fn clean_setting_trims_and_drops_blank() {
    assert_eq!(clean_setting(Some("  k  ".to_string())), Some("k".to_string()));
    assert_eq!(clean_setting(Some(" \t ".to_string())), None);
    assert_eq!(clean_setting(Some(String::new())), None);
    assert_eq!(clean_setting(None), None);
}

#[test]
fn saved_settings_read_back_trimmed() {
    let form = SettingsForm {
        glm_api_key: Some("  new-glm  ".to_string()),
        glm_model: Some("".to_string()),
        glm_base_url: None,
        brave_api_key: Some("   ".to_string()),
        groq_api_key: Some("gsk".to_string()),
        groq_model: Some(" m ".to_string()),
    };
    let cfg = settings_from_form(form);
    assert_eq!(get_setting(&cfg, "GLM_API_KEY"), Some("new-glm".to_string()));
    assert_eq!(get_setting(&cfg, "GLM_MODEL"), None);
    assert_eq!(get_setting(&cfg, "GLM_BASE_URL"), None);
    assert_eq!(get_setting(&cfg, "BRAVE_API_KEY"), None);
    assert_eq!(get_setting(&cfg, "GROQ_API_KEY"), Some("gsk".to_string()));
    assert_eq!(get_setting(&cfg, "GROQ_MODEL"), Some("m".to_string()));
}

fn expected_page(vals: [&str; 6]) -> String {
    format!(
        "<!doctype html><html><head><meta charset='utf-8'><title>Settings</title></head><body style='font-family:system-ui;max-width:900px;margin:2rem auto;'><h1>API Key Settings</h1><form method='post' action='/settings'>
        <label>GLM API Key</label><br/><input type='password' name='glm_api_key' value='{}' style='width:100%'/><br/><br/>
        <label>GLM Model</label><br/><input name='glm_model' value='{}' style='width:100%'/><br/><br/>
        <label>GLM Base URL</label><br/><input name='glm_base_url' value='{}' style='width:100%'/><br/><br/>
        <label>Brave API Key</label><br/><input type='password' name='brave_api_key' value='{}' style='width:100%'/><br/><br/>
        <label>Groq API Key (fallback)</label><br/><input type='password' name='groq_api_key' value='{}' style='width:100%'/><br/><br/>
        <label>Groq Model</label><br/><input name='groq_model' value='{}' style='width:100%'/><br/><br/>
        <button type='submit'>Save Settings</button>
        </form><p>Leave a key field blank to remove it.</p><p><a href='/'>Back</a></p></body></html>",
        vals[0], vals[1], vals[2], vals[3], vals[4], vals[5]
    )
}

#[test]
fn settings_page_fills_in_stored_values() {
    let page = settings_page(&sample_config());
    assert_eq!(page, expected_page(["glm-key", "glm-4", "", "brave", "", "llama"]));
}

#[test]
fn settings_page_escapes_values() {
    let cfg = AppConfig {
        glm_api_key: Some("a\"b<c>&d'e".to_string()),
        glm_model: None,
        glm_base_url: None,
        brave_api_key: None,
        groq_api_key: None,
        groq_model: None,
    };
    let page = settings_page(&cfg);
    assert_eq!(page, expected_page(["a&quot;b&lt;c&gt;&amp;d'e", "", "", "", "", ""]));
}

#[test]
fn settings_page_of_empty_config() {
    assert_eq!(settings_page(&AppConfig::default()), expected_page(["", "", "", "", "", ""]));
}

#[test]
fn escaped_values_hold_no_markup_characters() {
    let cfg = AppConfig {
        glm_api_key: None,
        glm_model: Some("<script>\"x\"</script>".to_string()),
        glm_base_url: None,
        brave_api_key: None,
        groq_api_key: None,
        groq_model: None,
    };
    let page = settings_page(&cfg);
    let start = page.find("name='glm_model' value='").unwrap() + "name='glm_model' value='".len();
    let rest = &page[start..];
    let value = &rest[..rest.find("' style=").unwrap()];
    assert_eq!(value, "&lt;script&gt;&quot;x&quot;&lt;/script&gt;");
    assert!(!value.contains('<') && !value.contains('>') && !value.contains('"'));
}
