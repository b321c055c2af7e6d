//! The decisions behind the HTTP endpoints: settings form handling, the
//! settings page, and how a search request is resolved.

use vstd::prelude::*;
use crate::config::{setting_of, text_of, AppConfig};
use crate::encode::{html_attr_escape, html_attr_escaped};
use crate::llm::{client_from_settings, LlmClient, LlmEnv, Provider};
use crate::models::{SearchKind, SearchRequest};
use crate::text::{push_char, eq_ignore_ascii_case, same_text_ignore_ascii_case, trim, trim_string};

verus! {

/// Pieces of the settings page around the stored values: the template text,
/// and for each setting the start of its input field up to its value.
pub const PAGE_HEAD: &'static str = "<!doctype html><html><head><meta charset='utf-8'><title>Settings</title></head><body style='font-family:system-ui;max-width:900px;margin:2rem auto;'><h1>API Key Settings</h1><form method='post' action='/settings'>\n        <label>GLM API Key</label><br/><input type='password' ";
pub const FIELD_GLM_API_KEY: &'static str = "name='glm_api_key' value='";
pub const AFTER_GLM_API_KEY: &'static str = " style='width:100%'/><br/><br/>\n        <label>GLM Model</label><br/><input ";
pub const FIELD_GLM_MODEL: &'static str = "name='glm_model' value='";
pub const AFTER_GLM_MODEL: &'static str = " style='width:100%'/><br/><br/>\n        <label>GLM Base URL</label><br/><input ";
pub const FIELD_GLM_BASE_URL: &'static str = "name='glm_base_url' value='";
pub const AFTER_GLM_BASE_URL: &'static str = " style='width:100%'/><br/><br/>\n        <label>Brave API Key</label><br/><input type='password' ";
pub const FIELD_BRAVE_API_KEY: &'static str = "name='brave_api_key' value='";
pub const AFTER_BRAVE_API_KEY: &'static str = " style='width:100%'/><br/><br/>\n        <label>Groq API Key (fallback)</label><br/><input type='password' ";
pub const FIELD_GROQ_API_KEY: &'static str = "name='groq_api_key' value='";
pub const AFTER_GROQ_API_KEY: &'static str = " style='width:100%'/><br/><br/>\n        <label>Groq Model</label><br/><input ";
pub const FIELD_GROQ_MODEL: &'static str = "name='groq_model' value='";
pub const PAGE_TAIL: &'static str = " style='width:100%'/><br/><br/>\n        <button type='submit'>Save Settings</button>\n        </form><p>Leave a key field blank to remove it.</p><p><a href='/'>Back</a></p></body></html>";

/// The fields posted by the settings form; a field left out is `None`.
pub struct SettingsForm {
    pub glm_api_key: Option<String>,
    pub glm_model: Option<String>,
    pub glm_base_url: Option<String>,
    pub brave_api_key: Option<String>,
    pub groq_api_key: Option<String>,
    pub groq_model: Option<String>,
}

/// A posted field as it is stored: trimmed, and dropped when nothing is left.
pub open spec fn cleaned(v: Option<String>) -> Option<Seq<char>> {
    match v {
        Some(s) => if trim(s@).len() == 0 {
            None
        } else {
            Some(trim(s@))
        },
        None => None,
    }
}

/// Trims a posted field and drops it when it is blank.
pub fn clean_setting(v: Option<String>) -> (res: Option<String>)
    ensures
        text_of(res) == cleaned(v),
{
    match v {
        Some(s) => {
            let t = trim_string(s.as_str());
            if t.as_str().is_empty() {
                None
            } else {
                Some(t)
            }
        },
        None => None,
    }
}

/// `cfg` holds the posted fields of `form`, each cleaned.
pub open spec fn saved_from_form(form: SettingsForm, cfg: AppConfig) -> bool {
    &&& text_of(cfg.glm_api_key) == cleaned(form.glm_api_key)
    &&& text_of(cfg.glm_model) == cleaned(form.glm_model)
    &&& text_of(cfg.glm_base_url) == cleaned(form.glm_base_url)
    &&& text_of(cfg.brave_api_key) == cleaned(form.brave_api_key)
    &&& text_of(cfg.groq_api_key) == cleaned(form.groq_api_key)
    &&& text_of(cfg.groq_model) == cleaned(form.groq_model)
}

/// The configuration that the settings form saves.
pub fn settings_from_form(form: SettingsForm) -> (res: AppConfig)
    ensures
        saved_from_form(form, res),
{
    AppConfig {
        glm_api_key: clean_setting(form.glm_api_key),
        glm_model: clean_setting(form.glm_model),
        glm_base_url: clean_setting(form.glm_base_url),
        brave_api_key: clean_setting(form.brave_api_key),
        groq_api_key: clean_setting(form.groq_api_key),
        groq_model: clean_setting(form.groq_model),
    }
}

/// The form field that the setting named `key` is edited in.
pub open spec fn form_field(form: SettingsForm, key: Seq<char>) -> Option<String> {
    if key == "GLM_API_KEY"@ {
        form.glm_api_key
    } else if key == "GLM_MODEL"@ {
        form.glm_model
    } else if key == "GLM_BASE_URL"@ {
        form.glm_base_url
    } else if key == "BRAVE_API_KEY"@ {
        form.brave_api_key
    } else if key == "GROQ_API_KEY"@ {
        form.groq_api_key
    } else {
        form.groq_model
    }
}

/// The six setting names.
pub open spec fn is_setting_name(key: Seq<char>) -> bool {
    ||| key == "GLM_API_KEY"@
    ||| key == "GLM_MODEL"@
    ||| key == "GLM_BASE_URL"@
    ||| key == "BRAVE_API_KEY"@
    ||| key == "GROQ_API_KEY"@
    ||| key == "GROQ_MODEL"@
}

/// A setting read back after the settings form was saved is the posted
/// field, trimmed; a blank or missing field reads back as unset.
pub proof fn law_saved_setting_reads_back(form: SettingsForm, cfg: AppConfig, key: Seq<char>)
    requires
        saved_from_form(form, cfg),
        is_setting_name(key),
    ensures
        setting_of(cfg, key) == cleaned(form_field(form, key)),
        (form_field(form, key) matches Some(s) && trim(s@).len() == 0) ==> setting_of(
            cfg,
            key,
        ) is None,
{
}

/// `stored` is the posted field `posted` as saved: exactly the posted text
/// with leading and trailing whitespace removed, or unset when nothing is
/// left or nothing was posted.
pub open spec fn stored_as_trimmed(posted: Option<String>, stored: Option<String>) -> bool {
    match posted {
        Some(s) => if trim(s@).len() == 0 {
            stored is None
        } else {
            stored matches Some(t) && t@ == trim(s@)
        },
        None => stored is None,
    }
}

/// Saving the settings form stores each field as exactly its posted text,
/// trimmed (case and inner characters kept), and drops blank or missing
/// fields.
pub proof fn law_saved_fields_are_trimmed_text(form: SettingsForm, cfg: AppConfig)
    requires
        saved_from_form(form, cfg),
    ensures
        stored_as_trimmed(form.glm_api_key, cfg.glm_api_key),
        stored_as_trimmed(form.glm_model, cfg.glm_model),
        stored_as_trimmed(form.glm_base_url, cfg.glm_base_url),
        stored_as_trimmed(form.brave_api_key, cfg.brave_api_key),
        stored_as_trimmed(form.groq_api_key, cfg.groq_api_key),
        stored_as_trimmed(form.groq_model, cfg.groq_model),
{
}

/// An API key saved from the settings form picks the model at once: a GLM
/// key saved there gives a GLM client with that key, whatever the
/// environment holds; a Groq key saved there gives a Groq client unless a
/// GLM key is stored or in the environment.
pub proof fn law_saved_key_picks_model(
    form: SettingsForm,
    cfg: AppConfig,
    env: LlmEnv,
    res: Option<LlmClient>,
)
    requires
        saved_from_form(form, cfg),
        client_from_settings(cfg, env, res),
    ensures
        cleaned(form.glm_api_key) is Some ==> (res matches Some(c) && c.provider
            == Provider::Glm && Some(c.api_key@) == cleaned(form.glm_api_key)),
        (cleaned(form.glm_api_key) is None && env.glm_api_key is None && cleaned(
            form.groq_api_key,
        ) is Some) ==> (res matches Some(c) && c.provider == Provider::Groq && Some(c.api_key@)
            == cleaned(form.groq_api_key)),
{
    reveal_strlit("GLM_API_KEY");
    reveal_strlit("GLM_MODEL");
    reveal_strlit("GLM_BASE_URL");
    reveal_strlit("BRAVE_API_KEY");
    reveal_strlit("GROQ_API_KEY");
    assert("GLM_API_KEY"@.len() == 11);
    assert("GLM_MODEL"@.len() == 9);
    assert("BRAVE_API_KEY"@.len() == 13);
    assert("GLM_BASE_URL"@[1] != "GROQ_API_KEY"@[1]);
    assert("GROQ_API_KEY"@ != "GLM_API_KEY"@);
    assert("GROQ_API_KEY"@ != "GLM_MODEL"@);
    assert("GROQ_API_KEY"@ != "GLM_BASE_URL"@);
    assert("GROQ_API_KEY"@ != "BRAVE_API_KEY"@);
}

/// A stored value as the settings page shows it: escaped, empty when unset.
pub open spec fn shown(v: Option<String>) -> Seq<char> {
    match v {
        Some(s) => html_attr_escaped(s@),
        None => seq![],
    }
}

/// One input field of the settings page and the template text after it:
/// the field's start up to its value, the shown value, the closing quote.
pub open spec fn page_part(field: Seq<char>, v: Option<String>, after: Seq<char>) -> Seq<char> {
    field + shown(v) + seq!['\''] + after
}

/// The settings page for `cfg`: a form with each stored value filled in.
pub open spec fn settings_page_of(cfg: AppConfig) -> Seq<char> {
    PAGE_HEAD@ + page_part(FIELD_GLM_API_KEY@, cfg.glm_api_key, AFTER_GLM_API_KEY@) + page_part(FIELD_GLM_MODEL@, cfg.glm_model, AFTER_GLM_MODEL@) + page_part(FIELD_GLM_BASE_URL@, cfg.glm_base_url, AFTER_GLM_BASE_URL@) + page_part(FIELD_BRAVE_API_KEY@, cfg.brave_api_key, AFTER_BRAVE_API_KEY@) + page_part(FIELD_GROQ_API_KEY@, cfg.groq_api_key, AFTER_GROQ_API_KEY@) + page_part(FIELD_GROQ_MODEL@, cfg.groq_model, PAGE_TAIL@)
}

fn append_shown(out: &mut String, v: &Option<String>)
    ensures
        final(out)@ == old(out)@ + shown(*v),
{
    match v {
        Some(s) => {
            let e = html_attr_escape(s.as_str());
            out.append(e.as_str());
        },
        None => {
            assert(old(out)@ + seq![] == old(out)@);
        },
    }
}

/// The value text that the page shows for a stored field: the field
/// escaped for an HTML attribute, empty when unset.
pub open spec fn escaped_value(v: Option<String>) -> Seq<char> {
    match v {
        Some(s) => html_attr_escaped(s@),
        None => seq![],
    }
}

/// `page` holds an input field that starts with `marker` (such as
/// `name='glm_model' value='`) and whose value is the escaped text of `v`,
/// closed by a `'`.
pub open spec fn field_holds(page: Seq<char>, marker: Seq<char>, v: Option<String>) -> bool {
    exists|p: int|
        0 <= p && p + marker.len() + escaped_value(v).len() < page.len()
            && #[trigger] page.subrange(p, p + marker.len()) == marker && page.subrange(
            p + marker.len(),
            p + marker.len() + escaped_value(v).len(),
        ) == escaped_value(v) && page[p + marker.len() + escaped_value(v).len()] == '\''
}

proof fn lemma_field_holds(a: Seq<char>, m: Seq<char>, v: Option<String>, b: Seq<char>)
    ensures
        field_holds(a + page_part(m, v, b), m, v),
{
    let page = a + page_part(m, v, b);
    let e = escaped_value(v);
    assert(shown(v) == e);
    let p = a.len() as int;
    assert(page.subrange(p, p + m.len()) =~= m);
    assert(page.subrange(p + m.len(), p + m.len() + e.len()) =~= e);
    assert(page[p + m.len() + e.len()] == '\'');
}

proof fn lemma_field_holds_extended(s: Seq<char>, m: Seq<char>, v: Option<String>, t: Seq<char>)
    requires
        field_holds(s, m, v),
    ensures
        field_holds(s + t, m, v),
{
    let e = escaped_value(v);
    let p = choose|p: int|
        0 <= p && p + m.len() + e.len() < s.len() && #[trigger] s.subrange(p, p + m.len()) == m
            && s.subrange(p + m.len(), p + m.len() + e.len()) == e && s[p + m.len() + e.len()]
            == '\'';
    assert((s + t).subrange(p, p + m.len()) =~= s.subrange(p, p + m.len()));
    assert((s + t).subrange(p + m.len(), p + m.len() + e.len()) =~= s.subrange(
        p + m.len(),
        p + m.len() + e.len(),
    ));
    assert((s + t)[p + m.len() + e.len()] == s[p + m.len() + e.len()]);
}

/// Each of the six settings is shown in the input field named after it:
/// right after `name='<setting>' value='` stands the escaped stored value of
/// that same setting (nothing when unset), closed by `'`.
pub proof fn law_settings_page_fields(cfg: AppConfig)
    ensures
        field_holds(settings_page_of(cfg), "name='glm_api_key' value='"@, cfg.glm_api_key),
        field_holds(settings_page_of(cfg), "name='glm_model' value='"@, cfg.glm_model),
        field_holds(settings_page_of(cfg), "name='glm_base_url' value='"@, cfg.glm_base_url),
        field_holds(settings_page_of(cfg), "name='brave_api_key' value='"@, cfg.brave_api_key),
        field_holds(settings_page_of(cfg), "name='groq_api_key' value='"@, cfg.groq_api_key),
        field_holds(settings_page_of(cfg), "name='groq_model' value='"@, cfg.groq_model),
{
    assert(field_holds(settings_page_of(cfg), "name='glm_api_key' value='"@, cfg.glm_api_key)) by {
        assert(FIELD_GLM_API_KEY@ == "name='glm_api_key' value='"@);
        let acc = PAGE_HEAD@ + page_part(FIELD_GLM_API_KEY@, cfg.glm_api_key, AFTER_GLM_API_KEY@);
        lemma_field_holds(PAGE_HEAD@, FIELD_GLM_API_KEY@, cfg.glm_api_key, AFTER_GLM_API_KEY@);
        lemma_field_holds_extended(acc, FIELD_GLM_API_KEY@, cfg.glm_api_key, page_part(FIELD_GLM_MODEL@, cfg.glm_model, AFTER_GLM_MODEL@));
        let acc = acc + page_part(FIELD_GLM_MODEL@, cfg.glm_model, AFTER_GLM_MODEL@);
        lemma_field_holds_extended(acc, FIELD_GLM_API_KEY@, cfg.glm_api_key, page_part(FIELD_GLM_BASE_URL@, cfg.glm_base_url, AFTER_GLM_BASE_URL@));
        let acc = acc + page_part(FIELD_GLM_BASE_URL@, cfg.glm_base_url, AFTER_GLM_BASE_URL@);
        lemma_field_holds_extended(acc, FIELD_GLM_API_KEY@, cfg.glm_api_key, page_part(FIELD_BRAVE_API_KEY@, cfg.brave_api_key, AFTER_BRAVE_API_KEY@));
        let acc = acc + page_part(FIELD_BRAVE_API_KEY@, cfg.brave_api_key, AFTER_BRAVE_API_KEY@);
        lemma_field_holds_extended(acc, FIELD_GLM_API_KEY@, cfg.glm_api_key, page_part(FIELD_GROQ_API_KEY@, cfg.groq_api_key, AFTER_GROQ_API_KEY@));
        let acc = acc + page_part(FIELD_GROQ_API_KEY@, cfg.groq_api_key, AFTER_GROQ_API_KEY@);
        lemma_field_holds_extended(acc, FIELD_GLM_API_KEY@, cfg.glm_api_key, page_part(FIELD_GROQ_MODEL@, cfg.groq_model, PAGE_TAIL@));
        let acc = acc + page_part(FIELD_GROQ_MODEL@, cfg.groq_model, PAGE_TAIL@);
    }
    assert(field_holds(settings_page_of(cfg), "name='glm_model' value='"@, cfg.glm_model)) by {
        assert(FIELD_GLM_MODEL@ == "name='glm_model' value='"@);
        let acc = PAGE_HEAD@ + page_part(FIELD_GLM_API_KEY@, cfg.glm_api_key, AFTER_GLM_API_KEY@) + page_part(FIELD_GLM_MODEL@, cfg.glm_model, AFTER_GLM_MODEL@);
        lemma_field_holds(PAGE_HEAD@ + page_part(FIELD_GLM_API_KEY@, cfg.glm_api_key, AFTER_GLM_API_KEY@), FIELD_GLM_MODEL@, cfg.glm_model, AFTER_GLM_MODEL@);
        lemma_field_holds_extended(acc, FIELD_GLM_MODEL@, cfg.glm_model, page_part(FIELD_GLM_BASE_URL@, cfg.glm_base_url, AFTER_GLM_BASE_URL@));
        let acc = acc + page_part(FIELD_GLM_BASE_URL@, cfg.glm_base_url, AFTER_GLM_BASE_URL@);
        lemma_field_holds_extended(acc, FIELD_GLM_MODEL@, cfg.glm_model, page_part(FIELD_BRAVE_API_KEY@, cfg.brave_api_key, AFTER_BRAVE_API_KEY@));
        let acc = acc + page_part(FIELD_BRAVE_API_KEY@, cfg.brave_api_key, AFTER_BRAVE_API_KEY@);
        lemma_field_holds_extended(acc, FIELD_GLM_MODEL@, cfg.glm_model, page_part(FIELD_GROQ_API_KEY@, cfg.groq_api_key, AFTER_GROQ_API_KEY@));
        let acc = acc + page_part(FIELD_GROQ_API_KEY@, cfg.groq_api_key, AFTER_GROQ_API_KEY@);
        lemma_field_holds_extended(acc, FIELD_GLM_MODEL@, cfg.glm_model, page_part(FIELD_GROQ_MODEL@, cfg.groq_model, PAGE_TAIL@));
        let acc = acc + page_part(FIELD_GROQ_MODEL@, cfg.groq_model, PAGE_TAIL@);
    }
    assert(field_holds(settings_page_of(cfg), "name='glm_base_url' value='"@, cfg.glm_base_url)) by {
        assert(FIELD_GLM_BASE_URL@ == "name='glm_base_url' value='"@);
        let acc = PAGE_HEAD@ + page_part(FIELD_GLM_API_KEY@, cfg.glm_api_key, AFTER_GLM_API_KEY@) + page_part(FIELD_GLM_MODEL@, cfg.glm_model, AFTER_GLM_MODEL@) + page_part(FIELD_GLM_BASE_URL@, cfg.glm_base_url, AFTER_GLM_BASE_URL@);
        lemma_field_holds(PAGE_HEAD@ + page_part(FIELD_GLM_API_KEY@, cfg.glm_api_key, AFTER_GLM_API_KEY@) + page_part(FIELD_GLM_MODEL@, cfg.glm_model, AFTER_GLM_MODEL@), FIELD_GLM_BASE_URL@, cfg.glm_base_url, AFTER_GLM_BASE_URL@);
        lemma_field_holds_extended(acc, FIELD_GLM_BASE_URL@, cfg.glm_base_url, page_part(FIELD_BRAVE_API_KEY@, cfg.brave_api_key, AFTER_BRAVE_API_KEY@));
        let acc = acc + page_part(FIELD_BRAVE_API_KEY@, cfg.brave_api_key, AFTER_BRAVE_API_KEY@);
        lemma_field_holds_extended(acc, FIELD_GLM_BASE_URL@, cfg.glm_base_url, page_part(FIELD_GROQ_API_KEY@, cfg.groq_api_key, AFTER_GROQ_API_KEY@));
        let acc = acc + page_part(FIELD_GROQ_API_KEY@, cfg.groq_api_key, AFTER_GROQ_API_KEY@);
        lemma_field_holds_extended(acc, FIELD_GLM_BASE_URL@, cfg.glm_base_url, page_part(FIELD_GROQ_MODEL@, cfg.groq_model, PAGE_TAIL@));
        let acc = acc + page_part(FIELD_GROQ_MODEL@, cfg.groq_model, PAGE_TAIL@);
    }
    assert(field_holds(settings_page_of(cfg), "name='brave_api_key' value='"@, cfg.brave_api_key)) by {
        assert(FIELD_BRAVE_API_KEY@ == "name='brave_api_key' value='"@);
        let acc = PAGE_HEAD@ + page_part(FIELD_GLM_API_KEY@, cfg.glm_api_key, AFTER_GLM_API_KEY@) + page_part(FIELD_GLM_MODEL@, cfg.glm_model, AFTER_GLM_MODEL@) + page_part(FIELD_GLM_BASE_URL@, cfg.glm_base_url, AFTER_GLM_BASE_URL@) + page_part(FIELD_BRAVE_API_KEY@, cfg.brave_api_key, AFTER_BRAVE_API_KEY@);
        lemma_field_holds(PAGE_HEAD@ + page_part(FIELD_GLM_API_KEY@, cfg.glm_api_key, AFTER_GLM_API_KEY@) + page_part(FIELD_GLM_MODEL@, cfg.glm_model, AFTER_GLM_MODEL@) + page_part(FIELD_GLM_BASE_URL@, cfg.glm_base_url, AFTER_GLM_BASE_URL@), FIELD_BRAVE_API_KEY@, cfg.brave_api_key, AFTER_BRAVE_API_KEY@);
        lemma_field_holds_extended(acc, FIELD_BRAVE_API_KEY@, cfg.brave_api_key, page_part(FIELD_GROQ_API_KEY@, cfg.groq_api_key, AFTER_GROQ_API_KEY@));
        let acc = acc + page_part(FIELD_GROQ_API_KEY@, cfg.groq_api_key, AFTER_GROQ_API_KEY@);
        lemma_field_holds_extended(acc, FIELD_BRAVE_API_KEY@, cfg.brave_api_key, page_part(FIELD_GROQ_MODEL@, cfg.groq_model, PAGE_TAIL@));
        let acc = acc + page_part(FIELD_GROQ_MODEL@, cfg.groq_model, PAGE_TAIL@);
    }
    assert(field_holds(settings_page_of(cfg), "name='groq_api_key' value='"@, cfg.groq_api_key)) by {
        assert(FIELD_GROQ_API_KEY@ == "name='groq_api_key' value='"@);
        let acc = PAGE_HEAD@ + page_part(FIELD_GLM_API_KEY@, cfg.glm_api_key, AFTER_GLM_API_KEY@) + page_part(FIELD_GLM_MODEL@, cfg.glm_model, AFTER_GLM_MODEL@) + page_part(FIELD_GLM_BASE_URL@, cfg.glm_base_url, AFTER_GLM_BASE_URL@) + page_part(FIELD_BRAVE_API_KEY@, cfg.brave_api_key, AFTER_BRAVE_API_KEY@) + page_part(FIELD_GROQ_API_KEY@, cfg.groq_api_key, AFTER_GROQ_API_KEY@);
        lemma_field_holds(PAGE_HEAD@ + page_part(FIELD_GLM_API_KEY@, cfg.glm_api_key, AFTER_GLM_API_KEY@) + page_part(FIELD_GLM_MODEL@, cfg.glm_model, AFTER_GLM_MODEL@) + page_part(FIELD_GLM_BASE_URL@, cfg.glm_base_url, AFTER_GLM_BASE_URL@) + page_part(FIELD_BRAVE_API_KEY@, cfg.brave_api_key, AFTER_BRAVE_API_KEY@), FIELD_GROQ_API_KEY@, cfg.groq_api_key, AFTER_GROQ_API_KEY@);
        lemma_field_holds_extended(acc, FIELD_GROQ_API_KEY@, cfg.groq_api_key, page_part(FIELD_GROQ_MODEL@, cfg.groq_model, PAGE_TAIL@));
        let acc = acc + page_part(FIELD_GROQ_MODEL@, cfg.groq_model, PAGE_TAIL@);
    }
    assert(field_holds(settings_page_of(cfg), "name='groq_model' value='"@, cfg.groq_model)) by {
        assert(FIELD_GROQ_MODEL@ == "name='groq_model' value='"@);
        let acc = PAGE_HEAD@ + page_part(FIELD_GLM_API_KEY@, cfg.glm_api_key, AFTER_GLM_API_KEY@) + page_part(FIELD_GLM_MODEL@, cfg.glm_model, AFTER_GLM_MODEL@) + page_part(FIELD_GLM_BASE_URL@, cfg.glm_base_url, AFTER_GLM_BASE_URL@) + page_part(FIELD_BRAVE_API_KEY@, cfg.brave_api_key, AFTER_BRAVE_API_KEY@) + page_part(FIELD_GROQ_API_KEY@, cfg.groq_api_key, AFTER_GROQ_API_KEY@) + page_part(FIELD_GROQ_MODEL@, cfg.groq_model, PAGE_TAIL@);
        lemma_field_holds(PAGE_HEAD@ + page_part(FIELD_GLM_API_KEY@, cfg.glm_api_key, AFTER_GLM_API_KEY@) + page_part(FIELD_GLM_MODEL@, cfg.glm_model, AFTER_GLM_MODEL@) + page_part(FIELD_GLM_BASE_URL@, cfg.glm_base_url, AFTER_GLM_BASE_URL@) + page_part(FIELD_BRAVE_API_KEY@, cfg.brave_api_key, AFTER_BRAVE_API_KEY@) + page_part(FIELD_GROQ_API_KEY@, cfg.groq_api_key, AFTER_GROQ_API_KEY@), FIELD_GROQ_MODEL@, cfg.groq_model, PAGE_TAIL@);
    }
}

/// The HTML of the settings page for `cfg`.
pub fn settings_page(cfg: &AppConfig) -> (res: String)
    ensures
        res@ == settings_page_of(*cfg),
{
    let mut out = String::from_str(PAGE_HEAD);
    out.append(FIELD_GLM_API_KEY);
    append_shown(&mut out, &cfg.glm_api_key);
    push_char(&mut out, '\'');
    out.append(AFTER_GLM_API_KEY);
    assert(out@ == PAGE_HEAD@ + page_part(FIELD_GLM_API_KEY@, cfg.glm_api_key, AFTER_GLM_API_KEY@));
    out.append(FIELD_GLM_MODEL);
    append_shown(&mut out, &cfg.glm_model);
    push_char(&mut out, '\'');
    out.append(AFTER_GLM_MODEL);
    assert(out@ == PAGE_HEAD@ + page_part(FIELD_GLM_API_KEY@, cfg.glm_api_key, AFTER_GLM_API_KEY@) + page_part(FIELD_GLM_MODEL@, cfg.glm_model, AFTER_GLM_MODEL@));
    out.append(FIELD_GLM_BASE_URL);
    append_shown(&mut out, &cfg.glm_base_url);
    push_char(&mut out, '\'');
    out.append(AFTER_GLM_BASE_URL);
    assert(out@ == PAGE_HEAD@ + page_part(FIELD_GLM_API_KEY@, cfg.glm_api_key, AFTER_GLM_API_KEY@) + page_part(FIELD_GLM_MODEL@, cfg.glm_model, AFTER_GLM_MODEL@) + page_part(FIELD_GLM_BASE_URL@, cfg.glm_base_url, AFTER_GLM_BASE_URL@));
    out.append(FIELD_BRAVE_API_KEY);
    append_shown(&mut out, &cfg.brave_api_key);
    push_char(&mut out, '\'');
    out.append(AFTER_BRAVE_API_KEY);
    assert(out@ == PAGE_HEAD@ + page_part(FIELD_GLM_API_KEY@, cfg.glm_api_key, AFTER_GLM_API_KEY@) + page_part(FIELD_GLM_MODEL@, cfg.glm_model, AFTER_GLM_MODEL@) + page_part(FIELD_GLM_BASE_URL@, cfg.glm_base_url, AFTER_GLM_BASE_URL@) + page_part(FIELD_BRAVE_API_KEY@, cfg.brave_api_key, AFTER_BRAVE_API_KEY@));
    out.append(FIELD_GROQ_API_KEY);
    append_shown(&mut out, &cfg.groq_api_key);
    push_char(&mut out, '\'');
    out.append(AFTER_GROQ_API_KEY);
    assert(out@ == PAGE_HEAD@ + page_part(FIELD_GLM_API_KEY@, cfg.glm_api_key, AFTER_GLM_API_KEY@) + page_part(FIELD_GLM_MODEL@, cfg.glm_model, AFTER_GLM_MODEL@) + page_part(FIELD_GLM_BASE_URL@, cfg.glm_base_url, AFTER_GLM_BASE_URL@) + page_part(FIELD_BRAVE_API_KEY@, cfg.brave_api_key, AFTER_BRAVE_API_KEY@) + page_part(FIELD_GROQ_API_KEY@, cfg.groq_api_key, AFTER_GROQ_API_KEY@));
    out.append(FIELD_GROQ_MODEL);
    append_shown(&mut out, &cfg.groq_model);
    push_char(&mut out, '\'');
    out.append(PAGE_TAIL);
    assert(out@ == PAGE_HEAD@ + page_part(FIELD_GLM_API_KEY@, cfg.glm_api_key, AFTER_GLM_API_KEY@) + page_part(FIELD_GLM_MODEL@, cfg.glm_model, AFTER_GLM_MODEL@) + page_part(FIELD_GLM_BASE_URL@, cfg.glm_base_url, AFTER_GLM_BASE_URL@) + page_part(FIELD_BRAVE_API_KEY@, cfg.brave_api_key, AFTER_BRAVE_API_KEY@) + page_part(FIELD_GROQ_API_KEY@, cfg.groq_api_key, AFTER_GROQ_API_KEY@) + page_part(FIELD_GROQ_MODEL@, cfg.groq_model, PAGE_TAIL@));
    out
}

/// The server's defaults for requests that leave a number at zero.
pub struct AppState {
    pub default_num_results: usize,
    pub default_summary_length: usize,
}

/// How a search request is carried out.
pub struct ResolvedSearch {
    pub kind: SearchKind,
    pub num_results: usize,
    pub summary_length: usize,
}

/// Resolves a search request: a zero count or length takes the server's
/// default, and `search_type` "news" (in any ASCII case) picks the news
/// agent, anything else the web agent.
pub fn resolve_search(state: &AppState, req: &SearchRequest) -> (res: ResolvedSearch)
    ensures
        res.num_results == (if req.num_results == 0 {
            state.default_num_results
        } else {
            req.num_results
        }),
        res.summary_length == (if req.summary_length == 0 {
            state.default_summary_length
        } else {
            req.summary_length
        }),
        res.kind == (if eq_ignore_ascii_case(req.search_type@, "news"@) {
            SearchKind::News
        } else {
            SearchKind::Web
        }),
{
    let num_results = if req.num_results == 0 {
        state.default_num_results
    } else {
        req.num_results
    };
    let summary_length = if req.summary_length == 0 {
        state.default_summary_length
    } else {
        req.summary_length
    };
    let kind = if same_text_ignore_ascii_case(req.search_type.as_str(), "news") {
        SearchKind::News
    } else {
        SearchKind::Web
    };
    ResolvedSearch { kind, num_results, summary_length }
}

} // verus!
