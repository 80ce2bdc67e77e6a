use vstd::prelude::*;

verus! {

/// The reply language used when the caller names none.
pub fn default_language() -> (r: String)
    ensures
        r@ == "Turkish"@,
{
    String::from_str("Turkish")
}

/// The built-in value of a configuration key that the process leaves unset.
pub open spec fn builtin_default(key: Seq<char>) -> Seq<char> {
    if key == "LLM_API_URL"@ {
        "https://ollama.com"@
    } else if key == "LLM_MODEL"@ {
        "llama3"@
    } else {
        Seq::empty()
    }
}

/// The value of a setting: the caller's when non-empty, else the process
/// setting `key` when it is set, else the key's built-in default.
pub open spec fn setting_value(form_val: Seq<char>, env_val: Option<Seq<char>>, key: Seq<char>) -> Seq<char> {
    if form_val.len() > 0 {
        form_val
    } else {
        match env_val {
            Some(v) => v,
            None => builtin_default(key),
        }
    }
}

fn builtin_default_of(key: &str) -> (r: &'static str)
    ensures
        r@ == builtin_default(key@),
{
    proof {
        reveal_strlit("");
        assert(""@ =~= Seq::<char>::empty());
    }
    if crate::text::same_text(key, "LLM_API_URL") {
        "https://ollama.com"
    } else if crate::text::same_text(key, "LLM_MODEL") {
        "llama3"
    } else {
        ""
    }
}

/// Picks a setting: a non-empty value from the request wins over the
/// process setting `env_key` (`env_val`), which wins over the built-in
/// default.
pub fn env_or(form_val: &str, env_val: Option<String>, env_key: &str) -> (r: String)
    ensures
        r@ == setting_value(form_val@, crate::text::opt_view(env_val), env_key@),
{
    if form_val.is_empty() {
        match env_val {
            Some(v) => v,
            None => String::from_str(builtin_default_of(env_key)),
        }
    } else {
        String::from_str(form_val)
    }
}

/// The reply language of a request: its own unless empty.
pub fn resolve_language(language: &str) -> (r: String)
    ensures
        language@.len() > 0 ==> r@ == language@,
        language@.len() == 0 ==> r@ == "Turkish"@,
{
    if language.is_empty() {
        default_language()
    } else {
        String::from_str(language)
    }
}

/// What the service tells about its configuration, without revealing
/// credentials.
#[derive(Clone, Debug, PartialEq, Eq)]
pub struct ConfigSummary {
    pub api_url: String,
    pub model: String,
    pub has_github_token: bool,
    pub has_api_key: bool,
}

/// The configuration summary from the process settings (`None`: unset).
pub fn config_summary(
    api_url: Option<String>,
    model: Option<String>,
    github_token: Option<String>,
    api_key: Option<String>,
) -> (r: ConfigSummary)
    ensures
        r.api_url@ == match api_url {
            Some(u) => u@,
            None => "https://ollama.com"@,
        },
        r.model@ == match model {
            Some(m) => m@,
            None => "llama3"@,
        },
        r.has_github_token == (github_token matches Some(t) && t@.len() > 0),
        r.has_api_key == (api_key matches Some(k) && k@.len() > 0),
{
    ConfigSummary {
        api_url: match api_url {
            Some(u) => u,
            None => String::from_str("https://ollama.com"),
        },
        model: match model {
            Some(m) => m,
            None => String::from_str("llama3"),
        },
        has_github_token: match &github_token {
            Some(t) => !t.as_str().is_empty(),
            None => false,
        },
        has_api_key: match &api_key {
            Some(k) => !k.as_str().is_empty(),
            None => false,
        },
    }
}

} // verus!
