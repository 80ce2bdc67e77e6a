use git2page::endpoint::{detect_api_mode, Dialect};

fn check(url: &str, dialect: Dialect, expected: &str) {
    let (d, u) = detect_api_mode(url);
    assert_eq!(d, dialect, "dialect of {}", url);
    assert_eq!(u, expected, "url of {}", url);
}

#[test]
fn versioned_url_is_openai() {
    check("https://x/v1", Dialect::OpenAiCompatible, "https://x/v1/chat/completions");
    check("https://x/v4/", Dialect::OpenAiCompatible, "https://x/v4/chat/completions");
}

#[test]
fn bare_api_is_native_chat() {
    check("https://x/api", Dialect::Native, "https://x/api/chat");
}

#[test]
fn default_port_is_native() {
    check("https://x:11434", Dialect::Native, "https://x:11434/api/chat");
    check("http://ollama.local", Dialect::Native, "http://ollama.local/api/chat");
}

#[test]
fn generate_is_rewritten_to_chat() {
    check("https://x/api/generate", Dialect::Native, "https://x/api/chat");
}

#[test]
fn unmatched_host_is_openai_default() {
    check("https://example.com", Dialect::OpenAiCompatible, "https://example.com/v1/chat/completions");
}

#[test]
fn full_paths_are_kept() {
    check("https://x/v1/chat/completions//", Dialect::OpenAiCompatible, "https://x/v1/chat/completions");
    check("https://x/api/chat", Dialect::Native, "https://x/api/chat");
}

#[test]
fn short_versioned_path_needs_a_host() {
    check("/v1", Dialect::OpenAiCompatible, "/v1/v1/chat/completions");
}
