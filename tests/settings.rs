use git2page::catalog::{catalog_from_listing, GitHubRepo};
use git2page::settings::{config_summary, default_language, env_or, resolve_language};

#[test]
fn request_value_wins() {
    assert_eq!(env_or("http://mine", Some("http://env".to_string()), "LLM_API_URL"), "http://mine");
}

#[test]
fn process_value_then_builtin_default() {
    assert_eq!(env_or("", Some("http://env".to_string()), "LLM_API_URL"), "http://env");
    assert_eq!(env_or("", None, "LLM_API_URL"), "https://ollama.com");
    assert_eq!(env_or("", None, "LLM_MODEL"), "llama3");
    assert_eq!(env_or("", None, "GITHUB_TOKEN"), "");
}

#[test]
fn language_defaults_to_turkish() {
    assert_eq!(default_language(), "Turkish");
    assert_eq!(resolve_language(""), "Turkish");
    assert_eq!(resolve_language("English"), "English");
}

#[test]
fn summary_hides_credentials() {
    let s = config_summary(None, Some("qwen".to_string()), Some(String::new()), Some("k".to_string()));
    assert_eq!(s.api_url, "https://ollama.com");
    assert_eq!(s.model, "qwen");
    assert!(!s.has_github_token);
    assert!(s.has_api_key);
}

fn listed(name: &str, fork: bool) -> GitHubRepo {
    GitHubRepo {
        name: name.to_string(),
        description: None,
        language: Some("Rust".to_string()),
        stargazers_count: 3,
        forks_count: 0,
        html_url: format!("https://github.com/u/{}", name),
        topics: vec!["t".to_string()],
        fork,
    }
}

#[test]
fn forks_are_left_out() {
    let listing = vec![listed("a", false), listed("b", true), listed("c", false), listed("d", true)];
    let catalog = catalog_from_listing(&listing);
    let names: Vec<&str> = catalog.iter().map(|r| r.name.as_str()).collect();
    assert_eq!(names, vec!["a", "c"]);
    assert_eq!(catalog[0].stars, 3);
    assert_eq!(catalog[0].topics, vec!["t".to_string()]);
    assert_eq!(catalog[1].html_url, "https://github.com/u/c");
}
