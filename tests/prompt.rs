use git2page::prompt::{build_llm_prompt_batch, build_llm_prompt_full, clean_reply, system_message};
use git2page::reply::{content_path, reply_text, LlmError, PathStep};
use git2page::endpoint::Dialect;
use git2page::catalog::GitHubRepo;
use git2page::prompt::build_prompt;

fn texts(v: &[&str]) -> Vec<String> {
    v.iter().map(|s| s.to_string()).collect()
}

#[test]
fn full_prompt_lists_names_and_count() {
    let p = build_llm_prompt_full("octo", &texts(&["ctx a", "ctx b"]), "English", &texts(&["a", "b"]));
    assert!(p.starts_with("You are a senior software analyst and branding expert."));
    assert!(p.contains("- Respond ENTIRELY in English.\n"));
    assert!(p.contains("Required repos (you MUST include ALL of these): [a, b]"));
    assert!(p.contains("GitHub User: octo\n\nRepository Data:\nctx a\n\n---\n\nctx b\n\n"));
    assert!(p.contains("(include ALL 2 repositories):\n{\n  \"hero_title\""));
    assert!(p.ends_with("\"tech_stack\": [\"technology1\", \"technology2\", \"technology3\"]\n    }\n  ]\n}"));
}

#[test]
fn batch_prompt_asks_for_projects_only() {
    let p = build_llm_prompt_batch(&texts(&["c"]), "Turkish", &texts(&["z"]));
    assert!(p.starts_with("You are a senior software analyst. Analyze the following repositories deeply."));
    assert!(p.contains("EVERY repository: [z]"));
    assert!(p.contains("(include ALL 1 repositories):\n{\n  \"projects\""));
    assert!(!p.contains("hero_title"));
}

#[test]
fn system_messages_fix_language() {
    assert_eq!(
        system_message(false, "German"),
        "You are a senior software analyst. Respond ONLY with valid JSON. No markdown fences, no extra text. All text content must be in German."
    );
    assert!(system_message(true, "German").starts_with("You are a senior software analyst and branding expert."));
}

#[test]
fn fences_are_stripped() {
    assert_eq!(clean_reply("  ```json\n{\"a\": 1}\n```  "), "{\"a\": 1}");
    assert_eq!(clean_reply("```\n[]\n```"), "[]");
    assert_eq!(clean_reply("{}"), "{}");
    assert_eq!(clean_reply("\u{3000} x \n"), "x");
}

#[test]
fn reply_path_per_dialect() {
    assert_eq!(content_path(Dialect::Native), vec![PathStep::Key("message"), PathStep::Key("content")]);
    assert_eq!(
        content_path(Dialect::OpenAiCompatible),
        vec![PathStep::Key("choices"), PathStep::Index(0), PathStep::Key("message"), PathStep::Key("content")]
    );
}

#[test]
fn missing_content_is_format_error() {
    assert_eq!(reply_text(None), Err(LlmError::Format));
    assert_eq!(reply_text(Some("```json {} ```")), Ok("{}".to_string()));
}

fn listed(name: &str, language: Option<&str>, stars: u32, topics: &[&str], description: Option<&str>) -> GitHubRepo {
    GitHubRepo {
        name: name.to_string(),
        description: description.map(|d| d.to_string()),
        language: language.map(|l| l.to_string()),
        stargazers_count: stars,
        forks_count: 1,
        html_url: String::new(),
        topics: texts(topics),
        fork: false,
    }
}

#[test]
fn single_prompt_lists_metadata() {
    let repos = vec![listed("a", Some("Rust"), 3, &["x", "y"], Some("d")), listed("b", None, 0, &[], None)];
    let p = build_prompt("octo", &repos, "English");
    assert!(p.starts_with(
        "You are a senior software analyst and branding expert. Return ONLY valid JSON in English.\n\nUser: octo\nRepositories:\n"
    ));
    assert!(p.contains(
        "Repositories:\n- a | lang: Rust | stars: 3 | forks: 1 | topics: x, y | desc: d\n- b | lang: unknown | stars: 0 | forks: 1 | topics: none | desc: \n\n\nReturn this JSON shape:\n{\n  \"hero_title\": \"...\","
    ));
    assert!(p.ends_with("- Keep descriptions concise and factual."));
}
