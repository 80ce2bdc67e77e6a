use git2page::merge::merge_cards;
use git2page::model::{LlmProject, RepoInfo};

fn repo(name: &str, description: Option<&str>, language: Option<&str>, stars: u32) -> RepoInfo {
    RepoInfo {
        name: name.to_string(),
        description: description.map(|s| s.to_string()),
        language: language.map(|s| s.to_string()),
        stars,
        forks: 1,
        html_url: format!("https://github.com/u/{}", name),
        topics: vec![],
    }
}

fn analysis(name: &str, problem: &str) -> LlmProject {
    LlmProject {
        name: name.to_string(),
        problem_solved: problem.to_string(),
        detailed_description: format!("{} in detail.", problem),
        use_cases: vec!["one".to_string(), "two".to_string()],
        tech_stack: vec!["Rust".to_string()],
    }
}

#[test]
fn single_repository_without_analysis_falls_back() {
    let repos = vec![repo("alpha", None, None, 5)];
    let cards = merge_cards(&repos, &vec![]);
    assert_eq!(cards.len(), 1);
    assert_eq!(cards[0].name, "alpha");
    assert_eq!(cards[0].problem_solved, "No description available.");
    assert_eq!(cards[0].detailed_description, "");
    assert!(cards[0].use_cases.is_empty());
    assert!(cards[0].tech_stack.is_empty());
    assert_eq!(cards[0].stars, 5);
}

#[test]
fn fallback_uses_description_and_language() {
    let repos = vec![repo("alpha", Some("A tool."), Some("Go"), 5)];
    let cards = merge_cards(&repos, &vec![]);
    assert_eq!(cards[0].problem_solved, "A tool.");
    assert_eq!(cards[0].tech_stack, vec!["Go".to_string()]);
    assert_eq!(cards[0].description, Some("A tool.".to_string()));
    assert_eq!(cards[0].language, Some("Go".to_string()));
}

#[test]
fn names_match_ignoring_case() {
    let repos = vec![repo("my-repo", Some("desc"), Some("Rust"), 3)];
    let results = vec![analysis("My-Repo", "Solves it.")];
    let cards = merge_cards(&repos, &results);
    assert_eq!(cards[0].problem_solved, "Solves it.");
    assert_eq!(cards[0].detailed_description, "Solves it. in detail.");
    assert_eq!(cards[0].use_cases, vec!["one".to_string(), "two".to_string()]);
    assert_eq!(cards[0].tech_stack, vec!["Rust".to_string()]);
    assert_eq!(cards[0].description, Some("desc".to_string()));
    assert_eq!(cards[0].name, "my-repo");
}

#[test]
fn first_match_wins() {
    let repos = vec![repo("dup", None, None, 0)];
    let results = vec![analysis("DUP", "first"), analysis("dup", "second")];
    let cards = merge_cards(&repos, &results);
    assert_eq!(cards[0].problem_solved, "first");
}

#[test]
fn one_card_per_repository() {
    let repos: Vec<RepoInfo> = (0..11).map(|i| repo(&format!("r{}", i), None, Some("C"), i)).collect();
    let results = vec![analysis("r3", "x"), analysis("unknown", "y")];
    let cards = merge_cards(&repos, &results);
    assert_eq!(cards.len(), 11);
    assert_eq!(cards[3].problem_solved, "x");
    assert_eq!(cards[4].problem_solved, "No description available.");
    for (i, c) in cards.iter().enumerate() {
        assert_eq!(c.name, format!("r{}", i));
    }
}

#[test]
fn merging_twice_gives_same_cards() {
    let repos = vec![repo("a", Some("d"), Some("Rust"), 1), repo("b", None, None, 2)];
    let results = vec![analysis("B", "bee")];
    let first = merge_cards(&repos, &results);
    let second = merge_cards(&repos, &results);
    assert_eq!(first, second);
}
