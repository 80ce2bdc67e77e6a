use git2page::collector::{EvidenceCollector, Fetch, Phase};
use git2page::evidence::{budgets, header_text, Budgets, DirEntry};
use git2page::model::RepoInfo;

fn repo(topics: &[&str]) -> RepoInfo {
    RepoInfo {
        name: "tool".to_string(),
        description: Some("Does things".to_string()),
        language: None,
        stars: 42,
        forks: 7,
        html_url: "https://github.com/u/tool".to_string(),
        topics: topics.iter().map(|t| t.to_string()).collect(),
    }
}

fn file(name: &str) -> DirEntry {
    DirEntry { kind: "file".to_string(), name: name.to_string() }
}

fn dir(name: &str) -> DirEntry {
    DirEntry { kind: "dir".to_string(), name: name.to_string() }
}

fn fetched_path(c: &EvidenceCollector) -> String {
    match c.next_fetch() {
        Some(Fetch::File(p)) => p,
        _ => panic!("a file fetch was expected"),
    }
}

#[test]
fn budgets_shrink_above_fifteen() {
    assert_eq!(budgets(15), Budgets { readme: 1000, source: 1200, manifest: 300 });
    assert_eq!(budgets(16), Budgets { readme: 600, source: 800, manifest: 300 });
    assert_eq!(budgets(1), Budgets { readme: 1000, source: 1200, manifest: 300 });
}

#[test]
fn header_line_spells_metadata() {
    assert_eq!(
        header_text(&repo(&[])),
        "Repo: tool | Stars: 42 | Forks: 7 | Language: N/A | Description: Does things"
    );
    assert_eq!(
        header_text(&repo(&["cli", "rust"])),
        "Repo: tool | Stars: 42 | Forks: 7 | Language: N/A | Description: Does things | Topics: cli, rust"
    );
}

#[test]
fn readme_found_ends_with_manifests() {
    let mut c = EvidenceCollector::start(&repo(&[]), 20);
    assert_eq!(fetched_path(&c), "README.md");
    c.on_file(None);
    assert_eq!(fetched_path(&c), "readme.md");
    c.on_file(Some("x".repeat(2000)));
    assert_eq!(c.phase, Phase::Manifest(0));
    assert_eq!(fetched_path(&c), "Cargo.toml");
    c.on_file(None);
    assert_eq!(fetched_path(&c), "package.json");
    c.on_file(Some("y".repeat(1000)));
    assert!(c.next_fetch().is_none());
    let rec = c.finish();
    assert_eq!(rec.readme.as_ref().unwrap().chars().count(), 600);
    assert_eq!(rec.manifest.as_ref().unwrap().text.chars().count(), 300);
    assert_eq!(rec.manifest.as_ref().unwrap().label, "package.json");
    let text = rec.render();
    assert!(text.starts_with("Repo: tool | Stars: 42"));
    assert!(text.contains("\nREADME (truncated):\nxxx"));
    assert!(text.contains("\npackage.json (truncated):\nyyy"));
    assert!(!text.contains("FILE STRUCTURE"));
}

#[test]
fn small_catalog_keeps_longer_readme() {
    let mut c = EvidenceCollector::start(&repo(&[]), 3);
    c.on_file(Some("é".repeat(1500)));
    let mut guard = 0;
    while c.next_fetch().is_some() && guard < 20 {
        c.on_file(None);
        guard += 1;
    }
    let rec = c.finish();
    assert_eq!(rec.readme.unwrap().chars().count(), 1000);
}

#[test]
fn without_readme_sources_are_read() {
    let mut c = EvidenceCollector::start(&repo(&[]), 2);
    for _ in 0..3 {
        c.on_file(None);
    }
    for _ in 0..8 {
        c.on_file(None);
    }
    assert!(matches!(c.next_fetch(), Some(Fetch::ListRoot)));
    c.on_listing(Some(vec![file("README.txt"), file("setup.py"), dir("docs"), file("tool.py")]));
    assert!(matches!(c.next_fetch(), Some(Fetch::ListSrc)));
    c.on_listing(Some(vec![file("main.rs"), file("util.rs")]));
    assert_eq!(fetched_path(&c), "src/main.rs");
    c.on_file(Some("fn main() {}".to_string()));
    assert!(c.next_fetch().is_none());
    let rec = c.finish();
    assert_eq!(
        rec.listing,
        Some(vec![
            "README.txt".to_string(),
            "setup.py".to_string(),
            "tool.py".to_string(),
            "src/main.rs".to_string(),
            "src/util.rs".to_string(),
        ])
    );
    assert!(!rec.no_evidence);
    let text = rec.render();
    assert!(text.ends_with(
        "\nFILE STRUCTURE: [README.txt, setup.py, tool.py, src/main.rs, src/util.rs]\nSOURCE CODE (src/main.rs):\nfn main() {}"
    ));
}

#[test]
fn source_excerpts_keep_budget() {
    let mut c = EvidenceCollector::start(&repo(&[]), 30);
    for _ in 0..11 {
        c.on_file(None);
    }
    c.on_listing(None);
    c.on_listing(Some(vec![file("a.py"), file("b.py"), file("c.py")]));
    assert_eq!(fetched_path(&c), "src/a.py");
    c.on_file(Some("a".repeat(5000)));
    assert_eq!(fetched_path(&c), "src/b.py");
    c.on_file(Some("b".repeat(10)));
    let rec = c.finish();
    assert_eq!(rec.sources.len(), 2);
    assert_eq!(rec.sources[0].text.len(), 800);
    assert_eq!(rec.sources[1].text, "bbbbbbbbbb");
}

#[test]
fn nothing_found_gives_marker() {
    let mut c = EvidenceCollector::start(&repo(&["x"]), 1);
    for _ in 0..11 {
        c.on_file(None);
    }
    c.on_listing(None);
    c.on_listing(None);
    assert!(c.next_fetch().is_none());
    let rec = c.finish();
    assert!(rec.no_evidence);
    assert_eq!(rec.listing, None);
    assert!(rec
        .render()
        .ends_with("\n[No README or source files found — analyze from repo name, language, and description]"));
}

#[test]
fn failed_source_reads_give_marker() {
    let mut c = EvidenceCollector::start(&repo(&[]), 1);
    for _ in 0..11 {
        c.on_file(None);
    }
    c.on_listing(Some(vec![file("main.go"), file("notes.md")]));
    c.on_listing(None);
    assert_eq!(fetched_path(&c), "main.go");
    c.on_file(None);
    let rec = c.finish();
    assert!(rec.no_evidence);
    let text = rec.render();
    assert!(text.contains("FILE STRUCTURE: [main.go, notes.md]"));
    assert!(text.ends_with("[No README or source files found — analyze from repo name, language, and description]"));
}

#[test]
fn listing_shows_twenty_files() {
    let mut c = EvidenceCollector::start(&repo(&[]), 1);
    for _ in 0..11 {
        c.on_file(None);
    }
    let many: Vec<DirEntry> = (0..25).map(|i| file(&format!("f{}.txt", i))).collect();
    c.on_listing(Some(many));
    c.on_listing(None);
    assert_eq!(c.files.len(), 25);
    assert_eq!(c.record.listing.as_ref().unwrap().len(), 20);
    assert!(c.record.no_evidence);
}
