use git2page::batch::{batch_contexts, batch_names, AnalysisRun, BatchResult, BatchVerdict, NextCall};
use git2page::model::{LlmProject, RepoInfo};

fn project(name: &str) -> LlmProject {
    LlmProject {
        name: name.to_string(),
        problem_solved: String::new(),
        detailed_description: String::new(),
        use_cases: vec![],
        tech_stack: vec![],
    }
}

fn reply(title: &str, names: &[&str]) -> BatchResult {
    BatchResult {
        hero_title: title.to_string(),
        bio: format!("{} bio", title),
        projects: names.iter().map(|n| project(n)).collect(),
    }
}

#[test]
fn first_batch_failure_is_fatal() {
    let mut run = AnalysisRun::new(10);
    assert_eq!(run.next_call(), NextCall::Full { start: 0, end: 8 });
    assert_eq!(run.record(Err("LLM API error".to_string())), BatchVerdict::Fatal);
    assert_eq!(run.next_call(), NextCall::Aborted);
    match run.finish() {
        Err(e) => assert_eq!(e, "LLM API error"),
        Ok(_) => panic!("a failed first batch must end the run"),
    }
}

#[test]
fn later_batch_failure_is_skipped() {
    let mut run = AnalysisRun::new(17);
    assert_eq!(run.next_call(), NextCall::Full { start: 0, end: 8 });
    assert_eq!(run.record(Ok(reply("Dev", &["a", "b"]))), BatchVerdict::Accepted);
    assert_eq!(run.next_call(), NextCall::ProjectsOnly { start: 8, end: 16 });
    assert_eq!(run.record(Err("timeout".to_string())), BatchVerdict::Skipped);
    assert_eq!(run.next_call(), NextCall::ProjectsOnly { start: 16, end: 17 });
    assert_eq!(run.record(Ok(reply("ignored", &["q"]))), BatchVerdict::Accepted);
    assert_eq!(run.next_call(), NextCall::Finished);
    let a = run.finish().ok().unwrap();
    assert_eq!(a.hero_title, "Dev");
    assert_eq!(a.bio, "Dev bio");
    let names: Vec<String> = a.projects.iter().map(|p| p.name.clone()).collect();
    assert_eq!(names, vec!["a".to_string(), "b".to_string(), "q".to_string()]);
}

#[test]
fn exact_multiple_of_batch_size() {
    let mut run = AnalysisRun::new(16);
    assert_eq!(run.next_call(), NextCall::Full { start: 0, end: 8 });
    run.record(Ok(reply("t", &[])));
    assert_eq!(run.next_call(), NextCall::ProjectsOnly { start: 8, end: 16 });
    run.record(Ok(reply("", &[])));
    assert_eq!(run.next_call(), NextCall::Finished);
}

#[test]
fn empty_catalog_has_no_batch() {
    let run = AnalysisRun::new(0);
    assert_eq!(run.next_call(), NextCall::Finished);
}

#[test]
fn batch_slices_follow_the_range() {
    let contexts: Vec<String> = (0..10).map(|i| format!("ctx{}", i)).collect();
    assert_eq!(batch_contexts(&contexts, 8, 10), vec!["ctx8".to_string(), "ctx9".to_string()]);
    let repos: Vec<RepoInfo> = (0..3)
        .map(|i| RepoInfo {
            name: format!("r{}", i),
            description: None,
            language: None,
            stars: 0,
            forks: 0,
            html_url: String::new(),
            topics: vec![],
        })
        .collect();
    assert_eq!(batch_names(&repos, 1, 3), vec!["r1".to_string(), "r2".to_string()]);
    assert!(batch_names(&repos, 2, 2).is_empty());
}
