use vstd::prelude::*;
use crate::model::{AnalysisModel, CardModel, LlmProject, ProjectCard, RepoInfo, RepoModel};
use crate::text::{copy_opt_text, copy_texts, lower_of, lowercase, same_text};

verus! {

/// The problem statement of a card whose repository has no description.
pub open spec fn no_description_text() -> Seq<char> {
    "No description available."@
}

/// The first analysis whose key (in `keys`, beside it) equals `key`.
pub open spec fn match_by_keys(results: Seq<AnalysisModel>, keys: Seq<Seq<char>>, key: Seq<char>) -> Option<AnalysisModel>
    decreases results.len(),
{
    if results.len() == 0 || keys.len() == 0 {
        None
    } else if keys[0] == key {
        Some(results[0])
    } else {
        match_by_keys(results.skip(1), keys.skip(1), key)
    }
}

/// The card of a repository, from its analysis when there is one, else
/// from its metadata alone.
pub open spec fn card_for(repo: RepoModel, found: Option<AnalysisModel>) -> CardModel {
    CardModel {
        name: repo.name,
        problem_solved: match found {
            Some(a) => a.problem_solved,
            None => match repo.description {
                Some(d) => d,
                None => no_description_text(),
            },
        },
        detailed_description: match found {
            Some(a) => a.detailed_description,
            None => Seq::empty(),
        },
        use_cases: match found {
            Some(a) => a.use_cases,
            None => Seq::empty(),
        },
        tech_stack: match found {
            Some(a) => a.tech_stack,
            None => match repo.language {
                Some(l) => seq![l],
                None => Seq::empty(),
            },
        },
        language: repo.language,
        stars: repo.stars,
        forks: repo.forks,
        html_url: repo.html_url,
        description: repo.description,
    }
}

/// One card per repository, each joined to the first analysis whose key
/// equals the repository's key.
pub open spec fn merged_by_keys(
    repos: Seq<RepoModel>,
    repo_keys: Seq<Seq<char>>,
    results: Seq<AnalysisModel>,
    result_keys: Seq<Seq<char>>,
) -> Seq<CardModel> {
    Seq::new(repos.len(), |i: int| card_for(repos[i], match_by_keys(results, result_keys, repo_keys[i])))
}

pub open spec fn repo_keys(repos: Seq<RepoModel>) -> Seq<Seq<char>> {
    repos.map_values(|r: RepoModel| lower_of(r.name))
}

pub open spec fn result_keys(results: Seq<AnalysisModel>) -> Seq<Seq<char>> {
    results.map_values(|a: AnalysisModel| lower_of(a.name))
}

/// One card per repository, each joined to the first analysis whose name
/// equals the repository's name in lower case.
pub open spec fn merged(repos: Seq<RepoModel>, results: Seq<AnalysisModel>) -> Seq<CardModel> {
    merged_by_keys(repos, repo_keys(repos), results, result_keys(results))
}

pub open spec fn cards_view(cards: Seq<ProjectCard>) -> Seq<CardModel> {
    cards.map_values(|c: ProjectCard| c@)
}

pub open spec fn repos_view(repos: Seq<RepoInfo>) -> Seq<RepoModel> {
    repos.map_values(|r: RepoInfo| r@)
}

pub open spec fn results_view(results: Seq<LlmProject>) -> Seq<AnalysisModel> {
    results.map_values(|a: LlmProject| a@)
}

fn find_by_key(results: &Vec<LlmProject>, keys: &Vec<String>, key: &str) -> (r: Option<usize>)
    requires
        keys@.len() == results@.len(),
    ensures
        match r {
            Some(j) => j < results@.len() && match_by_keys(results_view(results@), keys.deep_view(), key@) == Some(results@[j as int]@),
            None => match_by_keys(results_view(results@), keys.deep_view(), key@) is None,
        },
{
    let ghost all = results_view(results@);
    let ghost ks = keys.deep_view();
    let mut i: usize = 0;
    proof {
        assert(all.skip(0) =~= all);
        assert(ks.skip(0) =~= ks);
    }
    while i < results.len()
        invariant
            i <= results@.len(),
            keys@.len() == results@.len(),
            all == results_view(results@),
            ks == keys.deep_view(),
            match_by_keys(all, ks, key@) == match_by_keys(all.skip(i as int), ks.skip(i as int), key@),
        decreases results@.len() - i,
    {
        proof {
            assert(all.skip(i as int)[0] == results@[i as int]@);
            assert(ks.skip(i as int)[0] == keys@[i as int]@);
            assert(all.skip(i as int).skip(1) =~= all.skip(i + 1));
            assert(ks.skip(i as int).skip(1) =~= ks.skip(i + 1));
        }
        if same_text(keys[i].as_str(), key) {
            return Some(i);
        }
        i = i + 1;
    }
    None
}

fn make_card(repo: &RepoInfo, found: Option<&LlmProject>) -> (c: ProjectCard)
    ensures
        c@ == card_for(repo@, match found { Some(a) => Some(a@), None => None }),
{
    let (problem_solved, detailed_description, use_cases, tech_stack) = match found {
        Some(a) => (a.problem_solved.clone(), a.detailed_description.clone(), copy_texts(&a.use_cases), copy_texts(&a.tech_stack)),
        None => {
            let p = match &repo.description {
                Some(d) => d.clone(),
                None => String::from_str("No description available."),
            };
            let t = match &repo.language {
                Some(l) => {
                    let v = vec![l.clone()];
                    proof {
                        assert(v.deep_view() =~= seq![l@]);
                    }
                    v
                },
                None => {
                    let v: Vec<String> = Vec::new();
                    proof {
                        assert(v.deep_view() =~= Seq::<Seq<char>>::empty());
                    }
                    v
                },
            };
            (p, String::new(), Vec::new(), t)
        },
    };
    let c = ProjectCard {
        name: repo.name.clone(),
        problem_solved,
        detailed_description,
        use_cases,
        tech_stack,
        language: copy_opt_text(&repo.language),
        stars: repo.stars,
        forks: repo.forks,
        html_url: repo.html_url.clone(),
        description: copy_opt_text(&repo.description),
    };
    proof {
        assert(c.use_cases.deep_view() =~= card_for(repo@, match found { Some(a) => Some(a@), None => None }).use_cases);
    }
    c
}

/// Builds one card per repository, in catalog order, joining each to the
/// first analysis whose key (given beside it) equals the repository's key.
pub fn merge_cards_by_keys(
    repos: &Vec<RepoInfo>,
    repo_keys: &Vec<String>,
    results: &Vec<LlmProject>,
    result_keys: &Vec<String>,
) -> (cards: Vec<ProjectCard>)
    requires
        repo_keys@.len() == repos@.len(),
        result_keys@.len() == results@.len(),
    ensures
        cards@.len() == repos@.len(),
        cards_view(cards@) == merged_by_keys(repos_view(repos@), repo_keys.deep_view(), results_view(results@), result_keys.deep_view()),
{
    let ghost target = merged_by_keys(repos_view(repos@), repo_keys.deep_view(), results_view(results@), result_keys.deep_view());
    let mut cards: Vec<ProjectCard> = Vec::new();
    let mut i: usize = 0;
    while i < repos.len()
        invariant
            i <= repos@.len(),
            repo_keys@.len() == repos@.len(),
            result_keys@.len() == results@.len(),
            target == merged_by_keys(repos_view(repos@), repo_keys.deep_view(), results_view(results@), result_keys.deep_view()),
            cards@.len() == i,
            cards_view(cards@) == target.take(i as int),
        decreases repos@.len() - i,
    {
        let found = match find_by_key(results, result_keys, repo_keys[i].as_str()) {
            Some(j) => Some(&results[j]),
            None => None,
        };
        let c = make_card(&repos[i], found);
        cards.push(c);
        proof {
            assert(cards_view(cards@) =~= target.take(i + 1));
        }
        i = i + 1;
    }
    proof {
        assert(cards_view(cards@) =~= target);
    }
    cards
}

fn name_keys_of_repos(repos: &Vec<RepoInfo>) -> (keys: Vec<String>)
    ensures
        keys@.len() == repos@.len(),
        keys.deep_view() == repo_keys(repos_view(repos@)),
{
    let mut keys: Vec<String> = Vec::new();
    let mut i: usize = 0;
    while i < repos.len()
        invariant
            i <= repos@.len(),
            keys.deep_view() == repo_keys(repos_view(repos@)).take(i as int),
        decreases repos@.len() - i,
    {
        let ghost before = keys.deep_view();
        let k = lowercase(repos[i].name.as_str());
        keys.push(k);
        proof {
            assert(keys.deep_view() =~= before.push(lower_of(repos_view(repos@)[i as int].name)));
            assert(keys.deep_view() =~= repo_keys(repos_view(repos@)).take(i + 1));
        }
        i = i + 1;
    }
    proof {
        assert(keys.deep_view() =~= repo_keys(repos_view(repos@)));
    }
    keys
}

fn name_keys_of_results(results: &Vec<LlmProject>) -> (keys: Vec<String>)
    ensures
        keys@.len() == results@.len(),
        keys.deep_view() == result_keys(results_view(results@)),
{
    let mut keys: Vec<String> = Vec::new();
    let mut i: usize = 0;
    while i < results.len()
        invariant
            i <= results@.len(),
            keys.deep_view() == result_keys(results_view(results@)).take(i as int),
        decreases results@.len() - i,
    {
        let ghost before = keys.deep_view();
        let k = lowercase(results[i].name.as_str());
        keys.push(k);
        proof {
            assert(keys.deep_view() =~= before.push(lower_of(results_view(results@)[i as int].name)));
            assert(keys.deep_view() =~= result_keys(results_view(results@)).take(i + 1));
        }
        i = i + 1;
    }
    proof {
        assert(keys.deep_view() =~= result_keys(results_view(results@)));
    }
    keys
}

/// Builds one card per repository, in catalog order: each takes the
/// analysis fields of the first result whose name equals the repository's
/// name in lower case, or falls back to the repository's own metadata.
pub fn merge_cards(repos: &Vec<RepoInfo>, results: &Vec<LlmProject>) -> (cards: Vec<ProjectCard>)
    ensures
        cards@.len() == repos@.len(),
        cards_view(cards@) == merged(repos_view(repos@), results_view(results@)),
{
    let rk = name_keys_of_repos(repos);
    let ak = name_keys_of_results(results);
    merge_cards_by_keys(repos, &rk, results, &ak)
}

/// Merging yields exactly one card per repository, whatever the analysis
/// results are (none at all included).
pub proof fn lemma_one_card_per_repository(repos: Seq<RepoModel>, results: Seq<AnalysisModel>)
    ensures
        merged(repos, results).len() == repos.len(),
        forall|i: int| 0 <= i < repos.len() ==> (#[trigger] merged(repos, results)[i]).name == repos[i].name,
{
}

proof fn lemma_first_key_match(results: Seq<AnalysisModel>, keys: Seq<Seq<char>>, key: Seq<char>, j: int)
    requires
        keys.len() == results.len(),
        0 <= j < results.len(),
        keys[j] == key,
        forall|k: int| 0 <= k < j ==> keys[k] != key,
    ensures
        match_by_keys(results, keys, key) == Some(results[j]),
    decreases j,
{
    if j > 0 {
        assert forall|k: int| 0 <= k < j - 1 implies keys.skip(1)[k] != key by {
            assert(keys.skip(1)[k] == keys[k + 1]);
        }
        lemma_first_key_match(results.skip(1), keys.skip(1), key, j - 1);
    }
}

/// Names are matched case-insensitively: a repository takes the analysis
/// of the first result whose name has the same lower-case form as its own,
/// whatever the case of either name.
pub proof fn lemma_match_ignores_case(repos: Seq<RepoModel>, results: Seq<AnalysisModel>, i: int, j: int)
    requires
        0 <= i < repos.len(),
        0 <= j < results.len(),
        lower_of(results[j].name) == lower_of(repos[i].name),
        forall|k: int| 0 <= k < j ==> lower_of(#[trigger] results[k].name) != lower_of(repos[i].name),
    ensures
        merged(repos, results)[i] == card_for(repos[i], Some(results[j])),
        merged(repos, results)[i].problem_solved == results[j].problem_solved,
        merged(repos, results)[i].detailed_description == results[j].detailed_description,
        merged(repos, results)[i].use_cases == results[j].use_cases,
        merged(repos, results)[i].tech_stack == results[j].tech_stack,
{
    let keys = result_keys(results);
    assert forall|k: int| 0 <= k < j implies keys[k] != lower_of(repos[i].name) by {
        assert(keys[k] == lower_of(results[k].name));
    }
    lemma_first_key_match(results, keys, lower_of(repos[i].name), j);
}

/// Merging is a function of its inputs: two merges of the same catalog and
/// results give the same cards.
pub proof fn lemma_merge_repeatable(
    repos: Seq<RepoModel>,
    results: Seq<AnalysisModel>,
    first: Seq<ProjectCard>,
    second: Seq<ProjectCard>,
)
    requires
        cards_view(first) == merged(repos, results),
        cards_view(second) == merged(repos, results),
    ensures
        cards_view(first) == cards_view(second),
{
}

} // verus!
