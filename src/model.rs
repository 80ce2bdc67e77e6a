use vstd::prelude::*;
use crate::text::opt_view;

verus! {

/// A repository of the catalog, as the hosting service describes it.
#[derive(Clone, Debug, PartialEq, Eq)]
pub struct RepoInfo {
    pub name: String,
    pub description: Option<String>,
    pub language: Option<String>,
    pub stars: u32,
    pub forks: u32,
    pub html_url: String,
    pub topics: Vec<String>,
}

pub struct RepoModel {
    pub name: Seq<char>,
    pub description: Option<Seq<char>>,
    pub language: Option<Seq<char>>,
    pub stars: u32,
    pub forks: u32,
    pub html_url: Seq<char>,
    pub topics: Seq<Seq<char>>,
}

impl View for RepoInfo {
    type V = RepoModel;

    open spec fn view(&self) -> RepoModel {
        RepoModel {
            name: self.name@,
            description: opt_view(self.description),
            language: opt_view(self.language),
            stars: self.stars,
            forks: self.forks,
            html_url: self.html_url@,
            topics: self.topics.deep_view(),
        }
    }
}

/// The model's analysis of one repository.
#[derive(Clone, Debug, PartialEq, Eq)]
pub struct LlmProject {
    pub name: String,
    pub problem_solved: String,
    pub detailed_description: String,
    pub use_cases: Vec<String>,
    pub tech_stack: Vec<String>,
}

pub struct AnalysisModel {
    pub name: Seq<char>,
    pub problem_solved: Seq<char>,
    pub detailed_description: Seq<char>,
    pub use_cases: Seq<Seq<char>>,
    pub tech_stack: Seq<Seq<char>>,
}

impl View for LlmProject {
    type V = AnalysisModel;

    open spec fn view(&self) -> AnalysisModel {
        AnalysisModel {
            name: self.name@,
            problem_solved: self.problem_solved@,
            detailed_description: self.detailed_description@,
            use_cases: self.use_cases.deep_view(),
            tech_stack: self.tech_stack.deep_view(),
        }
    }
}

/// A display-ready card: repository metadata with its analysis.
#[derive(Clone, Debug, PartialEq, Eq)]
pub struct ProjectCard {
    pub name: String,
    pub problem_solved: String,
    pub detailed_description: String,
    pub use_cases: Vec<String>,
    pub tech_stack: Vec<String>,
    pub language: Option<String>,
    pub stars: u32,
    pub forks: u32,
    pub html_url: String,
    pub description: Option<String>,
}

pub struct CardModel {
    pub name: Seq<char>,
    pub problem_solved: Seq<char>,
    pub detailed_description: Seq<char>,
    pub use_cases: Seq<Seq<char>>,
    pub tech_stack: Seq<Seq<char>>,
    pub language: Option<Seq<char>>,
    pub stars: u32,
    pub forks: u32,
    pub html_url: Seq<char>,
    pub description: Option<Seq<char>>,
}

impl View for ProjectCard {
    type V = CardModel;

    open spec fn view(&self) -> CardModel {
        CardModel {
            name: self.name@,
            problem_solved: self.problem_solved@,
            detailed_description: self.detailed_description@,
            use_cases: self.use_cases.deep_view(),
            tech_stack: self.tech_stack.deep_view(),
            language: opt_view(self.language),
            stars: self.stars,
            forks: self.forks,
            html_url: self.html_url@,
            description: opt_view(self.description),
        }
    }
}

} // verus!
