use vstd::prelude::*;
use crate::model::{RepoInfo, RepoModel};
use crate::text::{concat2, decimal, decimal_text, join, join_texts, opt_view};

verus! {

/// Character budgets of the excerpts of one evidence record.
#[derive(PartialEq, Eq, Structural, Clone, Copy, Debug)]
pub struct Budgets {
    pub readme: usize,
    pub source: usize,
    pub manifest: usize,
}

/// The budgets for a catalog of `n` repositories: tighter above fifteen.
pub open spec fn budgets_for(n: nat) -> Budgets {
    if n > 15 {
        Budgets { readme: 600, source: 800, manifest: 300 }
    } else {
        Budgets { readme: 1000, source: 1200, manifest: 300 }
    }
}

/// The excerpt budgets for a catalog of `repo_count` repositories.
pub fn budgets(repo_count: usize) -> (b: Budgets)
    ensures
        b == budgets_for(repo_count as nat),
{
    if repo_count > 15 {
        Budgets { readme: 600, source: 800, manifest: 300 }
    } else {
        Budgets { readme: 1000, source: 1200, manifest: 300 }
    }
}

/// README file names tried, in order.
pub open spec fn readme_candidates() -> Seq<Seq<char>> {
    seq!["README.md"@, "readme.md"@, "Readme.md"@]
}

/// Build and dependency manifests tried, in order.
pub open spec fn manifest_candidates() -> Seq<Seq<char>> {
    seq![
        "Cargo.toml"@, "package.json"@, "pyproject.toml"@, "go.mod"@,
        "requirements.txt"@, "setup.py"@, "build.gradle"@, "pom.xml"@,
    ]
}

pub(crate) fn readme_candidate(i: usize) -> (r: &'static str)
    requires
        i < readme_candidates().len(),
    ensures
        r@ == readme_candidates()[i as int],
{
    let t = vec!["README.md", "readme.md", "Readme.md"];
    t[i]
}

pub(crate) fn manifest_candidate(i: usize) -> (r: &'static str)
    requires
        i < manifest_candidates().len(),
    ensures
        r@ == manifest_candidates()[i as int],
{
    let t = vec![
        "Cargo.toml", "package.json", "pyproject.toml", "go.mod",
        "requirements.txt", "setup.py", "build.gradle", "pom.xml",
    ];
    t[i]
}

/// A labelled piece of file content.
#[derive(Clone, Debug, PartialEq, Eq)]
pub struct Excerpt {
    pub label: String,
    pub text: String,
}

/// One entry of a directory listing.
#[derive(Clone, Debug, PartialEq, Eq)]
pub struct DirEntry {
    /// `file`, `dir`, ...
    pub kind: String,
    pub name: String,
}

/// The evidence gathered for one repository.
#[derive(Clone, Debug, PartialEq, Eq)]
pub struct EvidenceRecord {
    /// The metadata line.
    pub header: String,
    /// The README, truncated.
    pub readme: Option<String>,
    /// The first manifest found, labelled by its file name, truncated.
    pub manifest: Option<Excerpt>,
    /// The first files of the listing, when files were discovered.
    pub listing: Option<Vec<String>>,
    /// Source files read, labelled by path, truncated.
    pub sources: Vec<Excerpt>,
    /// Neither a README nor any source file could be read.
    pub no_evidence: bool,
}

impl EvidenceRecord {
    /// Every excerpt keeps to its budget.
    pub open spec fn within(&self, b: Budgets) -> bool {
        &&& (self.readme matches Some(t) ==> t@.len() <= b.readme)
        &&& (self.manifest matches Some(e) ==> e.text@.len() <= b.manifest)
        &&& forall|i: int| 0 <= i < self.sources@.len() ==> (#[trigger] self.sources@[i]).text@.len() <= b.source
    }
}

pub open spec fn or_na(o: Option<Seq<char>>) -> Seq<char> {
    match o {
        Some(s) => s,
        None => "N/A"@,
    }
}

/// The metadata line of a repository.
pub open spec fn header_line(r: RepoModel) -> Seq<char> {
    "Repo: "@ + r.name + " | Stars: "@ + decimal(r.stars as nat) + " | Forks: "@ + decimal(r.forks as nat)
        + " | Language: "@ + or_na(r.language) + " | Description: "@ + or_na(r.description)
        + if r.topics.len() > 0 {
        " | Topics: "@ + join(r.topics, ", "@)
    } else {
        Seq::empty()
    }
}

pub open spec fn no_evidence_marker() -> Seq<char> {
    "\n[No README or source files found — analyze from repo name, language, and description]"@
}

pub open spec fn sources_text(s: Seq<Excerpt>) -> Seq<char>
    decreases s.len(),
{
    if s.len() == 0 {
        Seq::empty()
    } else {
        sources_text(s.drop_last()) + "\nSOURCE CODE ("@ + s.last().label@ + "):\n"@ + s.last().text@
    }
}

pub open spec fn readme_part(o: Option<String>) -> Seq<char> {
    match o {
        Some(t) => "\nREADME (truncated):\n"@ + t@,
        None => Seq::empty(),
    }
}

pub open spec fn manifest_part(o: Option<Excerpt>) -> Seq<char> {
    match o {
        Some(e) => "\n"@ + e.label@ + " (truncated):\n"@ + e.text@,
        None => Seq::empty(),
    }
}

pub open spec fn listing_part(o: Option<Vec<String>>) -> Seq<char> {
    match o {
        Some(l) => "\nFILE STRUCTURE: ["@ + join(l.deep_view(), ", "@) + "]"@,
        None => Seq::empty(),
    }
}

pub open spec fn marker_part(no_evidence: bool) -> Seq<char> {
    if no_evidence {
        no_evidence_marker()
    } else {
        Seq::empty()
    }
}

/// The text of an evidence record, as it goes into a prompt.
pub open spec fn record_text(r: EvidenceRecord) -> Seq<char> {
    r.header@ + readme_part(r.readme) + manifest_part(r.manifest) + listing_part(r.listing)
        + sources_text(r.sources@) + marker_part(r.no_evidence)
}

fn text_or_na(o: &Option<String>) -> (r: &str)
    ensures
        r@ == or_na(opt_view(*o)),
{
    match o {
        Some(s) => s.as_str(),
        None => "N/A",
    }
}

/// The metadata line of a repository.
pub fn header_text(repo: &RepoInfo) -> (r: String)
    ensures
        r@ == header_line(repo@),
{
    let mut r = String::from_str("Repo: ");
    r.append(repo.name.as_str());
    r.append(" | Stars: ");
    let stars = decimal_text(repo.stars as u64);
    r.append(stars.as_str());
    r.append(" | Forks: ");
    let forks = decimal_text(repo.forks as u64);
    r.append(forks.as_str());
    r.append(" | Language: ");
    r.append(text_or_na(&repo.language));
    r.append(" | Description: ");
    r.append(text_or_na(&repo.description));
    if repo.topics.len() > 0 {
        r.append(" | Topics: ");
        let topics = join_texts(&repo.topics, ", ");
        r.append(topics.as_str());
    } else {
        proof {
            assert(r@ + Seq::<char>::empty() =~= r@);
        }
    }
    r
}

fn readme_text(o: &Option<String>) -> (r: String)
    ensures
        r@ == readme_part(*o),
{
    match o {
        Some(t) => concat2("\nREADME (truncated):\n", t.as_str()),
        None => String::new(),
    }
}

fn manifest_text(o: &Option<Excerpt>) -> (r: String)
    ensures
        r@ == manifest_part(*o),
{
    match o {
        Some(m) => {
            let mut r = String::from_str("\n");
            r.append(m.label.as_str());
            r.append(" (truncated):\n");
            r.append(m.text.as_str());
            r
        },
        None => String::new(),
    }
}

fn listing_text(o: &Option<Vec<String>>) -> (r: String)
    ensures
        r@ == listing_part(*o),
{
    match o {
        Some(l) => {
            let mut r = String::from_str("\nFILE STRUCTURE: [");
            let joined = join_texts(l, ", ");
            r.append(joined.as_str());
            r.append("]");
            r
        },
        None => String::new(),
    }
}

fn sources_block(v: &Vec<Excerpt>) -> (r: String)
    ensures
        r@ == sources_text(v@),
{
    let mut r = String::new();
    let mut i: usize = 0;
    while i < v.len()
        invariant
            i <= v@.len(),
            r@ == sources_text(v@.take(i as int)),
        decreases v@.len() - i,
    {
        proof {
            assert(v@.take(i + 1).drop_last() =~= v@.take(i as int));
        }
        r.append("\nSOURCE CODE (");
        r.append(v[i].label.as_str());
        r.append("):\n");
        r.append(v[i].text.as_str());
        i = i + 1;
    }
    proof {
        assert(v@.take(i as int) =~= v@);
    }
    r
}

impl EvidenceRecord {
    /// The text of the record, as it goes into a prompt.
    pub fn render(&self) -> (r: String)
        ensures
            r@ == record_text(*self),
    {
        let mut r = String::from_str(self.header.as_str());
        let part = readme_text(&self.readme);
        r.append(part.as_str());
        let part = manifest_text(&self.manifest);
        r.append(part.as_str());
        let part = listing_text(&self.listing);
        r.append(part.as_str());
        let part = sources_block(&self.sources);
        r.append(part.as_str());
        if self.no_evidence {
            r.append("\n[No README or source files found — analyze from repo name, language, and description]");
        } else {
            proof {
                assert(r@ + marker_part(false) =~= r@);
            }
        }
        r
    }
}

/// Above fifteen repositories no README excerpt exceeds 600 characters, no
/// manifest excerpt 300 and no source excerpt 800; up to fifteen the caps
/// are 1000, 300 and 1200.
pub proof fn lemma_budget_law(n: nat, rec: EvidenceRecord)
    requires
        rec.within(budgets_for(n)),
    ensures
        n > 15 ==> {
            &&& (rec.readme matches Some(t) ==> t@.len() <= 600)
            &&& (rec.manifest matches Some(e) ==> e.text@.len() <= 300)
            &&& forall|i: int| 0 <= i < rec.sources@.len() ==> (#[trigger] rec.sources@[i]).text@.len() <= 800
        },
        n <= 15 ==> {
            &&& (rec.readme matches Some(t) ==> t@.len() <= 1000)
            &&& (rec.manifest matches Some(e) ==> e.text@.len() <= 300)
            &&& forall|i: int| 0 <= i < rec.sources@.len() ==> (#[trigger] rec.sources@[i]).text@.len() <= 1200
        },
{
}

} // verus!
