use vstd::prelude::*;
use crate::classify::{lowered_all, select_source_targets, source_targets};
use crate::evidence::{
    budgets, budgets_for, header_line, header_text, manifest_candidates, readme_candidates, Budgets,
    DirEntry, EvidenceRecord, Excerpt,
};
use crate::model::RepoInfo;
use crate::text::{concat2, copy_texts, same_text, take_chars, truncate_chars};

verus! {

/// Files of a directory listing whose entries are files, each name behind
/// `prefix`, in listing order.
pub open spec fn listed_files(entries: Seq<DirEntry>, prefix: Seq<char>) -> Seq<Seq<char>>
    decreases entries.len(),
{
    if entries.len() == 0 {
        Seq::empty()
    } else {
        let rest = listed_files(entries.drop_last(), prefix);
        if entries.last().kind@ == "file"@ {
            rest.push(prefix + entries.last().name@)
        } else {
            rest
        }
    }
}

/// The listing shown in an evidence record: at most its first twenty files.
pub open spec fn shown_listing(files: Seq<Seq<char>>) -> Seq<Seq<char>> {
    if files.len() <= 20 {
        files
    } else {
        files.take(20)
    }
}

/// Where the collection of one repository's evidence stands.
#[derive(PartialEq, Eq, Structural, Clone, Copy, Debug)]
pub enum Phase {
    /// Trying the README candidate of this index.
    Readme(usize),
    /// Trying the manifest candidate of this index.
    Manifest(usize),
    /// Listing the repository's root.
    ListRoot,
    /// Listing its `src` directory.
    ListSrc,
    /// Reading the source target of this index.
    Sources(usize),
    /// Nothing more to fetch.
    Done,
}

/// A fetch that the caller has to perform.
pub enum Fetch {
    /// The content of the file at this path.
    File(String),
    /// The listing of the repository's root.
    ListRoot,
    /// The listing of its `src` directory.
    ListSrc,
}

/// Collects the evidence of one repository, one fetch at a time: the
/// caller performs what `next_fetch` asks and hands the outcome back.
pub struct EvidenceCollector {
    pub budgets: Budgets,
    pub record: EvidenceRecord,
    pub phase: Phase,
    /// Files discovered by the listings.
    pub files: Vec<String>,
    /// Source files chosen for reading.
    pub targets: Vec<String>,
}

fn listed_from(entries: &Vec<DirEntry>, prefix: &str) -> (r: Vec<String>)
    ensures
        r.deep_view() == listed_files(entries@, prefix@),
{
    let mut r: Vec<String> = Vec::new();
    let mut i: usize = 0;
    while i < entries.len()
        invariant
            i <= entries@.len(),
            r.deep_view() == listed_files(entries@.take(i as int), prefix@),
        decreases entries@.len() - i,
    {
        proof {
            assert(entries@.take(i + 1).drop_last() =~= entries@.take(i as int));
        }
        if same_text(entries[i].kind.as_str(), "file") {
            let f = concat2(prefix, entries[i].name.as_str());
            let ghost before = r.deep_view();
            r.push(f);
            proof {
                assert(r.deep_view() =~= before.push(prefix@ + entries@[i as int].name@));
            }
        }
        i = i + 1;
    }
    proof {
        assert(entries@.take(i as int) =~= entries@);
    }
    r
}

fn append_texts(a: &mut Vec<String>, b: Vec<String>)
    ensures
        final(a).deep_view() == old(a).deep_view() + b.deep_view(),
{
    let mut b = b;
    let ghost a0 = a.deep_view();
    let ghost b0 = b.deep_view();
    a.append(&mut b);
    proof {
        assert(a.deep_view() =~= a0 + b0);
    }
}

impl EvidenceCollector {
    pub open spec fn wf(&self) -> bool {
        &&& self.record.within(self.budgets)
        &&& match self.phase {
            Phase::Readme(i) => {
                &&& i < readme_candidates().len()
                &&& self.record.readme is None
                &&& self.record.manifest is None
                &&& self.record.listing is None
                &&& self.record.sources@.len() == 0
                &&& !self.record.no_evidence
            },
            Phase::Manifest(i) => {
                &&& i < manifest_candidates().len()
                &&& self.record.manifest is None
                &&& self.record.listing is None
                &&& self.record.sources@.len() == 0
                &&& !self.record.no_evidence
            },
            Phase::ListRoot | Phase::ListSrc => {
                &&& self.record.readme is None
                &&& self.record.listing is None
                &&& self.record.sources@.len() == 0
                &&& !self.record.no_evidence
            },
            Phase::Sources(k) => {
                &&& k < self.targets@.len() <= 2
                &&& self.record.readme is None
                &&& self.record.listing is Some
                &&& !self.record.no_evidence
            },
            Phase::Done => true,
        }
    }

    /// An upper bound on the fetches still to come; every outcome taken
    /// lowers it.
    pub open spec fn steps_left(&self) -> nat {
        match self.phase {
            Phase::Readme(i) => (20 - i) as nat,
            Phase::Manifest(i) => (12 - i) as nat,
            Phase::ListRoot => 4,
            Phase::ListSrc => 3,
            Phase::Sources(k) => (2 - k) as nat,
            Phase::Done => 0,
        }
    }

    /// Where the collection goes once the manifests are done: a README
    /// makes the evidence complete, else the files are listed.
    pub open spec fn after_manifest(&self) -> Phase {
        if self.record.readme is Some {
            Phase::Done
        } else {
            Phase::ListRoot
        }
    }

    /// Starts on a repository of a catalog of `repo_count`: the record
    /// holds the metadata line, and the first README candidate is next.
    pub fn start(repo: &RepoInfo, repo_count: usize) -> (c: EvidenceCollector)
        ensures
            c.wf(),
            c.budgets == budgets_for(repo_count as nat),
            c.record.header@ == header_line(repo@),
            c.record.readme is None,
            c.record.manifest is None,
            c.record.listing is None,
            c.record.sources@.len() == 0,
            !c.record.no_evidence,
            c.phase == Phase::Readme(0),
            c.files@.len() == 0,
            c.targets@.len() == 0,
    {
        EvidenceCollector {
            budgets: budgets(repo_count),
            record: EvidenceRecord {
                header: header_text(repo),
                readme: None,
                manifest: None,
                listing: None,
                sources: Vec::new(),
                no_evidence: false,
            },
            phase: Phase::Readme(0),
            files: Vec::new(),
            targets: Vec::new(),
        }
    }

    /// The fetch to perform next, or `None` when the evidence is complete.
    pub fn next_fetch(&self) -> (r: Option<Fetch>)
        requires
            self.wf(),
        ensures
            match self.phase {
                Phase::Readme(i) => r matches Some(Fetch::File(p)) && p@ == readme_candidates()[i as int],
                Phase::Manifest(i) => r matches Some(Fetch::File(p)) && p@ == manifest_candidates()[i as int],
                Phase::ListRoot => r matches Some(Fetch::ListRoot),
                Phase::ListSrc => r matches Some(Fetch::ListSrc),
                Phase::Sources(k) => r matches Some(Fetch::File(p)) && p@ == self.targets@[k as int]@,
                Phase::Done => r is None,
            },
    {
        match self.phase {
            Phase::Readme(i) => Some(Fetch::File(String::from_str(crate::evidence::readme_candidate(i)))),
            Phase::Manifest(i) => Some(Fetch::File(String::from_str(crate::evidence::manifest_candidate(i)))),
            Phase::ListRoot => Some(Fetch::ListRoot),
            Phase::ListSrc => Some(Fetch::ListSrc),
            Phase::Sources(k) => Some(Fetch::File(self.targets[k].clone())),
            Phase::Done => None,
        }
    }
    /// Takes the outcome of a file fetch (`None`: it failed). A README or
    /// manifest found is kept, truncated to its budget, and ends that
    /// probe; a failure moves on to the next candidate. A source file read
    /// is kept, truncated, under its path; when the last target is done
    /// without any source read, the record says that no evidence exists.
    pub fn on_file(&mut self, content: Option<String>)
        requires
            old(self).wf(),
            old(self).phase is Readme || old(self).phase is Manifest || old(self).phase is Sources,
        ensures
            final(self).wf(),
            final(self).steps_left() < old(self).steps_left(),
            final(self).budgets == old(self).budgets,
            final(self).record.header == old(self).record.header,
            final(self).files == old(self).files,
            final(self).targets == old(self).targets,
            final(self).record.listing == old(self).record.listing,
            match old(self).phase {
                Phase::Readme(i) => {
                    &&& final(self).record.manifest == old(self).record.manifest
                    &&& final(self).record.sources == old(self).record.sources
                    &&& final(self).record.no_evidence == old(self).record.no_evidence
                    &&& match content {
                        Some(c) => {
                            &&& final(self).record.readme matches Some(t)
                                && t@ == take_chars(c@, old(self).budgets.readme as nat)
                            &&& final(self).phase == Phase::Manifest(0)
                        },
                        None => {
                            &&& final(self).record.readme is None
                            &&& final(self).phase == if i + 1 < readme_candidates().len() {
                                Phase::Readme((i + 1) as usize)
                            } else {
                                Phase::Manifest(0)
                            }
                        },
                    }
                },
                Phase::Manifest(i) => {
                    &&& final(self).record.readme == old(self).record.readme
                    &&& final(self).record.sources == old(self).record.sources
                    &&& final(self).record.no_evidence == old(self).record.no_evidence
                    &&& match content {
                        Some(c) => {
                            &&& final(self).record.manifest matches Some(e)
                                && e.label@ == manifest_candidates()[i as int]
                                && e.text@ == take_chars(c@, old(self).budgets.manifest as nat)
                            &&& final(self).phase == old(self).after_manifest()
                        },
                        None => {
                            &&& final(self).record.manifest is None
                            &&& final(self).phase == if i + 1 < manifest_candidates().len() {
                                Phase::Manifest((i + 1) as usize)
                            } else {
                                old(self).after_manifest()
                            }
                        },
                    }
                },
                Phase::Sources(k) => {
                    &&& final(self).record.readme == old(self).record.readme
                    &&& final(self).record.manifest == old(self).record.manifest
                    &&& match content {
                        Some(c) => {
                            &&& final(self).record.sources@.len() == old(self).record.sources@.len() + 1
                            &&& final(self).record.sources@.drop_last() == old(self).record.sources@
                            &&& final(self).record.sources@.last().label@ == old(self).targets@[k as int]@
                            &&& final(self).record.sources@.last().text@
                                == take_chars(c@, old(self).budgets.source as nat)
                        },
                        None => final(self).record.sources == old(self).record.sources,
                    }
                    &&& final(self).phase == if k + 1 < old(self).targets@.len() {
                        Phase::Sources((k + 1) as usize)
                    } else {
                        Phase::Done
                    }
                    &&& final(self).record.no_evidence == (k + 1 >= old(self).targets@.len()
                        && final(self).record.sources@.len() == 0)
                },
                _ => true,
            },
    {
        match self.phase {
            Phase::Readme(i) => {
                match content {
                    Some(c) => {
                        self.record.readme = Some(truncate_chars(c.as_str(), self.budgets.readme));
                        self.phase = Phase::Manifest(0);
                    },
                    None => {
                        self.phase = if i + 1 < 3 {
                            Phase::Readme(i + 1)
                        } else {
                            Phase::Manifest(0)
                        };
                    },
                }
            },
            Phase::Manifest(i) => {
                let next = if self.record.readme.is_some() {
                    Phase::Done
                } else {
                    Phase::ListRoot
                };
                match content {
                    Some(c) => {
                        let label = String::from_str(crate::evidence::manifest_candidate(i));
                        let text = truncate_chars(c.as_str(), self.budgets.manifest);
                        self.record.manifest = Some(Excerpt { label, text });
                        self.phase = next;
                    },
                    None => {
                        self.phase = if i + 1 < 8 {
                            Phase::Manifest(i + 1)
                        } else {
                            next
                        };
                    },
                }
            },
            Phase::Sources(k) => {
                let last = k >= self.targets.len() - 1;
                match content {
                    Some(c) => {
                        let label = self.targets[k].clone();
                        let text = truncate_chars(c.as_str(), self.budgets.source);
                        let ghost before = self.record.sources@;
                        self.record.sources.push(Excerpt { label, text });
                        proof {
                            assert(self.record.sources@.drop_last() =~= before);
                        }
                    },
                    None => {},
                }
                if !last {
                    self.phase = Phase::Sources(k + 1);
                } else {
                    self.phase = Phase::Done;
                    if self.record.sources.len() == 0 {
                        self.record.no_evidence = true;
                    }
                }
            },
            _ => {},
        }
    }

    /// Takes the outcome of a directory listing (`None`: it failed, which
    /// counts as empty). After the root comes `src`, whose files are named
    /// by their path. Once both are in, the record shows the first twenty
    /// files and the source targets are chosen; with no file or no target
    /// the record says that no evidence exists.
    pub fn on_listing(&mut self, entries: Option<Vec<DirEntry>>)
        requires
            old(self).wf(),
            old(self).phase is ListRoot || old(self).phase is ListSrc,
        ensures
            final(self).wf(),
            final(self).steps_left() < old(self).steps_left(),
            final(self).budgets == old(self).budgets,
            final(self).record.header == old(self).record.header,
            final(self).record.readme == old(self).record.readme,
            final(self).record.manifest == old(self).record.manifest,
            final(self).record.sources == old(self).record.sources,
            ({
                let found = match entries {
                    Some(es) => listed_files(es@, if old(self).phase is ListRoot { Seq::empty() } else { "src/"@ }),
                    None => Seq::empty(),
                };
                let all = old(self).files.deep_view() + found;
                &&& final(self).files.deep_view() == all
                &&& old(self).phase is ListRoot ==> {
                    &&& final(self).phase == Phase::ListSrc
                    &&& final(self).record.listing is None
                    &&& !final(self).record.no_evidence
                    &&& final(self).targets == old(self).targets
                }
                &&& old(self).phase is ListSrc ==> {
                    &&& final(self).targets.deep_view() == source_targets(all, lowered_all(all))
                    &&& (all.len() == 0 ==> final(self).record.listing is None)
                    &&& (all.len() > 0 ==> (final(self).record.listing matches Some(l)
                        && l.deep_view() == shown_listing(all)))
                    &&& final(self).record.no_evidence == (final(self).targets@.len() == 0)
                    &&& final(self).phase == if final(self).targets@.len() == 0 {
                        Phase::Done
                    } else {
                        Phase::Sources(0)
                    }
                }
            }),
    {
        let prefix = if self.phase == Phase::ListRoot {
            ""
        } else {
            "src/"
        };
        proof {
            reveal_strlit("");
            assert(""@ =~= Seq::<char>::empty());
            assert(prefix@ == if old(self).phase is ListRoot { Seq::<char>::empty() } else { "src/"@ });
        }
        let found = match entries {
            Some(es) => listed_from(&es, prefix),
            None => {
                let v: Vec<String> = Vec::new();
                proof {
                    assert(v.deep_view() =~= Seq::<Seq<char>>::empty());
                }
                v
            },
        };
        append_texts(&mut self.files, found);
        if self.phase == Phase::ListRoot {
            self.phase = Phase::ListSrc;
        } else {
            let targets = select_source_targets(&self.files);
            proof {
                assert(targets@.len() == targets.deep_view().len());
            }
            if self.files.len() > 0 {
                let mut shown = copy_texts(&self.files);
                if shown.len() > 20 {
                    shown.truncate(20);
                }
                proof {
                    assert(shown.deep_view() =~= shown_listing(self.files.deep_view()));
                }
                self.record.listing = Some(shown);
            }
            if targets.len() == 0 {
                self.record.no_evidence = true;
                self.phase = Phase::Done;
            } else {
                self.phase = Phase::Sources(0);
            }
            self.targets = targets;
        }
    }

    /// The record, once nothing more is to be fetched.
    pub fn finish(self) -> (r: EvidenceRecord)
        requires
            self.wf(),
            self.phase == Phase::Done,
        ensures
            r == self.record,
            r.within(self.budgets),
    {
        self.record
    }
}

} // verus!
