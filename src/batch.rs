use vstd::prelude::*;
use crate::model::{LlmProject, RepoInfo};

verus! {

/// Repositories analysed per inference call.
pub const BATCH_SIZE: usize = 8;

/// Number of batches that `n` repositories make.
pub open spec fn batch_count(n: nat) -> nat {
    if n == 0 {
        0
    } else {
        ((n - 1) / (BATCH_SIZE as int) + 1) as nat
    }
}

/// First repository of batch `k`.
pub open spec fn batch_start(k: nat) -> nat {
    k * (BATCH_SIZE as nat)
}

/// One past the last repository of batch `k` of `n`.
pub open spec fn batch_end(n: nat, k: nat) -> nat {
    if batch_start(k) + (BATCH_SIZE as nat) <= n {
        batch_start(k) + (BATCH_SIZE as nat)
    } else {
        n
    }
}

/// What one inference call gave back.
pub struct BatchResult {
    /// Empty for every batch but the first.
    pub hero_title: String,
    pub bio: String,
    pub projects: Vec<LlmProject>,
}

/// The next thing the caller has to do.
#[derive(PartialEq, Eq, Structural, Clone, Copy, Debug)]
pub enum NextCall {
    /// Analyse repositories `start..end` with the full prompt (title, bio
    /// and projects).
    Full { start: usize, end: usize },
    /// Analyse repositories `start..end` asking for projects only.
    ProjectsOnly { start: usize, end: usize },
    /// Every batch has been handled.
    Finished,
    /// The first batch failed; the run is over.
    Aborted,
}

/// How a batch outcome was taken.
#[derive(PartialEq, Eq, Structural, Clone, Copy, Debug)]
pub enum BatchVerdict {
    /// Its projects were added to the run.
    Accepted,
    /// A later batch failed: its repositories stay without analysis.
    Skipped,
    /// The first batch failed: the run is over.
    Fatal,
}

/// The accumulated outcome of a run over `total` repositories.
pub struct AnalysisRun {
    pub total: usize,
    /// Batches handled so far.
    pub done: usize,
    /// The error of a failed first batch.
    pub fatal: Option<String>,
    pub hero_title: String,
    pub bio: String,
    pub projects: Vec<LlmProject>,
}

/// What a finished run hands on to the merge.
pub struct Analysis {
    pub hero_title: String,
    pub bio: String,
    pub projects: Vec<LlmProject>,
}

impl AnalysisRun {
    pub open spec fn wf(&self) -> bool {
        &&& self.done <= batch_count(self.total as nat)
        &&& self.fatal is Some ==> self.done == 0
    }

    /// The next call that the spec of the run asks for.
    pub open spec fn next_spec(&self) -> NextCall {
        if self.fatal is Some {
            NextCall::Aborted
        } else if self.done >= batch_count(self.total as nat) {
            NextCall::Finished
        } else if self.done == 0 {
            NextCall::Full {
                start: 0,
                end: batch_end(self.total as nat, 0) as usize,
            }
        } else {
            NextCall::ProjectsOnly {
                start: batch_start(self.done as nat) as usize,
                end: batch_end(self.total as nat, self.done as nat) as usize,
            }
        }
    }

    /// A run over `total` repositories, with nothing analysed yet.
    pub fn new(total: usize) -> (r: AnalysisRun)
        ensures
            r.wf(),
            r.total == total,
            r.done == 0,
            r.fatal is None,
            r.hero_title@.len() == 0,
            r.bio@.len() == 0,
            r.projects@.len() == 0,
    {
        AnalysisRun {
            total,
            done: 0,
            fatal: None,
            hero_title: String::new(),
            bio: String::new(),
            projects: Vec::new(),
        }
    }

    /// The batch to analyse next, and in which mode.
    pub fn next_call(&self) -> (r: NextCall)
        requires
            self.wf(),
        ensures
            r == self.next_spec(),
    {
        if self.fatal.is_some() {
            return NextCall::Aborted;
        }
        let start: usize = if self.done == 0 {
            0
        } else {
            if self.done > (self.total - 1) / BATCH_SIZE {
                return NextCall::Finished;
            }
            self.done * BATCH_SIZE
        };
        if start >= self.total {
            return NextCall::Finished;
        }
        let end: usize = if self.total - start >= BATCH_SIZE {
            start + BATCH_SIZE
        } else {
            self.total
        };
        if self.done == 0 {
            NextCall::Full { start, end }
        } else {
            NextCall::ProjectsOnly { start, end }
        }
    }

    /// Takes the outcome of the call that `next_call` asked for. A failed
    /// first batch ends the run; a failed later batch is skipped; a
    /// successful batch adds its projects, and the first one also sets the
    /// title and biography.
    pub fn record(&mut self, outcome: Result<BatchResult, String>) -> (v: BatchVerdict)
        requires
            old(self).wf(),
            old(self).fatal is None,
            old(self).done < batch_count(old(self).total as nat),
        ensures
            final(self).wf(),
            final(self).total == old(self).total,
            old(self).done == 0 ==> match outcome {
                Ok(b) => {
                    &&& v == BatchVerdict::Accepted
                    &&& final(self).done == 1
                    &&& final(self).fatal is None
                    &&& final(self).hero_title@ == b.hero_title@
                    &&& final(self).bio@ == b.bio@
                    &&& final(self).projects@ == old(self).projects@ + b.projects@
                },
                Err(e) => {
                    &&& v == BatchVerdict::Fatal
                    &&& final(self).done == 0
                    &&& final(self).fatal == Some(e)
                    &&& final(self).projects@ == old(self).projects@
                },
            },
            old(self).done > 0 ==> {
                &&& final(self).done == old(self).done + 1
                &&& final(self).fatal is None
                &&& final(self).hero_title@ == old(self).hero_title@
                &&& final(self).bio@ == old(self).bio@
                &&& match outcome {
                    Ok(b) => {
                        &&& v == BatchVerdict::Accepted
                        &&& final(self).projects@ == old(self).projects@ + b.projects@
                    },
                    Err(_) => {
                        &&& v == BatchVerdict::Skipped
                        &&& final(self).projects@ == old(self).projects@
                    },
                }
            },
    {
        match outcome {
            Ok(b) => {
                let BatchResult { hero_title, bio, mut projects } = b;
                if self.done == 0 {
                    self.hero_title = hero_title;
                    self.bio = bio;
                }
                self.projects.append(&mut projects);
                self.done = self.done + 1;
                BatchVerdict::Accepted
            },
            Err(e) => {
                if self.done == 0 {
                    self.fatal = Some(e);
                    BatchVerdict::Fatal
                } else {
                    self.done = self.done + 1;
                    BatchVerdict::Skipped
                }
            },
        }
    }

    /// Ends the run: the error of a failed first batch, or the title,
    /// biography and every project gathered.
    pub fn finish(self) -> (r: Result<Analysis, String>)
        ensures
            match self.fatal {
                Some(e) => r == Err::<Analysis, String>(e),
                None => r matches Ok(a) && a.hero_title@ == self.hero_title@ && a.bio@ == self.bio@
                    && a.projects@ == self.projects@,
            },
    {
        match self.fatal {
            Some(e) => Err(e),
            None => Ok(Analysis { hero_title: self.hero_title, bio: self.bio, projects: self.projects }),
        }
    }
}

/// The batches of `n` repositories cover them all, in order and without
/// overlap: each is a non-empty run of at most eight repositories that
/// starts where the previous one ended, and the last one ends at `n`.
pub proof fn lemma_batches_cover(n: nat, k: nat)
    requires
        k < batch_count(n),
    ensures
        batch_start(k) < batch_end(n, k) <= n,
        batch_end(n, k) - batch_start(k) <= BATCH_SIZE,
        k + 1 < batch_count(n) ==> batch_end(n, k) == batch_start(k + 1),
        k + 1 == batch_count(n) ==> batch_end(n, k) == n,
{
    let m = (n - 1) / 8;
    assert(n - 1 == 8 * m + (n - 1) % 8);
    assert(batch_start(k) == 8 * k);
    assert(batch_start(k + 1) == 8 * k + 8);
}

/// The evidence texts of repositories `start..end`.
pub fn batch_contexts(contexts: &Vec<String>, start: usize, end: usize) -> (r: Vec<String>)
    requires
        start <= end <= contexts@.len(),
    ensures
        r.deep_view() == contexts.deep_view().subrange(start as int, end as int),
{
    let mut r: Vec<String> = Vec::new();
    let mut i = start;
    while i < end
        invariant
            start <= i <= end <= contexts@.len(),
            r.deep_view() == contexts.deep_view().subrange(start as int, i as int),
        decreases end - i,
    {
        let ghost before = r.deep_view();
        r.push(contexts[i].clone());
        proof {
            assert(r.deep_view() =~= before.push(contexts.deep_view()[i as int]));
            assert(r.deep_view() =~= contexts.deep_view().subrange(start as int, i + 1));
        }
        i = i + 1;
    }
    r
}

/// The names of repositories `start..end`, as the prompt lists them.
pub fn batch_names(repos: &Vec<RepoInfo>, start: usize, end: usize) -> (r: Vec<String>)
    requires
        start <= end <= repos@.len(),
    ensures
        r@.len() == end - start,
        forall|i: int| 0 <= i < end - start ==> (#[trigger] r@[i])@ == repos@[start + i].name@,
{
    let mut r: Vec<String> = Vec::new();
    let mut i = start;
    while i < end
        invariant
            start <= i <= end <= repos@.len(),
            r@.len() == i - start,
            forall|k: int| 0 <= k < i - start ==> (#[trigger] r@[k])@ == repos@[start + k].name@,
        decreases end - i,
    {
        r.push(repos[i].name.clone());
        i = i + 1;
    }
    r
}

} // verus!
