use vstd::prelude::*;
use crate::merge::repos_view;
use crate::model::{RepoInfo, RepoModel};
use crate::text::{copy_opt_text, copy_texts, opt_view};

verus! {

/// A repository as the hosting service lists it.
#[derive(Clone, Debug, PartialEq, Eq)]
pub struct GitHubRepo {
    pub name: String,
    pub description: Option<String>,
    pub language: Option<String>,
    pub stargazers_count: u32,
    pub forks_count: u32,
    pub html_url: String,
    pub topics: Vec<String>,
    pub fork: bool,
}

/// The catalog entry of a listed repository.
pub open spec fn entry_of(r: GitHubRepo) -> RepoModel {
    RepoModel {
        name: r.name@,
        description: opt_view(r.description),
        language: opt_view(r.language),
        stars: r.stargazers_count,
        forks: r.forks_count,
        html_url: r.html_url@,
        topics: r.topics.deep_view(),
    }
}

/// The catalog of a listing: its repositories that are not forks, in
/// listing order.
pub open spec fn catalog_of(listing: Seq<GitHubRepo>) -> Seq<RepoModel>
    decreases listing.len(),
{
    if listing.len() == 0 {
        Seq::empty()
    } else {
        let rest = catalog_of(listing.drop_last());
        if listing.last().fork {
            rest
        } else {
            rest.push(entry_of(listing.last()))
        }
    }
}

/// Turns a repository listing into the catalog: forks are left out, the
/// rest keep their order.
pub fn catalog_from_listing(listing: &Vec<GitHubRepo>) -> (r: Vec<RepoInfo>)
    ensures
        repos_view(r@) == catalog_of(listing@),
{
    let mut r: Vec<RepoInfo> = Vec::new();
    let mut i: usize = 0;
    while i < listing.len()
        invariant
            i <= listing@.len(),
            repos_view(r@) == catalog_of(listing@.take(i as int)),
        decreases listing@.len() - i,
    {
        proof {
            assert(listing@.take(i + 1).drop_last() =~= listing@.take(i as int));
        }
        let g = &listing[i];
        if !g.fork {
            let ghost before = repos_view(r@);
            r.push(RepoInfo {
                name: g.name.clone(),
                description: copy_opt_text(&g.description),
                language: copy_opt_text(&g.language),
                stars: g.stargazers_count,
                forks: g.forks_count,
                html_url: g.html_url.clone(),
                topics: copy_texts(&g.topics),
            });
            proof {
                assert(repos_view(r@) =~= before.push(entry_of(listing@[i as int])));
            }
        }
        i = i + 1;
    }
    proof {
        assert(listing@.take(i as int) =~= listing@);
    }
    r
}

/// No fork reaches the catalog: every catalog entry is the entry of a
/// listed repository whose fork flag is false.
pub proof fn lemma_forks_left_out(listing: Seq<GitHubRepo>, j: int)
    requires
        0 <= j < catalog_of(listing).len(),
    ensures
        exists|i: int| 0 <= i < listing.len() && !listing[i].fork && catalog_of(listing)[j] == entry_of(listing[i]),
    decreases listing.len(),
{
    let rest = catalog_of(listing.drop_last());
    if j < rest.len() {
        lemma_forks_left_out(listing.drop_last(), j);
        let i = choose|i: int| 0 <= i < listing.drop_last().len() && !listing.drop_last()[i].fork
            && rest[j] == entry_of(listing.drop_last()[i]);
        assert(listing[i] == listing.drop_last()[i]);
    } else {
        assert(listing[listing.len() - 1] == listing.last());
    }
}

} // verus!
