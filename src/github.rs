//! The GitHub provider: which listings to follow, and how a listed
//! repository becomes a [`Repository`].
use vstd::prelude::*;

use crate::repository::{DownloadInfo, Repository, RepositoryView};

verus! {

/// Settings of the GitHub provider.
#[derive(Debug, Clone, PartialEq)]
pub struct GitHubConfig {
    /// The user agent sent with each request.
    pub agent: String,
    /// The personal access token requests are made with.
    pub token: String,
    /// Whether to include the repositories the user owns.
    pub owned: bool,
    /// Whether to include the repositories the user has starred.
    pub starred: bool,
}

/// The owner of a repository, as the GitHub API lists it.
#[derive(Debug, Clone, Default, PartialEq)]
pub struct Owner {
    pub login: String,
    pub kind: String,
}

/// A repository, as the GitHub API lists it.
#[derive(Debug, Clone, Default, PartialEq)]
pub struct RawRepo {
    pub name: String,
    pub clone_url: String,
    pub owner: Owner,
}

/// The listing of the user's own repositories.
pub open spec fn owned_endpoint() -> Seq<char> {
    "https://api.github.com/user/repos"@
}

/// The listing of the repositories the user has starred.
pub open spec fn starred_endpoint() -> Seq<char> {
    "https://api.github.com/user/starred"@
}

/// The listings the settings ask for: owned repositories first, then
/// starred ones.
pub open spec fn endpoints_of(owned: bool, starred: bool) -> Seq<Seq<char>> {
    (if owned {
        seq![owned_endpoint()]
    } else {
        Seq::empty()
    }) + (if starred {
        seq![starred_endpoint()]
    } else {
        Seq::empty()
    })
}

/// A listed repository, kept under its owner's login.
pub open spec fn raw_repo_view(raw: RawRepo) -> RepositoryView {
    RepositoryView { name: raw.name@, namespace: Some(raw.owner.login@), ssh_url: raw.clone_url@ }
}

/// An interface to the repositories stored on GitHub.
#[derive(Debug, Clone, PartialEq)]
pub struct GitHub {
    cfg: GitHubConfig,
}

impl Default for GitHubConfig {
    /// The settings used where none are given: every listing, an empty token
    /// and the crate's own user agent.
    fn default() -> (r: GitHubConfig)
        ensures
            r.agent@ == "repo-backup"@,
            r.token@.len() == 0,
            r.owned,
            r.starred,
    {
        proof {
            reveal_strlit("repo-backup");
        }
        GitHubConfig {
            agent: String::from_str("repo-backup"),
            token: String::new(),
            owned: true,
            starred: true,
        }
    }
}

impl GitHub {
    /// A provider with these settings.
    pub fn with_config(cfg: GitHubConfig) -> (r: GitHub)
        ensures
            r.config() == cfg,
    {
        GitHub { cfg }
    }

    /// A provider with these settings.
    pub fn new(cfg: GitHubConfig) -> (r: GitHub)
        ensures
            r.config() == cfg,
    {
        GitHub::with_config(cfg)
    }

    /// The provider's settings.
    pub closed spec fn config(&self) -> GitHubConfig {
        self.cfg
    }

    /// The provider's settings.
    pub fn cfg(&self) -> (r: &GitHubConfig)
        ensures
            *r == self.config(),
    {
        &self.cfg
    }

    /// The name repositories of this provider are kept under.
    pub fn name(&self) -> (r: &'static str)
        ensures
            r@ == "github"@,
    {
        "github"
    }

    /// The listings to follow, in order.
    pub fn endpoints(&self) -> (r: Vec<String>)
        ensures
            r@.map_values(|s: String| s@) == endpoints_of(self.config().owned, self.config().starred),
    {
        let mut r: Vec<String> = Vec::new();
        if self.cfg.owned {
            r.push(String::from_str("https://api.github.com/user/repos"));
        }
        if self.cfg.starred {
            r.push(String::from_str("https://api.github.com/user/starred"));
        }
        assert(r@.map_values(|s: String| s@) =~= endpoints_of(
            self.config().owned,
            self.config().starred,
        ));
        r
    }

    /// A listed repository as a [`Repository`], kept under its owner's login.
    pub fn convert_repo(&self, raw: RawRepo) -> (r: Repository)
        ensures
            r@ == raw_repo_view(raw),
    {
        Repository {
            name: raw.name,
            namespace: Some(raw.owner.login),
            download_info: DownloadInfo::Git { ssh_url: raw.clone_url },
        }
    }

    /// Every listed repository as a [`Repository`], in listing order.
    pub fn repositories(&self, listed: Vec<RawRepo>) -> (r: Vec<Repository>)
        ensures
            r@.map_values(|x: Repository| x@) == listed@.map_values(|x: RawRepo| raw_repo_view(x)),
    {
        let ghost all = listed@;
        let mut listed = listed;
        let mut out: Vec<Repository> = Vec::new();
        let mut k: usize = 0;
        let n = listed.len();
        while listed.len() > 0
            invariant
                n == all.len(),
                k <= n,
                listed@ == all.subrange(k as int, n as int),
                out@.len() == k,
                out@.map_values(|x: Repository| x@) == all.subrange(0, k as int).map_values(
                    |x: RawRepo| raw_repo_view(x),
                ),
            decreases listed@.len(),
        {
            let raw = listed.remove(0);
            assert(raw == all[k as int]);
            let repo = self.convert_repo(raw);
            let ghost prev = out@;
            out.push(repo);
            assert forall|i: int| 0 <= i < k + 1 implies #[trigger] out@[i]@ == raw_repo_view(
                all[i],
            ) by {
                if i < k {
                    assert(out@[i] == prev[i]);
                    assert(prev.map_values(|x: Repository| x@)[i] == all.subrange(
                        0,
                        k as int,
                    ).map_values(|x: RawRepo| raw_repo_view(x))[i]);
                }
            }
            assert(out@.map_values(|x: Repository| x@) =~= all.subrange(0, k as int + 1).map_values(
                |x: RawRepo| raw_repo_view(x),
            ));
            k = k + 1;
            assert(listed@ =~= all.subrange(k as int, n as int));
        }
        assert(all.subrange(0, k as int) =~= all);
        out
    }
}

} // verus!
