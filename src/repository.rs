//! The values that describe a repository on its way from a provider to disk.
use vstd::prelude::*;

verus! {

/// Information used to download a [`Repository`].
#[derive(Debug, Clone, PartialEq, Eq, Hash)]
#[non_exhaustive]
pub enum DownloadInfo {
    Git { ssh_url: String },
}

/// A repository as a provider reports it.
#[derive(Debug, Clone, PartialEq)]
pub struct Repository {
    /// The repository's name.
    pub name: String,
    /// An optional namespace, typically the user or organisation that owns
    /// the repository.
    pub namespace: Option<String>,
    pub download_info: DownloadInfo,
}

/// The mathematical view of a [`Repository`].
pub struct RepositoryView {
    pub name: Seq<char>,
    pub namespace: Option<Seq<char>>,
    pub ssh_url: Seq<char>,
}

impl View for Repository {
    type V = RepositoryView;

    open spec fn view(&self) -> RepositoryView {
        RepositoryView {
            name: self.name@,
            namespace: match self.namespace {
                Some(ns) => Some(ns@),
                None => None,
            },
            ssh_url: match self.download_info {
                DownloadInfo::Git { ssh_url } => ssh_url@,
            },
        }
    }
}

/// A repository to be synchronised: where it goes, relative to the backup
/// root, and the URL it is cloned from.
#[derive(Debug, Clone, PartialEq)]
pub struct GitRepo {
    pub dest_dir: String,
    pub ssh_url: String,
}

/// The mathematical view of a [`GitRepo`].
pub struct GitRepoView {
    pub dest_dir: Seq<char>,
    pub ssh_url: Seq<char>,
}

impl View for GitRepo {
    type V = GitRepoView;

    open spec fn view(&self) -> GitRepoView {
        GitRepoView { dest_dir: self.dest_dir@, ssh_url: self.ssh_url@ }
    }
}

/// Request that a repository is downloaded.
#[derive(Debug, Clone, PartialEq)]
pub struct DownloadRepo(pub GitRepo);

/// A repository as the GitHub API lists it.
#[derive(Debug, Clone, Default, PartialEq)]
pub struct Repo {
    pub full_name: String,
    pub clone_url: String,
}

/// A list of repositories, as kept in a backup summary.
#[derive(Debug, Clone, Default, PartialEq)]
pub struct Summary {
    pub repos: Vec<Repo>,
}

/// Where a repository of the given provider is kept, relative to the backup
/// root: `provider/namespace/name`, or `provider/name` without a namespace.
pub open spec fn destination_of(
    provider: Seq<char>,
    namespace: Option<Seq<char>>,
    name: Seq<char>,
) -> Seq<char> {
    match namespace {
        Some(ns) => provider + seq!['/'] + ns + seq!['/'] + name,
        None => provider + seq!['/'] + name,
    }
}

impl DownloadInfo {
    /// The URL a clone is made from.
    pub fn url(&self) -> (r: &String)
        ensures
            match self {
                DownloadInfo::Git { ssh_url } => r == ssh_url,
            },
    {
        match self {
            DownloadInfo::Git { ssh_url } => ssh_url,
        }
    }
}

impl GitRepo {
    /// The sync target for a repository discovered by the named provider.
    pub fn from_repository(provider: &str, repo: &Repository) -> (r: GitRepo)
        ensures
            r.dest_dir@ == destination_of(provider@, repo@.namespace, repo@.name),
            r.ssh_url@ == repo@.ssh_url,
    {
        let mut dest = String::from_str(provider);
        dest.append("/");
        proof {
            reveal_strlit("/");
        }
        match &repo.namespace {
            Some(ns) => {
                dest.append(ns.as_str());
                dest.append("/");
            },
            None => {},
        }
        dest.append(repo.name.as_str());
        let url = repo.download_info.url().clone();
        GitRepo { dest_dir: dest, ssh_url: url }
    }
}

impl Repo {
    /// The sync target for a repository listed by the GitHub API: it is kept
    /// under its full name.
    pub fn to_git_repo(&self) -> (r: GitRepo)
        ensures
            r.dest_dir@ == self.full_name@,
            r.ssh_url@ == self.clone_url@,
    {
        GitRepo { dest_dir: self.full_name.clone(), ssh_url: self.clone_url.clone() }
    }
}

} // verus!
