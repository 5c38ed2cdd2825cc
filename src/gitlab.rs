//! The GitLab provider: how a GitLab project becomes a [`Repository`], and
//! which projects count as the user's own or as their organisations'.
use vstd::prelude::*;

use crate::pagination::{text_eq, FetchError};
use crate::repository::{DownloadInfo, Repository, RepositoryView};

verus! {

/// Settings of the GitLab provider.
#[derive(Debug, Clone, PartialEq)]
pub struct GitLabConfig {
    /// The GitLab instance, e.g. `https://gitlab.com/`.
    pub url: String,
    /// The personal access token requests are made with.
    pub api_key: String,
    /// Whether to include the projects the user owns.
    pub owned: bool,
    /// Whether to include the projects of groups the user belongs to.
    pub organisations: bool,
}

/// The fields of a GitLab project that a backup needs.
#[derive(Debug, Clone, PartialEq)]
pub struct Project {
    /// `owner/name`, possibly with further path segments.
    pub path_with_namespace: String,
    pub ssh_url_to_repo: String,
}

/// The position of the first `c` in `s`, or the length of `s` if there is
/// none.
pub open spec fn index_of(s: Seq<char>, c: char) -> nat
    decreases s.len(),
{
    if s.len() == 0 {
        0
    } else if s[0] == c {
        0
    } else {
        1 + index_of(s.drop_first(), c)
    }
}

/// Whether a project path names its owner, i.e. holds a `/`.
pub open spec fn has_namespace(path: Seq<char>) -> bool {
    index_of(path, '/') < path.len()
}

/// The owner of a project: its path up to the first `/`.
pub open spec fn owner_of(path: Seq<char>) -> Seq<char> {
    path.subrange(0, index_of(path, '/') as int)
}

/// The name of a project: the path segment after the owner.
pub open spec fn name_of(path: Seq<char>) -> Seq<char> {
    let rest = path.subrange(index_of(path, '/') as int + 1, path.len() as int);
    rest.subrange(0, index_of(rest, '/') as int)
}

/// A project as a repository, kept under its owner.
pub open spec fn project_view(p: Project) -> RepositoryView {
    RepositoryView {
        name: name_of(p.path_with_namespace@),
        namespace: Some(owner_of(p.path_with_namespace@)),
        ssh_url: p.ssh_url_to_repo@,
    }
}

/// Whether every project names its owner.
pub open spec fn all_namespaced(projects: Seq<Project>) -> bool {
    forall|i: int| 0 <= i < projects.len() ==> has_namespace(#[trigger] projects[i].path_with_namespace@)
}

/// The projects as repositories, in order, leaving out those owned by
/// `excluded` if it is given.
pub open spec fn projects_to_repos(projects: Seq<Project>, excluded: Option<Seq<char>>) -> Seq<
    RepositoryView,
>
    decreases projects.len(),
{
    if projects.len() == 0 {
        Seq::empty()
    } else {
        let rest = projects_to_repos(projects.drop_last(), excluded);
        if excluded == Some(owner_of(projects.last().path_with_namespace@)) {
            rest
        } else {
            rest.push(project_view(projects.last()))
        }
    }
}

/// Whether the error reports `projects[i]` as the first project whose path
/// names no owner, found in the listing from `url`.
pub open spec fn reports_missing_namespace(
    e: FetchError,
    url: Seq<char>,
    projects: Seq<Project>,
) -> bool {
    &&& e is Malformed
    &&& e->Malformed_url@ == url
    &&& exists|i: int|
        0 <= i < projects.len() && all_namespaced(projects.subrange(0, i)) && !has_namespace(
            #[trigger] projects[i].path_with_namespace@,
        ) && e->Malformed_message@ == missing_namespace_message(
            projects[i].path_with_namespace@,
        )
}

/// What is said of a project whose path names no owner.
pub open spec fn missing_namespace_message(path: Seq<char>) -> Seq<char> {
    "project without a namespace: "@ + path
}

proof fn lemma_index_of_bound(s: Seq<char>, c: char)
    ensures
        index_of(s, c) <= s.len(),
        index_of(s, c) < s.len() ==> s[index_of(s, c) as int] == c,
        forall|j: int| 0 <= j < index_of(s, c) ==> s[j] != c,
    decreases s.len(),
{
    if s.len() > 0 && s[0] != c {
        lemma_index_of_bound(s.drop_first(), c);
        assert forall|j: int| 0 <= j < index_of(s, c) implies s[j] != c by {
            if j > 0 {
                assert(s[j] == s.drop_first()[j - 1]);
            }
        }
    }
}

proof fn lemma_index_of_first(s: Seq<char>, c: char, k: int)
    requires
        0 <= k <= s.len(),
        forall|j: int| 0 <= j < k ==> s[j] != c,
        k == s.len() || s[k] == c,
    ensures
        index_of(s, c) == k,
    decreases s.len(),
{
    if s.len() > 0 && s[0] != c {
        lemma_index_of_first(s.drop_first(), c, k - 1);
    }
}

/// The position of the first `c` in `s`, or the length of `s`.
fn find_char(s: &str, c: char) -> (r: usize)
    ensures
        r == index_of(s@, c),
{
    let n = s.unicode_len();
    let mut i: usize = 0;
    while i < n && s.get_char(i) != c
        invariant
            n == s@.len(),
            i <= n,
            forall|j: int| 0 <= j < i ==> s@[j] != c,
        decreases n - i,
    {
        i = i + 1;
    }
    proof {
        lemma_index_of_first(s@, c, i as int);
    }
    i
}

/// A provider which lists projects of a GitLab instance.
#[derive(Debug, Clone, PartialEq)]
pub struct GitLab {
    cfg: GitLabConfig,
}

impl GitLab {
    /// A provider with these settings.
    pub fn with_config(cfg: GitLabConfig) -> (r: GitLab)
        ensures
            r.config() == cfg,
    {
        GitLab { cfg }
    }

    /// The provider's settings.
    pub closed spec fn config(&self) -> GitLabConfig {
        self.cfg
    }

    /// The provider's settings.
    pub fn cfg(&self) -> (r: &GitLabConfig)
        ensures
            *r == self.config(),
    {
        &self.cfg
    }

    /// The name repositories of this provider are kept under.
    pub fn name(&self) -> (r: &'static str)
        ensures
            r@ == "gitlab"@,
    {
        "gitlab"
    }

    /// A project as a repository: the owner is its path up to the first
    /// `/`, the name the segment after it.
    pub fn gitlab_project_to_repo(&self, project: Project) -> (r: Repository)
        requires
            has_namespace(project.path_with_namespace@),
        ensures
            r@ == project_view(project),
    {
        let ghost path = project.path_with_namespace@;
        let p = project.path_with_namespace.as_str();
        let n = p.unicode_len();
        let k = find_char(p, '/');
        let owner = p.substring_char(0, k).to_owned();
        let rest = p.substring_char(k + 1, n);
        let m = find_char(rest, '/');
        proof {
            lemma_index_of_bound(rest@, '/');
        }
        let name = rest.substring_char(0, m).to_owned();
        Repository {
            name,
            namespace: Some(owner),
            download_info: DownloadInfo::Git { ssh_url: project.ssh_url_to_repo },
        }
    }

    /// The projects as repositories, leaving out those owned by `excluded`
    /// if it is given. Fails on the first project whose path names no
    /// owner.
    fn convert_projects(&self, projects: Vec<Project>, excluded: Option<&String>) -> (r: Result<
        Vec<Repository>,
        FetchError,
    >)
        ensures
            r is Ok <==> all_namespaced(projects@),
            r matches Ok(v) ==> v@.map_values(|x: Repository| x@) == projects_to_repos(
                projects@,
                match excluded {
                    Some(u) => Some(u@),
                    None => None,
                },
            ),
            r matches Err(e) ==> reports_missing_namespace(e, self.config().url@, projects@),
    {
        let ghost all = projects@;
        let ghost ex = match excluded {
            Some(u) => Some(u@),
            None => None,
        };
        let mut remaining = projects;
        let mut out: Vec<Repository> = Vec::new();
        let mut k: usize = 0;
        let n = remaining.len();
        while remaining.len() > 0
            invariant
                all == projects@,
                n == all.len(),
                k <= n,
                remaining@ == all.subrange(k as int, n as int),
                ex == match excluded {
                    Some(u) => Some(u@),
                    None => None::<Seq<char>>,
                },
                all_namespaced(all.subrange(0, k as int)),
                out@.map_values(|x: Repository| x@) == projects_to_repos(
                    all.subrange(0, k as int),
                    ex,
                ),
            decreases remaining@.len(),
        {
            let project = remaining.remove(0);
            assert(project == all[k as int]);
            assert(all.subrange(0, k as int + 1).drop_last() =~= all.subrange(0, k as int));
            let path = project.path_with_namespace.as_str();
            let slash = find_char(path, '/');
            if slash >= path.unicode_len() {
                assert(!has_namespace(all[k as int].path_with_namespace@));
                assert(!all_namespaced(all));
                let mut message = String::from_str("project without a namespace: ");
                message.append(path);
                let e = FetchError::Malformed { url: self.cfg.url.clone(), message };
                assert(reports_missing_namespace(e, self.config().url@, all));
                return Err(e);
            }
            let repo = self.gitlab_project_to_repo(project);
            let keep = match excluded {
                Some(user) => !text_eq(repo.namespace.as_ref().unwrap().as_str(), user.as_str()),
                None => true,
            };
            if keep {
                out.push(repo);
            }
            assert(out@.map_values(|x: Repository| x@) =~= projects_to_repos(
                all.subrange(0, k as int + 1),
                ex,
            ));
            k = k + 1;
            assert(remaining@ =~= all.subrange(k as int, n as int));
        }
        assert(all.subrange(0, k as int) =~= all);
        Ok(out)
    }

    /// The projects the user owns, as repositories, in listing order.
    pub fn get_owned(&self, projects: Vec<Project>) -> (r: Result<Vec<Repository>, FetchError>)
        ensures
            r is Ok <==> all_namespaced(projects@),
            r matches Ok(v) ==> v@.map_values(|x: Repository| x@) == projects_to_repos(
                projects@,
                None,
            ),
            r matches Err(e) ==> reports_missing_namespace(e, self.config().url@, projects@),
    {
        self.convert_projects(projects, None)
    }

    /// Of all the projects the user can see, those owned by someone else
    /// (the groups the user belongs to), as repositories.
    pub fn get_organisation_repos(&self, current_user: &String, projects: Vec<Project>) -> (r:
        Result<Vec<Repository>, FetchError>)
        ensures
            r is Ok <==> all_namespaced(projects@),
            r matches Ok(v) ==> v@.map_values(|x: Repository| x@) == projects_to_repos(
                projects@,
                Some(current_user@),
            ),
            r matches Err(e) ==> reports_missing_namespace(e, self.config().url@, projects@),
    {
        self.convert_projects(projects, Some(current_user))
    }

    /// The repositories the settings ask for: the owned projects if
    /// `owned` is set, then the group projects if `organisations` is set.
    /// Listings the settings do not ask for are not looked at.
    pub fn repositories(
        &self,
        owned: Vec<Project>,
        current_user: &String,
        all: Vec<Project>,
    ) -> (r: Result<Vec<Repository>, FetchError>)
        ensures
            r is Ok <==> (self.config().owned ==> all_namespaced(owned@)) && (
            self.config().organisations ==> all_namespaced(all@)),
            r matches Ok(v) ==> v@.map_values(|x: Repository| x@) == (if self.config().owned {
                projects_to_repos(owned@, None)
            } else {
                Seq::empty()
            }) + (if self.config().organisations {
                projects_to_repos(all@, Some(current_user@))
            } else {
                Seq::empty()
            }),
            r matches Err(e) ==> (self.config().owned && reports_missing_namespace(
                e,
                self.config().url@,
                owned@,
            )) || (self.config().organisations && reports_missing_namespace(
                e,
                self.config().url@,
                all@,
            )),
    {
        let mut repos: Vec<Repository> = Vec::new();
        if self.cfg.owned {
            repos = self.get_owned(owned)?;
        }
        if self.cfg.organisations {
            let mut org = self.get_organisation_repos(current_user, all)?;
            let ghost before = repos@;
            let ghost extra = org@;
            repos.append(&mut org);
            assert(repos@.map_values(|x: Repository| x@) =~= before.map_values(
                |x: Repository| x@,
            ) + extra.map_values(|x: Repository| x@));
        }
        assert(self.config().owned || repos@.map_values(|x: Repository| x@) =~= Seq::<
            RepositoryView,
        >::empty() + (if self.config().organisations {
            projects_to_repos(all@, Some(current_user@))
        } else {
            Seq::empty()
        }) || self.config().organisations);
        Ok(repos)
    }
}

} // verus!
