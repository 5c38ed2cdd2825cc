use repo_backup::{
    DownloadInfo, FetchError, GitHub, GitHubConfig, GitLab, GitLabConfig, GitRepo, Owner,
    Project, RawRepo, Repo, Repository,
};

fn gitlab(owned: bool, organisations: bool) -> GitLab {
    GitLab::with_config(GitLabConfig {
        url: String::from("https://gitlab.com/"),
        api_key: String::from("SECRET-REDACTED"),
        owned,
        organisations,
    })
}

fn project(path: &str) -> Project {
    Project {
        path_with_namespace: String::from(path),
        ssh_url_to_repo: format!("git@gitlab.com:{}.git", path),
    }
}

fn repository(namespace: &str, name: &str, url: &str) -> Repository {
    Repository {
        name: String::from(name),
        namespace: Some(String::from(namespace)),
        download_info: DownloadInfo::Git { ssh_url: String::from(url) },
    }
}

#[test]
fn gitlab_project_becomes_a_repository() {
    let got = gitlab(true, false).gitlab_project_to_repo(project("michael/repo-backup"));
    assert_eq!(got, repository("michael", "repo-backup", "git@gitlab.com:michael/repo-backup.git"));
}

#[test]
fn gitlab_nested_path_keeps_the_first_two_segments() {
    let got = gitlab(true, false).gitlab_project_to_repo(project("group/sub/proj"));
    assert_eq!(got.namespace, Some(String::from("group")));
    assert_eq!(got.name, "sub");
}

#[test]
fn gitlab_project_without_namespace_is_an_error() {
    let err = gitlab(true, false).get_owned(vec![project("a/b"), project("lonely")]).unwrap_err();
    assert_eq!(
        err,
        FetchError::Malformed {
            url: String::from("https://gitlab.com/"),
            message: String::from("project without a namespace: lonely"),
        }
    );
}

#[test]
fn gitlab_organisation_repos_leave_out_the_users_own() {
    let all = vec![project("me/one"), project("team/two"), project("me/three"), project("org/four")];
    let got = gitlab(false, true).get_organisation_repos(&String::from("me"), all).unwrap();
    let names: Vec<String> = got.into_iter().map(|r| r.name).collect();
    assert_eq!(names, vec![String::from("two"), String::from("four")]);
}

#[test]
fn gitlab_repositories_follow_the_settings() {
    let owned = || vec![project("me/one")];
    let all = || vec![project("me/one"), project("team/two")];
    let me = String::from("me");

    let both = gitlab(true, true).repositories(owned(), &me, all()).unwrap();
    assert_eq!(
        both,
        vec![
            repository("me", "one", "git@gitlab.com:me/one.git"),
            repository("team", "two", "git@gitlab.com:team/two.git"),
        ]
    );
    let only_owned = gitlab(true, false).repositories(owned(), &me, vec![project("bad")]).unwrap();
    assert_eq!(only_owned.len(), 1);
    assert_eq!(gitlab(false, false).repositories(owned(), &me, all()).unwrap(), vec![]);
    assert_eq!(gitlab(true, false).name(), "gitlab");
}

#[test]
fn github_endpoints_follow_the_settings() {
    let mut cfg = GitHubConfig::default();
    assert_eq!(cfg.agent, "repo-backup");
    assert!(cfg.owned && cfg.starred);
    assert_eq!(
        GitHub::with_config(cfg.clone()).endpoints(),
        vec![
            String::from("https://api.github.com/user/repos"),
            String::from("https://api.github.com/user/starred"),
        ]
    );
    cfg.owned = false;
    assert_eq!(
        GitHub::new(cfg.clone()).endpoints(),
        vec![String::from("https://api.github.com/user/starred")]
    );
    cfg.starred = false;
    assert!(GitHub::new(cfg).endpoints().is_empty());
}

#[test]
fn github_repositories_are_kept_under_their_owner() {
    let gh = GitHub::with_config(GitHubConfig::default());
    let raw = RawRepo {
        name: String::from("repo-backup"),
        clone_url: String::from("https://github.com/Michael-F-Bryan/repo-backup.git"),
        owner: Owner { login: String::from("Michael-F-Bryan"), kind: String::from("User") },
    };
    let expected = repository(
        "Michael-F-Bryan",
        "repo-backup",
        "https://github.com/Michael-F-Bryan/repo-backup.git",
    );
    assert_eq!(gh.convert_repo(raw.clone()), expected);
    assert_eq!(gh.repositories(vec![raw.clone(), raw]), vec![expected.clone(), expected]);
    assert_eq!(gh.name(), "github");
}

#[test]
fn destination_is_provider_namespace_and_name() {
    let r = repository("owner", "name", "git@host:owner/name.git");
    let target = GitRepo::from_repository("github", &r);
    assert_eq!(target.dest_dir, "github/owner/name");
    assert_eq!(target.ssh_url, "git@host:owner/name.git");

    let bare = Repository {
        name: String::from("solo"),
        namespace: None,
        download_info: DownloadInfo::Git { ssh_url: String::from("u") },
    };
    assert_eq!(GitRepo::from_repository("gitlab", &bare).dest_dir, "gitlab/solo");
}

#[test]
fn raw_listing_is_kept_under_its_full_name() {
    let repo = Repo { full_name: String::from("a/b"), clone_url: String::from("https://x/a/b") };
    let target = repo.to_git_repo();
    assert_eq!(target.dest_dir, "a/b");
    assert_eq!(target.ssh_url, "https://x/a/b");
}
