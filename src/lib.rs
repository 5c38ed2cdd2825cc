//! Discovers repositories from hosting providers and keeps local clones of
//! them up to date, with a bounded pool of workers and a cut-off on failures.
//!
//! Everything here is pure bookkeeping: the network and the file system are
//! driven by the caller, which feeds what it observed into the state machines
//! of this crate and carries out what they decide.
pub mod config;
pub mod driver;
pub mod git;
pub mod github;
pub mod gitlab;
pub mod pagination;
pub mod repository;

pub use config::General;
pub use driver::{Done, Driver, Handling, Phase, Statistics};
pub use github::{GitHub, GitHubConfig, Owner, RawRepo};
pub use gitlab::{GitLab, GitLabConfig, Project};
pub use git::{CommandOutput, GitCommand, SyncAction, SyncError};
pub use pagination::{FailedRequest, FetchError, PageStep, Paginated};
pub use repository::{DownloadInfo, DownloadRepo, GitRepo, Repo, Repository, Summary};
