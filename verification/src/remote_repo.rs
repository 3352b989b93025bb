//! Git status of a repository on a remote host, kept up to date from the
//! snapshots the host's daemon pushes.
use vstd::prelude::*;
use crate::code_review::{GitHubRepoEvent, GitStatusMetadata};
use crate::json::str_eq;

verus! {

/// What the connection manager reports to a remote repository model.
#[derive(Debug, Clone)]
pub enum RemoteServerManagerEvent {
    /// A daemon pushed the git status of a repository; `metadata` is `None`
    /// when the pushed snapshot did not decode.
    GitStatusPushReceived { host_id: String, repo_path: String, metadata: Option<GitStatusMetadata> },
    /// A daemon pushed the pull-request info of a repository (`None`: the
    /// branch has no pull request).
    GitHubPrInfoPushReceived { host_id: String, repo_path: String, pr_info: Option<String> },
    /// A daemon pushed the GitHub repository info of a repository.
    GitHubRepositoryInfoPushReceived { host_id: String, repo_path: String, repository_info: Option<String> },
    HostConnected { host_id: String },
    HostDisconnected { host_id: String },
}

/// What a remote repository model does in answer to an event.
#[derive(Debug, Clone, Copy, PartialEq, Eq, Structural)]
pub enum RemoteRepoEffect {
    /// Nothing.
    Ignore,
    /// The stored metadata was replaced: tell subscribers.
    MetadataChanged,
    /// Ask the daemon to push the current snapshot.
    RequestSnapshot,
}

/// Per-repository git status for a repository on a remote host.
#[derive(Debug)]
pub struct RemoteGitRepoStatusModel {
    pub host_id: String,
    pub repo_path: String,
    pub metadata: Option<GitStatusMetadata>,
}

impl RemoteGitRepoStatusModel {
    /// A model for `repo_path` on `host_id` with no status yet; its owner
    /// then asks the daemon for a snapshot.
    pub fn new(host_id: String, repo_path: String) -> (model: (RemoteGitRepoStatusModel, RemoteRepoEffect))
        ensures
            model.0.host_id == host_id,
            model.0.repo_path == repo_path,
            model.0.metadata is None,
            model.1 == RemoteRepoEffect::RequestSnapshot,
    {
        (RemoteGitRepoStatusModel { host_id, repo_path, metadata: None }, RemoteRepoEffect::RequestSnapshot)
    }

    /// Replaces the stored status with a decoded push; a push that did not
    /// decode leaves it as it was.
    pub fn apply_push(&mut self, metadata: Option<GitStatusMetadata>) -> (effect: RemoteRepoEffect)
        ensures
            final(self).host_id == old(self).host_id,
            final(self).repo_path == old(self).repo_path,
            metadata is Some ==> final(self).metadata == metadata && effect == RemoteRepoEffect::MetadataChanged,
            metadata is None ==> final(self).metadata == old(self).metadata && effect == RemoteRepoEffect::Ignore,
    {
        match metadata {
            Some(status) => {
                self.metadata = Some(status);
                RemoteRepoEffect::MetadataChanged
            },
            None => RemoteRepoEffect::Ignore,
        }
    }

    /// Handles an event of the connection manager: a push for this
    /// repository is applied, a reconnect of its host asks for a fresh
    /// snapshot, and anything else (a disconnect too) keeps the stored
    /// status.
    pub fn handle_manager_event(&mut self, event: &RemoteServerManagerEvent) -> (effect: RemoteRepoEffect)
        ensures
            final(self).host_id == old(self).host_id,
            final(self).repo_path == old(self).repo_path,
            match *event {
                RemoteServerManagerEvent::GitStatusPushReceived { host_id, repo_path, metadata } =>
                    if host_id@ == old(self).host_id@ && repo_path@ == old(self).repo_path@ && metadata is Some {
                        final(self).metadata == metadata && effect == RemoteRepoEffect::MetadataChanged
                    } else {
                        final(self).metadata == old(self).metadata && effect == RemoteRepoEffect::Ignore
                    },
                RemoteServerManagerEvent::HostConnected { host_id } =>
                    final(self).metadata == old(self).metadata
                        && effect == (if host_id@ == old(self).host_id@ { RemoteRepoEffect::RequestSnapshot } else { RemoteRepoEffect::Ignore }),
                RemoteServerManagerEvent::HostDisconnected { .. }
                | RemoteServerManagerEvent::GitHubPrInfoPushReceived { .. }
                | RemoteServerManagerEvent::GitHubRepositoryInfoPushReceived { .. } =>
                    final(self).metadata == old(self).metadata && effect == RemoteRepoEffect::Ignore,
            },
    {
        match event {
            RemoteServerManagerEvent::GitStatusPushReceived { host_id, repo_path, metadata } => {
                if str_eq(host_id.as_str(), self.host_id.as_str()) && str_eq(repo_path.as_str(), self.repo_path.as_str()) {
                    let copy = match metadata {
                        Some(m) => Some(m.duplicate()),
                        None => None,
                    };
                    self.apply_push(copy)
                } else {
                    RemoteRepoEffect::Ignore
                }
            },
            RemoteServerManagerEvent::HostConnected { host_id } => {
                if str_eq(host_id.as_str(), self.host_id.as_str()) {
                    RemoteRepoEffect::RequestSnapshot
                } else {
                    RemoteRepoEffect::Ignore
                }
            },
            RemoteServerManagerEvent::HostDisconnected { .. }
            | RemoteServerManagerEvent::GitHubPrInfoPushReceived { .. }
            | RemoteServerManagerEvent::GitHubRepositoryInfoPushReceived { .. } => RemoteRepoEffect::Ignore,
        }
    }

    /// The latest status the daemon pushed.
    pub fn metadata(&self) -> (metadata: Option<&GitStatusMetadata>)
        ensures
            match self.metadata {
                Some(m) => metadata == Some(&m),
                None => metadata is None,
            },
    {
        match &self.metadata {
            Some(m) => Some(m),
            None => None,
        }
    }
}

/// What a remote GitHub repository model does in answer to an event.
#[derive(Debug, Clone, Copy, PartialEq, Eq, Structural)]
pub enum GitHubRepoEffect {
    /// Nothing.
    Ignore,
    /// Tell subscribers.
    Emit(GitHubRepoEvent),
    /// Ask the daemon to refresh both the pull-request and the repository
    /// info.
    RequestInfo,
}

/// The text of an optional value.
pub open spec fn opt_text(o: Option<String>) -> Option<Seq<char>> {
    match o {
        Some(s) => Some(s@),
        None => None,
    }
}

/// The effect of replacing a stored value: `event` when it moved.
pub open spec fn change_effect(before: Option<String>, pushed: Option<String>, event: GitHubRepoEvent) -> GitHubRepoEffect {
    if opt_text(before) != opt_text(pushed) {
        GitHubRepoEffect::Emit(event)
    } else {
        GitHubRepoEffect::Ignore
    }
}

fn opt_text_eq(a: &Option<String>, b: &Option<String>) -> (eq: bool)
    ensures
        eq == (opt_text(*a) == opt_text(*b)),
{
    match (a, b) {
        (Some(x), Some(y)) => str_eq(x.as_str(), y.as_str()),
        (None, None) => true,
        _ => false,
    }
}

/// The GitHub info of a repository on a remote host, as its daemon pushes
/// it: the pull-request info and the repository info, each held as the text
/// of its encoding (the model only stores it and tells whether it moved).
#[derive(Debug)]
pub struct RemoteGitHubRepoModel {
    pub host_id: String,
    pub repo_path: String,
    pub pr_info: Option<String>,
    pub repository_info: Option<String>,
}

impl RemoteGitHubRepoModel {
    /// A model for `repo_path` on `host_id` with no info yet; its owner then
    /// asks the daemon for the info.
    pub fn new(host_id: String, repo_path: String) -> (model: (RemoteGitHubRepoModel, GitHubRepoEffect))
        ensures
            model.0.host_id == host_id,
            model.0.repo_path == repo_path,
            model.0.pr_info is None,
            model.0.repository_info is None,
            model.1 == GitHubRepoEffect::RequestInfo,
    {
        (RemoteGitHubRepoModel { host_id, repo_path, pr_info: None, repository_info: None }, GitHubRepoEffect::RequestInfo)
    }

    /// Replaces the stored pull-request info with a push, telling
    /// subscribers only when the value moved.
    pub fn apply_pr_info_push(&mut self, pr_info: Option<String>) -> (effect: GitHubRepoEffect)
        ensures
            opt_text(final(self).pr_info) == opt_text(pr_info),
            final(self).repository_info == old(self).repository_info,
            final(self).host_id == old(self).host_id,
            final(self).repo_path == old(self).repo_path,
            effect == change_effect(old(self).pr_info, pr_info, GitHubRepoEvent::PrInfoChanged),
    {
        if opt_text_eq(&self.pr_info, &pr_info) {
            GitHubRepoEffect::Ignore
        } else {
            self.pr_info = pr_info;
            GitHubRepoEffect::Emit(GitHubRepoEvent::PrInfoChanged)
        }
    }

    /// Replaces the stored repository info with a push, telling subscribers
    /// only when the value moved.
    pub fn apply_repository_info_push(&mut self, repository_info: Option<String>) -> (effect: GitHubRepoEffect)
        ensures
            opt_text(final(self).repository_info) == opt_text(repository_info),
            final(self).pr_info == old(self).pr_info,
            final(self).host_id == old(self).host_id,
            final(self).repo_path == old(self).repo_path,
            effect == change_effect(old(self).repository_info, repository_info, GitHubRepoEvent::RepositoryInfoChanged),
    {
        if opt_text_eq(&self.repository_info, &repository_info) {
            GitHubRepoEffect::Ignore
        } else {
            self.repository_info = repository_info;
            GitHubRepoEffect::Emit(GitHubRepoEvent::RepositoryInfoChanged)
        }
    }

    /// Handles an event of the connection manager: a push for this
    /// repository is applied, a reconnect of its host asks for fresh info,
    /// and anything else (a disconnect too) keeps the stored info.
    pub fn handle_manager_event(&mut self, event: &RemoteServerManagerEvent) -> (effect: GitHubRepoEffect)
        ensures
            final(self).host_id == old(self).host_id,
            final(self).repo_path == old(self).repo_path,
            match *event {
                RemoteServerManagerEvent::GitHubPrInfoPushReceived { host_id, repo_path, pr_info } =>
                    if host_id@ == old(self).host_id@ && repo_path@ == old(self).repo_path@ {
                        &&& opt_text(final(self).pr_info) == opt_text(pr_info)
                        &&& final(self).repository_info == old(self).repository_info
                        &&& effect == change_effect(old(self).pr_info, pr_info, GitHubRepoEvent::PrInfoChanged)
                    } else {
                        final(self).pr_info == old(self).pr_info && final(self).repository_info == old(self).repository_info
                            && effect == GitHubRepoEffect::Ignore
                    },
                RemoteServerManagerEvent::GitHubRepositoryInfoPushReceived { host_id, repo_path, repository_info } =>
                    if host_id@ == old(self).host_id@ && repo_path@ == old(self).repo_path@ {
                        &&& opt_text(final(self).repository_info) == opt_text(repository_info)
                        &&& final(self).pr_info == old(self).pr_info
                        &&& effect == change_effect(old(self).repository_info, repository_info, GitHubRepoEvent::RepositoryInfoChanged)
                    } else {
                        final(self).pr_info == old(self).pr_info && final(self).repository_info == old(self).repository_info
                            && effect == GitHubRepoEffect::Ignore
                    },
                RemoteServerManagerEvent::HostConnected { host_id } =>
                    final(self).pr_info == old(self).pr_info && final(self).repository_info == old(self).repository_info
                        && effect == (if host_id@ == old(self).host_id@ { GitHubRepoEffect::RequestInfo } else { GitHubRepoEffect::Ignore }),
                RemoteServerManagerEvent::HostDisconnected { .. } | RemoteServerManagerEvent::GitStatusPushReceived { .. } =>
                    final(self).pr_info == old(self).pr_info && final(self).repository_info == old(self).repository_info
                        && effect == GitHubRepoEffect::Ignore,
            },
    {
        match event {
            RemoteServerManagerEvent::GitHubPrInfoPushReceived { host_id, repo_path, pr_info } => {
                if str_eq(host_id.as_str(), self.host_id.as_str()) && str_eq(repo_path.as_str(), self.repo_path.as_str()) {
                    let copy = match pr_info {
                        Some(p) => Some(p.clone()),
                        None => None,
                    };
                    self.apply_pr_info_push(copy)
                } else {
                    GitHubRepoEffect::Ignore
                }
            },
            RemoteServerManagerEvent::GitHubRepositoryInfoPushReceived { host_id, repo_path, repository_info } => {
                if str_eq(host_id.as_str(), self.host_id.as_str()) && str_eq(repo_path.as_str(), self.repo_path.as_str()) {
                    let copy = match repository_info {
                        Some(r) => Some(r.clone()),
                        None => None,
                    };
                    self.apply_repository_info_push(copy)
                } else {
                    GitHubRepoEffect::Ignore
                }
            },
            RemoteServerManagerEvent::HostConnected { host_id } => {
                if str_eq(host_id.as_str(), self.host_id.as_str()) {
                    GitHubRepoEffect::RequestInfo
                } else {
                    GitHubRepoEffect::Ignore
                }
            },
            RemoteServerManagerEvent::HostDisconnected { .. } | RemoteServerManagerEvent::GitStatusPushReceived { .. } => GitHubRepoEffect::Ignore,
        }
    }

    /// The latest pull-request info the daemon pushed.
    pub fn pr_info(&self) -> (info: Option<&String>)
        ensures
            match self.pr_info {
                Some(p) => info == Some(&p),
                None => info is None,
            },
    {
        match &self.pr_info {
            Some(p) => Some(p),
            None => None,
        }
    }

    /// The latest repository info the daemon pushed.
    pub fn repository_info(&self) -> (info: Option<&String>)
        ensures
            match self.repository_info {
                Some(r) => info == Some(&r),
                None => info is None,
            },
    {
        match &self.repository_info {
            Some(r) => Some(r),
            None => None,
        }
    }

    /// Always `false`: results arrive as pushes with no request to track.
    pub fn is_refreshing_pr_info(&self) -> (refreshing: bool)
        ensures
            !refreshing,
    {
        false
    }
}

} // verus!
