//! GitHub integration: token scopes and status, organisations and
//! repositories as the API lists them, and access checks.
use vstd::prelude::*;

use crate::text::{opt_view, own};

verus! {

broadcast use vstd::string::group_string_axioms;

/// Scope of a token to set or read.
#[derive(Clone, Debug)]
pub enum TokenScope {
    /// The global token, used as fallback.
    Global,
    /// The token of one project.
    Project(String),
}

/// Status of a token.
#[derive(Clone, Debug)]
pub struct TokenStatus {
    pub has_token: bool,
    pub token_type: String,
    pub token_suffix: Option<String>,
    pub verified_user: Option<String>,
}

/// Result of setting a token.
#[derive(Clone, Debug)]
pub struct SetTokenResult {
    pub success: bool,
    pub verified_user: Option<String>,
}

/// Result of checking access to a repository.
#[derive(Clone, Debug)]
pub struct VerifyAccessResult {
    pub has_access: bool,
    pub can_push: bool,
    pub can_pull: bool,
}

/// An organisation, or the user as first item.
#[derive(Clone, Debug)]
pub struct OrgItem {
    pub login: String,
    pub avatar_url: String,
    pub org_type: String,
    pub description: Option<String>,
}

/// A repository.
#[derive(Clone, Debug)]
pub struct RepoItem {
    pub name: String,
    pub full_name: String,
    pub description: Option<String>,
    pub private: bool,
}

/// A page of repositories.
#[derive(Clone, Debug)]
pub struct RepoListResult {
    pub repos: Vec<RepoItem>,
    pub has_more: bool,
}

/// Query for repositories of an owner.
#[derive(Clone, Debug)]
pub struct RepoSearchQuery {
    pub owner: String,
    pub search: Option<String>,
    pub page: Option<u32>,
    pub per_page: Option<u32>,
}

impl Default for RepoSearchQuery {
    /// No owner, no search text, default paging.
    fn default() -> (r: RepoSearchQuery)
        ensures
            r.owner@ == Seq::<char>::empty(),
            r.search is None,
            r.page is None,
            r.per_page is None,
    {
        RepoSearchQuery { owner: String::new(), search: None, page: None, per_page: None }
    }
}

/// Which token a project would use.
#[derive(Clone, Copy, Debug, PartialEq, Eq, Structural)]
pub enum ProjectTokenKind {
    /// No token at all.
    NotConfigured,
    /// A token of the project itself.
    ProjectSpecific,
    /// The global token, as fallback.
    UsingGlobal,
}

/// Status of the global token: its suffix and verified user are shown only
/// when a token exists.
pub fn global_token_status(has_token: bool, token_suffix: Option<String>, verified_user: Option<String>) -> (r: TokenStatus)
    ensures
        r.has_token == has_token,
        r.token_type@ == "global"@,
        opt_view(r.token_suffix) == if has_token {
            opt_view(token_suffix)
        } else {
            None
        },
        opt_view(r.verified_user) == if has_token {
            opt_view(verified_user)
        } else {
            None
        },
{
    let (suffix, user) = if has_token {
        (token_suffix, verified_user)
    } else {
        (None, None)
    };
    TokenStatus { has_token, token_type: own("global"), token_suffix: suffix, verified_user: user }
}

/// Name of a project's token situation.
pub open spec fn token_kind_name(k: ProjectTokenKind) -> Seq<char> {
    match k {
        ProjectTokenKind::NotConfigured => "not_configured"@,
        ProjectTokenKind::ProjectSpecific => "project_specific"@,
        ProjectTokenKind::UsingGlobal => "global_fallback"@,
    }
}

/// The names of a project's token situations: none configured, a token of
/// the project's own, or the global token used in its place.
pub proof fn law_token_kind_names(k: ProjectTokenKind)
    ensures
        k == ProjectTokenKind::NotConfigured ==> token_kind_name(k) == "not_configured"@,
        k == ProjectTokenKind::ProjectSpecific ==> token_kind_name(k) == "project_specific"@,
        k == ProjectTokenKind::UsingGlobal ==> token_kind_name(k) == "global_fallback"@,
{
}

/// Status of a project's token: a token exists unless none is configured.
pub fn project_token_status(kind: ProjectTokenKind) -> (r: TokenStatus)
    ensures
        r.has_token == (kind != ProjectTokenKind::NotConfigured),
        r.token_type@ == token_kind_name(kind),
        r.token_suffix is None,
        r.verified_user is None,
{
    let (has_token, name) = match kind {
        ProjectTokenKind::NotConfigured => (false, "not_configured"),
        ProjectTokenKind::ProjectSpecific => (true, "project_specific"),
        ProjectTokenKind::UsingGlobal => (true, "global_fallback"),
    };
    TokenStatus { has_token, token_type: own(name), token_suffix: None, verified_user: None }
}

/// Whether a token can be used: a token service answered with a configured
/// token (no service, or an error, counts as none).
pub fn token_usable(kind: Option<ProjectTokenKind>) -> (r: bool)
    ensures
        r == (kind matches Some(k) && k != ProjectTokenKind::NotConfigured),
{
    match kind {
        Some(ProjectTokenKind::NotConfigured) => false,
        Some(_) => true,
        None => false,
    }
}

/// The page size and page number of a repository query: 50 per page and
/// the first page unless asked otherwise.
pub fn repo_paging(query: &RepoSearchQuery) -> (r: (u32, u32))
    ensures
        r.0 == match query.per_page {
            Some(p) => p,
            None => 50,
        },
        r.1 == match query.page {
            Some(p) => p,
            None => 1,
        },
{
    let per_page = match query.per_page {
        Some(p) => p,
        None => 50,
    };
    let page = match query.page {
        Some(p) => p,
        None => 1,
    };
    (per_page, page)
}

/// Whether repositories remain after the given page.
pub fn repos_have_more(total_count: u32, page: u32, per_page: u32) -> (r: bool)
    requires
        page * per_page <= u32::MAX,
    ensures
        r == (total_count > page * per_page),
{
    total_count > page * per_page
}

/// Result of an access check: the answer when the check succeeded, no
/// access at all when it failed.
pub fn access_result(check: Option<bool>) -> (r: VerifyAccessResult)
    ensures
        r.has_access == (check == Some(true)),
        r.can_push == r.has_access,
        r.can_pull == r.has_access,
{
    match check {
        Some(has_access) => VerifyAccessResult { has_access, can_push: has_access, can_pull: has_access },
        None => VerifyAccessResult { has_access: false, can_push: false, can_pull: false },
    }
}

/// The user as an organisation item, to come first in the list.
pub fn user_org_item(login: String, avatar_url: String, name: Option<String>) -> (r: OrgItem)
    ensures
        r.login@ == login@,
        r.avatar_url@ == avatar_url@,
        r.org_type@ == "user"@,
        opt_view(r.description) == opt_view(name),
{
    OrgItem { login, avatar_url, org_type: own("user"), description: name }
}

/// An organisation as an item of the list.
pub fn org_item(login: String, avatar_url: String, description: Option<String>) -> (r: OrgItem)
    ensures
        r.login@ == login@,
        r.avatar_url@ == avatar_url@,
        r.org_type@ == "org"@,
        opt_view(r.description) == opt_view(description),
{
    OrgItem { login, avatar_url, org_type: own("org"), description }
}

} // verus!
