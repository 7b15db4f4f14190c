//! The source-control client: what each request looks like and what each
//! reply means.
//!
//! Every operation comes as a pair. The function named `..._request` builds
//! the request; the function that bears the operation's name reads the
//! outcome and says what the operation yielded.

use crate::encoding::{base64_standard, base64_text};
use crate::error::{ApiError, ApiErrorView, ApiOperation};
use crate::http::{
    accept_reply, body_document, is_success, parse_body, read_reply, reply_accepted,
    reply_document, status_is_success, HttpMethod, HttpOutcome, HttpOutcomeView, HttpRequest,
    HttpRequestView,
};
use crate::json::{
    json_quote, json_quoted, member_natural, member_path, member_text, natural_at, text_at,
};
use crate::text::{decimal, decimal_text, same_text};
use vstd::prelude::*;
use vstd::string::StringExecFns;

verus! {

/// How often the readiness of a remote environment is asked for before the
/// wait is given up.
pub const MAX_READINESS_POLLS: u32 = 60;

/// Seconds between two questions for readiness.
pub const READINESS_INTERVAL_SECS: u64 = 5;

/// The client of the source-control host, holding the account's token.
pub struct GithubClient {
    token: String,
}

impl View for GithubClient {
    type V = Seq<char>;

    closed spec fn view(&self) -> Seq<char> {
        self.token@
    }
}

/// The content of a result that carries a text.
pub open spec fn text_result(r: Result<String, ApiError>) -> Result<Seq<char>, ApiErrorView> {
    match r {
        Ok(s) => Ok(s@),
        Err(e) => Err(e@),
    }
}

/// The content of a result that carries a plain value.
pub open spec fn plain_result<T>(r: Result<T, ApiError>) -> Result<T, ApiErrorView> {
    match r {
        Ok(v) => Ok(v),
        Err(e) => Err(e@),
    }
}

/// The content of a result that carries an optional text.
pub open spec fn optional_text_result(r: Result<Option<String>, ApiError>) -> Result<
    Option<Seq<char>>,
    ApiErrorView,
> {
    match r {
        Ok(s) => Ok(s.deep_view()),
        Err(e) => Err(e@),
    }
}

/// A request to the source-control host.
pub open spec fn github_request(
    token: Seq<char>,
    method: HttpMethod,
    url: Seq<char>,
    body: Option<Seq<char>>,
) -> HttpRequestView {
    HttpRequestView {
        method,
        url,
        bearer_token: token,
        user_agent: Some("command-center-agent"@),
        body,
    }
}

/// The address of a repository.
pub open spec fn repo_url(owner: Seq<char>, repo: Seq<char>) -> Seq<char> {
    "https://api.github.com/repos/"@ + owner + "/"@ + repo
}

/// The address of a remote environment.
pub open spec fn codespace_url(name: Seq<char>) -> Seq<char> {
    "https://api.github.com/user/codespaces/"@ + name
}

/// The request that creates a private, initialised repository.
pub open spec fn create_repo_request(token: Seq<char>, name: Seq<char>) -> HttpRequestView {
    github_request(
        token,
        HttpMethod::Post,
        "https://api.github.com/user/repos"@,
        Some("{\"auto_init\":true,\"name\":"@ + json_quoted(name) + ",\"private\":true}"@),
    )
}

/// The full name of the repository that was created; `unknown/repo` where
/// the reply names none.
pub open spec fn created_repo(outcome: HttpOutcomeView) -> Result<Seq<char>, ApiErrorView> {
    match reply_document(ApiOperation::CreateRepo, outcome) {
        Err(e) => Err(e),
        Ok(doc) => match text_at(doc, member_path("full_name"@)) {
            Some(name) => Ok(name),
            None => Ok("unknown/repo"@),
        },
    }
}

/// The request that creates a remote environment for a repository.
pub open spec fn create_codespace_request(token: Seq<char>, owner: Seq<char>, repo: Seq<char>)
    -> HttpRequestView {
    github_request(
        token,
        HttpMethod::Post,
        repo_url(owner, repo) + "/codespaces"@,
        Some("{\"machine\":\"basicLinux\"}"@),
    )
}

/// The name of the environment that was created; empty where the reply
/// names none.
pub open spec fn created_codespace(outcome: HttpOutcomeView) -> Result<Seq<char>, ApiErrorView> {
    match reply_document(ApiOperation::CreateCodespace, outcome) {
        Err(e) => Err(e),
        Ok(doc) => match text_at(doc, member_path("name"@)) {
            Some(name) => Ok(name),
            None => Ok(Seq::empty()),
        },
    }
}

/// The request that asks for the state of a remote environment.
pub open spec fn codespace_status_request(token: Seq<char>, name: Seq<char>) -> HttpRequestView {
    github_request(token, HttpMethod::Get, codespace_url(name), None)
}

/// Whether a remote environment is ready. It is where the reply is accepted
/// and gives its state as `Available`. A reply with another state, or with
/// a status outside the success range, says that it is not ready yet. No
/// reply, or an accepted reply that is no JSON document, is an error.
pub open spec fn codespace_ready(outcome: HttpOutcomeView) -> Result<bool, ApiErrorView> {
    match outcome {
        HttpOutcomeView::Failed { detail } => Err(
            ApiErrorView::Transport { operation: ApiOperation::CodespaceStatus, detail },
        ),
        HttpOutcomeView::Reply { status, body } => if is_success(status) {
            match body_document(ApiOperation::CodespaceStatus, body) {
                Err(e) => Err(e),
                Ok(doc) => Ok(text_at(doc, member_path("state"@)) == Some("Available"@)),
            }
        } else {
            Ok(false)
        },
    }
}

/// What to do after a question for readiness.
#[derive(Clone, Copy, Debug, PartialEq, Eq, Structural)]
pub enum Readiness {
    /// The environment is available.
    Ready,
    /// Not yet: wait [`READINESS_INTERVAL_SECS`] and ask again.
    Retry,
    /// Not yet, and this was the last question: wait once more, then give
    /// up.
    GiveUp,
}

/// The decision after the question number `polls_before + 1`: ready ends the
/// wait; otherwise the wait goes on while fewer than
/// [`MAX_READINESS_POLLS`] questions were asked.
pub open spec fn readiness_after(polls_before: u32, outcome: HttpOutcomeView) -> Result<
    Readiness,
    ApiErrorView,
> {
    match codespace_ready(outcome) {
        Err(e) => Err(e),
        Ok(true) => Ok(Readiness::Ready),
        Ok(false) => if polls_before + 1 < MAX_READINESS_POLLS {
            Ok(Readiness::Retry)
        } else {
            Ok(Readiness::GiveUp)
        },
    }
}

/// The request that deletes a remote environment.
pub open spec fn delete_codespace_request(token: Seq<char>, name: Seq<char>) -> HttpRequestView {
    github_request(token, HttpMethod::Delete, codespace_url(name), None)
}

/// The request that adds a deploy key with write access to a repository.
pub open spec fn add_deploy_key_request(
    token: Seq<char>,
    owner: Seq<char>,
    repo: Seq<char>,
    key: Seq<char>,
    title: Seq<char>,
) -> HttpRequestView {
    github_request(
        token,
        HttpMethod::Post,
        repo_url(owner, repo) + "/keys"@,
        Some(
            "{\"key\":"@ + json_quoted(key) + ",\"read_only\":false,\"title\":"@ + json_quoted(
                title,
            ) + "}"@,
        ),
    )
}

/// The id of the deploy key that was added; 0 where the reply gives none.
pub open spec fn added_deploy_key(outcome: HttpOutcomeView) -> Result<u64, ApiErrorView> {
    match reply_document(ApiOperation::AddDeployKey, outcome) {
        Err(e) => Err(e),
        Ok(doc) => match natural_at(doc, member_path("id"@)) {
            Some(id) => Ok(id),
            None => Ok(0),
        },
    }
}

/// The request that removes a deploy key from a repository.
pub open spec fn remove_deploy_key_request(
    token: Seq<char>,
    owner: Seq<char>,
    repo: Seq<char>,
    key_id: u64,
) -> HttpRequestView {
    github_request(
        token,
        HttpMethod::Delete,
        repo_url(owner, repo) + "/keys/"@ + decimal(key_id as nat),
        None,
    )
}

/// The address of a file in a repository.
pub open spec fn contents_url(owner: Seq<char>, repo: Seq<char>, path: Seq<char>) -> Seq<char> {
    repo_url(owner, repo) + "/contents/"@ + path
}

/// The request that reads a file, to learn its revision.
pub open spec fn read_file_request(
    token: Seq<char>,
    owner: Seq<char>,
    repo: Seq<char>,
    path: Seq<char>,
) -> HttpRequestView {
    github_request(token, HttpMethod::Get, contents_url(owner, repo, path), None)
}

/// The revision marker of a file as the host holds it. A reply with a
/// status outside the success range says that there is no such file yet,
/// and so does an accepted reply without a marker. No reply, or an accepted
/// reply that is no JSON document, is an error.
pub open spec fn file_revision(outcome: HttpOutcomeView) -> Result<
    Option<Seq<char>>,
    ApiErrorView,
> {
    match outcome {
        HttpOutcomeView::Failed { detail } => Err(
            ApiErrorView::Transport { operation: ApiOperation::ReadFile, detail },
        ),
        HttpOutcomeView::Reply { status, body } => if is_success(status) {
            match body_document(ApiOperation::ReadFile, body) {
                Err(e) => Err(e),
                Ok(doc) => Ok(text_at(doc, member_path("sha"@))),
            }
        } else {
            Ok(None)
        },
    }
}

/// The document that writes a file: the commit message, the content in
/// base64 and, where the file exists, the revision that the write replaces.
pub open spec fn write_file_body(content: Seq<char>, message: Seq<char>, sha: Option<Seq<char>>)
    -> Seq<char> {
    let head = "{\"content\":"@ + json_quoted(base64_standard(content)) + ",\"message\":"@
        + json_quoted(message);
    match sha {
        Some(marker) => head + ",\"sha\":"@ + json_quoted(marker) + "}"@,
        None => head + "}"@,
    }
}

/// The request that creates a file, or replaces the revision `sha` of it.
pub open spec fn write_file_request(
    token: Seq<char>,
    owner: Seq<char>,
    repo: Seq<char>,
    path: Seq<char>,
    content: Seq<char>,
    message: Seq<char>,
    sha: Option<Seq<char>>,
) -> HttpRequestView {
    github_request(
        token,
        HttpMethod::Put,
        contents_url(owner, repo, path),
        Some(write_file_body(content, message, sha)),
    )
}

/// The request that looks a repository up.
pub open spec fn check_access_request(token: Seq<char>, owner: Seq<char>, repo: Seq<char>)
    -> HttpRequestView {
    github_request(token, HttpMethod::Get, repo_url(owner, repo), None)
}

/// Whether the repository is there and open to the account: the status of
/// the reply says so. Only a missing reply is an error.
pub open spec fn repo_accessible(outcome: HttpOutcomeView) -> Result<bool, ApiErrorView> {
    match outcome {
        HttpOutcomeView::Failed { detail } => Err(
            ApiErrorView::Transport { operation: ApiOperation::CheckRepoAccess, detail },
        ),
        HttpOutcomeView::Reply { status, body } => Ok(is_success(status)),
    }
}

/// The request that merges a pull request by squashing.
pub open spec fn merge_request(
    token: Seq<char>,
    owner: Seq<char>,
    repo: Seq<char>,
    pull_number: u64,
) -> HttpRequestView {
    github_request(
        token,
        HttpMethod::Put,
        repo_url(owner, repo) + "/pulls/"@ + decimal(pull_number as nat) + "/merge"@,
        Some("{\"merge_method\":\"squash\"}"@),
    )
}

/// What a merge yields where the host accepts it.
pub open spec fn merged(outcome: HttpOutcomeView) -> Result<Seq<char>, ApiErrorView> {
    match reply_accepted(ApiOperation::MergePullRequest, outcome) {
        Err(e) => Err(e),
        Ok(_) => Ok("merged"@),
    }
}

fn repo_address(owner: &str, repo: &str) -> (r: String)
    ensures
        r@ == repo_url(owner@, repo@),
{
    let mut url = "https://api.github.com/repos/".to_owned();
    url.append(owner);
    url.append("/");
    url.append(repo);
    url
}

fn codespace_address(name: &str) -> (r: String)
    ensures
        r@ == codespace_url(name@),
{
    let mut url = "https://api.github.com/user/codespaces/".to_owned();
    url.append(name);
    url
}

impl GithubClient {
    /// A client that authorises its requests with `token`.
    pub fn new(token: String) -> (r: GithubClient)
        ensures
            r@ == token@,
    {
        GithubClient { token }
    }

    fn request(&self, method: HttpMethod, url: String, body: Option<String>) -> (r: HttpRequest)
        ensures
            r@ == github_request(self@, method, url@, body.deep_view()),
    {
        HttpRequest {
            method,
            url,
            bearer_token: self.token.clone(),
            user_agent: Some("command-center-agent".to_owned()),
            body,
        }
    }

    /// Builds the request that creates a private repository named `name`.
    pub fn create_private_repo_request(&self, name: &str) -> (r: HttpRequest)
        ensures
            r@ == create_repo_request(self@, name@),
    {
        let mut body = "{\"auto_init\":true,\"name\":".to_owned();
        let quoted = json_quote(name);
        body.append(quoted.as_str());
        body.append(",\"private\":true}");
        self.request(HttpMethod::Post, "https://api.github.com/user/repos".to_owned(), Some(body))
    }

    /// Reads the full name (`owner/name`) of the repository from the reply.
    pub fn create_private_repo(&self, outcome: &HttpOutcome) -> (r: Result<String, ApiError>)
        ensures
            text_result(r) == created_repo(outcome@),
    {
        match read_reply(ApiOperation::CreateRepo, outcome) {
            Err(e) => Err(e),
            Ok(doc) => match member_text(&doc, "full_name") {
                Some(name) => Ok(name),
                None => Ok("unknown/repo".to_owned()),
            },
        }
    }

    /// Builds the request that creates a remote environment for a
    /// repository.
    pub fn create_codespace_request(&self, repo_owner: &str, repo_name: &str) -> (r: HttpRequest)
        ensures
            r@ == create_codespace_request(self@, repo_owner@, repo_name@),
    {
        let mut url = repo_address(repo_owner, repo_name);
        url.append("/codespaces");
        self.request(HttpMethod::Post, url, Some("{\"machine\":\"basicLinux\"}".to_owned()))
    }

    /// Reads the name of the environment from the reply.
    pub fn create_codespace(&self, outcome: &HttpOutcome) -> (r: Result<String, ApiError>)
        ensures
            text_result(r) == created_codespace(outcome@),
    {
        match read_reply(ApiOperation::CreateCodespace, outcome) {
            Err(e) => Err(e),
            Ok(doc) => match member_text(&doc, "name") {
                Some(name) => Ok(name),
                None => Ok(String::new()),
            },
        }
    }

    /// Builds the request that asks for the state of a remote environment.
    pub fn codespace_status_request(&self, codespace_name: &str) -> (r: HttpRequest)
        ensures
            r@ == codespace_status_request(self@, codespace_name@),
    {
        self.request(HttpMethod::Get, codespace_address(codespace_name), None)
    }

    /// Reads from the reply whether the environment is available.
    pub fn codespace_is_ready(&self, outcome: &HttpOutcome) -> (r: Result<bool, ApiError>)
        ensures
            plain_result(r) == codespace_ready(outcome@),
    {
        match outcome {
            HttpOutcome::Failed { detail } => Err(
                ApiError::Transport {
                    operation: ApiOperation::CodespaceStatus,
                    detail: detail.clone(),
                },
            ),
            HttpOutcome::Reply { status, body } => {
                if status_is_success(*status) {
                    match parse_body(ApiOperation::CodespaceStatus, body) {
                        Err(e) => Err(e),
                        Ok(doc) => match member_text(&doc, "state") {
                            Some(state) => Ok(same_text(state.as_str(), "Available")),
                            None => Ok(false),
                        },
                    }
                } else {
                    Ok(false)
                }
            },
        }
    }

    /// Decides how the wait for a remote environment goes on after one more
    /// question, `polls_before` questions having been asked before it.
    pub fn wait_for_codespace(&self, polls_before: u32, outcome: &HttpOutcome) -> (r: Result<
        Readiness,
        ApiError,
    >)
        ensures
            plain_result(r) == readiness_after(polls_before, outcome@),
    {
        match self.codespace_is_ready(outcome) {
            Err(e) => Err(e),
            Ok(true) => Ok(Readiness::Ready),
            Ok(false) => {
                if polls_before < MAX_READINESS_POLLS - 1 {
                    Ok(Readiness::Retry)
                } else {
                    Ok(Readiness::GiveUp)
                }
            },
        }
    }

    /// Builds the request that deletes a remote environment.
    pub fn delete_codespace_request(&self, codespace_name: &str) -> (r: HttpRequest)
        ensures
            r@ == delete_codespace_request(self@, codespace_name@),
    {
        self.request(HttpMethod::Delete, codespace_address(codespace_name), None)
    }

    /// Reads from the reply whether the environment was deleted.
    pub fn delete_codespace(&self, outcome: &HttpOutcome) -> (r: Result<(), ApiError>)
        ensures
            plain_result(r) == reply_accepted(ApiOperation::DeleteCodespace, outcome@),
    {
        accept_reply(ApiOperation::DeleteCodespace, outcome)
    }

    /// Builds the request that adds `key` as a deploy key with write access.
    pub fn add_deploy_key_request(&self, repo_owner: &str, repo_name: &str, key: &str, title: &str)
        -> (r: HttpRequest)
        ensures
            r@ == add_deploy_key_request(self@, repo_owner@, repo_name@, key@, title@),
    {
        let mut url = repo_address(repo_owner, repo_name);
        url.append("/keys");
        let mut body = "{\"key\":".to_owned();
        let quoted_key = json_quote(key);
        body.append(quoted_key.as_str());
        body.append(",\"read_only\":false,\"title\":");
        let quoted_title = json_quote(title);
        body.append(quoted_title.as_str());
        body.append("}");
        self.request(HttpMethod::Post, url, Some(body))
    }

    /// Reads the id of the new deploy key from the reply.
    pub fn add_deploy_key(&self, outcome: &HttpOutcome) -> (r: Result<u64, ApiError>)
        ensures
            plain_result(r) == added_deploy_key(outcome@),
    {
        match read_reply(ApiOperation::AddDeployKey, outcome) {
            Err(e) => Err(e),
            Ok(doc) => match member_natural(&doc, "id") {
                Some(id) => Ok(id),
                None => Ok(0),
            },
        }
    }

    /// Builds the request that removes the deploy key `key_id`.
    pub fn remove_deploy_key_request(&self, repo_owner: &str, repo_name: &str, key_id: u64) -> (r:
        HttpRequest)
        ensures
            r@ == remove_deploy_key_request(self@, repo_owner@, repo_name@, key_id),
    {
        let mut url = repo_address(repo_owner, repo_name);
        url.append("/keys/");
        let id = decimal_text(key_id);
        url.append(id.as_str());
        self.request(HttpMethod::Delete, url, None)
    }

    /// Reads from the reply whether the deploy key was removed.
    pub fn remove_deploy_key(&self, outcome: &HttpOutcome) -> (r: Result<(), ApiError>)
        ensures
            plain_result(r) == reply_accepted(ApiOperation::RemoveDeployKey, outcome@),
    {
        accept_reply(ApiOperation::RemoveDeployKey, outcome)
    }

    /// Builds the request that reads the file at `path`, the first half of
    /// an update.
    pub fn read_file_request(&self, repo_owner: &str, repo_name: &str, path: &str) -> (r:
        HttpRequest)
        ensures
            r@ == read_file_request(self@, repo_owner@, repo_name@, path@),
    {
        let mut url = repo_address(repo_owner, repo_name);
        url.append("/contents/");
        url.append(path);
        self.request(HttpMethod::Get, url, None)
    }

    /// Reads the revision marker of the file from the reply; `None` says
    /// that the file is to be created.
    pub fn read_file_revision(&self, outcome: &HttpOutcome) -> (r: Result<
        Option<String>,
        ApiError,
    >)
        ensures
            optional_text_result(r) == file_revision(outcome@),
    {
        match outcome {
            HttpOutcome::Failed { detail } => Err(
                ApiError::Transport { operation: ApiOperation::ReadFile, detail: detail.clone() },
            ),
            HttpOutcome::Reply { status, body } => {
                if status_is_success(*status) {
                    match parse_body(ApiOperation::ReadFile, body) {
                        Err(e) => Err(e),
                        Ok(doc) => Ok(member_text(&doc, "sha")),
                    }
                } else {
                    Ok(None)
                }
            },
        }
    }

    /// Builds the request that writes the file at `path`, the second half of
    /// an update. With `sha` the host replaces that revision and no other:
    /// where the file has changed since it was read, the host refuses.
    pub fn update_file_request(
        &self,
        repo_owner: &str,
        repo_name: &str,
        path: &str,
        content: &str,
        message: &str,
        sha: &Option<String>,
    ) -> (r: HttpRequest)
        ensures
            r@ == write_file_request(
                self@,
                repo_owner@,
                repo_name@,
                path@,
                content@,
                message@,
                sha.deep_view(),
            ),
    {
        let mut url = repo_address(repo_owner, repo_name);
        url.append("/contents/");
        url.append(path);
        let mut body = "{\"content\":".to_owned();
        let encoded = base64_text(content);
        let quoted_content = json_quote(encoded.as_str());
        body.append(quoted_content.as_str());
        body.append(",\"message\":");
        let quoted_message = json_quote(message);
        body.append(quoted_message.as_str());
        match sha {
            Some(marker) => {
                body.append(",\"sha\":");
                let quoted_marker = json_quote(marker.as_str());
                body.append(quoted_marker.as_str());
                body.append("}");
            },
            None => {
                body.append("}");
            },
        }
        self.request(HttpMethod::Put, url, Some(body))
    }

    /// Reads from the reply whether the file was written. A write that the
    /// host refuses, as it does for a revision that is no longer current, is
    /// an error that carries the status; it is never taken for a success.
    pub fn update_file(&self, outcome: &HttpOutcome) -> (r: Result<(), ApiError>)
        ensures
            plain_result(r) == reply_accepted(ApiOperation::WriteFile, outcome@),
            outcome@ matches HttpOutcomeView::Reply { status, .. } && !is_success(status) ==> r
                is Err,
    {
        accept_reply(ApiOperation::WriteFile, outcome)
    }

    /// Builds the request that looks the repository up.
    pub fn check_repo_access_request(&self, repo_owner: &str, repo_name: &str) -> (r: HttpRequest)
        ensures
            r@ == check_access_request(self@, repo_owner@, repo_name@),
    {
        self.request(HttpMethod::Get, repo_address(repo_owner, repo_name), None)
    }

    /// Reads from the reply whether the repository can be reached.
    pub fn check_repo_access(&self, outcome: &HttpOutcome) -> (r: Result<bool, ApiError>)
        ensures
            plain_result(r) == repo_accessible(outcome@),
    {
        match outcome {
            HttpOutcome::Failed { detail } => Err(
                ApiError::Transport {
                    operation: ApiOperation::CheckRepoAccess,
                    detail: detail.clone(),
                },
            ),
            HttpOutcome::Reply { status, body } => Ok(status_is_success(*status)),
        }
    }

    /// Builds the request that merges the pull request `pull_number`.
    pub fn merge_pull_request_request(&self, repo_owner: &str, repo_name: &str, pull_number: u64)
        -> (r: HttpRequest)
        ensures
            r@ == merge_request(self@, repo_owner@, repo_name@, pull_number),
    {
        let mut url = repo_address(repo_owner, repo_name);
        url.append("/pulls/");
        let number = decimal_text(pull_number);
        url.append(number.as_str());
        url.append("/merge");
        self.request(HttpMethod::Put, url, Some("{\"merge_method\":\"squash\"}".to_owned()))
    }

    /// Reads from the reply whether the pull request was merged.
    pub fn merge_pull_request(&self, outcome: &HttpOutcome) -> (r: Result<String, ApiError>)
        ensures
            text_result(r) == merged(outcome@),
    {
        match accept_reply(ApiOperation::MergePullRequest, outcome) {
            Err(e) => Err(e),
            Ok(_) => Ok("merged".to_owned()),
        }
    }
}

} // verus!
