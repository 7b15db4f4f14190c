use command_center::error::{ApiError, ApiOperation};
use command_center::github::{GithubClient, Readiness, MAX_READINESS_POLLS};
use command_center::http::{status_is_success, HttpMethod, HttpOutcome};

fn client() -> GithubClient {
    GithubClient::new("tok".to_string())
}

fn reply(status: u16, body: &str) -> HttpOutcome {
    HttpOutcome::Reply { status, body: Some(body.to_string()) }
}

fn lost() -> HttpOutcome {
    HttpOutcome::Failed { detail: "connection refused".to_string() }
}

#[test]
fn success_is_the_range_200_to_299() {
    assert!(!status_is_success(199));
    assert!(status_is_success(200));
    assert!(status_is_success(204));
    assert!(status_is_success(299));
    assert!(!status_is_success(300));
    assert!(!status_is_success(404));
    assert!(!status_is_success(0));
}

#[test]
fn create_repo_request_is_exact() {
    let r = client().create_private_repo_request("demo");
    assert_eq!(r.method, HttpMethod::Post);
    assert_eq!(r.url, "https://api.github.com/user/repos");
    assert_eq!(r.bearer_token, "tok");
    assert_eq!(r.user_agent.as_deref(), Some("command-center-agent"));
    assert_eq!(r.body.as_deref(), Some("{\"auto_init\":true,\"name\":\"demo\",\"private\":true}"));
}

#[test]
fn names_are_quoted_as_json_strings() {
    let r = client().create_private_repo_request("a\"b\\c\nd");
    let body = r.body.unwrap();
    assert_eq!(body, "{\"auto_init\":true,\"name\":\"a\\\"b\\\\c\\nd\",\"private\":true}");
    let parsed: serde_json::Value = serde_json::from_str(&body).unwrap();
    assert_eq!(parsed["name"].as_str(), Some("a\"b\\c\nd"));
    assert_eq!(parsed["private"].as_bool(), Some(true));
    assert_eq!(parsed["auto_init"].as_bool(), Some(true));
}

#[test]
fn create_repo_reads_the_full_name() {
    let c = client();
    assert_eq!(c.create_private_repo(&reply(201, "{\"full_name\":\"acct/demo\"}")).unwrap(), "acct/demo");
    assert_eq!(c.create_private_repo(&reply(201, "{}")).unwrap(), "unknown/repo");
    assert_eq!(c.create_private_repo(&reply(201, "{\"full_name\":5}")).unwrap(), "unknown/repo");
    assert_eq!(c.create_private_repo(&reply(201, "[1,2]")).unwrap(), "unknown/repo");
}

#[test]
fn create_repo_fails_on_refusal_loss_and_garbage() {
    let c = client();
    assert!(matches!(
        c.create_private_repo(&reply(422, "{\"full_name\":\"acct/demo\"}")),
        Err(ApiError::RemoteApiError { operation: ApiOperation::CreateRepo, status_code: 422 })
    ));
    match c.create_private_repo(&lost()) {
        Err(ApiError::Transport { operation, detail }) => {
            assert_eq!(operation, ApiOperation::CreateRepo);
            assert_eq!(detail, "connection refused");
        }
        _ => panic!("a lost request must be a transport error"),
    }
    assert!(matches!(
        c.create_private_repo(&reply(200, "not json")),
        Err(ApiError::MalformedReply { operation: ApiOperation::CreateRepo })
    ));
    assert!(matches!(
        c.create_private_repo(&HttpOutcome::Reply { status: 200, body: None }),
        Err(ApiError::MalformedReply { operation: ApiOperation::CreateRepo })
    ));
}

#[test]
fn codespace_requests_are_exact() {
    let c = client();
    let create = c.create_codespace_request("acct", "demo");
    assert_eq!(create.method, HttpMethod::Post);
    assert_eq!(create.url, "https://api.github.com/repos/acct/demo/codespaces");
    assert_eq!(create.body.as_deref(), Some("{\"machine\":\"basicLinux\"}"));
    let status = c.codespace_status_request("env1");
    assert_eq!(status.method, HttpMethod::Get);
    assert_eq!(status.url, "https://api.github.com/user/codespaces/env1");
    assert!(status.body.is_none());
    let delete = c.delete_codespace_request("env1");
    assert_eq!(delete.method, HttpMethod::Delete);
    assert_eq!(delete.url, "https://api.github.com/user/codespaces/env1");
    assert!(delete.body.is_none());
}

#[test]
fn create_codespace_reads_the_name() {
    let c = client();
    assert_eq!(c.create_codespace(&reply(201, "{\"name\":\"env1\"}")).unwrap(), "env1");
    assert_eq!(c.create_codespace(&reply(201, "{\"id\":1}")).unwrap(), "");
    assert!(matches!(
        c.create_codespace(&reply(500, "{}")),
        Err(ApiError::RemoteApiError { operation: ApiOperation::CreateCodespace, status_code: 500 })
    ));
}

#[test]
fn readiness_is_read_from_the_state() {
    let c = client();
    assert_eq!(c.codespace_is_ready(&reply(200, "{\"state\":\"Available\"}")).unwrap(), true);
    assert_eq!(c.codespace_is_ready(&reply(200, "{\"state\":\"Starting\"}")).unwrap(), false);
    assert_eq!(c.codespace_is_ready(&reply(200, "{\"state\":\"available\"}")).unwrap(), false);
    assert_eq!(c.codespace_is_ready(&reply(200, "{}")).unwrap(), false);
    assert_eq!(c.codespace_is_ready(&reply(404, "{\"state\":\"Available\"}")).unwrap(), false);
    assert_eq!(c.codespace_is_ready(&reply(503, "oops")).unwrap(), false);
    assert!(matches!(
        c.codespace_is_ready(&reply(200, "oops")),
        Err(ApiError::MalformedReply { operation: ApiOperation::CodespaceStatus })
    ));
    assert!(matches!(
        c.codespace_is_ready(&lost()),
        Err(ApiError::Transport { operation: ApiOperation::CodespaceStatus, .. })
    ));
}

#[test]
fn the_wait_gives_up_after_the_sixtieth_question() {
    let c = client();
    let not_yet = reply(200, "{\"state\":\"Starting\"}");
    let ready = reply(200, "{\"state\":\"Available\"}");
    assert_eq!(MAX_READINESS_POLLS, 60);
    assert_eq!(c.wait_for_codespace(0, &not_yet).unwrap(), Readiness::Retry);
    assert_eq!(c.wait_for_codespace(58, &not_yet).unwrap(), Readiness::Retry);
    assert_eq!(c.wait_for_codespace(59, &not_yet).unwrap(), Readiness::GiveUp);
    assert_eq!(c.wait_for_codespace(u32::MAX, &not_yet).unwrap(), Readiness::GiveUp);
    assert_eq!(c.wait_for_codespace(0, &ready).unwrap(), Readiness::Ready);
    assert_eq!(c.wait_for_codespace(59, &ready).unwrap(), Readiness::Ready);
    assert!(c.wait_for_codespace(3, &lost()).is_err());
}

#[test]
fn deploy_key_requests_are_exact() {
    let c = client();
    let add = c.add_deploy_key_request("acct", "demo", "ssh-ed25519 AAAA", "Command Center Ephemeral");
    assert_eq!(add.method, HttpMethod::Post);
    assert_eq!(add.url, "https://api.github.com/repos/acct/demo/keys");
    assert_eq!(
        add.body.as_deref(),
        Some("{\"key\":\"ssh-ed25519 AAAA\",\"read_only\":false,\"title\":\"Command Center Ephemeral\"}")
    );
    let remove = c.remove_deploy_key_request("acct", "demo", 999);
    assert_eq!(remove.method, HttpMethod::Delete);
    assert_eq!(remove.url, "https://api.github.com/repos/acct/demo/keys/999");
    assert!(remove.body.is_none());
}

#[test]
fn add_deploy_key_reads_the_id() {
    let c = client();
    assert_eq!(c.add_deploy_key(&reply(201, "{\"id\":42}")).unwrap(), 42);
    assert_eq!(c.add_deploy_key(&reply(201, "{\"id\":\"42\"}")).unwrap(), 0);
    assert_eq!(c.add_deploy_key(&reply(201, "{\"id\":-3}")).unwrap(), 0);
    assert_eq!(c.add_deploy_key(&reply(201, "{}")).unwrap(), 0);
    assert!(matches!(
        c.add_deploy_key(&reply(403, "{}")),
        Err(ApiError::RemoteApiError { operation: ApiOperation::AddDeployKey, status_code: 403 })
    ));
}

#[test]
fn removals_count_the_status_only() {
    let c = client();
    assert!(c.remove_deploy_key(&reply(204, "")).is_ok());
    assert!(c.remove_deploy_key(&HttpOutcome::Reply { status: 204, body: None }).is_ok());
    assert!(matches!(
        c.remove_deploy_key(&reply(404, "")),
        Err(ApiError::RemoteApiError { operation: ApiOperation::RemoveDeployKey, status_code: 404 })
    ));
    assert!(c.delete_codespace(&reply(202, "")).is_ok());
    assert!(matches!(
        c.delete_codespace(&reply(500, "")),
        Err(ApiError::RemoteApiError { operation: ApiOperation::DeleteCodespace, status_code: 500 })
    ));
    assert!(matches!(
        c.delete_codespace(&lost()),
        Err(ApiError::Transport { operation: ApiOperation::DeleteCodespace, .. })
    ));
}

#[test]
fn file_revision_is_read_where_the_file_exists() {
    let c = client();
    let read = c.read_file_request("acct", "demo", "AGENTS.md");
    assert_eq!(read.method, HttpMethod::Get);
    assert_eq!(read.url, "https://api.github.com/repos/acct/demo/contents/AGENTS.md");
    assert_eq!(
        c.read_file_revision(&reply(200, "{\"sha\":\"abc123\"}")).unwrap().as_deref(),
        Some("abc123")
    );
    assert_eq!(c.read_file_revision(&reply(200, "{}")).unwrap(), None);
    assert_eq!(c.read_file_revision(&reply(404, "{\"message\":\"Not Found\"}")).unwrap(), None);
    assert!(matches!(
        c.read_file_revision(&reply(200, "<html>")),
        Err(ApiError::MalformedReply { operation: ApiOperation::ReadFile })
    ));
    assert!(matches!(
        c.read_file_revision(&lost()),
        Err(ApiError::Transport { operation: ApiOperation::ReadFile, .. })
    ));
}

#[test]
fn write_request_carries_base64_content_and_the_revision() {
    let c = client();
    let create = c.update_file_request("acct", "demo", "AGENTS.md", "hello", "msg", &None);
    assert_eq!(create.method, HttpMethod::Put);
    assert_eq!(create.url, "https://api.github.com/repos/acct/demo/contents/AGENTS.md");
    assert_eq!(create.body.as_deref(), Some("{\"content\":\"aGVsbG8=\",\"message\":\"msg\"}"));
    let replace = c.update_file_request(
        "acct",
        "demo",
        "AGENTS.md",
        "hello",
        "msg",
        &Some("abc123".to_string()),
    );
    assert_eq!(
        replace.body.as_deref(),
        Some("{\"content\":\"aGVsbG8=\",\"message\":\"msg\",\"sha\":\"abc123\"}")
    );
    let empty = c.update_file_request("acct", "demo", "AGENTS.md", "", "m", &None);
    assert_eq!(empty.body.as_deref(), Some("{\"content\":\"\",\"message\":\"m\"}"));
}

#[test]
fn a_stale_revision_is_a_conflict_and_never_a_success() {
    let c = client();
    assert!(c.update_file(&reply(200, "{}")).is_ok());
    assert!(c.update_file(&reply(201, "{}")).is_ok());
    assert!(matches!(
        c.update_file(&reply(409, "{\"message\":\"is at abc but expected def\"}")),
        Err(ApiError::RemoteApiError { operation: ApiOperation::WriteFile, status_code: 409 })
    ));
    assert!(matches!(
        c.update_file(&reply(422, "{}")),
        Err(ApiError::RemoteApiError { operation: ApiOperation::WriteFile, status_code: 422 })
    ));
}

#[test]
fn access_is_told_by_the_status() {
    let c = client();
    let check = c.check_repo_access_request("acct", "demo");
    assert_eq!(check.method, HttpMethod::Get);
    assert_eq!(check.url, "https://api.github.com/repos/acct/demo");
    assert_eq!(c.check_repo_access(&reply(200, "{}")).unwrap(), true);
    assert_eq!(c.check_repo_access(&reply(404, "{}")).unwrap(), false);
    assert_eq!(c.check_repo_access(&reply(403, "")).unwrap(), false);
    assert!(matches!(
        c.check_repo_access(&lost()),
        Err(ApiError::Transport { operation: ApiOperation::CheckRepoAccess, .. })
    ));
}

#[test]
fn merge_request_and_result_are_exact() {
    let c = client();
    let merge = c.merge_pull_request_request("owner", "repo", 123);
    assert_eq!(merge.method, HttpMethod::Put);
    assert_eq!(merge.url, "https://api.github.com/repos/owner/repo/pulls/123/merge");
    assert_eq!(merge.body.as_deref(), Some("{\"merge_method\":\"squash\"}"));
    assert_eq!(c.merge_pull_request(&reply(200, "{\"merged\":true}")).unwrap(), "merged");
    assert!(matches!(
        c.merge_pull_request(&reply(405, "{}")),
        Err(ApiError::RemoteApiError { operation: ApiOperation::MergePullRequest, status_code: 405 })
    ));
}
