use command_center::error::{ApiError, ApiOperation};
use command_center::http::{HttpMethod, HttpOutcome};
use command_center::jules::{map_session_state, number_of_pull_request, JulesClient};
use command_center::types::JobStatus;

fn client() -> JulesClient {
    JulesClient::new("gtok".to_string())
}

fn reply(status: u16, body: &str) -> HttpOutcome {
    HttpOutcome::Reply { status, body: Some(body.to_string()) }
}

#[test]
fn every_state_maps_to_one_status() {
    assert_eq!(map_session_state("WAITING_FOR_USER", false), JobStatus::WaitingApproval);
    assert_eq!(map_session_state("WAITING_FOR_USER", true), JobStatus::WaitingApproval);
    assert_eq!(map_session_state("SUCCEEDED", true), JobStatus::PrReady);
    assert_eq!(map_session_state("SUCCEEDED", false), JobStatus::Merged);
    assert_eq!(map_session_state("RUNNING", false), JobStatus::Working);
    assert_eq!(map_session_state("RUNNING", true), JobStatus::Working);
}

#[test]
fn unknown_states_map_to_planning() {
    for state in ["", "QUEUED", "FAILED", "running", "Succeeded", "PLANNING", "💥"] {
        assert_eq!(map_session_state(state, false), JobStatus::Planning);
        assert_eq!(map_session_state(state, true), JobStatus::Planning);
    }
}

#[test]
fn start_session_request_is_exact() {
    let r = client().start_session_request("github.com/acct/demo", "Do it.", true);
    assert_eq!(r.method, HttpMethod::Post);
    assert_eq!(r.url, "https://jules.googleapis.com/v1/sessions");
    assert_eq!(r.bearer_token, "gtok");
    assert!(r.user_agent.is_none());
    assert_eq!(
        r.body.as_deref(),
        Some("{\"prompt\":\"Do it.\",\"requirePlanApproval\":true,\"source\":\"github.com/acct/demo\"}")
    );
    let auto = client().start_session_request("s", "p", false);
    assert_eq!(
        auto.body.as_deref(),
        Some("{\"prompt\":\"p\",\"requirePlanApproval\":false,\"source\":\"s\"}")
    );
}

#[test]
fn start_session_reads_the_session_id() {
    let c = client();
    assert_eq!(c.start_session(&reply(200, "{\"name\":\"sessions/77\"}")).unwrap(), "sessions/77");
    assert_eq!(c.start_session(&reply(200, "{}")).unwrap(), "");
    assert!(matches!(
        c.start_session(&reply(401, "{}")),
        Err(ApiError::RemoteApiError { operation: ApiOperation::StartSession, status_code: 401 })
    ));
    assert!(matches!(
        c.start_session(&reply(200, "nope")),
        Err(ApiError::MalformedReply { operation: ApiOperation::StartSession })
    ));
    assert!(matches!(
        c.start_session(&HttpOutcome::Failed { detail: "down".to_string() }),
        Err(ApiError::Transport { operation: ApiOperation::StartSession, .. })
    ));
}

#[test]
fn poll_request_addresses_the_session() {
    let r = client().poll_session_request("sessions/77");
    assert_eq!(r.method, HttpMethod::Get);
    assert_eq!(r.url, "https://jules.googleapis.com/v1/sessions/77");
    assert!(r.body.is_none());
}

#[test]
fn poll_reports_a_waiting_session_with_its_plan() {
    let body = "{\"state\":\"WAITING_FOR_USER\",\"inputs\":{\"plan_summary\":\"Create main.rs\"}}";
    let (status, pr, plan) = client().poll_session(&reply(200, body)).unwrap();
    assert_eq!(status, JobStatus::WaitingApproval);
    assert!(pr.is_none());
    assert_eq!(plan.as_deref(), Some("Create main.rs"));
    let (status, pr, plan) =
        client().poll_session(&reply(200, "{\"state\":\"WAITING_FOR_USER\"}")).unwrap();
    assert_eq!(status, JobStatus::WaitingApproval);
    assert!(pr.is_none());
    assert!(plan.is_none());
    let (_, _, plan) = client()
        .poll_session(&reply(200, "{\"state\":\"WAITING_FOR_USER\",\"inputs\":{\"plan_summary\":3}}"))
        .unwrap();
    assert!(plan.is_none());
}

#[test]
fn poll_reports_the_first_pull_request_of_a_finished_session() {
    let body = "{\"state\":\"SUCCEEDED\",\"outputs\":[{\"log\":\"x\"},\
        {\"pullRequest\":{\"url\":\"https://example/pr/7\",\"title\":\"First\"}},\
        {\"pullRequest\":{\"url\":\"https://example/pr/8\",\"title\":\"Second\"}}]}";
    let (status, pr, plan) = client().poll_session(&reply(200, body)).unwrap();
    assert_eq!(status, JobStatus::PrReady);
    assert!(plan.is_none());
    let pr = pr.unwrap();
    assert_eq!(pr.number, 7);
    assert_eq!(pr.url, "https://example/pr/7");
    assert_eq!(pr.title, "First");
}

#[test]
fn poll_takes_the_number_that_is_given_before_the_one_in_the_address() {
    let body = "{\"state\":\"SUCCEEDED\",\"outputs\":[\
        {\"pullRequest\":{\"url\":\"https://example/pr/7\",\"number\":12}}]}";
    let (status, pr, _) = client().poll_session(&reply(200, body)).unwrap();
    assert_eq!(status, JobStatus::PrReady);
    let pr = pr.unwrap();
    assert_eq!(pr.number, 12);
    assert_eq!(pr.title, "");
}

#[test]
fn pull_request_number_falls_back_to_zero() {
    assert_eq!(number_of_pull_request(Some(5), "https://example/pr/7"), 5);
    assert_eq!(number_of_pull_request(None, "https://example/pr/7"), 7);
    assert_eq!(number_of_pull_request(None, "https://github.com/mock/repo/pull/123"), 123);
    assert_eq!(number_of_pull_request(None, "https://example/pr/7/"), 0);
    assert_eq!(number_of_pull_request(None, "https://example/pr/seven"), 0);
    assert_eq!(number_of_pull_request(None, ""), 0);
    assert_eq!(number_of_pull_request(None, "42"), 42);
}

#[test]
fn poll_reports_merged_where_a_finished_session_has_no_pull_request() {
    for body in [
        "{\"state\":\"SUCCEEDED\"}",
        "{\"state\":\"SUCCEEDED\",\"outputs\":[]}",
        "{\"state\":\"SUCCEEDED\",\"outputs\":[{\"log\":\"x\"}]}",
        "{\"state\":\"SUCCEEDED\",\"outputs\":{\"pullRequest\":{}}}",
    ] {
        let (status, pr, plan) = client().poll_session(&reply(200, body)).unwrap();
        assert_eq!(status, JobStatus::Merged);
        assert!(pr.is_none());
        assert!(plan.is_none());
    }
}

#[test]
fn poll_reports_working_and_planning_without_extras() {
    let running = "{\"state\":\"RUNNING\",\"inputs\":{\"plan_summary\":\"p\"},\
        \"outputs\":[{\"pullRequest\":{\"url\":\"u\"}}]}";
    let (status, pr, plan) = client().poll_session(&reply(200, running)).unwrap();
    assert_eq!(status, JobStatus::Working);
    assert!(pr.is_none());
    assert!(plan.is_none());
    for body in ["{\"state\":\"QUEUED\"}", "{}", "{\"state\":7}", "[]", "null"] {
        let (status, pr, plan) = client().poll_session(&reply(200, body)).unwrap();
        assert_eq!(status, JobStatus::Planning);
        assert!(pr.is_none());
        assert!(plan.is_none());
    }
}

#[test]
fn poll_reads_the_body_whatever_the_status() {
    let (status, _, _) = client().poll_session(&reply(500, "{\"state\":\"RUNNING\"}")).unwrap();
    assert_eq!(status, JobStatus::Working);
}

#[test]
fn poll_fails_without_a_reply_or_a_document() {
    assert!(matches!(
        client().poll_session(&HttpOutcome::Failed { detail: "timeout".to_string() }),
        Err(ApiError::Transport { operation: ApiOperation::PollSession, .. })
    ));
    assert!(matches!(
        client().poll_session(&reply(200, "{state:")),
        Err(ApiError::MalformedReply { operation: ApiOperation::PollSession })
    ));
    assert!(matches!(
        client().poll_session(&HttpOutcome::Reply { status: 200, body: None }),
        Err(ApiError::MalformedReply { operation: ApiOperation::PollSession })
    ));
}

#[test]
fn control_requests_are_exact() {
    let c = client();
    let resume = c.resume_session_request("sessions/77");
    assert_eq!(resume.method, HttpMethod::Post);
    assert_eq!(resume.url, "https://jules.googleapis.com/v1/sessions/77:approvePlan");
    assert_eq!(resume.body.as_deref(), Some("{}"));
    let feedback = c.send_activity_request("sessions/77", "use \"tabs\"");
    assert_eq!(feedback.method, HttpMethod::Post);
    assert_eq!(feedback.url, "https://jules.googleapis.com/v1/sessions/77:sendMessage");
    assert_eq!(feedback.body.as_deref(), Some("{\"prompt\":\"use \\\"tabs\\\"\"}"));
}

#[test]
fn control_results_count_the_status_only() {
    let c = client();
    assert!(c.resume_session(&reply(200, "")).is_ok());
    assert!(matches!(
        c.resume_session(&reply(404, "")),
        Err(ApiError::RemoteApiError { operation: ApiOperation::ResumeSession, status_code: 404 })
    ));
    assert!(c.send_activity(&reply(200, "{}")).is_ok());
    assert!(matches!(
        c.send_activity(&reply(400, "")),
        Err(ApiError::RemoteApiError { operation: ApiOperation::SendFeedback, status_code: 400 })
    ));
}
