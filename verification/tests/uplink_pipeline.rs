use command_center::engine::{Command, Outcome, Step, POLL_INTERVAL_SECS};
use command_center::error::{ApiError, ApiOperation, ErrorKind, JobError};
use command_center::http::{HttpMethod, HttpOutcome};
use command_center::types::{AgentMode, JobStatus, JobUpdateEvent};
use command_center::uplink_engine::{parse_repo_url, run_uplink_job, UplinkJob};

fn job(repo_url: &str, mode: AgentMode) -> UplinkJob {
    UplinkJob::new(
        "job-1".to_string(),
        repo_url.to_string(),
        "Build it".to_string(),
        mode,
        "gh".to_string(),
        "goog".to_string(),
    )
}

fn reply(status: u16, body: &str) -> Outcome {
    Outcome::Http(HttpOutcome::Reply { status, body: Some(body.to_string()) })
}

fn lost() -> Outcome {
    Outcome::Http(HttpOutcome::Failed { detail: "offline".to_string() })
}

/// Runs a job over outcomes; returns it with all events and the last command.
fn run(mut job: UplinkJob, outcomes: Vec<Outcome>) -> (UplinkJob, Vec<JobUpdateEvent>, Command) {
    let mut events = Vec::new();
    let mut last = Command::Pending;
    for outcome in outcomes {
        let (next, Step { events: mut told, command }) = run_uplink_job(job, outcome);
        job = next;
        events.append(&mut told);
        last = command;
    }
    (job, events, last)
}

fn until_session() -> Vec<Outcome> {
    vec![
        Outcome::Begin,
        reply(200, "{}"),
        reply(200, "{\"sha\":\"abc\"}"),
        reply(200, "{}"),
        reply(200, "{\"name\":\"sessions/9\"}"),
    ]
}

#[test]
fn parse_repo_url_reads_owner_and_name() {
    let ok = |url: &str| parse_repo_url(url).unwrap();
    assert_eq!(ok("https://github.com/acct/demo"), ("acct".to_string(), "demo".to_string()));
    assert_eq!(ok("https://github.com/acct/demo/"), ("acct".to_string(), "demo".to_string()));
    assert_eq!(ok("https://github.com/acct/demo///"), ("acct".to_string(), "demo".to_string()));
    assert_eq!(ok("http://host/a/b/c"), ("b".to_string(), "c".to_string()));
    assert_eq!(ok("acct/demo"), ("acct".to_string(), "demo".to_string()));
    assert_eq!(ok("github.com/acct/demo"), ("acct".to_string(), "demo".to_string()));
    assert_eq!(ok("https://host//acct//demo"), ("acct".to_string(), "demo".to_string()));
}

#[test]
fn parse_repo_url_refuses_fewer_than_two_segments() {
    for url in ["https://host/onlyrepo", "https://host", "https://host/", "onlyrepo", "", "/", "https://", "https:///x"] {
        match parse_repo_url(url) {
            Err(e) => {
                assert!(matches!(e, JobError::InvalidRepoUrl));
                assert_eq!(e.kind(), ErrorKind::ConfigurationError);
            }
            Ok(_) => panic!("{} has no owner and name", url),
        }
    }
}

#[test]
fn a_url_without_second_segment_fails_at_once_without_events() {
    let (job, events, last) = run(job("https://host/onlyrepo", AgentMode::Auto), vec![Outcome::Begin]);
    assert!(events.is_empty());
    assert!(matches!(last, Command::Finish));
    match job.result() {
        Some(Err(e)) => {
            assert!(matches!(e, JobError::InvalidRepoUrl));
            assert_eq!(e.kind(), ErrorKind::ConfigurationError);
        }
        _ => panic!("the job must have failed"),
    }
}

#[test]
fn the_job_walks_through_its_stages() {
    let mut job = job("https://github.com/acct/demo", AgentMode::Interactive);
    assert!(job.result().is_none());

    let (next, step) = run_uplink_job(job, Outcome::Begin);
    job = next;
    assert_eq!(step.events.len(), 1);
    assert_eq!(step.events[0].id, "job-1");
    assert_eq!(step.events[0].status, JobStatus::Booting);
    assert_eq!(step.events[0].logs, vec!["Verifying repository access...".to_string()]);
    match step.command {
        Command::Http(r) => {
            assert_eq!(r.method, HttpMethod::Get);
            assert_eq!(r.url, "https://api.github.com/repos/acct/demo");
            assert_eq!(r.bearer_token, "gh");
        }
        _ => panic!("access is checked first"),
    }

    let (next, step) = run_uplink_job(job, reply(200, "{}"));
    job = next;
    assert_eq!(step.events.len(), 1);
    assert_eq!(step.events[0].status, JobStatus::UploadingContext);
    assert_eq!(step.events[0].logs, vec!["Syncing AGENTS.md...".to_string()]);
    match step.command {
        Command::Http(r) => {
            assert_eq!(r.method, HttpMethod::Get);
            assert_eq!(r.url, "https://api.github.com/repos/acct/demo/contents/AGENTS.md");
        }
        _ => panic!("the file is read before it is written"),
    }

    let (next, step) = run_uplink_job(job, reply(200, "{\"sha\":\"abc\"}"));
    job = next;
    assert!(step.events.is_empty());
    match step.command {
        Command::Http(r) => {
            assert_eq!(r.method, HttpMethod::Put);
            assert_eq!(r.url, "https://api.github.com/repos/acct/demo/contents/AGENTS.md");
            assert_eq!(
                r.body.as_deref(),
                Some("{\"content\":\"QnVpbGQgaXQ=\",\"message\":\"Update AGENTS.md via Command Center\",\"sha\":\"abc\"}")
            );
        }
        _ => panic!("the file is written"),
    }

    let (next, step) = run_uplink_job(job, reply(200, "{}"));
    job = next;
    assert_eq!(step.events.len(), 1);
    assert_eq!(step.events[0].status, JobStatus::Planning);
    assert_eq!(step.events[0].logs, vec!["Starting AI Session...".to_string()]);
    match step.command {
        Command::Http(r) => {
            assert_eq!(r.method, HttpMethod::Post);
            assert_eq!(r.url, "https://jules.googleapis.com/v1/sessions");
            assert_eq!(r.bearer_token, "goog");
            assert_eq!(
                r.body.as_deref(),
                Some("{\"prompt\":\"Read AGENTS.md and execute instructions.\",\"requirePlanApproval\":true,\"source\":\"github.com/acct/demo\"}")
            );
        }
        _ => panic!("the session is started"),
    }
    assert_eq!(job.session_id(), Some(""));

    let (next, step) = run_uplink_job(job, reply(200, "{\"name\":\"sessions/9\"}"));
    job = next;
    assert!(step.events.is_empty());
    assert!(matches!(step.command, Command::Sleep(POLL_INTERVAL_SECS)));
    assert_eq!(POLL_INTERVAL_SECS, 5);
    assert_eq!(job.session_id(), Some("sessions/9"));

    let (next, step) = run_uplink_job(job, Outcome::Woke);
    job = next;
    assert!(step.events.is_empty());
    match step.command {
        Command::Http(r) => {
            assert_eq!(r.method, HttpMethod::Get);
            assert_eq!(r.url, "https://jules.googleapis.com/v1/sessions/9");
        }
        _ => panic!("the session is polled"),
    }

    let (next, step) = run_uplink_job(job, reply(200, "{\"state\":\"SUCCEEDED\"}"));
    job = next;
    assert_eq!(step.events.len(), 1);
    assert_eq!(step.events[0].status, JobStatus::Merged);
    assert!(step.events[0].logs.is_empty());
    assert!(matches!(step.command, Command::Finish));
    assert!(matches!(job.result(), Some(Ok(()))));
}

#[test]
fn a_new_file_is_written_without_revision() {
    let (_, _, last) = run(
        job("https://github.com/acct/demo", AgentMode::Auto),
        vec![Outcome::Begin, reply(200, "{}"), reply(404, "{}")],
    );
    match last {
        Command::Http(r) => assert_eq!(
            r.body.as_deref(),
            Some("{\"content\":\"QnVpbGQgaXQ=\",\"message\":\"Update AGENTS.md via Command Center\"}")
        ),
        _ => panic!("the file is written"),
    }
}

#[test]
fn a_repository_out_of_reach_denies_access() {
    let (job, events, last) = run(
        job("https://github.com/acct/demo", AgentMode::Auto),
        vec![Outcome::Begin, reply(404, "{}")],
    );
    assert!(matches!(last, Command::Finish));
    assert_eq!(events.len(), 2);
    assert_eq!(events[1].status, JobStatus::Booting);
    assert_eq!(
        events[1].logs,
        vec!["No write access to repo".to_string(), "Job Failed.".to_string()]
    );
    match job.result() {
        Some(Err(e)) => {
            assert!(matches!(e, JobError::AccessDenied));
            assert_eq!(e.kind(), ErrorKind::AuthenticationError);
        }
        _ => panic!("the job must have failed"),
    }
}

#[test]
fn a_stale_revision_ends_the_job_with_its_conflict() {
    let (job, events, last) = run(
        job("https://github.com/acct/demo", AgentMode::Auto),
        vec![Outcome::Begin, reply(200, "{}"), reply(200, "{\"sha\":\"old\"}"), reply(409, "{}")],
    );
    assert!(matches!(last, Command::Finish));
    assert_eq!(events.len(), 3);
    assert_eq!(events[2].status, JobStatus::UploadingContext);
    assert_eq!(
        events[2].logs,
        vec!["Failed to update file: 409".to_string(), "Job Failed.".to_string()]
    );
    match job.result() {
        Some(Err(JobError::Api(ApiError::RemoteApiError { operation, status_code }))) => {
            assert_eq!(operation, ApiOperation::WriteFile);
            assert_eq!(status_code, 409);
        }
        _ => panic!("the conflict must be the error of the job"),
    }
}

#[test]
fn a_failure_at_any_stage_is_the_last_thing_told() {
    let script = until_session();
    for failing_at in 1..script.len() {
        let mut outcomes: Vec<Outcome> = until_session().into_iter().take(failing_at).collect();
        outcomes.push(lost());
        let (job, events, last) = run(job("https://github.com/acct/demo", AgentMode::Auto), outcomes);
        assert!(matches!(last, Command::Finish));
        let told = events.len();
        let failure = events.last().unwrap();
        let line = if failing_at == 4 { "Failed to start AI session: offline" } else { "offline" };
        assert_eq!(failure.logs, vec![line.to_string(), "Job Failed.".to_string()]);
        assert!(failure.pr_details.is_none());
        assert!(failure.plan.is_none());
        let error = job.result().unwrap().unwrap_err();
        assert_eq!(error.kind(), ErrorKind::ConnectivityError);
        match (failing_at, &error) {
            (1, JobError::Api(ApiError::Transport { operation, .. })) => {
                assert_eq!(*operation, ApiOperation::CheckRepoAccess);
                assert_eq!(failure.status, JobStatus::Booting);
            }
            (2, JobError::Api(ApiError::Transport { operation, .. })) => {
                assert_eq!(*operation, ApiOperation::ReadFile);
                assert_eq!(failure.status, JobStatus::UploadingContext);
            }
            (3, JobError::Api(ApiError::Transport { operation, .. })) => {
                assert_eq!(*operation, ApiOperation::WriteFile);
                assert_eq!(failure.status, JobStatus::UploadingContext);
            }
            (4, JobError::SessionStartError(ApiError::Transport { operation, .. })) => {
                assert_eq!(*operation, ApiOperation::StartSession);
                assert_eq!(failure.status, JobStatus::Planning);
            }
            _ => panic!("the error does not match the stage that failed"),
        }
        let (job, more, last) = run(
            job,
            vec![Outcome::Begin, reply(200, "{}"), Outcome::Woke, lost(), reply(200, "{\"state\":\"SUCCEEDED\"}")],
        );
        assert!(more.is_empty());
        assert!(matches!(last, Command::Finish));
        assert!(job.result().unwrap().is_err());
        assert!(told >= 2);
    }
}

#[test]
fn the_watch_polls_until_a_final_status() {
    let (mut job, _, _) = run(job("https://github.com/acct/demo", AgentMode::Auto), until_session());
    let bodies = [
        ("{\"state\":\"QUEUED\"}", JobStatus::Planning, "Jules is thinking..."),
        ("{\"state\":\"RUNNING\"}", JobStatus::Working, "Jules is working on code..."),
        ("{\"state\":\"WAITING_FOR_USER\",\"inputs\":{\"plan_summary\":\"P\"}}", JobStatus::WaitingApproval, "Plan ready for review."),
        ("{\"state\":\"RUNNING\"}", JobStatus::Working, "Jules is working on code..."),
        ("{\"state\":\"RUNNING\"}", JobStatus::Working, "Jules is working on code..."),
    ];
    let mut told = 0;
    for round in 0..40 {
        let (body, status, line) = bodies[round % bodies.len()];
        let (next, events, last) = run(job, vec![Outcome::Woke, reply(200, body)]);
        job = next;
        assert_eq!(events.len(), 1);
        assert_eq!(events[0].status, status);
        assert_eq!(events[0].logs, vec![line.to_string()]);
        assert_eq!(events[0].plan.is_some(), status == JobStatus::WaitingApproval);
        assert!(matches!(last, Command::Sleep(5)));
        assert!(job.result().is_none());
        told += events.len();
    }
    assert_eq!(told, 40);
    let body = "{\"state\":\"SUCCEEDED\",\"outputs\":[{\"pullRequest\":{\"url\":\"https://example/pr/7\",\"title\":\"T\"}}]}";
    let (job, events, last) = run(job, vec![Outcome::Woke, reply(200, body)]);
    assert_eq!(events.len(), 1);
    assert_eq!(events[0].status, JobStatus::PrReady);
    assert_eq!(events[0].logs, vec!["Pull Request created.".to_string()]);
    assert!(matches!(last, Command::Finish));
    assert!(matches!(job.result(), Some(Ok(()))));
}

#[test]
fn a_failed_poll_is_passed_over() {
    let (job, _, _) = run(job("https://github.com/acct/demo", AgentMode::Auto), until_session());
    let (job, events, last) = run(job, vec![Outcome::Woke, lost()]);
    assert!(events.is_empty());
    assert!(matches!(last, Command::Sleep(5)));
    assert!(job.result().is_none());
    let (job, events, last) = run(job, vec![Outcome::Woke, reply(200, "garbage")]);
    assert!(events.is_empty());
    assert!(matches!(last, Command::Sleep(5)));
    assert!(job.result().is_none());
    let (job, events, _) = run(job, vec![Outcome::Woke, reply(200, "{\"state\":\"RUNNING\"}")]);
    assert_eq!(events.len(), 1);
    assert!(job.result().is_none());
}

#[test]
fn outcomes_that_answer_nothing_change_nothing() {
    let (job, events, last) = run(
        job("https://github.com/acct/demo", AgentMode::Auto),
        vec![Outcome::Woke, reply(200, "{}")],
    );
    assert!(events.is_empty());
    assert!(matches!(last, Command::Pending));
    let (job, events, last) = run(job, vec![Outcome::Begin, Outcome::Begin, Outcome::Woke]);
    assert_eq!(events.len(), 1);
    assert!(matches!(last, Command::Pending));
    assert!(job.result().is_none());
}

#[test]
fn auto_mode_asks_for_no_approval() {
    let (_, _, last) = run(
        job("https://github.com/acct/demo", AgentMode::Auto),
        vec![Outcome::Begin, reply(200, "{}"), reply(404, ""), reply(201, "{}")],
    );
    match last {
        Command::Http(r) => assert!(r.body.unwrap().contains("\"requirePlanApproval\":false")),
        _ => panic!("the session is started"),
    }
}

#[test]
fn a_job_tells_when_a_poll_is_under_way() {
    let (job, _, _) = run(job("https://github.com/acct/demo", AgentMode::Auto), until_session());
    assert!(!job.awaits_poll());
    let (job, _, _) = run(job, vec![Outcome::Woke]);
    assert!(job.awaits_poll());
    let (job, events, _) = run(job, vec![reply(200, "{\"state\":\"RUNNING\"}")]);
    assert_eq!(events.len(), 1);
    assert!(!job.awaits_poll());
    let fresh = self::job("https://github.com/acct/demo", AgentMode::Auto);
    assert!(!fresh.awaits_poll());
}

#[test]
fn parsed_owner_and_name_hold_no_slash() {
    for url in ["https://github.com/acct/demo", "a/b/", "//x//y//", "http://h/o/n"] {
        let (owner, name) = parse_repo_url(url).unwrap();
        assert!(!owner.is_empty() && !name.is_empty());
        assert!(!owner.contains('/') && !name.contains('/'));
    }
}
