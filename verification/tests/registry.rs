use command_center::auth::{
    check_auth_status, get_github_token, get_google_token, github_token_key, google_token_key,
    StoredSecret,
};
use command_center::commands::{
    approve_agent_plan, fresh_job_id, merge_pull_request, refine_agent_plan,
    session_control_result, start_remote_job, start_scaffold_job, start_uplink_job,
    submit_remote_job, submit_scaffold_job, submit_uplink_job, ControlError, SubmitError,
    MAX_ID_DRAWS,
};
use command_center::engine::{Command, Outcome};
use command_center::error::{ApiError, ApiOperation, ErrorKind, JobError};
use command_center::github::GithubClient;
use command_center::http::HttpMethod;
use command_center::jules::JulesClient;
use command_center::registry::JobRegistry;
use command_center::types::{AgentMode, JobState, JobStatus, JobUpdateEvent, PrDetails};
use command_center::uplink_engine::run_uplink_job;

fn state(id: &str, repo: &str, status: JobStatus) -> JobState {
    JobState::new(id.to_string(), repo.to_string(), status)
}

#[test]
fn a_new_registry_holds_nothing() {
    let registry = JobRegistry::new();
    assert!(registry.get("a").is_none());
    assert!(!registry.contains("a"));
    assert!(!registry.contains(""));
}

#[test]
fn inserted_records_are_found_by_id() {
    let mut registry = JobRegistry::new();
    registry.insert(state("a", "acct/one", JobStatus::Booting));
    registry.insert(state("b", "acct/two", JobStatus::UploadingContext));
    let a = registry.get("a").unwrap();
    assert_eq!(a.id, "a");
    assert_eq!(a.github_repo, "acct/one");
    assert_eq!(a.status, JobStatus::Booting);
    assert!(a.jules_session_id.is_none());
    assert!(a.last_poll.is_none());
    let b = registry.get("b").unwrap();
    assert_eq!(b.github_repo, "acct/two");
    assert_eq!(b.status, JobStatus::UploadingContext);
    assert!(registry.get("c").is_none());
    assert!(registry.contains("a") && registry.contains("b"));
}

#[test]
fn one_record_per_id() {
    let mut registry = JobRegistry::new();
    registry.insert(state("a", "acct/one", JobStatus::Booting));
    registry.insert(state("b", "acct/two", JobStatus::Booting));
    registry.insert(state("a", "acct/three", JobStatus::Working));
    let a = registry.get("a").unwrap();
    assert_eq!(a.github_repo, "acct/three");
    assert_eq!(a.status, JobStatus::Working);
    assert_eq!(registry.get("b").unwrap().github_repo, "acct/two");
}

#[test]
fn status_is_overwritten_whatever_it_was() {
    let mut registry = JobRegistry::new();
    registry.insert(state("a", "acct/one", JobStatus::Working));
    assert!(registry.set_status("a", JobStatus::Planning));
    assert_eq!(registry.get("a").unwrap().status, JobStatus::Planning);
    assert!(registry.set_status("a", JobStatus::Planning));
    assert_eq!(registry.get("a").unwrap().status, JobStatus::Planning);
    assert!(registry.set_status("a", JobStatus::Merged));
    assert_eq!(registry.get("a").unwrap().status, JobStatus::Merged);
    assert_eq!(registry.get("a").unwrap().github_repo, "acct/one");
    assert!(!registry.set_status("zz", JobStatus::Merged));
    assert!(registry.get("zz").is_none());
}

#[test]
fn session_and_polls_are_recorded() {
    let mut registry = JobRegistry::new();
    registry.insert(state("a", "acct/one", JobStatus::Booting));
    registry.insert(state("b", "acct/two", JobStatus::Booting));
    assert!(registry.set_session("a", "sessions/1"));
    assert!(!registry.set_session("nobody", "sessions/2"));
    assert_eq!(registry.get("a").unwrap().jules_session_id.as_deref(), Some("sessions/1"));
    assert!(registry.get("b").unwrap().jules_session_id.is_none());
    let event = JobUpdateEvent {
        id: "a".to_string(),
        status: JobStatus::PrReady,
        logs: vec!["Pull Request created.".to_string()],
        pr_details: Some(PrDetails { number: 7, url: "u".to_string(), title: "t".to_string() }),
        plan: None,
    };
    assert!(registry.record(&event, 1_700_000_000));
    let a = registry.get("a").unwrap();
    assert_eq!(a.status, JobStatus::PrReady);
    assert_eq!(a.last_poll, Some(1_700_000_000));
    assert_eq!(a.jules_session_id.as_deref(), Some("sessions/1"));
    assert_eq!(registry.get("b").unwrap().status, JobStatus::Booting);
    assert!(registry.get("b").unwrap().last_poll.is_none());
    let stray = JobUpdateEvent::stage("ghost", JobStatus::Working, "x");
    assert!(!registry.record(&stray, 5));
    assert!(registry.get("ghost").is_none());
}

#[test]
fn events_are_built_with_their_lines() {
    let stage = JobUpdateEvent::stage("a", JobStatus::Generating, "Running");
    assert_eq!(stage.id, "a");
    assert_eq!(stage.status, JobStatus::Generating);
    assert_eq!(stage.logs, vec!["Running".to_string()]);
    assert!(stage.pr_details.is_none() && stage.plan.is_none());
    let failure = JobUpdateEvent::failure("a", JobStatus::Booting, "it broke");
    assert_eq!(failure.status, JobStatus::Booting);
    assert_eq!(failure.logs, vec!["it broke".to_string(), "Job Failed.".to_string()]);
}

#[test]
fn statuses_are_ordered_and_two_are_final() {
    let all = [
        JobStatus::Booting,
        JobStatus::Generating,
        JobStatus::UploadingContext,
        JobStatus::Planning,
        JobStatus::WaitingApproval,
        JobStatus::Working,
        JobStatus::PrReady,
        JobStatus::Merged,
    ];
    for (i, status) in all.iter().enumerate() {
        assert_eq!(status.rank() as usize, i);
        assert_eq!(status.is_terminal(), i >= 6);
    }
    assert!(AgentMode::Interactive.requires_approval());
    assert!(!AgentMode::Auto.requires_approval());
}

#[test]
fn copies_keep_the_content() {
    let mut s = state("a", "acct/one", JobStatus::Working);
    s.jules_session_id = Some("sessions/1".to_string());
    s.last_poll = Some(9);
    let copy = s.duplicate();
    assert_eq!(copy.id, "a");
    assert_eq!(copy.github_repo, "acct/one");
    assert_eq!(copy.jules_session_id.as_deref(), Some("sessions/1"));
    assert_eq!(copy.status, JobStatus::Working);
    assert_eq!(copy.last_poll, Some(9));
    let pr = PrDetails { number: 7, url: "u".to_string(), title: "t".to_string() }.duplicate();
    assert_eq!((pr.number, pr.url.as_str(), pr.title.as_str()), (7, "u", "t"));
}

#[test]
fn a_scaffold_job_is_accepted_with_both_credentials() {
    let mut registry = JobRegistry::new();
    let job = submit_scaffold_job(
        &mut registry,
        "job-1".to_string(),
        "demo".to_string(),
        "nextjs-app".to_string(),
        String::new(),
        AgentMode::Auto,
        Some("gh".to_string()),
        Some("goog".to_string()),
        "env.example".to_string(),
    )
    .unwrap();
    assert!(job.result().is_none());
    let record = registry.get("job-1").unwrap();
    assert_eq!(record.id, "job-1");
    assert_eq!(record.github_repo, "user/demo");
    assert_eq!(record.status, JobStatus::Booting);
    assert!(record.jules_session_id.is_none());
    assert!(record.last_poll.is_none());
    let (_, step) = job.advance(Outcome::Begin);
    match step.command {
        Command::Http(r) => assert_eq!(r.bearer_token, "gh"),
        _ => panic!("the job begins with a request"),
    }
}

#[test]
fn a_missing_credential_refuses_the_job() {
    let mut registry = JobRegistry::new();
    let refused = submit_scaffold_job(
        &mut registry,
        "job-1".to_string(),
        "demo".to_string(),
        "nextjs-app".to_string(),
        String::new(),
        AgentMode::Auto,
        None,
        None,
        "env.example".to_string(),
    );
    assert!(matches!(refused, Err(SubmitError::GithubNotAuthenticated)));
    let refused = submit_uplink_job(
        &mut registry,
        "job-2".to_string(),
        "https://github.com/a/b".to_string(),
        String::new(),
        AgentMode::Auto,
        Some("gh".to_string()),
        None,
    );
    assert!(matches!(refused, Err(SubmitError::GoogleNotAuthenticated)));
    let refused = submit_remote_job(
        &mut registry,
        "job-3".to_string(),
        "github.com/a/b".to_string(),
        "host".to_string(),
        22,
        "u".to_string(),
        "k".to_string(),
        String::new(),
        AgentMode::Auto,
        None,
    );
    assert!(matches!(refused, Err(SubmitError::GoogleNotAuthenticated)));
    assert!(!registry.contains("job-1"));
    assert!(!registry.contains("job-2"));
    assert!(!registry.contains("job-3"));
    assert_eq!(SubmitError::GithubNotAuthenticated.describe(), "GitHub not authenticated");
    assert_eq!(SubmitError::GoogleNotAuthenticated.describe(), "Google not authenticated");
    assert_eq!(SubmitError::GithubNotAuthenticated.kind(), ErrorKind::AuthenticationError);
    assert_eq!(SubmitError::GoogleNotAuthenticated.kind(), ErrorKind::AuthenticationError);
}

#[test]
fn started_jobs_get_fresh_ids() {
    let mut registry = JobRegistry::new();
    let (first, _) = start_scaffold_job(
        &mut registry,
        "demo".to_string(),
        "nextjs-app".to_string(),
        String::new(),
        AgentMode::Auto,
        Some("gh".to_string()),
        Some("goog".to_string()),
        "env.example".to_string(),
    )
    .unwrap();
    let (second, job) = start_uplink_job(
        &mut registry,
        "https://github.com/acct/demo".to_string(),
        "ctx".to_string(),
        AgentMode::Interactive,
        Some("gh".to_string()),
        Some("goog".to_string()),
    )
    .unwrap();
    assert_ne!(first, second);
    assert!(!first.is_empty() && !second.is_empty());
    assert_eq!(registry.get(&first).unwrap().github_repo, "user/demo");
    assert_eq!(registry.get(&first).unwrap().status, JobStatus::Booting);
    assert_eq!(registry.get(&second).unwrap().github_repo, "https://github.com/acct/demo");
    assert_eq!(registry.get(&second).unwrap().status, JobStatus::Booting);
    let (_, step) = run_uplink_job(job, Outcome::Begin);
    assert_eq!(step.events[0].id, second);
    let refused = start_uplink_job(
        &mut registry,
        "https://github.com/acct/demo".to_string(),
        "ctx".to_string(),
        AgentMode::Auto,
        None,
        Some("goog".to_string()),
    );
    assert!(matches!(refused, Err(SubmitError::GithubNotAuthenticated)));
}

#[test]
fn a_remote_job_is_accepted_with_the_agent_credential() {
    let mut registry = JobRegistry::new();
    let job = submit_remote_job(
        &mut registry,
        "job-3".to_string(),
        "github.com/a/b".to_string(),
        "host".to_string(),
        22,
        "u".to_string(),
        "k".to_string(),
        String::new(),
        AgentMode::Auto,
        Some("goog".to_string()),
    )
    .unwrap();
    assert!(job.result().is_none());
    let record = registry.get("job-3").unwrap();
    assert_eq!(record.github_repo, "github.com/a/b");
    assert_eq!(record.status, JobStatus::Booting);
}

#[test]
fn plans_are_steered_through_the_session_of_the_job() {
    let mut registry = JobRegistry::new();
    let jules = JulesClient::new("goog".to_string());
    registry.insert(state("a", "acct/one", JobStatus::WaitingApproval));
    assert!(matches!(approve_agent_plan(&registry, &jules, "zz"), Err(ControlError::UnknownJob)));
    assert!(matches!(approve_agent_plan(&registry, &jules, "a"), Err(ControlError::NoSession)));
    assert!(matches!(refine_agent_plan(&registry, &jules, "a", "x"), Err(ControlError::NoSession)));
    registry.set_session("a", "sessions/4");
    let approve = approve_agent_plan(&registry, &jules, "a").unwrap();
    assert_eq!(approve.method, HttpMethod::Post);
    assert_eq!(approve.url, "https://jules.googleapis.com/v1/sessions/4:approvePlan");
    assert_eq!(approve.bearer_token, "goog");
    let refine = refine_agent_plan(&registry, &jules, "a", "smaller steps").unwrap();
    assert_eq!(refine.url, "https://jules.googleapis.com/v1/sessions/4:sendMessage");
    assert_eq!(refine.body.as_deref(), Some("{\"prompt\":\"smaller steps\"}"));
    assert!(matches!(refine_agent_plan(&registry, &jules, "b", "x"), Err(ControlError::UnknownJob)));
}

#[test]
fn pull_requests_are_merged_in_the_repository_of_the_job() {
    let mut registry = JobRegistry::new();
    let gh = GithubClient::new("gh".to_string());
    registry.insert(state("a", "acct/one", JobStatus::PrReady));
    registry.insert(state("b", "norepo", JobStatus::PrReady));
    let merge = merge_pull_request(&registry, &gh, "a", 7).unwrap();
    assert_eq!(merge.method, HttpMethod::Put);
    assert_eq!(merge.url, "https://api.github.com/repos/acct/one/pulls/7/merge");
    assert!(matches!(merge_pull_request(&registry, &gh, "b", 7), Err(ControlError::NoRepository)));
    assert!(matches!(merge_pull_request(&registry, &gh, "c", 7), Err(ControlError::UnknownJob)));
}

#[test]
fn a_refused_instruction_is_a_session_control_error() {
    assert!(session_control_result(Ok(())).is_ok());
    let refused = ApiError::RemoteApiError { operation: ApiOperation::ResumeSession, status_code: 410 };
    match session_control_result(Err(refused)) {
        Err(e) => {
            assert!(matches!(e, JobError::SessionControlError(_)));
            assert_eq!(e.kind(), ErrorKind::RemoteApiError);
        }
        Ok(_) => panic!("a refusal must be an error"),
    }
}

#[test]
fn credentials_are_read_from_what_the_store_answered() {
    assert_eq!(github_token_key(), "github_access_token");
    assert_eq!(google_token_key(), "google_refresh_token");
    assert_eq!(get_github_token(StoredSecret::Text("t".to_string())).as_deref(), Some("t"));
    assert_eq!(get_github_token(StoredSecret::Absent), None);
    assert_eq!(get_github_token(StoredSecret::NotText), None);
    assert_eq!(get_github_token(StoredSecret::StoreUnavailable), None);
    assert_eq!(get_google_token(StoredSecret::Text("g".to_string())).as_deref(), Some("g"));
    assert_eq!(get_google_token(StoredSecret::Absent), None);
    assert_eq!(get_google_token(StoredSecret::NotText), None);
    assert_eq!(get_google_token(StoredSecret::StoreUnavailable), None);
}

#[test]
fn auth_status_tells_which_credentials_are_at_hand() {
    let text = || StoredSecret::Text("t".to_string());
    let both = check_auth_status(&text(), &text());
    assert!(both.github_authenticated && both.google_authenticated);
    let one = check_auth_status(&text(), &StoredSecret::Absent);
    assert!(one.github_authenticated && !one.google_authenticated);
    let other = check_auth_status(&StoredSecret::NotText, &text());
    assert!(!other.github_authenticated && other.google_authenticated);
    let none = check_auth_status(&StoredSecret::StoreUnavailable, &StoredSecret::Absent);
    assert!(!none.github_authenticated && !none.google_authenticated);
}

#[test]
fn a_taken_id_refuses_the_job_and_keeps_the_record() {
    let mut registry = JobRegistry::new();
    registry.insert(state("job-1", "acct/first", JobStatus::Working));
    let refused = submit_scaffold_job(
        &mut registry,
        "job-1".to_string(),
        "demo".to_string(),
        "nextjs-app".to_string(),
        String::new(),
        AgentMode::Auto,
        Some("gh".to_string()),
        Some("goog".to_string()),
        "env.example".to_string(),
    );
    assert!(matches!(refused, Err(SubmitError::JobIdTaken)));
    let refused = submit_uplink_job(
        &mut registry,
        "job-1".to_string(),
        "https://github.com/a/b".to_string(),
        String::new(),
        AgentMode::Auto,
        Some("gh".to_string()),
        Some("goog".to_string()),
    );
    assert!(matches!(refused, Err(SubmitError::JobIdTaken)));
    let refused = submit_remote_job(
        &mut registry,
        "job-1".to_string(),
        "github.com/a/b".to_string(),
        "host".to_string(),
        22,
        "u".to_string(),
        "k".to_string(),
        String::new(),
        AgentMode::Auto,
        Some("goog".to_string()),
    );
    assert!(matches!(refused, Err(SubmitError::JobIdTaken)));
    let kept = registry.get("job-1").unwrap();
    assert_eq!(kept.github_repo, "acct/first");
    assert_eq!(kept.status, JobStatus::Working);
    let refused = submit_scaffold_job(
        &mut registry,
        "job-1".to_string(),
        "demo".to_string(),
        "nextjs-app".to_string(),
        String::new(),
        AgentMode::Auto,
        None,
        Some("goog".to_string()),
        "env.example".to_string(),
    );
    assert!(matches!(refused, Err(SubmitError::GithubNotAuthenticated)));
    assert_eq!(SubmitError::JobIdTaken.describe(), "Job id already in use");
    assert_eq!(SubmitError::JobIdTaken.kind(), ErrorKind::ConfigurationError);
}

#[test]
fn fresh_ids_are_free_in_the_registry() {
    let mut registry = JobRegistry::new();
    assert!(MAX_ID_DRAWS >= 1);
    for _ in 0..20 {
        let id = fresh_job_id(&registry);
        assert!(!registry.contains(&id));
        assert_eq!(id.len(), 36);
        registry.insert(state(&id, "acct/x", JobStatus::Booting));
        assert!(registry.contains(&id));
    }
}

#[test]
fn a_made_up_id_differs_from_every_id_in_the_registry() {
    let mut registry = JobRegistry::new();
    assert_eq!(registry.free_id(), "");
    for id in ["", "a", "aa", "ab", "ba", "b", "xyz", "aaa", "é", "aab"] {
        registry.insert(state(id, "acct/x", JobStatus::Booting));
        let free = registry.free_id();
        assert!(!registry.contains(&free));
    }
    for _ in 0..30 {
        let free = registry.free_id();
        assert!(!registry.contains(&free));
        registry.insert(state(&free, "acct/x", JobStatus::Booting));
        assert!(registry.contains(&free));
    }
}

#[test]
fn the_repository_is_recorded_once_it_is_known() {
    let mut registry = JobRegistry::new();
    registry.insert(state("a", "user/demo", JobStatus::Booting));
    registry.insert(state("b", "user/other", JobStatus::Working));
    registry.set_session("a", "sessions/1");
    assert!(registry.set_repo("a", "acct/demo"));
    assert!(!registry.set_repo("zz", "acct/none"));
    let a = registry.get("a").unwrap();
    assert_eq!(a.github_repo, "acct/demo");
    assert_eq!(a.status, JobStatus::Booting);
    assert_eq!(a.jules_session_id.as_deref(), Some("sessions/1"));
    assert_eq!(registry.get("b").unwrap().github_repo, "user/other");
    assert!(registry.get("zz").is_none());
}

#[test]
fn starting_a_job_is_refused_only_for_a_missing_credential() {
    let mut registry = JobRegistry::new();
    let mut ids = Vec::new();
    for round in 0..12 {
        let (id, job) = start_scaffold_job(
            &mut registry,
            format!("demo{}", round),
            "nextjs-app".to_string(),
            String::new(),
            AgentMode::Auto,
            Some("gh".to_string()),
            Some("goog".to_string()),
            "env.example".to_string(),
        )
        .unwrap();
        assert!(job.result().is_none());
        assert!(!ids.contains(&id));
        assert_eq!(registry.get(&id).unwrap().github_repo, format!("user/demo{}", round));
        ids.push(id);
    }
    for id in &ids {
        assert!(registry.contains(id));
    }
    let refused = start_scaffold_job(
        &mut registry,
        "demo".to_string(),
        "nextjs-app".to_string(),
        String::new(),
        AgentMode::Auto,
        Some("gh".to_string()),
        None,
        "env.example".to_string(),
    );
    assert!(matches!(refused, Err(SubmitError::GoogleNotAuthenticated)));
}

#[test]
fn a_remote_job_is_started_under_a_fresh_id() {
    let mut registry = JobRegistry::new();
    let (id, job) = start_remote_job(
        &mut registry,
        "github.com/a/b".to_string(),
        "host".to_string(),
        22,
        "u".to_string(),
        "k".to_string(),
        String::new(),
        AgentMode::Auto,
        Some("goog".to_string()),
    )
    .unwrap();
    assert!(job.result().is_none());
    assert!(!job.awaits_poll());
    let record = registry.get(&id).unwrap();
    assert_eq!(record.github_repo, "github.com/a/b");
    assert_eq!(record.status, JobStatus::Booting);
    let refused = start_remote_job(
        &mut registry,
        "github.com/a/b".to_string(),
        "host".to_string(),
        22,
        "u".to_string(),
        "k".to_string(),
        String::new(),
        AgentMode::Auto,
        None,
    );
    assert!(matches!(refused, Err(SubmitError::GoogleNotAuthenticated)));
    assert!(registry.contains(&id));
}

#[test]
fn a_pull_request_of_an_uplink_job_is_merged_in_its_repository() {
    let mut registry = JobRegistry::new();
    let gh = GithubClient::new("gh".to_string());
    submit_uplink_job(
        &mut registry,
        "up".to_string(),
        "https://github.com/acme/tool".to_string(),
        String::new(),
        AgentMode::Auto,
        Some("gh".to_string()),
        Some("goog".to_string()),
    )
    .unwrap();
    let merge = merge_pull_request(&registry, &gh, "up", 5).unwrap();
    assert_eq!(merge.url, "https://api.github.com/repos/acme/tool/pulls/5/merge");
    registry.insert(state("slash", "https://github.com/acme/tool/", JobStatus::PrReady));
    let merge = merge_pull_request(&registry, &gh, "slash", 6).unwrap();
    assert_eq!(merge.url, "https://api.github.com/repos/acme/tool/pulls/6/merge");
    registry.insert(state("short", "https://github.com/acme", JobStatus::PrReady));
    assert!(matches!(
        merge_pull_request(&registry, &gh, "short", 7),
        Err(ControlError::NoRepository)
    ));
    registry.insert(state("scaffold", "user/demo", JobStatus::PrReady));
    registry.set_repo("scaffold", "acct/demo");
    let merge = merge_pull_request(&registry, &gh, "scaffold", 8).unwrap();
    assert_eq!(merge.url, "https://api.github.com/repos/acct/demo/pulls/8/merge");
}
