use command_center::engine::{Command, Outcome, Step};
use command_center::error::{ErrorKind, JobError, SshError, SshFailure};
use command_center::http::HttpOutcome;
use command_center::remote_engine::{run_remote_job, RemoteJob};
use command_center::ssh_utils::generate_ephemeral_keypair;
use command_center::types::{AgentMode, JobStatus, JobUpdateEvent};

fn job(private_key: &str, context: &str) -> RemoteJob {
    RemoteJob::new(
        "job-3".to_string(),
        "github.com/acct/demo".to_string(),
        "box.example".to_string(),
        2222,
        "dev".to_string(),
        private_key.to_string(),
        context.to_string(),
        AgentMode::Interactive,
        "goog".to_string(),
    )
}

fn reply(status: u16, body: &str) -> Outcome {
    Outcome::Http(HttpOutcome::Reply { status, body: Some(body.to_string()) })
}

fn ran() -> Outcome {
    Outcome::Remote(Ok((0, "Connection Established\n".to_string())))
}

fn broke(failure: SshFailure) -> Outcome {
    Outcome::Remote(Err(SshError { failure, detail: "refused".to_string() }))
}

fn run(mut job: RemoteJob, outcomes: Vec<Outcome>) -> (RemoteJob, Vec<JobUpdateEvent>, Vec<Command>) {
    let mut events = Vec::new();
    let mut commands = Vec::new();
    for outcome in outcomes {
        let (next, Step { events: mut told, command }) = job.advance(outcome);
        job = next;
        events.append(&mut told);
        commands.push(command);
    }
    (job, events, commands)
}

#[test]
fn the_remote_job_walks_through_its_stages() {
    let (job, events, commands) = run(
        job("PRIVATE", "it's here"),
        vec![
            Outcome::Begin,
            Outcome::PublicKey(Ok("ssh-ed25519 PUBLIC".to_string())),
            ran(),
            ran(),
            reply(200, "{\"name\":\"sessions/5\"}"),
            Outcome::Woke,
            reply(200, "{\"state\":\"SUCCEEDED\"}"),
        ],
    );
    let told: Vec<(JobStatus, Vec<String>)> =
        events.iter().map(|e| (e.status, e.logs.clone())).collect();
    assert_eq!(
        told,
        vec![
            (JobStatus::Booting, vec!["Connecting to box.example:2222...".to_string()]),
            (JobStatus::Booting, vec!["Connection successful.".to_string()]),
            (JobStatus::UploadingContext, vec!["Uploading AGENTS.md...".to_string()]),
            (JobStatus::Planning, vec!["Starting AI Session...".to_string()]),
            (JobStatus::Merged, vec![]),
        ]
    );
    assert!(matches!(commands[0], Command::DerivePublicKey));
    match &commands[1] {
        Command::Remote(call) => {
            assert_eq!(call.host, "box.example");
            assert_eq!(call.port, 2222);
            assert_eq!(call.username, "dev");
            assert_eq!(call.private_key, "PRIVATE");
            assert_eq!(call.public_key, "ssh-ed25519 PUBLIC");
            assert_eq!(call.command, "echo 'Connection Established'");
        }
        _ => panic!("the host is probed"),
    }
    match &commands[2] {
        Command::Remote(call) => {
            assert_eq!(call.host, "box.example");
            assert_eq!(call.public_key, "ssh-ed25519 PUBLIC");
            assert_eq!(call.command, "echo 'it'\\''s here' > AGENTS.md");
        }
        _ => panic!("the context is written"),
    }
    match &commands[3] {
        Command::Http(r) => {
            assert_eq!(r.url, "https://jules.googleapis.com/v1/sessions");
            assert_eq!(
                r.body.as_deref(),
                Some("{\"prompt\":\"Connect to the provided environment and execute the plan based on AGENTS.md\",\"requirePlanApproval\":true,\"source\":\"github.com/acct/demo\"}")
            );
        }
        _ => panic!("the session is started"),
    }
    assert!(matches!(commands[4], Command::Sleep(5)));
    assert!(matches!(commands[5], Command::Http(_)));
    assert!(matches!(commands[6], Command::Finish));
    assert!(matches!(job.result(), Some(Ok(()))));
}

#[test]
fn an_invalid_private_key_fails_before_anything_is_sent() {
    let mut job = job("this is no key", "ctx");
    let mut events = Vec::new();
    let mut commands = Vec::new();
    for outcome in [Outcome::Begin, Outcome::Woke, Outcome::Begin] {
        let (next, Step { events: mut told, command }) = run_remote_job(job, outcome);
        job = next;
        events.append(&mut told);
        commands.push(command);
    }
    for command in &commands {
        assert!(matches!(command, Command::Finish));
    }
    let error = job.result().unwrap().unwrap_err();
    assert!(matches!(error, JobError::KeyDerivationError(_)));
    assert_eq!(error.kind(), ErrorKind::ConfigurationError);
    assert_eq!(events.len(), 2);
    assert_eq!(events[0].logs, vec!["Connecting to box.example:2222...".to_string()]);
    assert_eq!(events[1].status, JobStatus::Booting);
    assert_eq!(events[1].logs, vec![error.describe(), "Job Failed.".to_string()]);
    assert!(events[1].logs[0].starts_with("Invalid private key format: "));
}

#[test]
fn run_remote_job_derives_the_public_key_itself() {
    let pair = generate_ephemeral_keypair().unwrap();
    let (job, step) = run_remote_job(job(&pair.private_key, "ctx"), Outcome::Begin);
    assert_eq!(step.events.len(), 1);
    match step.command {
        Command::Remote(call) => {
            assert_eq!(call.public_key, pair.public_key);
            assert_eq!(call.private_key, pair.private_key);
            assert_eq!(call.command, "echo 'Connection Established'");
        }
        _ => panic!("the host is probed with the derived key"),
    }
    assert!(job.result().is_none());
    let (job, step) = run_remote_job(job, Outcome::Woke);
    assert!(step.events.is_empty());
    assert!(matches!(step.command, Command::Pending));
    assert!(job.result().is_none());
}

#[test]
fn a_failed_probe_is_a_connection_error() {
    for failure in [SshFailure::ConnectTimeout, SshFailure::HandshakeError, SshFailure::AuthError, SshFailure::ChannelError] {
        let (job, events, commands) = run(
            job("PRIVATE", "ctx"),
            vec![Outcome::Begin, Outcome::PublicKey(Ok("PUB".to_string())), broke(failure)],
        );
        assert!(matches!(commands[2], Command::Finish));
        assert_eq!(events.len(), 2);
        assert_eq!(events[1].status, JobStatus::Booting);
        assert_eq!(
            events[1].logs,
            vec!["SSH Connection Failed: refused".to_string(), "Job Failed.".to_string()]
        );
        let error = job.result().unwrap().unwrap_err();
        assert!(matches!(error, JobError::ConnectionError(_)));
        let expected = if failure == SshFailure::AuthError {
            ErrorKind::AuthenticationError
        } else {
            ErrorKind::ConnectivityError
        };
        assert_eq!(error.kind(), expected);
        for event in &events {
            assert!(event.status == JobStatus::Booting);
        }
        let (job, more, later) = run(job, vec![ran(), reply(200, "{}"), Outcome::Woke]);
        assert!(more.is_empty());
        for command in &later {
            assert!(matches!(command, Command::Finish));
        }
        assert!(job.result().unwrap().is_err());
    }
}

#[test]
fn a_failed_upload_ends_the_job() {
    let (job, events, commands) = run(
        job("PRIVATE", "ctx"),
        vec![
            Outcome::Begin,
            Outcome::PublicKey(Ok("PUB".to_string())),
            ran(),
            broke(SshFailure::ChannelError),
        ],
    );
    assert!(matches!(commands[3], Command::Finish));
    let last = events.last().unwrap();
    assert_eq!(last.status, JobStatus::UploadingContext);
    assert_eq!(
        last.logs,
        vec!["Failed to upload context: refused".to_string(), "Job Failed.".to_string()]
    );
    let error = job.result().unwrap().unwrap_err();
    assert!(matches!(error, JobError::ContextUploadError(_)));
    assert_eq!(error.kind(), ErrorKind::ExecutionError);
    let (job, more, commands) = run(job, vec![ran(), reply(200, "{}"), Outcome::Woke]);
    assert!(more.is_empty());
    for command in &commands {
        assert!(matches!(command, Command::Finish));
    }
    assert!(job.result().unwrap().is_err());
}

#[test]
fn a_session_that_cannot_start_ends_the_job() {
    let (job, events, _) = run(
        job("PRIVATE", "ctx"),
        vec![
            Outcome::Begin,
            Outcome::PublicKey(Ok("PUB".to_string())),
            ran(),
            ran(),
            reply(403, "{}"),
        ],
    );
    let last = events.last().unwrap();
    assert_eq!(last.status, JobStatus::Planning);
    assert_eq!(
        last.logs,
        vec!["Failed to start AI session: Jules API Error: 403".to_string(), "Job Failed.".to_string()]
    );
    let error = job.result().unwrap().unwrap_err();
    assert!(matches!(error, JobError::SessionStartError(_)));
    assert_eq!(error.kind(), ErrorKind::RemoteApiError);
}

#[test]
fn a_command_that_exits_with_an_error_code_fails_its_stage() {
    let (job, events, commands) = run(
        job("PRIVATE", "ctx"),
        vec![
            Outcome::Begin,
            Outcome::PublicKey(Ok("PUB".to_string())),
            Outcome::Remote(Ok((1, "warning".to_string()))),
        ],
    );
    assert!(matches!(commands[2], Command::Finish));
    let last = events.last().unwrap();
    assert_eq!(last.status, JobStatus::Booting);
    assert_eq!(
        last.logs,
        vec!["Remote command exited with status 1".to_string(), "Job Failed.".to_string()]
    );
    match job.result() {
        Some(Err(JobError::CommandFailed { exit_code, output })) => {
            assert_eq!(exit_code, 1);
            assert_eq!(output, "warning");
        }
        _ => panic!("the exit code must be the error of the job"),
    }

    let (job, events, commands) = run(
        self::job("PRIVATE", "ctx"),
        vec![
            Outcome::Begin,
            Outcome::PublicKey(Ok("PUB".to_string())),
            ran(),
            Outcome::Remote(Ok((127, String::new()))),
        ],
    );
    assert!(matches!(commands[3], Command::Finish));
    assert_eq!(events.last().unwrap().status, JobStatus::UploadingContext);
    let error = job.result().unwrap().unwrap_err();
    assert!(matches!(error, JobError::CommandFailed { exit_code: 127, .. }));
    assert_eq!(error.kind(), ErrorKind::ExecutionError);
}
