//! The ways a job can fail, the kind each failure is of, and the line that
//! describes it to an observer.

use crate::text::{decimal, decimal_text, signed_decimal, signed_decimal_text};
use vstd::prelude::*;
use vstd::string::StringExecFns;

verus! {

/// The kinds that failures are sorted into.
#[derive(Clone, Copy, Debug, PartialEq, Eq, Structural)]
pub enum ErrorKind {
    /// A bad recipe id, repository URL or private key.
    ConfigurationError,
    /// A credential is missing or was rejected.
    AuthenticationError,
    /// A service or host could not be reached.
    ConnectivityError,
    /// A service answered, but not with success.
    RemoteApiError,
    /// The remote environment never became ready.
    ProvisioningTimeout,
    /// A remote command could not be run to its end, or ended with an exit
    /// code other than 0.
    ExecutionError,
}

/// The requests that are made to the two services.
#[derive(Clone, Copy, Debug, PartialEq, Eq, Structural)]
pub enum ApiOperation {
    CreateRepo,
    CreateCodespace,
    CodespaceStatus,
    DeleteCodespace,
    AddDeployKey,
    RemoveDeployKey,
    ReadFile,
    WriteFile,
    CheckRepoAccess,
    MergePullRequest,
    StartSession,
    PollSession,
    ResumeSession,
    SendFeedback,
}

impl ApiOperation {
    /// How the description of a refused request begins.
    pub open spec fn rejection_prefix(self) -> Seq<char> {
        match self {
            ApiOperation::CreateRepo => "GitHub API Error: "@,
            ApiOperation::CreateCodespace => "GitHub API Error (Create Codespace): "@,
            ApiOperation::CodespaceStatus => "Failed to read codespace: "@,
            ApiOperation::DeleteCodespace => "Failed to delete codespace: "@,
            ApiOperation::AddDeployKey => "Failed to add deploy key: "@,
            ApiOperation::RemoveDeployKey => "Failed to delete deploy key: "@,
            ApiOperation::ReadFile => "Failed to read file: "@,
            ApiOperation::WriteFile => "Failed to update file: "@,
            ApiOperation::CheckRepoAccess => "Failed to check repository: "@,
            ApiOperation::MergePullRequest => "Failed to merge PR: "@,
            ApiOperation::StartSession => "Jules API Error: "@,
            ApiOperation::PollSession => "Failed to poll session: "@,
            ApiOperation::ResumeSession => "Failed to resume session: "@,
            ApiOperation::SendFeedback => "Failed to send feedback: "@,
        }
    }

    /// How the description of a refused request begins.
    pub fn rejection_text(&self) -> (r: &'static str)
        ensures
            r@ == self.rejection_prefix(),
    {
        match self {
            ApiOperation::CreateRepo => "GitHub API Error: ",
            ApiOperation::CreateCodespace => "GitHub API Error (Create Codespace): ",
            ApiOperation::CodespaceStatus => "Failed to read codespace: ",
            ApiOperation::DeleteCodespace => "Failed to delete codespace: ",
            ApiOperation::AddDeployKey => "Failed to add deploy key: ",
            ApiOperation::RemoveDeployKey => "Failed to delete deploy key: ",
            ApiOperation::ReadFile => "Failed to read file: ",
            ApiOperation::WriteFile => "Failed to update file: ",
            ApiOperation::CheckRepoAccess => "Failed to check repository: ",
            ApiOperation::MergePullRequest => "Failed to merge PR: ",
            ApiOperation::StartSession => "Jules API Error: ",
            ApiOperation::PollSession => "Failed to poll session: ",
            ApiOperation::ResumeSession => "Failed to resume session: ",
            ApiOperation::SendFeedback => "Failed to send feedback: ",
        }
    }
}

/// A request to a service that did not succeed.
#[derive(Clone, Debug)]
pub enum ApiError {
    /// No reply came: the request could not be sent or the connection broke.
    Transport { operation: ApiOperation, detail: String },
    /// The service replied with a status outside the success range.
    RemoteApiError { operation: ApiOperation, status_code: u16 },
    /// The service replied with success, but the body is not a JSON document.
    MalformedReply { operation: ApiOperation },
}

/// Mathematical content of an [`ApiError`].
pub enum ApiErrorView {
    Transport { operation: ApiOperation, detail: Seq<char> },
    RemoteApiError { operation: ApiOperation, status_code: u16 },
    MalformedReply { operation: ApiOperation },
}

impl ApiErrorView {
    /// The request that failed.
    pub open spec fn operation(self) -> ApiOperation {
        match self {
            ApiErrorView::Transport { operation, .. } => operation,
            ApiErrorView::RemoteApiError { operation, .. } => operation,
            ApiErrorView::MalformedReply { operation } => operation,
        }
    }

    /// No reply is a connectivity failure; a reply that refuses or cannot be
    /// read is a failure of the remote service.
    pub open spec fn kind(self) -> ErrorKind {
        match self {
            ApiErrorView::Transport { .. } => ErrorKind::ConnectivityError,
            ApiErrorView::RemoteApiError { .. } => ErrorKind::RemoteApiError,
            ApiErrorView::MalformedReply { .. } => ErrorKind::RemoteApiError,
        }
    }

    /// The line that describes the failure.
    pub open spec fn description(self) -> Seq<char> {
        match self {
            ApiErrorView::Transport { detail, .. } => detail,
            ApiErrorView::RemoteApiError { operation, status_code } => operation.rejection_prefix()
                + decimal(status_code as nat),
            ApiErrorView::MalformedReply { .. } => "Malformed reply"@,
        }
    }
}

impl View for ApiError {
    type V = ApiErrorView;

    open spec fn view(&self) -> ApiErrorView {
        match self {
            ApiError::Transport { operation, detail } => ApiErrorView::Transport {
                operation: *operation,
                detail: detail@,
            },
            ApiError::RemoteApiError { operation, status_code } => ApiErrorView::RemoteApiError {
                operation: *operation,
                status_code: *status_code,
            },
            ApiError::MalformedReply { operation } => ApiErrorView::MalformedReply {
                operation: *operation,
            },
        }
    }
}

impl ApiError {
    /// The request that failed.
    pub fn operation(&self) -> (r: ApiOperation)
        ensures
            r == self@.operation(),
    {
        match self {
            ApiError::Transport { operation, .. } => *operation,
            ApiError::RemoteApiError { operation, .. } => *operation,
            ApiError::MalformedReply { operation } => *operation,
        }
    }

    /// The kind of the failure.
    pub fn kind(&self) -> (r: ErrorKind)
        ensures
            r == self@.kind(),
    {
        match self {
            ApiError::Transport { .. } => ErrorKind::ConnectivityError,
            ApiError::RemoteApiError { .. } => ErrorKind::RemoteApiError,
            ApiError::MalformedReply { .. } => ErrorKind::RemoteApiError,
        }
    }

    /// The line that describes the failure.
    pub fn describe(&self) -> (r: String)
        ensures
            r@ == self@.description(),
    {
        match self {
            ApiError::Transport { detail, .. } => detail.clone(),
            ApiError::RemoteApiError { operation, status_code } => {
                let mut s = operation.rejection_text().to_owned();
                let code = decimal_text(*status_code as u64);
                s.append(code.as_str());
                s
            },
            ApiError::MalformedReply { .. } => "Malformed reply".to_owned(),
        }
    }

    /// A copy with the same content.
    pub fn duplicate(&self) -> (r: ApiError)
        ensures
            r@ == self@,
    {
        match self {
            ApiError::Transport { operation, detail } => ApiError::Transport {
                operation: *operation,
                detail: detail.clone(),
            },
            ApiError::RemoteApiError { operation, status_code } => ApiError::RemoteApiError {
                operation: *operation,
                status_code: *status_code,
            },
            ApiError::MalformedReply { operation } => ApiError::MalformedReply {
                operation: *operation,
            },
        }
    }
}

/// The phase in which a remote execution failed.
#[derive(Clone, Copy, Debug, PartialEq, Eq, Structural)]
pub enum SshFailure {
    /// The host did not accept the connection in time.
    ConnectTimeout,
    /// The two sides did not agree on a session.
    HandshakeError,
    /// The host did not accept the key, or the key could not be handed over.
    AuthError,
    /// The command could not be started, read or closed.
    ChannelError,
}

impl SshFailure {
    /// Reaching the host is connectivity; a refused key is authentication;
    /// a command that breaks is execution.
    pub open spec fn spec_kind(self) -> ErrorKind {
        match self {
            SshFailure::ConnectTimeout => ErrorKind::ConnectivityError,
            SshFailure::HandshakeError => ErrorKind::ConnectivityError,
            SshFailure::AuthError => ErrorKind::AuthenticationError,
            SshFailure::ChannelError => ErrorKind::ExecutionError,
        }
    }

    /// The kind of the failure.
    pub fn kind(&self) -> (r: ErrorKind)
        ensures
            r == self.spec_kind(),
    {
        match self {
            SshFailure::ConnectTimeout => ErrorKind::ConnectivityError,
            SshFailure::HandshakeError => ErrorKind::ConnectivityError,
            SshFailure::AuthError => ErrorKind::AuthenticationError,
            SshFailure::ChannelError => ErrorKind::ExecutionError,
        }
    }

    /// The kind of the failure where it stopped an attempt to reach a host:
    /// a refused key is authentication, everything else is connectivity.
    pub open spec fn reach_kind(self) -> ErrorKind {
        match self {
            SshFailure::AuthError => ErrorKind::AuthenticationError,
            _ => ErrorKind::ConnectivityError,
        }
    }

    /// The kind of the failure where it stopped an attempt to reach a host.
    pub fn kind_of_reach(&self) -> (r: ErrorKind)
        ensures
            r == self.reach_kind(),
    {
        match self {
            SshFailure::AuthError => ErrorKind::AuthenticationError,
            _ => ErrorKind::ConnectivityError,
        }
    }
}

/// A remote execution that failed: the phase, and what the transport said.
#[derive(Clone, Debug)]
pub struct SshError {
    pub failure: SshFailure,
    pub detail: String,
}

/// Mathematical content of an [`SshError`].
pub struct SshErrorView {
    pub failure: SshFailure,
    pub detail: Seq<char>,
}

impl View for SshError {
    type V = SshErrorView;

    open spec fn view(&self) -> SshErrorView {
        SshErrorView { failure: self.failure, detail: self.detail@ }
    }
}

impl SshError {
    /// A copy with the same content.
    pub fn duplicate(&self) -> (r: SshError)
        ensures
            r@ == self@,
    {
        SshError { failure: self.failure, detail: self.detail.clone() }
    }
}

/// Why a job ended without its result.
#[derive(Clone, Debug)]
pub enum JobError {
    /// The recipe id is not a known one.
    InvalidRecipe,
    /// The repository URL has no owner and name.
    InvalidRepoUrl,
    /// The private key that was supplied cannot be read; the text says why.
    KeyDerivationError(String),
    /// No key pair could be made; the text says why.
    KeyGenerationError(String),
    /// The repository is not there, or not open to this account.
    AccessDenied,
    /// The remote environment did not become available in time.
    EnvironmentTimeout,
    /// A request to the source-control host failed.
    Api(ApiError),
    /// The agent session could not be started.
    SessionStartError(ApiError),
    /// An instruction to a running agent session was not accepted.
    SessionControlError(ApiError),
    /// The host of a remote job could not be reached or entered.
    ConnectionError(SshError),
    /// The context could not be written on the host of a remote job.
    ContextUploadError(SshError),
    /// The generator could not be run in the remote environment.
    RemoteExecution(SshError),
    /// A remote command ran and ended with an exit code other than 0.
    CommandFailed { exit_code: i32, output: String },
}

/// Mathematical content of a [`JobError`].
pub enum JobErrorView {
    InvalidRecipe,
    InvalidRepoUrl,
    KeyDerivationError(Seq<char>),
    KeyGenerationError(Seq<char>),
    AccessDenied,
    EnvironmentTimeout,
    Api(ApiErrorView),
    SessionStartError(ApiErrorView),
    SessionControlError(ApiErrorView),
    ConnectionError(SshErrorView),
    ContextUploadError(SshErrorView),
    RemoteExecution(SshErrorView),
    CommandFailed { exit_code: i32, output: Seq<char> },
}

impl JobErrorView {
    /// The kind of the failure.
    pub open spec fn kind(self) -> ErrorKind {
        match self {
            JobErrorView::InvalidRecipe => ErrorKind::ConfigurationError,
            JobErrorView::InvalidRepoUrl => ErrorKind::ConfigurationError,
            JobErrorView::KeyDerivationError(_) => ErrorKind::ConfigurationError,
            JobErrorView::KeyGenerationError(_) => ErrorKind::AuthenticationError,
            JobErrorView::AccessDenied => ErrorKind::AuthenticationError,
            JobErrorView::EnvironmentTimeout => ErrorKind::ProvisioningTimeout,
            JobErrorView::Api(e) => e.kind(),
            JobErrorView::SessionStartError(e) => e.kind(),
            JobErrorView::SessionControlError(e) => e.kind(),
            JobErrorView::ConnectionError(e) => e.failure.reach_kind(),
            JobErrorView::ContextUploadError(e) => e.failure.spec_kind(),
            JobErrorView::RemoteExecution(e) => e.failure.spec_kind(),
            JobErrorView::CommandFailed { .. } => ErrorKind::ExecutionError,
        }
    }

    /// The line that describes the failure.
    pub open spec fn description(self) -> Seq<char> {
        match self {
            JobErrorView::InvalidRecipe => "Invalid Recipe ID"@,
            JobErrorView::InvalidRepoUrl => "Invalid Repo URL"@,
            JobErrorView::KeyDerivationError(d) => d,
            JobErrorView::KeyGenerationError(d) => d,
            JobErrorView::AccessDenied => "No write access to repo"@,
            JobErrorView::EnvironmentTimeout => "Codespace failed to become available"@,
            JobErrorView::Api(e) => e.description(),
            JobErrorView::SessionStartError(e) => "Failed to start AI session: "@
                + e.description(),
            JobErrorView::SessionControlError(e) => "Failed to control AI session: "@
                + e.description(),
            JobErrorView::ConnectionError(e) => "SSH Connection Failed: "@ + e.detail,
            JobErrorView::ContextUploadError(e) => "Failed to upload context: "@ + e.detail,
            JobErrorView::RemoteExecution(e) => "Remote command failed: "@ + e.detail,
            JobErrorView::CommandFailed { exit_code, .. } => "Remote command exited with status "@
                + signed_decimal(exit_code as int),
        }
    }
}

impl View for JobError {
    type V = JobErrorView;

    open spec fn view(&self) -> JobErrorView {
        match self {
            JobError::InvalidRecipe => JobErrorView::InvalidRecipe,
            JobError::InvalidRepoUrl => JobErrorView::InvalidRepoUrl,
            JobError::KeyDerivationError(d) => JobErrorView::KeyDerivationError(d@),
            JobError::KeyGenerationError(d) => JobErrorView::KeyGenerationError(d@),
            JobError::AccessDenied => JobErrorView::AccessDenied,
            JobError::EnvironmentTimeout => JobErrorView::EnvironmentTimeout,
            JobError::Api(e) => JobErrorView::Api(e@),
            JobError::SessionStartError(e) => JobErrorView::SessionStartError(e@),
            JobError::SessionControlError(e) => JobErrorView::SessionControlError(e@),
            JobError::ConnectionError(e) => JobErrorView::ConnectionError(e@),
            JobError::ContextUploadError(e) => JobErrorView::ContextUploadError(e@),
            JobError::RemoteExecution(e) => JobErrorView::RemoteExecution(e@),
            JobError::CommandFailed { exit_code, output } => JobErrorView::CommandFailed {
                exit_code: *exit_code,
                output: output@,
            },
        }
    }
}

fn prefixed(prefix: &str, rest: &str) -> (r: String)
    ensures
        r@ == prefix@ + rest@,
{
    let mut s = prefix.to_owned();
    s.append(rest);
    s
}

impl JobError {
    /// The kind of the failure.
    pub fn kind(&self) -> (r: ErrorKind)
        ensures
            r == self@.kind(),
    {
        match self {
            JobError::InvalidRecipe => ErrorKind::ConfigurationError,
            JobError::InvalidRepoUrl => ErrorKind::ConfigurationError,
            JobError::KeyDerivationError(_) => ErrorKind::ConfigurationError,
            JobError::KeyGenerationError(_) => ErrorKind::AuthenticationError,
            JobError::AccessDenied => ErrorKind::AuthenticationError,
            JobError::EnvironmentTimeout => ErrorKind::ProvisioningTimeout,
            JobError::Api(e) => e.kind(),
            JobError::SessionStartError(e) => e.kind(),
            JobError::SessionControlError(e) => e.kind(),
            JobError::ConnectionError(e) => e.failure.kind_of_reach(),
            JobError::ContextUploadError(e) => e.failure.kind(),
            JobError::RemoteExecution(e) => e.failure.kind(),
            JobError::CommandFailed { .. } => ErrorKind::ExecutionError,
        }
    }

    /// The line that describes the failure.
    pub fn describe(&self) -> (r: String)
        ensures
            r@ == self@.description(),
    {
        match self {
            JobError::InvalidRecipe => "Invalid Recipe ID".to_owned(),
            JobError::InvalidRepoUrl => "Invalid Repo URL".to_owned(),
            JobError::KeyDerivationError(d) => d.clone(),
            JobError::KeyGenerationError(d) => d.clone(),
            JobError::AccessDenied => "No write access to repo".to_owned(),
            JobError::EnvironmentTimeout => "Codespace failed to become available".to_owned(),
            JobError::Api(e) => e.describe(),
            JobError::SessionStartError(e) => {
                let d = e.describe();
                prefixed("Failed to start AI session: ", d.as_str())
            },
            JobError::SessionControlError(e) => {
                let d = e.describe();
                prefixed("Failed to control AI session: ", d.as_str())
            },
            JobError::ConnectionError(e) => prefixed("SSH Connection Failed: ", e.detail.as_str()),
            JobError::ContextUploadError(e) => prefixed(
                "Failed to upload context: ",
                e.detail.as_str(),
            ),
            JobError::RemoteExecution(e) => prefixed("Remote command failed: ", e.detail.as_str()),
            JobError::CommandFailed { exit_code, .. } => {
                let code = signed_decimal_text(*exit_code);
                prefixed("Remote command exited with status ", code.as_str())
            },
        }
    }

    /// A copy with the same content.
    pub fn duplicate(&self) -> (r: JobError)
        ensures
            r@ == self@,
    {
        match self {
            JobError::InvalidRecipe => JobError::InvalidRecipe,
            JobError::InvalidRepoUrl => JobError::InvalidRepoUrl,
            JobError::KeyDerivationError(d) => JobError::KeyDerivationError(d.clone()),
            JobError::KeyGenerationError(d) => JobError::KeyGenerationError(d.clone()),
            JobError::AccessDenied => JobError::AccessDenied,
            JobError::EnvironmentTimeout => JobError::EnvironmentTimeout,
            JobError::Api(e) => JobError::Api(e.duplicate()),
            JobError::SessionStartError(e) => JobError::SessionStartError(e.duplicate()),
            JobError::SessionControlError(e) => JobError::SessionControlError(e.duplicate()),
            JobError::ConnectionError(e) => JobError::ConnectionError(e.duplicate()),
            JobError::ContextUploadError(e) => JobError::ContextUploadError(e.duplicate()),
            JobError::RemoteExecution(e) => JobError::RemoteExecution(e.duplicate()),
            JobError::CommandFailed { exit_code, output } => JobError::CommandFailed {
                exit_code: *exit_code,
                output: output.clone(),
            },
        }
    }
}

} // verus!
