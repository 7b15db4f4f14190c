//! Short-lived SSH credentials and the plan of one remote execution.
//!
//! Keys are made, read and written as text by `ssh_key`. A remote execution
//! is a plan of steps that a driver performs one by one; the plan decides
//! what comes next and sees to it that the key files, once written, are
//! removed before it ends.

use crate::error::{JobError, SshError, SshErrorView, SshFailure};
use crate::text::same_text;
use vstd::prelude::*;
use vstd::string::StringExecFns;

verus! {

/// Declares `ssh_key::PrivateKey`, a private key with its public half.
/// Nothing inside it is visible here; it is carried from the call that
/// makes or reads it to the calls that write it out.
#[verifier::external_type_specification]
#[verifier::external_body]
pub struct ExPrivateKey(ssh_key::PrivateKey);

/// Declares `ssh_key::Error`, the reason why a key could not be made, read
/// or written. It is only told apart from success and written out as text.
#[verifier::external_type_specification]
#[verifier::external_body]
pub struct ExKeyError(ssh_key::Error);

/// The private key that `PrivateKey::from_openssh` reads from a text, where
/// it accepts the text.
pub uninterp spec fn openssh_private_key(pem: Seq<char>) -> Option<ssh_key::PrivateKey>;

/// The text that `PrivateKey::to_openssh` writes for a key, with line feeds
/// as line endings, where it can encode the key.
pub uninterp spec fn openssh_private_text(key: ssh_key::PrivateKey) -> Option<Seq<char>>;

/// The text that `PublicKey::to_openssh` writes for the public half of a
/// key, where it can encode it.
pub uninterp spec fn openssh_public_text(key: ssh_key::PrivateKey) -> Option<Seq<char>>;

/// Calls `PrivateKey::random` for an Ed25519 key, with the operating
/// system's random number generator. Nothing is known of the key that
/// comes back. The call takes no input; it ends the program where the
/// system has no random bytes to give.
#[verifier::external_body]
pub(crate) fn random_private_key() -> (r: Result<ssh_key::PrivateKey, ssh_key::Error>) {
    ssh_key::PrivateKey::random(&mut ssh_key::rand_core::OsRng, ssh_key::Algorithm::Ed25519)
}

/// Calls `PrivateKey::from_openssh`. Whether the text is accepted, and the
/// key that is read, depend on the text alone.
#[verifier::external_body]
pub(crate) fn read_private_key(pem: &str) -> (r: Result<ssh_key::PrivateKey, ssh_key::Error>)
    ensures
        r matches Ok(key) ==> openssh_private_key(pem@) == Some(key),
        r is Err ==> openssh_private_key(pem@) is None,
{
    ssh_key::PrivateKey::from_openssh(pem)
}

/// Calls `PrivateKey::to_openssh` with `LineEnding::LF`. The text depends on
/// the key alone.
#[verifier::external_body]
pub(crate) fn private_key_text(key: &ssh_key::PrivateKey) -> (r: Result<String, ssh_key::Error>)
    ensures
        r matches Ok(text) ==> openssh_private_text(*key) == Some(text@),
        r is Err ==> openssh_private_text(*key) is None,
{
    let text = key.to_openssh(ssh_key::LineEnding::LF)?;
    Ok(text.to_string())
}

/// Calls `PublicKey::to_openssh` on the public half of the key. The text
/// depends on the key alone.
#[verifier::external_body]
pub(crate) fn public_key_text(key: &ssh_key::PrivateKey) -> (r: Result<String, ssh_key::Error>)
    ensures
        r matches Ok(text) ==> openssh_public_text(*key) == Some(text@),
        r is Err ==> openssh_public_text(*key) is None,
{
    key.public_key().to_openssh()
}

/// Writes out what `ssh_key::Error` says of itself.
#[verifier::external_body]
pub(crate) fn key_error_text(e: &ssh_key::Error) -> (r: String) {
    format!("{}", e)
}

/// Calls `uuid::Uuid::new_v4` and writes the identifier out in its
/// hyphenated form. The identifier is random: nothing is known of it. The
/// call takes no input; it ends the program where the system has no random
/// bytes to give.
#[verifier::external_body]
pub(crate) fn random_token() -> (r: String) {
    uuid::Uuid::new_v4().to_string()
}

/// A private key and its public key, both as OpenSSH text.
pub struct SshKeypair {
    pub private_key: String,
    pub public_key: String,
}

/// Mathematical content of an [`SshKeypair`].
pub struct SshKeypairView {
    pub private_key: Seq<char>,
    pub public_key: Seq<char>,
}

impl View for SshKeypair {
    type V = SshKeypairView;

    open spec fn view(&self) -> SshKeypairView {
        SshKeypairView { private_key: self.private_key@, public_key: self.public_key@ }
    }
}

/// The two texts are the two halves of one key.
pub open spec fn matched_pair(private_key: Seq<char>, public_key: Seq<char>) -> bool {
    exists|key: ssh_key::PrivateKey|
        #![auto]
        openssh_private_text(key) == Some(private_key) && openssh_public_text(key) == Some(
            public_key,
        )
}

/// The public key, as text, of the private key that a text holds.
pub open spec fn public_half(private_pem: Seq<char>) -> Option<Seq<char>> {
    match openssh_private_key(private_pem) {
        Some(key) => openssh_public_text(key),
        None => None,
    }
}

impl SshKeypair {
    /// Writes both halves of a key out as text, and reads the private text
    /// back to see that it gives the public text again. It succeeds exactly
    /// where both halves can be encoded and the private text reads back to
    /// the public one, and then returns those two texts: a pair that whoever
    /// holds the private text can use.
    pub fn from_private_key(key: &ssh_key::PrivateKey) -> (r: Result<SshKeypair, JobError>)
        ensures
            match r {
                Ok(pair) => openssh_private_text(*key) == Some(pair@.private_key)
                    && openssh_public_text(*key) == Some(pair@.public_key) && matched_pair(
                    pair@.private_key,
                    pair@.public_key,
                ) && public_half(pair@.private_key) == Some(pair@.public_key),
                Err(e) => e@ is KeyGenerationError && (openssh_private_text(*key) is None
                    || openssh_public_text(*key) is None || public_half(
                    openssh_private_text(*key)->0,
                ) != openssh_public_text(*key)),
            },
    {
        let private_key = match private_key_text(key) {
            Ok(text) => text,
            Err(e) => {
                return Err(JobError::KeyGenerationError(key_error_text(&e)));
            },
        };
        let public_key = match public_key_text(key) {
            Ok(text) => text,
            Err(e) => {
                return Err(JobError::KeyGenerationError(key_error_text(&e)));
            },
        };
        match derive_public_key(private_key.as_str()) {
            Ok(derived) => {
                if same_text(derived.as_str(), public_key.as_str()) {
                    Ok(SshKeypair { private_key, public_key })
                } else {
                    Err(
                        JobError::KeyGenerationError(
                            "The private key does not read back to its public key".to_owned(),
                        ),
                    )
                }
            },
            Err(e) => Err(JobError::KeyGenerationError(e.describe())),
        }
    }
}

/// Makes a fresh Ed25519 key pair for one provisioning step. The key is
/// random; whatever key comes back, the pair that is returned is matched and
/// its private text reads back to its public text, and every failure is a
/// `KeyGenerationError`.
pub fn generate_ephemeral_keypair() -> (r: Result<SshKeypair, JobError>)
    ensures
        match r {
            Ok(pair) => matched_pair(pair@.private_key, pair@.public_key) && public_half(
                pair@.private_key,
            ) == Some(pair@.public_key),
            Err(e) => e@ is KeyGenerationError,
        },
{
    match random_private_key() {
        Ok(key) => SshKeypair::from_private_key(&key),
        Err(e) => Err(JobError::KeyGenerationError(key_error_text(&e))),
    }
}

/// Derives the public key from a private key given as OpenSSH text. It
/// succeeds exactly where the text holds a private key whose public half
/// can be encoded; every failure is a `KeyDerivationError`.
pub fn derive_public_key(private_key_pem: &str) -> (r: Result<String, JobError>)
    ensures
        match r {
            Ok(public_key) => public_half(private_key_pem@) == Some(public_key@),
            Err(e) => public_half(private_key_pem@) is None && e@ is KeyDerivationError,
        },
{
    match read_private_key(private_key_pem) {
        Ok(key) => match public_key_text(&key) {
            Ok(text) => Ok(text),
            Err(e) => {
                let mut detail = "Failed to derive public key: ".to_owned();
                let said = key_error_text(&e);
                detail.append(said.as_str());
                Err(JobError::KeyDerivationError(detail))
            },
        },
        Err(e) => {
            let mut detail = "Invalid private key format: ".to_owned();
            let said = key_error_text(&e);
            detail.append(said.as_str());
            Err(JobError::KeyDerivationError(detail))
        },
    }
}

/// One command to run on one host, and the key pair to get in with.
pub struct RemoteCall {
    pub host: String,
    pub port: u16,
    pub username: String,
    pub private_key: String,
    pub public_key: String,
    pub command: String,
}

/// Mathematical content of a [`RemoteCall`].
pub struct RemoteCallView {
    pub host: Seq<char>,
    pub port: u16,
    pub username: Seq<char>,
    pub private_key: Seq<char>,
    pub public_key: Seq<char>,
    pub command: Seq<char>,
}

impl View for RemoteCall {
    type V = RemoteCallView;

    open spec fn view(&self) -> RemoteCallView {
        RemoteCallView {
            host: self.host@,
            port: self.port,
            username: self.username@,
            private_key: self.private_key@,
            public_key: self.public_key@,
            command: self.command@,
        }
    }
}

impl RemoteCall {
    /// A copy with the same content.
    pub fn duplicate(&self) -> (r: RemoteCall)
        ensures
            r@ == self@,
    {
        RemoteCall {
            host: self.host.clone(),
            port: self.port,
            username: self.username.clone(),
            private_key: self.private_key.clone(),
            public_key: self.public_key.clone(),
            command: self.command.clone(),
        }
    }
}

/// What the driver reports after it has performed a step.
pub enum SshEvent {
    /// The driver is ready for the first step.
    Begin,
    /// The step was performed.
    Completed,
    /// The step failed; the text says how.
    Failed(String),
    /// The command ran to its end.
    Output { exit_code: i32, output: String },
}

/// Mathematical content of an [`SshEvent`].
pub enum SshEventView {
    Begin,
    Completed,
    Failed(Seq<char>),
    Output { exit_code: i32, output: Seq<char> },
}

impl View for SshEvent {
    type V = SshEventView;

    open spec fn view(&self) -> SshEventView {
        match self {
            SshEvent::Begin => SshEventView::Begin,
            SshEvent::Completed => SshEventView::Completed,
            SshEvent::Failed(detail) => SshEventView::Failed(detail@),
            SshEvent::Output { exit_code, output } => SshEventView::Output {
                exit_code: *exit_code,
                output: output@,
            },
        }
    }
}

/// The step that the driver is to perform next.
pub enum SshAction {
    /// Open a connection to the host.
    Connect { host: String, port: u16 },
    /// Set the session up on the connection.
    Handshake,
    /// Write the two keys into files of these names in the directory for
    /// temporary files, the private one readable by its owner only.
    WriteKeyFiles { private_name: String, public_name: String, private_key: String, public_key: String },
    /// Authenticate as the user with the two key files.
    Authenticate { username: String, private_name: String, public_name: String },
    /// Remove the two key files.
    RemoveKeyFiles { private_name: String, public_name: String },
    /// Run the command, collect what it prints and its exit code.
    Execute { command: String },
    /// Nothing new: the step asked for before is still awaited.
    Pending,
    /// The execution has ended; its result can be taken.
    Done,
}

/// Mathematical content of an [`SshAction`].
pub enum SshActionView {
    Connect { host: Seq<char>, port: u16 },
    Handshake,
    WriteKeyFiles {
        private_name: Seq<char>,
        public_name: Seq<char>,
        private_key: Seq<char>,
        public_key: Seq<char>,
    },
    Authenticate { username: Seq<char>, private_name: Seq<char>, public_name: Seq<char> },
    RemoveKeyFiles { private_name: Seq<char>, public_name: Seq<char> },
    Execute { command: Seq<char> },
    Pending,
    Done,
}

impl View for SshAction {
    type V = SshActionView;

    open spec fn view(&self) -> SshActionView {
        match self {
            SshAction::Connect { host, port } => SshActionView::Connect {
                host: host@,
                port: *port,
            },
            SshAction::Handshake => SshActionView::Handshake,
            SshAction::WriteKeyFiles {
                private_name,
                public_name,
                private_key,
                public_key,
            } => SshActionView::WriteKeyFiles {
                private_name: private_name@,
                public_name: public_name@,
                private_key: private_key@,
                public_key: public_key@,
            },
            SshAction::Authenticate {
                username,
                private_name,
                public_name,
            } => SshActionView::Authenticate {
                username: username@,
                private_name: private_name@,
                public_name: public_name@,
            },
            SshAction::RemoveKeyFiles { private_name, public_name } => SshActionView::RemoveKeyFiles {
                private_name: private_name@,
                public_name: public_name@,
            },
            SshAction::Execute { command } => SshActionView::Execute { command: command@ },
            SshAction::Pending => SshActionView::Pending,
            SshAction::Done => SshActionView::Done,
        }
    }
}

/// What a remote execution yields: the exit code of the command and what
/// it printed, or the phase that failed.
pub open spec fn execution_result(r: Result<(i32, String), SshError>) -> Result<
    (i32, Seq<char>),
    SshErrorView,
> {
    match r {
        Ok((exit_code, output)) => Ok((exit_code, output@)),
        Err(e) => Err(e@),
    }
}

/// How far a remote execution has come.
pub enum SshStage {
    Ready,
    Connecting,
    Handshaking,
    WritingKeys,
    Authenticating,
    /// The key files are being removed. Holds the failure that ends the
    /// execution once they are gone, where there was one.
    RemovingKeys(Option<SshError>),
    Executing,
    Finished(Result<(i32, String), SshError>),
}

/// Mathematical content of an [`SshStage`].
pub enum SshStageView {
    Ready,
    Connecting,
    Handshaking,
    WritingKeys,
    Authenticating,
    RemovingKeys(Option<SshErrorView>),
    Executing,
    Finished(Result<(i32, Seq<char>), SshErrorView>),
}

impl View for SshStage {
    type V = SshStageView;

    open spec fn view(&self) -> SshStageView {
        match self {
            SshStage::Ready => SshStageView::Ready,
            SshStage::Connecting => SshStageView::Connecting,
            SshStage::Handshaking => SshStageView::Handshaking,
            SshStage::WritingKeys => SshStageView::WritingKeys,
            SshStage::Authenticating => SshStageView::Authenticating,
            SshStage::RemovingKeys(held) => SshStageView::RemovingKeys(
                match held {
                    Some(e) => Some(e@),
                    None => None,
                },
            ),
            SshStage::Executing => SshStageView::Executing,
            SshStage::Finished(r) => SshStageView::Finished(execution_result(*r)),
        }
    }
}

/// The plan of one remote execution: what is to be run where, the token
/// that names its key files, and how far it has come.
pub struct SshExecution {
    call: RemoteCall,
    token: String,
    stage: SshStage,
}

/// Mathematical content of an [`SshExecution`].
pub struct SshExecutionView {
    pub call: RemoteCallView,
    pub token: Seq<char>,
    pub stage: SshStageView,
}

impl View for SshExecution {
    type V = SshExecutionView;

    closed spec fn view(&self) -> SshExecutionView {
        SshExecutionView { call: self.call@, token: self.token@, stage: self.stage@ }
    }
}

/// The name of the file that holds the private key.
pub open spec fn private_file_name(token: Seq<char>) -> Seq<char> {
    "id_ed25519_"@ + token
}

/// The name of the file that holds the public key.
pub open spec fn public_file_name(token: Seq<char>) -> Seq<char> {
    "id_ed25519_"@ + token + ".pub"@
}

/// A failure in one phase.
pub open spec fn ssh_failure(failure: SshFailure, detail: Seq<char>) -> SshErrorView {
    SshErrorView { failure, detail }
}

impl SshExecutionView {
    /// The plan at another stage.
    pub open spec fn at(self, stage: SshStageView) -> SshExecutionView {
        SshExecutionView { stage, ..self }
    }

    /// The step that removes the key files.
    pub open spec fn removal(self) -> SshActionView {
        SshActionView::RemoveKeyFiles {
            private_name: private_file_name(self.token),
            public_name: public_file_name(self.token),
        }
    }

    /// The execution has ended.
    pub open spec fn finished(self) -> bool {
        self.stage is Finished
    }
}

/// One step of a remote execution: the plan after an event, and what the
/// driver is to do next.
///
/// The phases follow one another: connect, handshake, write the key files,
/// authenticate, remove the key files, run the command. A failure ends the
/// execution with the error of its phase; a failure while the key files are
/// written or used does so only after the files were removed. That the
/// removal itself fails changes nothing of the result. An event that
/// answers no step changes nothing.
pub open spec fn ssh_step(plan: SshExecutionView, event: SshEventView) -> (
    SshExecutionView,
    SshActionView,
) {
    match plan.stage {
        SshStageView::Ready => match event {
            SshEventView::Begin => (
                plan.at(SshStageView::Connecting),
                SshActionView::Connect { host: plan.call.host, port: plan.call.port },
            ),
            _ => (plan, SshActionView::Pending),
        },
        SshStageView::Connecting => match event {
            SshEventView::Completed => (
                plan.at(SshStageView::Handshaking),
                SshActionView::Handshake,
            ),
            SshEventView::Failed(detail) => (
                plan.at(
                    SshStageView::Finished(Err(ssh_failure(SshFailure::ConnectTimeout, detail))),
                ),
                SshActionView::Done,
            ),
            _ => (plan, SshActionView::Pending),
        },
        SshStageView::Handshaking => match event {
            SshEventView::Completed => (
                plan.at(SshStageView::WritingKeys),
                SshActionView::WriteKeyFiles {
                    private_name: private_file_name(plan.token),
                    public_name: public_file_name(plan.token),
                    private_key: plan.call.private_key,
                    public_key: plan.call.public_key,
                },
            ),
            SshEventView::Failed(detail) => (
                plan.at(
                    SshStageView::Finished(Err(ssh_failure(SshFailure::HandshakeError, detail))),
                ),
                SshActionView::Done,
            ),
            _ => (plan, SshActionView::Pending),
        },
        SshStageView::WritingKeys => match event {
            SshEventView::Completed => (
                plan.at(SshStageView::Authenticating),
                SshActionView::Authenticate {
                    username: plan.call.username,
                    private_name: private_file_name(plan.token),
                    public_name: public_file_name(plan.token),
                },
            ),
            SshEventView::Failed(detail) => (
                plan.at(
                    SshStageView::RemovingKeys(
                        Some(ssh_failure(SshFailure::AuthError, detail)),
                    ),
                ),
                plan.removal(),
            ),
            _ => (plan, SshActionView::Pending),
        },
        SshStageView::Authenticating => match event {
            SshEventView::Completed => (
                plan.at(SshStageView::RemovingKeys(None)),
                plan.removal(),
            ),
            SshEventView::Failed(detail) => (
                plan.at(
                    SshStageView::RemovingKeys(
                        Some(ssh_failure(SshFailure::AuthError, detail)),
                    ),
                ),
                plan.removal(),
            ),
            _ => (plan, SshActionView::Pending),
        },
        SshStageView::RemovingKeys(held) => match event {
            SshEventView::Completed | SshEventView::Failed(_) => match held {
                None => (
                    plan.at(SshStageView::Executing),
                    SshActionView::Execute { command: plan.call.command },
                ),
                Some(e) => (plan.at(SshStageView::Finished(Err(e))), SshActionView::Done),
            },
            _ => (plan, SshActionView::Pending),
        },
        SshStageView::Executing => match event {
            SshEventView::Output { exit_code, output } => (
                plan.at(SshStageView::Finished(Ok((exit_code, output)))),
                SshActionView::Done,
            ),
            SshEventView::Failed(detail) => (
                plan.at(
                    SshStageView::Finished(Err(ssh_failure(SshFailure::ChannelError, detail))),
                ),
                SshActionView::Done,
            ),
            _ => (plan, SshActionView::Pending),
        },
        SshStageView::Finished(_) => (plan, SshActionView::Done),
    }
}

fn key_file_names(token: &str) -> (r: (String, String))
    ensures
        r.0@ == private_file_name(token@),
        r.1@ == public_file_name(token@),
{
    let mut private_name = "id_ed25519_".to_owned();
    private_name.append(token);
    let mut public_name = private_name.clone();
    public_name.append(".pub");
    (private_name, public_name)
}

impl SshExecution {
    /// The plan of an execution whose key files are named after `token`,
    /// before its first step.
    pub fn with_token(call: RemoteCall, token: String) -> (r: SshExecution)
        ensures
            r@ == (SshExecutionView { call: call@, token: token@, stage: SshStageView::Ready }),
    {
        SshExecution { call, token, stage: SshStage::Ready }
    }

    /// Tells whether the execution has ended.
    pub fn is_finished(&self) -> (r: bool)
        ensures
            r == self@.finished(),
    {
        match &self.stage {
            SshStage::Finished(_) => true,
            _ => false,
        }
    }

    /// The result of an execution that has ended.
    pub fn into_result(self) -> (r: Option<Result<(i32, String), SshError>>)
        ensures
            match r {
                Some(result) => self@.stage == SshStageView::Finished(execution_result(result)),
                None => !self@.finished(),
            },
    {
        match self.stage {
            SshStage::Finished(result) => Some(result),
            _ => None,
        }
    }

    fn remove_keys(self, held: Option<SshError>) -> (r: (SshExecution, SshAction))
        ensures
            r.0@ == self@.at(
                SshStageView::RemovingKeys(
                    match held {
                        Some(e) => Some(e@),
                        None => None,
                    },
                ),
            ),
            r.1@ == self@.removal(),
    {
        let (private_name, public_name) = key_file_names(self.token.as_str());
        (
            SshExecution { call: self.call, token: self.token, stage: SshStage::RemovingKeys(held) },
            SshAction::RemoveKeyFiles { private_name, public_name },
        )
    }

    fn finish(self, result: Result<(i32, String), SshError>) -> (r: (SshExecution, SshAction))
        ensures
            r.0@ == self@.at(SshStageView::Finished(execution_result(result))),
            r.1@ == SshActionView::Done,
    {
        (
            SshExecution { call: self.call, token: self.token, stage: SshStage::Finished(result) },
            SshAction::Done,
        )
    }

    fn fail(self, failure: SshFailure, detail: String) -> (r: (SshExecution, SshAction))
        ensures
            r.0@ == self@.at(SshStageView::Finished(Err(ssh_failure(failure, detail@)))),
            r.1@ == SshActionView::Done,
    {
        self.finish(Err(SshError { failure, detail }))
    }

    /// Takes the plan one step further: see [`ssh_step`].
    pub fn advance(self, event: SshEvent) -> (r: (SshExecution, SshAction))
        ensures
            (r.0@, r.1@) == ssh_step(self@, event@),
    {
        match self.stage {
            SshStage::Ready => match event {
                SshEvent::Begin => {
                    let action = SshAction::Connect {
                        host: self.call.host.clone(),
                        port: self.call.port,
                    };
                    (
                        SshExecution {
                            call: self.call,
                            token: self.token,
                            stage: SshStage::Connecting,
                        },
                        action,
                    )
                },
                _ => (
                    SshExecution { call: self.call, token: self.token, stage: SshStage::Ready },
                    SshAction::Pending,
                ),
            },
            SshStage::Connecting => match event {
                SshEvent::Completed => (
                    SshExecution {
                        call: self.call,
                        token: self.token,
                        stage: SshStage::Handshaking,
                    },
                    SshAction::Handshake,
                ),
                SshEvent::Failed(detail) => SshExecution {
                    call: self.call,
                    token: self.token,
                    stage: SshStage::Connecting,
                }.fail(SshFailure::ConnectTimeout, detail),
                _ => (
                    SshExecution {
                        call: self.call,
                        token: self.token,
                        stage: SshStage::Connecting,
                    },
                    SshAction::Pending,
                ),
            },
            SshStage::Handshaking => match event {
                SshEvent::Completed => {
                    let (private_name, public_name) = key_file_names(self.token.as_str());
                    let action = SshAction::WriteKeyFiles {
                        private_name,
                        public_name,
                        private_key: self.call.private_key.clone(),
                        public_key: self.call.public_key.clone(),
                    };
                    (
                        SshExecution {
                            call: self.call,
                            token: self.token,
                            stage: SshStage::WritingKeys,
                        },
                        action,
                    )
                },
                SshEvent::Failed(detail) => SshExecution {
                    call: self.call,
                    token: self.token,
                    stage: SshStage::Handshaking,
                }.fail(SshFailure::HandshakeError, detail),
                _ => (
                    SshExecution {
                        call: self.call,
                        token: self.token,
                        stage: SshStage::Handshaking,
                    },
                    SshAction::Pending,
                ),
            },
            SshStage::WritingKeys => match event {
                SshEvent::Completed => {
                    let (private_name, public_name) = key_file_names(self.token.as_str());
                    let action = SshAction::Authenticate {
                        username: self.call.username.clone(),
                        private_name,
                        public_name,
                    };
                    (
                        SshExecution {
                            call: self.call,
                            token: self.token,
                            stage: SshStage::Authenticating,
                        },
                        action,
                    )
                },
                SshEvent::Failed(detail) => SshExecution {
                    call: self.call,
                    token: self.token,
                    stage: SshStage::WritingKeys,
                }.remove_keys(Some(SshError { failure: SshFailure::AuthError, detail })),
                _ => (
                    SshExecution {
                        call: self.call,
                        token: self.token,
                        stage: SshStage::WritingKeys,
                    },
                    SshAction::Pending,
                ),
            },
            SshStage::Authenticating => match event {
                SshEvent::Completed => SshExecution {
                    call: self.call,
                    token: self.token,
                    stage: SshStage::Authenticating,
                }.remove_keys(None),
                SshEvent::Failed(detail) => SshExecution {
                    call: self.call,
                    token: self.token,
                    stage: SshStage::Authenticating,
                }.remove_keys(Some(SshError { failure: SshFailure::AuthError, detail })),
                _ => (
                    SshExecution {
                        call: self.call,
                        token: self.token,
                        stage: SshStage::Authenticating,
                    },
                    SshAction::Pending,
                ),
            },
            SshStage::RemovingKeys(held) => match event {
                SshEvent::Completed | SshEvent::Failed(_) => match held {
                    None => {
                        let action = SshAction::Execute { command: self.call.command.clone() };
                        (
                            SshExecution {
                                call: self.call,
                                token: self.token,
                                stage: SshStage::Executing,
                            },
                            action,
                        )
                    },
                    Some(e) => SshExecution {
                        call: self.call,
                        token: self.token,
                        stage: SshStage::RemovingKeys(None),
                    }.finish(Err(e)),
                },
                _ => (
                    SshExecution {
                        call: self.call,
                        token: self.token,
                        stage: SshStage::RemovingKeys(held),
                    },
                    SshAction::Pending,
                ),
            },
            SshStage::Executing => match event {
                SshEvent::Output { exit_code, output } => SshExecution {
                    call: self.call,
                    token: self.token,
                    stage: SshStage::Executing,
                }.finish(Ok((exit_code, output))),
                SshEvent::Failed(detail) => SshExecution {
                    call: self.call,
                    token: self.token,
                    stage: SshStage::Executing,
                }.fail(SshFailure::ChannelError, detail),
                _ => (
                    SshExecution {
                        call: self.call,
                        token: self.token,
                        stage: SshStage::Executing,
                    },
                    SshAction::Pending,
                ),
            },
            SshStage::Finished(result) => (
                SshExecution {
                    call: self.call,
                    token: self.token,
                    stage: SshStage::Finished(result),
                },
                SshAction::Done,
            ),
        }
    }
}

/// Plans the execution of one command on one host. The key files of the
/// execution are named after a fresh random token.
pub fn execute_ssh_command(
    host: &str,
    port: u16,
    username: &str,
    private_key_pem: &str,
    public_key_openssh: &str,
    command: &str,
) -> (r: SshExecution)
    ensures
        r@.stage == SshStageView::Ready,
        r@.call == (RemoteCallView {
            host: host@,
            port,
            username: username@,
            private_key: private_key_pem@,
            public_key: public_key_openssh@,
            command: command@,
        }),
{
    let call = RemoteCall {
        host: host.to_owned(),
        port,
        username: username.to_owned(),
        private_key: private_key_pem.to_owned(),
        public_key: public_key_openssh.to_owned(),
        command: command.to_owned(),
    };
    SshExecution::with_token(call, random_token())
}

/// What a run of a plan comes to: the plan after the last event, and the
/// steps that the driver was asked for, in order.
pub struct SshRun {
    pub plan: SshExecutionView,
    pub actions: Seq<SshActionView>,
}

/// The run of a plan over a sequence of events.
pub open spec fn ssh_run(plan: SshExecutionView, events: Seq<SshEventView>) -> SshRun
    decreases events.len(),
{
    if events.len() == 0 {
        SshRun { plan, actions: Seq::empty() }
    } else {
        let before = ssh_run(plan, events.drop_last());
        let (after, action) = ssh_step(before.plan, events.last());
        SshRun { plan: after, actions: before.actions.push(action) }
    }
}

/// Whether key files may lie on disk after these steps: the last step that
/// wrote or removed them wrote them.
pub open spec fn keys_on_disk(actions: Seq<SshActionView>) -> bool
    decreases actions.len(),
{
    if actions.len() == 0 {
        false
    } else {
        match actions.last() {
            SshActionView::WriteKeyFiles { .. } => true,
            SshActionView::RemoveKeyFiles { .. } => false,
            _ => keys_on_disk(actions.drop_last()),
        }
    }
}

/// Whatever the driver reports, key files lie on disk only while the plan
/// writes them or authenticates with them. So an execution that has ended,
/// with success or with any failure, has asked for their removal after it
/// last asked for them to be written.
pub proof fn lemma_keys_never_outlive_execution(plan: SshExecutionView, events: Seq<SshEventView>)
    requires
        plan.stage is Ready,
    ensures
        keys_on_disk(ssh_run(plan, events).actions) <==> (ssh_run(plan, events).plan.stage
            is WritingKeys || ssh_run(plan, events).plan.stage is Authenticating),
        ssh_run(plan, events).plan.finished() ==> !keys_on_disk(ssh_run(plan, events).actions),
    decreases events.len(),
{
    if events.len() > 0 {
        lemma_keys_never_outlive_execution(plan, events.drop_last());
        let before = ssh_run(plan, events.drop_last());
        let (after, action) = ssh_step(before.plan, events.last());
        assert(before.actions.push(action).drop_last() =~= before.actions);
    }
}

/// The private key leaves the plan in one step only, the one that writes
/// the key files, and that step is taken only when the handshake is done.
pub proof fn lemma_private_key_is_written_after_handshake(
    plan: SshExecutionView,
    event: SshEventView,
)
    ensures
        ssh_step(plan, event).1 is WriteKeyFiles ==> plan.stage is Handshaking && event
            is Completed,
{
}

} // verus!
