//! The driver's values that the protocol carries or decides on.
//!
//! What the protocol never looks into (a status, a filter, a policy) crosses
//! as a JSON value; what it decides on is a type of its own here.

use crate::table::Table;
use crate::text::{opt_text, texts};
use serde_json::Value;
use std::time::Duration;
use vstd::prelude::*;

verus! {

/// A JSON value, carried through unopened.
#[verifier::external_type_specification]
#[verifier::external_body]
pub struct ExValue(serde_json::Value);

/// `Value::clone`: the copy is the value itself.
pub assume_specification[ <Value as Clone>::clone ](value: &Value) -> (copy: Value)
    ensures
        copy == *value,
;

/// The whole length of a duration in nanoseconds, as `Duration::as_nanos`
/// gives it.
pub uninterp spec fn nanos_of(duration: Duration) -> nat;

/// `Duration::as_nanos`: the whole length in nanoseconds.
pub assume_specification[ Duration::as_nanos ](duration: &Duration) -> (nanos: u128)
    ensures
        nanos == nanos_of(*duration),
;

/// `Duration::from_millis`: as many milliseconds as asked for.
pub assume_specification[ Duration::from_millis ](millis: u64) -> (duration: Duration)
    ensures
        nanos_of(duration) == millis * 1_000_000,
;

/// A length in whole milliseconds, at most what 64 bits hold.
pub open spec fn millis_of(nanos: nat) -> u64 {
    if nanos / 1_000_000 > u64::MAX {
        u64::MAX
    } else {
        (nanos / 1_000_000) as u64
    }
}

/// A length in whole microseconds, at most what 64 bits hold.
pub open spec fn micros_of(nanos: nat) -> u64 {
    if nanos / 1_000 > u64::MAX {
        u64::MAX
    } else {
        (nanos / 1_000) as u64
    }
}

/// The length of a duration in whole milliseconds, saturating.
pub fn saturating_millis(duration: &Duration) -> (millis: u64)
    ensures
        millis == millis_of(nanos_of(*duration)),
{
    let millis: u128 = duration.as_nanos() / 1_000_000;
    if millis > u64::MAX as u128 {
        u64::MAX
    } else {
        millis as u64
    }
}

/// The length of a duration in whole microseconds, saturating.
pub fn saturating_micros(duration: &Duration) -> (micros: u64)
    ensures
        micros == micros_of(nanos_of(*duration)),
{
    let micros: u128 = duration.as_nanos() / 1_000;
    if micros > u64::MAX as u128 {
        u64::MAX
    } else {
        micros as u64
    }
}

/// The length of an optional duration in nanoseconds.
pub open spec fn opt_nanos(duration: Option<Duration>) -> Option<nat> {
    match duration {
        Some(duration) => Some(nanos_of(duration)),
        None => None,
    }
}

/// What a provider may offer. A capability that the protocol itself never
/// decides on is known by the driver's number for it.
#[derive(Clone, Copy, Debug, PartialEq, Eq, Structural)]
pub enum Capability {
    ExecEnvironment,
    Git,
    LifecyclePause,
    Logs,
    OneShot,
    PreviewUrls,
    Pty,
    Snapshots,
    Ssh,
    SshRevoke,
    SshTtl,
    VncAccess,
    Volumes,
    WebTerminalAccess,
    Other(u32),
}

/// The kind of a resource that an error speaks of.
#[derive(Clone, Copy, Debug, PartialEq, Eq, Structural)]
pub enum ResourceKind {
    Plugin,
    Sandbox,
    Other(u32),
}

/// The state of a sandbox that refused an action.
#[derive(Clone, Copy, Debug, PartialEq, Eq, Structural)]
pub enum SandboxState {
    Paused,
    Running,
    Other(u32),
}

/// An action that a sandbox refused.
#[derive(Clone, Copy, Debug, PartialEq, Eq, Structural)]
pub enum Action {
    Stop,
    Other(u32),
}

/// How a command ended.
#[derive(Clone, Copy, Debug, PartialEq, Eq, Structural)]
pub enum Termination {
    Exited,
    Killed,
    Cancelled,
    Unknown,
    Other(u32),
}

/// The class of a git failure.
#[derive(Clone, Copy, Debug, PartialEq, Eq, Structural)]
pub enum GitFailureKind {
    AuthRejected,
    RefNotFound,
    Other(u32),
}

/// How hard a command is asked to stop.
#[derive(Clone, Copy, Debug, PartialEq, Eq, Structural)]
pub enum StopLevel {
    Term,
    Kill,
}

/// What a snapshot keeps of its sandbox.
#[derive(Clone, Copy, Debug, PartialEq, Eq, Structural)]
pub enum SnapshotMode {
    Filesystem,
    LiveProcessState,
    Other(u32),
}

/// Whether terminal control sequences are taken out of a command's output.
#[derive(Clone, Copy, Debug, PartialEq, Eq, Structural)]
pub enum OutputSanitization {
    Raw,
    Other(u32),
}

/// One of a command's two output streams.
#[derive(Clone, Copy, Debug, PartialEq, Eq, Structural)]
pub enum OutputStream {
    Stdout,
    Stderr,
}

/// The kind of an I/O failure. A kind that the protocol itself never gives is
/// known by the application's number for it.
#[derive(Clone, Copy, Debug, PartialEq, Eq, Structural)]
pub enum IoErrorKind {
    /// The data ended too early.
    UnexpectedEof,
    /// The data is malformed.
    InvalidData,
    /// Nothing could be written.
    WriteZero,
    /// None of the kinds that are told apart.
    Unspecified,
    Other(u32),
}

/// An I/O failure as it was met: its kind, and the failure rendered.
#[derive(Debug)]
pub struct IoError {
    pub kind: IoErrorKind,
    pub rendered: String,
}

/// A chain of rendered error messages, outermost first.
#[derive(Debug)]
pub struct RemoteCause {
    pub message: String,
    pub source: Option<Box<RemoteCause>>,
}

impl View for RemoteCause {
    type V = Seq<Seq<char>>;

    open spec fn view(&self) -> Seq<Seq<char>> {
        self.chain()
    }
}

/// The messages of an optional chain.
pub open spec fn opt_chain(cause: Option<RemoteCause>) -> Seq<Seq<char>> {
    match cause {
        Some(cause) => cause@,
        None => Seq::empty(),
    }
}

impl RemoteCause {
    /// The messages, outermost first.
    pub open spec fn chain(self) -> Seq<Seq<char>>
        decreases self,
    {
        match self.source {
            Some(source) => seq![self.message@] + source.chain(),
            None => seq![self.message@],
        }
    }

    /// A chain of one message.
    pub fn new(message: String) -> (cause: Self)
        ensures
            cause@ == seq![message@],
    {
        RemoteCause { message, source: None }
    }

    /// Copies the chain.
    pub fn copy(&self) -> (copy: Self)
        ensures
            copy@ == self@,
        decreases self,
    {
        let source = match &self.source {
            Some(source) => Some(Box::new((&**source).copy())),
            None => None,
        };
        RemoteCause { message: self.message.clone(), source }
    }

    /// The messages, outermost first.
    pub fn messages(&self) -> (messages: Vec<String>)
        ensures
            texts(messages@) == self@,
        decreases self,
    {
        let mut messages: Vec<String> = Vec::new();
        messages.push(self.message.clone());
        match &self.source {
            Some(source) => {
                let mut rest = (&**source).messages();
                let ghost tail = rest@;
                messages.append(&mut rest);
                assert(texts(messages@) =~= seq![self.message@] + texts(tail));
            },
            None => {
                assert(texts(messages@) =~= seq![self.message@]);
            },
        }
        messages
    }
}

/// Folds rendered messages into a chain, the first message outermost.
pub fn remote_cause(messages: &[String]) -> (cause: Option<RemoteCause>)
    ensures
        opt_chain(cause) == texts(messages@),
        cause is None <==> messages@.len() == 0,
{
    let mut cause: Option<RemoteCause> = None;
    let mut left: usize = messages.len();
    while left > 0
        invariant
            left <= messages@.len(),
            opt_chain(cause) == texts(messages@).skip(left as int),
            cause is None <==> left == messages@.len(),
        decreases left,
    {
        left = left - 1;
        let ghost inner = opt_chain(cause);
        let source = match cause {
            Some(cause) => Some(Box::new(cause)),
            None => None,
        };
        let outer = RemoteCause { message: messages[left].clone(), source };
        assert(outer@ =~= seq![messages@[left as int]@] + inner);
        assert(texts(messages@).skip(left as int) =~= seq![messages@[left as int]@] + inner);
        cause = Some(outer);
    }
    assert(texts(messages@).skip(0) =~= texts(messages@));
    cause
}

/// An operation whose end this side did not see.
#[derive(Debug)]
pub struct IncompleteOperation {
    pub operation: String,
    pub output_abandoned: bool,
    pub stop_acknowledged: bool,
    pub termination_confirmed: bool,
    pub cleanup_confirmed: bool,
}

/// What an [`IncompleteOperation`] says.
pub struct IncompleteView {
    pub operation: Seq<char>,
    pub output_abandoned: bool,
    pub stop_acknowledged: bool,
    pub termination_confirmed: bool,
    pub cleanup_confirmed: bool,
}

impl View for IncompleteOperation {
    type V = IncompleteView;

    open spec fn view(&self) -> IncompleteView {
        IncompleteView {
            operation: self.operation@,
            output_abandoned: self.output_abandoned,
            stop_acknowledged: self.stop_acknowledged,
            termination_confirmed: self.termination_confirmed,
            cleanup_confirmed: self.cleanup_confirmed,
        }
    }
}

/// Output given up, nothing else known.
pub open spec fn fresh_incomplete(operation: Seq<char>) -> IncompleteView {
    IncompleteView {
        operation,
        output_abandoned: true,
        stop_acknowledged: false,
        termination_confirmed: false,
        cleanup_confirmed: false,
    }
}

impl IncompleteOperation {
    /// An operation whose output was given up and of which nothing else is
    /// confirmed.
    pub fn new(operation: &str) -> (outcome: Self)
        ensures
            outcome@ == fresh_incomplete(operation@),
    {
        IncompleteOperation {
            operation: operation.to_owned(),
            output_abandoned: true,
            stop_acknowledged: false,
            termination_confirmed: false,
            cleanup_confirmed: false,
        }
    }

    /// Copies the outcome.
    pub fn copy(&self) -> (copy: Self)
        ensures
            copy@ == self@,
    {
        IncompleteOperation {
            operation: self.operation.clone(),
            output_abandoned: self.output_abandoned,
            stop_acknowledged: self.stop_acknowledged,
            termination_confirmed: self.termination_confirmed,
            cleanup_confirmed: self.cleanup_confirmed,
        }
    }
}

/// A rejected credential.
#[derive(Debug)]
pub struct AuthError {
    pub provider: String,
    pub reason: String,
    pub source: Option<RemoteCause>,
}

/// What an [`AuthError`] says.
pub struct AuthView {
    pub provider: Seq<char>,
    pub reason: Seq<char>,
    pub source: Seq<Seq<char>>,
}

impl View for AuthError {
    type V = AuthView;

    open spec fn view(&self) -> AuthView {
        AuthView {
            provider: self.provider@,
            reason: self.reason@,
            source: opt_chain(self.source),
        }
    }
}

/// A failure that the provider itself reported.
#[derive(Debug)]
pub struct ProviderError {
    pub provider: String,
    pub message: String,
    pub code: Option<String>,
    pub retryable: bool,
    pub detail: Option<Value>,
    pub source: Option<RemoteCause>,
}

/// What a [`ProviderError`] says.
pub struct ProviderView {
    pub provider: Seq<char>,
    pub message: Seq<char>,
    pub code: Option<Seq<char>>,
    pub retryable: bool,
    pub detail: Option<Value>,
    pub source: Seq<Seq<char>>,
}

impl View for ProviderError {
    type V = ProviderView;

    open spec fn view(&self) -> ProviderView {
        ProviderView {
            provider: self.provider@,
            message: self.message@,
            code: opt_text(self.code),
            retryable: self.retryable,
            detail: self.detail,
            source: opt_chain(self.source),
        }
    }
}

impl ProviderError {
    /// A failure with a message and nothing else.
    pub fn new(provider: String, message: String) -> (error: Self)
        ensures
            error.provider@ == provider@,
            error.message@ == message@,
            error.code is None,
            !error.retryable,
            error.detail is None,
            error.source is None,
    {
        ProviderError {
            provider,
            message,
            code: None,
            retryable: false,
            detail: None,
            source: None,
        }
    }
}

/// A broken or misused transport.
#[derive(Debug)]
pub struct TransportError {
    pub context: String,
    pub source: Option<RemoteCause>,
}

/// What a [`TransportError`] says.
pub struct TransportView {
    pub context: Seq<char>,
    pub source: Seq<Seq<char>>,
}

impl View for TransportError {
    type V = TransportView;

    open spec fn view(&self) -> TransportView {
        TransportView { context: self.context@, source: opt_chain(self.source) }
    }
}

impl TransportError {
    /// A failure without a source.
    pub fn new(context: &str) -> (error: Self)
        ensures
            error@ == (TransportView { context: context@, source: Seq::empty() }),
    {
        TransportError { context: context.to_owned(), source: None }
    }

    /// A failure with one rendered source.
    pub fn with_source(context: &str, source: String) -> (error: Self)
        ensures
            error@ == (TransportView { context: context@, source: seq![source@] }),
    {
        TransportError { context: context.to_owned(), source: Some(RemoteCause::new(source)) }
    }

    /// Copies the failure.
    pub fn copy(&self) -> (copy: Self)
        ensures
            copy@ == self@,
    {
        let source = match &self.source {
            Some(source) => Some(source.copy()),
            None => None,
        };
        TransportError { context: self.context.clone(), source }
    }
}

/// A command that failed, with samples of its output.
#[derive(Debug)]
pub struct ExecFailure {
    pub label: String,
    pub termination: Termination,
    pub exit_code: Option<i32>,
    pub stdout: Vec<u8>,
    pub stderr: Vec<u8>,
    pub duration: Option<Duration>,
}

/// What an [`ExecFailure`] says, its duration in nanoseconds.
pub struct ExecFailureView {
    pub label: Seq<char>,
    pub termination: Termination,
    pub exit_code: Option<i32>,
    pub stdout: Seq<u8>,
    pub stderr: Seq<u8>,
    pub duration: Option<nat>,
}

impl View for ExecFailure {
    type V = ExecFailureView;

    open spec fn view(&self) -> ExecFailureView {
        ExecFailureView {
            label: self.label@,
            termination: self.termination,
            exit_code: self.exit_code,
            stdout: self.stdout@,
            stderr: self.stderr@,
            duration: opt_nanos(self.duration),
        }
    }
}

/// A classified git failure: the class plus whichever evidence it was read
/// from.
#[derive(Debug)]
pub struct GitFailure {
    pub operation: String,
    pub kind: GitFailureKind,
    pub output: Option<ExecFailure>,
    pub provider: Option<ProviderError>,
}

/// What a [`GitFailure`] says.
pub struct GitView {
    pub operation: Seq<char>,
    pub kind: GitFailureKind,
    pub output: Option<ExecFailureView>,
    pub provider: Option<ProviderView>,
}

impl View for GitFailure {
    type V = GitView;

    open spec fn view(&self) -> GitView {
        GitView {
            operation: self.operation@,
            kind: self.kind,
            output: match self.output {
                Some(output) => Some(output@),
                None => None,
            },
            provider: match self.provider {
                Some(provider) => Some(provider@),
                None => None,
            },
        }
    }
}

/// A failure of the driver or of the protocol.
#[derive(Debug)]
pub enum Error {
    Incomplete(IncompleteOperation),
    Overloaded { limit: String },
    LimitExceeded { limit: String, max_bytes: usize },
    Unsupported { capability: Capability },
    NotFound { resource: ResourceKind, id: String },
    NotOwned { resource: ResourceKind, id: String },
    InvalidSpec { field: String, reason: String },
    InvalidState { current: SandboxState, action: Action },
    Timeout { operation: String, elapsed: Duration },
    Auth(AuthError),
    RateLimited { retry_after: Option<Duration> },
    Provider(ProviderError),
    Exec(ExecFailure),
    Git(GitFailure),
    Io { context: String, io_kind: IoErrorKind, source: RemoteCause },
    Transport(TransportError),
    /// A driver failure that the protocol has no detail for.
    Other { kind: String },
}

/// What an [`Error`] says.
pub enum ErrorView {
    Incomplete(IncompleteView),
    Overloaded { limit: Seq<char> },
    LimitExceeded { limit: Seq<char>, max_bytes: usize },
    Unsupported { capability: Capability },
    NotFound { resource: ResourceKind, id: Seq<char> },
    NotOwned { resource: ResourceKind, id: Seq<char> },
    InvalidSpec { field: Seq<char>, reason: Seq<char> },
    InvalidState { current: SandboxState, action: Action },
    Timeout { operation: Seq<char>, elapsed: nat },
    Auth(AuthView),
    RateLimited { retry_after: Option<nat> },
    Provider(ProviderView),
    Exec(ExecFailureView),
    Git(GitView),
    Io { context: Seq<char>, io_kind: IoErrorKind, source: Seq<Seq<char>> },
    Transport(TransportView),
    Other { kind: Seq<char> },
}

impl View for Error {
    type V = ErrorView;

    open spec fn view(&self) -> ErrorView {
        match self {
            Error::Incomplete(outcome) => ErrorView::Incomplete(outcome@),
            Error::Overloaded { limit } => ErrorView::Overloaded { limit: limit@ },
            Error::LimitExceeded { limit, max_bytes } => ErrorView::LimitExceeded {
                limit: limit@,
                max_bytes: *max_bytes,
            },
            Error::Unsupported { capability } => ErrorView::Unsupported {
                capability: *capability,
            },
            Error::NotFound { resource, id } => ErrorView::NotFound {
                resource: *resource,
                id: id@,
            },
            Error::NotOwned { resource, id } => ErrorView::NotOwned {
                resource: *resource,
                id: id@,
            },
            Error::InvalidSpec { field, reason } => ErrorView::InvalidSpec {
                field: field@,
                reason: reason@,
            },
            Error::InvalidState { current, action } => ErrorView::InvalidState {
                current: *current,
                action: *action,
            },
            Error::Timeout { operation, elapsed } => ErrorView::Timeout {
                operation: operation@,
                elapsed: nanos_of(*elapsed),
            },
            Error::Auth(auth) => ErrorView::Auth(auth@),
            Error::RateLimited { retry_after } => ErrorView::RateLimited {
                retry_after: opt_nanos(*retry_after),
            },
            Error::Provider(provider) => ErrorView::Provider(provider@),
            Error::Exec(failure) => ErrorView::Exec(failure@),
            Error::Git(failure) => ErrorView::Git(failure@),
            Error::Io { context, io_kind, source } => ErrorView::Io {
                context: context@,
                io_kind: *io_kind,
                source: source@,
            },
            Error::Transport(transport) => ErrorView::Transport(transport@),
            Error::Other { kind } => ErrorView::Other { kind: kind@ },
        }
    }
}

/// An invalid field and why it is.
pub open spec fn invalid_spec(field: Seq<char>, reason: Seq<char>) -> ErrorView {
    ErrorView::InvalidSpec { field, reason }
}

/// A transport failure without a source.
pub open spec fn transport_failure(context: Seq<char>) -> ErrorView {
    ErrorView::Transport(TransportView { context, source: Seq::empty() })
}

/// A transport failure with one rendered source.
pub open spec fn transport_failure_from(context: Seq<char>, source: Seq<char>) -> ErrorView {
    ErrorView::Transport(TransportView { context, source: seq![source] })
}

/// An I/O failure of a kind, with one rendered source.
pub open spec fn io_failure(
    context: Seq<char>,
    io_kind: IoErrorKind,
    source: Seq<char>,
) -> ErrorView {
    ErrorView::Io { context, io_kind, source: seq![source] }
}

/// A refused admission, by the budget that refused it.
pub open spec fn overloaded(limit: Seq<char>) -> ErrorView {
    ErrorView::Overloaded { limit }
}

/// A value over its limit.
pub open spec fn limit_exceeded(limit: Seq<char>, max_bytes: usize) -> ErrorView {
    ErrorView::LimitExceeded { limit, max_bytes }
}

/// A capability that is not offered.
pub open spec fn unsupported(capability: Capability) -> ErrorView {
    ErrorView::Unsupported { capability }
}

impl Error {
    /// An invalid field and why it is.
    pub fn invalid_spec(field: &str, reason: &str) -> (error: Self)
        ensures
            error@ == invalid_spec(field@, reason@),
    {
        Error::InvalidSpec { field: field.to_owned(), reason: reason.to_owned() }
    }

    /// A transport failure without a source.
    pub fn transport(context: &str) -> (error: Self)
        ensures
            error@ == transport_failure(context@),
    {
        Error::Transport(TransportError::new(context))
    }

    /// A transport failure with one rendered source.
    pub fn transport_from(context: &str, source: String) -> (error: Self)
        ensures
            error@ == transport_failure_from(context@, source@),
    {
        Error::Transport(TransportError::with_source(context, source))
    }

    /// An I/O failure: it keeps the kind that it was met with.
    pub fn io(context: &str, source: IoError) -> (error: Self)
        ensures
            error@ == io_failure(context@, source.kind, source.rendered@),
    {
        Error::Io {
            context: context.to_owned(),
            io_kind: source.kind,
            source: RemoteCause::new(source.rendered),
        }
    }

    /// A refused admission, by the budget that refused it.
    pub fn overloaded(limit: &str) -> (error: Self)
        ensures
            error@ == overloaded(limit@),
    {
        Error::Overloaded { limit: limit.to_owned() }
    }

    /// A value over its limit.
    pub fn limit_exceeded(limit: &str, max_bytes: usize) -> (error: Self)
        ensures
            error@ == limit_exceeded(limit@, max_bytes),
    {
        Error::LimitExceeded { limit: limit.to_owned(), max_bytes }
    }

    /// A capability that is not offered.
    pub fn unsupported(capability: Capability) -> (error: Self)
        ensures
            error@ == unsupported(capability),
    {
        Error::Unsupported { capability }
    }
}

/// What a provider or a sandbox offers, as far as the protocol decides on
/// it; the rest is carried as it is.
pub struct Capabilities {
    pub exec_environment: bool,
    pub exec_stdin_stream: bool,
    pub search_native: bool,
    pub services_native: bool,
    pub git_native: bool,
    pub access_shell_command: bool,
    pub access_preview_urls: bool,
    pub access_ssh: bool,
    pub access_ssh_ttl: bool,
    pub access_ssh_revoke: bool,
    pub access_web_terminal: bool,
    pub access_vnc: bool,
    pub snapshots: bool,
    pub volumes: bool,
    pub one_shot: bool,
    pub pty: bool,
    pub logs: bool,
    pub rest: Value,
}

impl Capabilities {
    /// Copies the capabilities.
    pub fn copy(&self) -> (copy: Self)
        ensures
            copy == *self,
    {
        Capabilities {
            exec_environment: self.exec_environment,
            exec_stdin_stream: self.exec_stdin_stream,
            search_native: self.search_native,
            services_native: self.services_native,
            git_native: self.git_native,
            access_shell_command: self.access_shell_command,
            access_preview_urls: self.access_preview_urls,
            access_ssh: self.access_ssh,
            access_ssh_ttl: self.access_ssh_ttl,
            access_ssh_revoke: self.access_ssh_revoke,
            access_web_terminal: self.access_web_terminal,
            access_vnc: self.access_vnc,
            snapshots: self.snapshots,
            volumes: self.volumes,
            one_shot: self.one_shot,
            pty: self.pty,
            logs: self.logs,
            rest: self.rest.clone(),
        }
    }
}

/// Whether a backend answers.
#[derive(Clone, Copy, Debug, PartialEq, Eq, Structural)]
pub enum HealthStatus {
    Healthy,
    Unknown,
    Unreachable,
    Unauthorized,
    Other(u32),
}

/// A provider's report on its backend.
#[derive(Debug)]
pub struct ProviderHealth {
    pub status: HealthStatus,
    pub message: Option<String>,
    pub identity: Option<String>,
    pub missing_permissions: Vec<String>,
}

impl ProviderHealth {
    /// A report with a status and nothing else.
    pub fn new(status: HealthStatus) -> (health: Self)
        ensures
            health.status == status,
            health.message is None,
            health.identity is None,
            health.missing_permissions@ == Seq::<String>::empty(),
    {
        ProviderHealth {
            status,
            message: None,
            identity: None,
            missing_permissions: Vec::new(),
        }
    }
}

/// What a sandbox is made from.
pub enum SandboxSource {
    Image { reference: String },
    Dockerfile { content: String },
    Snapshot { id: String },
    HostDirectory,
    /// A source that the protocol has no shape for.
    Other(u32),
}

/// How a sandbox is to be made.
pub struct SandboxSpec {
    pub name: Option<String>,
    pub source: SandboxSource,
    pub resources: Value,
    pub sandbox_kind: Option<Value>,
    pub env: Table<String>,
    pub labels: Table<String>,
    pub user: Option<String>,
    pub working_directory: Option<String>,
    pub workspace_ownership: Option<Value>,
    pub network: Value,
    pub volumes: Vec<Value>,
    pub timers: Value,
    pub ephemeral: bool,
    pub public: Option<bool>,
    pub region: Option<String>,
    pub provider_config: Value,
}

/// How a sandbox is to be forked: always with its memory and its running
/// processes.
pub struct ForkOptions {
    pub name: Option<String>,
}

/// How a snapshot of a sandbox is to be taken.
pub struct SandboxSnapshotOptions {
    pub name: Option<String>,
    pub mode: SnapshotMode,
}

/// What a snapshot is made from.
pub enum SnapshotSource {
    Image { reference: String },
    Dockerfile { content: String },
    Sandbox { id: String, mode: SnapshotMode },
    /// A source that the protocol has no shape for.
    Other(u32),
}

/// How a snapshot is to be made.
pub struct SnapshotSpec {
    pub name: Option<String>,
    pub source: SnapshotSource,
    pub sandbox_kind: Option<Value>,
    pub region: Option<String>,
    pub resources: Value,
    pub provider_config: Value,
}

/// A command to run.
pub struct ExecSpec {
    pub program: String,
    pub args: Vec<String>,
    pub timeout: Option<Duration>,
    pub stop_grace: Option<Duration>,
    pub working_dir: Option<String>,
    pub env: Table<String>,
    pub output_sanitization: OutputSanitization,
    pub stdin: Option<Vec<u8>>,
}

/// How a command ended and what it wrote.
pub struct ExecResult {
    pub termination: Termination,
    pub exit_code: Option<i32>,
    pub signal: Option<i32>,
    pub duration: Duration,
    pub stdout: Vec<u8>,
    pub stderr: Vec<u8>,
}

/// The accounting of a captured output stream.
pub struct CaptureStats {
    /// Whether output is missing from the capture.
    pub truncated: bool,
    pub counts: Value,
}

/// How a command whose output was streamed ended.
pub struct ExecStreamingResult {
    pub result: ExecResult,
    pub streams_separated: bool,
    pub live_streaming: bool,
    pub stdout_capture: CaptureStats,
    pub stderr_capture: CaptureStats,
    /// What the provider says of output that it lost.
    pub output_loss: Value,
}

/// A length is told in whole milliseconds and microseconds, rounded down, as
/// long as 64 bits hold it.
pub proof fn lengths_are_rounded_down(nanos: nat)
    ensures
        nanos < (u64::MAX + 1) * 1_000_000 ==> millis_of(nanos) * 1_000_000 <= nanos < (millis_of(
            nanos,
        ) + 1) * 1_000_000,
        nanos >= (u64::MAX + 1) * 1_000_000 ==> millis_of(nanos) == u64::MAX,
        nanos < (u64::MAX + 1) * 1_000 ==> micros_of(nanos) * 1_000 <= nanos < (micros_of(nanos)
            + 1) * 1_000,
        nanos >= (u64::MAX + 1) * 1_000 ==> micros_of(nanos) == u64::MAX,
{
}

/// What an error says is all that it holds: two errors that say the same are
/// of one kind and agree in everything that they carry.
pub proof fn errors_that_say_the_same_are_alike(a: Error, b: Error)
    requires
        a@ == b@,
    ensures
        match (a, b) {
            (Error::Incomplete(x), Error::Incomplete(y)) => {
                &&& x.operation@ == y.operation@
                &&& x.output_abandoned == y.output_abandoned
                &&& x.stop_acknowledged == y.stop_acknowledged
                &&& x.termination_confirmed == y.termination_confirmed
                &&& x.cleanup_confirmed == y.cleanup_confirmed
            },
            (Error::Overloaded { limit: x }, Error::Overloaded { limit: y }) => x@ == y@,
            (
                Error::LimitExceeded { limit: x, max_bytes: m },
                Error::LimitExceeded { limit: y, max_bytes: n },
            ) => x@ == y@ && m == n,
            (Error::Unsupported { capability: x }, Error::Unsupported { capability: y }) => x == y,
            (
                Error::NotFound { resource: r, id: x },
                Error::NotFound { resource: s, id: y },
            ) => r == s && x@ == y@,
            (
                Error::NotOwned { resource: r, id: x },
                Error::NotOwned { resource: s, id: y },
            ) => r == s && x@ == y@,
            (
                Error::InvalidSpec { field: f, reason: x },
                Error::InvalidSpec { field: g, reason: y },
            ) => f@ == g@ && x@ == y@,
            (
                Error::InvalidState { current: c, action: x },
                Error::InvalidState { current: d, action: y },
            ) => c == d && x == y,
            (
                Error::Timeout { operation: x, elapsed: s },
                Error::Timeout { operation: y, elapsed: t },
            ) => x@ == y@ && nanos_of(s) == nanos_of(t),
            (Error::Auth(x), Error::Auth(y)) => {
                &&& x.provider@ == y.provider@
                &&& x.reason@ == y.reason@
                &&& opt_chain(x.source) == opt_chain(y.source)
            },
            (Error::RateLimited { retry_after: x }, Error::RateLimited { retry_after: y }) => opt_nanos(
                x,
            ) == opt_nanos(y),
            (Error::Provider(x), Error::Provider(y)) => {
                &&& x.provider@ == y.provider@
                &&& x.message@ == y.message@
                &&& opt_text(x.code) == opt_text(y.code)
                &&& x.retryable == y.retryable
                &&& x.detail == y.detail
                &&& opt_chain(x.source) == opt_chain(y.source)
            },
            (Error::Exec(x), Error::Exec(y)) => {
                &&& x.label@ == y.label@
                &&& x.termination == y.termination
                &&& x.exit_code == y.exit_code
                &&& x.stdout@ == y.stdout@
                &&& x.stderr@ == y.stderr@
                &&& opt_nanos(x.duration) == opt_nanos(y.duration)
            },
            (Error::Git(x), Error::Git(y)) => {
                &&& x.operation@ == y.operation@
                &&& x.kind == y.kind
                &&& x.output is Some == y.output is Some
                &&& x.provider is Some == y.provider is Some
                &&& x.output is Some ==> x.output->Some_0@ == y.output->Some_0@
                &&& x.provider is Some ==> x.provider->Some_0@ == y.provider->Some_0@
            },
            (
                Error::Io { context: c, io_kind: k, source: x },
                Error::Io { context: d, io_kind: l, source: y },
            ) => c@ == d@ && k == l && x@ == y@,
            (Error::Transport(x), Error::Transport(y)) => {
                &&& x.context@ == y.context@
                &&& opt_chain(x.source) == opt_chain(y.source)
            },
            (Error::Other { kind: x }, Error::Other { kind: y }) => x@ == y@,
            _ => false,
        },
{
}

/// A chain of messages says every message that it holds, outermost first.
pub proof fn a_chain_says_every_message(cause: RemoteCause)
    ensures
        cause@.len() > 0,
        cause@[0] == cause.message@,
        cause.source is None ==> cause@.len() == 1,
        cause.source is Some ==> cause@.skip(1) == cause.source->Some_0@,
{
    if cause.source is Some {
        assert(cause@.skip(1) =~= cause.source->Some_0.chain());
    }
}

/// The failures that the library reports are of the kind and say the words
/// that they are made with.
pub proof fn reported_failures_say_their_words(
    words: Seq<char>,
    more: Seq<char>,
    max: usize,
    capability: Capability,
    kind: IoErrorKind,
)
    ensures
        invalid_spec(words, more) matches ErrorView::InvalidSpec { field, reason } && field == words
            && reason == more,
        transport_failure(words) matches ErrorView::Transport(failure) && failure.context == words
            && failure.source.len() == 0,
        transport_failure_from(words, more) matches ErrorView::Transport(failure)
            && failure.context == words && failure.source == seq![more],
        io_failure(words, kind, more) matches ErrorView::Io { context, io_kind, source } && context
            == words && io_kind == kind && source == seq![more],
        overloaded(words) matches ErrorView::Overloaded { limit } && limit == words,
        limit_exceeded(words, max) matches ErrorView::LimitExceeded { limit, max_bytes } && limit
            == words && max_bytes == max,
        unsupported(capability) matches ErrorView::Unsupported { capability: told } && told
            == capability,
        fresh_incomplete(words).operation == words,
        fresh_incomplete(words).output_abandoned,
        !fresh_incomplete(words).stop_acknowledged,
        !fresh_incomplete(words).termination_confirmed,
        !fresh_incomplete(words).cleanup_confirmed,
{
}

} // verus!
