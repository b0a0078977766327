//! The JSON-RPC 2.0 envelope and the error mapping.
//!
//! Requests carry a number; notifications carry none. Answers may come out
//! of order. The only bytes that cross in JSON are the output samples inside
//! an `exec` error.

use crate::driver::{
    millis_of, nanos_of, opt_nanos, remote_cause, saturating_millis, Action, AuthError, AuthView,
    Capability, Error, ErrorView, ExecFailure, ExecFailureView, GitFailure, GitFailureKind,
    GitView, IncompleteOperation, IncompleteView, IoErrorKind, ProviderError, ProviderView,
    RemoteCause, ResourceKind, SandboxState, Termination, TransportError, TransportView,
};
use crate::text::{
    copy_opt_text, decimal, decimal_text, opt_text, same_text, signed_decimal, signed_text, texts,
};
use base64::engine::general_purpose::STANDARD as BASE64;
use base64::Engine;
use serde_json::Value;
use std::time::Duration;
use vstd::prelude::*;

verus! {

/// The version every message names.
pub const JSONRPC_VERSION: &'static str = "2.0";

/// Application-level failure: a typed error.
pub const CODE_APPLICATION: i64 = -32000;

/// Malformed request or parameters.
pub const CODE_INVALID_REQUEST: i64 = -32600;

/// Unknown method.
pub const CODE_METHOD_NOT_FOUND: i64 = -32601;

/// The bounded report of an error: what the driver renders of it.
#[derive(Debug)]
pub struct ErrorReport {
    pub kind: String,
    pub message: String,
    pub retryable: bool,
    pub causes: Vec<String>,
}

/// A command's failure as it crosses: output samples in base64, whole
/// milliseconds.
#[derive(Debug)]
pub struct ExecDetail {
    pub label: String,
    pub termination: Termination,
    pub exit_code: Option<i32>,
    pub stdout_b64: String,
    pub stderr_b64: String,
    pub duration_ms: Option<u64>,
}

/// What an [`ExecDetail`] says.
pub struct ExecDetailView {
    pub label: Seq<char>,
    pub termination: Termination,
    pub exit_code: Option<i32>,
    pub stdout_b64: Seq<char>,
    pub stderr_b64: Seq<char>,
    pub duration_ms: Option<u64>,
}

impl View for ExecDetail {
    type V = ExecDetailView;

    open spec fn view(&self) -> ExecDetailView {
        ExecDetailView {
            label: self.label@,
            termination: self.termination,
            exit_code: self.exit_code,
            stdout_b64: self.stdout_b64@,
            stderr_b64: self.stderr_b64@,
            duration_ms: self.duration_ms,
        }
    }
}

/// A provider error without its in-process source.
#[derive(Debug)]
pub struct ProviderDetail {
    pub provider: String,
    pub message: String,
    pub code: Option<String>,
    pub retryable: bool,
    pub detail: Option<Value>,
}

/// What a [`ProviderDetail`] says.
pub struct ProviderDetailView {
    pub provider: Seq<char>,
    pub message: Seq<char>,
    pub code: Option<Seq<char>>,
    pub retryable: bool,
    pub detail: Option<Value>,
}

impl View for ProviderDetail {
    type V = ProviderDetailView;

    open spec fn view(&self) -> ProviderDetailView {
        ProviderDetailView {
            provider: self.provider@,
            message: self.message@,
            code: opt_text(self.code),
            retryable: self.retryable,
            detail: self.detail,
        }
    }
}

/// A classified git failure as it crosses.
#[derive(Debug)]
pub struct GitDetail {
    pub operation: String,
    pub kind: GitFailureKind,
    pub output: Option<ExecDetail>,
    pub provider: Option<ProviderDetail>,
}

/// What a [`GitDetail`] says.
pub struct GitDetailView {
    pub operation: Seq<char>,
    pub kind: GitFailureKind,
    pub output: Option<ExecDetailView>,
    pub provider: Option<ProviderDetailView>,
}

impl View for GitDetail {
    type V = GitDetailView;

    open spec fn view(&self) -> GitDetailView {
        GitDetailView {
            operation: self.operation@,
            kind: self.kind,
            output: match self.output {
                Some(output) => Some(output@),
                None => None,
            },
            provider: match self.provider {
                Some(provider) => Some(provider@),
                None => None,
            },
        }
    }
}

/// The fields beside a report that its kind needs to be rebuilt from.
#[derive(Debug)]
pub enum ErrorDetail {
    Incomplete { incomplete: IncompleteOperation },
    /// Admission was refused before any work started, which `not_started`
    /// says outright.
    Overloaded { limit: String, not_started: bool },
    Limit { limit: String, max_bytes: usize },
    Unsupported { capability: Capability },
    Resource { resource: ResourceKind, id: String },
    InvalidSpec { field: String, reason: String },
    InvalidState { current: SandboxState, action: Action },
    Timeout { operation: String, elapsed: Duration },
    Auth { provider: String, reason: String },
    RateLimited { retry_after: Option<Duration> },
    Provider { upstream: ProviderDetail },
    Exec { failure: ExecDetail },
    Git { git: GitDetail },
    Io { io_context: String },
    Transport { transport_context: String },
    /// No field that a kind could be read from.
    Empty,
}

/// What an [`ErrorDetail`] says.
pub enum ErrorDetailView {
    Incomplete { incomplete: IncompleteView },
    Overloaded { limit: Seq<char>, not_started: bool },
    Limit { limit: Seq<char>, max_bytes: usize },
    Unsupported { capability: Capability },
    Resource { resource: ResourceKind, id: Seq<char> },
    InvalidSpec { field: Seq<char>, reason: Seq<char> },
    InvalidState { current: SandboxState, action: Action },
    Timeout { operation: Seq<char>, elapsed: nat },
    Auth { provider: Seq<char>, reason: Seq<char> },
    RateLimited { retry_after: Option<nat> },
    Provider { upstream: ProviderDetailView },
    Exec { failure: ExecDetailView },
    Git { git: GitDetailView },
    Io { io_context: Seq<char> },
    Transport { transport_context: Seq<char> },
    Empty,
}

impl View for ErrorDetail {
    type V = ErrorDetailView;

    open spec fn view(&self) -> ErrorDetailView {
        match self {
            ErrorDetail::Incomplete { incomplete } => ErrorDetailView::Incomplete {
                incomplete: incomplete@,
            },
            ErrorDetail::Overloaded { limit, not_started } => ErrorDetailView::Overloaded {
                limit: limit@,
                not_started: *not_started,
            },
            ErrorDetail::Limit { limit, max_bytes } => ErrorDetailView::Limit {
                limit: limit@,
                max_bytes: *max_bytes,
            },
            ErrorDetail::Unsupported { capability } => ErrorDetailView::Unsupported {
                capability: *capability,
            },
            ErrorDetail::Resource { resource, id } => ErrorDetailView::Resource {
                resource: *resource,
                id: id@,
            },
            ErrorDetail::InvalidSpec { field, reason } => ErrorDetailView::InvalidSpec {
                field: field@,
                reason: reason@,
            },
            ErrorDetail::InvalidState { current, action } => ErrorDetailView::InvalidState {
                current: *current,
                action: *action,
            },
            ErrorDetail::Timeout { operation, elapsed } => ErrorDetailView::Timeout {
                operation: operation@,
                elapsed: nanos_of(*elapsed),
            },
            ErrorDetail::Auth { provider, reason } => ErrorDetailView::Auth {
                provider: provider@,
                reason: reason@,
            },
            ErrorDetail::RateLimited { retry_after } => ErrorDetailView::RateLimited {
                retry_after: opt_nanos(*retry_after),
            },
            ErrorDetail::Provider { upstream } => ErrorDetailView::Provider {
                upstream: upstream@,
            },
            ErrorDetail::Exec { failure } => ErrorDetailView::Exec { failure: failure@ },
            ErrorDetail::Git { git } => ErrorDetailView::Git { git: git@ },
            ErrorDetail::Io { io_context } => ErrorDetailView::Io { io_context: io_context@ },
            ErrorDetail::Transport { transport_context } => ErrorDetailView::Transport {
                transport_context: transport_context@,
            },
            ErrorDetail::Empty => ErrorDetailView::Empty,
        }
    }
}

/// The structured payload of an error: the report plus what rebuilds the
/// typed error.
#[derive(Debug)]
pub struct WireErrorData {
    pub report: ErrorReport,
    pub detail: ErrorDetail,
}

/// The JSON-RPC error object.
#[derive(Debug)]
pub struct WireError {
    pub code: i64,
    pub message: String,
    pub data: Option<WireErrorData>,
}

/// One incoming or outgoing JSON-RPC message.
pub struct Message {
    pub jsonrpc: String,
    pub id: Option<u64>,
    pub method: Option<String>,
    pub params: Option<Value>,
    pub result: Option<Value>,
    pub error: Option<WireError>,
}

/// Bytes in the standard base64 alphabet with padding, as
/// `Engine::encode` of `base64::engine::general_purpose::STANDARD` gives
/// them.
pub uninterp spec fn base64_encoded(bytes: Seq<u8>) -> Seq<char>;

/// What `Engine::decode` of `base64::engine::general_purpose::STANDARD`
/// makes of a text: the bytes, or the rendered error.
pub uninterp spec fn base64_decoded(text: Seq<char>) -> Result<Seq<u8>, Seq<char>>;

/// Whether a text decodes to exactly these bytes.
pub open spec fn decodes_to(text: Seq<char>, bytes: Seq<u8>) -> bool {
    base64_decoded(text) matches Ok(decoded) && decoded == bytes
}

/// Whether the encoding of bytes fits in memory.
pub open spec fn fits_base64(bytes: Seq<u8>) -> bool {
    bytes.len() <= usize::MAX / 4
}

/// `Engine::encode` of the standard engine. The result is the engine's
/// encoding of the bytes, and the engine's own decoding gives them back.
#[verifier::external_body]
fn standard_encode(bytes: &[u8]) -> (text: String)
    requires
        fits_base64(bytes@),
    ensures
        text@ == base64_encoded(bytes@),
        decodes_to(text@, bytes@),
{
    BASE64.encode(bytes)
}

/// `Engine::decode` of the standard engine. The result is the engine's
/// decoding of the text, with its error rendered.
#[verifier::external_body]
fn standard_decode(text: &str) -> (bytes: Result<Vec<u8>, String>)
    ensures
        match bytes {
            Ok(bytes) => decodes_to(text@, bytes@),
            Err(error) => base64_decoded(text@) matches Err(rendered) && rendered == error@,
        },
{
    BASE64.decode(text).map_err(|error| error.to_string())
}

/// Encodes bytes for a JSON string.
pub fn encode_bytes(bytes: &[u8]) -> (text: String)
    requires
        fits_base64(bytes@),
    ensures
        text@ == base64_encoded(bytes@),
        decodes_to(text@, bytes@),
{
    standard_encode(bytes)
}

/// Decodes the bytes of a JSON string.
pub fn decode_bytes(text: &str) -> (bytes: Result<Vec<u8>, Error>)
    ensures
        match bytes {
            Ok(bytes) => decodes_to(text@, bytes@),
            Err(error) => {
                &&& base64_decoded(text@) is Err
                &&& error@ == crate::driver::invalid_spec("base64"@, base64_decoded(text@)->Err_0)
            },
        },
{
    match standard_decode(text) {
        Ok(bytes) => Ok(bytes),
        Err(error) => Err(Error::invalid_spec("base64", error.as_str())),
    }
}

/// Whether the output samples of a failure can be encoded.
pub open spec fn failure_fits(failure: ExecFailureView) -> bool {
    fits_base64(failure.stdout) && fits_base64(failure.stderr)
}

/// The wire form of a command's failure.
pub open spec fn exec_detail_of(failure: ExecFailureView) -> ExecDetailView {
    ExecDetailView {
        label: failure.label,
        termination: failure.termination,
        exit_code: failure.exit_code,
        stdout_b64: base64_encoded(failure.stdout),
        stderr_b64: base64_encoded(failure.stderr),
        duration_ms: match failure.duration {
            Some(duration) => Some(millis_of(duration)),
            None => None,
        },
    }
}

/// Whether the output samples of a failure survive their encoding.
pub open spec fn samples_decode(failure: ExecFailureView) -> bool {
    &&& decodes_to(base64_encoded(failure.stdout), failure.stdout)
    &&& decodes_to(base64_encoded(failure.stderr), failure.stderr)
}

/// The wire form of a command's failure.
pub fn exec_detail(failure: &ExecFailure) -> (detail: ExecDetail)
    requires
        failure_fits(failure@),
    ensures
        detail@ == exec_detail_of(failure@),
        samples_decode(failure@),
{
    ExecDetail {
        label: failure.label.clone(),
        termination: failure.termination,
        exit_code: failure.exit_code,
        stdout_b64: encode_bytes(failure.stdout.as_slice()),
        stderr_b64: encode_bytes(failure.stderr.as_slice()),
        duration_ms: match &failure.duration {
            Some(duration) => Some(saturating_millis(duration)),
            None => None,
        },
    }
}

/// The failure that a wire form describes, if its samples decode.
pub open spec fn exec_failure_of(detail: ExecDetailView) -> Option<ExecFailureView> {
    match (base64_decoded(detail.stdout_b64), base64_decoded(detail.stderr_b64)) {
        (Ok(stdout), Ok(stderr)) => Some(
            ExecFailureView {
                label: detail.label,
                termination: detail.termination,
                exit_code: detail.exit_code,
                stdout,
                stderr,
                duration: match detail.duration_ms {
                    Some(millis) => Some((millis * 1_000_000) as nat),
                    None => None,
                },
            },
        ),
        _ => None,
    }
}

/// Rebuilds a command's failure from its wire form.
pub fn exec_failure(detail: ExecDetail) -> (failure: Option<ExecFailure>)
    ensures
        match failure {
            Some(failure) => exec_failure_of(detail@) == Some(failure@),
            None => exec_failure_of(detail@) is None,
        },
{
    let stdout = match decode_bytes(detail.stdout_b64.as_str()) {
        Ok(stdout) => stdout,
        Err(_) => {
            return None;
        },
    };
    let stderr = match decode_bytes(detail.stderr_b64.as_str()) {
        Ok(stderr) => stderr,
        Err(_) => {
            return None;
        },
    };
    Some(
        ExecFailure {
            label: detail.label,
            termination: detail.termination,
            exit_code: detail.exit_code,
            stdout,
            stderr,
            duration: match detail.duration_ms {
                Some(millis) => Some(Duration::from_millis(millis)),
                None => None,
            },
        },
    )
}

/// A provider error without its source.
pub open spec fn provider_copy_of(provider: ProviderView) -> ProviderDetailView {
    ProviderDetailView {
        provider: provider.provider,
        message: provider.message,
        code: provider.code,
        retryable: provider.retryable,
        detail: provider.detail,
    }
}

/// Copies a provider error without its in-process source, for the wire.
pub fn provider_copy(provider: &ProviderError) -> (copy: ProviderDetail)
    ensures
        copy@ == provider_copy_of(provider@),
{
    ProviderDetail {
        provider: provider.provider.clone(),
        message: provider.message.clone(),
        code: copy_opt_text(&provider.code),
        retryable: provider.retryable,
        detail: match &provider.detail {
            Some(detail) => Some(detail.clone()),
            None => None,
        },
    }
}

/// The provider error that a wire form describes, with this source.
pub open spec fn provider_of(detail: ProviderDetailView, source: Seq<Seq<char>>) -> ProviderView {
    ProviderView {
        provider: detail.provider,
        message: detail.message,
        code: detail.code,
        retryable: detail.retryable,
        detail: detail.detail,
        source,
    }
}

fn provider_with(detail: ProviderDetail, source: Option<RemoteCause>) -> (provider: ProviderError)
    ensures
        provider@ == provider_of(detail@, crate::driver::opt_chain(source)),
{
    ProviderError {
        provider: detail.provider,
        message: detail.message,
        code: detail.code,
        retryable: detail.retryable,
        detail: detail.detail,
        source,
    }
}

/// The name under which an error's kind crosses.
pub open spec fn kind_of(error: ErrorView) -> Seq<char> {
    match error {
        ErrorView::Incomplete(_) => "incomplete"@,
        ErrorView::Overloaded { .. } => "overloaded"@,
        ErrorView::LimitExceeded { .. } => "limit_exceeded"@,
        ErrorView::Unsupported { .. } => "unsupported"@,
        ErrorView::NotFound { .. } => "not_found"@,
        ErrorView::NotOwned { .. } => "not_owned"@,
        ErrorView::InvalidSpec { .. } => "invalid_spec"@,
        ErrorView::InvalidState { .. } => "invalid_state"@,
        ErrorView::Timeout { .. } => "timeout"@,
        ErrorView::Auth(_) => "auth"@,
        ErrorView::RateLimited { .. } => "rate_limited"@,
        ErrorView::Provider(_) => "provider"@,
        ErrorView::Exec(_) => "exec"@,
        ErrorView::Git(_) => "git"@,
        ErrorView::Io { .. } => "io"@,
        ErrorView::Transport(_) => "transport"@,
        ErrorView::Other { kind } => kind,
    }
}

/// The rendered source chain of an error, where its type carries one.
pub open spec fn causes_of(error: ErrorView) -> Seq<Seq<char>> {
    match error {
        ErrorView::Auth(auth) => auth.source,
        ErrorView::Provider(provider) => provider.source,
        ErrorView::Io { source, .. } => source,
        ErrorView::Transport(transport) => transport.source,
        _ => Seq::empty(),
    }
}

impl Error {
    /// The name under which this error's kind crosses.
    pub fn kind(&self) -> (kind: String)
        ensures
            kind@ == kind_of(self@),
    {
        match self {
            Error::Incomplete(_) => "incomplete".to_owned(),
            Error::Overloaded { .. } => "overloaded".to_owned(),
            Error::LimitExceeded { .. } => "limit_exceeded".to_owned(),
            Error::Unsupported { .. } => "unsupported".to_owned(),
            Error::NotFound { .. } => "not_found".to_owned(),
            Error::NotOwned { .. } => "not_owned".to_owned(),
            Error::InvalidSpec { .. } => "invalid_spec".to_owned(),
            Error::InvalidState { .. } => "invalid_state".to_owned(),
            Error::Timeout { .. } => "timeout".to_owned(),
            Error::Auth(_) => "auth".to_owned(),
            Error::RateLimited { .. } => "rate_limited".to_owned(),
            Error::Provider(_) => "provider".to_owned(),
            Error::Exec(_) => "exec".to_owned(),
            Error::Git(_) => "git".to_owned(),
            Error::Io { .. } => "io".to_owned(),
            Error::Transport(_) => "transport".to_owned(),
            Error::Other { kind } => kind.clone(),
        }
    }

    /// The rendered source chain of this error, outermost first.
    pub fn causes(&self) -> (causes: Vec<String>)
        ensures
            texts(causes@) == causes_of(self@),
    {
        let source = match self {
            Error::Auth(auth) => &auth.source,
            Error::Provider(provider) => &provider.source,
            Error::Io { source, .. } => {
                return source.messages();
            },
            Error::Transport(transport) => &transport.source,
            _ => &None,
        };
        match source {
            Some(source) => source.messages(),
            None => {
                let causes: Vec<String> = Vec::new();
                assert(texts(causes@) =~= Seq::empty());
                causes
            },
        }
    }
}

/// Whether the output samples an error carries can be encoded.
pub open spec fn error_fits(error: ErrorView) -> bool {
    match error {
        ErrorView::Exec(failure) => failure_fits(failure),
        ErrorView::Git(failure) => match failure.output {
            Some(output) => failure_fits(output),
            None => true,
        },
        _ => true,
    }
}

/// The detail that crosses beside an error's report.
pub open spec fn detail_for(error: ErrorView) -> ErrorDetailView {
    match error {
        ErrorView::Incomplete(outcome) => ErrorDetailView::Incomplete { incomplete: outcome },
        ErrorView::Overloaded { limit } => ErrorDetailView::Overloaded {
            limit,
            not_started: true,
        },
        ErrorView::LimitExceeded { limit, max_bytes } => ErrorDetailView::Limit {
            limit,
            max_bytes,
        },
        ErrorView::Unsupported { capability } => ErrorDetailView::Unsupported { capability },
        ErrorView::NotFound { resource, id } => ErrorDetailView::Resource { resource, id },
        ErrorView::NotOwned { resource, id } => ErrorDetailView::Resource { resource, id },
        ErrorView::InvalidSpec { field, reason } => ErrorDetailView::InvalidSpec {
            field,
            reason,
        },
        ErrorView::InvalidState { current, action } => ErrorDetailView::InvalidState {
            current,
            action,
        },
        ErrorView::Timeout { operation, elapsed } => ErrorDetailView::Timeout {
            operation,
            elapsed,
        },
        ErrorView::Auth(auth) => ErrorDetailView::Auth {
            provider: auth.provider,
            reason: auth.reason,
        },
        ErrorView::RateLimited { retry_after } => ErrorDetailView::RateLimited { retry_after },
        ErrorView::Provider(provider) => ErrorDetailView::Provider {
            upstream: provider_copy_of(provider),
        },
        ErrorView::Exec(failure) => ErrorDetailView::Exec { failure: exec_detail_of(failure) },
        ErrorView::Git(failure) => ErrorDetailView::Git {
            git: GitDetailView {
                operation: failure.operation,
                kind: failure.kind,
                output: match failure.output {
                    Some(output) => Some(exec_detail_of(output)),
                    None => None,
                },
                provider: match failure.provider {
                    Some(provider) => Some(provider_copy_of(provider)),
                    None => None,
                },
            },
        },
        ErrorView::Io { context, .. } => ErrorDetailView::Io { io_context: context },
        ErrorView::Transport(transport) => ErrorDetailView::Transport {
            transport_context: transport.context,
        },
        ErrorView::Other { .. } => ErrorDetailView::Empty,
    }
}

/// Whether every output sample an error carries survives its encoding.
pub open spec fn error_samples_decode(error: ErrorView) -> bool {
    match error {
        ErrorView::Exec(failure) => samples_decode(failure),
        ErrorView::Git(failure) => match failure.output {
            Some(output) => samples_decode(output),
            None => true,
        },
        _ => true,
    }
}

/// The kind-specific detail for an error, or an empty one for a kind that
/// needs none.
pub fn detail_of(error: &Error) -> (detail: ErrorDetail)
    requires
        error_fits(error@),
    ensures
        detail@ == detail_for(error@),
        error_samples_decode(error@),
{
    match error {
        Error::Incomplete(outcome) => ErrorDetail::Incomplete { incomplete: outcome.copy() },
        Error::Overloaded { limit } => ErrorDetail::Overloaded {
            limit: limit.clone(),
            not_started: true,
        },
        Error::LimitExceeded { limit, max_bytes } => ErrorDetail::Limit {
            limit: limit.clone(),
            max_bytes: *max_bytes,
        },
        Error::Unsupported { capability } => ErrorDetail::Unsupported { capability: *capability },
        Error::NotFound { resource, id } => ErrorDetail::Resource {
            resource: *resource,
            id: id.clone(),
        },
        Error::NotOwned { resource, id } => ErrorDetail::Resource {
            resource: *resource,
            id: id.clone(),
        },
        Error::InvalidSpec { field, reason } => ErrorDetail::InvalidSpec {
            field: field.clone(),
            reason: reason.clone(),
        },
        Error::InvalidState { current, action } => ErrorDetail::InvalidState {
            current: *current,
            action: *action,
        },
        Error::Timeout { operation, elapsed } => ErrorDetail::Timeout {
            operation: operation.clone(),
            elapsed: *elapsed,
        },
        Error::Auth(auth) => ErrorDetail::Auth {
            provider: auth.provider.clone(),
            reason: auth.reason.clone(),
        },
        Error::RateLimited { retry_after } => ErrorDetail::RateLimited {
            retry_after: *retry_after,
        },
        Error::Provider(provider) => ErrorDetail::Provider { upstream: provider_copy(provider) },
        Error::Exec(failure) => ErrorDetail::Exec { failure: exec_detail(failure) },
        Error::Git(failure) => ErrorDetail::Git {
            git: GitDetail {
                operation: failure.operation.clone(),
                kind: failure.kind,
                output: match &failure.output {
                    Some(output) => Some(exec_detail(output)),
                    None => None,
                },
                provider: match &failure.provider {
                    Some(provider) => Some(provider_copy(provider)),
                    None => None,
                },
            },
        },
        Error::Io { context, .. } => ErrorDetail::Io { io_context: context.clone() },
        Error::Transport(transport) => ErrorDetail::Transport {
            transport_context: transport.context.clone(),
        },
        Error::Other { .. } => ErrorDetail::Empty,
    }
}

/// The git failure that a wire form describes: output that does not decode
/// is left out.
pub open spec fn git_failure_of(git: GitDetailView) -> GitView {
    GitView {
        operation: git.operation,
        kind: git.kind,
        output: match git.output {
            Some(output) => exec_failure_of(output),
            None => None,
        },
        provider: match git.provider {
            Some(provider) => Some(provider_of(provider, Seq::empty())),
            None => None,
        },
    }
}

/// The typed error that a kind, its detail and the rendered causes describe,
/// or nothing where the kind is unknown or the detail is not the kind's.
pub open spec fn typed_error_for(
    kind: Seq<char>,
    detail: ErrorDetailView,
    causes: Seq<Seq<char>>,
) -> Option<ErrorView> {
    if kind == "incomplete"@ {
        match detail {
            ErrorDetailView::Incomplete { incomplete } => Some(ErrorView::Incomplete(incomplete)),
            _ => None,
        }
    } else if kind == "overloaded"@ {
        match detail {
            ErrorDetailView::Overloaded { limit, not_started: true } => Some(
                ErrorView::Overloaded { limit },
            ),
            _ => None,
        }
    } else if kind == "limit_exceeded"@ {
        match detail {
            ErrorDetailView::Limit { limit, max_bytes } => Some(
                ErrorView::LimitExceeded { limit, max_bytes },
            ),
            _ => None,
        }
    } else if kind == "unsupported"@ {
        match detail {
            ErrorDetailView::Unsupported { capability } => Some(
                ErrorView::Unsupported { capability },
            ),
            _ => None,
        }
    } else if kind == "not_found"@ {
        match detail {
            ErrorDetailView::Resource { resource, id } => Some(
                ErrorView::NotFound { resource, id },
            ),
            _ => None,
        }
    } else if kind == "not_owned"@ {
        match detail {
            ErrorDetailView::Resource { resource, id } => Some(
                ErrorView::NotOwned { resource, id },
            ),
            _ => None,
        }
    } else if kind == "invalid_spec"@ {
        match detail {
            ErrorDetailView::InvalidSpec { field, reason } => Some(
                ErrorView::InvalidSpec { field, reason },
            ),
            _ => None,
        }
    } else if kind == "invalid_state"@ {
        match detail {
            ErrorDetailView::InvalidState { current, action } => Some(
                ErrorView::InvalidState { current, action },
            ),
            _ => None,
        }
    } else if kind == "timeout"@ {
        match detail {
            ErrorDetailView::Timeout { operation, elapsed } => Some(
                ErrorView::Timeout { operation, elapsed },
            ),
            _ => None,
        }
    } else if kind == "auth"@ {
        match detail {
            ErrorDetailView::Auth { provider, reason } => Some(
                ErrorView::Auth(AuthView { provider, reason, source: causes }),
            ),
            _ => None,
        }
    } else if kind == "rate_limited"@ {
        match detail {
            ErrorDetailView::RateLimited { retry_after } => Some(
                ErrorView::RateLimited { retry_after },
            ),
            _ => Some(ErrorView::RateLimited { retry_after: None }),
        }
    } else if kind == "provider"@ {
        match detail {
            ErrorDetailView::Provider { upstream } => Some(
                ErrorView::Provider(provider_of(upstream, causes)),
            ),
            _ => None,
        }
    } else if kind == "exec"@ {
        match detail {
            ErrorDetailView::Exec { failure } => match exec_failure_of(failure) {
                Some(failure) => Some(ErrorView::Exec(failure)),
                None => None,
            },
            _ => None,
        }
    } else if kind == "git"@ {
        match detail {
            ErrorDetailView::Git { git } => Some(ErrorView::Git(git_failure_of(git))),
            _ => None,
        }
    } else if kind == "io"@ {
        match detail {
            ErrorDetailView::Io { io_context } => Some(
                ErrorView::Io {
                    context: io_context,
                    io_kind: IoErrorKind::Unspecified,
                    source: if causes.len() == 0 {
                        seq!["remote I/O failure"@]
                    } else {
                        causes
                    },
                },
            ),
            _ => None,
        }
    } else if kind == "transport"@ {
        match detail {
            ErrorDetailView::Transport { transport_context } => Some(
                ErrorView::Transport(TransportView { context: transport_context, source: causes }),
            ),
            _ => None,
        }
    } else {
        None
    }
}

/// The view of an optional error.
pub open spec fn opt_error(error: Option<Error>) -> Option<ErrorView> {
    match error {
        Some(error) => Some(error@),
        None => None,
    }
}

/// Rebuilds the typed error that a kind and its detail describe, or gives
/// nothing where the kind is unknown here or the detail lacks what the kind
/// needs. The rendered causes come back as the source where the error's type
/// carries one.
pub fn typed_error(kind: &str, detail: ErrorDetail, causes: &[String]) -> (error: Option<Error>)
    ensures
        opt_error(error) == typed_error_for(kind@, detail@, texts(causes@)),
{
    if same_text(kind, "incomplete") {
        match detail {
            ErrorDetail::Incomplete { incomplete } => Some(Error::Incomplete(incomplete)),
            _ => None,
        }
    } else if same_text(kind, "overloaded") {
        match detail {
            ErrorDetail::Overloaded { limit, not_started } => {
                if not_started {
                    Some(Error::Overloaded { limit })
                } else {
                    None
                }
            },
            _ => None,
        }
    } else if same_text(kind, "limit_exceeded") {
        match detail {
            ErrorDetail::Limit { limit, max_bytes } => Some(
                Error::LimitExceeded { limit, max_bytes },
            ),
            _ => None,
        }
    } else if same_text(kind, "unsupported") {
        match detail {
            ErrorDetail::Unsupported { capability } => Some(Error::Unsupported { capability }),
            _ => None,
        }
    } else if same_text(kind, "not_found") {
        match detail {
            ErrorDetail::Resource { resource, id } => Some(Error::NotFound { resource, id }),
            _ => None,
        }
    } else if same_text(kind, "not_owned") {
        match detail {
            ErrorDetail::Resource { resource, id } => Some(Error::NotOwned { resource, id }),
            _ => None,
        }
    } else if same_text(kind, "invalid_spec") {
        match detail {
            ErrorDetail::InvalidSpec { field, reason } => Some(
                Error::InvalidSpec { field, reason },
            ),
            _ => None,
        }
    } else if same_text(kind, "invalid_state") {
        match detail {
            ErrorDetail::InvalidState { current, action } => Some(
                Error::InvalidState { current, action },
            ),
            _ => None,
        }
    } else if same_text(kind, "timeout") {
        match detail {
            ErrorDetail::Timeout { operation, elapsed } => Some(
                Error::Timeout { operation, elapsed },
            ),
            _ => None,
        }
    } else if same_text(kind, "auth") {
        match detail {
            ErrorDetail::Auth { provider, reason } => Some(
                Error::Auth(AuthError { provider, reason, source: remote_cause(causes) }),
            ),
            _ => None,
        }
    } else if same_text(kind, "rate_limited") {
        // A rate limit needs no detail at all: without one it still reads as
        // rate limited, retry time unknown.
        match detail {
            ErrorDetail::RateLimited { retry_after } => Some(Error::RateLimited { retry_after }),
            _ => Some(Error::RateLimited { retry_after: None }),
        }
    } else if same_text(kind, "provider") {
        match detail {
            ErrorDetail::Provider { upstream } => Some(
                Error::Provider(provider_with(upstream, remote_cause(causes))),
            ),
            _ => None,
        }
    } else if same_text(kind, "exec") {
        match detail {
            ErrorDetail::Exec { failure } => match exec_failure(failure) {
                Some(failure) => Some(Error::Exec(failure)),
                None => None,
            },
            _ => None,
        }
    } else if same_text(kind, "git") {
        match detail {
            ErrorDetail::Git { git } => {
                let output = match git.output {
                    Some(output) => exec_failure(output),
                    None => None,
                };
                let provider = match git.provider {
                    Some(provider) => Some(provider_with(provider, None)),
                    None => None,
                };
                Some(
                    Error::Git(
                        GitFailure { operation: git.operation, kind: git.kind, output, provider },
                    ),
                )
            },
            _ => None,
        }
    } else if same_text(kind, "io") {
        match detail {
            ErrorDetail::Io { io_context } => {
                let source = match remote_cause(causes) {
                    Some(source) => source,
                    None => RemoteCause::new("remote I/O failure".to_owned()),
                };
                Some(Error::Io { context: io_context, io_kind: IoErrorKind::Unspecified, source })
            },
            _ => None,
        }
    } else if same_text(kind, "transport") {
        match detail {
            ErrorDetail::Transport { transport_context } => Some(
                Error::Transport(
                    TransportError { context: transport_context, source: remote_cause(causes) },
                ),
            ),
            _ => None,
        }
    } else {
        None
    }
}

/// What an [`ErrorReport`] says.
pub struct ReportView {
    pub kind: Seq<char>,
    pub message: Seq<char>,
    pub retryable: bool,
    pub causes: Seq<Seq<char>>,
}

impl View for ErrorReport {
    type V = ReportView;

    open spec fn view(&self) -> ReportView {
        ReportView {
            kind: self.kind@,
            message: self.message@,
            retryable: self.retryable,
            causes: texts(self.causes@),
        }
    }
}

/// What a [`WireErrorData`] says.
pub struct WireErrorDataView {
    pub report: ReportView,
    pub detail: ErrorDetailView,
}

/// What a [`WireError`] says.
pub struct WireErrorView {
    pub code: i64,
    pub message: Seq<char>,
    pub data: Option<WireErrorDataView>,
}

impl View for WireError {
    type V = WireErrorView;

    open spec fn view(&self) -> WireErrorView {
        WireErrorView {
            code: self.code,
            message: self.message@,
            data: match self.data {
                Some(data) => Some(
                    WireErrorDataView { report: data.report@, detail: data.detail@ },
                ),
                None => None,
            },
        }
    }
}

/// The kind that stands for a provider this side knows nothing of.
pub const UNKNOWN_KIND: &'static str = "plugin";

/// A provider failure of the plugin as a whole.
pub open spec fn plugin_failure(message: Seq<char>, retryable: bool, code: Seq<char>) -> ErrorView {
    ErrorView::Provider(
        ProviderView {
            provider: UNKNOWN_KIND@,
            message,
            code: Some(code),
            retryable,
            detail: None,
            source: Seq::empty(),
        },
    )
}

/// The wire form of an error with this report.
pub open spec fn wire_form(error: ErrorView, report: ReportView) -> WireErrorView {
    WireErrorView {
        code: CODE_APPLICATION,
        message: report.message,
        data: Some(WireErrorDataView { report, detail: detail_for(error) }),
    }
}

/// The closest typed error to a wire form.
pub open spec fn error_in(wire: WireErrorView) -> ErrorView {
    match wire.data {
        None => plugin_failure(wire.message, false, signed_text(wire.code as int)),
        Some(data) => match typed_error_for(data.report.kind, data.detail, data.report.causes) {
            Some(error) => error,
            None => plugin_failure(data.report.message, data.report.retryable, data.report.kind),
        },
    }
}

fn plugin_error(message: String, retryable: bool, code: String) -> (error: Error)
    ensures
        error@ == plugin_failure(message@, retryable, code@),
{
    Error::Provider(
        ProviderError {
            provider: UNKNOWN_KIND.to_owned(),
            message,
            code: Some(code),
            retryable,
            detail: None,
            source: None,
        },
    )
}

impl WireError {
    /// An envelope-level failure, which carries a code and a message only.
    pub fn envelope(code: i64, message: String) -> (wire: Self)
        ensures
            wire@ == (WireErrorView { code, message: message@, data: None }),
    {
        WireError { code, message, data: None }
    }

    /// Projects a typed error onto the wire, beside the report the driver
    /// renders of it, with enough structure to rebuild it on the other side.
    pub fn from_error(error: &Error, report: ErrorReport) -> (wire: Self)
        requires
            error_fits(error@),
        ensures
            wire@ == wire_form(error@, report@),
            error_samples_decode(error@),
    {
        WireError {
            code: CODE_APPLICATION,
            message: report.message.clone(),
            data: Some(WireErrorData { report, detail: detail_of(error) }),
        }
    }

    /// Rebuilds the closest typed error from the wire.
    pub fn into_error(self) -> (error: Error)
        ensures
            error@ == error_in(self@),
    {
        let data = match self.data {
            Some(data) => data,
            None => {
                // Envelope-level failures (unknown method, malformed
                // parameters) carry no data; the code stays for callers to
                // branch on.
                return plugin_error(self.message, false, signed_decimal(self.code));
            },
        };
        let report = data.report;
        match typed_error(report.kind.as_str(), data.detail, report.causes.as_slice()) {
            Some(error) => error,
            // A kind this side does not know, or a detail without the fields
            // its kind needs: keep what the report says.
            None => plugin_error(report.message, report.retryable, report.kind),
        }
    }
}

/// What is left of a command's failure once it crossed: its duration in
/// whole milliseconds.
pub open spec fn crossed_failure(failure: ExecFailureView) -> ExecFailureView {
    ExecFailureView {
        duration: match failure.duration {
            Some(duration) => Some((millis_of(duration) * 1_000_000) as nat),
            None => None,
        },
        ..failure
    }
}

/// What is left of an error once it crossed.
pub open spec fn crossed(error: ErrorView) -> ErrorView {
    match error {
        ErrorView::Exec(failure) => ErrorView::Exec(crossed_failure(failure)),
        ErrorView::Git(failure) => ErrorView::Git(
            GitView {
                output: match failure.output {
                    Some(output) => Some(crossed_failure(output)),
                    None => None,
                },
                provider: match failure.provider {
                    Some(provider) => Some(ProviderView { source: Seq::empty(), ..provider }),
                    None => None,
                },
                ..failure
            },
        ),
        ErrorView::Io { context, source, .. } => ErrorView::Io {
            context,
            io_kind: IoErrorKind::Unspecified,
            source,
        },
        _ => error,
    }
}

/// The names of the kinds are pairwise different.
proof fn lemma_kinds_differ(error: ErrorView)
    requires
        !(error is Other),
    ensures
        kind_of(error) == "incomplete"@ <==> error is Incomplete,
        kind_of(error) == "overloaded"@ <==> error is Overloaded,
        kind_of(error) == "limit_exceeded"@ <==> error is LimitExceeded,
        kind_of(error) == "unsupported"@ <==> error is Unsupported,
        kind_of(error) == "not_found"@ <==> error is NotFound,
        kind_of(error) == "not_owned"@ <==> error is NotOwned,
        kind_of(error) == "invalid_spec"@ <==> error is InvalidSpec,
        kind_of(error) == "invalid_state"@ <==> error is InvalidState,
        kind_of(error) == "timeout"@ <==> error is Timeout,
        kind_of(error) == "auth"@ <==> error is Auth,
        kind_of(error) == "rate_limited"@ <==> error is RateLimited,
        kind_of(error) == "provider"@ <==> error is Provider,
        kind_of(error) == "exec"@ <==> error is Exec,
        kind_of(error) == "git"@ <==> error is Git,
        kind_of(error) == "io"@ <==> error is Io,
        kind_of(error) == "transport"@ <==> error is Transport,
{
    reveal_strlit("incomplete");
    reveal_strlit("overloaded");
    reveal_strlit("limit_exceeded");
    reveal_strlit("unsupported");
    reveal_strlit("not_found");
    reveal_strlit("not_owned");
    reveal_strlit("invalid_spec");
    reveal_strlit("invalid_state");
    reveal_strlit("timeout");
    reveal_strlit("auth");
    reveal_strlit("rate_limited");
    reveal_strlit("provider");
    reveal_strlit("exec");
    reveal_strlit("git");
    reveal_strlit("io");
    reveal_strlit("transport");
    assert("incomplete"@.len() == 10);
    assert("overloaded"@.len() == 10);
    assert("limit_exceeded"@.len() == 14);
    assert("unsupported"@.len() == 11);
    assert("not_found"@.len() == 9);
    assert("not_owned"@.len() == 9);
    assert("invalid_spec"@.len() == 12);
    assert("invalid_state"@.len() == 13);
    assert("timeout"@.len() == 7);
    assert("auth"@.len() == 4);
    assert("rate_limited"@.len() == 12);
    assert("provider"@.len() == 8);
    assert("exec"@.len() == 4);
    assert("git"@.len() == 3);
    assert("io"@.len() == 2);
    assert("transport"@.len() == 9);
    assert("incomplete"@[0] != "overloaded"@[0]);
    assert("not_found"@[4] != "not_owned"@[4] || "not_found"@[5] != "not_owned"@[5]);
    assert("not_found"@[0] != "transport"@[0]);
    assert("not_owned"@[0] != "transport"@[0]);
    assert("invalid_spec"@[0] != "rate_limited"@[0]);
    assert("auth"@[0] != "exec"@[0]);
}

/// A typed error survives the wire: what the other side rebuilds from it is
/// the error itself, but for a command's duration, which crosses in whole
/// milliseconds, and for the kind of an I/O failure and the in-process source
/// of a git failure's provider error, which do not cross. The report names the error's kind and its
/// rendered causes, and the samples of its output decode, as
/// [`WireError::from_error`] grants.
pub proof fn typed_errors_survive_the_wire(error: ErrorView, report: ReportView)
    requires
        !(error is Other),
        error is Io ==> error->Io_source.len() > 0,
        error_samples_decode(error),
        report.kind == kind_of(error),
        report.causes == causes_of(error),
    ensures
        error_in(wire_form(error, report)) == crossed(error),
{
    lemma_kinds_differ(error);
}

/// An error that crossed once crosses unchanged from then on.
pub proof fn crossing_again_changes_nothing(error: ErrorView)
    ensures
        crossed(crossed(error)) == crossed(error),
{
    match error {
        ErrorView::Exec(failure) => {
            lemma_crossed_failure_is_stable(failure);
        },
        ErrorView::Git(failure) => {
            match failure.output {
                Some(output) => {
                    lemma_crossed_failure_is_stable(output);
                },
                None => {},
            }
        },
        _ => {},
    }
}

proof fn lemma_crossed_failure_is_stable(failure: ExecFailureView)
    ensures
        crossed_failure(crossed_failure(failure)) == crossed_failure(failure),
{
    match failure.duration {
        Some(duration) => {
            let millis = millis_of(duration);
            assert(((millis * 1_000_000) as nat) / 1_000_000 == millis) by (nonlinear_arith);
        },
        None => {},
    }
}

/// A refused admission and an unfinished operation never turn into one
/// another: only a detail that says outright that nothing was started reads
/// as overloaded, and only an incomplete outcome reads as incomplete.
pub proof fn refusal_and_outcome_stay_apart(
    kind: Seq<char>,
    detail: ErrorDetailView,
    causes: Seq<Seq<char>>,
)
    ensures
        typed_error_for(kind, detail, causes) matches Some(ErrorView::Overloaded { limit }) ==> {
            &&& kind == "overloaded"@
            &&& detail == (ErrorDetailView::Overloaded { limit, not_started: true })
        },
        typed_error_for(kind, detail, causes) matches Some(ErrorView::Incomplete(outcome)) ==> {
            &&& kind == "incomplete"@
            &&& detail == (ErrorDetailView::Incomplete { incomplete: outcome })
        },
{
}

/// A kind that has no detail of its own is kept by its name: the other side
/// gets a provider failure with the report's message, whether it may be
/// tried again, and the kind as its code.
pub proof fn unknown_kinds_keep_their_report(error: ErrorView, report: ReportView)
    requires
        error is Other,
        report.kind == kind_of(error),
        forall|other: ErrorView| !(other is Other) ==> #[trigger] kind_of(other) != report.kind,
    ensures
        error_in(wire_form(error, report)) == plugin_failure(
            report.message,
            report.retryable,
            report.kind,
        ),
{
    let kind = report.kind;
    if typed_error_for(kind, ErrorDetailView::Empty, report.causes) is Some {
        assert(kind == "rate_limited"@);
        assert(kind_of(ErrorView::RateLimited { retry_after: None }) == kind);
    }
}

/// Which fields a kind's detail has to be read from.
#[derive(Clone, Copy, Debug, PartialEq, Eq, Structural)]
pub enum DetailShape {
    Incomplete,
    Overloaded,
    Limit,
    Unsupported,
    Resource,
    InvalidSpec,
    InvalidState,
    Timeout,
    Auth,
    RateLimited,
    Provider,
    Exec,
    Git,
    Io,
    Transport,
    /// The kind is unknown; its detail is not read.
    Unread,
}

/// The shape of a detail.
pub open spec fn shape_of(detail: ErrorDetailView) -> DetailShape {
    match detail {
        ErrorDetailView::Incomplete { .. } => DetailShape::Incomplete,
        ErrorDetailView::Overloaded { .. } => DetailShape::Overloaded,
        ErrorDetailView::Limit { .. } => DetailShape::Limit,
        ErrorDetailView::Unsupported { .. } => DetailShape::Unsupported,
        ErrorDetailView::Resource { .. } => DetailShape::Resource,
        ErrorDetailView::InvalidSpec { .. } => DetailShape::InvalidSpec,
        ErrorDetailView::InvalidState { .. } => DetailShape::InvalidState,
        ErrorDetailView::Timeout { .. } => DetailShape::Timeout,
        ErrorDetailView::Auth { .. } => DetailShape::Auth,
        ErrorDetailView::RateLimited { .. } => DetailShape::RateLimited,
        ErrorDetailView::Provider { .. } => DetailShape::Provider,
        ErrorDetailView::Exec { .. } => DetailShape::Exec,
        ErrorDetailView::Git { .. } => DetailShape::Git,
        ErrorDetailView::Io { .. } => DetailShape::Io,
        ErrorDetailView::Transport { .. } => DetailShape::Transport,
        ErrorDetailView::Empty => DetailShape::Unread,
    }
}

/// The shape that a kind's detail is read in.
pub open spec fn shape_for(kind: Seq<char>) -> DetailShape {
    if kind == "incomplete"@ {
        DetailShape::Incomplete
    } else if kind == "overloaded"@ {
        DetailShape::Overloaded
    } else if kind == "limit_exceeded"@ {
        DetailShape::Limit
    } else if kind == "unsupported"@ {
        DetailShape::Unsupported
    } else if kind == "not_found"@ {
        DetailShape::Resource
    } else if kind == "not_owned"@ {
        DetailShape::Resource
    } else if kind == "invalid_spec"@ {
        DetailShape::InvalidSpec
    } else if kind == "invalid_state"@ {
        DetailShape::InvalidState
    } else if kind == "timeout"@ {
        DetailShape::Timeout
    } else if kind == "auth"@ {
        DetailShape::Auth
    } else if kind == "rate_limited"@ {
        DetailShape::RateLimited
    } else if kind == "provider"@ {
        DetailShape::Provider
    } else if kind == "exec"@ {
        DetailShape::Exec
    } else if kind == "git"@ {
        DetailShape::Git
    } else if kind == "io"@ {
        DetailShape::Io
    } else if kind == "transport"@ {
        DetailShape::Transport
    } else {
        DetailShape::Unread
    }
}

/// The shape that a kind's detail is read in.
pub fn detail_shape(kind: &str) -> (shape: DetailShape)
    ensures
        shape == shape_for(kind@),
{
    if same_text(kind, "incomplete") {
        DetailShape::Incomplete
    } else if same_text(kind, "overloaded") {
        DetailShape::Overloaded
    } else if same_text(kind, "limit_exceeded") {
        DetailShape::Limit
    } else if same_text(kind, "unsupported") {
        DetailShape::Unsupported
    } else if same_text(kind, "not_found") {
        DetailShape::Resource
    } else if same_text(kind, "not_owned") {
        DetailShape::Resource
    } else if same_text(kind, "invalid_spec") {
        DetailShape::InvalidSpec
    } else if same_text(kind, "invalid_state") {
        DetailShape::InvalidState
    } else if same_text(kind, "timeout") {
        DetailShape::Timeout
    } else if same_text(kind, "auth") {
        DetailShape::Auth
    } else if same_text(kind, "rate_limited") {
        DetailShape::RateLimited
    } else if same_text(kind, "provider") {
        DetailShape::Provider
    } else if same_text(kind, "exec") {
        DetailShape::Exec
    } else if same_text(kind, "git") {
        DetailShape::Git
    } else if same_text(kind, "io") {
        DetailShape::Io
    } else if same_text(kind, "transport") {
        DetailShape::Transport
    } else {
        DetailShape::Unread
    }
}

/// Both sides agree on the shape of a detail: the one an error is sent with
/// is the one its kind is read in.
pub proof fn details_are_read_in_their_shape(error: ErrorView)
    requires
        !(error is Other),
    ensures
        shape_for(kind_of(error)) == shape_of(detail_for(error)),
{
    lemma_kinds_differ(error);
}

impl Message {
    /// A request: a number, a method and its parameters.
    pub fn request(id: u64, method: &str, params: Value) -> (message: Self)
        ensures
            message.jsonrpc@ == JSONRPC_VERSION@,
            message.id == Some(id),
            opt_text(message.method) == Some(method@),
            message.params == Some(params),
            message.result is None,
            message.error is None,
    {
        Message {
            jsonrpc: JSONRPC_VERSION.to_owned(),
            id: Some(id),
            method: Some(method.to_owned()),
            params: Some(params),
            result: None,
            error: None,
        }
    }

    /// A notification: a method and its parameters, to which nothing
    /// answers.
    pub fn notification(method: &str, params: Value) -> (message: Self)
        ensures
            message.jsonrpc@ == JSONRPC_VERSION@,
            message.id is None,
            opt_text(message.method) == Some(method@),
            message.params == Some(params),
            message.result is None,
            message.error is None,
    {
        Message {
            jsonrpc: JSONRPC_VERSION.to_owned(),
            id: None,
            method: Some(method.to_owned()),
            params: Some(params),
            result: None,
            error: None,
        }
    }

    /// The answer to a request that succeeded.
    pub fn response(id: u64, result: Value) -> (message: Self)
        ensures
            message.jsonrpc@ == JSONRPC_VERSION@,
            message.id == Some(id),
            message.method is None,
            message.params is None,
            message.result == Some(result),
            message.error is None,
    {
        Message {
            jsonrpc: JSONRPC_VERSION.to_owned(),
            id: Some(id),
            method: None,
            params: None,
            result: Some(result),
            error: None,
        }
    }

    /// The answer to a request that failed.
    pub fn error_response(id: u64, error: WireError) -> (message: Self)
        ensures
            message.jsonrpc@ == JSONRPC_VERSION@,
            message.id == Some(id),
            message.method is None,
            message.params is None,
            message.result is None,
            message.error == Some(error),
    {
        Message {
            jsonrpc: JSONRPC_VERSION.to_owned(),
            id: Some(id),
            method: None,
            params: None,
            result: None,
            error: Some(error),
        }
    }

    /// What may be logged of a message: its number and its method, never
    /// its body.
    pub fn redacted(&self) -> (text: String)
        ensures
            text@ == redacted_message(self.id, opt_text(self.method)),
    {
        let mut text = "Message { id: ".to_owned();
        match self.id {
            Some(id) => {
                text.append("Some(");
                text.append(decimal(id).as_str());
                text.append(")");
            },
            None => {
                text.append("None");
            },
        }
        text.append(", method: ");
        match &self.method {
            Some(method) => {
                text.append("Some(");
                text.append(quoted(method.as_str()).as_str());
                text.append(")");
            },
            None => {
                text.append("None");
            },
        }
        text.append(", body: \"<redacted>\", .. }");
        text
    }
}

/// A text as `Debug` of `str` writes it, quoted and escaped.
pub uninterp spec fn quoted_text(text: Seq<char>) -> Seq<char>;

/// `Debug` of `str`: the text quoted and escaped.
#[verifier::external_body]
pub(crate) fn quoted(text: &str) -> (quoted: String)
    ensures
        quoted@ == quoted_text(text@),
{
    format!("{text:?}")
}

/// What may be logged of a message with this number and method.
pub open spec fn redacted_message(id: Option<u64>, method: Option<Seq<char>>) -> Seq<char> {
    let id = match id {
        Some(id) => "Some("@ + decimal_text(id as nat) + ")"@,
        None => "None"@,
    };
    let method = match method {
        Some(method) => "Some("@ + quoted_text(method) + ")"@,
        None => "None"@,
    };
    "Message { id: "@ + id + ", method: "@ + method + ", body: \"<redacted>\", .. }"@
}

/// A text that reads as minus 32601: a minus sign, any number of zeros, and
/// the digits.
pub open spec fn reads_as_method_not_found(code: Seq<char>) -> bool {
    exists|zeros: nat| #[trigger]
        padded_code(zeros) == code
}

/// The digits of the unknown-method code behind a minus sign and zeros.
pub open spec fn padded_code(zeros: nat) -> Seq<char> {
    seq!['-'] + Seq::new(zeros, |i: int| '0') + "32601"@
}

/// Whether an error is a plugin's answer to a method it does not know.
pub open spec fn method_not_found(error: ErrorView) -> bool {
    error matches ErrorView::Provider(provider) && (provider.code matches Some(code)
        && reads_as_method_not_found(code))
}

fn code_reads_as_method_not_found(code: &str) -> (yes: bool)
    ensures
        yes == reads_as_method_not_found(code@),
{
    let length: usize = code.unicode_len();
    proof {
        reveal_strlit("32601");
    }
    if length < 6 {
        assert forall|zeros: nat| padded_code(zeros) != code@ by {
            assert(padded_code(zeros).len() >= 6);
        }
        return false;
    }
    let ghost zeros = (length - 6) as nat;
    proof {
        assert forall|other: nat| padded_code(other) == code@ implies other == zeros by {
            assert(padded_code(other).len() == other + 6);
        }
    }
    let yes = code.get_char(0) == '-' && code.get_char(length - 5) == '3' && code.get_char(
        length - 4,
    ) == '2' && code.get_char(length - 3) == '6' && code.get_char(length - 2) == '0'
        && code.get_char(length - 1) == '1';
    if !yes {
        assert forall|other: nat| padded_code(other) != code@ by {
            if padded_code(other) == code@ {
                let text = padded_code(zeros);
                assert(text[0] == '-');
                assert(text[length - 5] == '3');
                assert(text[length - 4] == '2');
                assert(text[length - 3] == '6');
                assert(text[length - 2] == '0');
                assert(text[length - 1] == '1');
            }
        }
        return false;
    }
    let mut i: usize = 1;
    while i < length - 5
        invariant
            1 <= i <= length - 5,
            length == code@.len(),
            length >= 6,
            zeros == length - 6,
            "32601"@.len() == 5,
            forall|j: int| 1 <= j < i ==> code@[j] == '0',
            forall|other: nat| padded_code(other) == code@ ==> other == zeros,
        decreases length - i,
    {
        if code.get_char(i) != '0' {
            assert forall|other: nat| padded_code(other) != code@ by {
                if padded_code(other) == code@ {
                    assert(padded_code(zeros)[i as int] == '0');
                }
            }
            return false;
        }
        i = i + 1;
    }
    assert(padded_code(zeros) =~= code@);
    true
}

/// Whether an error is a plugin's answer to a method it does not know.
/// Methods added within a protocol version are optional, and a host takes
/// this answer as "not offered", not as a failure.
pub fn is_method_not_found(error: &Error) -> (yes: bool)
    ensures
        yes == method_not_found(error@),
{
    match error {
        Error::Provider(provider) => match &provider.code {
            Some(code) => code_reads_as_method_not_found(code.as_str()),
            None => false,
        },
        _ => false,
    }
}

/// The number that decimal digits stand for.
spec fn digits_value(digits: Seq<char>) -> nat
    decreases digits.len(),
{
    if digits.len() == 0 {
        0
    } else {
        10 * digits_value(digits.drop_last()) + digit_value(digits.last())
    }
}

spec fn digit_value(digit: char) -> nat {
    if digit == '1' {
        1
    } else if digit == '2' {
        2
    } else if digit == '3' {
        3
    } else if digit == '4' {
        4
    } else if digit == '5' {
        5
    } else if digit == '6' {
        6
    } else if digit == '7' {
        7
    } else if digit == '8' {
        8
    } else if digit == '9' {
        9
    } else {
        0
    }
}

proof fn lemma_decimal_text_has_its_value(number: nat)
    ensures
        digits_value(decimal_text(number)) == number,
        decimal_text(number).len() > 0,
        decimal_text(number)[0] != '-',
    decreases number,
{
    if number < 10 {
        assert(decimal_text(number).drop_last() =~= Seq::empty());
        assert(digits_value(Seq::empty()) == 0);
    } else {
        lemma_decimal_text_has_its_value(number / 10);
        assert(decimal_text(number).drop_last() =~= decimal_text(number / 10));
    }
}

proof fn lemma_padding_adds_nothing(zeros: nat)
    ensures
        digits_value(Seq::new(zeros, |i: int| '0') + "32601"@) == 32601,
    decreases zeros,
{
    reveal_strlit("32601");
    let padding = Seq::new(zeros, |i: int| '0');
    lemma_zeros_are_nothing(zeros);
    let d5 = padding + "32601"@;
    let d4 = d5.drop_last();
    let d3 = d4.drop_last();
    let d2 = d3.drop_last();
    let d1 = d2.drop_last();
    assert(d1.drop_last() =~= padding);
    assert(digits_value(d1) == 3);
    assert(digits_value(d2) == 32);
    assert(digits_value(d3) == 326);
    assert(digits_value(d4) == 3260);
}

proof fn lemma_zeros_are_nothing(zeros: nat)
    ensures
        digits_value(Seq::new(zeros, |i: int| '0')) == 0,
    decreases zeros,
{
    if zeros > 0 {
        let shorter = (zeros - 1) as nat;
        lemma_zeros_are_nothing(shorter);
        assert(Seq::new(zeros, |i: int| '0').drop_last() =~= Seq::new(shorter, |i: int| '0'));
    }
}

/// Of the errors that carry nothing but a code, exactly the unknown-method
/// code reads as an unknown method on the other side.
pub proof fn envelope_codes_are_told_apart(code: i64, message: Seq<char>)
    ensures
        method_not_found(error_in(WireErrorView { code, message, data: None })) <==> code
            == CODE_METHOD_NOT_FOUND,
{
    reveal_strlit("32601");
    let text = signed_text(code as int);
    let magnitude = if code < 0 {
        (0 - code) as nat
    } else {
        code as nat
    };
    lemma_decimal_text_has_its_value(magnitude);
    if code == CODE_METHOD_NOT_FOUND {
        lemma_decimal_text_has_its_value(3260);
        assert(decimal_text(3) =~= seq!['3']);
        assert(decimal_text(32) =~= seq!['3', '2']);
        assert(decimal_text(326) =~= seq!['3', '2', '6']);
        assert(decimal_text(3260) =~= seq!['3', '2', '6', '0']);
        assert(decimal_text(32601) =~= seq!['3', '2', '6', '0', '1']);
        assert(padded_code(0) =~= text);
    }
    if reads_as_method_not_found(text) {
        let zeros = choose|zeros: nat| #[trigger] padded_code(zeros) == text;
        assert(text[0] == '-');
        assert(code < 0);
        lemma_padding_adds_nothing(zeros);
        assert(text.skip(1) =~= Seq::new(zeros, |i: int| '0') + "32601"@);
        assert(text.skip(1) =~= decimal_text(magnitude));
    }
}

/// What is left of an error that crossed is the error: everything that it
/// says comes through, but for the parts of a millisecond of a command's
/// duration, the kind of an I/O failure, and the source of a provider error
/// inside a git failure.
pub proof fn what_crosses_of_an_error_is_the_error(error: ErrorView)
    ensures
        match error {
            ErrorView::Exec(failure) => {
                &&& crossed(error) matches ErrorView::Exec(back)
                &&& back.label == failure.label
                &&& back.termination == failure.termination
                &&& back.exit_code == failure.exit_code
                &&& back.stdout == failure.stdout
                &&& back.stderr == failure.stderr
                &&& back.duration is Some == failure.duration is Some
                &&& failure.duration is Some && failure.duration->Some_0 <= u64::MAX * 1_000_000
                    ==> back.duration->Some_0 <= failure.duration->Some_0
                    < back.duration->Some_0 + 1_000_000
            },
            ErrorView::Git(failure) => {
                &&& crossed(error) matches ErrorView::Git(back)
                &&& back.operation == failure.operation
                &&& back.kind == failure.kind
                &&& back.output is Some == failure.output is Some
                &&& failure.output is Some ==> back.output->Some_0.label
                    == failure.output->Some_0.label && back.output->Some_0.termination
                    == failure.output->Some_0.termination && back.output->Some_0.exit_code
                    == failure.output->Some_0.exit_code && back.output->Some_0.stdout
                    == failure.output->Some_0.stdout && back.output->Some_0.stderr
                    == failure.output->Some_0.stderr
                &&& back.provider is Some == failure.provider is Some
                &&& failure.provider is Some ==> back.provider->Some_0.provider
                    == failure.provider->Some_0.provider && back.provider->Some_0.message
                    == failure.provider->Some_0.message && back.provider->Some_0.code
                    == failure.provider->Some_0.code && back.provider->Some_0.retryable
                    == failure.provider->Some_0.retryable && back.provider->Some_0.detail
                    == failure.provider->Some_0.detail
            },
            ErrorView::Io { context, source, .. } => {
                &&& crossed(error) matches ErrorView::Io {
                    context: back_context,
                    io_kind: _,
                    source: back_source,
                }
                &&& back_context == context
                &&& back_source == source
            },
            _ => crossed(error) == error,
        },
{
    if let ErrorView::Exec(failure) = error {
        if failure.duration is Some && failure.duration->Some_0 <= u64::MAX * 1_000_000 {
            crate::driver::lengths_are_rounded_down(failure.duration->Some_0);
        }
    }
}

/// Every kind of error crosses under a name of its own, and the names are
/// those of the protocol.
pub proof fn errors_cross_under_their_names(error: ErrorView)
    requires
        !(error is Other),
    ensures
        kind_of(error) == "incomplete"@ <==> error is Incomplete,
        kind_of(error) == "overloaded"@ <==> error is Overloaded,
        kind_of(error) == "limit_exceeded"@ <==> error is LimitExceeded,
        kind_of(error) == "unsupported"@ <==> error is Unsupported,
        kind_of(error) == "not_found"@ <==> error is NotFound,
        kind_of(error) == "not_owned"@ <==> error is NotOwned,
        kind_of(error) == "invalid_spec"@ <==> error is InvalidSpec,
        kind_of(error) == "invalid_state"@ <==> error is InvalidState,
        kind_of(error) == "timeout"@ <==> error is Timeout,
        kind_of(error) == "auth"@ <==> error is Auth,
        kind_of(error) == "rate_limited"@ <==> error is RateLimited,
        kind_of(error) == "provider"@ <==> error is Provider,
        kind_of(error) == "exec"@ <==> error is Exec,
        kind_of(error) == "git"@ <==> error is Git,
        kind_of(error) == "io"@ <==> error is Io,
        kind_of(error) == "transport"@ <==> error is Transport,
{
    lemma_kinds_differ(error);
}

/// An error that this side cannot make out keeps what it says: it is a
/// failure of the plugin with the message, whether it may be tried again, and
/// what told it apart as its code. A bare code is kept as a text.
pub proof fn an_unknown_error_keeps_what_it_says(
    message: Seq<char>,
    retryable: bool,
    code: Seq<char>,
    number: i64,
)
    ensures
        plugin_failure(message, retryable, code) matches ErrorView::Provider(failure)
            && failure.provider == "plugin"@ && failure.message == message && failure.retryable
            == retryable && failure.code == Some(code) && failure.detail is None,
        error_in(WireErrorView { code: number, message, data: None }) == plugin_failure(
            message,
            false,
            signed_text(number as int),
        ),
{
}

/// An error crosses under the code of applications, with the report's message
/// and the report itself.
pub proof fn an_error_crosses_with_its_report(error: ErrorView, report: ReportView)
    ensures
        wire_form(error, report).code == -32000,
        wire_form(error, report).message == report.message,
        wire_form(error, report).data matches Some(data) && data.report == report,
{
}

/// A detail is read in some shape exactly for the kinds that this side knows:
/// nothing is made of the detail of another.
pub proof fn only_known_kinds_are_read(
    kind: Seq<char>,
    detail: ErrorDetailView,
    causes: Seq<Seq<char>>,
)
    ensures
        shape_for(kind) is Unread ==> typed_error_for(kind, detail, causes) is None,
        !(shape_for(kind) is Unread) && shape_of(detail) == shape_for(kind) && !(shape_for(kind)
            is Overloaded) && !(shape_for(kind) is Exec) ==> typed_error_for(kind, detail, causes)
            is Some,
{
}

/// The causes that an error was rendered with come back with it.
pub proof fn causes_come_back_with_their_error(
    kind: Seq<char>,
    detail: ErrorDetailView,
    causes: Seq<Seq<char>>,
)
    requires
        causes.len() > 0,
    ensures
        typed_error_for(kind, detail, causes) matches Some(ErrorView::Auth(error)) ==> error.source
            == causes,
        typed_error_for(kind, detail, causes) matches Some(ErrorView::Provider(error))
            ==> error.source == causes,
        typed_error_for(kind, detail, causes) matches Some(ErrorView::Transport(error))
            ==> error.source == causes,
        typed_error_for(kind, detail, causes) matches Some(ErrorView::Io { context, io_kind, source })
            ==> source == causes,
{
}

/// A method is unknown to a plugin exactly when the plugin answered with a
/// provider failure whose code reads as the number of that answer: a minus
/// sign, zeros or none, and the five digits.
pub proof fn an_unknown_method_is_told_by_its_code(error: ErrorView, code: Seq<char>)
    ensures
        method_not_found(error) ==> error is Provider && error->Provider_0.code is Some
            && reads_as_method_not_found(error->Provider_0.code->Some_0),
        error is Provider && error->Provider_0.code is Some && reads_as_method_not_found(
            error->Provider_0.code->Some_0,
        ) ==> method_not_found(error),
        reads_as_method_not_found(code) <==> {
            &&& code.len() >= 6
            &&& code[0] == '-'
            &&& forall|i: int| 1 <= i < code.len() - 5 ==> #[trigger] code[i] == '0'
            &&& code[code.len() - 5] == '3'
            &&& code[code.len() - 4] == '2'
            &&& code[code.len() - 3] == '6'
            &&& code[code.len() - 2] == '0'
            &&& code[code.len() - 1] == '1'
        },
{
    reveal_strlit("32601");
    if reads_as_method_not_found(code) {
        let zeros = choose|zeros: nat| #[trigger] padded_code(zeros) == code;
        let text = padded_code(zeros);
        assert(text.len() == zeros + 6);
        assert(text[0] == '-');
        assert forall|i: int| 1 <= i < code.len() - 5 implies #[trigger] code[i] == '0' by {
            assert(text[i] == '0');
        }
        assert(text[text.len() - 5] == '3');
        assert(text[text.len() - 4] == '2');
        assert(text[text.len() - 3] == '6');
        assert(text[text.len() - 2] == '0');
        assert(text[text.len() - 1] == '1');
    }
    if code.len() >= 6 && code[0] == '-' && (forall|i: int|
        1 <= i < code.len() - 5 ==> #[trigger] code[i] == '0') && code[code.len() - 5] == '3'
        && code[code.len() - 4] == '2' && code[code.len() - 3] == '6' && code[code.len() - 2] == '0'
        && code[code.len() - 1] == '1' {
        let zeros = (code.len() - 6) as nat;
        assert(padded_code(zeros) =~= code);
    }
}

/// Every error can cross but one whose samples of output take a quarter of
/// all memory or more.
pub proof fn every_error_of_a_sane_size_crosses(error: ErrorView)
    ensures
        !(error is Exec) && !(error is Git) ==> error_fits(error),
        error matches ErrorView::Exec(failure) ==> (error_fits(error) <==> failure.stdout.len()
            <= usize::MAX / 4 && failure.stderr.len() <= usize::MAX / 4),
        error matches ErrorView::Git(failure) ==> (error_fits(error) <==> (failure.output is Some
            ==> failure.output->Some_0.stdout.len() <= usize::MAX / 4
            && failure.output->Some_0.stderr.len() <= usize::MAX / 4)),
{
}

/// What may be logged of a message tells messages with different numbers
/// apart as long as they name no method.
pub proof fn logged_messages_are_told_apart(one: u64, other: u64)
    requires
        redacted_message(Some(one), None) == redacted_message(Some(other), None),
    ensures
        one == other,
{
    let start = "Message { id: "@ + "Some("@;
    let end = ")"@ + ", method: "@ + "None"@ + ", body: \"<redacted>\", .. }"@;
    let a = decimal_text(one as nat);
    let b = decimal_text(other as nat);
    assert(redacted_message(Some(one), None) =~= start + a + end);
    assert(redacted_message(Some(other), None) =~= start + b + end);
    assert((start + a + end).subrange(start.len() as int, (start.len() + a.len()) as int) =~= a);
    assert((start + b + end).subrange(start.len() as int, (start.len() + b.len()) as int) =~= b);
    assert(a.len() == b.len());
    if one != other {
        crate::text::decimals_differ(one as nat, other as nat);
    }
}

} // verus!
