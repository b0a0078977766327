use sandbox_driver_protocol::driver::{
    Action, AuthError, Capability, Error, ExecFailure, GitFailure, GitFailureKind,
    IncompleteOperation, IoErrorKind, ProviderError, RemoteCause, ResourceKind, SandboxState, Termination,
    TransportError,
};
use sandbox_driver_protocol::wire::{
    decode_bytes, detail_of, detail_shape, encode_bytes, exec_failure, is_method_not_found,
    typed_error, DetailShape, ErrorDetail, ErrorReport, ExecDetail, Message, WireError,
};
use serde_json::Value;
use std::time::Duration;

fn report(error: &Error) -> ErrorReport {
    ErrorReport {
        kind: error.kind(),
        message: "rendered".to_owned(),
        retryable: false,
        causes: error.causes(),
    }
}

fn crossed(error: Error) -> Error {
    WireError::from_error(&error, report(&error)).into_error()
}

#[test]
fn admission_rejection_and_incomplete_outcome_remain_distinct() {
    let overloaded = Error::Overloaded { limit: "active_io".into() };
    assert!(matches!(crossed(overloaded), Error::Overloaded { limit } if limit == "active_io"));
    let incomplete = IncompleteOperation::new("hard cancellation drain");
    let Error::Incomplete(back) = crossed(Error::Incomplete(incomplete)) else {
        panic!("incomplete outcome must survive the wire");
    };
    assert!(back.output_abandoned);
    assert!(!back.stop_acknowledged && !back.termination_confirmed && !back.cleanup_confirmed);
    let limit = Error::LimitExceeded { limit: "buffered_value_bytes".into(), max_bytes: 4 };
    assert!(matches!(crossed(limit), Error::LimitExceeded { max_bytes: 4, .. }));
}

#[test]
fn typed_errors_round_trip_the_wire() {
    let back = crossed(Error::unsupported(Capability::LifecyclePause));
    assert!(matches!(back, Error::Unsupported { capability: Capability::LifecyclePause }));

    let back = crossed(Error::NotFound { resource: ResourceKind::Sandbox, id: "sb-1".into() });
    assert!(matches!(back, Error::NotFound { .. }));

    let back = crossed(Error::NotOwned { resource: ResourceKind::Sandbox, id: "sb-2".into() });
    assert!(
        matches!(back, Error::NotOwned { resource: ResourceKind::Sandbox, id } if id == "sb-2")
    );

    let back = crossed(Error::InvalidState {
        current: SandboxState::Paused,
        action: Action::Stop,
    });
    assert!(matches!(
        back,
        Error::InvalidState { current: SandboxState::Paused, action: Action::Stop }
    ));

    let back = crossed(Error::invalid_spec("source", "must be an image"));
    assert!(matches!(back, Error::InvalidSpec { field, reason }
        if field == "source" && reason == "must be an image"));

    let back = crossed(Error::Timeout {
        operation: "creating sandbox".into(),
        elapsed: Duration::from_secs(7),
    });
    assert!(matches!(back, Error::Timeout { operation, elapsed }
        if operation == "creating sandbox" && elapsed == Duration::from_secs(7)));

    let Error::Auth(auth) = crossed(Error::Auth(AuthError {
        provider: "test".to_owned(),
        reason: "token expired".to_owned(),
        source: Some(RemoteCause::new("remote rejected token".to_owned())),
    })) else {
        panic!("expected auth failure");
    };
    assert_eq!(auth.provider, "test");
    assert_eq!(auth.reason, "token expired");
    assert_eq!(auth.source.expect("remote auth cause").message, "remote rejected token");

    let back = crossed(Error::RateLimited { retry_after: Some(Duration::from_millis(250)) });
    assert!(matches!(back, Error::RateLimited { retry_after }
        if retry_after == Some(Duration::from_millis(250))));

    let mut provider_error =
        ProviderError::new("test".to_owned(), "listing sandboxes".to_owned());
    provider_error.source = Some(RemoteCause::new("daemon disconnected".to_owned()));
    provider_error.code = Some("backend_unavailable".into());
    provider_error.retryable = true;
    let Error::Provider(provider_error) = crossed(Error::Provider(provider_error)) else {
        panic!("expected provider failure");
    };
    assert_eq!(provider_error.provider, "test");
    assert_eq!(provider_error.code.as_deref(), Some("backend_unavailable"));
    assert!(provider_error.retryable);
    assert_eq!(
        provider_error.source.expect("remote provider cause").message,
        "daemon disconnected"
    );

    let Error::Exec(failure) = crossed(Error::Exec(ExecFailure {
        label: "probe".to_owned(),
        termination: Termination::Exited,
        exit_code: Some(3),
        stdout: b"out".to_vec(),
        stderr: b"err".to_vec(),
        duration: Some(Duration::from_millis(1500)),
    })) else {
        panic!("expected exec failure");
    };
    assert_eq!(failure.label, "probe");
    assert_eq!(failure.exit_code, Some(3));
    assert_eq!(failure.stdout, b"out");
    assert_eq!(failure.duration, Some(Duration::from_millis(1500)));

    let error = Error::Git(GitFailure {
        operation: "git clone".to_owned(),
        kind: GitFailureKind::RefNotFound,
        output: Some(ExecFailure {
            label: "git fetch".to_owned(),
            termination: Termination::Exited,
            exit_code: Some(128),
            stdout: Vec::new(),
            stderr: b"fatal: couldn't find remote ref refs/tags/v9".to_vec(),
            duration: None,
        }),
        provider: None,
    });
    let wire = WireError::from_error(&error, report(&error));
    assert_eq!(wire.data.as_ref().map(|data| data.report.kind.as_str()), Some("git"));
    let Error::Git(failure) = wire.into_error() else {
        panic!("expected git failure");
    };
    assert_eq!(failure.operation, "git clone");
    assert_eq!(failure.kind, GitFailureKind::RefNotFound);
    let output = failure.output.expect("command output crosses");
    assert_eq!(output.exit_code, Some(128));
    assert!(String::from_utf8_lossy(&output.stderr).contains("refs/tags/v9"));

    let mut native = ProviderError::new("test".to_owned(), "authentication failed".to_owned());
    native.code = Some("auth".into());
    let Error::Git(failure) = crossed(Error::Git(GitFailure {
        operation: "git clone".to_owned(),
        kind: GitFailureKind::AuthRejected,
        output: None,
        provider: Some(native),
    })) else {
        panic!("expected git failure");
    };
    assert_eq!(failure.kind, GitFailureKind::AuthRejected);
    assert!(failure.output.is_none());
    assert_eq!(failure.provider.and_then(|provider| provider.code), Some("auth".to_owned()));

    // A peer that leaves the duration out sends a failure without one.
    let old_shape = ExecDetail {
        label: "probe".to_owned(),
        termination: Termination::Exited,
        exit_code: Some(3),
        stdout_b64: String::new(),
        stderr_b64: String::new(),
        duration_ms: None,
    };
    let failure = exec_failure(old_shape).expect("old exec detail decodes");
    assert_eq!(failure.duration, None);

    let Error::Io { context, io_kind, source } = crossed(Error::Io {
        context: "reading plugin executable".to_owned(),
        io_kind: IoErrorKind::Other(1),
        source: RemoteCause::new("binary disappeared".to_owned()),
    }) else {
        panic!("expected I/O failure");
    };
    assert_eq!(context, "reading plugin executable");
    assert_eq!(io_kind, IoErrorKind::Unspecified);
    assert_eq!(source.message, "binary disappeared");

    let Error::Transport(transport) = crossed(Error::Transport(TransportError::with_source(
        "reading plugin response",
        "pipe closed".to_owned(),
    ))) else {
        panic!("expected transport failure");
    };
    assert_eq!(transport.context, "reading plugin response");
    assert_eq!(transport.source.expect("remote transport cause").message, "pipe closed");
}

#[test]
fn bytes_cross_in_padded_base64() {
    assert_eq!(encode_bytes(b"out"), "b3V0");
    assert_eq!(encode_bytes(b"o"), "bw==");
    assert_eq!(encode_bytes(b""), "");
    assert_eq!(decode_bytes("b3V0").expect("decodes"), b"out");
    let Err(Error::InvalidSpec { field, .. }) = decode_bytes("not base64!") else {
        panic!("refused");
    };
    assert_eq!(field, "base64");
}

#[test]
fn a_chain_of_causes_crosses_in_order() {
    let error = Error::Transport(TransportError {
        context: "outer".to_owned(),
        source: Some(RemoteCause {
            message: "middle".to_owned(),
            source: Some(Box::new(RemoteCause::new("inner".to_owned()))),
        }),
    });
    assert_eq!(error.causes(), vec!["middle".to_owned(), "inner".to_owned()]);
    let Error::Transport(back) = crossed(error) else {
        panic!("expected transport failure");
    };
    assert_eq!(
        back.source.expect("cause").messages(),
        vec!["middle".to_owned(), "inner".to_owned()]
    );
}

#[test]
fn an_envelope_error_is_a_plugin_failure_with_its_code() {
    let wire = WireError::envelope(-32601, "unknown method x".to_owned());
    let error = wire.into_error();
    assert!(is_method_not_found(&error));
    let Error::Provider(provider) = error else {
        panic!("expected provider failure");
    };
    assert_eq!(provider.provider, "plugin");
    assert_eq!(provider.message, "unknown method x");
    assert_eq!(provider.code.as_deref(), Some("-32601"));
    assert!(!provider.retryable);

    let other = WireError::envelope(-32600, "malformed".to_owned()).into_error();
    assert!(!is_method_not_found(&other));
    assert!(!is_method_not_found(&Error::overloaded("active_io")));
}

#[test]
fn a_kind_without_a_typed_form_keeps_its_report() {
    let error = Error::Other { kind: "quota".to_owned() };
    let wire = WireError::from_error(
        &error,
        ErrorReport {
            kind: error.kind(),
            message: "out of quota".to_owned(),
            retryable: true,
            causes: vec!["limit 3".to_owned()],
        },
    );
    let Error::Provider(provider) = wire.into_error() else {
        panic!("expected provider failure");
    };
    assert_eq!(provider.message, "out of quota");
    assert_eq!(provider.code.as_deref(), Some("quota"));
    assert!(provider.retryable);
}

#[test]
fn details_are_read_by_their_kind() {
    assert!(matches!(detail_shape("overloaded"), DetailShape::Overloaded));
    assert!(matches!(detail_shape("git"), DetailShape::Git));
    assert!(matches!(detail_shape("something else"), DetailShape::Unread));
    assert!(matches!(detail_of(&Error::overloaded("active_io")),
        ErrorDetail::Overloaded { limit, not_started: true } if limit == "active_io"));
    assert!(typed_error("quota", ErrorDetail::Empty, &[]).is_none());
}

#[test]
fn messages_are_built_and_logged_without_their_payload() {
    let request = Message::request(7, "exec/stop", Value::Bool(true));
    assert_eq!(request.jsonrpc, "2.0");
    assert_eq!(request.id, Some(7));
    assert_eq!(request.method.as_deref(), Some("exec/stop"));
    assert_eq!(request.params, Some(Value::Bool(true)));
    assert_eq!(
        request.redacted(),
        "Message { id: Some(7), method: Some(\"exec/stop\"), body: \"<redacted>\", .. }"
    );

    let notification = Message::notification("host/event", Value::Null);
    assert_eq!(notification.id, None);
    let response = Message::response(3, Value::Null);
    assert_eq!(response.id, Some(3));
    assert_eq!(response.result, Some(Value::Null));
    let failed =
        Message::error_response(4, WireError::envelope(-32600, "malformed".to_owned()));
    assert_eq!(failed.error.expect("error").code, -32600);
}
