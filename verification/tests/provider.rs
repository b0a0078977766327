use sandbox_driver_protocol::channel::TrustedPeer;
use sandbox_driver_protocol::client::CleanupEnd;
use sandbox_driver_protocol::diagnostics::ServerDiagnostics;
use sandbox_driver_protocol::discovery::{
    check_pin, enforce_checksum, file_sha256, is_executable_file, launch_environment,
    launch_plugin, plugin_name, resolve_on_search_path, resolve_plugin_binary, unreadable_binary,
    FileFacts, PluginConfig, PluginLaunch, Resolved,
};
use sandbox_driver_protocol::driver::{
    Capabilities, Capability, Error, HealthStatus, IoError, IoErrorKind, ProviderHealth,
    ResourceKind,
};
use sandbox_driver_protocol::limits::TransportLimits;
use sandbox_driver_protocol::methods::{
    HandleInfo, HealthResult, InitializeResult, ProviderInfo,
};
use sandbox_driver_protocol::provider::{answered_id, PluginProvider, ShutdownEnd, Spawned};
use sandbox_driver_protocol::sandbox::{CloneStep, SandboxAccess, SandboxGit};
use sandbox_driver_protocol::supervisor::{
    health_refusal, identity_changed, launch_generation, snapshot_service, volume_service,
    CurrentStep, PluginGeneration, PluginSupervisor,
};
use sandbox_driver_protocol::table::Table;
use sandbox_driver_protocol::wire::WireError;
use serde_json::Value;
use std::time::Duration;

fn failure(rendered: &str) -> IoError {
    IoError { kind: IoErrorKind::Other(1), rendered: rendered.to_owned() }
}

fn capabilities() -> Capabilities {
    Capabilities {
        exec_environment: false,
        exec_stdin_stream: true,
        search_native: true,
        services_native: true,
        git_native: true,
        access_shell_command: true,
        access_preview_urls: true,
        access_ssh: false,
        access_ssh_ttl: false,
        access_ssh_revoke: false,
        access_web_terminal: false,
        access_vnc: true,
        snapshots: true,
        volumes: false,
        one_shot: true,
        pty: false,
        logs: true,
        rest: Value::Null,
    }
}

fn answer(version: u32, kind: &str) -> InitializeResult {
    InitializeResult {
        protocol_version: version,
        provider: ProviderInfo { kind: kind.to_owned(), version: "1".to_owned() },
        capabilities: capabilities(),
    }
}

fn provider(kind: &str) -> PluginProvider {
    PluginProvider::connect(1, "/tmp/data.sock".to_owned())
        .ok()
        .expect("connecting")
        .initialized(answer(2, kind))
        .ok()
        .expect("initialized")
}

fn generation(number: u64, identity: Option<&str>) -> PluginGeneration<PluginProvider> {
    let mut health = ProviderHealth::new(HealthStatus::Healthy);
    health.identity = identity.map(str::to_owned);
    let launched = PluginLaunch {
        provider: provider("somekind"),
        path: "/bin/plugin".to_owned(),
        verified: true,
    };
    launch_generation(launched, Ok(health), "somekind", number).ok().expect("served")
}

#[test]
fn resolves_by_naming_convention_on_the_search_path() {
    let name = plugin_name("testpfx", "somekind");
    assert_eq!(name, "testpfx-somekind");
    let executable = Some(FileFacts { is_file: true, mode: 0o755 });
    assert_eq!(resolve_on_search_path(&vec![executable]), Some(0));
    // A non-executable file is not a candidate.
    let plain = Some(FileFacts { is_file: true, mode: 0o644 });
    assert_eq!(resolve_on_search_path(&vec![plain]), None);
    let directory = Some(FileFacts { is_file: false, mode: 0o755 });
    assert_eq!(
        resolve_on_search_path(&vec![None, directory, plain, executable, executable]),
        Some(3)
    );
    assert!(is_executable_file(Some(FileFacts { is_file: true, mode: 0o001 })));
    assert!(!is_executable_file(None));
}

#[test]
fn an_explicit_path_has_no_fallback() {
    let executable = Some(FileFacts { is_file: true, mode: 0o755 });
    let config = PluginConfig::new("e2b".to_owned()).path("/opt/plugin".to_owned());
    assert!(matches!(
        resolve_plugin_binary("pfx", &config, executable, &vec![]),
        Ok(Resolved::Explicit)
    ));
    assert!(matches!(
        resolve_plugin_binary("pfx", &config, None, &vec![executable]),
        Err(Error::NotFound { resource: ResourceKind::Plugin, id }) if id == "/opt/plugin"
    ));
    let searched = PluginConfig::new("e2b".to_owned());
    assert!(matches!(
        resolve_plugin_binary("pfx", &searched, None, &vec![None, executable]),
        Ok(Resolved::OnPath(1))
    ));
    assert!(matches!(
        resolve_plugin_binary("pfx", &searched, None, &vec![None]),
        Err(Error::NotFound { resource: ResourceKind::Plugin, id })
            if id == "pfx-e2b (searched PATH)"
    ));
}

#[test]
fn checksums_are_enforced_in_both_directions() {
    let binary = b"payload";
    let good = file_sha256(binary);
    let pinned = PluginConfig::new("somekind".to_owned()).sha256(good.to_uppercase());
    assert!(enforce_checksum("/tmp/plugin", &pinned, binary).expect("verifies"));
    let padded = PluginConfig::new("somekind".to_owned()).sha256(format!("\u{2003}{good}\n"));
    assert!(enforce_checksum("/tmp/plugin", &padded, binary).expect("verifies"));

    let wrong = PluginConfig::new("somekind".to_owned()).sha256("deadbeef".to_owned());
    let error = enforce_checksum("/tmp/plugin", &wrong, binary).expect_err("mismatch");
    let Error::InvalidSpec { field, reason } = error else {
        panic!("invalid spec expected");
    };
    assert_eq!(field, "sha256");
    assert_eq!(
        reason,
        format!("checksum mismatch for /tmp/plugin: pinned deadbeef, found {good}")
    );

    let unpinned = PluginConfig::new("somekind".to_owned());
    assert!(matches!(enforce_checksum("/tmp/plugin", &unpinned, binary),
        Err(Error::InvalidSpec { reason, .. }) if reason
            == "plugin somekind has no pinned sha256; pin one or explicitly mark the plugin dev"));

    let dev = PluginConfig::new("somekind".to_owned()).dev(true);
    assert!(!enforce_checksum("/tmp/plugin", &dev, binary).expect("dev mode allowed"));
}

#[test]
fn a_digest_is_the_well_known_one() {
    assert_eq!(
        file_sha256(b"abc"),
        "ba7816bf8f01cfea414140de5dae2223b00361a396177a9cb410ff61f20015ad"
    );
    assert_eq!(
        file_sha256(b""),
        "e3b0c44298fc1c149afbf4c8996fb92427ae41e4649b934ca495991b7852b855"
    );
    let config = PluginConfig::new("k".to_owned()).sha256(" AB ".to_owned());
    assert!(check_pin("/p", &config, "ab").expect("matches"));
    assert!(check_pin("/p", &config, "ac").is_err());
    assert!(check_pin("/p", &config, "abc").is_err());
    assert!(matches!(unreadable_binary("/p", failure("denied")),
        Error::Io { context, io_kind: IoErrorKind::Other(1), source }
            if context == "reading /p" && source.message == "denied"));
}

#[test]
fn a_child_gets_what_is_set_or_forwarded_for_it() {
    let config = PluginConfig::new("k".to_owned())
        .arg("--serve".to_owned())
        .env_var("TOKEN".to_owned(), "mine".to_owned())
        .inherit_env_var("PATH".to_owned())
        .inherit_env_var("TOKEN".to_owned());
    assert_eq!(config.args, vec!["--serve".to_owned()]);
    let environment = launch_environment(&config);
    assert_eq!(environment.forwarded, vec!["PATH".to_owned()]);
    assert_eq!(environment.declared.get("TOKEN").map(String::as_str), Some("mine"));

    let mut ambient = Table::new();
    ambient.insert("PATH".to_owned(), "/bin".to_owned());
    ambient.insert("TOKEN".to_owned(), "theirs".to_owned());
    ambient.insert("SECRET".to_owned(), "hidden".to_owned());
    let frozen = config.frozen(&ambient);
    assert!(frozen.inherit_env.is_empty());
    assert_eq!(frozen.env.get("PATH").map(String::as_str), Some("/bin"));
    assert_eq!(frozen.env.get("TOKEN").map(String::as_str), Some("mine"));
    assert!(frozen.env.get("SECRET").is_none());
    assert!(launch_environment(&frozen).forwarded.is_empty());
}

#[test]
fn a_plugin_of_another_kind_is_refused() {
    let config = PluginConfig::new("e2b".to_owned());
    let launch =
        launch_plugin(7, "e2b", "/bin/plugin".to_owned(), true, &config).ok();
    assert!(launch.expect("launched").verified);
    let Err(refused) =
        launch_plugin(8, "daytona", "/bin/plugin".to_owned(), true, &config)
    else {
        panic!("refused");
    };
    assert!(matches!(refused.error, Error::InvalidSpec { field, reason } if field == "kind"
        && reason
            == "plugin at /bin/plugin declares kind daytona but was configured as e2b"));
    assert_eq!(refused.provider, 8);
}

#[test]
fn a_connection_begins_with_a_handshake() {
    let connecting =
        PluginProvider::connect(7, "/tmp/data.sock".to_owned()).ok().expect("connecting");
    assert_eq!(connecting.params.protocol_version, 2);
    assert_eq!(connecting.params.data_transport.socket_path, "/tmp/data.sock");
    assert!(matches!(connecting.listener.peer, TrustedPeer::Process(7)));
    let Err(error) = connecting.initialized(answer(1, "e2b")) else {
        panic!("refused");
    };
    assert!(matches!(error, Error::InvalidSpec { field, reason } if field == "protocol_version"
        && reason == "host speaks protocol version 2 but the plugin answered 1"));
    let bad = TransportLimits { active_io: 0, ..TransportLimits::default() };
    assert!(PluginProvider::connect_with_limits(
        bad,
        TrustedPeer::User(1),
        "/tmp/data.sock".to_owned()
    )
    .is_err());
}

#[test]
fn a_started_process_is_the_trusted_peer() {
    let connecting =
        PluginProvider::spawn(Spawned::Running { pid: 99 }, "/tmp/data.sock".to_owned())
            .ok()
            .expect("connecting");
    assert!(matches!(connecting.listener.peer, TrustedPeer::Process(99)));
    let mut provider = connecting.initialized(answer(2, "e2b")).ok().expect("initialized");
    assert_eq!(provider.process_id(), Some(99));
    assert_eq!(provider.begin_shutdown(), Some(99));
    assert_eq!(provider.process_id(), None);
    assert!(PluginProvider::shutdown(ShutdownEnd::Acknowledged).is_ok());
    assert!(matches!(
        PluginProvider::shutdown(ShutdownEnd::ReapFailed { source: failure("gone") }),
        Err(Error::Io { context, .. }) if context == "reaping plugin process"
    ));
    assert!(matches!(
        PluginProvider::spawn(Spawned::Exited, String::new()).err(),
        Some(Error::Transport(error)) if error.context == "plugin exited before initialization"
    ));
    assert!(matches!(
        PluginProvider::spawn(Spawned::Failed { source: failure("x") }, String::new()).err(),
        Some(Error::Io { context, io_kind: IoErrorKind::Other(1), .. })
            if context == "spawning plugin process"
    ));
}

#[test]
fn capabilities_are_reduced_to_what_crosses() {
    let mut provider = provider("e2b");
    assert!(!provider.capabilities.search_native);
    assert!(!provider.capabilities.services_native);
    assert!(!provider.capabilities.access_shell_command);
    assert!(provider.capabilities.git_native);
    assert!(provider.snapshots);
    assert!(!provider.volumes);
    let info = || HandleInfo {
        status: Value::Null,
        capabilities: capabilities(),
        working_directory: "/work".to_owned(),
        runtime_directory: None,
    };
    let handle = provider.wrap_handle(info(), "sb-1".to_owned(), Some(4));
    assert!(!handle.capabilities.search_native);
    assert_eq!(provider.client.event_contexts.get("sb-1"), Some(4));
    let fork = handle.fork(&mut provider.client, info(), "sb-2".to_owned());
    assert_eq!(fork.id, "sb-2");
    assert!(fork.capabilities.search_native);
    assert!(fork.capabilities.git_native);
    assert_eq!(provider.client.event_contexts.get("sb-2"), Some(4));
    let silent = provider.wrap_handle(info(), "sb-3".to_owned(), None);
    assert_eq!(silent.events, None);
    assert_eq!(provider.client.event_contexts.get("sb-3"), None);
}

#[test]
fn a_plugin_without_a_method_is_no_failure_where_nothing_is_lost() {
    let missing = || WireError::envelope(-32601, "unknown method".to_owned()).into_error();
    let health = PluginProvider::health(Err(missing())).expect("no check");
    assert_eq!(health.status, HealthStatus::Unknown);
    assert!(PluginProvider::health(Err(Error::overloaded("x"))).is_err());
    let report = HealthResult { health: ProviderHealth::new(HealthStatus::Unreachable) };
    assert_eq!(
        PluginProvider::health(Ok(report)).expect("report").status,
        HealthStatus::Unreachable
    );
    assert!(SandboxAccess::release_preview_url(Err(missing())).is_ok());
    assert!(SandboxAccess::release_preview_url(Err(Error::overloaded("x"))).is_err());
    assert!(matches!(SandboxGit::clone_repo(Err(missing())), CloneStep::Derive));
    assert!(matches!(SandboxGit::clone_repo(Ok(())), CloneStep::Done(Ok(()))));
    assert!(matches!(answered_id("snapshot_id", "s".to_owned(), Ok(())), Ok(id) if id == "s"));
    assert!(matches!(
        answered_id("volume_id", "s".to_owned(), Err("empty".to_owned())),
        Err(Error::InvalidSpec { field, reason }) if field == "volume_id" && reason == "empty"
    ));
}

#[test]
fn diagnostics_join_both_sides() {
    let mut provider = provider("e2b");
    provider.listener.expect().expect("admitted");
    provider.listener.record_open(&Duration::from_micros(3));
    provider.client.own_cleanup(CleanupEnd::TimedOut);
    provider.client.begin_stop();
    let call = provider.client.begin_call("test").expect("admitted");
    provider.client.await_answer(&call).expect("open");
    let diagnostics =
        provider.transport_diagnostics(ServerDiagnostics::default(), 2, 3);
    assert_eq!(diagnostics.client.active_io, 1);
    assert_eq!(diagnostics.client.pending_opens, 1);
    assert_eq!(diagnostics.client.pending_requests, 1);
    assert_eq!(diagnostics.client.failed_cleanups, 1);
    assert_eq!(diagnostics.client.stop_requests, 1);
    assert_eq!(diagnostics.client.cleanup_tasks, 2);
    assert_eq!(diagnostics.client.runtime_tasks, 3);
    assert_eq!(diagnostics.server.execs, 0);
    assert_eq!(
        provider.cleanup_error().expect("remembered").context,
        "resource cleanup timed out"
    );
    assert!(provider.event_delivery_error().is_none());
    assert_eq!(provider.take_channel_setup_samples_us(), vec![3]);
    assert!(!provider.is_closed());
}

#[test]
fn a_healthy_backend_and_a_provider_without_a_check_both_serve() {
    for status in [HealthStatus::Healthy, HealthStatus::Unknown] {
        assert!(
            health_refusal("somekind", &ProviderHealth::new(status)).is_none(),
            "{status:?}"
        );
    }
}

#[test]
fn an_unreachable_backend_is_a_provider_failure_carrying_the_detail() {
    let mut health = ProviderHealth::new(HealthStatus::Unreachable);
    health.message = Some("pinging the daemon failed".to_owned());
    let error = health_refusal("somekind", &health).expect("refused");
    let Error::Provider(provider) = error else {
        panic!("provider failure expected");
    };
    assert_eq!(provider.code.as_deref(), Some("unreachable"));
    assert_eq!(provider.provider, "somekind");
    assert!(provider.message.contains("pinging the daemon failed"));
}

#[test]
fn a_rejected_credential_is_an_authentication_failure_naming_the_missing_permissions() {
    let mut health = ProviderHealth::new(HealthStatus::Unauthorized);
    health.missing_permissions =
        vec!["read:sandboxes".to_owned(), "write:sandboxes".to_owned()];
    let error = health_refusal("somekind", &health).expect("refused");
    let Error::Auth(auth) = error else {
        panic!("authentication failure expected");
    };
    let message = auth.reason;
    assert!(message.contains("the plugin gave no detail"), "{message}");
    assert!(message.contains("read:sandboxes, write:sandboxes"), "{message}");
}

#[test]
fn a_changed_namespace_names_both_sides() {
    let error =
        identity_changed("somekind", &Some("organization:first".to_owned()), &None);
    let Error::Provider(provider) = error else {
        panic!("provider failure expected");
    };
    assert_eq!(provider.code.as_deref(), Some("identity_changed"));
    let message = provider.message;
    assert!(message.contains("organization:first"), "{message}");
    assert!(message.contains("namespace none"), "{message}");
}

#[test]
fn generations_are_replaced_and_numbered() {
    let mut supervisor = PluginSupervisor::launch(
        "pfx".to_owned(),
        PluginConfig::new("somekind".to_owned()),
        generation(1, Some("account")),
        &capabilities(),
    );
    assert!(matches!(supervisor.current(false), CurrentStep::Serve));
    assert!(supervisor.snapshots());
    assert!(!supervisor.volumes());
    supervisor
        .live
        .as_mut()
        .expect("live")
        .provider
        .client
        .mark_closed(sandbox_driver_protocol::driver::TransportError::new("gone"));
    let dead = supervisor.live.as_ref().expect("live").is_closed();
    let CurrentStep::Replace { closed, number } = supervisor.current(dead) else {
        panic!("replaced");
    };
    assert_eq!(number, 2);
    let closed = closed.expect("closed generation");
    assert!(closed.is_closed());
    assert_eq!(closed.number(), 1);
    let Err(refused) = supervisor.replace(generation(2, Some("other"))) else {
        panic!("another account is refused");
    };
    assert!(matches!(refused.error, Error::Provider(error)
        if error.message.contains("namespace other")
            && error.message.contains("reported account")));
    assert!(matches!(
        supervisor.current(false),
        CurrentStep::Replace { closed: None, number: 2 }
    ));
    assert!(supervisor.replace(generation(2, Some("account"))).is_ok());
    let live = supervisor.live.as_ref().expect("live");
    assert_eq!(live.number(), 2);
    assert_eq!(live.path(), "/bin/plugin");
    assert!(live.verified());
    assert_eq!(live.health().identity.as_deref(), Some("account"));
    assert_eq!(live.provider().kind, "somekind");
    assert!(snapshot_service(live.provider().snapshots).is_ok());
    assert!(matches!(
        volume_service(live.provider().volumes),
        Err(Error::Unsupported { capability: Capability::Volumes })
    ));
    assert_eq!(supervisor.shutdown().expect("live").number(), 2);
    assert!(matches!(supervisor.current(false), CurrentStep::Replace { number: 3, .. }));
}

#[test]
fn an_unready_backend_ends_the_launch() {
    let launched = || PluginLaunch {
        provider: provider("somekind"),
        path: "/bin/plugin".to_owned(),
        verified: false,
    };
    let unreachable = ProviderHealth::new(HealthStatus::Unreachable);
    let Err(refused) = launch_generation(launched(), Ok(unreachable), "somekind", 1) else {
        panic!("refused");
    };
    assert!(matches!(refused.error, Error::Provider(_)));
    let Err(refused) =
        launch_generation(launched(), Err(Error::overloaded("x")), "somekind", 1)
    else {
        panic!("refused");
    };
    assert!(matches!(refused.error, Error::Overloaded { .. }));
}
