use sandbox_driver_protocol::channel::{ChannelListener, ChannelRequest};
use sandbox_driver_protocol::client::Client;
use sandbox_driver_protocol::driver::{
    Capabilities, Capability, Error, ExecSpec, ForkOptions, OutputSanitization,
    SandboxSnapshotOptions, SandboxSource, SandboxSpec, SnapshotMode, SnapshotSource, SnapshotSpec,
};
use sandbox_driver_protocol::limits::TransportLimits;
use sandbox_driver_protocol::methods::{
    InitializeResult, ProviderInfo, SandboxSourceDto, SnapshotSourceDto,
};
use sandbox_driver_protocol::provider::PluginProvider;
use sandbox_driver_protocol::sandbox::SandboxHandle;
use sandbox_driver_protocol::services::{ProviderSnapshots, ProviderVolumes, SnapshotAction};
use sandbox_driver_protocol::table::Table;
use serde_json::Value;
use std::time::Duration;

fn capabilities(all: bool) -> Capabilities {
    Capabilities {
        exec_environment: all,
        exec_stdin_stream: all,
        search_native: all,
        services_native: all,
        git_native: all,
        access_shell_command: all,
        access_preview_urls: all,
        access_ssh: all,
        access_ssh_ttl: all,
        access_ssh_revoke: all,
        access_web_terminal: all,
        access_vnc: all,
        snapshots: all,
        volumes: all,
        one_shot: all,
        pty: all,
        logs: all,
        rest: Value::Null,
    }
}

fn handle(all: bool) -> SandboxHandle {
    SandboxHandle::new(
        "sb-1".to_owned(),
        capabilities(all),
        "/work".to_owned(),
        Some("/run".to_owned()),
        None,
    )
}

fn client() -> Client {
    Client::start(TransportLimits::default())
}

fn channel() -> ChannelRequest {
    ChannelListener::bind(1, "/tmp/data.sock".to_owned()).expect().expect("admitted")
}

fn text(value: &str) -> Value {
    Value::String(value.to_owned())
}

#[test]
fn facets_follow_the_capabilities() {
    let full = handle(true);
    assert_eq!(full.provider_git().expect("git").runtime_directory.as_deref(), Some("/run"));
    assert_eq!(full.one_shot().expect("one shot").sandbox_id, "sb-1");
    assert_eq!(full.preview_urls().expect("previews").sandbox_id, "sb-1");
    assert!(full.ssh().is_some() && full.web_terminal().is_some() && full.vnc().is_some());
    assert!(full.pty().is_some() && full.logs().is_some());
    let empty = handle(false);
    assert!(empty.provider_git().is_none() && empty.one_shot().is_none());
    assert!(empty.preview_urls().is_none() && empty.ssh().is_none());
    assert!(empty.web_terminal().is_none() && empty.vnc().is_none());
    assert!(empty.pty().is_none() && empty.logs().is_none());
    assert_eq!(full.environment().ok().map(|asked| asked.method), Some("sandbox/environment"));
    assert!(matches!(
        empty.environment(),
        Err(Error::Unsupported { capability: Capability::ExecEnvironment })
    ));
}

#[test]
fn a_sandbox_is_asked_for_by_its_id() {
    let handle = handle(true);
    assert_eq!(handle.id_params().sandbox_id, "sb-1");
    for (asked, method) in [
        (handle.describe(), "sandbox/describe"),
        (handle.platform_info(), "sandbox/platform_info"),
        (handle.start(), "sandbox/start"),
        (handle.stop(), "sandbox/stop"),
        (handle.delete(), "sandbox/delete"),
        (handle.pause(), "sandbox/pause"),
        (handle.resume(), "sandbox/resume"),
        (handle.archive(), "sandbox/archive"),
        (handle.recover(), "sandbox/recover"),
        (handle.refresh_activity(), "sandbox/refresh_activity"),
        (handle.access.web_terminal_url(), "access/web_terminal"),
        (handle.access.vnc_connection(), "access/vnc"),
    ] {
        assert_eq!(asked.method, method);
        assert_eq!(asked.params.sandbox_id, "sb-1");
    }
    let fork = handle.fork_request(&ForkOptions { name: Some("twin".to_owned()) });
    assert_eq!(fork.method, "sandbox/fork");
    assert_eq!(fork.params.options.name.as_deref(), Some("twin"));
    assert!(fork.params.options.include_memory);
    let live = SandboxSnapshotOptions { name: None, mode: SnapshotMode::LiveProcessState };
    assert!(handle.snapshot(&live).params.options.include_memory);
    let files = SandboxSnapshotOptions { name: None, mode: SnapshotMode::Filesystem };
    assert!(!handle.snapshot(&files).params.options.include_memory);
    assert_eq!(handle.resize(text("r")).params.resources, text("r"));
    assert_eq!(handle.set_timers(text("t")).params.timers, text("t"));
    assert_eq!(handle.update_network(text("n")).params.network, text("n"));
    let mut labels = Table::new();
    labels.insert("team".to_owned(), "a".to_owned());
    let asked = handle.set_labels(&labels);
    assert_eq!(asked.method, "sandbox/set_labels");
    assert_eq!(asked.params.labels.get("team").map(String::as_str), Some("a"));
}

#[test]
fn access_is_asked_for_in_whole_milliseconds() {
    let access = handle(true).access;
    let signed = access.signed_preview_url(80, &Duration::from_micros(2_500));
    assert_eq!(signed.method, "access/signed_preview_url");
    assert_eq!((signed.params.port, signed.params.expires_in_ms), (80, 2));
    assert_eq!(access.preview_url(81).params.port, 81);
    assert_eq!(access.preview_release(82).method, "access/preview_release");
    assert_eq!(access.ssh_access(Some(Duration::from_secs(1))).params.ttl_ms, Some(1000));
    assert_eq!(access.ssh_access(Some(Duration::MAX)).params.ttl_ms, Some(u64::MAX));
    assert_eq!(access.ssh_access(None).params.ttl_ms, None);
    assert_eq!(access.revoke_ssh_access("t").params.token, "t");
}

#[test]
fn a_command_is_asked_for_with_its_channel() {
    let mut env = Table::new();
    env.insert("A".to_owned(), "1".to_owned());
    let spec = ExecSpec {
        program: "ls".to_owned(),
        args: vec!["-l".to_owned()],
        timeout: Some(Duration::from_micros(1_999)),
        stop_grace: None,
        working_dir: None,
        env,
        output_sanitization: OutputSanitization::Raw,
        stdin: None,
    };
    let handle = handle(true);
    let mut client = client();
    let asked = handle.exec_facet.run_streaming(&mut client, channel(), &spec, true, Some(3));
    assert_eq!(asked.method, "exec/stream");
    let params = asked.params;
    assert_eq!(params.exec_id, "xsb-1-1");
    assert_eq!(params.spec.timeout_ms, Some(1));
    assert_eq!(params.spec.env.get("A").map(String::as_str), Some("1"));
    assert_eq!(params.channel.channel_id, 1);
    assert!(params.stdin);
    assert_eq!(params.retained_output_limit, Some(3));
    let back = params.spec.into_spec();
    assert_eq!(back.timeout, Some(Duration::from_millis(1)));
    assert_eq!(back.args, vec!["-l".to_owned()]);
    let again = handle.one_shot_facet.run(&mut client, channel(), text("spec"), None);
    assert_eq!(again.method, "one_shot/run");
    assert_eq!(again.params.exec_id, "xsb-1-2");
}

#[test]
fn streams_get_names_of_their_own() {
    let handle = handle(true);
    let mut client = client();
    let process = handle.exec_facet.spawn_stdio(&mut client, channel(), text("p"));
    assert_eq!(process.params.process_id, "stdio-1");
    let terminal = handle.pty_facet.open(&mut client, channel(), text("o"));
    assert_eq!(terminal.params.pty_id, "pty-2");
    let log = handle.logs_facet.follow(&mut client, channel(), text("s"));
    assert_eq!(log.params.stream_id, "logs-3");
    let build = ProviderSnapshots::build_logs(&mut client, "snap", true, channel());
    assert_eq!(build.params.stream_id, "snapshot-4");
    assert!(build.params.follow);
}

#[test]
fn files_are_asked_for_by_path() {
    let fs = handle(true).fs;
    let read = fs.read_through_channel("/a", channel(), Some(4), None);
    assert_eq!((read.method, read.params.offset, read.params.length), ("fs/read", Some(4), None));
    let write = fs.write_through_channel("/a", channel(), 9, true);
    assert_eq!((write.params.append, write.params.content_length), (true, Some(9)));
    assert!(fs.delete("/a", true).params.recursive);
    assert_eq!(fs.exists_at("/a").method, "fs/exists");
    assert_eq!(fs.metadata("/a").method, "fs/metadata");
    assert_eq!(fs.list_dir("/a", 3).params.depth, 3);
    assert_eq!(fs.create_dir("/b").params.path, "/b");
    let rename = fs.rename("/a", "/b").params;
    assert_eq!((rename.from.as_str(), rename.to.as_str()), ("/a", "/b"));
    assert_eq!(fs.set_permissions("/a", 0o644).params.mode, 0o644);
    let clone = handle(true).git_facet.clone_request("url", "/repo", text("o"));
    assert_eq!(clone.method, "git/clone");
    assert_eq!((clone.params.url.as_str(), clone.params.target_path.as_str()), ("url", "/repo"));
}

#[test]
fn services_route_their_events() {
    let mut client = client();
    let spec = |source| SnapshotSpec {
        name: None,
        source,
        sandbox_kind: None,
        region: None,
        resources: Value::Null,
        provider_config: Value::Null,
    };
    let image = spec(SnapshotSource::Image { reference: "base".to_owned() });
    let created = ProviderSnapshots::create(&mut client, &image, Some(7), None);
    let params = created.ok().expect("crosses").params;
    assert!(matches!(params.spec.source, SnapshotSourceDto::Image { .. }));
    assert_eq!(params.events.expect("route").route_id, "event-1");
    assert_eq!(client.event_routes.get("event-1"), Some(7));
    let other = spec(SnapshotSource::Other(0));
    let refused = ProviderSnapshots::create(&mut client, &other, Some(8), None);
    assert!(matches!(
        refused.err(),
        Some(Error::InvalidSpec { field, reason })
            if field == "source" && reason == "unsupported snapshot source"
    ));
    assert_eq!(client.event_routes.get("event-2"), Some(8));
    for (action, method) in [
        (SnapshotAction::Delete, "snapshot/delete"),
        (SnapshotAction::Activate, "snapshot/activate"),
        (SnapshotAction::Deactivate, "snapshot/deactivate"),
    ] {
        let asked = ProviderSnapshots::with_events(&mut client, action, "snap", None, None);
        assert_eq!(asked.method, method);
        assert!(asked.params.events.is_none());
    }
    assert_eq!(ProviderSnapshots::get("snap").params.snapshot_id, "snap");
    assert_eq!(ProviderSnapshots::list(Value::Null).method, "snapshot/list");
    let correlation = Some("c".to_owned());
    let volume = ProviderVolumes::create(&mut client, text("v"), Some(9), correlation);
    let route = volume.params.events.expect("route");
    assert_eq!(route.route_id, "event-3");
    assert_eq!(route.correlation_id.as_deref(), Some("c"));
    assert_eq!(ProviderVolumes::get("vol").method, "volume/get");
    assert_eq!(ProviderVolumes::list().method, "volume/list");
    let gone = ProviderVolumes::delete(&mut client, "vol", None, None);
    assert_eq!((gone.method, gone.params.volume_id.as_str()), ("volume/delete", "vol"));
}

#[test]
fn sandboxes_are_made_and_found_through_the_provider() {
    let mut provider = PluginProvider::connect(1, "/tmp/data.sock".to_owned())
        .ok()
        .expect("connecting")
        .initialized(InitializeResult {
            protocol_version: 2,
            provider: ProviderInfo { kind: "e2b".to_owned(), version: "1".to_owned() },
            capabilities: capabilities(true),
        })
        .ok()
        .expect("initialized");
    let spec = |source| SandboxSpec {
        name: None,
        source,
        resources: Value::Null,
        sandbox_kind: None,
        env: Table::new(),
        labels: Table::new(),
        user: None,
        working_directory: None,
        workspace_ownership: None,
        network: Value::Null,
        volumes: Vec::new(),
        timers: Value::Null,
        ephemeral: true,
        public: None,
        region: None,
        provider_config: Value::Null,
    };
    let asked = provider.create(&spec(SandboxSource::HostDirectory), Some(5), None);
    let params = asked.ok().expect("crosses").params;
    assert!(matches!(params.spec.source, SandboxSourceDto::HostDirectory));
    assert!(params.spec.ephemeral);
    assert_eq!(params.events.expect("route").route_id, "event-1");
    assert!(provider.create(&spec(SandboxSource::Other(3)), None, None).is_err());
    let found = provider.open_handle(false, "sb-1", None, None);
    assert_eq!((found.method, found.params.sandbox_id.as_str()), ("sandbox/attach", "sb-1"));
    assert_eq!(provider.open_handle(true, "sb-1", None, None).method, "sandbox/undelete");
    let gone = provider.delete("sb-1", Some(6), None);
    assert_eq!(gone.method, "sandbox/delete");
    assert_eq!(gone.params.events.expect("route").route_id, "event-2");
    assert_eq!(PluginProvider::list(text("f")).params.filter, text("f"));
}
