//! Method names and the parameters and results that cross under them.
//!
//! Byte payloads never cross as JSON: every byte stream rides a data channel
//! of its own, named by a [`ChannelRequest`] in the request that needs it.
//! Driver values that the protocol never looks into are carried as JSON.

use crate::channel::{ChannelRequest, DataTransport};
use crate::driver::{
    invalid_spec, millis_of, nanos_of, opt_nanos, saturating_millis, Capabilities, CaptureStats,
    Error, ExecResult, ExecSpec, ExecStreamingResult, ForkOptions, OutputSanitization,
    ProviderHealth, SandboxSnapshotOptions, SandboxSource, SandboxSpec, SnapshotMode,
    SnapshotSource, SnapshotSpec, StopLevel, Termination,
};
use crate::table::Table;
use crate::text::{copy_opt_text, copy_texts, same_text};
use crate::wire::{quoted, quoted_text};
use serde_json::Value;
use std::time::Duration;
use vstd::prelude::*;

verus! {

/// Protocol version this crate speaks.
pub const PROTOCOL_VERSION: u32 = 2;

pub const INITIALIZE: &'static str = "initialize";

pub const SHUTDOWN: &'static str = "shutdown";

pub const SANDBOX_CREATE: &'static str = "sandbox/create";

pub const SANDBOX_ATTACH: &'static str = "sandbox/attach";

pub const SANDBOX_LIST: &'static str = "sandbox/list";

pub const SANDBOX_DESCRIBE: &'static str = "sandbox/describe";

pub const SANDBOX_PLATFORM_INFO: &'static str = "sandbox/platform_info";

pub const SANDBOX_START: &'static str = "sandbox/start";

pub const SANDBOX_STOP: &'static str = "sandbox/stop";

pub const SANDBOX_DELETE: &'static str = "sandbox/delete";

pub const SANDBOX_PAUSE: &'static str = "sandbox/pause";

pub const SANDBOX_RESUME: &'static str = "sandbox/resume";

pub const SANDBOX_ARCHIVE: &'static str = "sandbox/archive";

pub const SANDBOX_RECOVER: &'static str = "sandbox/recover";

pub const SANDBOX_UNDELETE: &'static str = "sandbox/undelete";

pub const SANDBOX_REFRESH_ACTIVITY: &'static str = "sandbox/refresh_activity";

pub const SANDBOX_FORK: &'static str = "sandbox/fork";

pub const SANDBOX_CHECKPOINT: &'static str = "sandbox/checkpoint";

pub const SANDBOX_RESTORE_CHECKPOINT: &'static str = "sandbox/restore_checkpoint";

pub const SANDBOX_RESIZE: &'static str = "sandbox/resize";

pub const SANDBOX_SNAPSHOT: &'static str = "sandbox/snapshot";

pub const SANDBOX_SET_TIMERS: &'static str = "sandbox/set_timers";

pub const SANDBOX_SET_LABELS: &'static str = "sandbox/set_labels";

pub const SANDBOX_UPDATE_NETWORK: &'static str = "sandbox/update_network";

pub const SANDBOX_ENVIRONMENT: &'static str = "sandbox/environment";

pub const EXEC_STREAM: &'static str = "exec/stream";

pub const EXEC_STOP: &'static str = "exec/stop";

pub const EXEC_STDIO_OPEN: &'static str = "exec/stdio_open";

pub const EXEC_STDIO_TERMINATE: &'static str = "exec/stdio_terminate";

pub const EXEC_STDIO_WAIT: &'static str = "exec/stdio_wait";

pub const ONE_SHOT_RUN: &'static str = "one_shot/run";

pub const PTY_OPEN: &'static str = "pty/open";

pub const PTY_RESIZE: &'static str = "pty/resize";

pub const PTY_CLOSE: &'static str = "pty/close";

pub const LOGS_FOLLOW: &'static str = "logs/follow";

pub const STREAM_CANCEL: &'static str = "stream/cancel";

pub const FS_READ: &'static str = "fs/read";

pub const FS_WRITE: &'static str = "fs/write";

pub const FS_DELETE: &'static str = "fs/delete";

pub const FS_EXISTS: &'static str = "fs/exists";

pub const FS_METADATA: &'static str = "fs/metadata";

pub const FS_LIST_DIR: &'static str = "fs/list_dir";

pub const FS_CREATE_DIR: &'static str = "fs/create_dir";

pub const FS_RENAME: &'static str = "fs/rename";

pub const FS_SET_PERMISSIONS: &'static str = "fs/set_permissions";

pub const GIT_CLONE: &'static str = "git/clone";

pub const SNAPSHOT_CREATE: &'static str = "snapshot/create";

pub const SNAPSHOT_GET: &'static str = "snapshot/get";

pub const SNAPSHOT_LIST: &'static str = "snapshot/list";

pub const SNAPSHOT_DELETE: &'static str = "snapshot/delete";

pub const SNAPSHOT_ACTIVATE: &'static str = "snapshot/activate";

pub const SNAPSHOT_DEACTIVATE: &'static str = "snapshot/deactivate";

pub const SNAPSHOT_BUILD_LOGS: &'static str = "snapshot/build_logs";

pub const TRANSPORT_DIAGNOSTICS: &'static str = "transport/diagnostics";

pub const PROVIDER_HEALTH: &'static str = "provider/health";

pub const VOLUME_CREATE: &'static str = "volume/create";

pub const VOLUME_GET: &'static str = "volume/get";

pub const VOLUME_LIST: &'static str = "volume/list";

pub const VOLUME_DELETE: &'static str = "volume/delete";

pub const ACCESS_PREVIEW_URL: &'static str = "access/preview_url";

pub const ACCESS_SIGNED_PREVIEW_URL: &'static str = "access/signed_preview_url";

pub const ACCESS_PREVIEW_RELEASE: &'static str = "access/preview_release";

pub const ACCESS_SSH_CREATE: &'static str = "access/ssh_create";

pub const ACCESS_SSH_REVOKE: &'static str = "access/ssh_revoke";

pub const ACCESS_WEB_TERMINAL: &'static str = "access/web_terminal";

pub const ACCESS_VNC: &'static str = "access/vnc";

/// Notification, plugin to host: an event of a sandbox.
pub const HOST_EVENT: &'static str = "host/event";

/// Notification, plugin to host: a log line.
pub const HOST_LOG: &'static str = "host/log";

/// Notification, plugin to host: an event could not be delivered.
pub const HOST_EVENT_FAILED: &'static str = "host/event_failed";

/// Parameters of `initialize`.
pub struct InitializeParams {
    pub protocol_version: u32,
    /// Where the plugin opens its data channels. Required in version 2.
    pub data_transport: DataTransport,
}

/// Result of `initialize`.
pub struct InitializeResult {
    pub protocol_version: u32,
    pub provider: ProviderInfo,
    pub capabilities: Capabilities,
}

/// Which provider answers.
pub struct ProviderInfo {
    pub kind: String,
    pub version: String,
}

/// Parameters of `sandbox/create`.
pub struct CreateParams {
    pub spec: SandboxSpecDto,
    pub events: Option<EventRequest>,
}

/// Routes an event stream back to the requesting host observer.
pub struct EventRequest {
    pub route_id: String,
    pub correlation_id: Option<String>,
}

/// How a sandbox is to be made, as it crosses. A snapshot source names its
/// snapshot in a field `name`.
pub struct SandboxSpecDto {
    pub name: Option<String>,
    pub source: SandboxSourceDto,
    pub resources: Value,
    pub sandbox_kind: Option<Value>,
    pub env: Table<String>,
    pub labels: Table<String>,
    pub user: Option<String>,
    pub working_directory: Option<String>,
    pub workspace_ownership: Option<Value>,
    pub network: Value,
    pub volumes: Vec<Value>,
    pub timers: Value,
    pub ephemeral: bool,
    pub public: Option<bool>,
    pub region: Option<String>,
    pub provider_config: Value,
}

/// What a sandbox is made from, as it crosses.
pub enum SandboxSourceDto {
    Image { reference: String },
    Dockerfile { content: String },
    Snapshot { name: String },
    HostDirectory,
}

/// A sandbox and where its events go.
pub struct AttachParams {
    pub sandbox_id: String,
    pub events: Option<EventRequest>,
}

/// Everything a client needs to build a remote sandbox handle.
pub struct HandleInfo {
    pub status: Value,
    pub capabilities: Capabilities,
    pub working_directory: String,
    pub runtime_directory: Option<String>,
}

/// Parameters of `sandbox/list`.
pub struct ListParams {
    pub filter: Value,
}

/// Result of `sandbox/list`.
pub struct ListResult {
    pub sandboxes: Vec<Value>,
}

/// One sandbox.
pub struct SandboxIdParams {
    pub sandbox_id: String,
}

/// Result of `sandbox/describe`.
pub struct StatusResult {
    pub status: Value,
}

/// Result of `sandbox/platform_info`.
pub struct PlatformInfoResult {
    pub platform: Value,
}

/// Parameters of `sandbox/fork`.
pub struct ForkParams {
    pub sandbox_id: String,
    pub options: ForkOptionsDto,
}

/// Fork options as they cross. Memory is not optional: callers always send
/// `include_memory: true`.
pub struct ForkOptionsDto {
    pub name: Option<String>,
    pub include_memory: bool,
}

/// Parameters of `sandbox/resize`.
pub struct ResizeParams {
    pub sandbox_id: String,
    pub resources: Value,
}

/// Parameters of `sandbox/snapshot`.
pub struct SnapshotParams {
    pub sandbox_id: String,
    pub options: SandboxSnapshotOptionsDto,
}

/// Snapshot options as they cross: whether the live process state is kept.
pub struct SandboxSnapshotOptionsDto {
    pub name: Option<String>,
    pub include_memory: bool,
}

/// Result of `sandbox/snapshot`.
pub struct SnapshotResult {
    pub snapshot_id: String,
}

/// Parameters of `sandbox/set_timers`.
pub struct SetTimersParams {
    pub sandbox_id: String,
    pub timers: Value,
}

/// Parameters of `sandbox/set_labels`.
pub struct SetLabelsParams {
    pub sandbox_id: String,
    pub labels: Table<String>,
}

/// Parameters of `sandbox/update_network`.
pub struct UpdateNetworkParams {
    pub sandbox_id: String,
    pub network: Value,
}

/// [`ExecSpec`] without its stdin: fixed and streamed stdin alike cross
/// as `Stdin` frames on the exec's data channel.
pub struct ExecSpecDto {
    pub program: String,
    pub args: Vec<String>,
    pub timeout_ms: Option<u64>,
    /// Additive: absent from and ignored by peers built before it.
    pub stop_grace_ms: Option<u64>,
    pub working_dir: Option<String>,
    pub env: Table<String>,
    pub output_sanitization: OutputSanitization,
}

/// The metadata of a finished exec. Its bytes went over the channel: the
/// host keeps its own retained copy, bounded by the limit it asked for,
/// and the accounting here is the plugin's.
pub struct ExecResultDto {
    pub exit_code: Option<i32>,
    pub signal: Option<i32>,
    pub termination: Termination,
    pub duration_ms: u64,
}

/// Parameters of `exec/stream`.
pub struct ExecStreamParams {
    pub sandbox_id: String,
    /// Client-generated: routes `exec/stop` before the response arrives.
    pub exec_id: String,
    pub channel: ChannelRequest,
    pub spec: ExecSpecDto,
    /// The command reads its standard input from the channel's `Stdin`
    /// frames. When false the plugin gives it end-of-file at once.
    pub stdin: bool,
    pub retained_output_limit: Option<usize>,
}

/// Result of `exec/stream` and `one_shot/run`.
pub struct ExecStreamResult {
    pub result: ExecResultDto,
    pub streams_separated: bool,
    pub live_streaming: bool,
    pub stdout_capture: CaptureStats,
    pub stderr_capture: CaptureStats,
    /// What the provider says of output that it lost.
    pub output_loss: Value,
}

/// Parameters of `exec/stop`.
pub struct ExecStopParams {
    pub exec_id: String,
    /// `term` or `kill`.
    pub level: StopLevel,
}

/// Parameters of `one_shot/run`.
pub struct OneShotRunParams {
    pub sandbox_id: String,
    /// Client-generated: routes `exec/stop` before the response arrives.
    pub exec_id: String,
    pub channel: ChannelRequest,
    pub spec: Value,
    pub retained_output_limit: Option<usize>,
}

/// Parameters of `exec/stdio_open`.
pub struct StdioOpenParams {
    pub sandbox_id: String,
    pub process_id: String,
    /// Stdin travels host to plugin, stdout plugin to host.
    pub channel: ChannelRequest,
    pub spec: Value,
}

/// One stdio process.
pub struct StdioIdParams {
    pub process_id: String,
}

/// Result of `exec/stdio_wait`.
pub struct StdioWaitResult {
    pub termination: Termination,
    pub exit_code: Option<i32>,
    pub stderr_tail: String,
}

/// Parameters of `pty/open`.
pub struct PtyOpenParams {
    pub sandbox_id: String,
    pub pty_id: String,
    /// Input travels host to plugin, output plugin to host.
    pub channel: ChannelRequest,
    pub options: Value,
}

/// One PTY.
pub struct PtyIdParams {
    pub pty_id: String,
}

/// Parameters of `pty/resize`.
pub struct PtyResizeParams {
    pub pty_id: String,
    pub size: Value,
}

/// Parameters of `logs/follow`.
pub struct LogsFollowParams {
    pub sandbox_id: String,
    pub stream_id: String,
    pub channel: ChannelRequest,
    pub source: Value,
}

/// One log stream.
pub struct StreamIdParams {
    pub stream_id: String,
}

/// One path in a sandbox.
pub struct FsPathParams {
    pub sandbox_id: String,
    pub path: String,
}

/// Parameters of `fs/read`.
pub struct FsReadParams {
    pub sandbox_id: String,
    pub path: String,
    /// The file's bytes arrive as `Stdout` frames.
    pub channel: ChannelRequest,
    /// Byte offset to start reading at; whole-file read when absent.
    pub offset: Option<u64>,
    /// Maximum bytes to read; to end of file when absent.
    pub length: Option<u64>,
}

/// Parameters of `fs/write`.
pub struct FsWriteParams {
    pub sandbox_id: String,
    pub path: String,
    /// The content arrives as `Stdin` frames, ended by the host's `Eof`.
    pub channel: ChannelRequest,
    /// Append instead of truncating.
    pub append: bool,
    /// Exact byte count, allowing providers to stream an overwrite without
    /// collecting the channel first. Absent on earlier version 2 requests.
    pub content_length: Option<u64>,
}

/// Result of `sandbox/environment`.
pub struct EnvironmentResult {
    pub environment: Table<String>,
}

/// Parameters of `fs/delete`.
pub struct FsDeleteParams {
    pub sandbox_id: String,
    pub path: String,
    pub recursive: bool,
}

/// Result of `fs/exists`.
pub struct FsExistsResult {
    pub exists: bool,
}

/// Result of `fs/metadata`.
pub struct FsMetadataResult {
    pub metadata: Value,
}

/// Parameters of `fs/list_dir`.
pub struct FsListDirParams {
    pub sandbox_id: String,
    pub path: String,
    pub depth: usize,
}

/// Result of `fs/list_dir`.
pub struct FsListDirResult {
    pub entries: Vec<Value>,
}

/// Parameters of `fs/rename`.
pub struct FsRenameParams {
    pub sandbox_id: String,
    pub from: String,
    pub to: String,
}

/// Parameters of `fs/set_permissions`.
pub struct FsSetPermissionsParams {
    pub sandbox_id: String,
    pub path: String,
    pub mode: u32,
}

/// A repository clone the plugin runs with the provider's own git
/// implementation (native, derived, or hybrid), so a host sees the same
/// clone whether the provider is in-process or a plugin. The remaining
/// git operations stay exec-derived on the host side.
///
/// The URL can embed credentials and is never logged.
pub struct GitCloneParams {
    pub sandbox_id: String,
    pub url: String,
    pub target_path: String,
    pub options: Value,
}

/// Parameters of `host/event`.
pub struct HostEventNotification {
    pub event: Value,
    pub route_id: Option<String>,
}

/// Parameters of `host/log`.
pub struct HostLogNotification {
    pub level: String,
    pub message: String,
}

/// Parameters of `snapshot/create`.
pub struct SnapshotCreateParams {
    pub spec: SnapshotSpecDto,
    pub events: Option<EventRequest>,
}

/// How a snapshot is to be made, as it crosses.
pub struct SnapshotSpecDto {
    pub name: Option<String>,
    pub source: SnapshotSourceDto,
    pub sandbox_kind: Option<Value>,
    pub region: Option<String>,
    pub resources: Value,
    pub provider_config: Value,
}

/// What a snapshot is made from, as it crosses.
pub enum SnapshotSourceDto {
    Image {
        reference: String,
    },
    Dockerfile {
        content: String,
    },
    Sandbox {
        id: String,
        include_memory: bool,
    },
}

/// One snapshot and where its events go.
pub struct SnapshotIdParams {
    pub snapshot_id: String,
    pub events: Option<EventRequest>,
}

/// Result of `snapshot/create`.
pub struct SnapshotIdResult {
    pub snapshot_id: String,
}

/// Parameters of `snapshot/build_logs`.
pub struct SnapshotBuildLogsParams {
    pub snapshot_id: String,
    pub stream_id: String,
    pub channel: ChannelRequest,
    pub follow: bool,
}

/// Result of `snapshot/get`.
pub struct SnapshotStatusResult {
    pub status: Value,
}

/// Parameters of `snapshot/list`.
pub struct SnapshotListParams {
    pub filter: Value,
}

/// Result of `snapshot/list`.
pub struct SnapshotListResult {
    pub snapshots: Vec<Value>,
}

/// Parameters of `volume/create`.
pub struct VolumeCreateParams {
    pub spec: Value,
    pub events: Option<EventRequest>,
}

/// One volume and where its events go.
pub struct VolumeIdParams {
    pub volume_id: String,
    pub events: Option<EventRequest>,
}

/// Result of `volume/create`.
pub struct VolumeIdResult {
    pub volume_id: String,
}

/// Result of `volume/get`.
pub struct VolumeStatusResult {
    pub status: Value,
}

/// Result of `volume/list`.
pub struct VolumeListResult {
    pub volumes: Vec<Value>,
}

/// One port of a sandbox.
pub struct PreviewUrlParams {
    pub sandbox_id: String,
    pub port: u16,
}

/// Parameters of `access/signed_preview_url`.
pub struct SignedPreviewUrlParams {
    pub sandbox_id: String,
    pub port: u16,
    pub expires_in_ms: u64,
}

/// Result of the preview URL methods.
pub struct PreviewUrlResult {
    pub preview: Value,
}

/// Parameters of `access/ssh_create`.
pub struct SshCreateParams {
    pub sandbox_id: String,
    pub ttl_ms: Option<u64>,
}

/// Result of `access/ssh_create`.
pub struct SshCreateResult {
    pub access: Value,
}

/// Parameters of `access/ssh_revoke`.
pub struct SshRevokeParams {
    pub sandbox_id: String,
    pub token: String,
}

/// Result of `access/web_terminal`.
pub struct WebTerminalResult {
    pub url: String,
}

/// Result of `access/vnc`.
pub struct VncResult {
    pub connection: Value,
}

/// Result of `provider/health`.
pub struct HealthResult {
    pub health: ProviderHealth,
}

/// Empty result for side-effect-only methods.
#[derive(Clone, Copy, Debug, PartialEq, Eq, Structural)]
pub struct Empty;

/// Copies a JSON value that may be absent.
fn copy_value(value: &Option<Value>) -> (copy: Option<Value>)
    ensures
        copy == *value,
{
    match value {
        Some(value) => Some(value.clone()),
        None => None,
    }
}

fn copy_values(values: &Vec<Value>) -> (copy: Vec<Value>)
    ensures
        copy@ == values@,
{
    let mut copy: Vec<Value> = Vec::new();
    let mut i: usize = 0;
    while i < values.len()
        invariant
            i <= values@.len(),
            copy@ == values@.take(i as int),
        decreases values@.len() - i,
    {
        copy.push(values[i].clone());
        i = i + 1;
        assert(copy@ =~= values@.take(i as int));
    }
    assert(copy@ =~= values@);
    copy
}

/// The wire shape of a sandbox source, if it has one.
pub open spec fn sandbox_source_dto(source: SandboxSource) -> Option<SandboxSourceDto> {
    match source {
        SandboxSource::Image { reference } => Some(SandboxSourceDto::Image { reference }),
        SandboxSource::Dockerfile { content } => Some(SandboxSourceDto::Dockerfile { content }),
        SandboxSource::Snapshot { id } => Some(SandboxSourceDto::Snapshot { name: id }),
        SandboxSource::HostDirectory => Some(SandboxSourceDto::HostDirectory),
        SandboxSource::Other(_) => None,
    }
}

/// The sandbox source that a wire shape describes.
pub open spec fn sandbox_source_of(source: SandboxSourceDto) -> SandboxSource {
    match source {
        SandboxSourceDto::Image { reference } => SandboxSource::Image { reference },
        SandboxSourceDto::Dockerfile { content } => SandboxSource::Dockerfile { content },
        SandboxSourceDto::Snapshot { name } => SandboxSource::Snapshot { id: name },
        SandboxSourceDto::HostDirectory => SandboxSource::HostDirectory,
    }
}

/// Everything beside the source is the same on both sides.
pub open spec fn same_sandbox_settings(spec: SandboxSpec, dto: SandboxSpecDto) -> bool {
    &&& dto.name == spec.name
    &&& dto.resources == spec.resources
    &&& dto.sandbox_kind == spec.sandbox_kind
    &&& dto.env@ == spec.env@
    &&& dto.labels@ == spec.labels@
    &&& dto.user == spec.user
    &&& dto.working_directory == spec.working_directory
    &&& dto.workspace_ownership == spec.workspace_ownership
    &&& dto.network == spec.network
    &&& dto.volumes@ == spec.volumes@
    &&& dto.timers == spec.timers
    &&& dto.ephemeral == spec.ephemeral
    &&& dto.public == spec.public
    &&& dto.region == spec.region
    &&& dto.provider_config == spec.provider_config
}

/// Whether a wire shape says what a sandbox is to be made like.
pub open spec fn sandbox_dto_says(spec: SandboxSpec, dto: SandboxSpecDto) -> bool {
    &&& same_sandbox_settings(spec, dto)
    &&& sandbox_source_dto(spec.source) == Some(dto.source)
}

impl SandboxSpecDto {
    /// The wire shape of a specification, or the refusal of a source that
    /// has none.
    pub fn try_from(spec: &SandboxSpec) -> (dto: Result<Self, Error>)
        ensures
            match dto {
                Ok(dto) => sandbox_dto_says(*spec, dto),
                Err(error) => {
                    &&& sandbox_source_dto(spec.source) is None
                    &&& error@ == invalid_spec("source"@, "unsupported sandbox source"@)
                },
            },
    {
        let source = match &spec.source {
            SandboxSource::Image { reference } => SandboxSourceDto::Image {
                reference: reference.clone(),
            },
            SandboxSource::Dockerfile { content } => SandboxSourceDto::Dockerfile {
                content: content.clone(),
            },
            SandboxSource::Snapshot { id } => SandboxSourceDto::Snapshot { name: id.clone() },
            SandboxSource::HostDirectory => SandboxSourceDto::HostDirectory,
            SandboxSource::Other(_) => {
                return Err(Error::invalid_spec("source", "unsupported sandbox source"));
            },
        };
        Ok(
            SandboxSpecDto {
                name: copy_opt_text(&spec.name),
                source,
                resources: spec.resources.clone(),
                sandbox_kind: copy_value(&spec.sandbox_kind),
                env: spec.env.copy(),
                labels: spec.labels.copy(),
                user: copy_opt_text(&spec.user),
                working_directory: copy_opt_text(&spec.working_directory),
                workspace_ownership: copy_value(&spec.workspace_ownership),
                network: spec.network.clone(),
                volumes: copy_values(&spec.volumes),
                timers: spec.timers.clone(),
                ephemeral: spec.ephemeral,
                public: spec.public,
                region: copy_opt_text(&spec.region),
                provider_config: spec.provider_config.clone(),
            },
        )
    }
}

impl SandboxSpec {
    /// The specification that a wire shape describes. The driver decides
    /// whether a snapshot's name is an id, and says why where it is not.
    pub fn try_from(dto: SandboxSpecDto, snapshot_name: Result<(), String>) -> (spec: Result<
        Self,
        Error,
    >)
        ensures
            match spec {
                Ok(spec) => {
                    &&& dto.source is Snapshot ==> snapshot_name is Ok
                    &&& spec.source == sandbox_source_of(dto.source)
                    &&& same_sandbox_settings(spec, dto)
                },
                Err(error) => {
                    &&& dto.source is Snapshot
                    &&& snapshot_name matches Err(reason)
                    &&& error@ == invalid_spec("source.snapshot.name"@, reason@)
                },
            },
    {
        let source = match dto.source {
            SandboxSourceDto::Image { reference } => SandboxSource::Image { reference },
            SandboxSourceDto::Dockerfile { content } => SandboxSource::Dockerfile { content },
            SandboxSourceDto::Snapshot { name } => match snapshot_name {
                Ok(()) => SandboxSource::Snapshot { id: name },
                Err(reason) => {
                    return Err(Error::invalid_spec("source.snapshot.name", reason.as_str()));
                },
            },
            SandboxSourceDto::HostDirectory => SandboxSource::HostDirectory,
        };
        Ok(
            SandboxSpec {
                name: dto.name,
                source,
                resources: dto.resources,
                sandbox_kind: dto.sandbox_kind,
                env: dto.env,
                labels: dto.labels,
                user: dto.user,
                working_directory: dto.working_directory,
                workspace_ownership: dto.workspace_ownership,
                network: dto.network,
                volumes: dto.volumes,
                timers: dto.timers,
                ephemeral: dto.ephemeral,
                public: dto.public,
                region: dto.region,
                provider_config: dto.provider_config,
            },
        )
    }
}

/// Whether two specifications ask for the same sandbox.
pub open spec fn same_sandbox(a: SandboxSpec, b: SandboxSpec) -> bool {
    &&& a.name == b.name
    &&& a.source == b.source
    &&& a.resources == b.resources
    &&& a.sandbox_kind == b.sandbox_kind
    &&& a.env@ == b.env@
    &&& a.labels@ == b.labels@
    &&& a.user == b.user
    &&& a.working_directory == b.working_directory
    &&& a.workspace_ownership == b.workspace_ownership
    &&& a.network == b.network
    &&& a.volumes@ == b.volumes@
    &&& a.timers == b.timers
    &&& a.ephemeral == b.ephemeral
    &&& a.public == b.public
    &&& a.region == b.region
    &&& a.provider_config == b.provider_config
}

/// A specification crosses whole: what the other side makes of its wire
/// shape asks for the same sandbox.
pub proof fn sandbox_specs_cross_whole(spec: SandboxSpec, dto: SandboxSpecDto, back: SandboxSpec)
    requires
        sandbox_dto_says(spec, dto),
        back.source == sandbox_source_of(dto.source),
        same_sandbox_settings(back, dto),
    ensures
        same_sandbox(spec, back),
{
}

impl ForkOptionsDto {
    /// The wire shape of fork options: memory is always kept.
    pub fn from(options: &ForkOptions) -> (dto: Self)
        ensures
            dto == (ForkOptionsDto { name: options.name, include_memory: true }),
    {
        ForkOptionsDto { name: copy_opt_text(&options.name), include_memory: true }
    }
}

impl ForkOptions {
    /// The fork options that a wire shape describes. A fork without memory
    /// is refused.
    pub fn try_from(dto: ForkOptionsDto) -> (options: Result<Self, Error>)
        ensures
            match options {
                Ok(options) => dto.include_memory && options.name == dto.name,
                Err(error) => !dto.include_memory && error@ == invalid_spec(
                    "include_memory"@,
                    "fork must preserve memory and running processes"@,
                ),
            },
    {
        if !dto.include_memory {
            return Err(
                Error::invalid_spec(
                    "include_memory",
                    "fork must preserve memory and running processes",
                ),
            );
        }
        Ok(ForkOptions { name: dto.name })
    }
}

/// Whether a mode keeps the live process state.
pub open spec fn keeps_memory(mode: SnapshotMode) -> bool {
    mode == SnapshotMode::LiveProcessState
}

/// The mode that keeps the live process state or not.
pub open spec fn mode_with_memory(include_memory: bool) -> SnapshotMode {
    if include_memory {
        SnapshotMode::LiveProcessState
    } else {
        SnapshotMode::Filesystem
    }
}

/// A mode crosses as whether it keeps the live process state, and both
/// modes that have a meaning of their own come back as they were.
pub proof fn snapshot_modes_cross_whole(mode: SnapshotMode, include_memory: bool)
    ensures
        keeps_memory(mode_with_memory(include_memory)) == include_memory,
        !(mode is Other) ==> mode_with_memory(keeps_memory(mode)) == mode,
        mode is Other ==> mode_with_memory(keeps_memory(mode)) == SnapshotMode::Filesystem,
{
}

impl SandboxSnapshotOptionsDto {
    /// The wire shape of snapshot options.
    pub fn from(options: &SandboxSnapshotOptions) -> (dto: Self)
        ensures
            dto == (SandboxSnapshotOptionsDto {
                name: options.name,
                include_memory: keeps_memory(options.mode),
            }),
    {
        SandboxSnapshotOptionsDto {
            name: copy_opt_text(&options.name),
            include_memory: options.mode == SnapshotMode::LiveProcessState,
        }
    }
}

impl SandboxSnapshotOptions {
    /// The snapshot options that a wire shape describes.
    pub fn from(dto: SandboxSnapshotOptionsDto) -> (options: Self)
        ensures
            options == (SandboxSnapshotOptions {
                name: dto.name,
                mode: mode_with_memory(dto.include_memory),
            }),
    {
        let mode = if dto.include_memory {
            SnapshotMode::LiveProcessState
        } else {
            SnapshotMode::Filesystem
        };
        SandboxSnapshotOptions { name: dto.name, mode }
    }
}

/// The wire shape of a snapshot source, if it has one.
pub open spec fn snapshot_source_dto(source: SnapshotSource) -> Option<SnapshotSourceDto> {
    match source {
        SnapshotSource::Image { reference } => Some(SnapshotSourceDto::Image { reference }),
        SnapshotSource::Dockerfile { content } => Some(SnapshotSourceDto::Dockerfile { content }),
        SnapshotSource::Sandbox { id, mode } => Some(
            SnapshotSourceDto::Sandbox { id, include_memory: keeps_memory(mode) },
        ),
        SnapshotSource::Other(_) => None,
    }
}

/// The snapshot source that a wire shape describes.
pub open spec fn snapshot_source_of(source: SnapshotSourceDto) -> SnapshotSource {
    match source {
        SnapshotSourceDto::Image { reference } => SnapshotSource::Image { reference },
        SnapshotSourceDto::Dockerfile { content } => SnapshotSource::Dockerfile { content },
        SnapshotSourceDto::Sandbox { id, include_memory } => SnapshotSource::Sandbox {
            id,
            mode: mode_with_memory(include_memory),
        },
    }
}

/// Everything beside the source is the same on both sides.
pub open spec fn same_snapshot_settings(spec: SnapshotSpec, dto: SnapshotSpecDto) -> bool {
    &&& dto.name == spec.name
    &&& dto.sandbox_kind == spec.sandbox_kind
    &&& dto.region == spec.region
    &&& dto.resources == spec.resources
    &&& dto.provider_config == spec.provider_config
}

impl SnapshotSpecDto {
    /// The wire shape of a snapshot specification, or the refusal of a
    /// source that has none.
    pub fn try_from(spec: &SnapshotSpec) -> (dto: Result<Self, Error>)
        ensures
            match dto {
                Ok(dto) => {
                    &&& snapshot_source_dto(spec.source) == Some(dto.source)
                    &&& same_snapshot_settings(*spec, dto)
                },
                Err(error) => {
                    &&& snapshot_source_dto(spec.source) is None
                    &&& error@ == invalid_spec("source"@, "unsupported snapshot source"@)
                },
            },
    {
        let source = match &spec.source {
            SnapshotSource::Image { reference } => SnapshotSourceDto::Image {
                reference: reference.clone(),
            },
            SnapshotSource::Dockerfile { content } => SnapshotSourceDto::Dockerfile {
                content: content.clone(),
            },
            SnapshotSource::Sandbox { id, mode } => SnapshotSourceDto::Sandbox {
                id: id.clone(),
                include_memory: *mode == SnapshotMode::LiveProcessState,
            },
            SnapshotSource::Other(_) => {
                return Err(Error::invalid_spec("source", "unsupported snapshot source"));
            },
        };
        Ok(
            SnapshotSpecDto {
                name: copy_opt_text(&spec.name),
                source,
                sandbox_kind: copy_value(&spec.sandbox_kind),
                region: copy_opt_text(&spec.region),
                resources: spec.resources.clone(),
                provider_config: spec.provider_config.clone(),
            },
        )
    }
}

impl SnapshotSpec {
    /// The snapshot specification that a wire shape describes.
    pub fn from(dto: SnapshotSpecDto) -> (spec: Self)
        ensures
            spec.source == snapshot_source_of(dto.source),
            same_snapshot_settings(spec, dto),
    {
        let source = match dto.source {
            SnapshotSourceDto::Image { reference } => SnapshotSource::Image { reference },
            SnapshotSourceDto::Dockerfile { content } => SnapshotSource::Dockerfile { content },
            SnapshotSourceDto::Sandbox { id, include_memory } => {
                let mode = if include_memory {
                    SnapshotMode::LiveProcessState
                } else {
                    SnapshotMode::Filesystem
                };
                SnapshotSource::Sandbox { id, mode }
            },
        };
        SnapshotSpec {
            name: dto.name,
            source,
            sandbox_kind: dto.sandbox_kind,
            region: dto.region,
            resources: dto.resources,
            provider_config: dto.provider_config,
        }
    }
}

/// A snapshot source crosses whole: a sandbox's mode comes back as it was,
/// but for a mode without a meaning of its own.
pub proof fn snapshot_sources_cross_whole(source: SnapshotSource)
    requires
        !(source is Other),
        source is Sandbox ==> !(source->Sandbox_mode is Other),
    ensures
        snapshot_source_dto(source) matches Some(dto) && snapshot_source_of(dto) == source,
{
}

/// Whether output crosses as it is: then its sanitization is left out.
pub fn output_sanitization_is_raw(value: &OutputSanitization) -> (raw: bool)
    ensures
        raw == (*value == OutputSanitization::Raw),
{
    *value == OutputSanitization::Raw
}

/// The whole milliseconds of an optional length.
pub open spec fn opt_millis(nanos: Option<nat>) -> Option<u64> {
    match nanos {
        Some(nanos) => Some(millis_of(nanos)),
        None => None,
    }
}

/// The nanoseconds of an optional number of milliseconds.
pub open spec fn millis_nanos(millis: Option<u64>) -> Option<nat> {
    match millis {
        Some(millis) => Some((millis * 1_000_000) as nat),
        None => None,
    }
}

fn to_millis(duration: &Option<Duration>) -> (millis: Option<u64>)
    ensures
        millis == opt_millis(opt_nanos(*duration)),
{
    match duration {
        Some(duration) => Some(saturating_millis(duration)),
        None => None,
    }
}

fn from_millis(millis: Option<u64>) -> (duration: Option<Duration>)
    ensures
        opt_nanos(duration) == millis_nanos(millis),
{
    match millis {
        Some(millis) => Some(Duration::from_millis(millis)),
        None => None,
    }
}

/// Whole milliseconds cross unchanged, as long as they fit.
pub proof fn whole_millis_cross_whole(millis: u64)
    ensures
        opt_millis(millis_nanos(Some(millis))) == Some(millis),
{
    assert(((millis * 1_000_000) as nat) / 1_000_000 == millis) by (nonlinear_arith);
}

/// Whether a wire shape is that of a command: its times in whole
/// milliseconds, at most what 64 bits hold, and no standard input.
pub open spec fn spec_crosses(spec: ExecSpec, dto: ExecSpecDto) -> bool {
    &&& dto.program == spec.program
    &&& dto.args@ == spec.args@
    &&& dto.timeout_ms == opt_millis(opt_nanos(spec.timeout))
    &&& dto.stop_grace_ms == opt_millis(opt_nanos(spec.stop_grace))
    &&& dto.working_dir == spec.working_dir
    &&& dto.env@ == spec.env@
    &&& dto.output_sanitization == spec.output_sanitization
}

/// Whether a command is the one that a wire shape describes.
pub open spec fn spec_rebuilt(dto: ExecSpecDto, spec: ExecSpec) -> bool {
    &&& spec.program == dto.program
    &&& spec.args == dto.args
    &&& opt_nanos(spec.timeout) == millis_nanos(dto.timeout_ms)
    &&& opt_nanos(spec.stop_grace) == millis_nanos(dto.stop_grace_ms)
    &&& spec.working_dir == dto.working_dir
    &&& spec.env == dto.env
    &&& spec.output_sanitization == dto.output_sanitization
    &&& spec.stdin is None
}

/// Whether a time is a whole number of milliseconds that 64 bits hold.
pub open spec fn is_whole_millis(time: Option<nat>) -> bool {
    time matches Some(nanos) ==> exists|millis: u64| nanos == #[trigger] (millis * 1_000_000)
}

/// A command crosses whole, but for its standard input, which crosses on the
/// data channel, and for parts of a millisecond in its times.
pub proof fn commands_cross_whole(spec: ExecSpec, dto: ExecSpecDto, back: ExecSpec)
    requires
        spec_crosses(spec, dto),
        spec_rebuilt(dto, back),
        is_whole_millis(opt_nanos(spec.timeout)),
        is_whole_millis(opt_nanos(spec.stop_grace)),
    ensures
        back.program == spec.program,
        back.args@ == spec.args@,
        opt_nanos(back.timeout) == opt_nanos(spec.timeout),
        opt_nanos(back.stop_grace) == opt_nanos(spec.stop_grace),
        back.working_dir == spec.working_dir,
        back.env@ == spec.env@,
        back.output_sanitization == spec.output_sanitization,
{
    if let Some(nanos) = opt_nanos(spec.timeout) {
        let millis = choose|millis: u64| nanos == #[trigger] (millis * 1_000_000);
        whole_millis_cross_whole(millis);
    }
    if let Some(nanos) = opt_nanos(spec.stop_grace) {
        let millis = choose|millis: u64| nanos == #[trigger] (millis * 1_000_000);
        whole_millis_cross_whole(millis);
    }
}

/// The word under which a stop crosses.
pub open spec fn level_name(level: StopLevel) -> Seq<char> {
    match level {
        StopLevel::Term => "term"@,
        StopLevel::Kill => "kill"@,
    }
}

/// The stop that a word stands for.
pub open spec fn level_named(name: Seq<char>) -> Option<StopLevel> {
    if name == "term"@ {
        Some(StopLevel::Term)
    } else if name == "kill"@ {
        Some(StopLevel::Kill)
    } else {
        None
    }
}

impl StopLevel {
    /// The word under which this stop crosses.
    pub fn name(self) -> (name: &'static str)
        ensures
            name@ == level_name(self),
    {
        match self {
            StopLevel::Term => "term",
            StopLevel::Kill => "kill",
        }
    }

    /// The stop that a word stands for, if it stands for one.
    pub fn named(name: &str) -> (level: Option<StopLevel>)
        ensures
            level == level_named(name@),
    {
        if same_text(name, "term") {
            Some(StopLevel::Term)
        } else if same_text(name, "kill") {
            Some(StopLevel::Kill)
        } else {
            None
        }
    }
}

/// A stop crosses as what it is, and no other word stands for it.
pub proof fn stops_cross_whole(level: StopLevel, name: Seq<char>)
    ensures
        level_named(name) == Some(level) <==> name == level_name(level),
{
    reveal_strlit("term");
    reveal_strlit("kill");
    assert("term"@[0] != "kill"@[0]);
}

impl ExecSpecDto {
    /// The wire shape of a command.
    pub fn from_spec(spec: &ExecSpec) -> (dto: Self)
        ensures
            spec_crosses(*spec, dto),
    {
        ExecSpecDto {
            program: spec.program.clone(),
            args: copy_texts(&spec.args),
            timeout_ms: to_millis(&spec.timeout),
            stop_grace_ms: to_millis(&spec.stop_grace),
            working_dir: copy_opt_text(&spec.working_dir),
            env: spec.env.copy(),
            output_sanitization: spec.output_sanitization,
        }
    }

    /// The command that a wire shape describes. An absent timeout means
    /// unbounded; standard input crosses on the data channel.
    pub fn into_spec(self) -> (spec: ExecSpec)
        ensures
            spec_rebuilt(self, spec),
    {
        ExecSpec {
            program: self.program,
            args: self.args,
            timeout: from_millis(self.timeout_ms),
            stop_grace: from_millis(self.stop_grace_ms),
            working_dir: self.working_dir,
            env: self.env,
            output_sanitization: self.output_sanitization,
            stdin: None,
        }
    }
}

impl ExecResultDto {
    /// The metadata of a finished command.
    pub fn from_result(result: &ExecResult) -> (dto: Self)
        ensures
            dto == (ExecResultDto {
                exit_code: result.exit_code,
                signal: result.signal,
                termination: result.termination,
                duration_ms: millis_of(nanos_of(result.duration)),
            }),
    {
        ExecResultDto {
            exit_code: result.exit_code,
            signal: result.signal,
            termination: result.termination,
            duration_ms: saturating_millis(&result.duration),
        }
    }

    /// The result with the output as the host retained it.
    pub fn into_result(self, stdout: Vec<u8>, stderr: Vec<u8>) -> (result: ExecResult)
        ensures
            result.termination == self.termination,
            result.exit_code == self.exit_code,
            result.signal == self.signal,
            nanos_of(result.duration) == self.duration_ms * 1_000_000,
            result.stdout == stdout,
            result.stderr == stderr,
    {
        ExecResult {
            termination: self.termination,
            exit_code: self.exit_code,
            signal: self.signal,
            duration: Duration::from_millis(self.duration_ms),
            stdout,
            stderr,
        }
    }
}

/// Whether this is what crosses of a streamed command's end.
pub open spec fn stream_sent(streaming: ExecStreamingResult, result: ExecStreamResult) -> bool {
    &&& result.result.exit_code == streaming.result.exit_code
    &&& result.result.signal == streaming.result.signal
    &&& result.result.termination == streaming.result.termination
    &&& result.result.duration_ms == millis_of(nanos_of(streaming.result.duration))
    &&& result.streams_separated == streaming.streams_separated
    &&& result.live_streaming == streaming.live_streaming
    &&& result.stdout_capture == streaming.stdout_capture
    &&& result.stderr_capture == streaming.stderr_capture
    &&& result.output_loss == streaming.output_loss
}

/// The wire shape of a streamed command's end: its metadata and how its
/// output was captured, without the output itself.
pub fn stream_result(streaming: ExecStreamingResult) -> (result: ExecStreamResult)
    ensures
        result.result == (ExecResultDto {
            exit_code: streaming.result.exit_code,
            signal: streaming.result.signal,
            termination: streaming.result.termination,
            duration_ms: millis_of(nanos_of(streaming.result.duration)),
        }),
        result.streams_separated == streaming.streams_separated,
        result.live_streaming == streaming.live_streaming,
        result.stdout_capture == streaming.stdout_capture,
        result.stderr_capture == streaming.stderr_capture,
        result.output_loss == streaming.output_loss,
        stream_sent(streaming, result),
{
    ExecStreamResult {
        result: ExecResultDto::from_result(&streaming.result),
        streams_separated: streaming.streams_separated,
        live_streaming: streaming.live_streaming,
        stdout_capture: streaming.stdout_capture,
        stderr_capture: streaming.stderr_capture,
        output_loss: streaming.output_loss,
    }
}

impl GitCloneParams {
    /// What may be logged of a clone, beside the options as the driver
    /// renders them: never its URL.
    pub fn redacted(&self, options: &str) -> (text: String)
        ensures
            text@ == "GitCloneParams { sandbox_id: "@ + quoted_text(self.sandbox_id@)
                + ", url: \"<redacted>\", target_path: "@ + quoted_text(self.target_path@)
                + ", options: "@ + options@ + " }"@,
    {
        let mut text = "GitCloneParams { sandbox_id: ".to_owned();
        text.append(quoted(self.sandbox_id.as_str()).as_str());
        text.append(", url: \"<redacted>\", target_path: ");
        text.append(quoted(self.target_path.as_str()).as_str());
        text.append(", options: ");
        text.append(options);
        text.append(" }");
        text
    }
}

/// Every source of a sandbox but one that the protocol has no shape for
/// crosses, and comes back as it was.
pub proof fn sandbox_sources_cross_whole(source: SandboxSource)
    ensures
        sandbox_source_dto(source) is None <==> source is Other,
        sandbox_source_dto(source) matches Some(dto) ==> sandbox_source_of(dto) == source,
{
}

/// What a sandbox is to be made like crosses field by field: no setting is
/// lost, changed or taken for another.
pub proof fn no_sandbox_setting_is_lost(spec: SandboxSpec, dto: SandboxSpecDto, back: SandboxSpec)
    requires
        sandbox_dto_says(spec, dto),
        back.source == sandbox_source_of(dto.source),
        same_sandbox_settings(back, dto),
    ensures
        back.name == spec.name,
        back.source == spec.source,
        back.resources == spec.resources,
        back.sandbox_kind == spec.sandbox_kind,
        back.env@ == spec.env@,
        back.labels@ == spec.labels@,
        back.user == spec.user,
        back.working_directory == spec.working_directory,
        back.workspace_ownership == spec.workspace_ownership,
        back.network == spec.network,
        back.volumes@ == spec.volumes@,
        back.timers == spec.timers,
        back.ephemeral == spec.ephemeral,
        back.public == spec.public,
        back.region == spec.region,
        back.provider_config == spec.provider_config,
        same_sandbox(back, spec),
{
}

/// What a snapshot is to be made like crosses field by field.
pub proof fn no_snapshot_setting_is_lost(
    spec: SnapshotSpec,
    dto: SnapshotSpecDto,
    back: SnapshotSpec,
)
    requires
        snapshot_source_dto(spec.source) == Some(dto.source),
        same_snapshot_settings(spec, dto),
        back.source == snapshot_source_of(dto.source),
        same_snapshot_settings(back, dto),
        spec.source is Sandbox ==> !(spec.source->Sandbox_mode is Other),
    ensures
        back.name == spec.name,
        back.source == spec.source,
        back.sandbox_kind == spec.sandbox_kind,
        back.region == spec.region,
        back.resources == spec.resources,
        back.provider_config == spec.provider_config,
{
}

/// Every source of a snapshot but one that the protocol has no shape for
/// crosses.
pub proof fn snapshot_sources_have_a_shape(source: SnapshotSource)
    ensures
        snapshot_source_dto(source) is None <==> source is Other,
{
}

/// A command crosses field by field, its times rounded down to whole
/// milliseconds; a time in whole milliseconds crosses unchanged, and the
/// absence of one stays an absence.
pub proof fn no_part_of_a_command_is_lost(
    spec: ExecSpec,
    dto: ExecSpecDto,
    back: ExecSpec,
    timeout: Option<u64>,
    grace: Option<u64>,
)
    requires
        spec_crosses(spec, dto),
        spec_rebuilt(dto, back),
        opt_nanos(spec.timeout) == match timeout {
            Some(millis) => Some((millis * 1_000_000) as nat),
            None => None,
        },
        opt_nanos(spec.stop_grace) == match grace {
            Some(millis) => Some((millis * 1_000_000) as nat),
            None => None,
        },
    ensures
        back.program == spec.program,
        back.args@ == spec.args@,
        opt_nanos(back.timeout) == opt_nanos(spec.timeout),
        opt_nanos(back.stop_grace) == opt_nanos(spec.stop_grace),
        back.working_dir == spec.working_dir,
        back.env@ == spec.env@,
        back.output_sanitization == spec.output_sanitization,
        dto.timeout_ms == timeout,
        dto.stop_grace_ms == grace,
{
    if let Some(millis) = timeout {
        assert(((millis * 1_000_000) as nat) / 1_000_000 == millis) by (nonlinear_arith);
    }
    if let Some(millis) = grace {
        assert(((millis * 1_000_000) as nat) / 1_000_000 == millis) by (nonlinear_arith);
    }
}

} // verus!
