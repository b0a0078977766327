//! The host's view of a served plugin: the handshake that makes it, the
//! handles it gives out, and how it ends.

use crate::channel::{ChannelListener, TrustedPeer};
use crate::client::{opt_failure, registers_events, Client};
use crate::diagnostics::{ServerDiagnostics, TransportDiagnostics};
use crate::driver::{
    invalid_spec, io_failure, transport_failure, Capabilities, Error, ErrorView, HealthStatus,
    IoError, ProviderHealth, SandboxSpec, TransportError,
};
use crate::frame::MAX_FRAME_BYTES;
use crate::limits::TransportLimits;
use crate::methods as m;
use crate::registry::inserted;
use crate::sandbox::{Request, SandboxHandle};
use crate::text::{concat2, decimal, decimal_text};
use crate::wire::{is_method_not_found, method_not_found};
use serde_json::Value;
use vstd::prelude::*;

verus! {

/// What is left of capabilities once they cross: native search and services
/// and local shell commands stay with the process that has them, everything
/// else is delivered. The plugin's own capabilities and those of a sandbox
/// that was made, attached or undeleted are reported in this form.
pub open spec fn masked(capabilities: Capabilities) -> Capabilities {
    Capabilities {
        search_native: false,
        services_native: false,
        access_shell_command: false,
        ..capabilities
    }
}

/// Removes the capabilities that cannot be delivered through the wire.
pub fn mask_wire_capabilities(capabilities: &mut Capabilities)
    ensures
        *final(capabilities) == masked(*old(capabilities)),
{
    capabilities.search_native = false;
    capabilities.services_native = false;
    capabilities.access_shell_command = false;
}

/// What cannot be delivered through the wire is masked, everything else is
/// left as declared, and capabilities that crossed once are not reduced
/// further by crossing again.
pub proof fn masking_only_removes(capabilities: Capabilities)
    ensures
        masked(masked(capabilities)) == masked(capabilities),
        !masked(capabilities).search_native,
        !masked(capabilities).services_native,
        !masked(capabilities).access_shell_command,
        capabilities == (Capabilities {
            search_native: capabilities.search_native,
            services_native: capabilities.services_native,
            access_shell_command: capabilities.access_shell_command,
            ..masked(capabilities)
        }),
{
}

/// A connection whose plugin has not answered the handshake yet.
pub struct Connecting {
    pub client: Client,
    pub listener: ChannelListener,
    /// The plugin's process, when this side started it.
    pub child: Option<u32>,
    /// The handshake.
    pub params: m::InitializeParams,
}

/// A provider served by a plugin over a byte stream.
pub struct PluginProvider {
    pub client: Client,
    pub listener: ChannelListener,
    pub kind: String,
    pub capabilities: Capabilities,
    /// Whether it has a snapshot service.
    pub snapshots: bool,
    /// Whether it has a volume service.
    pub volumes: bool,
    /// The plugin's process, when this side started it and has not reaped
    /// it.
    pub child: Option<u32>,
}

/// What came of starting a plugin's process.
#[derive(Debug)]
pub enum Spawned {
    Failed { source: IoError },
    /// It ended before its number was known.
    Exited,
    Running { pid: u32 },
}

/// Whether a connection is fresh: nothing was said, and the handshake names
/// this listener.
pub open spec fn is_fresh(
    connecting: Connecting,
    limits: TransportLimits,
    peer: TrustedPeer,
    socket_path: String,
    child: Option<u32>,
) -> bool {
    &&& connecting.client.wf()
    &&& connecting.client.limits == limits
    &&& connecting.client.pending@ == Set::<u64>::empty()
    &&& !connecting.client.closed
    &&& connecting.listener.wf()
    &&& connecting.listener.limits == limits
    &&& connecting.listener.peer == peer
    &&& connecting.listener.socket_path == socket_path
    &&& connecting.listener.holders@ == Map::<u64, usize>::empty()
    &&& connecting.child == child
    &&& connecting.params.protocol_version == m::PROTOCOL_VERSION
    &&& connecting.params.data_transport.socket_path@ == socket_path@
    &&& connecting.params.data_transport.max_frame_bytes == MAX_FRAME_BYTES
    &&& connecting.params.data_transport.open_ack
}

/// The refusal of a plugin that speaks another version.
pub open spec fn version_refusal(version: u32) -> ErrorView {
    invalid_spec(
        "protocol_version"@,
        "host speaks protocol version "@ + decimal_text(m::PROTOCOL_VERSION as nat)
            + " but the plugin answered "@ + decimal_text(version as nat),
    )
}

impl Connecting {
    /// The provider that the plugin's answer describes, unless it speaks
    /// another version.
    pub fn initialized(self, answer: m::InitializeResult) -> (provider: Result<
        PluginProvider,
        Error,
    >)
        ensures
            match provider {
                Ok(provider) => {
                    &&& answer.protocol_version == m::PROTOCOL_VERSION
                    &&& provider.client == self.client
                    &&& provider.listener == self.listener
                    &&& provider.kind == answer.provider.kind
                    &&& provider.capabilities == masked(answer.capabilities)
                    &&& provider.snapshots == answer.capabilities.snapshots
                    &&& provider.volumes == answer.capabilities.volumes
                    &&& provider.child == self.child
                },
                Err(error) => answer.protocol_version != m::PROTOCOL_VERSION && error@
                    == version_refusal(answer.protocol_version),
            },
    {
        if answer.protocol_version != m::PROTOCOL_VERSION {
            let mut reason = concat2(
                "host speaks protocol version ",
                decimal(m::PROTOCOL_VERSION as u64).as_str(),
            );
            reason.append(" but the plugin answered ");
            reason.append(decimal(answer.protocol_version as u64).as_str());
            return Err(Error::invalid_spec("protocol_version", reason.as_str()));
        }
        let mut capabilities = answer.capabilities;
        mask_wire_capabilities(&mut capabilities);
        Ok(
            PluginProvider {
                client: self.client,
                listener: self.listener,
                kind: answer.provider.kind,
                snapshots: capabilities.snapshots,
                volumes: capabilities.volumes,
                capabilities,
                child: self.child,
            },
        )
    }
}

/// How a shutdown ended.
#[derive(Debug)]
pub enum ShutdownEnd {
    /// The plugin acknowledged it, and its process, if this side started
    /// one, is reaped.
    Acknowledged,
    Failed(Error),
    ReapFailed { source: IoError },
    TimedOut,
}

impl PluginProvider {
    /// A connection with the usual limits to a plugin of this process.
    pub fn connect(process: u32, socket_path: String) -> (connecting: Result<Connecting, Error>)
        ensures
            connecting matches Ok(connecting) && connecting.client.limits.is_usual() && is_fresh(
                connecting,
                connecting.client.limits,
                TrustedPeer::Process(process),
                socket_path,
                None,
            ),
    {
        Self::connect_with_limits(
            TransportLimits::default(),
            TrustedPeer::Process(process),
            socket_path,
        )
    }

    /// A connection to an explicitly trusted data peer with finite transport
    /// budgets.
    pub fn connect_with_limits(
        limits: TransportLimits,
        peer: TrustedPeer,
        socket_path: String,
    ) -> (connecting: Result<Connecting, Error>)
        ensures
            match connecting {
                Ok(connecting) => limits.refusal() is None && is_fresh(
                    connecting,
                    limits,
                    peer,
                    socket_path,
                    None,
                ),
                Err(error) => limits.refusal() == Some(error@),
            },
    {
        let listener = ChannelListener::bind_with_limits(limits, peer, socket_path)?;
        let params = m::InitializeParams {
            protocol_version: m::PROTOCOL_VERSION,
            data_transport: listener.transport(),
        };
        let client = Client::start(limits);
        Ok(Connecting { client, listener, child: None, params })
    }

    /// A connection with the usual limits to a plugin whose process this
    /// side started.
    pub fn spawn(spawned: Spawned, socket_path: String) -> (connecting: Result<Connecting, Error>)
        ensures
            match spawned {
                Spawned::Running { pid } => connecting matches Ok(connecting)
                    && connecting.client.limits.is_usual() && is_fresh(
                    connecting,
                    connecting.client.limits,
                    TrustedPeer::Process(pid),
                    socket_path,
                    Some(pid),
                ),
                Spawned::Failed { source } => connecting matches Err(error) && error@
                    == io_failure("spawning plugin process"@, source.kind, source.rendered@),
                Spawned::Exited => connecting matches Err(error) && error@ == transport_failure(
                    "plugin exited before initialization"@,
                ),
            },
    {
        Self::spawn_with_limits(spawned, TransportLimits::default(), socket_path)
    }

    /// A connection to a plugin whose process this side started: only that
    /// process may open data channels.
    pub fn spawn_with_limits(
        spawned: Spawned,
        limits: TransportLimits,
        socket_path: String,
    ) -> (connecting: Result<Connecting, Error>)
        ensures
            match (limits.refusal(), spawned) {
                (Some(refusal), _) => connecting matches Err(error) && error@ == refusal,
                (None, Spawned::Running { pid }) => connecting matches Ok(connecting) && is_fresh(
                    connecting,
                    limits,
                    TrustedPeer::Process(pid),
                    socket_path,
                    Some(pid),
                ),
                (None, Spawned::Failed { source }) => connecting matches Err(error) && error@
                    == io_failure("spawning plugin process"@, source.kind, source.rendered@),
                (None, Spawned::Exited) => connecting matches Err(error) && error@
                    == transport_failure("plugin exited before initialization"@),
            },
    {
        limits.validate()?;
        let pid: u32 = match spawned {
            Spawned::Running { pid } => pid,
            Spawned::Failed { source } => {
                return Err(Error::io("spawning plugin process", source));
            },
            Spawned::Exited => {
                return Err(Error::transport("plugin exited before initialization"));
            },
        };
        let mut connecting = Self::connect_with_limits(
            limits,
            TrustedPeer::Process(pid),
            socket_path,
        )?;
        connecting.child = Some(pid);
        Ok(connecting)
    }

    /// Whether the control transport ended: the plugin exited or its stdio
    /// broke, and every later call fails at once.
    pub fn is_closed(&self) -> (closed: bool)
        ensures
            closed == self.client.closed,
    {
        self.client.is_closed()
    }

    /// The number of the plugin's process, when this side started one and
    /// has not shut it down.
    pub fn process_id(&self) -> (pid: Option<u32>)
        ensures
            pid == self.child,
    {
        self.child
    }

    /// Takes the recent measurements of how long channels took to open, in
    /// microseconds.
    pub fn take_channel_setup_samples_us(&mut self) -> (samples: Vec<u64>)
        requires
            old(self).listener.wf(),
        ensures
            final(self).listener.wf(),
            samples@ == old(self).listener.measurements.setup_us@,
            final(self).listener.measurements.setup_us@ == Seq::<u64>::empty(),
            *final(self) == (PluginProvider {
                listener: ChannelListener {
                    measurements: final(self).listener.measurements,
                    ..old(self).listener
                },
                ..*old(self)
            }),
    {
        self.listener.take_setup_samples_us()
    }

    /// Why the history of events is incomplete, if it is. Control calls go
    /// on.
    pub fn event_delivery_error(&self) -> (failure: Option<TransportError>)
        ensures
            opt_failure(failure) == opt_failure(self.client.event_failure),
    {
        self.client.event_delivery_error()
    }

    /// How the last local cleanup that failed did. Its place stays taken
    /// until the connection is dropped; other operations go on.
    pub fn cleanup_error(&self) -> (failure: Option<TransportError>)
        ensures
            match failure {
                Some(failure) => self.client.failed_cleanups@.len() > 0 && failure@
                    == self.client.failed_cleanups@.last()@,
                None => self.client.failed_cleanups@.len() == 0,
            },
    {
        self.client.cleanup_error()
    }

    /// What both sides own, by the plugin's report on its own.
    pub fn transport_diagnostics(
        &self,
        server: ServerDiagnostics,
        cleanup_tasks: usize,
        runtime_tasks: usize,
    ) -> (diagnostics: TransportDiagnostics)
        requires
            self.client.wf(),
            self.listener.wf(),
        ensures
            diagnostics == self.client.diagnostics_of(
                self.listener,
                server,
                cleanup_tasks,
                runtime_tasks,
            ),
    {
        self.client.transport_diagnostics(&self.listener, server, cleanup_tasks, runtime_tasks)
    }

    /// Takes the plugin's process to be reaped.
    pub fn begin_shutdown(&mut self) -> (child: Option<u32>)
        ensures
            child == old(self).child,
            *final(self) == (PluginProvider { child: None, ..*old(self) }),
    {
        let child = self.child;
        self.child = None;
        child
    }

    /// The outcome of a shutdown. Anything but an acknowledgment in time is
    /// an error, on which the process is to be killed.
    pub fn shutdown(end: ShutdownEnd) -> (outcome: Result<(), Error>)
        ensures
            match end {
                ShutdownEnd::Acknowledged => outcome is Ok,
                ShutdownEnd::Failed(error) => outcome == Err::<(), Error>(error),
                ShutdownEnd::ReapFailed { source } => outcome matches Err(error) && error@
                    == io_failure("reaping plugin process"@, source.kind, source.rendered@),
                ShutdownEnd::TimedOut => outcome matches Err(error) && error@ == transport_failure(
                    "plugin shutdown timed out before acknowledgment or process exit"@,
                ),
            },
    {
        match end {
            ShutdownEnd::Acknowledged => Ok(()),
            ShutdownEnd::Failed(error) => Err(error),
            ShutdownEnd::ReapFailed { source } => Err(
                Error::io("reaping plugin process", source),
            ),
            ShutdownEnd::TimedOut => Err(
                Error::transport("plugin shutdown timed out before acknowledgment or process exit"),
            ),
        }
    }

    /// Asks for a new sandbox, whose making an observer may follow. A source
    /// that cannot cross is refused, once the observer has its route.
    pub fn create(
        &mut self,
        spec: &SandboxSpec,
        events: Option<u64>,
        correlation_id: Option<String>,
    ) -> (request: Result<Request<m::CreateParams>, Error>)
        requires
            old(self).client.wf(),
        ensures
            final(self).client.wf(),
            *final(self) == (PluginProvider { client: final(self).client, ..*old(self) }),
            exists|route: Option<m::EventRequest>| #[trigger]
                registers_events(
                    old(self).client,
                    final(self).client,
                    events,
                    correlation_id,
                    route,
                ) && match request {
                    Ok(request) => {
                        &&& request.method@ == m::SANDBOX_CREATE@
                        &&& m::sandbox_dto_says(*spec, request.params.spec)
                        &&& request.params.events == route
                    },
                    Err(error) => {
                        &&& m::sandbox_source_dto(spec.source) is None
                        &&& error@ == invalid_spec("source"@, "unsupported sandbox source"@)
                    },
                },
    {
        let route = self.client.register_events(events, correlation_id);
        let spec = match m::SandboxSpecDto::try_from(spec) {
            Ok(spec) => spec,
            Err(error) => {
                return Err(error);
            },
        };
        Ok(Request { method: m::SANDBOX_CREATE, params: m::CreateParams { spec, events: route } })
    }

    fn with_route(
        &mut self,
        method: &'static str,
        id: &str,
        events: Option<u64>,
        correlation_id: Option<String>,
    ) -> (request: Request<m::AttachParams>)
        requires
            old(self).client.wf(),
        ensures
            final(self).client.wf(),
            *final(self) == (PluginProvider { client: final(self).client, ..*old(self) }),
            registers_events(
                old(self).client,
                final(self).client,
                events,
                correlation_id,
                request.params.events,
            ),
            request.method@ == method@,
            request.params.sandbox_id@ == id@,
    {
        let route = self.client.register_events(events, correlation_id);
        Request { method, params: m::AttachParams { sandbox_id: id.to_owned(), events: route } }
    }

    /// Asks for a sandbox that there is already: a running one, or a deleted
    /// one that is to come back.
    pub fn open_handle(
        &mut self,
        undelete: bool,
        id: &str,
        events: Option<u64>,
        correlation_id: Option<String>,
    ) -> (request: Request<m::AttachParams>)
        requires
            old(self).client.wf(),
        ensures
            final(self).client.wf(),
            *final(self) == (PluginProvider { client: final(self).client, ..*old(self) }),
            registers_events(
                old(self).client,
                final(self).client,
                events,
                correlation_id,
                request.params.events,
            ),
            request.method@ == if undelete {
                m::SANDBOX_UNDELETE@
            } else {
                m::SANDBOX_ATTACH@
            },
            request.params.sandbox_id@ == id@,
    {
        if undelete {
            self.with_route(m::SANDBOX_UNDELETE, id, events, correlation_id)
        } else {
            self.with_route(m::SANDBOX_ATTACH, id, events, correlation_id)
        }
    }

    /// Asks to delete a sandbox that there need be no handle for.
    pub fn delete(&mut self, id: &str, events: Option<u64>, correlation_id: Option<String>) -> (
    request: Request<m::AttachParams>)
        requires
            old(self).client.wf(),
        ensures
            final(self).client.wf(),
            *final(self) == (PluginProvider { client: final(self).client, ..*old(self) }),
            registers_events(
                old(self).client,
                final(self).client,
                events,
                correlation_id,
                request.params.events,
            ),
            request.method@ == m::SANDBOX_DELETE@,
            request.params.sandbox_id@ == id@,
    {
        self.with_route(m::SANDBOX_DELETE, id, events, correlation_id)
    }

    /// Asks which sandboxes there are.
    pub fn list(filter: Value) -> (request: Request<m::ListParams>)
        ensures
            request.method@ == m::SANDBOX_LIST@,
            request.params.filter == filter,
    {
        Request { method: m::SANDBOX_LIST, params: m::ListParams { filter } }
    }

    /// The handle of a sandbox that the plugin made or found: its
    /// capabilities as they cross, and its later events routed to the
    /// observer of the call.
    pub fn wrap_handle(&mut self, info: m::HandleInfo, id: String, events: Option<u64>) -> (handle:
        SandboxHandle)
        requires
            old(self).client.wf(),
        ensures
            final(self).client.wf(),
            handle.wf(),
            handle.id@ == id@,
            handle.capabilities == masked(info.capabilities),
            handle.working_directory == info.working_directory,
            handle.runtime_directory == info.runtime_directory,
            handle.events == events,
            match events {
                Some(context) => inserted(
                    old(self).client.event_contexts@,
                    final(self).client.event_contexts@,
                    id@,
                    context,
                    old(self).client.event_contexts@.dom().len()
                        >= old(self).client.limits.cached_handles,
                ),
                None => *final(self) == *old(self),
            },
            *final(self) == (PluginProvider {
                client: Client {
                    event_contexts: final(self).client.event_contexts,
                    ..old(self).client
                },
                ..*old(self)
            }),
    {
        let mut capabilities = info.capabilities;
        mask_wire_capabilities(&mut capabilities);
        if let Some(context) = events {
            self.client.remember_event_context(id.clone(), context);
        }
        SandboxHandle::new(
            id,
            capabilities,
            info.working_directory,
            info.runtime_directory,
            events,
        )
    }

    /// The plugin's health. A plugin without a health check answers that
    /// there is no such method: its health is unknown, which is no failed
    /// check.
    pub fn health(answer: Result<m::HealthResult, Error>) -> (health: Result<ProviderHealth, Error>)
        ensures
            tells_health(answer, health),
            match answer {
                Ok(result) => health == Ok::<ProviderHealth, Error>(result.health),
                Err(error) => if method_not_found(error@) {
                    &&& health matches Ok(health)
                    &&& health.status == HealthStatus::Unknown
                    &&& health.message is None
                    &&& health.identity is None
                    &&& health.missing_permissions@ == Seq::<String>::empty()
                } else {
                    health == Err::<ProviderHealth, Error>(error)
                },
            },
    {
        match answer {
            Ok(result) => Ok(result.health),
            Err(error) => {
                if is_method_not_found(&error) {
                    Ok(ProviderHealth::new(HealthStatus::Unknown))
                } else {
                    Err(error)
                }
            },
        }
    }
}

/// An id that the plugin answered with, as the driver judges it.
pub fn answered_id(field: &str, id: String, verdict: Result<(), String>) -> (outcome: Result<
    String,
    Error,
>)
    ensures
        match verdict {
            Ok(()) => outcome == Ok::<String, Error>(id),
            Err(reason) => outcome matches Err(error) && error@ == invalid_spec(field@, reason@),
        },
{
    match verdict {
        Ok(()) => Ok(id),
        Err(reason) => Err(Error::invalid_spec(field, reason.as_str())),
    }
}

/// A fresh connection announces what it listens on: the version that this
/// side speaks, its own socket, the frame limit and acknowledged openings. It
/// awaits nothing, owns no channel, and trusts only the named peer.
pub proof fn a_fresh_connection_announces_itself(
    connecting: Connecting,
    limits: TransportLimits,
    peer: TrustedPeer,
    socket_path: String,
    child: Option<u32>,
)
    requires
        is_fresh(connecting, limits, peer, socket_path, child),
    ensures
        connecting.params.protocol_version == 2,
        connecting.params.data_transport.socket_path@ == connecting.listener.socket_path@,
        connecting.params.data_transport.max_frame_bytes == 65536,
        connecting.params.data_transport.open_ack,
        connecting.client.limits == limits,
        connecting.listener.limits == limits,
        connecting.listener.peer == peer,
        connecting.client.pending@.len() == 0,
        connecting.listener.holders@.dom().len() == 0,
        !connecting.client.closed,
        connecting.child == child,
{
}

/// A plugin of another version is refused by its version, and two versions
/// are refused with different words.
pub proof fn another_version_is_refused_by_its_number(one: u32, other: u32)
    ensures
        version_refusal(one) matches ErrorView::InvalidSpec { field, .. } && field
            == "protocol_version"@,
        version_refusal(one) == version_refusal(other) ==> one == other,
{
    let start = "host speaks protocol version "@ + decimal_text(m::PROTOCOL_VERSION as nat)
        + " but the plugin answered "@;
    let a = decimal_text(one as nat);
    let b = decimal_text(other as nat);
    assert((start + a).skip(start.len() as int) =~= a);
    assert((start + b).skip(start.len() as int) =~= b);
    if one != other {
        crate::text::decimals_differ(one as nat, other as nat);
    }
}

/// Whether this is the health that a plugin's answer tells.
pub open spec fn tells_health(
    answer: Result<m::HealthResult, Error>,
    health: Result<ProviderHealth, Error>,
) -> bool {
    &&& answer is Ok ==> health is Ok && health->Ok_0 == answer->Ok_0.health
    &&& answer is Err && method_not_found(answer->Err_0@) ==> health is Ok
        && health->Ok_0.status is Unknown && health->Ok_0.identity is None
    &&& answer is Err && !method_not_found(answer->Err_0@) ==> health is Err && health->Err_0
        == answer->Err_0
}

/// The health that is told is the plugin's own report; only a plugin without
/// a health check is of unknown health, and any other failure stays one.
pub proof fn health_is_what_the_plugin_reports(
    answer: Result<m::HealthResult, Error>,
    health: Result<ProviderHealth, Error>,
)
    requires
        tells_health(answer, health),
    ensures
        answer matches Ok(report) ==> health == Ok::<ProviderHealth, Error>(report.health),
        answer matches Err(error) ==> (health is Ok <==> method_not_found(error@)),
        answer is Err && health is Ok ==> health->Ok_0.status is Unknown,
        health is Err ==> answer is Err && health->Err_0 == answer->Err_0,
{
}

} // verus!
