//! Snapshots and volumes: what the plugin is asked for on behalf of the
//! services that a provider has beside its sandboxes.

use crate::channel::ChannelRequest;
use crate::client::{next_number, numbered, registers_events, Client};
use crate::driver::{invalid_spec, Error, SnapshotSpec};
use crate::methods as m;
use crate::sandbox::Request;
use serde_json::Value;
use vstd::prelude::*;

verus! {

/// What is done to a snapshot that there is already.
#[derive(Clone, Copy, Debug, PartialEq, Eq, Structural)]
pub enum SnapshotAction {
    Delete,
    Activate,
    Deactivate,
}

/// The method that does it.
pub open spec fn action_method(action: SnapshotAction) -> Seq<char> {
    match action {
        SnapshotAction::Delete => m::SNAPSHOT_DELETE@,
        SnapshotAction::Activate => m::SNAPSHOT_ACTIVATE@,
        SnapshotAction::Deactivate => m::SNAPSHOT_DEACTIVATE@,
    }
}

/// The snapshot service of a plugin.
pub struct ProviderSnapshots {}

impl ProviderSnapshots {
    /// Asks for a new snapshot, whose making an observer may follow. A source
    /// that cannot cross is refused, once the observer has its route.
    pub fn create(
        client: &mut Client,
        spec: &SnapshotSpec,
        events: Option<u64>,
        correlation_id: Option<String>,
    ) -> (request: Result<Request<m::SnapshotCreateParams>, Error>)
        requires
            old(client).wf(),
        ensures
            final(client).wf(),
            exists|route: Option<m::EventRequest>| #[trigger]
                registers_events(*old(client), *final(client), events, correlation_id, route)
                    && match request {
                    Ok(request) => {
                        &&& request.method@ == m::SNAPSHOT_CREATE@
                        &&& m::snapshot_source_dto(spec.source) == Some(request.params.spec.source)
                        &&& m::same_snapshot_settings(*spec, request.params.spec)
                        &&& request.params.events == route
                    },
                    Err(error) => {
                        &&& m::snapshot_source_dto(spec.source) is None
                        &&& error@ == invalid_spec("source"@, "unsupported snapshot source"@)
                    },
                },
    {
        let route = client.register_events(events, correlation_id);
        let spec = match m::SnapshotSpecDto::try_from(spec) {
            Ok(spec) => spec,
            Err(error) => {
                return Err(error);
            },
        };
        Ok(
            Request {
                method: m::SNAPSHOT_CREATE,
                params: m::SnapshotCreateParams { spec, events: route },
            },
        )
    }

    /// Asks how a snapshot is.
    pub fn get(id: &str) -> (request: Request<m::SnapshotIdParams>)
        ensures
            request.method@ == m::SNAPSHOT_GET@,
            request.params.snapshot_id@ == id@,
            request.params.events is None,
    {
        Request {
            method: m::SNAPSHOT_GET,
            params: m::SnapshotIdParams { snapshot_id: id.to_owned(), events: None },
        }
    }

    /// Asks which snapshots there are.
    pub fn list(filter: Value) -> (request: Request<m::SnapshotListParams>)
        ensures
            request.method@ == m::SNAPSHOT_LIST@,
            request.params.filter == filter,
    {
        Request { method: m::SNAPSHOT_LIST, params: m::SnapshotListParams { filter } }
    }

    /// Asks to delete, activate or deactivate a snapshot, which an observer
    /// may follow.
    pub fn with_events(
        client: &mut Client,
        action: SnapshotAction,
        id: &str,
        events: Option<u64>,
        correlation_id: Option<String>,
    ) -> (request: Request<m::SnapshotIdParams>)
        requires
            old(client).wf(),
        ensures
            final(client).wf(),
            registers_events(
                *old(client),
                *final(client),
                events,
                correlation_id,
                request.params.events,
            ),
            request.method@ == action_method(action),
            request.params.snapshot_id@ == id@,
    {
        let route = client.register_events(events, correlation_id);
        let method: &'static str = match action {
            SnapshotAction::Delete => m::SNAPSHOT_DELETE,
            SnapshotAction::Activate => m::SNAPSHOT_ACTIVATE,
            SnapshotAction::Deactivate => m::SNAPSHOT_DEACTIVATE,
        };
        Request {
            method,
            params: m::SnapshotIdParams { snapshot_id: id.to_owned(), events: route },
        }
    }

    /// Asks for the logs of a snapshot's making, under a name that nothing
    /// else has.
    pub fn build_logs(client: &mut Client, id: &str, follow: bool, channel: ChannelRequest) -> (
    request: Request<m::SnapshotBuildLogsParams>)
        requires
            old(client).wf(),
        ensures
            final(client).wf(),
            *final(client) == (Client {
                next_stream: next_number(old(client).next_stream),
                ..*old(client)
            }),
            request.method@ == m::SNAPSHOT_BUILD_LOGS@,
            request.params.snapshot_id@ == id@,
            request.params.stream_id@ == numbered("snapshot"@, old(client).next_stream),
            request.params.channel == channel,
            request.params.follow == follow,
    {
        let stream_id = client.next_stream_id("snapshot");
        Request {
            method: m::SNAPSHOT_BUILD_LOGS,
            params: m::SnapshotBuildLogsParams {
                snapshot_id: id.to_owned(),
                stream_id,
                channel,
                follow,
            },
        }
    }
}

/// The volume service of a plugin.
pub struct ProviderVolumes {}

impl ProviderVolumes {
    /// Asks for a new volume, whose making an observer may follow.
    pub fn create(
        client: &mut Client,
        spec: Value,
        events: Option<u64>,
        correlation_id: Option<String>,
    ) -> (request: Request<m::VolumeCreateParams>)
        requires
            old(client).wf(),
        ensures
            final(client).wf(),
            registers_events(
                *old(client),
                *final(client),
                events,
                correlation_id,
                request.params.events,
            ),
            request.method@ == m::VOLUME_CREATE@,
            request.params.spec == spec,
    {
        let route = client.register_events(events, correlation_id);
        Request { method: m::VOLUME_CREATE, params: m::VolumeCreateParams { spec, events: route } }
    }

    /// Asks how a volume is.
    pub fn get(id: &str) -> (request: Request<m::VolumeIdParams>)
        ensures
            request.method@ == m::VOLUME_GET@,
            request.params.volume_id@ == id@,
            request.params.events is None,
    {
        Request {
            method: m::VOLUME_GET,
            params: m::VolumeIdParams { volume_id: id.to_owned(), events: None },
        }
    }

    /// Asks which volumes there are.
    pub fn list() -> (request: Request<()>)
        ensures
            request.method@ == m::VOLUME_LIST@,
    {
        Request { method: m::VOLUME_LIST, params: () }
    }

    /// Asks to delete a volume, which an observer may follow.
    pub fn delete(
        client: &mut Client,
        id: &str,
        events: Option<u64>,
        correlation_id: Option<String>,
    ) -> (request: Request<m::VolumeIdParams>)
        requires
            old(client).wf(),
        ensures
            final(client).wf(),
            registers_events(
                *old(client),
                *final(client),
                events,
                correlation_id,
                request.params.events,
            ),
            request.method@ == m::VOLUME_DELETE@,
            request.params.volume_id@ == id@,
    {
        let route = client.register_events(events, correlation_id);
        Request {
            method: m::VOLUME_DELETE,
            params: m::VolumeIdParams { volume_id: id.to_owned(), events: route },
        }
    }
}

/// Each action on a snapshot is asked for by the method of its own.
pub proof fn snapshot_actions_have_their_own_method(one: SnapshotAction, other: SnapshotAction)
    ensures
        action_method(one) == crate::dispatch::method_name(
            match one {
                SnapshotAction::Delete => crate::dispatch::Method::SnapshotDelete,
                SnapshotAction::Activate => crate::dispatch::Method::SnapshotActivate,
                SnapshotAction::Deactivate => crate::dispatch::Method::SnapshotDeactivate,
            },
        ),
        action_method(one) == action_method(other) ==> one == other,
{
    crate::dispatch::method_names_are_distinct(
        crate::dispatch::Method::SnapshotDelete,
        crate::dispatch::Method::SnapshotActivate,
    );
    crate::dispatch::method_names_are_distinct(
        crate::dispatch::Method::SnapshotDelete,
        crate::dispatch::Method::SnapshotDeactivate,
    );
    crate::dispatch::method_names_are_distinct(
        crate::dispatch::Method::SnapshotActivate,
        crate::dispatch::Method::SnapshotDeactivate,
    );
}

} // verus!
