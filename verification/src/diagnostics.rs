//! Bounded transport diagnostics. These counters describe local ownership,
//! not proof that remote processes stopped.

use vstd::prelude::*;

verus! {

/// What the plugin's side owns.
#[derive(Clone, Copy, Debug)]
pub struct ServerDiagnostics {
    pub active_io: usize,
    pub pending_opens: usize,
    pub execs: usize,
    pub stdios: usize,
    pub ptys: usize,
    pub streams: usize,
    pub cached_handles: usize,
    pub background_tasks: usize,
    /// All live tasks in the plugin's runtime, this query among them.
    pub runtime_tasks: usize,
}

impl Default for ServerDiagnostics {
    fn default() -> (diagnostics: Self)
        ensures
            diagnostics == (ServerDiagnostics {
                active_io: 0,
                pending_opens: 0,
                execs: 0,
                stdios: 0,
                ptys: 0,
                streams: 0,
                cached_handles: 0,
                background_tasks: 0,
                runtime_tasks: 0,
            }),
    {
        ServerDiagnostics {
            active_io: 0,
            pending_opens: 0,
            execs: 0,
            stdios: 0,
            ptys: 0,
            streams: 0,
            cached_handles: 0,
            background_tasks: 0,
            runtime_tasks: 0,
        }
    }
}

/// What the host's side owns.
#[derive(Clone, Copy, Debug)]
pub struct ClientDiagnostics {
    pub active_io: usize,
    pub pending_opens: usize,
    pub handshakes: usize,
    pub accept_backoffs: u64,
    pub authenticated_opens: u64,
    pub pending_requests: usize,
    pub cleanup_tasks: usize,
    pub failed_cleanups: usize,
    pub event_routes: usize,
    pub event_contexts: usize,
    /// All live tasks in the host's runtime, application tasks among them.
    pub runtime_tasks: usize,
    pub setup_samples_lost: u64,
    /// Logical stop deliveries, those still waiting or interrupted among
    /// them.
    pub stop_requests: u64,
    pub stop_acknowledgments: u64,
    /// Longest successful delivery, retries of a refused admission included
    /// in it.
    pub max_stop_acknowledgment_us: u64,
}

/// Nothing owned and nothing counted.
pub open spec fn no_client_diagnostics() -> ClientDiagnostics {
    ClientDiagnostics {
        active_io: 0,
        pending_opens: 0,
        handshakes: 0,
        accept_backoffs: 0,
        authenticated_opens: 0,
        pending_requests: 0,
        cleanup_tasks: 0,
        failed_cleanups: 0,
        event_routes: 0,
        event_contexts: 0,
        runtime_tasks: 0,
        setup_samples_lost: 0,
        stop_requests: 0,
        stop_acknowledgments: 0,
        max_stop_acknowledgment_us: 0,
    }
}

impl Default for ClientDiagnostics {
    fn default() -> (diagnostics: Self)
        ensures
            diagnostics == no_client_diagnostics(),
    {
        ClientDiagnostics {
            active_io: 0,
            pending_opens: 0,
            handshakes: 0,
            accept_backoffs: 0,
            authenticated_opens: 0,
            pending_requests: 0,
            cleanup_tasks: 0,
            failed_cleanups: 0,
            event_routes: 0,
            event_contexts: 0,
            runtime_tasks: 0,
            setup_samples_lost: 0,
            stop_requests: 0,
            stop_acknowledgments: 0,
            max_stop_acknowledgment_us: 0,
        }
    }
}

/// Both sides of one connection.
#[derive(Clone, Copy, Debug)]
pub struct TransportDiagnostics {
    pub client: ClientDiagnostics,
    pub server: ServerDiagnostics,
}

/// A report of nothing counts nothing.
pub proof fn nothing_counts_nothing()
    ensures
        no_client_diagnostics().active_io == 0,
        no_client_diagnostics().pending_requests == 0,
        no_client_diagnostics().failed_cleanups == 0,
        no_client_diagnostics().event_routes == 0,
        no_client_diagnostics().event_contexts == 0,
        no_client_diagnostics().stop_requests == 0,
        no_client_diagnostics().stop_acknowledgments == 0,
        no_client_diagnostics().max_stop_acknowledgment_us == 0,
{
}

} // verus!
