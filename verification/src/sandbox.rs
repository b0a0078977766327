//! A sandbox as the host sees it: what it offers, and what the plugin is
//! asked for when one of its facets is used.

use crate::channel::ChannelRequest;
use crate::client::{next_number, numbered, Client};
use crate::driver::{
    millis_of, nanos_of, saturating_millis, unsupported, Capabilities, Capability, Error, ExecSpec,
    ForkOptions, SandboxSnapshotOptions,
};
use crate::methods as m;
use crate::registry::inserted;
use crate::table::Table;
use crate::text::{copy_opt_text, opt_text};
use crate::wire::{is_method_not_found, method_not_found};
use serde_json::Value;
use std::time::Duration;
use vstd::prelude::*;

verus! {

/// What the plugin is asked: a method, and its parameters.
pub struct Request<P> {
    pub method: &'static str,
    pub params: P,
}

/// Commands and processes in a sandbox.
pub struct SandboxExec {
    pub sandbox_id: String,
}

impl SandboxExec {
    /// Asks to run a command, under a name that nothing else has.
    pub fn run_streaming(
        &self,
        client: &mut Client,
        channel: ChannelRequest,
        spec: &ExecSpec,
        stdin: bool,
        retained_output_limit: Option<usize>,
    ) -> (request: Request<m::ExecStreamParams>)
        requires
            old(client).wf(),
        ensures
            final(client).wf(),
            *final(client) == (Client {
                next_exec: next_number(old(client).next_exec),
                ..*old(client)
            }),
            request.method@ == m::EXEC_STREAM@,
            request.params.sandbox_id@ == self.sandbox_id@,
            request.params.exec_id@ == numbered(
                "x"@ + self.sandbox_id@,
                old(client).next_exec,
            ),
            request.params.channel == channel,
            m::spec_crosses(*spec, request.params.spec),
            request.params.stdin == stdin,
            request.params.retained_output_limit == retained_output_limit,
    {
        let exec_id = client.next_exec_id(self.sandbox_id.as_str());
        Request {
            method: m::EXEC_STREAM,
            params: m::ExecStreamParams {
                sandbox_id: self.sandbox_id.clone(),
                exec_id,
                channel,
                spec: m::ExecSpecDto::from_spec(spec),
                stdin,
                retained_output_limit,
            },
        }
    }

    /// Asks to start a process, under a name that nothing else has.
    pub fn spawn_stdio(&self, client: &mut Client, channel: ChannelRequest, spec: Value) -> (request:
        Request<m::StdioOpenParams>)
        requires
            old(client).wf(),
        ensures
            final(client).wf(),
            *final(client) == (Client {
                next_stream: next_number(old(client).next_stream),
                ..*old(client)
            }),
            request.method@ == m::EXEC_STDIO_OPEN@,
            request.params.sandbox_id@ == self.sandbox_id@,
            request.params.process_id@ == numbered("stdio"@, old(client).next_stream),
            request.params.channel == channel,
            request.params.spec == spec,
    {
        let process_id = client.next_stream_id("stdio");
        Request {
            method: m::EXEC_STDIO_OPEN,
            params: m::StdioOpenParams {
                sandbox_id: self.sandbox_id.clone(),
                process_id,
                channel,
                spec,
            },
        }
    }
}

/// Commands in sandboxes of their own.
pub struct SandboxOneShot {
    pub sandbox_id: String,
}

impl SandboxOneShot {
    /// Asks to run a command, under a name that nothing else has.
    pub fn run(
        &self,
        client: &mut Client,
        channel: ChannelRequest,
        spec: Value,
        retained_output_limit: Option<usize>,
    ) -> (request: Request<m::OneShotRunParams>)
        requires
            old(client).wf(),
        ensures
            final(client).wf(),
            *final(client) == (Client {
                next_exec: next_number(old(client).next_exec),
                ..*old(client)
            }),
            request.method@ == m::ONE_SHOT_RUN@,
            request.params.sandbox_id@ == self.sandbox_id@,
            request.params.exec_id@ == numbered(
                "x"@ + self.sandbox_id@,
                old(client).next_exec,
            ),
            request.params.channel == channel,
            request.params.spec == spec,
            request.params.retained_output_limit == retained_output_limit,
    {
        let exec_id = client.next_exec_id(self.sandbox_id.as_str());
        Request {
            method: m::ONE_SHOT_RUN,
            params: m::OneShotRunParams {
                sandbox_id: self.sandbox_id.clone(),
                exec_id,
                channel,
                spec,
                retained_output_limit,
            },
        }
    }
}

/// Terminals of a sandbox.
pub struct SandboxPty {
    pub sandbox_id: String,
}

impl SandboxPty {
    /// Asks to open a terminal, under a name that nothing else has.
    pub fn open(&self, client: &mut Client, channel: ChannelRequest, options: Value) -> (request:
        Request<m::PtyOpenParams>)
        requires
            old(client).wf(),
        ensures
            final(client).wf(),
            *final(client) == (Client {
                next_stream: next_number(old(client).next_stream),
                ..*old(client)
            }),
            request.method@ == m::PTY_OPEN@,
            request.params.sandbox_id@ == self.sandbox_id@,
            request.params.pty_id@ == numbered("pty"@, old(client).next_stream),
            request.params.channel == channel,
            request.params.options == options,
    {
        let pty_id = client.next_stream_id("pty");
        Request {
            method: m::PTY_OPEN,
            params: m::PtyOpenParams {
                sandbox_id: self.sandbox_id.clone(),
                pty_id,
                channel,
                options,
            },
        }
    }
}

/// Logs of a sandbox.
pub struct SandboxLogs {
    pub sandbox_id: String,
}

impl SandboxLogs {
    /// Asks to follow a log, under a name that nothing else has.
    pub fn follow(&self, client: &mut Client, channel: ChannelRequest, source: Value) -> (request:
        Request<m::LogsFollowParams>)
        requires
            old(client).wf(),
        ensures
            final(client).wf(),
            *final(client) == (Client {
                next_stream: next_number(old(client).next_stream),
                ..*old(client)
            }),
            request.method@ == m::LOGS_FOLLOW@,
            request.params.sandbox_id@ == self.sandbox_id@,
            request.params.stream_id@ == numbered("logs"@, old(client).next_stream),
            request.params.channel == channel,
            request.params.source == source,
    {
        let stream_id = client.next_stream_id("logs");
        Request {
            method: m::LOGS_FOLLOW,
            params: m::LogsFollowParams {
                sandbox_id: self.sandbox_id.clone(),
                stream_id,
                channel,
                source,
            },
        }
    }
}

/// Ways into a sandbox from outside.
pub struct SandboxAccess {
    pub sandbox_id: String,
}

impl SandboxAccess {
    fn port_params(&self, port: u16) -> (params: m::PreviewUrlParams)
        ensures
            params.sandbox_id@ == self.sandbox_id@,
            params.port == port,
    {
        m::PreviewUrlParams { sandbox_id: self.sandbox_id.clone(), port }
    }

    /// Asks for a port's preview URL.
    pub fn preview_url(&self, port: u16) -> (request: Request<m::PreviewUrlParams>)
        ensures
            request.method@ == m::ACCESS_PREVIEW_URL@,
            request.params.sandbox_id@ == self.sandbox_id@,
            request.params.port == port,
    {
        Request { method: m::ACCESS_PREVIEW_URL, params: self.port_params(port) }
    }

    /// Asks for a preview URL that expires, in whole milliseconds.
    pub fn signed_preview_url(&self, port: u16, expires_in: &Duration) -> (request: Request<
        m::SignedPreviewUrlParams,
    >)
        ensures
            request.method@ == m::ACCESS_SIGNED_PREVIEW_URL@,
            request.params.sandbox_id@ == self.sandbox_id@,
            request.params.port == port,
            request.params.expires_in_ms == millis_of(nanos_of(*expires_in)),
    {
        Request {
            method: m::ACCESS_SIGNED_PREVIEW_URL,
            params: m::SignedPreviewUrlParams {
                sandbox_id: self.sandbox_id.clone(),
                port,
                expires_in_ms: saturating_millis(expires_in),
            },
        }
    }

    /// Asks to release a port's preview URL.
    pub fn preview_release(&self, port: u16) -> (request: Request<m::PreviewUrlParams>)
        ensures
            request.method@ == m::ACCESS_PREVIEW_RELEASE@,
            request.params.sandbox_id@ == self.sandbox_id@,
            request.params.port == port,
    {
        Request { method: m::ACCESS_PREVIEW_RELEASE, params: self.port_params(port) }
    }

    /// The release of a preview URL. A plugin that does not know the method
    /// holds nothing for the URL, so there is nothing to release.
    pub fn release_preview_url(answer: Result<(), Error>) -> (outcome: Result<(), Error>)
        ensures
            match answer {
                Ok(()) => outcome is Ok,
                Err(error) => if method_not_found(error@) {
                    outcome is Ok
                } else {
                    outcome == Err::<(), Error>(error)
                },
            },
    {
        match answer {
            Ok(()) => Ok(()),
            Err(error) => {
                if is_method_not_found(&error) {
                    Ok(())
                } else {
                    Err(error)
                }
            },
        }
    }

    /// Asks for SSH access that may expire, in whole milliseconds.
    pub fn ssh_access(&self, ttl: Option<Duration>) -> (request: Request<m::SshCreateParams>)
        ensures
            request.method@ == m::ACCESS_SSH_CREATE@,
            request.params.sandbox_id@ == self.sandbox_id@,
            request.params.ttl_ms == match ttl {
                Some(ttl) => Some(millis_of(nanos_of(ttl))),
                None => None,
            },
    {
        let ttl_ms = match ttl {
            Some(ttl) => Some(saturating_millis(&ttl)),
            None => None,
        };
        Request {
            method: m::ACCESS_SSH_CREATE,
            params: m::SshCreateParams { sandbox_id: self.sandbox_id.clone(), ttl_ms },
        }
    }

    /// Asks to revoke SSH access.
    pub fn revoke_ssh_access(&self, token: &str) -> (request: Request<m::SshRevokeParams>)
        ensures
            request.method@ == m::ACCESS_SSH_REVOKE@,
            request.params.sandbox_id@ == self.sandbox_id@,
            request.params.token@ == token@,
    {
        Request {
            method: m::ACCESS_SSH_REVOKE,
            params: m::SshRevokeParams {
                sandbox_id: self.sandbox_id.clone(),
                token: token.to_owned(),
            },
        }
    }

    /// Asks for the terminal in the browser.
    pub fn web_terminal_url(&self) -> (request: Request<m::SandboxIdParams>)
        ensures
            request.method@ == m::ACCESS_WEB_TERMINAL@,
            request.params.sandbox_id@ == self.sandbox_id@,
    {
        Request {
            method: m::ACCESS_WEB_TERMINAL,
            params: m::SandboxIdParams { sandbox_id: self.sandbox_id.clone() },
        }
    }

    /// Asks for the remote desktop.
    pub fn vnc_connection(&self) -> (request: Request<m::SandboxIdParams>)
        ensures
            request.method@ == m::ACCESS_VNC@,
            request.params.sandbox_id@ == self.sandbox_id@,
    {
        Request {
            method: m::ACCESS_VNC,
            params: m::SandboxIdParams { sandbox_id: self.sandbox_id.clone() },
        }
    }
}

/// What follows the plugin's answer to a clone.
#[derive(Debug)]
pub enum CloneStep {
    Done(Result<(), Error>),
    /// The plugin does not know the method: clone by commands, as this side
    /// does for a plugin without a clone of its own.
    Derive,
}

/// Version control in a sandbox whose plugin has a clone of its own. Every
/// other operation is made of commands, on this side.
pub struct SandboxGit {
    pub sandbox_id: String,
    /// Where the commands keep their helpers.
    pub runtime_directory: Option<String>,
}

impl SandboxGit {
    /// Asks the plugin to clone.
    pub fn clone_request(&self, url: &str, target_path: &str, options: Value) -> (request: Request<
        m::GitCloneParams,
    >)
        ensures
            request.method@ == m::GIT_CLONE@,
            request.params.sandbox_id@ == self.sandbox_id@,
            request.params.url@ == url@,
            request.params.target_path@ == target_path@,
            request.params.options == options,
    {
        Request {
            method: m::GIT_CLONE,
            params: m::GitCloneParams {
                sandbox_id: self.sandbox_id.clone(),
                url: url.to_owned(),
                target_path: target_path.to_owned(),
                options,
            },
        }
    }

    /// What follows the plugin's answer to a clone.
    pub fn clone_repo(answer: Result<(), Error>) -> (step: CloneStep)
        ensures
            step == match answer {
                Ok(()) => CloneStep::Done(Ok(())),
                Err(error) => if method_not_found(error@) {
                    CloneStep::Derive
                } else {
                    CloneStep::Done(Err(error))
                },
            },
    {
        match answer {
            Ok(()) => CloneStep::Done(Ok(())),
            Err(error) => {
                if is_method_not_found(&error) {
                    CloneStep::Derive
                } else {
                    CloneStep::Done(Err(error))
                }
            },
        }
    }
}

/// Files of a sandbox: contents ride a data channel, everything else crosses
/// in the request.
pub struct SandboxFs {
    pub sandbox_id: String,
}

impl SandboxFs {
    /// The parameters that name a path and nothing else.
    pub fn path_params(&self, path: &str) -> (params: m::FsPathParams)
        ensures
            params.sandbox_id@ == self.sandbox_id@,
            params.path@ == path@,
    {
        m::FsPathParams { sandbox_id: self.sandbox_id.clone(), path: path.to_owned() }
    }

    /// Asks to read a file, or a part of it.
    pub fn read_through_channel(
        &self,
        path: &str,
        channel: ChannelRequest,
        offset: Option<u64>,
        length: Option<u64>,
    ) -> (request: Request<m::FsReadParams>)
        ensures
            request.method@ == m::FS_READ@,
            request.params.sandbox_id@ == self.sandbox_id@,
            request.params.path@ == path@,
            request.params.channel == channel,
            request.params.offset == offset,
            request.params.length == length,
    {
        Request {
            method: m::FS_READ,
            params: m::FsReadParams {
                sandbox_id: self.sandbox_id.clone(),
                path: path.to_owned(),
                channel,
                offset,
                length,
            },
        }
    }

    /// Asks to write a file, or the end of one, of a known length.
    pub fn write_through_channel(
        &self,
        path: &str,
        channel: ChannelRequest,
        length: u64,
        append: bool,
    ) -> (request: Request<m::FsWriteParams>)
        ensures
            request.method@ == m::FS_WRITE@,
            request.params.sandbox_id@ == self.sandbox_id@,
            request.params.path@ == path@,
            request.params.channel == channel,
            request.params.append == append,
            request.params.content_length == Some(length),
    {
        Request {
            method: m::FS_WRITE,
            params: m::FsWriteParams {
                sandbox_id: self.sandbox_id.clone(),
                path: path.to_owned(),
                channel,
                append,
                content_length: Some(length),
            },
        }
    }

    /// Asks to delete a file or a directory.
    pub fn delete(&self, path: &str, recursive: bool) -> (request: Request<m::FsDeleteParams>)
        ensures
            request.method@ == m::FS_DELETE@,
            request.params.sandbox_id@ == self.sandbox_id@,
            request.params.path@ == path@,
            request.params.recursive == recursive,
    {
        Request {
            method: m::FS_DELETE,
            params: m::FsDeleteParams {
                sandbox_id: self.sandbox_id.clone(),
                path: path.to_owned(),
                recursive,
            },
        }
    }

    /// Asks whether there is something at a path.
    pub fn exists_at(&self, path: &str) -> (request: Request<m::FsPathParams>)
        ensures
            request.method@ == m::FS_EXISTS@,
            request.params.sandbox_id@ == self.sandbox_id@,
            request.params.path@ == path@,
    {
        Request { method: m::FS_EXISTS, params: self.path_params(path) }
    }

    /// Asks what there is at a path.
    pub fn metadata(&self, path: &str) -> (request: Request<m::FsPathParams>)
        ensures
            request.method@ == m::FS_METADATA@,
            request.params.sandbox_id@ == self.sandbox_id@,
            request.params.path@ == path@,
    {
        Request { method: m::FS_METADATA, params: self.path_params(path) }
    }

    /// Asks what is in a directory, to a depth.
    pub fn list_dir(&self, path: &str, depth: usize) -> (request: Request<m::FsListDirParams>)
        ensures
            request.method@ == m::FS_LIST_DIR@,
            request.params.sandbox_id@ == self.sandbox_id@,
            request.params.path@ == path@,
            request.params.depth == depth,
    {
        Request {
            method: m::FS_LIST_DIR,
            params: m::FsListDirParams {
                sandbox_id: self.sandbox_id.clone(),
                path: path.to_owned(),
                depth,
            },
        }
    }

    /// Asks to make a directory.
    pub fn create_dir(&self, path: &str) -> (request: Request<m::FsPathParams>)
        ensures
            request.method@ == m::FS_CREATE_DIR@,
            request.params.sandbox_id@ == self.sandbox_id@,
            request.params.path@ == path@,
    {
        Request { method: m::FS_CREATE_DIR, params: self.path_params(path) }
    }

    /// Asks to move what is at a path.
    pub fn rename(&self, from: &str, to: &str) -> (request: Request<m::FsRenameParams>)
        ensures
            request.method@ == m::FS_RENAME@,
            request.params.sandbox_id@ == self.sandbox_id@,
            request.params.from@ == from@,
            request.params.to@ == to@,
    {
        Request {
            method: m::FS_RENAME,
            params: m::FsRenameParams {
                sandbox_id: self.sandbox_id.clone(),
                from: from.to_owned(),
                to: to.to_owned(),
            },
        }
    }

    /// Asks to set the permissions of what is at a path.
    pub fn set_permissions(&self, path: &str, mode: u32) -> (request: Request<
        m::FsSetPermissionsParams,
    >)
        ensures
            request.method@ == m::FS_SET_PERMISSIONS@,
            request.params.sandbox_id@ == self.sandbox_id@,
            request.params.path@ == path@,
            request.params.mode == mode,
    {
        Request {
            method: m::FS_SET_PERMISSIONS,
            params: m::FsSetPermissionsParams {
                sandbox_id: self.sandbox_id.clone(),
                path: path.to_owned(),
                mode,
            },
        }
    }
}

/// A sandbox handle backed by the plugin.
pub struct SandboxHandle {
    pub id: String,
    pub capabilities: Capabilities,
    pub working_directory: String,
    pub runtime_directory: Option<String>,
    pub exec_facet: SandboxExec,
    pub git_facet: SandboxGit,
    pub one_shot_facet: SandboxOneShot,
    pub access: SandboxAccess,
    pub pty_facet: SandboxPty,
    pub logs_facet: SandboxLogs,
    pub fs: SandboxFs,
    /// The observer of its events.
    pub events: Option<u64>,
}

impl SandboxHandle {
    /// Every facet is one of this sandbox.
    pub open spec fn wf(self) -> bool {
        &&& self.exec_facet.sandbox_id@ == self.id@
        &&& self.git_facet.sandbox_id@ == self.id@
        &&& opt_text(self.git_facet.runtime_directory) == opt_text(self.runtime_directory)
        &&& self.one_shot_facet.sandbox_id@ == self.id@
        &&& self.access.sandbox_id@ == self.id@
        &&& self.pty_facet.sandbox_id@ == self.id@
        &&& self.logs_facet.sandbox_id@ == self.id@
        &&& self.fs.sandbox_id@ == self.id@
    }

    /// A handle, with a facet of each kind. Which of them are offered is up
    /// to the capabilities.
    pub fn new(
        id: String,
        capabilities: Capabilities,
        working_directory: String,
        runtime_directory: Option<String>,
        events: Option<u64>,
    ) -> (handle: Self)
        ensures
            handle.wf(),
            handle.id == id,
            handle.capabilities == capabilities,
            handle.working_directory == working_directory,
            handle.runtime_directory == runtime_directory,
            handle.events == events,
    {
        SandboxHandle {
            exec_facet: SandboxExec { sandbox_id: id.clone() },
            git_facet: SandboxGit {
                sandbox_id: id.clone(),
                runtime_directory: copy_opt_text(&runtime_directory),
            },
            one_shot_facet: SandboxOneShot { sandbox_id: id.clone() },
            access: SandboxAccess { sandbox_id: id.clone() },
            pty_facet: SandboxPty { sandbox_id: id.clone() },
            logs_facet: SandboxLogs { sandbox_id: id.clone() },
            fs: SandboxFs { sandbox_id: id.clone() },
            id,
            capabilities,
            working_directory,
            runtime_directory,
            events,
        }
    }

    /// The parameters that name the sandbox and nothing else.
    pub fn id_params(&self) -> (params: m::SandboxIdParams)
        ensures
            params.sandbox_id@ == self.id@,
    {
        m::SandboxIdParams { sandbox_id: self.id.clone() }
    }

    /// Asks a method that takes the sandbox and nothing else.
    pub fn simple(&self, method: &'static str) -> (request: Request<m::SandboxIdParams>)
        ensures
            request.method@ == method@,
            request.params.sandbox_id@ == self.id@,
    {
        Request { method, params: self.id_params() }
    }

    /// Asks how the sandbox is.
    pub fn describe(&self) -> (request: Request<m::SandboxIdParams>)
        ensures
            request.method@ == m::SANDBOX_DESCRIBE@,
            request.params.sandbox_id@ == self.id@,
    {
        self.simple(m::SANDBOX_DESCRIBE)
    }

    /// Asks for the environment that commands run in, of a sandbox that can
    /// tell.
    pub fn environment(&self) -> (request: Result<Request<m::SandboxIdParams>, Error>)
        ensures
            match request {
                Ok(request) => {
                    &&& self.capabilities.exec_environment
                    &&& request.method@ == m::SANDBOX_ENVIRONMENT@
                    &&& request.params.sandbox_id@ == self.id@
                },
                Err(error) => {
                    &&& !self.capabilities.exec_environment
                    &&& error@ == unsupported(Capability::ExecEnvironment)
                },
            },
    {
        if !self.capabilities.exec_environment {
            return Err(Error::unsupported(Capability::ExecEnvironment));
        }
        Ok(self.simple(m::SANDBOX_ENVIRONMENT))
    }

    /// Asks what the sandbox runs on.
    pub fn platform_info(&self) -> (request: Request<m::SandboxIdParams>)
        ensures
            request.method@ == m::SANDBOX_PLATFORM_INFO@,
            request.params.sandbox_id@ == self.id@,
    {
        self.simple(m::SANDBOX_PLATFORM_INFO)
    }

    /// Asks to start the sandbox.
    pub fn start(&self) -> (request: Request<m::SandboxIdParams>)
        ensures
            request.method@ == m::SANDBOX_START@,
            request.params.sandbox_id@ == self.id@,
    {
        self.simple(m::SANDBOX_START)
    }

    /// Asks to stop the sandbox.
    pub fn stop(&self) -> (request: Request<m::SandboxIdParams>)
        ensures
            request.method@ == m::SANDBOX_STOP@,
            request.params.sandbox_id@ == self.id@,
    {
        self.simple(m::SANDBOX_STOP)
    }

    /// Asks to delete the sandbox.
    pub fn delete(&self) -> (request: Request<m::SandboxIdParams>)
        ensures
            request.method@ == m::SANDBOX_DELETE@,
            request.params.sandbox_id@ == self.id@,
    {
        self.simple(m::SANDBOX_DELETE)
    }

    /// Asks to pause the sandbox.
    pub fn pause(&self) -> (request: Request<m::SandboxIdParams>)
        ensures
            request.method@ == m::SANDBOX_PAUSE@,
            request.params.sandbox_id@ == self.id@,
    {
        self.simple(m::SANDBOX_PAUSE)
    }

    /// Asks to resume the sandbox.
    pub fn resume(&self) -> (request: Request<m::SandboxIdParams>)
        ensures
            request.method@ == m::SANDBOX_RESUME@,
            request.params.sandbox_id@ == self.id@,
    {
        self.simple(m::SANDBOX_RESUME)
    }

    /// Asks to archive the sandbox.
    pub fn archive(&self) -> (request: Request<m::SandboxIdParams>)
        ensures
            request.method@ == m::SANDBOX_ARCHIVE@,
            request.params.sandbox_id@ == self.id@,
    {
        self.simple(m::SANDBOX_ARCHIVE)
    }

    /// Asks to recover the sandbox.
    pub fn recover(&self) -> (request: Request<m::SandboxIdParams>)
        ensures
            request.method@ == m::SANDBOX_RECOVER@,
            request.params.sandbox_id@ == self.id@,
    {
        self.simple(m::SANDBOX_RECOVER)
    }

    /// Asks to count the sandbox as in use.
    pub fn refresh_activity(&self) -> (request: Request<m::SandboxIdParams>)
        ensures
            request.method@ == m::SANDBOX_REFRESH_ACTIVITY@,
            request.params.sandbox_id@ == self.id@,
    {
        self.simple(m::SANDBOX_REFRESH_ACTIVITY)
    }

    /// Asks for a fork.
    pub fn fork_request(&self, options: &ForkOptions) -> (request: Request<m::ForkParams>)
        ensures
            request.method@ == m::SANDBOX_FORK@,
            request.params.sandbox_id@ == self.id@,
            request.params.options.name == options.name,
            request.params.options.include_memory,
    {
        Request {
            method: m::SANDBOX_FORK,
            params: m::ForkParams {
                sandbox_id: self.id.clone(),
                options: m::ForkOptionsDto::from(options),
            },
        }
    }

    /// The handle of a fork: its capabilities as the plugin declared them for
    /// it. It shares the observer of the handle it was forked from, which
    /// later events of the fork go to as well.
    pub fn fork(&self, client: &mut Client, info: m::HandleInfo, id: String) -> (handle: Self)
        requires
            old(client).wf(),
        ensures
            final(client).wf(),
            handle.wf(),
            handle.id@ == id@,
            handle.capabilities == info.capabilities,
            handle.working_directory == info.working_directory,
            handle.runtime_directory == info.runtime_directory,
            handle.events == self.events,
            match self.events {
                Some(context) => inserted(
                    old(client).event_contexts@,
                    final(client).event_contexts@,
                    id@,
                    context,
                    old(client).event_contexts@.dom().len() >= old(client).limits.cached_handles,
                ),
                None => *final(client) == *old(client),
            },
            *final(client) == (Client {
                event_contexts: final(client).event_contexts,
                ..*old(client)
            }),
    {
        if let Some(context) = self.events {
            client.remember_event_context(id.clone(), context);
        }
        SandboxHandle::new(
            id,
            info.capabilities,
            info.working_directory,
            info.runtime_directory,
            self.events,
        )
    }

    /// Asks for other resources.
    pub fn resize(&self, resources: Value) -> (request: Request<m::ResizeParams>)
        ensures
            request.method@ == m::SANDBOX_RESIZE@,
            request.params.sandbox_id@ == self.id@,
            request.params.resources == resources,
    {
        Request {
            method: m::SANDBOX_RESIZE,
            params: m::ResizeParams { sandbox_id: self.id.clone(), resources },
        }
    }

    /// Asks for a snapshot.
    pub fn snapshot(&self, options: &SandboxSnapshotOptions) -> (request: Request<
        m::SnapshotParams,
    >)
        ensures
            request.method@ == m::SANDBOX_SNAPSHOT@,
            request.params.sandbox_id@ == self.id@,
            request.params.options.name == options.name,
            request.params.options.include_memory == m::keeps_memory(options.mode),
    {
        Request {
            method: m::SANDBOX_SNAPSHOT,
            params: m::SnapshotParams {
                sandbox_id: self.id.clone(),
                options: m::SandboxSnapshotOptionsDto::from(options),
            },
        }
    }

    /// Asks for other lifecycle timers.
    pub fn set_timers(&self, timers: Value) -> (request: Request<m::SetTimersParams>)
        ensures
            request.method@ == m::SANDBOX_SET_TIMERS@,
            request.params.sandbox_id@ == self.id@,
            request.params.timers == timers,
    {
        Request {
            method: m::SANDBOX_SET_TIMERS,
            params: m::SetTimersParams { sandbox_id: self.id.clone(), timers },
        }
    }

    /// Asks for other labels.
    pub fn set_labels(&self, labels: &Table<String>) -> (request: Request<m::SetLabelsParams>)
        ensures
            request.method@ == m::SANDBOX_SET_LABELS@,
            request.params.sandbox_id@ == self.id@,
            request.params.labels@ == labels@,
    {
        Request {
            method: m::SANDBOX_SET_LABELS,
            params: m::SetLabelsParams { sandbox_id: self.id.clone(), labels: labels.copy() },
        }
    }

    /// Asks for another network policy.
    pub fn update_network(&self, network: Value) -> (request: Request<m::UpdateNetworkParams>)
        ensures
            request.method@ == m::SANDBOX_UPDATE_NETWORK@,
            request.params.sandbox_id@ == self.id@,
            request.params.network == network,
    {
        Request {
            method: m::SANDBOX_UPDATE_NETWORK,
            params: m::UpdateNetworkParams { sandbox_id: self.id.clone(), network },
        }
    }

    /// The version control that runs in the plugin. A plugin whose clone is
    /// made of commands runs what this side would run, so that it has none.
    pub fn provider_git(&self) -> (git: Option<&SandboxGit>)
        ensures
            git == if self.capabilities.git_native {
                Some(&self.git_facet)
            } else {
                None
            },
    {
        if self.capabilities.git_native {
            Some(&self.git_facet)
        } else {
            None
        }
    }

    /// Commands in sandboxes of their own, where they are offered.
    pub fn one_shot(&self) -> (one_shot: Option<&SandboxOneShot>)
        ensures
            one_shot == if self.capabilities.one_shot {
                Some(&self.one_shot_facet)
            } else {
                None
            },
    {
        if self.capabilities.one_shot {
            Some(&self.one_shot_facet)
        } else {
            None
        }
    }

    /// Preview URLs, where they are offered.
    pub fn preview_urls(&self) -> (access: Option<&SandboxAccess>)
        ensures
            access == if self.capabilities.access_preview_urls {
                Some(&self.access)
            } else {
                None
            },
    {
        if self.capabilities.access_preview_urls {
            Some(&self.access)
        } else {
            None
        }
    }

    /// SSH access, where it is offered.
    pub fn ssh(&self) -> (access: Option<&SandboxAccess>)
        ensures
            access == if self.capabilities.access_ssh {
                Some(&self.access)
            } else {
                None
            },
    {
        if self.capabilities.access_ssh {
            Some(&self.access)
        } else {
            None
        }
    }

    /// Terminals, where they are offered.
    pub fn pty(&self) -> (pty: Option<&SandboxPty>)
        ensures
            pty == if self.capabilities.pty {
                Some(&self.pty_facet)
            } else {
                None
            },
    {
        if self.capabilities.pty {
            Some(&self.pty_facet)
        } else {
            None
        }
    }

    /// Logs, where they are offered.
    pub fn logs(&self) -> (logs: Option<&SandboxLogs>)
        ensures
            logs == if self.capabilities.logs {
                Some(&self.logs_facet)
            } else {
                None
            },
    {
        if self.capabilities.logs {
            Some(&self.logs_facet)
        } else {
            None
        }
    }

    /// The terminal in the browser, where it is offered.
    pub fn web_terminal(&self) -> (access: Option<&SandboxAccess>)
        ensures
            access == if self.capabilities.access_web_terminal {
                Some(&self.access)
            } else {
                None
            },
    {
        if self.capabilities.access_web_terminal {
            Some(&self.access)
        } else {
            None
        }
    }

    /// The remote desktop, where it is offered.
    pub fn vnc(&self) -> (access: Option<&SandboxAccess>)
        ensures
            access == if self.capabilities.access_vnc {
                Some(&self.access)
            } else {
                None
            },
    {
        if self.capabilities.access_vnc {
            Some(&self.access)
        } else {
            None
        }
    }
}

/// Every facet of a handle speaks of the handle's own sandbox.
pub proof fn facets_speak_of_their_own_sandbox(handle: SandboxHandle)
    requires
        handle.wf(),
    ensures
        handle.exec_facet.sandbox_id@ == handle.id@,
        handle.git_facet.sandbox_id@ == handle.id@,
        handle.one_shot_facet.sandbox_id@ == handle.id@,
        handle.access.sandbox_id@ == handle.id@,
        handle.pty_facet.sandbox_id@ == handle.id@,
        handle.logs_facet.sandbox_id@ == handle.id@,
        handle.fs.sandbox_id@ == handle.id@,
        opt_text(handle.git_facet.runtime_directory) == opt_text(handle.runtime_directory),
{
}

} // verus!
