//! Carrying out one request, stage by stage: what the connection registers
//! for it, what the application is asked to do next, and what the host is
//! answered.

use crate::dispatch::{plan, stages_of, times, Method, Stage};
use crate::driver::{
    invalid_spec, overloaded, transport_failure, unsupported, Capability, Error, ErrorView,
    StopLevel,
};
use crate::limits::Budget;
use crate::registry::inserted;
use crate::server::ServerState;
use vstd::prelude::*;

verus! {

/// Something that the application made for a request: a sandbox's handle
/// under the sandbox's id, a process or a terminal. The application keeps it
/// under the number.
#[derive(Debug)]
pub struct Made {
    pub id: String,
    pub number: u64,
}

/// What the application reports of a stage.
#[derive(Debug)]
pub enum StageEvent {
    /// The stage begins.
    Begin,
    /// Whether what was asked for is offered.
    Offered(bool),
    /// What the driver makes of an id.
    Judged(Result<(), String>),
    /// What was to be done is done, or failed.
    Done(Result<Option<Made>, Error>),
    /// The log stream was cancelled before the driver was done with it.
    Cancelled,
    /// The data channel is ended, or could not be, and how the input of the
    /// command or the content of the file failed if it did.
    Finished { outcome: Result<(), Error>, input_error: Option<Error> },
}

/// What the application is to do next.
#[derive(Debug)]
pub enum StageAction {
    /// Begin the next stage.
    Next,
    /// Agree on the version and the transport.
    Initialize,
    /// Attach to the sandbox.
    Attach,
    /// Have the driver judge the id.
    Judge,
    /// Make the driver's value of the parameters.
    Convert,
    /// Look whether this is offered.
    Ask(Capability),
    /// Open the data channel.
    Open,
    /// Take the content that comes on the data channel.
    Receive,
    /// Have the driver do its part, on this handle, process or terminal.
    Call { handle: Option<u64>, session: Option<u64> },
    /// End this side of the data channel.
    Finish,
    /// Describe the new sandbox.
    Describe,
    /// Make a stop of this level known to this command.
    Stop { resource: u64, level: StopLevel },
    /// Cancel this log stream.
    Cancel { resource: u64 },
    /// Report what the plugin owns.
    Report,
    /// End what was made for an id that was taken, then answer.
    Undo { resource: u64, error: Error },
    /// Answer the request, which ends it.
    Answer(Result<(), Error>),
}

/// A request that is being carried out.
pub struct RequestRun {
    pub method: Method,
    pub sandbox_id: String,
    /// The id of the command, process, terminal or log stream that the
    /// request names.
    pub resource_id: String,
    /// The application's number for the request, under which a command's
    /// stops and a log stream's cancellation are registered.
    pub number: u64,
    /// Whether SSH access is to expire.
    pub wants_ttl: bool,
    /// How hard a command is to be stopped, where the request stops one.
    pub level: StopLevel,
    pub stages: Vec<Stage>,
    pub at: usize,
    pub handle: Option<u64>,
    pub resource: Option<u64>,
    pub made: Option<Made>,
    /// Whether the command's stops are registered.
    pub registered: bool,
    /// Whether a place to open a data channel is taken.
    pub opening: bool,
    /// What the driver's part failed with while the channel is still to be
    /// ended.
    pub failure: Option<Error>,
}

/// Whether the data channel is ended after the driver's part, however that
/// went.
pub open spec fn ends_channel(method: Method) -> bool {
    ||| method == Method::ExecStream
    ||| method == Method::OneShotRun
    ||| method == Method::LogsFollow
    ||| method == Method::SnapshotBuildLogs
    ||| method == Method::FsRead
    ||| method == Method::FsWrite
}

/// The stage at which the data channel is ended.
pub open spec fn channel_end(method: Method) -> int {
    match method {
        Method::ExecStream | Method::OneShotRun => 5,
        Method::LogsFollow | Method::SnapshotBuildLogs => 6,
        Method::FsWrite => 4,
        _ => 3,
    }
}

/// Whether a request follows a log until it is cancelled.
pub open spec fn follows_log(method: Method) -> bool {
    method == Method::LogsFollow || method == Method::SnapshotBuildLogs
}

/// Whether a request makes a command's stops addressable.
pub open spec fn registers_exec(method: Method) -> bool {
    method == Method::ExecStream || method == Method::OneShotRun
}

/// The stage at which a command's stops are registered.
pub open spec fn exec_start(method: Method) -> int {
    if method == Method::ExecStream {
        1
    } else {
        2
    }
}

/// What a request with a data channel failed with. A file is written when
/// the writing and the receipt of its content both went well; the end of its
/// channel does not count. The end of a file that was read counts after the
/// reading; the end of a command's or a log's output counts first, then the
/// command's input, then the running.
pub open spec fn channel_failure(
    method: Method,
    call: Option<ErrorView>,
    end: Option<ErrorView>,
    input: Option<ErrorView>,
) -> Option<ErrorView> {
    if method == Method::FsWrite {
        if call is Some {
            call
        } else {
            input
        }
    } else if method == Method::FsRead {
        if call is Some {
            call
        } else {
            end
        }
    } else if end is Some {
        end
    } else if input is Some {
        input
    } else {
        call
    }
}

/// What an optional error says.
pub open spec fn error_view(error: Option<Error>) -> Option<ErrorView> {
    match error {
        Some(error) => Some(error@),
        None => None,
    }
}

/// What a failed outcome says.
pub open spec fn failure_view<T>(outcome: Result<T, Error>) -> Option<ErrorView> {
    match outcome {
        Ok(_) => None,
        Err(error) => Some(error@),
    }
}

/// The field that a refused id is reported under.
pub open spec fn id_field(stage: Stage) -> Seq<char> {
    match stage {
        Stage::CheckSnapshotId => "snapshot_id"@,
        Stage::CheckVolumeId => "volume_id"@,
        _ => "sandbox_id"@,
    }
}

/// The failure to open a data channel in time.
pub fn open_timeout() -> (error: Error)
    ensures
        error@ == transport_failure("opening data channel timed out"@),
{
    Error::transport("opening data channel timed out")
}

impl RequestRun {
    /// The stages are those of the method, the place to open a channel that
    /// the run holds is taken, a command's stops are registered between their
    /// registration and the run's end, a run that is through holds nothing,
    /// and a failure that waits for the channel's end is not past it.
    pub open spec fn wf(self, state: ServerState) -> bool {
        &&& self.stages@ == stages_of(self.method)
        &&& self.at <= self.stages@.len()
        &&& self.opening ==> state.open_budget.used > 0
        &&& self.opening ==> !self.is_through() && self.stage() is OpenChannel
        &&& self.registered <==> registers_exec(self.method) && exec_start(self.method) < self.at
            && !self.is_through()
        &&& self.failure is Some ==> ends_channel(self.method) && self.at <= channel_end(
            self.method,
        )
    }

    /// Whether the run is past its last stage.
    pub open spec fn is_through(self) -> bool {
        self.at == self.stages@.len()
    }

    /// The stage that the run is at.
    pub open spec fn stage(self) -> Stage {
        self.stages@[self.at as int]
    }

    /// Whether the next stage can begin with what the run holds.
    pub open spec fn is_free(self) -> bool {
        &&& !self.opening
        &&& self.registered <==> registers_exec(self.method) && exec_start(self.method) <= self.at
            && self.at + 1 < self.stages@.len()
        &&& self.failure is Some ==> self.at < channel_end(self.method)
    }

    proof fn lemma_free(self, state: ServerState)
        requires
            self.wf(state),
            !self.is_through(),
            !(self.stage() is OpenChannel),
            !(self.stage() is FinishChannel),
            !(self.stage() is RegisterExec),
            !(self.stage() is ForgetExec),
        ensures
            self.is_free(),
    {
        if registers_exec(self.method) {
            assert(stages_of(self.method)[exec_start(self.method)] == Stage::RegisterExec);
            assert(stages_of(self.method)[6] == Stage::ForgetExec);
            assert(stages_of(self.method).len() == 7);
        }
        if ends_channel(self.method) {
            assert(stages_of(self.method)[channel_end(self.method)] == Stage::FinishChannel);
        }
    }

    /// A request that is to be carried out.
    pub fn new(
        method: Method,
        sandbox_id: String,
        resource_id: String,
        number: u64,
        wants_ttl: bool,
        level: StopLevel,
    ) -> (run: Self)
        ensures
            forall|state: ServerState| #[trigger] run.wf(state),
            run.method == method,
            run.sandbox_id == sandbox_id,
            run.resource_id == resource_id,
            run.number == number,
            run.wants_ttl == wants_ttl,
            run.level == level,
            run.at == 0,
            run.handle is None,
            run.resource is None,
            run.made is None,
            !run.registered,
            !run.opening,
            run.failure is None,
    {
        let stages = plan(method);
        RequestRun {
            method,
            sandbox_id,
            resource_id,
            number,
            wants_ttl,
            level,
            stages,
            at: 0,
            handle: None,
            resource: None,
            made: None,
            registered: false,
            opening: false,
            failure: None,
        }
    }

    /// Whether the run went on to the next stage and changed nothing else.
    pub open spec fn moved_on(self, before: Self) -> bool {
        self == (RequestRun { at: (before.at + 1) as usize, ..before })
    }

    /// What a failed run leaves: no stage is left, the command's stops are
    /// not addressable any more, and the place to open a channel is free.
    pub open spec fn gave_up(self, before: Self, state: ServerState, state_before: ServerState) -> bool {
        &&& self == (RequestRun {
            at: before.stages@.len() as usize,
            registered: false,
            opening: false,
            failure: None,
            ..before
        })
        &&& state.execs@ == if before.registered {
            state_before.execs@.remove(before.resource_id@)
        } else {
            state_before.execs@
        }
        &&& state.open_budget == if before.opening {
            Budget {
                limit: state_before.open_budget.limit,
                used: (state_before.open_budget.used - 1) as usize,
            }
        } else {
            state_before.open_budget
        }
        &&& state == (ServerState {
            execs: state.execs,
            open_budget: state.open_budget,
            ..state_before
        })
    }

    fn give_up(&mut self, state: &mut ServerState)
        requires
            old(self).wf(*old(state)),
            old(state).wf(),
        ensures
            final(self).wf(*final(state)),
            final(state).wf(),
            final(self).gave_up(*old(self), *final(state), *old(state)),
    {
        if self.registered {
            state.forget_exec(self.resource_id.as_str());
            self.registered = false;
        }
        if self.opening {
            state.end_open();
            self.opening = false;
        }
        self.failure = None;
        self.at = self.stages.len();
    }

    fn fail(&mut self, state: &mut ServerState, error: Error) -> (action: StageAction)
        requires
            old(self).wf(*old(state)),
            old(state).wf(),
        ensures
            final(self).wf(*final(state)),
            final(state).wf(),
            final(self).gave_up(*old(self), *final(state), *old(state)),
            action == StageAction::Answer(Err(error)),
    {
        self.give_up(state);
        StageAction::Answer(Err(error))
    }

    fn next(&mut self)
        requires
            old(self).at < old(self).stages@.len(),
        ensures
            final(self).moved_on(*old(self)),
    {
        let count: usize = self.stages.len();
        assert(self.at < count);
        self.at = self.at + 1;
    }

    fn find_handle(&mut self, state: &ServerState) -> (found: bool)
        requires
            old(self).at < old(self).stages@.len(),
        ensures
            found == state.handles@.contains_key(old(self).sandbox_id@),
            found ==> final(self).moved_on(
                RequestRun {
                    handle: Some(state.handles@[old(self).sandbox_id@]),
                    ..*old(self)
                },
            ),
            !found ==> *final(self) == *old(self),
    {
        match state.handle(self.sandbox_id.as_str()) {
            Some(number) => {
                self.handle = Some(number);
                self.next();
                true
            },
            None => false,
        }
    }

    fn judge(&mut self, state: &mut ServerState, field: &str, event: StageEvent) -> (action:
        StageAction)
        requires
            old(self).wf(*old(state)),
            old(state).wf(),
            !old(self).is_through(),
            field@ == id_field(old(self).stage()),
            old(self).is_free(),
        ensures
            final(self).wf(*final(state)),
            final(state).wf(),
            id_step(*old(self), *final(self), *old(state), *final(state), event, action),
    {
        match event {
            StageEvent::Judged(Ok(())) => {
                self.next();
                StageAction::Next
            },
            StageEvent::Judged(Err(reason)) => self.fail(
                state,
                Error::invalid_spec(field, reason.as_str()),
            ),
            _ => StageAction::Judge,
        }
    }

    fn ask(&mut self, state: &mut ServerState, capability: Capability, event: StageEvent) -> (
    action: StageAction)
        requires
            old(self).wf(*old(state)),
            old(state).wf(),
            !old(self).is_through(),
            old(self).is_free(),
        ensures
            final(self).wf(*final(state)),
            final(state).wf(),
            offer_step(
                *old(self),
                *final(self),
                *old(state),
                *final(state),
                event,
                action,
                capability,
            ),
    {
        match event {
            StageEvent::Offered(offered) => {
                if offered {
                    self.next();
                    StageAction::Next
                } else {
                    self.fail(state, Error::unsupported(capability))
                }
            },
            _ => StageAction::Ask(capability),
        }
    }

    fn perform(&mut self, state: &mut ServerState, asked: StageAction, event: StageEvent) -> (
    action: StageAction)
        requires
            old(self).wf(*old(state)),
            old(state).wf(),
            !old(self).is_through(),
            old(self).is_free(),
        ensures
            final(self).wf(*final(state)),
            final(state).wf(),
            outside_step(
                *old(self),
                *final(self),
                *old(state),
                *final(state),
                event,
                action,
                asked,
            ),
    {
        match event {
            StageEvent::Done(Ok(_)) => {
                self.next();
                StageAction::Next
            },
            StageEvent::Done(Err(error)) => self.fail(state, error),
            _ => asked,
        }
    }

    fn attach(&mut self, state: &mut ServerState, event: StageEvent) -> (action: StageAction)
        requires
            old(self).wf(*old(state)),
            old(state).wf(),
            !old(self).is_through(),
            old(self).is_free(),
        ensures
            final(self).wf(*final(state)),
            final(state).wf(),
            handle_step(*old(self), *final(self), *old(state), *final(state), event, action),
    {
        match event {
            StageEvent::Begin => {
                if self.find_handle(state) {
                    StageAction::Next
                } else {
                    StageAction::Attach
                }
            },
            StageEvent::Done(Ok(Some(made))) => {
                state.remember(made.id, made.number);
                self.handle = Some(made.number);
                self.next();
                StageAction::Next
            },
            StageEvent::Done(Err(error)) => self.fail(state, error),
            _ => StageAction::Attach,
        }
    }

    fn open(&mut self, state: &mut ServerState, event: StageEvent) -> (action: StageAction)
        requires
            old(self).wf(*old(state)),
            old(state).wf(),
            !old(self).is_through(),
            old(self).stage() is OpenChannel,
        ensures
            final(self).wf(*final(state)),
            final(state).wf(),
            open_step(*old(self), *final(self), *old(state), *final(state), event, action),
    {
        proof {
            if registers_exec(self.method) {
                assert(stages_of(self.method)[6] == Stage::ForgetExec);
                assert(stages_of(self.method).len() == 7);
            }
            if ends_channel(self.method) {
                assert(stages_of(self.method)[channel_end(self.method)] == Stage::FinishChannel);
            }
        }
        if !self.opening {
            return match state.begin_open() {
                Ok(()) => {
                    self.opening = true;
                    StageAction::Open
                },
                Err(error) => self.fail(state, error),
            };
        }
        match event {
            StageEvent::Done(Ok(_)) => {
                state.end_open();
                self.opening = false;
                self.next();
                StageAction::Next
            },
            StageEvent::Done(Err(error)) => self.fail(state, error),
            _ => StageAction::Open,
        }
    }

    fn call(&mut self, state: &mut ServerState, event: StageEvent) -> (action: StageAction)
        requires
            old(self).wf(*old(state)),
            old(state).wf(),
            !old(self).is_through(),
            old(self).stage() is Call,
            old(self).is_free(),
        ensures
            final(self).wf(*final(state)),
            final(state).wf(),
            call_step(*old(self), *final(self), *old(state), *final(state), event, action),
    {
        match event {
            StageEvent::Done(Ok(made)) => {
                self.made = made;
                self.next();
                StageAction::Next
            },
            StageEvent::Done(Err(error)) => {
                let ends = match self.method {
                    Method::ExecStream
                    | Method::OneShotRun
                    | Method::LogsFollow
                    | Method::SnapshotBuildLogs
                    | Method::FsRead
                    | Method::FsWrite => true,
                    _ => false,
                };
                if ends {
                    proof {
                        lemma_calls_come_before_ends(self.method, self.at as int);
                    }
                    self.failure = Some(error);
                    self.next();
                    return StageAction::Next;
                }
                if let Some(number) = self.resource {
                    if self.method == Method::PtyClose {
                        state.restore_pty(self.resource_id.clone(), number);
                    }
                }
                let ghost kept = *state;
                proof {
                    assert(keeps_terminal(*self, *old(state), kept));
                }
                let action = self.fail(state, error);
                proof {
                    assert(self.gave_up(*old(self), *state, kept));
                }
                action
            },
            StageEvent::Cancelled => match self.method {
                Method::LogsFollow | Method::SnapshotBuildLogs => {
                    self.made = None;
                    self.next();
                    StageAction::Next
                },
                _ => StageAction::Call { handle: self.handle, session: self.resource },
            },
            _ => StageAction::Call { handle: self.handle, session: self.resource },
        }
    }

    fn finish(&mut self, state: &mut ServerState, event: StageEvent) -> (action: StageAction)
        requires
            old(self).wf(*old(state)),
            old(state).wf(),
            !old(self).is_through(),
            old(self).stage() is FinishChannel,
        ensures
            final(self).wf(*final(state)),
            final(state).wf(),
            finish_step(*old(self), *final(self), *old(state), *final(state), event, action),
    {
        let (outcome, input_error) = match event {
            StageEvent::Finished { outcome, input_error } => (outcome, input_error),
            _ => {
                return StageAction::Finish;
            },
        };
        let mut call: Option<Error> = None;
        std::mem::swap(&mut call, &mut self.failure);
        let end = match outcome {
            Ok(()) => None,
            Err(error) => Some(error),
        };
        let failure = match self.method {
            Method::FsWrite => {
                if call.is_some() {
                    call
                } else {
                    input_error
                }
            },
            Method::FsRead => {
                if call.is_some() {
                    call
                } else {
                    end
                }
            },
            _ => {
                if end.is_some() {
                    end
                } else if input_error.is_some() {
                    input_error
                } else {
                    call
                }
            },
        };
        match failure {
            Some(error) => self.fail(state, error),
            None => {
                proof {
                    if registers_exec(self.method) {
                        assert(stages_of(self.method)[6] == Stage::ForgetExec);
                        assert(stages_of(self.method).len() == 7);
                    }
                }
                self.next();
                StageAction::Next
            },
        }
    }

    fn register(&mut self, state: &mut ServerState) -> (action: StageAction)
        requires
            old(self).wf(*old(state)),
            old(state).wf(),
            !old(self).is_through(),
            is_inside(old(self).stage()),
            !(old(self).stage() is RegisterExec) && !(old(self).stage() is ForgetExec)
                ==> old(self).is_free(),
        ensures
            final(self).wf(*final(state)),
            final(state).wf(),
            inside_step(*old(self), *final(self), *old(state), *final(state), action),
    {
        let stage = self.stages[self.at];
        match stage {
            Stage::RegisterExec => {
                match state.register_exec(self.resource_id.clone(), self.number) {
                    Ok(()) => {
                        proof {
                            lemma_registered_commands_are_forgotten(self.method, self.at as int);
                        }
                        self.registered = true;
                        self.next();
                        StageAction::Next
                    },
                    Err(error) => self.fail(state, error),
                }
            },
            Stage::ForgetExec => {
                proof {
                    lemma_forgetting_comes_last(self.method, self.at as int);
                }
                state.forget_exec(self.resource_id.as_str());
                self.registered = false;
                self.next();
                StageAction::Next
            },
            Stage::Remember => {
                let mut made: Option<Made> = None;
                std::mem::swap(&mut made, &mut self.made);
                if let Some(made) = made {
                    self.handle = Some(made.number);
                    state.remember(made.id, made.number);
                }
                self.next();
                StageAction::Next
            },
            Stage::ForgetHandle => {
                state.forget_handle(self.sandbox_id.as_str());
                self.next();
                StageAction::Next
            },
            Stage::RegisterStdio => {
                let number: u64 = match &self.made {
                    Some(made) => made.number,
                    None => {
                        self.next();
                        return StageAction::Next;
                    },
                };
                if state.stdio(self.resource_id.as_str()).is_ok() {
                    self.give_up(state);
                    return StageAction::Undo {
                        resource: number,
                        error: Error::invalid_spec("process_id", "duplicate stdio process id"),
                    };
                }
                let registered = state.register_stdio(self.resource_id.clone(), number);
                assert(registered is Ok);
                self.next();
                StageAction::Next
            },
            Stage::RegisterPty => {
                let number: u64 = match &self.made {
                    Some(made) => made.number,
                    None => {
                        self.next();
                        return StageAction::Next;
                    },
                };
                if state.pty(self.resource_id.as_str()).is_ok() {
                    self.give_up(state);
                    return StageAction::Undo {
                        resource: number,
                        error: Error::invalid_spec("pty_id", "duplicate PTY id"),
                    };
                }
                let registered = state.register_pty(self.resource_id.clone(), number);
                assert(registered is Ok);
                self.next();
                StageAction::Next
            },
            Stage::FindStdio => match state.stdio(self.resource_id.as_str()) {
                Ok(number) => {
                    self.resource = Some(number);
                    self.next();
                    StageAction::Next
                },
                Err(error) => self.fail(state, error),
            },
            Stage::ForgetStdio => {
                state.forget_stdio(self.resource_id.as_str());
                self.next();
                StageAction::Next
            },
            Stage::FindPty => match state.pty(self.resource_id.as_str()) {
                Ok(number) => {
                    self.resource = Some(number);
                    self.next();
                    StageAction::Next
                },
                Err(error) => self.fail(state, error),
            },
            Stage::TakePty => {
                if state.pty(self.resource_id.as_str()).is_err() {
                    self.give_up(state);
                    return StageAction::Answer(Ok(()));
                }
                self.resource = state.take_pty(self.resource_id.as_str());
                self.next();
                StageAction::Next
            },
            Stage::FollowStream => {
                let number: u64 = state.follow_stream(self.resource_id.clone(), self.number);
                self.resource = Some(number);
                self.next();
                StageAction::Next
            },
            Stage::ForgetStream => {
                state.forget_stream(self.resource_id.as_str());
                self.next();
                StageAction::Next
            },
            _ => StageAction::Next,
        }
    }

    /// Takes what happened and says what is to be done next. A stage that
    /// fails ends the request: the command's stops are not addressable any
    /// more, the place to open a channel is free, and the host is answered
    /// with the failure.
    pub fn advance(&mut self, state: &mut ServerState, event: StageEvent) -> (action: StageAction)
        requires
            old(self).wf(*old(state)),
            old(state).wf(),
        ensures
            final(self).wf(*final(state)),
            final(state).wf(),
            advances(*old(self), *final(self), *old(state), *final(state), event, action),
    {
        if self.at == self.stages.len() {
            return StageAction::Answer(Ok(()));
        }
        let stage = self.stages[self.at];
        proof {
            if !(stage is OpenChannel) && !(stage is FinishChannel) && !(stage is RegisterExec)
                && !(stage is ForgetExec) {
                self.lemma_free(*state);
            }
        }
        match stage {
            Stage::Handle => self.attach(state, event),
            Stage::RememberedOrId => {
                if let StageEvent::Begin = event {
                    if self.find_handle(state) {
                        return StageAction::Next;
                    }
                    return StageAction::Judge;
                }
                self.judge(state, "sandbox_id", event)
            },
            Stage::CheckSandboxId => self.judge(state, "sandbox_id", event),
            Stage::CheckSnapshotId => self.judge(state, "snapshot_id", event),
            Stage::CheckVolumeId => self.judge(state, "volume_id", event),
            Stage::Facet(capability) | Stage::Service(capability) => self.ask(
                state,
                capability,
                event,
            ),
            Stage::Flag(capability) => {
                if let StageEvent::Begin = event {
                    if capability == Capability::SshTtl && !self.wants_ttl {
                        self.next();
                        return StageAction::Next;
                    }
                    return StageAction::Ask(capability);
                }
                self.ask(state, capability, event)
            },
            Stage::OpenChannel => self.open(state, event),
            Stage::Call => self.call(state, event),
            Stage::FinishChannel => self.finish(state, event),
            Stage::Initialize => self.perform(state, StageAction::Initialize, event),
            Stage::CheckSpec | Stage::CheckFork => self.perform(state, StageAction::Convert, event),
            Stage::CollectStdin | Stage::ReceiveContent => self.perform(
                state,
                StageAction::Receive,
                event,
            ),
            Stage::Describe => self.perform(state, StageAction::Describe, event),
            Stage::Diagnostics => self.perform(state, StageAction::Report, event),
            Stage::StopExec => {
                if let StageEvent::Begin = event {
                    if let Some(resource) = state.exec_to_stop(self.resource_id.as_str()) {
                        return StageAction::Stop { resource, level: self.level };
                    }
                }
                self.next();
                StageAction::Next
            },
            Stage::CancelStream => {
                if let StageEvent::Begin = event {
                    if let Some(resource) = state.stream_to_cancel(self.resource_id.as_str()) {
                        return StageAction::Cancel { resource };
                    }
                }
                self.next();
                StageAction::Next
            },
            _ => self.register(state),
        }
    }
}

/// Whether a stage needs nothing of the application.
pub open spec fn is_inside(stage: Stage) -> bool {
    match stage {
        Stage::RegisterExec
        | Stage::ForgetExec
        | Stage::Remember
        | Stage::ForgetHandle
        | Stage::RegisterStdio
        | Stage::FindStdio
        | Stage::ForgetStdio
        | Stage::RegisterPty
        | Stage::FindPty
        | Stage::TakePty
        | Stage::FollowStream
        | Stage::ForgetStream => true,
        _ => false,
    }
}

proof fn lemma_calls_come_before_ends(method: Method, at: int)
    requires
        ends_channel(method),
        0 <= at < stages_of(method).len(),
        stages_of(method)[at] is Call,
    ensures
        at < channel_end(method),
{
}

proof fn lemma_registered_commands_are_forgotten(method: Method, at: int)
    requires
        0 <= at < stages_of(method).len(),
        stages_of(method)[at] is RegisterExec,
    ensures
        registers_exec(method),
        at == exec_start(method),
        at + 1 < stages_of(method).len(),
{
}

proof fn lemma_forgetting_comes_last(method: Method, at: int)
    requires
        0 <= at < stages_of(method).len(),
        stages_of(method)[at] is ForgetExec,
    ensures
        registers_exec(method),
        at + 1 == stages_of(method).len(),
        ends_channel(method) ==> at > channel_end(method),
{
}

/// What an event makes of a run and of the connection's state.
pub open spec fn advances(
    before: RequestRun,
    after: RequestRun,
    state_before: ServerState,
    state: ServerState,
    event: StageEvent,
    action: StageAction,
) -> bool {
    if before.is_through() {
        &&& action == StageAction::Answer(Ok(()))
        &&& after == before
        &&& state == state_before
    } else {
        match before.stage() {
            Stage::Handle => handle_step(before, after, state_before, state, event, action),
            Stage::RememberedOrId => if event is Begin && state_before.handles@.contains_key(
                before.sandbox_id@,
            ) {
                &&& action is Next
                &&& after.moved_on(
                    RequestRun {
                        handle: Some(state_before.handles@[before.sandbox_id@]),
                        ..before
                    },
                )
                &&& state == state_before
            } else {
                id_step(before, after, state_before, state, event, action)
            },
            Stage::CheckSandboxId | Stage::CheckSnapshotId | Stage::CheckVolumeId => id_step(
                before,
                after,
                state_before,
                state,
                event,
                action,
            ),
            Stage::Facet(capability) | Stage::Service(capability) => offer_step(
                before,
                after,
                state_before,
                state,
                event,
                action,
                capability,
            ),
            Stage::Flag(capability) => if event is Begin && capability == Capability::SshTtl
                && !before.wants_ttl {
                &&& action is Next
                &&& after.moved_on(before)
                &&& state == state_before
            } else {
                offer_step(before, after, state_before, state, event, action, capability)
            },
            Stage::OpenChannel => open_step(before, after, state_before, state, event, action),
            Stage::Call => call_step(before, after, state_before, state, event, action),
            Stage::FinishChannel => finish_step(before, after, state_before, state, event, action),
            Stage::Initialize => outside_step(
                before,
                after,
                state_before,
                state,
                event,
                action,
                StageAction::Initialize,
            ),
            Stage::CheckSpec | Stage::CheckFork => outside_step(
                before,
                after,
                state_before,
                state,
                event,
                action,
                StageAction::Convert,
            ),
            Stage::CollectStdin | Stage::ReceiveContent => outside_step(
                before,
                after,
                state_before,
                state,
                event,
                action,
                StageAction::Receive,
            ),
            Stage::Describe => outside_step(
                before,
                after,
                state_before,
                state,
                event,
                action,
                StageAction::Describe,
            ),
            Stage::Diagnostics => outside_step(
                before,
                after,
                state_before,
                state,
                event,
                action,
                StageAction::Report,
            ),
            Stage::StopExec => match event {
                StageEvent::Begin if state_before.execs@.contains_key(before.resource_id@) => {
                    &&& action == (StageAction::Stop {
                        resource: state_before.execs@[before.resource_id@],
                        level: before.level,
                    })
                    &&& after == before
                    &&& state == state_before
                },
                _ => {
                    &&& action is Next
                    &&& after.moved_on(before)
                    &&& state == state_before
                },
            },
            Stage::CancelStream => match event {
                StageEvent::Begin if state_before.streams@.contains_key(before.resource_id@) => {
                    &&& action == (StageAction::Cancel {
                        resource: state_before.streams@[before.resource_id@],
                    })
                    &&& after == before
                    &&& state == state_before
                },
                _ => {
                    &&& action is Next
                    &&& after.moved_on(before)
                    &&& state == state_before
                },
            },
            _ => inside_step(before, after, state_before, state, action),
        }
    }
}

/// A run gave up and answers with this error.
pub open spec fn refuses(
    before: RequestRun,
    after: RequestRun,
    state_before: ServerState,
    state: ServerState,
    action: StageAction,
    refusal: ErrorView,
) -> bool {
    &&& action matches StageAction::Answer(Err(error))
    &&& error@ == refusal
    &&& after.gave_up(before, state, state_before)
}

/// A stage that waits: the application is asked, or asked again, and nothing
/// changes.
pub open spec fn waits(
    before: RequestRun,
    after: RequestRun,
    state_before: ServerState,
    state: ServerState,
    action: StageAction,
    asked: StageAction,
) -> bool {
    &&& action == asked
    &&& after == before
    &&& state == state_before
}

/// A stage that the application performs: done is done, and a failure ends
/// the request.
pub open spec fn outside_step(
    before: RequestRun,
    after: RequestRun,
    state_before: ServerState,
    state: ServerState,
    event: StageEvent,
    action: StageAction,
    asked: StageAction,
) -> bool {
    match event {
        StageEvent::Done(Ok(_)) => {
            &&& action is Next
            &&& after.moved_on(before)
            &&& state == state_before
        },
        StageEvent::Done(Err(error)) => refuses(
            before,
            after,
            state_before,
            state,
            action,
            error@,
        ),
        _ => waits(before, after, state_before, state, action, asked),
    }
}

/// The handle of the sandbox: the one that is kept, else one that the
/// application attaches, which is kept from then on.
pub open spec fn handle_step(
    before: RequestRun,
    after: RequestRun,
    state_before: ServerState,
    state: ServerState,
    event: StageEvent,
    action: StageAction,
) -> bool {
    match event {
        StageEvent::Begin if state_before.handles@.contains_key(before.sandbox_id@) => {
            &&& action is Next
            &&& after.moved_on(
                RequestRun {
                    handle: Some(state_before.handles@[before.sandbox_id@]),
                    ..before
                },
            )
            &&& state == state_before
        },
        StageEvent::Done(Ok(Some(made))) => {
            &&& action is Next
            &&& after.moved_on(RequestRun { handle: Some(made.number), ..before })
            &&& remembers(state_before, state, made)
        },
        StageEvent::Done(Err(error)) => refuses(
            before,
            after,
            state_before,
            state,
            action,
            error@,
        ),
        _ => waits(before, after, state_before, state, action, StageAction::Attach),
    }
}

/// Whether a handle is kept, at the cost of at most one other.
pub open spec fn remembers(state_before: ServerState, state: ServerState, made: Made) -> bool {
    &&& inserted(
        state_before.handles@,
        state.handles@,
        made.id@,
        made.number,
        !state_before.handles@.contains_key(made.id@) && state_before.handles@.dom().len()
            >= state_before.limits.cached_handles,
    )
    &&& state == (ServerState { handles: state.handles, ..state_before })
}

/// An id that the driver judges.
pub open spec fn id_step(
    before: RequestRun,
    after: RequestRun,
    state_before: ServerState,
    state: ServerState,
    event: StageEvent,
    action: StageAction,
) -> bool {
    match event {
        StageEvent::Judged(Ok(())) => {
            &&& action is Next
            &&& after.moved_on(before)
            &&& state == state_before
        },
        StageEvent::Judged(Err(reason)) => refuses(
            before,
            after,
            state_before,
            state,
            action,
            invalid_spec(id_field(before.stage()), reason@),
        ),
        _ => waits(before, after, state_before, state, action, StageAction::Judge),
    }
}

/// Something that must be offered.
pub open spec fn offer_step(
    before: RequestRun,
    after: RequestRun,
    state_before: ServerState,
    state: ServerState,
    event: StageEvent,
    action: StageAction,
    capability: Capability,
) -> bool {
    match event {
        StageEvent::Offered(true) => {
            &&& action is Next
            &&& after.moved_on(before)
            &&& state == state_before
        },
        StageEvent::Offered(false) => refuses(
            before,
            after,
            state_before,
            state,
            action,
            unsupported(capability),
        ),
        _ => waits(before, after, state_before, state, action, StageAction::Ask(capability)),
    }
}

/// The opening of the data channel: a place is taken for it first, and freed
/// when it is open or could not be opened.
pub open spec fn open_step(
    before: RequestRun,
    after: RequestRun,
    state_before: ServerState,
    state: ServerState,
    event: StageEvent,
    action: StageAction,
) -> bool {
    if !before.opening {
        if state_before.open_budget.used == state_before.open_budget.limit {
            refuses(
                before,
                after,
                state_before,
                state,
                action,
                overloaded("pending_opens"@),
            )
        } else if state_before.transport is None {
            refuses(
                before,
                after,
                state_before,
                state,
                action,
                transport_failure("a data channel was requested before initialize"@),
            )
        } else {
            &&& action is Open
            &&& after == (RequestRun { opening: true, ..before })
            &&& state == (ServerState {
                open_budget: Budget {
                    used: (state_before.open_budget.used + 1) as usize,
                    ..state_before.open_budget
                },
                ..state_before
            })
        }
    } else {
        match event {
            StageEvent::Done(Ok(_)) => {
                &&& action is Next
                &&& after.moved_on(RequestRun { opening: false, ..before })
                &&& state == (ServerState {
                    open_budget: Budget {
                        used: (state_before.open_budget.used - 1) as usize,
                        ..state_before.open_budget
                    },
                    ..state_before
                })
            },
            StageEvent::Done(Err(error)) => refuses(
                before,
                after,
                state_before,
                state,
                action,
                error@,
            ),
            _ => waits(before, after, state_before, state, action, StageAction::Open),
        }
    }
}

/// The driver's part. Where a data channel is open, its failure waits until
/// the channel is ended; a terminal that could not be closed is kept. A log
/// that was cancelled has been followed well.
pub open spec fn call_step(
    before: RequestRun,
    after: RequestRun,
    state_before: ServerState,
    state: ServerState,
    event: StageEvent,
    action: StageAction,
) -> bool {
    match event {
        StageEvent::Done(Ok(made)) => {
            &&& action is Next
            &&& after.moved_on(RequestRun { made, ..before })
            &&& state == state_before
        },
        StageEvent::Done(Err(error)) => if ends_channel(before.method) {
            &&& action is Next
            &&& after.moved_on(RequestRun { failure: Some(error), ..before })
            &&& state == state_before
        } else {
            &&& action == StageAction::Answer(Err(error))
            &&& exists|kept: ServerState| #[trigger]
                after.gave_up(before, state, kept) && keeps_terminal(before, state_before, kept)
        },
        StageEvent::Cancelled if follows_log(before.method) => {
            &&& action is Next
            &&& after.moved_on(RequestRun { made: None, ..before })
            &&& state == state_before
        },
        _ => waits(
            before,
            after,
            state_before,
            state,
            action,
            StageAction::Call { handle: before.handle, session: before.resource },
        ),
    }
}

/// Whether a terminal that was taken out to be closed is back in place.
pub open spec fn keeps_terminal(
    before: RequestRun,
    state_before: ServerState,
    state: ServerState,
) -> bool {
    &&& state == (ServerState { ptys: state.ptys, ..state_before })
    &&& state.ptys@ == match before.resource {
        Some(number) if before.method == Method::PtyClose => state_before.ptys@.insert(
            before.resource_id@,
            number,
        ),
        _ => state_before.ptys@,
    }
}

/// The end of the data channel, and with it what the request failed with.
pub open spec fn finish_step(
    before: RequestRun,
    after: RequestRun,
    state_before: ServerState,
    state: ServerState,
    event: StageEvent,
    action: StageAction,
) -> bool {
    match event {
        StageEvent::Finished { outcome, input_error } => match channel_failure(
            before.method,
            error_view(before.failure),
            failure_view(outcome),
            error_view(input_error),
        ) {
            Some(refusal) => refuses(before, after, state_before, state, action, refusal),
            None => {
                &&& action is Next
                &&& after.moved_on(RequestRun { failure: None, ..before })
                &&& state == state_before
            },
        },
        _ => waits(before, after, state_before, state, action, StageAction::Finish),
    }
}

/// A stage that needs nothing of the application.
pub open spec fn inside_step(
    before: RequestRun,
    after: RequestRun,
    state_before: ServerState,
    state: ServerState,
    action: StageAction,
) -> bool {
    let id = before.resource_id@;
    match before.stage() {
        Stage::RegisterExec => if state_before.execs@.contains_key(id) {
            refuses(
                before,
                after,
                state_before,
                state,
                action,
                invalid_spec("exec_id"@, "duplicate execution id"@),
            )
        } else {
            &&& action is Next
            &&& after.moved_on(RequestRun { registered: true, ..before })
            &&& state.execs@ == state_before.execs@.insert(id, before.number)
            &&& state == (ServerState { execs: state.execs, ..state_before })
        },
        Stage::ForgetExec => {
            &&& action is Next
            &&& after.moved_on(RequestRun { registered: false, ..before })
            &&& state.execs@ == state_before.execs@.remove(id)
            &&& state == (ServerState { execs: state.execs, ..state_before })
        },
        Stage::Remember => match before.made {
            Some(made) => {
                &&& action is Next
                &&& after.moved_on(
                    RequestRun { made: None, handle: Some(made.number), ..before },
                )
                &&& remembers(state_before, state, made)
            },
            None => {
                &&& action is Next
                &&& after.moved_on(before)
                &&& state == state_before
            },
        },
        Stage::ForgetHandle => {
            &&& action is Next
            &&& after.moved_on(before)
            &&& state.handles@ == state_before.handles@.remove(before.sandbox_id@)
            &&& state == (ServerState { handles: state.handles, ..state_before })
        },
        Stage::RegisterStdio => match before.made {
            Some(made) => if state_before.stdios@.contains_key(id) {
                &&& action matches StageAction::Undo { resource, error }
                &&& resource == made.number
                &&& error@ == invalid_spec("process_id"@, "duplicate stdio process id"@)
                &&& after.gave_up(before, state, state_before)
            } else {
                &&& action is Next
                &&& after.moved_on(before)
                &&& state.stdios@ == state_before.stdios@.insert(id, made.number)
                &&& state == (ServerState { stdios: state.stdios, ..state_before })
            },
            None => {
                &&& action is Next
                &&& after.moved_on(before)
                &&& state == state_before
            },
        },
        Stage::RegisterPty => match before.made {
            Some(made) => if state_before.ptys@.contains_key(id) {
                &&& action matches StageAction::Undo { resource, error }
                &&& resource == made.number
                &&& error@ == invalid_spec("pty_id"@, "duplicate PTY id"@)
                &&& after.gave_up(before, state, state_before)
            } else {
                &&& action is Next
                &&& after.moved_on(before)
                &&& state.ptys@ == state_before.ptys@.insert(id, made.number)
                &&& state == (ServerState { ptys: state.ptys, ..state_before })
            },
            None => {
                &&& action is Next
                &&& after.moved_on(before)
                &&& state == state_before
            },
        },
        Stage::FindStdio => if state_before.stdios@.contains_key(id) {
            &&& action is Next
            &&& after.moved_on(
                RequestRun { resource: Some(state_before.stdios@[id]), ..before },
            )
            &&& state == state_before
        } else {
            refuses(
                before,
                after,
                state_before,
                state,
                action,
                invalid_spec("process_id"@, "unknown stdio process id"@),
            )
        },
        Stage::ForgetStdio => {
            &&& action is Next
            &&& after.moved_on(before)
            &&& state.stdios@ == state_before.stdios@.remove(id)
            &&& state == (ServerState { stdios: state.stdios, ..state_before })
        },
        Stage::FindPty => if state_before.ptys@.contains_key(id) {
            &&& action is Next
            &&& after.moved_on(RequestRun { resource: Some(state_before.ptys@[id]), ..before })
            &&& state == state_before
        } else {
            refuses(
                before,
                after,
                state_before,
                state,
                action,
                invalid_spec("pty_id"@, "unknown PTY id"@),
            )
        },
        Stage::TakePty => if state_before.ptys@.contains_key(id) {
            &&& action is Next
            &&& after.moved_on(RequestRun { resource: Some(state_before.ptys@[id]), ..before })
            &&& state.ptys@ == state_before.ptys@.remove(id)
            &&& state == (ServerState { ptys: state.ptys, ..state_before })
        } else {
            &&& action == StageAction::Answer(Ok(()))
            &&& after.gave_up(before, state, state_before)
        },
        Stage::FollowStream => {
            &&& action is Next
            &&& state.streams@.contains_key(id)
            &&& after.moved_on(RequestRun { resource: Some(state.streams@[id]), ..before })
            &&& state.streams@ == if state_before.streams@.contains_key(id) {
                state_before.streams@
            } else {
                state_before.streams@.insert(id, before.number)
            }
            &&& state == (ServerState { streams: state.streams, ..state_before })
        },
        Stage::ForgetStream => {
            &&& action is Next
            &&& after.moved_on(before)
            &&& state.streams@ == state_before.streams@.remove(id)
            &&& state == (ServerState { streams: state.streams, ..state_before })
        },
        _ => true,
    }
}

/// A request that is through holds nothing any more: no command of it can be
/// stopped, no place to open a channel is taken, and no failure is left
/// unanswered.
pub proof fn a_request_that_is_through_holds_nothing(run: RequestRun, state: ServerState)
    requires
        run.wf(state),
        run.is_through(),
    ensures
        !run.registered,
        !run.opening,
        run.failure is None,
{
    if ends_channel(run.method) {
        assert(stages_of(run.method).len() > channel_end(run.method));
    }
}

/// No stage is passed over: a request goes on stage by stage, in the order
/// of its method, or it is answered and ends. The driver's part is reached
/// only when everything before it went well.
pub proof fn no_stage_is_passed_over(
    before: RequestRun,
    after: RequestRun,
    state_before: ServerState,
    state: ServerState,
    event: StageEvent,
    action: StageAction,
)
    requires
        before.wf(state_before),
        state_before.wf(),
        advances(before, after, state_before, state, event, action),
    ensures
        action is Next ==> after.at == before.at + 1,
        after.at != before.at && after.at != before.at + 1 ==> (action is Answer || action is Undo)
            && after.is_through(),
        action matches StageAction::Call { .. } ==> before.stage() is Call && after == before,
{
    let count = before.stages.len();
    assert(before.stages@.len() == count);
}

/// How many of the requests hold a place to open a data channel.
pub open spec fn openings(runs: Seq<RequestRun>) -> nat
    decreases runs.len(),
{
    if runs.len() == 0 {
        0
    } else {
        openings(runs.drop_last()) + if runs.last().opening {
            1nat
        } else {
            0
        }
    }
}

/// Whether requests can be carried out side by side: every one is in order,
/// there is a taken place for each that opens a channel, and each command's
/// stops are registered under an id of its own.
pub open spec fn side_by_side(runs: Seq<RequestRun>, state: ServerState) -> bool {
    &&& forall|i: int| 0 <= i < runs.len() ==> (#[trigger] runs[i]).wf(state)
    &&& openings(runs) <= state.open_budget.used
    &&& forall|i: int|
        0 <= i < runs.len() && (#[trigger] runs[i]).registered ==> state.execs@.contains_key(
            runs[i].resource_id@,
        ) && state.execs@[runs[i].resource_id@] == runs[i].number
    &&& forall|i: int, j: int|
        0 <= i < j < runs.len() && (#[trigger] runs[i]).registered && (#[trigger] runs[j]).registered
            ==> runs[i].resource_id@ != runs[j].resource_id@
}

proof fn lemma_openings_update(runs: Seq<RequestRun>, at: int, run: RequestRun)
    requires
        0 <= at < runs.len(),
    ensures
        openings(runs.update(at, run)) == openings(runs) + (if run.opening {
            1int
        } else {
            0
        }) - (if runs[at].opening {
            1int
        } else {
            0
        }),
    decreases runs.len(),
{
    let changed = runs.update(at, run);
    if at == runs.len() - 1 {
        assert(changed.drop_last() =~= runs.drop_last());
    } else {
        assert(changed.drop_last() =~= runs.drop_last().update(at, run));
        lemma_openings_update(runs.drop_last(), at, run);
    }
}

proof fn lemma_openings_hold(runs: Seq<RequestRun>, at: int)
    requires
        0 <= at < runs.len(),
        runs[at].opening,
    ensures
        openings(runs) > 0,
    decreases runs.len(),
{
    if at < runs.len() - 1 {
        lemma_openings_hold(runs.drop_last(), at);
    }
}

/// What a step changes of what requests share.
#[verifier::spinoff_prover]
proof fn lemma_step_keeps(
    before: RequestRun,
    after: RequestRun,
    state_before: ServerState,
    state: ServerState,
    event: StageEvent,
    action: StageAction,
)
    requires
        before.wf(state_before),
        state_before.wf(),
        advances(before, after, state_before, state, event, action),
    ensures
        after.wf(state),
        after.resource_id == before.resource_id,
        after.number == before.number,
        state.open_budget.used - (if after.opening {
            1int
        } else {
            0
        }) == state_before.open_budget.used - (if before.opening {
            1int
        } else {
            0
        }),
        state.execs@ == if before.registered == after.registered {
            state_before.execs@
        } else if after.registered {
            state_before.execs@.insert(before.resource_id@, before.number)
        } else {
            state_before.execs@.remove(before.resource_id@)
        },
        after.registered && !before.registered ==> !state_before.execs@.contains_key(
            before.resource_id@,
        ),
{
    let count = before.stages.len();
    assert(before.stages@.len() == count);
    if !before.is_through() {
        let stage = before.stage();
        if registers_exec(before.method) {
            assert(stages_of(before.method).len() == 7);
            assert(stages_of(before.method)[exec_start(before.method)] == Stage::RegisterExec);
            assert(stages_of(before.method)[6] == Stage::ForgetExec);
        }
        if ends_channel(before.method) {
            assert(stages_of(before.method)[channel_end(before.method)] == Stage::FinishChannel);
        }
        if stage is RegisterExec {
            lemma_registered_commands_are_forgotten(before.method, before.at as int);
        }
        if stage is ForgetExec {
            lemma_forgetting_comes_last(before.method, before.at as int);
        }
        if stage is Call && ends_channel(before.method) {
            lemma_calls_come_before_ends(before.method, before.at as int);
        }
    }
}

proof fn lemma_openings_remove(runs: Seq<RequestRun>, at: int)
    requires
        0 <= at < runs.len(),
    ensures
        openings(runs.remove(at)) <= openings(runs),
    decreases runs.len(),
{
    if at == runs.len() - 1 {
        assert(runs.remove(at) =~= runs.drop_last());
    } else {
        assert(runs.remove(at).drop_last() =~= runs.drop_last().remove(at));
        lemma_openings_remove(runs.drop_last(), at);
    }
}

/// Requests come and go without a trace: one that has just come, and one
/// that leaves, leave every other in order.
pub proof fn requests_come_and_go(
    runs: Seq<RequestRun>,
    state: ServerState,
    fresh: RequestRun,
    at: int,
)
    requires
        side_by_side(runs, state),
        fresh.wf(state),
        fresh.at == 0,
        !fresh.opening,
    ensures
        side_by_side(Seq::empty(), state),
        side_by_side(runs.push(fresh), state),
        0 <= at < runs.len() ==> side_by_side(runs.remove(at), state),
{
    let more = runs.push(fresh);
    assert(more.drop_last() =~= runs);
    if 0 <= at < runs.len() {
        let fewer = runs.remove(at);
        lemma_openings_remove(runs, at);
        assert forall|i: int| 0 <= i < fewer.len() implies (#[trigger] fewer[i]).wf(state) by {
            assert(fewer[i] == runs[if i < at {
                i
            } else {
                i + 1
            }]);
        }
    }
}

/// Requests that are carried out side by side do not disturb each other: a
/// step of any one of them leaves every other in order, with its place to
/// open a channel and its command's stops.
pub proof fn requests_do_not_disturb_each_other(
    runs: Seq<RequestRun>,
    at: int,
    after: RequestRun,
    state_before: ServerState,
    state: ServerState,
    event: StageEvent,
    action: StageAction,
)
    requires
        side_by_side(runs, state_before),
        0 <= at < runs.len(),
        state_before.wf(),
        advances(runs[at], after, state_before, state, event, action),
    ensures
        side_by_side(runs.update(at, after), state),
{
    let changed = runs.update(at, after);
    lemma_openings_update(runs, at, after);
    if runs[at].opening {
        lemma_openings_hold(runs, at);
    }
    lemma_step_keeps(runs[at], after, state_before, state, event, action);
    assert forall|i: int| 0 <= i < changed.len() implies (#[trigger] changed[i]).wf(state) by {
        if i != at {
            assert(runs[i].wf(state_before));
            if runs[i].opening {
                lemma_openings_hold(changed, i);
            }
        }
    }
}

/// The driver's part is through only when the driver says so: a run leaves
/// it with what the driver made, with the driver's failure put off until its
/// channel is ended, or because the log that it follows was cancelled.
/// Otherwise it waits, with the handle and the session that it found.
pub proof fn the_driver_decides_its_part(
    before: RequestRun,
    after: RequestRun,
    state_before: ServerState,
    state: ServerState,
    event: StageEvent,
    action: StageAction,
)
    requires
        before.wf(state_before),
        state_before.wf(),
        !before.is_through(),
        before.stage() is Call,
        advances(before, after, state_before, state, event, action),
    ensures
        event matches StageEvent::Done(Ok(made)) ==> action is Next && after.at == before.at + 1
            && after.made == made && after.failure == before.failure,
        event matches StageEvent::Done(Err(error)) ==> if times(
            stages_of(before.method),
            Stage::FinishChannel,
            0,
        ) == 1 {
            action is Next && after.at == before.at + 1 && after.failure == Some(error)
        } else {
            &&& action matches StageAction::Answer(Err(told))
            &&& told == error
            &&& after.is_through()
        },
        event is Cancelled && (before.method is LogsFollow || before.method is SnapshotBuildLogs)
            ==> action is Next && after.at == before.at + 1,
        action is Next ==> event is Done || event is Cancelled,
        event is Begin || event is Offered || event is Judged || event is Finished || (event
            is Cancelled && !(before.method is LogsFollow || before.method is SnapshotBuildLogs)) ==> {
            &&& action == (StageAction::Call { handle: before.handle, session: before.resource })
            &&& after == before
            &&& state == state_before
        },
{
    reveal_with_fuel(times, 9);
    let count = before.stages.len();
    assert(before.stages@.len() == count);
}

/// A failure that was put off is what the request is answered with once its
/// channel is ended, unless the end or the input of the channel failed before
/// it; nothing that failed is answered as a success, and nothing that went
/// well as a failure.
pub proof fn nothing_that_failed_is_answered_as_a_success(
    method: Method,
    call: Option<ErrorView>,
    end: Option<ErrorView>,
    input: Option<ErrorView>,
)
    ensures
        call is Some ==> channel_failure(method, call, end, input) is Some,
        input is Some && !(method is FsRead) ==> channel_failure(method, call, end, input) is Some,
        end is Some && !(method is FsWrite) ==> channel_failure(method, call, end, input) is Some,
        call is None && end is None && input is None ==> channel_failure(method, call, end, input)
            is None,
        method is FsWrite && call is None && input is None ==> channel_failure(
            method,
            call,
            end,
            input,
        ) is None,
        method is FsRead && call is None && end is None ==> channel_failure(
            method,
            call,
            end,
            input,
        ) is None,
        channel_failure(method, call, end, input) is Some ==> {
            ||| channel_failure(method, call, end, input) == call
            ||| channel_failure(method, call, end, input) == end
            ||| channel_failure(method, call, end, input) == input
        },
        (method is FsRead || method is FsWrite) && call is Some ==> channel_failure(
            method,
            call,
            end,
            input,
        ) == call,
        !(method is FsRead || method is FsWrite) && end is Some ==> channel_failure(
            method,
            call,
            end,
            input,
        ) == end,
        !(method is FsRead || method is FsWrite) && end is None && input is Some
            ==> channel_failure(method, call, end, input) == input,
{
}

/// The end of a channel ends the request with what failed, or leads on where
/// nothing did.
pub proof fn an_ended_channel_tells_what_failed(
    before: RequestRun,
    after: RequestRun,
    state_before: ServerState,
    state: ServerState,
    outcome: Result<(), Error>,
    input_error: Option<Error>,
    action: StageAction,
)
    requires
        before.wf(state_before),
        state_before.wf(),
        !before.is_through(),
        before.stage() is FinishChannel,
        advances(
            before,
            after,
            state_before,
            state,
            StageEvent::Finished { outcome, input_error },
            action,
        ),
    ensures
        before.failure is Some ==> action matches StageAction::Answer(Err(_)),
        before.failure is None && outcome is Ok && input_error is None ==> action is Next
            && after.at == before.at + 1,
        outcome is Err && !(before.method is FsWrite) ==> action matches StageAction::Answer(Err(_)),
        input_error is Some && !(before.method is FsRead) ==> action matches StageAction::Answer(
            Err(_),
        ),
        action is Next ==> before.failure is None && after.failure is None,
{
    let count = before.stages.len();
    assert(before.stages@.len() == count);
}

/// What is missing, refused or failed ends the request with an error that
/// says so, and what is there, accepted or done leads to the next stage.
pub proof fn every_stage_heeds_its_answer(
    before: RequestRun,
    after: RequestRun,
    state_before: ServerState,
    state: ServerState,
    event: StageEvent,
    action: StageAction,
)
    requires
        before.wf(state_before),
        state_before.wf(),
        !before.is_through(),
        advances(before, after, state_before, state, event, action),
    ensures
        before.stage() matches Stage::Facet(capability) ==> match event {
            StageEvent::Offered(true) => action is Next && after.at == before.at + 1,
            StageEvent::Offered(false) => action matches StageAction::Answer(Err(error)) && error@
                == unsupported(capability),
            _ => action == StageAction::Ask(capability) && after == before,
        },
        before.stage() matches Stage::Service(capability) ==> match event {
            StageEvent::Offered(true) => action is Next && after.at == before.at + 1,
            StageEvent::Offered(false) => action matches StageAction::Answer(Err(error)) && error@
                == unsupported(capability),
            _ => action == StageAction::Ask(capability) && after == before,
        },
        before.stage() matches Stage::Flag(capability) ==> match event {
            StageEvent::Offered(true) => action is Next && after.at == before.at + 1,
            StageEvent::Offered(false) => action matches StageAction::Answer(Err(error)) && error@
                == unsupported(capability),
            StageEvent::Begin => if capability is SshTtl && !before.wants_ttl {
                action is Next && after.at == before.at + 1
            } else {
                action == StageAction::Ask(capability) && after == before
            },
            _ => action == StageAction::Ask(capability) && after == before,
        },
        before.stage() is CheckSandboxId || before.stage() is CheckSnapshotId || before.stage()
            is CheckVolumeId ==> match event {
            StageEvent::Judged(Ok(())) => action is Next && after.at == before.at + 1,
            StageEvent::Judged(Err(reason)) => {
                &&& action matches StageAction::Answer(Err(error))
                &&& error@ matches ErrorView::InvalidSpec { field, reason: told }
                &&& told == reason@
                &&& before.stage() is CheckSandboxId ==> field == "sandbox_id"@
                &&& before.stage() is CheckSnapshotId ==> field == "snapshot_id"@
                &&& before.stage() is CheckVolumeId ==> field == "volume_id"@
            },
            _ => action is Judge && after == before,
        },
        before.stage() is CheckSpec || before.stage() is CheckFork || before.stage()
            is CollectStdin || before.stage() is ReceiveContent || before.stage() is Describe
            || before.stage() is Diagnostics || before.stage() is Initialize ==> match event {
            StageEvent::Done(Ok(_)) => action is Next && after.at == before.at + 1,
            StageEvent::Done(Err(error)) => {
                &&& action matches StageAction::Answer(Err(told))
                &&& told@ == error@
            },
            _ => !(action is Next) && !(action is Answer) && after == before,
        },
        before.stage() is RememberedOrId ==> match event {
            StageEvent::Begin => if state_before.handles@.contains_key(before.sandbox_id@) {
                action is Next && after.at == before.at + 1 && after.handle == Some(
                    state_before.handles@[before.sandbox_id@],
                )
            } else {
                action is Judge && after == before
            },
            StageEvent::Judged(Ok(())) => action is Next && after.at == before.at + 1
                && after.handle == before.handle,
            StageEvent::Judged(Err(reason)) => {
                &&& action matches StageAction::Answer(Err(error))
                &&& error@ matches ErrorView::InvalidSpec { field, reason: told }
                &&& told == reason@
                &&& field == "sandbox_id"@
            },
            _ => action is Judge && after == before,
        },
{
    let count = before.stages.len();
    assert(before.stages@.len() == count);
}

/// A request works on the handle of the sandbox that it names: the one that
/// is kept for it, or else the one that is attached for it, which is kept
/// from then on. Without one it is answered with the failure to attach.
pub proof fn a_request_works_on_its_own_sandbox(
    before: RequestRun,
    after: RequestRun,
    state_before: ServerState,
    state: ServerState,
    event: StageEvent,
    action: StageAction,
)
    requires
        before.wf(state_before),
        state_before.wf(),
        !before.is_through(),
        before.stage() is Handle,
        advances(before, after, state_before, state, event, action),
    ensures
        event is Begin && state_before.handles@.contains_key(before.sandbox_id@) ==> {
            &&& action is Next
            &&& after.handle == Some(state_before.handles@[before.sandbox_id@])
            &&& state == state_before
        },
        event is Begin && !state_before.handles@.contains_key(before.sandbox_id@) ==> action
            is Attach && after == before,
        event matches StageEvent::Done(Ok(Some(made))) ==> {
            &&& action is Next
            &&& after.handle == Some(made.number)
            &&& state.handles@.contains_key(made.id@)
            &&& state.handles@[made.id@] == made.number
        },
        event matches StageEvent::Done(Err(error)) ==> {
            &&& action matches StageAction::Answer(Err(told))
            &&& told@ == error@
        },
        action is Next ==> after.handle is Some,
{
    let count = before.stages.len();
    assert(before.stages@.len() == count);
}

/// What is made is kept under its id and found there again; what has ended is
/// found no more. An id that is taken is refused and what holds it stays.
pub proof fn what_is_kept_is_found_until_it_ends(
    before: RequestRun,
    after: RequestRun,
    state_before: ServerState,
    state: ServerState,
    event: StageEvent,
    action: StageAction,
)
    requires
        before.wf(state_before),
        state_before.wf(),
        !before.is_through(),
        advances(before, after, state_before, state, event, action),
    ensures
        before.stage() is Remember ==> (before.made matches Some(made) ==> {
            &&& action is Next
            &&& after.handle == Some(made.number)
            &&& state.handles@.contains_key(made.id@)
            &&& state.handles@[made.id@] == made.number
        }),
        before.stage() is ForgetHandle ==> action is Next && !state.handles@.contains_key(
            before.sandbox_id@,
        ) && (forall|id: Seq<char>|
            id != before.sandbox_id@ ==> (#[trigger] state.handles@.contains_key(id)
                <==> state_before.handles@.contains_key(id))),
        before.stage() is RegisterExec ==> if state_before.execs@.contains_key(before.resource_id@) {
            &&& action matches StageAction::Answer(Err(error))
            &&& error@ is InvalidSpec
            &&& state.execs@ == state_before.execs@
        } else {
            &&& action is Next
            &&& state.execs@.contains_key(before.resource_id@)
            &&& state.execs@[before.resource_id@] == before.number
        },
        before.stage() is ForgetExec ==> action is Next && !state.execs@.contains_key(
            before.resource_id@,
        ),
        before.stage() is RegisterStdio ==> (before.made matches Some(made) ==> if state_before.stdios@.contains_key(
            before.resource_id@,
        ) {
            &&& action matches StageAction::Undo { resource, error }
            &&& resource == made.number
            &&& error@ is InvalidSpec
            &&& state.stdios@ == state_before.stdios@
        } else {
            &&& action is Next
            &&& state.stdios@.contains_key(before.resource_id@)
            &&& state.stdios@[before.resource_id@] == made.number
        }),
        before.stage() is RegisterPty ==> (before.made matches Some(made) ==> if state_before.ptys@.contains_key(
            before.resource_id@,
        ) {
            &&& action matches StageAction::Undo { resource, error }
            &&& resource == made.number
            &&& error@ is InvalidSpec
            &&& state.ptys@ == state_before.ptys@
        } else {
            &&& action is Next
            &&& state.ptys@.contains_key(before.resource_id@)
            &&& state.ptys@[before.resource_id@] == made.number
        }),
        before.stage() is FindStdio ==> if state_before.stdios@.contains_key(before.resource_id@) {
            action is Next && after.resource == Some(state_before.stdios@[before.resource_id@])
        } else {
            action matches StageAction::Answer(Err(error)) && error@ is InvalidSpec
        },
        before.stage() is FindPty ==> if state_before.ptys@.contains_key(before.resource_id@) {
            action is Next && after.resource == Some(state_before.ptys@[before.resource_id@])
        } else {
            action matches StageAction::Answer(Err(error)) && error@ is InvalidSpec
        },
        before.stage() is TakePty ==> if state_before.ptys@.contains_key(before.resource_id@) {
            &&& action is Next
            &&& after.resource == Some(state_before.ptys@[before.resource_id@])
            &&& !state.ptys@.contains_key(before.resource_id@)
        } else {
            action matches StageAction::Answer(Ok(()))
        },
        before.stage() is ForgetStdio ==> action is Next && !state.stdios@.contains_key(
            before.resource_id@,
        ),
        before.stage() is FollowStream ==> {
            &&& action is Next
            &&& state.streams@.contains_key(before.resource_id@)
            &&& after.resource == Some(state.streams@[before.resource_id@])
            &&& state_before.streams@.contains_key(before.resource_id@)
                ==> state.streams@[before.resource_id@]
                == state_before.streams@[before.resource_id@]
            &&& !state_before.streams@.contains_key(before.resource_id@)
                ==> state.streams@[before.resource_id@] == before.number
        },
        before.stage() is ForgetStream ==> action is Next && !state.streams@.contains_key(
            before.resource_id@,
        ),
{
    let count = before.stages.len();
    assert(before.stages@.len() == count);
}

/// A stop reaches the command that it names, as hard as it was asked, and a
/// cancellation reaches the log that it names; where there is none any more,
/// that is no failure.
pub proof fn a_stop_reaches_what_it_names(
    before: RequestRun,
    after: RequestRun,
    state_before: ServerState,
    state: ServerState,
    action: StageAction,
)
    requires
        before.wf(state_before),
        state_before.wf(),
        !before.is_through(),
        advances(before, after, state_before, state, StageEvent::Begin, action),
    ensures
        before.stage() is StopExec ==> if state_before.execs@.contains_key(before.resource_id@) {
            &&& action matches StageAction::Stop { resource, level }
            &&& resource == state_before.execs@[before.resource_id@]
            &&& level == before.level
        } else {
            action is Next
        },
        before.stage() is CancelStream ==> if state_before.streams@.contains_key(
            before.resource_id@,
        ) {
            &&& action matches StageAction::Cancel { resource }
            &&& resource == state_before.streams@[before.resource_id@]
        } else {
            action is Next
        },
        before.stage() is StopExec || before.stage() is CancelStream ==> state == state_before,
{
}

/// A channel is opened only where a transport was agreed on and an opening
/// is allowed: a place is taken for it, and it is free again when the channel
/// is open or could not be opened.
pub proof fn channels_open_one_place_each(
    before: RequestRun,
    after: RequestRun,
    state_before: ServerState,
    state: ServerState,
    event: StageEvent,
    action: StageAction,
)
    requires
        before.wf(state_before),
        state_before.wf(),
        !before.is_through(),
        before.stage() is OpenChannel,
        advances(before, after, state_before, state, event, action),
    ensures
        !before.opening ==> (action is Open <==> state_before.transport is Some
            && state_before.open_budget.used < state_before.open_budget.limit),
        !before.opening && action is Open ==> state.open_budget.used
            == state_before.open_budget.used + 1 && after.opening && after.at == before.at,
        !before.opening && !(action is Open) ==> {
            &&& action matches StageAction::Answer(Err(error))
            &&& error@ is Overloaded <==> state_before.open_budget.used
                == state_before.open_budget.limit
            &&& state.open_budget == state_before.open_budget
        },
        before.opening && event is Done ==> state.open_budget.used
            == state_before.open_budget.used - 1 && !after.opening,
        before.opening && event is Done && event->Done_0 is Ok ==> action is Next && after.at
            == before.at + 1,
        before.opening ==> (event matches StageEvent::Done(Err(error)) ==> {
            &&& action matches StageAction::Answer(Err(told))
            &&& told@ == error@
        }),
{
    let count = before.stages.len();
    assert(before.stages@.len() == count);
}

/// A terminal that could not be closed is kept: the next request for it finds
/// it again.
pub proof fn a_terminal_that_stays_open_is_kept(
    before: RequestRun,
    after: RequestRun,
    state_before: ServerState,
    state: ServerState,
    error: Error,
    action: StageAction,
    number: u64,
)
    requires
        before.wf(state_before),
        state_before.wf(),
        !before.is_through(),
        before.method is PtyClose,
        before.stage() is Call,
        before.resource == Some(number),
        advances(before, after, state_before, state, StageEvent::Done(Err(error)), action),
    ensures
        action == StageAction::Answer(Err(error)),
        state.ptys@.contains_key(before.resource_id@),
        state.ptys@[before.resource_id@] == number,
{
}

/// One step of a request: the run and the connection's state before and
/// after it, what happened, and what is to be done next.
pub struct RequestStepView {
    pub before: RequestRun,
    pub after: RequestRun,
    pub state_before: ServerState,
    pub state: ServerState,
    pub event: StageEvent,
    pub action: StageAction,
}

/// Whether this is a step of a request of a method.
#[verifier::opaque]
pub open spec fn is_step(method: Method, step: RequestStepView) -> bool {
    &&& step.before.wf(step.state_before)
    &&& step.state_before.wf()
    &&& step.before.method == method
    &&& advances(
        step.before,
        step.after,
        step.state_before,
        step.state,
        step.event,
        step.action,
    )
}

/// Whether a step ends the request.
pub open spec fn is_last(step: RequestStepView) -> bool {
    step.action is Answer || step.action is Undo
}

/// Whether a step begins where the one before it ended.
pub open spec fn goes_on(steps: Seq<RequestStepView>, at: int) -> bool {
    steps[at].before == steps[at - 1].after
}

/// Whether these are the steps of one request from its first stage on, with
/// whatever happens to the connection's state between two of them.
pub open spec fn is_carried_out(method: Method, steps: Seq<RequestStepView>) -> bool {
    &&& steps.len() > 0
    &&& steps[0].before.at == 0
    &&& forall|i: int| 0 <= i < steps.len() ==> is_step(method, #[trigger] steps[i])
    &&& forall|i: int| 0 < i < steps.len() ==> #[trigger] goes_on(steps, i)
    &&& forall|i: int| 0 <= i < steps.len() - 1 ==> !is_last(#[trigger] steps[i])
}

/// Whether the driver did its part in this step, and did it well.
pub open spec fn driver_is_through(step: RequestStepView) -> bool {
    &&& !step.before.is_through()
    &&& step.before.stage() is Call
    &&& (step.event is Done && step.event->Done_0 is Ok) || step.event is Cancelled
}

/// Whether a method's request has the driver's part at this place.
#[verifier::opaque]
spec fn calls_at(method: Method, call: int) -> bool {
    0 <= call < stages_of(method).len() && stages_of(method)[call] is Call
}

proof fn lemma_where_the_call_is(method: Method) -> (call: int)
    requires
        !(method is Initialize || method is ExecStop || method is StreamCancel || method
            is TransportDiagnostics),
    ensures
        calls_at(method, call),
        call >= 0,
{
    reveal(calls_at);
    crate::dispatch::every_request_reaches_the_driver_once(method);
    crate::dispatch::a_stage_that_comes_is_somewhere(stages_of(method), Stage::Call, 0)
}

proof fn lemma_one_step(method: Method, step: RequestStepView, call: int)
    requires
        is_step(method, step),
        calls_at(method, call),
    ensures
        step.before.is_through() ==> step.before.at > call,
        !is_last(step) ==> step.after.at == step.before.at || step.after.at == step.before.at + 1,
        !is_last(step) && step.before.failure is Some ==> step.after.failure is Some,
        !is_last(step) && step.before.at == call && step.after.at == call + 1 && step.after.failure
            is None ==> driver_is_through(step),
        step.action matches StageAction::Answer(Ok(())) ==> (step.before.is_through()
            && step.before.failure is None) || (method is PtyClose
            && !step.state_before.ptys@.contains_key(step.before.resource_id@)),
{
    reveal(is_step);
    reveal(calls_at);
    no_stage_is_passed_over(
        step.before,
        step.after,
        step.state_before,
        step.state,
        step.event,
        step.action,
    );
    let count = step.before.stages.len();
    assert(step.before.stages@.len() == count);
    if step.before.is_through() {
        a_request_that_is_through_holds_nothing(step.before, step.state_before);
    } else if step.before.stage() is TakePty {
        lemma_terminals_are_taken_to_be_closed(method, step.before.at as int);
    }
}

proof fn lemma_past_the_driver(method: Method, steps: Seq<RequestStepView>, at: int, call: int) -> (
    through: int)
    requires
        is_carried_out(method, steps),
        0 <= at < steps.len(),
        calls_at(method, call),
        call >= 0,
        steps[at].before.at > call,
        steps[at].before.failure is None,
    ensures
        0 <= through < at,
        driver_is_through(steps[through]),
    decreases at,
{
    let step = steps[at - 1];
    assert(goes_on(steps, at));
    assert(is_step(method, step));
    assert(!is_last(step));
    lemma_one_step(method, step, call);
    if step.before.at > call {
        lemma_past_the_driver(method, steps, at - 1, call)
    } else {
        at - 1
    }
}

/// A request is answered as a success only when the driver did its part and
/// did it well, whatever happened to the connection in between. Closing a
/// terminal that is not there is a success by itself, and so is what the
/// plugin answers from its own state.
pub proof fn success_means_the_driver_was_through(method: Method, steps: Seq<RequestStepView>)
    requires
        is_carried_out(method, steps),
        steps.last().action matches StageAction::Answer(Ok(())),
    ensures
        method is Initialize || method is ExecStop || method is StreamCancel || method
            is TransportDiagnostics || (method is PtyClose
            && !steps.last().state_before.ptys@.contains_key(steps.last().before.resource_id@)) || (
        exists|i: int| 0 <= i < steps.len() && driver_is_through(#[trigger] steps[i])),
{
    let last = steps.len() - 1;
    let step = steps[last];
    assert(is_step(method, step));
    if !(method is Initialize || method is ExecStop || method is StreamCancel || method
        is TransportDiagnostics) {
        let call = lemma_where_the_call_is(method);
        lemma_one_step(method, step, call);
        if step.before.is_through() && step.before.failure is None {
            let through = lemma_past_the_driver(method, steps, last, call);
            assert(driver_is_through(steps[through]));
        }
    }
}

proof fn lemma_terminals_are_taken_to_be_closed(method: Method, at: int)
    requires
        0 <= at < stages_of(method).len(),
        stages_of(method)[at] is TakePty,
    ensures
        method is PtyClose,
{
}

/// A step of a request touches what the request is about and nothing else:
/// the entries of other commands, sessions and logs stay as they are, no
/// handle but the one that the request makes or drops changes unless a full
/// cache makes room for it, and nothing else of the connection changes.
pub proof fn a_request_touches_only_its_own_records(
    before: RequestRun,
    after: RequestRun,
    state_before: ServerState,
    state: ServerState,
    event: StageEvent,
    action: StageAction,
    other: Seq<char>,
)
    requires
        before.wf(state_before),
        state_before.wf(),
        advances(before, after, state_before, state, event, action),
        other != before.resource_id@,
    ensures
        state.execs@.contains_key(other) == state_before.execs@.contains_key(other),
        state_before.execs@.contains_key(other) ==> state.execs@[other]
            == state_before.execs@[other],
        state.stdios@.contains_key(other) == state_before.stdios@.contains_key(other),
        state_before.stdios@.contains_key(other) ==> state.stdios@[other]
            == state_before.stdios@[other],
        state.ptys@.contains_key(other) == state_before.ptys@.contains_key(other),
        state_before.ptys@.contains_key(other) ==> state.ptys@[other] == state_before.ptys@[other],
        state.streams@.contains_key(other) == state_before.streams@.contains_key(other),
        state_before.streams@.contains_key(other) ==> state.streams@[other]
            == state_before.streams@[other],
        state.transport == state_before.transport,
        state.limits == state_before.limits,
        state.request_budget == state_before.request_budget,
        state.reserved_budget == state_before.reserved_budget,
        state.io_budget == state_before.io_budget,
        state.open_budget.limit == state_before.open_budget.limit,
        state.events_failed == state_before.events_failed,
        state.delivery_failed == state_before.delivery_failed,
        state.closing == state_before.closing,
        before.is_through() || !(before.stage() is Handle || before.stage() is Remember
            || before.stage() is ForgetHandle) ==> state.handles@ == state_before.handles@,
{
}

/// A handle that is kept costs no other its place, unless the cache is full
/// and the handle is new to it.
pub proof fn a_kept_handle_costs_no_other_its_place(
    state_before: ServerState,
    state: ServerState,
    made: Made,
    other: Seq<char>,
)
    requires
        remembers(state_before, state, made),
        state_before.handles@.contains_key(other),
        other != made.id@,
        state_before.handles@.dom().len() < state_before.limits.cached_handles
            || state_before.handles@.contains_key(made.id@),
    ensures
        state.handles@.contains_key(other),
        state.handles@[other] == state_before.handles@[other],
{
}

/// A run that goes on keeps what it found, and a run that gives up keeps
/// nothing that others wait for.
pub proof fn a_run_keeps_what_it_found(
    before: RequestRun,
    after: RequestRun,
    state: ServerState,
    state_before: ServerState,
)
    ensures
        after.moved_on(before) && before.at < usize::MAX ==> {
            &&& after.at == before.at + 1
            &&& after.method == before.method
            &&& after.sandbox_id == before.sandbox_id
            &&& after.resource_id == before.resource_id
            &&& after.number == before.number
            &&& after.wants_ttl == before.wants_ttl
            &&& after.level == before.level
            &&& after.stages == before.stages
            &&& after.handle == before.handle
            &&& after.resource == before.resource
            &&& after.made == before.made
            &&& after.registered == before.registered
            &&& after.opening == before.opening
            &&& after.failure == before.failure
        },
        after.gave_up(before, state, state_before) ==> {
            &&& !after.registered
            &&& !after.opening
            &&& after.failure is None
            &&& state.handles == state_before.handles
            &&& state.stdios == state_before.stdios
            &&& state.ptys == state_before.ptys
            &&& state.streams == state_before.streams
            &&& state.transport == state_before.transport
        },
        error_view(before.failure) is Some <==> before.failure is Some,
        before.failure is Some ==> error_view(before.failure) == Some(before.failure->Some_0@),
{
}

/// What a failed outcome says is its error; a good one says nothing.
pub proof fn only_a_failure_says_something(outcome: Result<(), Error>)
    ensures
        failure_view(outcome) is Some <==> outcome is Err,
        outcome matches Err(error) ==> failure_view(outcome) == Some(error@),
{
}

} // verus!
