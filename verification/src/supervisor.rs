//! A plugin that is replaced when its process dies, for new work only: a
//! failed call is never replayed.

use crate::discovery::{PluginConfig, PluginLaunch, Refused};
use crate::driver::{
    unsupported, AuthError, AuthView, Capabilities, Capability, Error, ErrorView, HealthStatus,
    ProviderError, ProviderHealth, ProviderView,
};
use crate::provider::PluginProvider;
use crate::text::{
    concat2, concat3, copy_opt_text, join, joined_text, opt_text, same_opt_text, texts,
};
use vstd::prelude::*;

verus! {

/// One launched plugin process: the provider it serves and the number that
/// distinguishes it from every process launched before it. The application
/// keeps the connection to the provider.
pub struct PluginGeneration<P> {
    pub provider: P,
    pub number: u64,
    pub path: String,
    pub verified: bool,
    pub health: ProviderHealth,
}

impl<P> PluginGeneration<P> {
    /// The provider that this process serves. Handles obtained through it
    /// stay tied to this generation.
    pub fn provider(&self) -> (provider: &P)
        ensures
            *provider == self.provider,
    {
        &self.provider
    }

    /// The generation's position in launch order, from 1. Higher means
    /// later; every handle from a lower number is dead.
    pub fn number(&self) -> (number: u64)
        ensures
            number == self.number,
    {
        self.number
    }

    /// The executable that was launched.
    pub fn path(&self) -> (path: &str)
        ensures
            path@ == self.path@,
    {
        self.path.as_str()
    }

    /// Whether the executable's checksum was verified against its pin.
    pub fn verified(&self) -> (verified: bool)
        ensures
            verified == self.verified,
    {
        self.verified
    }

    /// The report that the backend gave when this generation was launched.
    pub fn health(&self) -> (health: &ProviderHealth)
        ensures
            *health == self.health,
    {
        &self.health
    }
}

impl PluginGeneration<PluginProvider> {
    /// Whether the transport to this process has closed. Every call through
    /// its provider then fails, and the next one is answered from a
    /// replacement.
    pub fn is_closed(&self) -> (closed: bool)
        ensures
            closed == self.provider.client.closed,
    {
        self.provider.is_closed()
    }
}

/// A text, or what stands for its absence.
pub open spec fn text_or(text: Option<Seq<char>>, otherwise: Seq<char>) -> Seq<char> {
    match text {
        Some(text) => text,
        None => otherwise,
    }
}

/// Why a launched plugin must not serve, by its health report.
pub open spec fn refusal_for(kind: Seq<char>, health: ProviderHealth) -> Option<ErrorView> {
    let detail = text_or(opt_text(health.message), "the plugin gave no detail"@);
    let missing = texts(health.missing_permissions@);
    match health.status {
        HealthStatus::Unreachable => Some(
            ErrorView::Provider(
                ProviderView {
                    provider: kind,
                    message: "the plugin's backend is unreachable: "@ + detail,
                    code: Some("unreachable"@),
                    retryable: false,
                    detail: None,
                    source: Seq::empty(),
                },
            ),
        ),
        HealthStatus::Unauthorized => Some(
            ErrorView::Auth(
                AuthView {
                    provider: kind,
                    reason: "the plugin's backend rejected its credential: "@ + detail + if missing.len()
                        == 0 {
                        Seq::empty()
                    } else {
                        "; missing permissions: "@ + joined_text(missing, ", "@)
                    },
                    source: Seq::empty(),
                },
            ),
        ),
        _ => None,
    }
}

/// Why a launched plugin must not serve, by its health report: an
/// unreachable backend is a provider failure, a rejected credential an
/// authentication failure. A healthy backend and a provider without a health
/// check both serve.
pub fn health_refusal(kind: &str, health: &ProviderHealth) -> (refusal: Option<Error>)
    ensures
        match refusal {
            Some(error) => refusal_for(kind@, *health) == Some(error@),
            None => refusal_for(kind@, *health) is None,
        },
{
    let detail: &str = match &health.message {
        Some(message) => message.as_str(),
        None => "the plugin gave no detail",
    };
    match health.status {
        HealthStatus::Unreachable => {
            let message = concat2("the plugin's backend is unreachable: ", detail);
            let mut error = ProviderError::new(kind.to_owned(), message);
            error.code = Some("unreachable".to_owned());
            Some(Error::Provider(error))
        },
        HealthStatus::Unauthorized => {
            let mut reason = concat2("the plugin's backend rejected its credential: ", detail);
            if health.missing_permissions.len() > 0 {
                let missing = join(&health.missing_permissions, ", ");
                let ghost start = reason@;
                reason.append("; missing permissions: ");
                reason.append(missing.as_str());
                assert(reason@ =~= start + ("; missing permissions: "@ + missing@));
            } else {
                assert(reason@ =~= reason@ + Seq::<char>::empty());
            }
            Some(Error::Auth(AuthError { provider: kind.to_owned(), reason, source: None }))
        },
        _ => None,
    }
}

/// The refusal of a replacement that addresses another resource namespace
/// than the first generation.
pub open spec fn identity_refusal(
    kind: Seq<char>,
    first: Option<Seq<char>>,
    replacement: Option<Seq<char>>,
) -> ErrorView {
    ErrorView::Provider(
        ProviderView {
            provider: kind,
            message: "the replacement plugin reports resource namespace "@ + text_or(
                replacement,
                "none"@,
            ) + ", but the first generation reported "@ + text_or(first, "none"@)
                + "; recovery does not continue into another account"@,
            code: Some("identity_changed"@),
            retryable: false,
            detail: None,
            source: Seq::empty(),
        },
    )
}

fn or_none(text: &Option<String>) -> (shown: &str)
    ensures
        shown@ == text_or(opt_text(*text), "none"@),
{
    match text {
        Some(text) => text.as_str(),
        None => "none",
    }
}

/// The refusal of a replacement that addresses another resource namespace
/// than the first generation.
pub fn identity_changed(kind: &str, first: &Option<String>, replacement: &Option<String>) -> (error:
    Error)
    ensures
        error@ == identity_refusal(kind@, opt_text(*first), opt_text(*replacement)),
{
    let mut message = concat3(
        "the replacement plugin reports resource namespace ",
        or_none(replacement),
        ", but the first generation reported ",
    );
    message.append(or_none(first));
    message.append("; recovery does not continue into another account");
    let mut error = ProviderError::new(kind.to_owned(), message);
    error.code = Some("identity_changed".to_owned());
    Error::Provider(error)
}

/// The end of a generation's launch: a plugin whose health check failed, or
/// whose report says that it must not serve, is to be shut down.
pub fn launch_generation<P>(
    launched: PluginLaunch<P>,
    health: Result<ProviderHealth, Error>,
    kind: &str,
    number: u64,
) -> (generation: Result<PluginGeneration<P>, Refused<P>>)
    ensures
        generation is Ok <==> health is Ok && !(health->Ok_0.status is Unreachable)
            && !(health->Ok_0.status is Unauthorized),
        match (generation, health) {
            (Ok(generation), Ok(health)) => {
                &&& refusal_for(kind@, health) is None
                &&& generation == (PluginGeneration {
                    provider: launched.provider,
                    number,
                    path: launched.path,
                    verified: launched.verified,
                    health,
                })
            },
            (Err(refused), Ok(health)) => {
                &&& refusal_for(kind@, health) == Some(refused.error@)
                &&& refused.provider == launched.provider
            },
            (Err(refused), Err(error)) => refused == (Refused {
                provider: launched.provider,
                error,
            }),
            (Ok(_), Err(_)) => false,
        },
{
    let health = match health {
        Ok(health) => health,
        Err(error) => {
            return Err(Refused { provider: launched.provider, error });
        },
    };
    match health_refusal(kind, &health) {
        Some(error) => Err(Refused { provider: launched.provider, error }),
        None => Ok(
            PluginGeneration {
                provider: launched.provider,
                number,
                path: launched.path,
                verified: launched.verified,
                health,
            },
        ),
    }
}

/// A provider that survives the death of its plugin.
///
/// It owns at most one live plugin of one fixed configuration. Generations
/// are numbered from 1 in launch order, so that an application can tell a
/// handle of an earlier one, which is dead. Every generation addresses the
/// resource namespace that the first one reported.
pub struct PluginSupervisor<P> {
    pub prefix: String,
    pub config: PluginConfig,
    pub kind: String,
    pub capabilities: Capabilities,
    /// The resource namespace that the first generation reported.
    pub identity: Option<String>,
    pub live: Option<PluginGeneration<P>>,
    /// How many generations have served.
    pub served: u64,
}

/// What a supervisor's generations amount to.
pub struct Generations {
    /// The number of the live generation and the namespace it reported.
    pub live: Option<(u64, Option<Seq<char>>)>,
    pub served: u64,
    pub identity: Option<Seq<char>>,
}

impl<P> View for PluginSupervisor<P> {
    type V = Generations;

    open spec fn view(&self) -> Generations {
        Generations {
            live: match self.live {
                Some(live) => Some((live.number, opt_text(live.health.identity))),
                None => None,
            },
            served: self.served,
            identity: opt_text(self.identity),
        }
    }
}

impl Generations {
    /// The live generation is the last that served, and it addresses the
    /// fixed namespace.
    pub open spec fn wf(self) -> bool {
        &&& self.served >= 1
        &&& self.live matches Some((number, identity)) ==> number == self.served && identity
            == self.identity
    }
}

/// What happens to the generations of a supervisor.
pub enum GenerationEvent {
    /// The live generation, if there is one, is taken out of service.
    Retired,
    /// The next generation was launched and reported this namespace.
    Launched { identity: Option<Seq<char>> },
}

/// The generations after an event: one that reports another namespace than
/// the first is never served.
pub open spec fn after_event(generations: Generations, event: GenerationEvent) -> Generations {
    match event {
        GenerationEvent::Retired => Generations { live: None, ..generations },
        GenerationEvent::Launched { identity } => if generations.live is None && identity
            == generations.identity && generations.served < u64::MAX {
            Generations {
                live: Some(((generations.served + 1) as u64, identity)),
                served: (generations.served + 1) as u64,
                ..generations
            }
        } else {
            generations
        },
    }
}

/// What a call on a supervisor needs first.
pub enum CurrentStep<P> {
    /// The live generation answers.
    Serve,
    /// Shut the closed generation down, if there is one, and launch the one
    /// with this number.
    Replace { closed: Option<PluginGeneration<P>>, number: u64 },
}

impl<P> PluginSupervisor<P> {
    /// Only the last generation that served is live, and it addresses the
    /// fixed namespace.
    pub open spec fn wf(self) -> bool {
        self@.wf()
    }

    /// A supervisor whose first generation was launched with these
    /// capabilities, from a configuration that inherits nothing any more. Its
    /// kind is the configured one.
    pub fn launch(
        prefix: String,
        config: PluginConfig,
        first: PluginGeneration<P>,
        capabilities: &Capabilities,
    ) -> (supervisor: Self)
        requires
            first.number == 1,
        ensures
            supervisor.wf(),
            supervisor.prefix == prefix,
            supervisor.config == config,
            supervisor.kind@ == config.kind@,
            supervisor.capabilities == *capabilities,
            opt_text(supervisor.identity) == opt_text(first.health.identity),
            supervisor.live == Some(first),
            supervisor.served == 1,
    {
        let kind = config.kind.clone();
        let capabilities = capabilities.copy();
        let identity = copy_opt_text(&first.health.identity);
        let served: u64 = first.number;
        PluginSupervisor { prefix, config, kind, capabilities, identity, live: Some(first), served }
    }

    /// What a call needs first: nothing while the transport to the live
    /// generation is open, else a replacement.
    pub fn current(&mut self, closed: bool) -> (step: CurrentStep<P>)
        requires
            old(self).wf(),
            old(self).live is None || closed ==> old(self).served < u64::MAX,
        ensures
            final(self).wf(),
            step is Serve <==> old(self).live is Some && !closed,
            match step {
                CurrentStep::Serve => {
                    &&& old(self).live is Some
                    &&& !closed
                    &&& *final(self) == *old(self)
                },
                CurrentStep::Replace { closed: retired, number } => {
                    &&& retired == old(self).live
                    &&& retired is Some ==> closed
                    &&& number == old(self).served + 1
                    &&& *final(self) == (PluginSupervisor { live: None, ..*old(self) })
                    &&& final(self)@ == after_event(old(self)@, GenerationEvent::Retired)
                },
            },
    {
        if self.live.is_some() && !closed {
            return CurrentStep::Serve;
        }
        let mut retired: Option<PluginGeneration<P>> = None;
        std::mem::swap(&mut retired, &mut self.live);
        CurrentStep::Replace { closed: retired, number: self.served + 1 }
    }

    /// Puts the next generation in service, unless it addresses another
    /// namespace than the first one did: it is then handed back to be shut
    /// down, and nothing changes.
    pub fn replace(&mut self, replacement: PluginGeneration<P>) -> (outcome: Result<
        (),
        Refused<P>,
    >)
        requires
            old(self).wf(),
            old(self).live is None,
            replacement.number == old(self).served + 1,
        ensures
            final(self).wf(),
            final(self)@ == after_event(
                old(self)@,
                GenerationEvent::Launched { identity: opt_text(replacement.health.identity) },
            ),
            match outcome {
                Ok(()) => {
                    &&& opt_text(replacement.health.identity) == opt_text(old(self).identity)
                    &&& *final(self) == (PluginSupervisor {
                        live: Some(replacement),
                        served: replacement.number,
                        ..*old(self)
                    })
                },
                Err(refused) => {
                    &&& opt_text(replacement.health.identity) != opt_text(old(self).identity)
                    &&& *final(self) == *old(self)
                    &&& refused.provider == replacement.provider
                    &&& refused.error@ == identity_refusal(
                        old(self).kind@,
                        opt_text(old(self).identity),
                        opt_text(replacement.health.identity),
                    )
                },
            },
    {
        if !same_opt_text(&replacement.health.identity, &self.identity) {
            let error = identity_changed(
                self.kind.as_str(),
                &self.identity,
                &replacement.health.identity,
            );
            return Err(Refused { provider: replacement.provider, error });
        }
        self.served = replacement.number;
        self.live = Some(replacement);
        Ok(())
    }

    /// Takes the live generation out of service to be shut down. A later
    /// call launches a fresh one.
    pub fn shutdown(&mut self) -> (live: Option<PluginGeneration<P>>)
        requires
            old(self).wf(),
        ensures
            final(self).wf(),
            live == old(self).live,
            *final(self) == (PluginSupervisor { live: None, ..*old(self) }),
            final(self)@ == after_event(old(self)@, GenerationEvent::Retired),
    {
        let mut live: Option<PluginGeneration<P>> = None;
        std::mem::swap(&mut live, &mut self.live);
        live
    }

    /// Whether the plugin declared snapshots. Each call reaches the
    /// generation that is live then.
    pub fn snapshots(&self) -> (offered: bool)
        ensures
            offered == self.capabilities.snapshots,
    {
        self.capabilities.snapshots
    }

    /// Whether the plugin declared volumes. Each call reaches the generation
    /// that is live then.
    pub fn volumes(&self) -> (offered: bool)
        ensures
            offered == self.capabilities.volumes,
    {
        self.capabilities.volumes
    }
}

/// Refuses a snapshot call on a generation whose provider has no snapshot
/// service.
pub fn snapshot_service(offered: bool) -> (outcome: Result<(), Error>)
    ensures
        match outcome {
            Ok(()) => offered,
            Err(error) => !offered && error@ == unsupported(
                Capability::Snapshots,
            ),
        },
{
    if offered {
        Ok(())
    } else {
        Err(Error::unsupported(Capability::Snapshots))
    }
}

/// Refuses a volume call on a generation whose provider has no volume
/// service.
pub fn volume_service(offered: bool) -> (outcome: Result<(), Error>)
    ensures
        match outcome {
            Ok(()) => offered,
            Err(error) => !offered && error@ == unsupported(
                Capability::Volumes,
            ),
        },
{
    if offered {
        Ok(())
    } else {
        Err(Error::unsupported(Capability::Volumes))
    }
}

/// The generations after a run of events.
pub open spec fn after_events(
    generations: Generations,
    events: Seq<GenerationEvent>,
) -> Generations
    decreases events.len(),
{
    if events.len() == 0 {
        generations
    } else {
        after_events(after_event(generations, events[0]), events.skip(1))
    }
}

/// Whatever happens, the namespace stays the one of the first generation and
/// numbers only go up: a generation that was launched later has a higher
/// number, and the live one has the highest.
pub proof fn generations_only_go_up(generations: Generations, events: Seq<GenerationEvent>)
    requires
        generations.wf(),
    ensures
        after_events(generations, events).wf(),
        after_events(generations, events).identity == generations.identity,
        after_events(generations, events).served >= generations.served,
    decreases events.len(),
{
    if events.len() > 0 {
        generations_only_go_up(after_event(generations, events[0]), events.skip(1));
    }
}

/// A replacement is the next generation of the same namespace or none: one
/// that reports the first generation's namespace gets the next number, one
/// that reports another is not served, and the count of those that served
/// stays.
pub proof fn a_replacement_is_the_next_or_none(
    generations: Generations,
    identity: Option<Seq<char>>,
)
    requires
        generations.wf(),
        generations.served < u64::MAX,
    ensures
        ({
            let retired = after_event(generations, GenerationEvent::Retired);
            let replaced = after_event(retired, GenerationEvent::Launched { identity });
            &&& replaced.wf()
            &&& identity == generations.identity ==> replaced == (Generations {
                live: Some(((generations.served + 1) as u64, identity)),
                served: (generations.served + 1) as u64,
                identity: generations.identity,
            })
            &&& identity != generations.identity ==> replaced == retired && replaced.live is None
                && replaced.served == generations.served
        }),
{
}

/// A handle of a generation that was taken out of service is told apart from
/// every later one by its number.
pub proof fn a_retired_generation_never_returns(
    generations: Generations,
    events: Seq<GenerationEvent>,
)
    requires
        generations.wf(),
        generations.live is Some,
    ensures
        ({
            let later = after_events(
                after_event(generations, GenerationEvent::Retired),
                events,
            );
            later.live matches Some((number, _)) ==> number > generations.live->Some_0.0
        }),
{
    lemma_live_is_newer(after_event(generations, GenerationEvent::Retired), events);
}

proof fn lemma_live_is_newer(generations: Generations, events: Seq<GenerationEvent>)
    requires
        generations.wf(),
        generations.live is None,
    ensures
        after_events(generations, events).live matches Some((number, _)) ==> number
            > generations.served,
    decreases events.len(),
{
    if events.len() > 0 {
        let next = after_event(generations, events[0]);
        if next.live is None {
            lemma_live_is_newer(next, events.skip(1));
        } else {
            generations_only_go_up(next, events.skip(1));
        }
    }
}

/// A plugin is refused by its health report exactly when its backend is
/// unreachable or rejected its credential, whatever else the report says: the
/// first is a provider failure, the second an authentication failure, both of
/// the kind that was launched.
pub proof fn an_unready_backend_never_serves(kind: Seq<char>, health: ProviderHealth)
    ensures
        refusal_for(kind, health) is Some <==> health.status is Unreachable || health.status
            is Unauthorized,
        health.status is Unreachable ==> {
            &&& refusal_for(kind, health) matches Some(ErrorView::Provider(failure))
            &&& failure.provider == kind
            &&& failure.code == Some("unreachable"@)
        },
        health.status is Unauthorized ==> {
            &&& refusal_for(kind, health) matches Some(ErrorView::Auth(failure))
            &&& failure.provider == kind
        },
{
}

/// A refusal says what the report says: reports that lack the same
/// permissions and have different messages are refused with different words.
pub proof fn a_refusal_says_what_the_report_says(
    kind: Seq<char>,
    a: ProviderHealth,
    b: ProviderHealth,
)
    requires
        refusal_for(kind, a) is Some,
        refusal_for(kind, a) == refusal_for(kind, b),
        a.status == b.status,
        a.message is Some,
        b.message is Some,
    ensures
        texts(a.missing_permissions@) == texts(b.missing_permissions@) ==> opt_text(a.message)
            == opt_text(b.message),
{
    let start = if a.status is Unreachable {
        "the plugin's backend is unreachable: "@
    } else {
        "the plugin's backend rejected its credential: "@
    };
    let missing = texts(a.missing_permissions@);
    let end = if a.status is Unreachable || missing.len() == 0 {
        Seq::empty()
    } else {
        "; missing permissions: "@ + joined_text(missing, ", "@)
    };
    if texts(a.missing_permissions@) == texts(b.missing_permissions@) {
        let x = opt_text(a.message)->Some_0;
        let y = opt_text(b.message)->Some_0;
        let left = start + x + end;
        let right = start + y + end;
        assert(start + x =~= start + x + Seq::<char>::empty());
        assert(start + y =~= start + y + Seq::<char>::empty());
        assert(left == right);
        assert(left.len() == right.len());
        assert(left.subrange(start.len() as int, (start.len() + x.len()) as int) =~= x);
        assert(right.subrange(start.len() as int, (start.len() + y.len()) as int) =~= y);
    }
}

/// A replacement of another namespace is refused as a provider failure of
/// the supervised kind that is told by its code.
pub proof fn a_changed_identity_is_told_by_its_code(
    kind: Seq<char>,
    first: Option<Seq<char>>,
    replacement: Option<Seq<char>>,
)
    ensures
        identity_refusal(kind, first, replacement) matches ErrorView::Provider(failure)
            && failure.provider == kind && failure.code == Some("identity_changed"@)
            && !failure.retryable,
{
}

/// A refusal names the plugin that is refused. An unreachable backend is told
/// by its code and is not tried again on that account; a rejected credential
/// is an authentication failure, which ends with the permissions that lack.
pub proof fn a_refusal_names_what_is_refused(kind: Seq<char>, health: ProviderHealth)
    ensures
        health.status is Unreachable ==> {
            &&& refusal_for(kind, health) matches Some(ErrorView::Provider(failure))
            &&& failure.provider == kind
            &&& failure.code == Some("unreachable"@)
            &&& !failure.retryable
            &&& failure.detail is None
            &&& failure.source.len() == 0
        },
        health.status is Unauthorized ==> {
            &&& refusal_for(kind, health) matches Some(ErrorView::Auth(failure))
            &&& failure.provider == kind
            &&& failure.source.len() == 0
            &&& health.missing_permissions@.len() > 0 ==> joined_text(
                texts(health.missing_permissions@),
                ", "@,
            ).is_suffix_of(failure.reason)
        },
{
    if health.status is Unauthorized && health.missing_permissions@.len() > 0 {
        let reason = refusal_for(kind, health)->Some_0->Auth_0.reason;
        let missing = texts(health.missing_permissions@);
        assert(missing.len() == health.missing_permissions@.len());
        let last = joined_text(missing, ", "@);
        assert(reason.subrange(reason.len() - last.len(), reason.len() as int) =~= last);
    }
}

} // verus!
