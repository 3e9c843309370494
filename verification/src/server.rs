//! Launch and accept-loop policy of the connection servers: which transport
//! starts, what an unparsable bind address may stop, how the accept loop
//! responds to each event, and what the dispatch shim answers when the routing
//! pipeline fails.

use vstd::prelude::*;
use vstd::string::*;

use crate::config::Config;
use crate::error::Error;

verus! {

/// Decides whether the server can be built: exactly when a routing pipeline
/// was supplied; without one, building fails with the structural
/// missing-router-factory error before any listener binds.
pub fn router_requirement(has_router_factory: bool) -> (r: Result<(), Error>)
    ensures
        (r is Ok) == has_router_factory,
        !has_router_factory ==> r->Err_0 is MissingRouterFactory,
{
    if has_router_factory {
        Ok(())
    } else {
        Err(Error::MissingRouterFactory)
    }
}

/// The launcher's plan: which transport to start, on which address and port.
pub struct LaunchPlan {
    /// True when the TLS connection server is the one to start.
    pub tls: bool,
    pub bind_address: String,
    pub port: u16,
}

/// Decides which connection server to launch: the TLS server on the TLS port
/// when TLS is enabled, else the plaintext server on the plaintext port.
pub fn launch_plan(config: &Config) -> (p: LaunchPlan)
    ensures
        p.tls == config.website.bind_ssl_config.enabled,
        p.bind_address@ == config.website.bind_address@,
        p.port == (if config.website.bind_ssl_config.enabled {
            config.website.bind_ports.https
        } else {
            config.website.bind_ports.http
        }),
{
    let website = &config.website;
    if website.bind_ssl_config.enabled {
        LaunchPlan {
            tls: true,
            bind_address: website.bind_address.clone(),
            port: website.bind_ports.https,
        }
    } else {
        LaunchPlan {
            tls: false,
            bind_address: website.bind_address.clone(),
            port: website.bind_ports.http,
        }
    }
}

/// What one transport does before binding.
#[derive(Debug, PartialEq, Eq, Structural)]
pub enum BindDecision {
    /// The bind address parsed: bind the listener and start accepting.
    Start,
    /// The bind address did not parse: log and skip only this transport.
    SkipTransport,
}

/// Decides whether a transport may bind: exactly when its address parsed.
pub fn bind_decision(addr_ok: bool) -> (d: BindDecision)
    ensures
        (d is Start) == addr_ok,
{
    if addr_ok {
        BindDecision::Start
    } else {
        BindDecision::SkipTransport
    }
}

/// Which connection servers ended up started.
#[derive(Debug, PartialEq, Eq, Structural)]
pub struct StartOutcome {
    pub tls_started: bool,
    pub plain_started: bool,
}

/// Which servers start, given whether TLS is enabled and whether each
/// transport's bind address parses: the TLS server starts exactly when TLS is
/// enabled and its address parses; the plaintext server exactly when TLS is
/// disabled and its address parses.
pub open spec fn spec_start_servers(
    ssl_enabled: bool,
    tls_addr_ok: bool,
    plain_addr_ok: bool,
) -> StartOutcome {
    StartOutcome {
        tls_started: ssl_enabled && tls_addr_ok,
        plain_started: !ssl_enabled && plain_addr_ok,
    }
}

/// Decides which connection servers to start; `tls_addr_ok` and
/// `plain_addr_ok` report whether each transport's bind address parsed.
pub fn start_servers(config: &Config, tls_addr_ok: bool, plain_addr_ok: bool) -> (o: StartOutcome)
    ensures
        o == spec_start_servers(config.website.bind_ssl_config.enabled, tls_addr_ok, plain_addr_ok),
{
    if config.website.bind_ssl_config.enabled {
        StartOutcome { tls_started: tls_addr_ok, plain_started: false }
    } else {
        StartOutcome { tls_started: false, plain_started: plain_addr_ok }
    }
}

/// An unparsable bind address for one transport never prevents the other
/// transport from starting: each transport's start decision depends only on
/// its own address.
pub proof fn lemma_transport_isolation(
    ssl_enabled: bool,
    tls_ok_a: bool,
    tls_ok_b: bool,
    plain_ok_a: bool,
    plain_ok_b: bool,
)
    ensures
        spec_start_servers(ssl_enabled, tls_ok_a, plain_ok_a).plain_started == spec_start_servers(
            ssl_enabled,
            tls_ok_b,
            plain_ok_a,
        ).plain_started,
        spec_start_servers(ssl_enabled, tls_ok_a, plain_ok_a).tls_started == spec_start_servers(
            ssl_enabled,
            tls_ok_a,
            plain_ok_b,
        ).tls_started,
{
}

/// One event observed by a connection server's accept loop.
#[derive(Debug, Clone, Copy, PartialEq, Eq, Structural)]
pub enum AcceptEvent {
    /// A connection was accepted; for the TLS transport, whether its
    /// handshake succeeded (always true for the plaintext transport).
    Accepted { handshake_ok: bool },
    /// The accept call itself failed.
    AcceptFailed,
}

/// What the accept loop does with one event.  No variant stops the loop:
/// every outcome leads to the next accept.
#[derive(Debug, Clone, Copy, PartialEq, Eq, Structural)]
pub enum LoopAction {
    /// Hand the connection to the dispatch shim in a task of its own.
    ServeConnection,
    /// Log the handshake failure and end only that connection's task.
    DropConnection,
    /// Log the accept error and continue accepting.
    LogAndContinue,
}

/// The loop's response to one event.
pub open spec fn spec_accept_step(ev: AcceptEvent) -> LoopAction {
    match ev {
        AcceptEvent::Accepted { handshake_ok } => if handshake_ok {
            LoopAction::ServeConnection
        } else {
            LoopAction::DropConnection
        },
        AcceptEvent::AcceptFailed => LoopAction::LogAndContinue,
    }
}

/// Responds to one accept-loop event: an accepted connection with a good
/// handshake is served, a failed handshake ends only that connection's task,
/// and a failed accept is logged and the loop continues.
pub fn accept_step(ev: &AcceptEvent) -> (a: LoopAction)
    ensures
        a == spec_accept_step(*ev),
{
    match ev {
        AcceptEvent::Accepted { handshake_ok } => {
            if *handshake_ok {
                LoopAction::ServeConnection
            } else {
                LoopAction::DropConnection
            }
        },
        AcceptEvent::AcceptFailed => LoopAction::LogAndContinue,
    }
}

/// The actions an accept loop takes over a whole trace of events.
pub open spec fn spec_loop_actions(events: Seq<AcceptEvent>) -> Seq<LoopAction> {
    events.map(|i: int, ev: AcceptEvent| spec_accept_step(ev))
}

/// A handshake or accept failure on one connection never prevents a later
/// connection from being accepted and served: the loop responds to every
/// event of its trace, and the response to each event depends on that event
/// alone, whatever happened before or after it.
pub proof fn lemma_connection_isolation(
    events_a: Seq<AcceptEvent>,
    events_b: Seq<AcceptEvent>,
    i: int,
)
    requires
        events_a.len() == events_b.len(),
        0 <= i < events_a.len(),
        events_a[i] == events_b[i],
    ensures
        spec_loop_actions(events_a).len() == events_a.len(),
        spec_loop_actions(events_a)[i] == spec_loop_actions(events_b)[i],
{
    assert(spec_loop_actions(events_a)[i] == spec_accept_step(events_a[i]));
    assert(spec_loop_actions(events_b)[i] == spec_accept_step(events_b[i]));
}

/// The phases of one connection server's lifecycle.
#[derive(Debug, Clone, Copy, PartialEq, Eq, Structural)]
pub enum ServerPhase {
    /// Nothing bound yet.
    Idle,
    /// The bind address resolved and the listening socket is bound.
    Bound,
    /// The accept loop is running.
    Accepting,
}

/// One step of a connection server's lifecycle.
#[derive(Debug, Clone, Copy, PartialEq, Eq, Structural)]
pub enum ServerEvent {
    /// The bind address resolved and the socket bound.
    AddressBound,
    /// The accept loop was entered.
    AcceptLoopEntered,
    /// The accept loop handled one event.
    Loop(AcceptEvent),
}

/// The lifecycle transitions: `Idle` becomes `Bound` on a successful bind,
/// `Bound` becomes `Accepting` when the loop is entered, and no loop event
/// leaves `Accepting` — the lifecycle has no stop state.
pub open spec fn spec_server_transition(phase: ServerPhase, ev: ServerEvent) -> ServerPhase {
    match (phase, ev) {
        (ServerPhase::Idle, ServerEvent::AddressBound) => ServerPhase::Bound,
        (ServerPhase::Bound, ServerEvent::AcceptLoopEntered) => ServerPhase::Accepting,
        (ServerPhase::Accepting, ServerEvent::Loop(_)) => ServerPhase::Accepting,
        (p, _) => p,
    }
}

/// Advances one connection server's lifecycle by one event.
pub fn server_transition(phase: ServerPhase, ev: ServerEvent) -> (next: ServerPhase)
    ensures
        next == spec_server_transition(phase, ev),
{
    match (phase, ev) {
        (ServerPhase::Idle, ServerEvent::AddressBound) => ServerPhase::Bound,
        (ServerPhase::Bound, ServerEvent::AcceptLoopEntered) => ServerPhase::Accepting,
        (ServerPhase::Accepting, ServerEvent::Loop(_)) => ServerPhase::Accepting,
        (p, _) => p,
    }
}

/// The phase an accepting server reaches after a whole trace of loop events.
pub open spec fn spec_run_loop(phase: ServerPhase, events: Seq<AcceptEvent>) -> ServerPhase
    decreases events.len(),
{
    if events.len() == 0 {
        phase
    } else {
        spec_run_loop(spec_server_transition(phase, ServerEvent::Loop(events[0])), events.drop_first())
    }
}

/// Once a connection server is accepting, it accepts forever: no trace of
/// accept-loop events — failed handshakes and failed accepts included — ever
/// leaves the accepting phase.
pub proof fn lemma_accepting_forever(events: Seq<AcceptEvent>)
    ensures
        spec_run_loop(ServerPhase::Accepting, events) == ServerPhase::Accepting,
    decreases events.len(),
{
    if events.len() > 0 {
        lemma_accepting_forever(events.drop_first());
    }
}

/// What the dispatch shim answers for one request-response exchange.
#[derive(Debug, PartialEq, Eq, Structural)]
pub enum DispatchAction {
    /// The pipeline produced a response: forward it.
    ForwardResponse,
    /// The pipeline reported an internal failure: send the fallback response
    /// instead of tearing down the connection.
    SendFallback,
}

/// Decides what one exchange answers: the pipeline's own response exactly
/// when the pipeline succeeded, the fallback response otherwise.
pub fn dispatch_step(pipeline_ok: bool) -> (a: DispatchAction)
    ensures
        (a is ForwardResponse) == pipeline_ok,
{
    if pipeline_ok {
        DispatchAction::ForwardResponse
    } else {
        DispatchAction::SendFallback
    }
}

/// The status code of the fallback response: the generic server-error status.
pub fn fallback_status() -> (s: u16)
    ensures
        s == 500,
{
    500
}

/// The body of the fallback response: a fixed generic text that never carries
/// internal error detail.
pub fn fallback_message() -> (m: String)
    ensures
        m@ == "500 Internal Server Error: An unexpected error occurred"@,
{
    let mut m = String::new();
    m.append("500 Internal Server Error: An unexpected error occurred");
    proof {
        assert(m@ =~= "500 Internal Server Error: An unexpected error occurred"@);
    }
    m
}

} // verus!
