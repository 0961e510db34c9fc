//! The lifecycle controller: from the caller's choice of mode to the
//! terminal outcome, one decision per event.

use crate::error::TunnelError;
use crate::handshake::{connect, register, CallOutcome, HandshakeResponse};
use crate::upgrade::{negotiate, negotiated, TunnelStream, UpgradeError};
use vstd::prelude::*;

verus! {

/// What the caller asks for.
#[derive(Clone, Copy, Debug, PartialEq, Eq, Structural)]
pub enum Mode {
    /// Expose a TCP port: acknowledged, with no tunnel behind it.
    Tcp,
    /// Expose an HTTP port through a tunnel to the server.
    Http,
}

/// What the controller is told.
#[derive(Clone, Copy, Debug, PartialEq, Eq, Structural)]
pub enum Event {
    /// The handshake call that was last asked for has ended.
    Call(CallOutcome),
    /// The transport of the connect response was taken over as a raw stream.
    Upgraded,
    /// The transport could not be taken over.
    UpgradeFailed,
    /// The user interrupts the agent.
    Interrupted,
}

/// What the controller asks for in return.
#[derive(Debug)]
pub enum Action {
    /// Send the registration call.
    SendRegister,
    /// Send the connect call.
    SendConnect,
    /// Take over the transport of the connect response.
    TakeStream,
    /// Split this stream and start the reader and the writer loop.
    StartPump(TunnelStream),
    /// Leave, with this outcome.
    Exit(Result<(), TunnelError>),
    /// The event does not belong to where the controller stands: nothing to
    /// do.
    Ignore,
}

/// An action without what it carries.
#[derive(Clone, Copy, Debug, PartialEq, Eq, Structural)]
pub enum ActionKind {
    SendRegister,
    SendConnect,
    TakeStream,
    StartPump,
    Exit,
    Ignore,
}

impl Action {
    pub open spec fn kind_of(self) -> ActionKind {
        match self {
            Action::SendRegister => ActionKind::SendRegister,
            Action::SendConnect => ActionKind::SendConnect,
            Action::TakeStream => ActionKind::TakeStream,
            Action::StartPump(_) => ActionKind::StartPump,
            Action::Exit(_) => ActionKind::Exit,
            Action::Ignore => ActionKind::Ignore,
        }
    }

    /// Which action this is.
    pub fn kind(&self) -> (kind: ActionKind)
        ensures
            kind == self.kind_of(),
    {
        match self {
            Action::SendRegister => ActionKind::SendRegister,
            Action::SendConnect => ActionKind::SendConnect,
            Action::TakeStream => ActionKind::TakeStream,
            Action::StartPump(_) => ActionKind::StartPump,
            Action::Exit(_) => ActionKind::Exit,
            Action::Ignore => ActionKind::Ignore,
        }
    }
}

/// Where the controller stands.
#[derive(Debug)]
pub enum Phase {
    /// The registration call is under way.
    Registering,
    /// The connect call is under way.
    Connecting,
    /// The server agreed to upgrade; the transport is being taken over.
    Upgrading(TunnelStream),
    /// The pump runs; the controller waits for the interrupt.
    Running,
    /// The flow has ended, with this outcome.
    Finished(Result<(), TunnelError>),
}

/// The controller of one tunnel.
#[derive(Debug)]
pub struct Agent {
    mode: Mode,
    port: u16,
    phase: Phase,
}

/// A controller as plain values.
pub ghost struct AgentView {
    pub mode: Mode,
    pub port: u16,
    pub phase: Phase,
}

impl View for Agent {
    type V = AgentView;

    closed spec fn view(&self) -> AgentView {
        AgentView { mode: self.mode, port: self.port, phase: self.phase }
    }
}

/// The first decision. The TCP mode ends at once and with success; the HTTP
/// mode begins with the registration call.
pub open spec fn agent_start(mode: Mode, port: u16) -> (AgentView, Action) {
    match mode {
        Mode::Tcp => (
            AgentView { mode, port, phase: Phase::Finished(Ok(())) },
            Action::Exit(Ok(())),
        ),
        Mode::Http => (AgentView { mode, port, phase: Phase::Registering }, Action::SendRegister),
    }
}

/// The controller's end with a failure.
pub open spec fn failed(agent: AgentView, error: TunnelError) -> (AgentView, Action) {
    (AgentView { phase: Phase::Finished(Err(error)), ..agent }, Action::Exit(Err(error)))
}

/// One decision. Any reply to the registration leads to the connect call.
/// The reply to the connect call is negotiated: the upgrade status leads to
/// taking over the transport, any other status ends the flow as rejected.
/// Once the transport is taken over, the pump starts with the stream, and
/// only the interrupt ends the flow, with success. A call that could not be
/// sent, or a transport that could not be taken over, ends the flow with
/// `Transport`. Every other event changes nothing.
pub open spec fn agent_step(agent: AgentView, event: Event) -> (AgentView, Action) {
    match (agent.phase, event) {
        (Phase::Registering, Event::Call(CallOutcome::Replied(_))) => (
            AgentView { phase: Phase::Connecting, ..agent },
            Action::SendConnect,
        ),
        (Phase::Registering, Event::Call(CallOutcome::Unreachable)) => failed(
            agent,
            TunnelError::Transport,
        ),
        (Phase::Connecting, Event::Call(CallOutcome::Replied(status))) => match negotiated(
            HandshakeResponse { status },
        ) {
            Ok(stream) => (
                AgentView { phase: Phase::Upgrading(stream), ..agent },
                Action::TakeStream,
            ),
            Err(UpgradeError::Rejected(refused)) => failed(
                agent,
                TunnelError::HandshakeRejected(refused),
            ),
        },
        (Phase::Connecting, Event::Call(CallOutcome::Unreachable)) => failed(
            agent,
            TunnelError::Transport,
        ),
        (Phase::Upgrading(stream), Event::Upgraded) => (
            AgentView { phase: Phase::Running, ..agent },
            Action::StartPump(stream),
        ),
        (Phase::Upgrading(_), Event::UpgradeFailed) => failed(agent, TunnelError::Transport),
        (Phase::Running, Event::Interrupted) => (
            AgentView { phase: Phase::Finished(Ok(())), ..agent },
            Action::Exit(Ok(())),
        ),
        _ => (agent, Action::Ignore),
    }
}

impl Agent {
    /// The mode that the caller chose.
    pub fn mode(&self) -> (mode: Mode)
        ensures
            mode == self@.mode,
    {
        self.mode
    }

    /// The port that the caller exposes.
    pub fn port(&self) -> (port: u16)
        ensures
            port == self@.port,
    {
        self.port
    }

    /// Where the controller stands.
    pub fn phase(&self) -> (phase: &Phase)
        ensures
            *phase == self@.phase,
    {
        &self.phase
    }

    /// Takes the caller's choice and makes the first decision.
    pub fn start(mode: Mode, port: u16) -> (started: (Agent, Action))
        ensures
            (started.0@, started.1) == agent_start(mode, port),
    {
        match mode {
            Mode::Tcp => (
                Agent { mode, port, phase: Phase::Finished(Ok(())) },
                Action::Exit(Ok(())),
            ),
            Mode::Http => (Agent { mode, port, phase: Phase::Registering }, Action::SendRegister),
        }
    }

    /// Ends the flow with a failure.
    fn fail(self, error: TunnelError) -> (next: (Agent, Action))
        ensures
            (next.0@, next.1) == failed(self@, error),
    {
        (
            Agent { mode: self.mode, port: self.port, phase: Phase::Finished(Err(error)) },
            Action::Exit(Err(error)),
        )
    }

    /// Takes an event and makes the next decision.
    pub fn step(self, event: Event) -> (next: (Agent, Action))
        ensures
            (next.0@, next.1) == agent_step(self@, event),
    {
        let Agent { mode, port, phase } = self;
        match phase {
            Phase::Registering => match event {
                Event::Call(outcome) => match register(outcome) {
                    Ok(()) => (Agent { mode, port, phase: Phase::Connecting }, Action::SendConnect),
                    Err(_) => (Agent { mode, port, phase: Phase::Registering }).fail(
                        TunnelError::Transport,
                    ),
                },
                _ => (Agent { mode, port, phase: Phase::Registering }, Action::Ignore),
            },
            Phase::Connecting => match event {
                Event::Call(outcome) => match connect(outcome) {
                    Ok(response) => match negotiate(response) {
                        Ok(stream) => (
                            Agent { mode, port, phase: Phase::Upgrading(stream) },
                            Action::TakeStream,
                        ),
                        Err(UpgradeError::Rejected(refused)) => (Agent {
                            mode,
                            port,
                            phase: Phase::Connecting,
                        }).fail(TunnelError::HandshakeRejected(refused)),
                    },
                    Err(_) => (Agent { mode, port, phase: Phase::Connecting }).fail(
                        TunnelError::Transport,
                    ),
                },
                _ => (Agent { mode, port, phase: Phase::Connecting }, Action::Ignore),
            },
            Phase::Upgrading(stream) => match event {
                Event::Upgraded => (
                    Agent { mode, port, phase: Phase::Running },
                    Action::StartPump(stream),
                ),
                Event::UpgradeFailed => (Agent {
                    mode,
                    port,
                    phase: Phase::Upgrading(stream),
                }).fail(TunnelError::Transport),
                _ => (Agent { mode, port, phase: Phase::Upgrading(stream) }, Action::Ignore),
            },
            Phase::Running => match event {
                Event::Interrupted => (
                    Agent { mode, port, phase: Phase::Finished(Ok(())) },
                    Action::Exit(Ok(())),
                ),
                _ => (Agent { mode, port, phase: Phase::Running }, Action::Ignore),
            },
            Phase::Finished(outcome) => (
                Agent { mode, port, phase: Phase::Finished(outcome) },
                Action::Ignore,
            ),
        }
    }
}

} // verus!
