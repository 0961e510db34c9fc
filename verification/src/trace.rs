//! What holds of the controller over whole runs: the order of the handshake
//! calls, and that nothing happens after the end.

use crate::agent::{agent_start, agent_step, Action, ActionKind, AgentView, Event, Mode, Phase};
use crate::error::TunnelError;
use crate::handshake::{CallOutcome, HandshakeResponse, SWITCHING_PROTOCOLS};
use crate::upgrade::TunnelStream;
use vstd::prelude::*;

verus! {

/// The controller after its start and a run of events.
pub open spec fn agent_after(mode: Mode, port: u16, events: Seq<Event>) -> AgentView
    decreases events.len(),
{
    if events.len() == 0 {
        agent_start(mode, port).0
    } else {
        agent_step(agent_after(mode, port, events.drop_last()), events.last()).0
    }
}

/// Everything the controller asked for, in order: the action of its start,
/// then one action for each event.
pub open spec fn agent_trace(mode: Mode, port: u16, events: Seq<Event>) -> Seq<Action>
    decreases events.len(),
{
    if events.len() == 0 {
        seq![agent_start(mode, port).1]
    } else {
        agent_trace(mode, port, events.drop_last()).push(
            agent_step(agent_after(mode, port, events.drop_last()), events.last()).1,
        )
    }
}

/// How often an action of one kind stands in a trace.
pub open spec fn occurrences(trace: Seq<Action>, kind: ActionKind) -> nat
    decreases trace.len(),
{
    if trace.len() == 0 {
        0
    } else {
        occurrences(trace.drop_last(), kind) + if trace.last().kind_of() == kind {
            1nat
        } else {
            0nat
        }
    }
}

/// What the phase says of the trace that led to it.
pub open spec fn phase_accounts_for(phase: Phase, trace: Seq<Action>) -> bool {
    let connects = occurrences(trace, ActionKind::SendConnect);
    let takes = occurrences(trace, ActionKind::TakeStream);
    let pumps = occurrences(trace, ActionKind::StartPump);
    match phase {
        Phase::Registering => connects == 0 && takes == 0 && pumps == 0,
        Phase::Connecting => connects == 1 && takes == 0 && pumps == 0,
        Phase::Upgrading(_) => connects == 1 && takes == 1 && pumps == 0,
        Phase::Running => connects == 1 && takes == 1 && pumps == 1,
        Phase::Finished(_) => pumps <= takes <= connects <= 1,
    }
}

/// The handshake comes first and comes once: the trace opens with the one
/// registration call, holds at most one connect call, and before the pump
/// starts exactly one of each has been asked for.
pub open spec fn handshake_precedes_pump(trace: Seq<Action>) -> bool {
    &&& trace.len() >= 1
    &&& trace[0] == Action::SendRegister
    &&& occurrences(trace, ActionKind::SendRegister) == 1
    &&& occurrences(trace, ActionKind::SendConnect) <= 1
    &&& occurrences(trace, ActionKind::StartPump) <= 1
    &&& forall|k: int|
        0 <= k < trace.len() && (#[trigger] trace[k]).kind_of() == ActionKind::StartPump ==> {
            &&& occurrences(trace.take(k), ActionKind::SendRegister) == 1
            &&& occurrences(trace.take(k), ActionKind::SendConnect) == 1
        }
}

/// Every registration call in the trace stands before every connect call.
pub open spec fn register_before_connect(trace: Seq<Action>) -> bool {
    forall|i: int, j: int|
        0 <= i < trace.len() && 0 <= j < trace.len() && (#[trigger] trace[i]).kind_of()
            == ActionKind::SendRegister && (#[trigger] trace[j]).kind_of()
            == ActionKind::SendConnect ==> i < j
}

proof fn occurrences_of_push(trace: Seq<Action>, action: Action, kind: ActionKind)
    ensures
        occurrences(trace.push(action), kind) == occurrences(trace, kind) + if action.kind_of()
            == kind {
            1nat
        } else {
            0nat
        },
{
    assert(trace.push(action).drop_last() =~= trace);
    assert(trace.push(action).last() == action);
}

proof fn trace_is_accounted_for(port: u16, events: Seq<Event>)
    ensures
        agent_trace(Mode::Http, port, events).len() == events.len() + 1,
        phase_accounts_for(
            agent_after(Mode::Http, port, events).phase,
            agent_trace(Mode::Http, port, events),
        ),
        handshake_precedes_pump(agent_trace(Mode::Http, port, events)),
    decreases events.len(),
{
    let trace = agent_trace(Mode::Http, port, events);
    if events.len() == 0 {
        let first = Action::SendRegister;
        assert(trace =~= Seq::<Action>::empty().push(first));
        occurrences_of_push(Seq::<Action>::empty(), first, ActionKind::SendRegister);
        occurrences_of_push(Seq::<Action>::empty(), first, ActionKind::SendConnect);
        occurrences_of_push(Seq::<Action>::empty(), first, ActionKind::TakeStream);
        occurrences_of_push(Seq::<Action>::empty(), first, ActionKind::StartPump);
    } else {
        let earlier = events.drop_last();
        trace_is_accounted_for(port, earlier);
        let before = agent_trace(Mode::Http, port, earlier);
        let agent = agent_after(Mode::Http, port, earlier);
        let action = agent_step(agent, events.last()).1;
        assert(trace == before.push(action));
        occurrences_of_push(before, action, ActionKind::SendRegister);
        occurrences_of_push(before, action, ActionKind::SendConnect);
        occurrences_of_push(before, action, ActionKind::TakeStream);
        occurrences_of_push(before, action, ActionKind::StartPump);
        assert(trace[0] == before[0]);
        assert forall|k: int|
            0 <= k < trace.len() && (#[trigger] trace[k]).kind_of()
                == ActionKind::StartPump implies {
            &&& occurrences(trace.take(k), ActionKind::SendRegister) == 1
            &&& occurrences(trace.take(k), ActionKind::SendConnect) == 1
        } by {
            if k < before.len() {
                assert(trace[k] == before[k]);
                assert(trace.take(k) =~= before.take(k));
            } else {
                assert(trace[k] == action);
                assert(trace.take(k) =~= before);
            }
        }
    }
}

/// In the HTTP mode, for every port and whatever is reported in whatever
/// order, the controller asks for the registration call first and once, for
/// the connect call at most once and after it, and starts the pump only when
/// exactly one registration call and exactly one connect call have gone
/// before.
pub proof fn handshake_goes_first(port: u16, events: Seq<Event>)
    ensures
        handshake_precedes_pump(agent_trace(Mode::Http, port, events)),
        register_before_connect(agent_trace(Mode::Http, port, events)),
{
    trace_is_accounted_for(port, events);
    let trace = agent_trace(Mode::Http, port, events);
    assert forall|i: int, j: int|
        0 <= i < trace.len() && 0 <= j < trace.len() && (#[trigger] trace[i]).kind_of()
            == ActionKind::SendRegister && (#[trigger] trace[j]).kind_of()
            == ActionKind::SendConnect implies i < j by {
        only_one_at(trace, ActionKind::SendRegister, 0, i);
    }
}

/// An action of a kind that stands once in a trace stands at one place only.
proof fn only_one_at(trace: Seq<Action>, kind: ActionKind, first: int, second: int)
    requires
        occurrences(trace, kind) == 1,
        0 <= first < trace.len(),
        0 <= second < trace.len(),
        trace[first].kind_of() == kind,
        trace[second].kind_of() == kind,
    ensures
        first == second,
    decreases trace.len(),
{
    let last = trace.len() - 1;
    let shorter = trace.drop_last();
    if first == last || second == last {
        if first != second {
            let other = if first == last {
                second
            } else {
                first
            };
            assert(shorter[other] == trace[other]);
            at_least_one(shorter, kind, other);
        }
    } else {
        assert(shorter[first] == trace[first]);
        assert(shorter[second] == trace[second]);
        at_least_one(shorter, kind, first);
        only_one_at(shorter, kind, first, second);
    }
}

/// An action that stands in a trace is counted.
proof fn at_least_one(trace: Seq<Action>, kind: ActionKind, at: int)
    requires
        0 <= at < trace.len(),
        trace[at].kind_of() == kind,
    ensures
        occurrences(trace, kind) >= 1,
    decreases trace.len(),
{
    if at < trace.len() - 1 {
        assert(trace.drop_last()[at] == trace[at]);
        at_least_one(trace.drop_last(), kind, at);
    }
}

/// Every stream that the controller holds or hands out came from a response
/// with the upgrade status.
pub open spec fn streams_are_upgraded(phase: Phase, trace: Seq<Action>) -> bool {
    &&& phase matches Phase::Upgrading(stream) ==> stream.origin().status == SWITCHING_PROTOCOLS
    &&& forall|k: int|
        0 <= k < trace.len() ==> (#[trigger] trace[k] matches Action::StartPump(stream)
            ==> stream.origin().status == SWITCHING_PROTOCOLS)
}

/// In either mode and whatever is reported, the pump is only ever started
/// with a stream that was made from a connect response with the upgrade
/// status.
pub proof fn pump_starts_on_upgraded_stream(mode: Mode, port: u16, events: Seq<Event>)
    ensures
        streams_are_upgraded(
            agent_after(mode, port, events).phase,
            agent_trace(mode, port, events),
        ),
    decreases events.len(),
{
    let trace = agent_trace(mode, port, events);
    if events.len() > 0 {
        let earlier = events.drop_last();
        pump_starts_on_upgraded_stream(mode, port, earlier);
        let before = agent_trace(mode, port, earlier);
        if let Event::Call(CallOutcome::Replied(status)) = events.last() {
            TunnelStream::origin_of(HandshakeResponse { status });
        }
        assert forall|k: int| 0 <= k < trace.len() implies (
        #[trigger] trace[k] matches Action::StartPump(stream) ==> stream.origin().status
            == SWITCHING_PROTOCOLS) by {
            if k < before.len() {
                assert(trace[k] == before[k]);
            }
        }
    }
}

/// Once the flow has ended, the controller stays where it is and asks for
/// nothing more, whatever is reported to it.
pub proof fn finished_is_final(agent: AgentView, event: Event)
    requires
        agent.phase is Finished,
    ensures
        agent_step(agent, event) == (agent, Action::Ignore),
{
}

/// The TCP mode ends at once with success and never asks for a handshake
/// call or a pump.
pub proof fn tcp_mode_opens_no_tunnel(port: u16, events: Seq<Event>)
    ensures
        agent_after(Mode::Tcp, port, events).phase == Phase::Finished(Ok(())),
        agent_trace(Mode::Tcp, port, events)[0] == Action::Exit(Ok(())),
        agent_trace(Mode::Tcp, port, events).len() == events.len() + 1,
        forall|k: int|
            1 <= k <= events.len() ==> #[trigger] agent_trace(Mode::Tcp, port, events)[k]
                == Action::Ignore,
    decreases events.len(),
{
    if events.len() > 0 {
        tcp_mode_opens_no_tunnel(port, events.drop_last());
        let before = agent_trace(Mode::Tcp, port, events.drop_last());
        let trace = agent_trace(Mode::Tcp, port, events);
        assert forall|k: int| 1 <= k <= events.len() implies #[trigger] trace[k]
            == Action::Ignore by {
            if k < events.len() {
                assert(trace[k] == before[k]);
            }
        }
    }
}

/// A registration call that could not be sent ends the flow with
/// `Transport`, and the connect call is never asked for.
pub proof fn failed_registration_ends_flow(port: u16, later: Seq<Event>)
    ensures
        ({
            let events = seq![Event::Call(CallOutcome::Unreachable)] + later;
            let trace = agent_trace(Mode::Http, port, events);
            &&& agent_after(Mode::Http, port, events).phase == Phase::Finished(
                Err(TunnelError::Transport),
            )
            &&& occurrences(trace, ActionKind::SendConnect) == 0
            &&& occurrences(trace, ActionKind::StartPump) == 0
        }),
    decreases later.len(),
{
    let first = seq![Event::Call(CallOutcome::Unreachable)];
    let events = first + later;
    let opening = Seq::<Action>::empty().push(Action::SendRegister);
    if later.len() == 0 {
        assert(events =~= first);
        assert(events.drop_last() =~= Seq::<Event>::empty());
        assert(agent_trace(Mode::Http, port, events.drop_last()) =~= opening);
        occurrences_of_push(Seq::<Action>::empty(), Action::SendRegister, ActionKind::SendConnect);
        occurrences_of_push(Seq::<Action>::empty(), Action::SendRegister, ActionKind::StartPump);
    } else {
        failed_registration_ends_flow(port, later.drop_last());
        assert(events.drop_last() =~= first + later.drop_last());
        assert(events.last() == later.last());
    }
    let before = agent_trace(Mode::Http, port, events.drop_last());
    let action = agent_step(agent_after(Mode::Http, port, events.drop_last()), events.last()).1;
    occurrences_of_push(before, action, ActionKind::SendConnect);
    occurrences_of_push(before, action, ActionKind::StartPump);
}

} // verus!
