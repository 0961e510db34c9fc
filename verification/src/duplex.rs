//! What holds of the two loops over whole runs: how each one ends, what the
//! writer sends while it lives, and that neither half touches the other.

use crate::error::TunnelError;
use crate::keepalive::keepalive_text;
use crate::pump::{
    reader_after, reader_step, writer_after, writer_step, ReadEventView, ReaderActionView,
    ReaderState, WriteEvent, WriteHalfView, WriterActionView, WriterState,
    KEEPALIVE_INTERVAL_SECS,
};
use vstd::prelude::*;

verus! {

/// A reader loop that has ended stays ended, with the same reason, whatever
/// is reported to it afterwards.
pub proof fn stopped_reader_stays_stopped(state: ReaderState, events: Seq<ReadEventView>)
    requires
        state is Stopped,
    ensures
        reader_after(state, events) == state,
    decreases events.len(),
{
    if events.len() > 0 {
        stopped_reader_stays_stopped(state, events.drop_last());
    }
}

/// A read that brings no bytes ends the reader loop at once with
/// `PeerClosed`, and no report that follows makes the loop deliver or read
/// again: its answer is the same stop ever after.
pub proof fn empty_read_ends_reader(later: Seq<ReadEventView>, next: ReadEventView)
    ensures
        ({
            let closed = reader_step(
                ReaderState::Reading,
                ReadEventView::Received(Seq::<u8>::empty()),
            );
            &&& closed.0 == ReaderState::Stopped(TunnelError::PeerClosed)
            &&& closed.1 == ReaderActionView::Stop(TunnelError::PeerClosed)
            &&& reader_after(closed.0, later) == closed.0
            &&& reader_step(reader_after(closed.0, later), next) == closed
        }),
{
    stopped_reader_stays_stopped(ReaderState::Stopped(TunnelError::PeerClosed), later);
}

/// A failed read ends the reader loop with `StreamIo`, and the loop does not
/// read again.
pub proof fn failed_read_ends_reader(later: Seq<ReadEventView>, next: ReadEventView)
    ensures
        ({
            let failed = reader_step(ReaderState::Reading, ReadEventView::Failed);
            &&& failed.0 == ReaderState::Stopped(TunnelError::StreamIo)
            &&& failed.1 == ReaderActionView::Stop(TunnelError::StreamIo)
            &&& reader_step(reader_after(failed.0, later), next) == failed
        }),
{
    stopped_reader_stays_stopped(ReaderState::Stopped(TunnelError::StreamIo), later);
}

/// While bytes keep coming, the reader loop keeps reading.
pub proof fn reader_reads_on(events: Seq<ReadEventView>)
    requires
        forall|i: int|
            0 <= i < events.len() ==> (#[trigger] events[i] matches ReadEventView::Received(bytes)
                && bytes.len() > 0),
    ensures
        reader_after(ReaderState::Reading, events) == ReaderState::Reading,
    decreases events.len(),
{
    if events.len() > 0 {
        let earlier = events.drop_last();
        assert forall|i: int| 0 <= i < earlier.len() implies (
        #[trigger] earlier[i] matches ReadEventView::Received(bytes) && bytes.len() > 0) by {
            assert(earlier[i] == events[i]);
        }
        reader_reads_on(earlier);
        assert(events.last() == events[events.len() - 1]);
    }
}

/// No event changes the identity or the port that a writer's frames carry.
pub proof fn writer_keeps_identity_and_port(writer: WriteHalfView, events: Seq<WriteEvent>)
    ensures
        writer_after(writer, events).agent_id == writer.agent_id,
        writer_after(writer, events).port == writer.port,
    decreases events.len(),
{
    if events.len() > 0 {
        writer_keeps_identity_and_port(writer, events.drop_last());
    }
}

/// Whatever has happened before, a frame that the writer sends is the
/// keep-alive frame of the identity and the port that it was started with,
/// and a pause that it asks for is the keep-alive interval.
pub proof fn writer_sends_only_keepalive(
    writer: WriteHalfView,
    earlier: Seq<WriteEvent>,
    event: WriteEvent,
)
    ensures
        ({
            let action = writer_step(writer_after(writer, earlier), event).1;
            &&& action matches WriterActionView::Write(frame) ==> frame == keepalive_text(
                writer.agent_id,
                writer.port,
            )
            &&& action matches WriterActionView::Sleep(seconds) ==> seconds
                == KEEPALIVE_INTERVAL_SECS
        }),
{
    writer_keeps_identity_and_port(writer, earlier);
}

/// The events of `rounds` frames that were each written in full: due,
/// written, due, written, and so on.
pub open spec fn steady_rounds(rounds: nat) -> Seq<WriteEvent>
    decreases rounds,
{
    if rounds == 0 {
        Seq::<WriteEvent>::empty()
    } else {
        steady_rounds((rounds - 1) as nat).push(WriteEvent::Due).push(WriteEvent::Written)
    }
}

/// As long as every write succeeds, the writer goes round without end: in
/// each round it sends the keep-alive frame when the frame falls due, and
/// asks for the keep-alive interval once the frame is written.
pub proof fn writer_keeps_cadence(writer: WriteHalfView, rounds: nat)
    requires
        writer.state == WriterState::Waiting,
    ensures
        ({
            let now = writer_after(writer, steady_rounds(rounds));
            let sending = writer_step(now, WriteEvent::Due);
            let pausing = writer_step(sending.0, WriteEvent::Written);
            &&& now == writer
            &&& sending.1 == WriterActionView::Write(keepalive_text(writer.agent_id, writer.port))
            &&& pausing.1 == WriterActionView::Sleep(KEEPALIVE_INTERVAL_SECS)
            &&& pausing.0 == writer
        }),
    decreases rounds,
{
    if rounds > 0 {
        writer_keeps_cadence(writer, (rounds - 1) as nat);
        let before = steady_rounds((rounds - 1) as nat);
        let due = before.push(WriteEvent::Due);
        let all = due.push(WriteEvent::Written);
        assert(all.drop_last() =~= due);
        assert(due.drop_last() =~= before);
        assert(all.last() == WriteEvent::Written);
        assert(due.last() == WriteEvent::Due);
        let at_start = writer_after(writer, before);
        assert(writer_after(writer, due) == writer_step(at_start, due.last()).0);
        assert(writer_after(writer, all) == writer_step(writer_after(writer, due), all.last()).0);
    }
}

/// A writer loop that has ended stays ended, with the same reason.
pub proof fn stopped_writer_stays_stopped(writer: WriteHalfView, events: Seq<WriteEvent>)
    requires
        writer.state is Stopped,
    ensures
        writer_after(writer, events) == writer,
    decreases events.len(),
{
    if events.len() > 0 {
        stopped_writer_stays_stopped(writer, events.drop_last());
    }
}

/// A failed write ends the writer loop with `StreamIo`: no frame is sent and
/// no pause is asked for afterwards.
pub proof fn failed_write_ends_writer(
    writer: WriteHalfView,
    later: Seq<WriteEvent>,
    next: WriteEvent,
)
    requires
        writer.state == WriterState::Writing,
    ensures
        ({
            let failed = writer_step(writer, WriteEvent::Failed);
            &&& failed.0.state == WriterState::Stopped(TunnelError::StreamIo)
            &&& failed.1 == WriterActionView::Stop(TunnelError::StreamIo)
            &&& writer_step(writer_after(failed.0, later), next) == failed
        }),
{
    stopped_writer_stays_stopped(writer_step(writer, WriteEvent::Failed).0, later);
}

/// Something that happens on one of the two halves.
pub ghost enum PumpEvent {
    Read(ReadEventView),
    Write(WriteEvent),
}

/// The two halves after an event on one of them: each event is handed to the
/// loop that owns the half, and to no one else.
pub open spec fn pump_step(halves: (ReaderState, WriteHalfView), event: PumpEvent) -> (
    ReaderState,
    WriteHalfView,
) {
    match event {
        PumpEvent::Read(read) => (reader_step(halves.0, read).0, halves.1),
        PumpEvent::Write(write) => (halves.0, writer_step(halves.1, write).0),
    }
}

/// The two halves after a run of events in any interleaving.
pub open spec fn pump_after(halves: (ReaderState, WriteHalfView), events: Seq<PumpEvent>) -> (
    ReaderState,
    WriteHalfView,
)
    decreases events.len(),
{
    if events.len() == 0 {
        halves
    } else {
        pump_step(pump_after(halves, events.drop_last()), events.last())
    }
}

/// The reads among a run of events, in their order.
pub open spec fn reads_of(events: Seq<PumpEvent>) -> Seq<ReadEventView>
    decreases events.len(),
{
    if events.len() == 0 {
        Seq::<ReadEventView>::empty()
    } else {
        match events.last() {
            PumpEvent::Read(read) => reads_of(events.drop_last()).push(read),
            PumpEvent::Write(_) => reads_of(events.drop_last()),
        }
    }
}

/// The writer's events among a run of events, in their order.
pub open spec fn writes_of(events: Seq<PumpEvent>) -> Seq<WriteEvent>
    decreases events.len(),
{
    if events.len() == 0 {
        Seq::<WriteEvent>::empty()
    } else {
        match events.last() {
            PumpEvent::Read(_) => writes_of(events.drop_last()),
            PumpEvent::Write(write) => writes_of(events.drop_last()).push(write),
        }
    }
}

/// The halves are independent: however reads and writes interleave, the
/// reader ends up where its own reads alone would have taken it, and the
/// writer where its own events alone would have taken it.
pub proof fn halves_are_independent(halves: (ReaderState, WriteHalfView), events: Seq<PumpEvent>)
    ensures
        pump_after(halves, events).0 == reader_after(halves.0, reads_of(events)),
        pump_after(halves, events).1 == writer_after(halves.1, writes_of(events)),
    decreases events.len(),
{
    if events.len() > 0 {
        let earlier = events.drop_last();
        halves_are_independent(halves, earlier);
        match events.last() {
            PumpEvent::Read(read) => {
                let reads = reads_of(earlier).push(read);
                assert(reads.drop_last() =~= reads_of(earlier));
                assert(reads.last() == read);
            },
            PumpEvent::Write(write) => {
                let writes = writes_of(earlier).push(write);
                assert(writes.drop_last() =~= writes_of(earlier));
                assert(writes.last() == write);
            },
        }
    }
}

/// A write failure does not stop the reader: a reader that is reading still
/// delivers the bytes of its next read, and reads on. And a closed or failed
/// read does not stop the writer: a writer whose frame is due still sends it.
pub proof fn fault_on_one_half_spares_the_other(
    writer: WriteHalfView,
    bytes: Seq<u8>,
    read: ReadEventView,
)
    requires
        bytes.len() > 0,
    ensures
        ({
            let after_fault = pump_step(
                (ReaderState::Reading, writer),
                PumpEvent::Write(WriteEvent::Failed),
            );
            let then = reader_step(after_fault.0, ReadEventView::Received(bytes));
            &&& after_fault.0 == ReaderState::Reading
            &&& then.0 == ReaderState::Reading
            &&& then.1 is Deliver
        }),
        ({
            let after_read = pump_step((ReaderState::Reading, writer), PumpEvent::Read(read));
            after_read.1 == writer
        }),
        writer.state == WriterState::Waiting ==> writer_step(
            pump_step((ReaderState::Reading, writer), PumpEvent::Read(read)).1,
            WriteEvent::Due,
        ).1 is Write,
{
}

} // verus!
