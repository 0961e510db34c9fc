//! The duplex pump: the reader loop that drains the stream and the writer
//! loop that sends keep-alive frames, each as a machine that is told what
//! happened on its half and answers with what to do next.

use crate::error::TunnelError;
use crate::keepalive::{keepalive_message, keepalive_text};
use crate::upgrade::TunnelStream;
use vstd::prelude::*;
use vstd::string::*;
use vstd::utf8::*;

verus! {

/// How many bytes one read may bring at most.
pub const READ_BUFFER_SIZE: usize = 4096;

/// The pause between two keep-alive frames, in seconds.
pub const KEEPALIVE_INTERVAL_SECS: u64 = 3;

/// The text that `String::from_utf8_lossy` makes of a run of bytes.
pub uninterp spec fn utf8_lossy_text(bytes: Seq<u8>) -> Seq<char>;

/// Decodes bytes as text with `String::from_utf8_lossy`, which puts the
/// replacement character in place of each invalid sequence. The contract
/// names the decoded text, and claims that bytes which are valid UTF-8 come
/// out as the characters they encode.
#[verifier::external_body]
fn lossy_text(bytes: &[u8]) -> (text: String)
    ensures
        text@ == utf8_lossy_text(bytes@),
        valid_utf8(bytes@) ==> text@ == decode_utf8(bytes@),
{
    String::from_utf8_lossy(bytes).into_owned()
}

/// The diagnostic text for bytes that came in from the server.
pub fn inbound_text(bytes: &[u8]) -> (text: String)
    ensures
        text@ == utf8_lossy_text(bytes@),
        valid_utf8(bytes@) ==> text@ == decode_utf8(bytes@),
{
    lossy_text(bytes)
}

/// Where the reader loop stands.
#[derive(Clone, Copy, Debug, PartialEq, Eq, Structural)]
pub enum ReaderState {
    /// The loop is reading.
    Reading,
    /// The loop has ended, for this reason.
    Stopped(TunnelError),
}

/// What one read on the stream brought.
#[derive(Clone, Debug, PartialEq, Eq)]
pub enum ReadEvent {
    /// The bytes that were read; none means that the server closed.
    Received(Vec<u8>),
    /// The read failed.
    Failed,
}

/// A read's result over plain sequences.
pub ghost enum ReadEventView {
    Received(Seq<u8>),
    Failed,
}

impl View for ReadEvent {
    type V = ReadEventView;

    open spec fn view(&self) -> ReadEventView {
        match self {
            ReadEvent::Received(bytes) => ReadEventView::Received(bytes@),
            ReadEvent::Failed => ReadEventView::Failed,
        }
    }
}

/// What the reader loop does after a read.
#[derive(Clone, Debug, PartialEq, Eq)]
pub enum ReaderAction {
    /// Show the text of what came in, then read again.
    Deliver(String),
    /// Report the reason and end the loop.
    Stop(TunnelError),
}

/// A reader's answer over plain sequences.
pub ghost enum ReaderActionView {
    Deliver(Seq<char>),
    Stop(TunnelError),
}

impl View for ReaderAction {
    type V = ReaderActionView;

    open spec fn view(&self) -> ReaderActionView {
        match self {
            ReaderAction::Deliver(text) => ReaderActionView::Deliver(text@),
            ReaderAction::Stop(reason) => ReaderActionView::Stop(*reason),
        }
    }
}

/// One turn of the reader loop: a read without bytes ends it with
/// `PeerClosed`, a failed read ends it with `StreamIo`, bytes are shown as
/// text and the loop reads on. A loop that has ended stays ended and repeats
/// its reason.
pub open spec fn reader_step(state: ReaderState, event: ReadEventView) -> (
    ReaderState,
    ReaderActionView,
) {
    match state {
        ReaderState::Stopped(reason) => (state, ReaderActionView::Stop(reason)),
        ReaderState::Reading => match event {
            ReadEventView::Failed => (
                ReaderState::Stopped(TunnelError::StreamIo),
                ReaderActionView::Stop(TunnelError::StreamIo),
            ),
            ReadEventView::Received(bytes) => if bytes.len() == 0 {
                (
                    ReaderState::Stopped(TunnelError::PeerClosed),
                    ReaderActionView::Stop(TunnelError::PeerClosed),
                )
            } else {
                (ReaderState::Reading, ReaderActionView::Deliver(utf8_lossy_text(bytes)))
            },
        },
    }
}

/// The reader's state after a run of reads.
pub open spec fn reader_after(state: ReaderState, events: Seq<ReadEventView>) -> ReaderState
    decreases events.len(),
{
    if events.len() == 0 {
        state
    } else {
        reader_step(reader_after(state, events.drop_last()), events.last()).0
    }
}

/// The half of the stream that is read from, owned by the reader loop.
#[derive(Debug)]
pub struct ReadHalf {
    state: ReaderState,
}

impl View for ReadHalf {
    type V = ReaderState;

    closed spec fn view(&self) -> ReaderState {
        self.state
    }
}

impl ReadHalf {
    /// Where the loop stands.
    pub fn state(&self) -> (state: ReaderState)
        ensures
            state == self@,
    {
        self.state
    }

    /// Takes the result of one read and says what the loop does next.
    pub fn on_read(&mut self, event: ReadEvent) -> (action: ReaderAction)
        ensures
            (final(self)@, action@) == reader_step(old(self)@, event@),
    {
        match self.state {
            ReaderState::Stopped(reason) => ReaderAction::Stop(reason),
            ReaderState::Reading => match event {
                ReadEvent::Failed => {
                    self.state = ReaderState::Stopped(TunnelError::StreamIo);
                    ReaderAction::Stop(TunnelError::StreamIo)
                },
                ReadEvent::Received(bytes) => {
                    if bytes.len() == 0 {
                        self.state = ReaderState::Stopped(TunnelError::PeerClosed);
                        ReaderAction::Stop(TunnelError::PeerClosed)
                    } else {
                        ReaderAction::Deliver(lossy_text(bytes.as_slice()))
                    }
                },
            },
        }
    }
}

/// Where the writer loop stands.
#[derive(Clone, Copy, Debug, PartialEq, Eq, Structural)]
pub enum WriterState {
    /// Between two frames: the next one is sent when it falls due.
    Waiting,
    /// A frame is being written.
    Writing,
    /// The loop has ended, for this reason.
    Stopped(TunnelError),
}

/// What happened on the writer's side.
#[derive(Clone, Copy, Debug, PartialEq, Eq, Structural)]
pub enum WriteEvent {
    /// A frame is due: the loop has just started, or the pause is over.
    Due,
    /// The frame was written in full.
    Written,
    /// The write failed.
    Failed,
}

/// What the writer loop does next.
#[derive(Clone, Debug, PartialEq, Eq)]
pub enum WriterAction {
    /// Write this frame to the stream.
    Write(String),
    /// Pause for this many seconds.
    Sleep(u64),
    /// Report the reason and end the loop.
    Stop(TunnelError),
    /// The event does not belong to where the loop stands: nothing to do.
    Ignore,
}

/// A writer's answer over plain sequences.
pub ghost enum WriterActionView {
    Write(Seq<char>),
    Sleep(u64),
    Stop(TunnelError),
    Ignore,
}

impl View for WriterAction {
    type V = WriterActionView;

    open spec fn view(&self) -> WriterActionView {
        match self {
            WriterAction::Write(frame) => WriterActionView::Write(frame@),
            WriterAction::Sleep(seconds) => WriterActionView::Sleep(*seconds),
            WriterAction::Stop(reason) => WriterActionView::Stop(*reason),
            WriterAction::Ignore => WriterActionView::Ignore,
        }
    }
}

/// The half of the stream that is written to, owned by the writer loop,
/// with the identity and the port that its frames carry.
#[derive(Debug)]
pub struct WriteHalf {
    agent_id: String,
    port: u16,
    state: WriterState,
}

/// A writer over plain sequences.
pub ghost struct WriteHalfView {
    pub agent_id: Seq<char>,
    pub port: u16,
    pub state: WriterState,
}

impl View for WriteHalf {
    type V = WriteHalfView;

    closed spec fn view(&self) -> WriteHalfView {
        WriteHalfView { agent_id: self.agent_id@, port: self.port, state: self.state }
    }
}

/// One turn of the writer loop. A frame that falls due is written; after a
/// full write the loop pauses for the keep-alive interval; a failed write
/// ends the loop with `StreamIo`. A loop that has ended stays ended and
/// repeats its reason. An event that does not belong to the state changes
/// nothing.
pub open spec fn writer_step(writer: WriteHalfView, event: WriteEvent) -> (
    WriteHalfView,
    WriterActionView,
) {
    match (writer.state, event) {
        (WriterState::Stopped(reason), _) => (writer, WriterActionView::Stop(reason)),
        (WriterState::Waiting, WriteEvent::Due) => (
            WriteHalfView { state: WriterState::Writing, ..writer },
            WriterActionView::Write(keepalive_text(writer.agent_id, writer.port)),
        ),
        (WriterState::Writing, WriteEvent::Written) => (
            WriteHalfView { state: WriterState::Waiting, ..writer },
            WriterActionView::Sleep(KEEPALIVE_INTERVAL_SECS),
        ),
        (WriterState::Writing, WriteEvent::Failed) => (
            WriteHalfView { state: WriterState::Stopped(TunnelError::StreamIo), ..writer },
            WriterActionView::Stop(TunnelError::StreamIo),
        ),
        _ => (writer, WriterActionView::Ignore),
    }
}

/// The writer after a run of events.
pub open spec fn writer_after(writer: WriteHalfView, events: Seq<WriteEvent>) -> WriteHalfView
    decreases events.len(),
{
    if events.len() == 0 {
        writer
    } else {
        writer_step(writer_after(writer, events.drop_last()), events.last()).0
    }
}

impl WriteHalf {
    /// The identity that the frames carry.
    pub fn agent_id(&self) -> (agent_id: &str)
        ensures
            agent_id@ == self@.agent_id,
    {
        self.agent_id.as_str()
    }

    /// The port that the frames carry.
    pub fn port(&self) -> (port: u16)
        ensures
            port == self@.port,
    {
        self.port
    }

    /// Where the loop stands.
    pub fn state(&self) -> (state: WriterState)
        ensures
            state == self@.state,
    {
        self.state
    }

    /// Takes what happened on the writer's side and says what the loop does
    /// next.
    pub fn on_event(&mut self, event: WriteEvent) -> (action: WriterAction)
        ensures
            (final(self)@, action@) == writer_step(old(self)@, event),
    {
        match self.state {
            WriterState::Stopped(reason) => WriterAction::Stop(reason),
            WriterState::Waiting => match event {
                WriteEvent::Due => {
                    self.state = WriterState::Writing;
                    WriterAction::Write(keepalive_message(self.agent_id.as_str(), self.port))
                },
                _ => WriterAction::Ignore,
            },
            WriterState::Writing => match event {
                WriteEvent::Written => {
                    self.state = WriterState::Waiting;
                    WriterAction::Sleep(KEEPALIVE_INTERVAL_SECS)
                },
                WriteEvent::Failed => {
                    self.state = WriterState::Stopped(TunnelError::StreamIo);
                    WriterAction::Stop(TunnelError::StreamIo)
                },
                WriteEvent::Due => WriterAction::Ignore,
            },
        }
    }
}

/// Splits the stream into its two halves, which share nothing from here on:
/// a reader that is reading, and a writer whose first frame is yet to fall
/// due. The stream is used up.
pub fn run(stream: TunnelStream, agent_id: &str, port: u16) -> (halves: (ReadHalf, WriteHalf))
    ensures
        halves.0@ == ReaderState::Reading,
        halves.1@ == (WriteHalfView {
            agent_id: agent_id@,
            port: port,
            state: WriterState::Waiting,
        }),
{
    let reader = ReadHalf { state: ReaderState::Reading };
    let writer = WriteHalf {
        agent_id: String::from_str(agent_id),
        port,
        state: WriterState::Waiting,
    };
    (reader, writer)
}

} // verus!
