//! The packet relay: the decisions of the three tasks that move frames
//! between the virtual interface and a peer's streams.
//!
//! Each task is a state machine. The caller performs the action that a step
//! returns (open a stream, read, write, close) and hands back what came of
//! it as the next event. The machines do no I/O themselves.
//!
//! * [`OutboundPump`] carries frames from the virtual interface to a peer.
//! * [`InboundSession`] gathers what a peer sends on one stream and, at the
//!   end of the stream, lets the interceptor decide.
//! * [`ReplySender`] carries one reply back to the peer that asked.

use vstd::prelude::*;

use crate::interceptor::{verdict_for, Interceptor, Verdict, VerdictView};
use crate::packet::{ipv4_destination, is_ipv4};

verus! {

/// The name of the relay's stream protocol, by which the transport tells its
/// streams from those of any other protocol.
pub const STREAM_PROTOCOL: &'static str = "/stream";

/// The most bytes asked of the virtual interface or of a stream in one read:
/// the largest frame the interface carries.
pub const READ_CHUNK: usize = 1500;

/// Why a stream to a peer could not be opened.
#[derive(Debug, Clone, Copy, PartialEq, Eq, Structural)]
pub enum OpenFailure {
    /// The peer does not speak the relay's stream protocol.
    UnsupportedProtocol,
    /// Any other failure of the transport.
    Other,
}

/// Why a task gave up.
#[derive(Debug, Clone, Copy, PartialEq, Eq, Structural)]
pub enum StopReason {
    /// The peer does not speak the relay's stream protocol.
    UnsupportedProtocol,
    /// The stream could not be opened for another reason.
    OpenFailed,
    /// Reading the virtual interface failed.
    DeviceFailed,
    /// Reading or writing the stream failed.
    StreamFailed,
}

/// The reason a task stops with when opening its stream fails.
pub open spec fn reason_of(failure: OpenFailure) -> StopReason {
    match failure {
        OpenFailure::UnsupportedProtocol => StopReason::UnsupportedProtocol,
        OpenFailure::Other => StopReason::OpenFailed,
    }
}

fn stop_reason(failure: OpenFailure) -> (reason: StopReason)
    ensures
        reason == reason_of(failure),
{
    match failure {
        OpenFailure::UnsupportedProtocol => StopReason::UnsupportedProtocol,
        OpenFailure::Other => StopReason::OpenFailed,
    }
}

/// `sent + more`, held at `u64::MAX` where it would pass it.
pub open spec fn counted(sent: u64, more: u64) -> u64 {
    if sent + more > u64::MAX {
        u64::MAX
    } else {
        (sent + more) as u64
    }
}

/// The task that carries frames from the virtual interface to one peer.
#[derive(Debug, Clone, Copy, PartialEq, Eq, Structural)]
pub enum OutboundPump {
    /// Waiting for the stream to the peer to open.
    Opening,
    /// Waiting for a frame from the virtual interface; `sent` bytes are
    /// written so far.
    Reading { sent: u64 },
    /// Waiting for a frame of `pending` bytes to be written to the stream.
    Writing { sent: u64, pending: u64 },
    /// Given up, or never started again: nothing more is done.
    Stopped,
}

/// What happened to the last action of an [`OutboundPump`].
#[derive(Debug, Clone, PartialEq, Eq)]
pub enum PumpEvent {
    /// The stream is open.
    Opened,
    /// The stream could not be opened.
    OpenFailed(OpenFailure),
    /// The virtual interface gave this frame.
    FrameRead(Vec<u8>),
    /// Reading the virtual interface failed.
    ReadFailed,
    /// The frame is written to the stream.
    Written,
    /// Writing to the stream failed.
    WriteFailed,
}

/// The mathematical value of a [`PumpEvent`].
pub enum PumpEventView {
    Opened,
    OpenFailed(OpenFailure),
    FrameRead(Seq<u8>),
    ReadFailed,
    Written,
    WriteFailed,
}

impl View for PumpEvent {
    type V = PumpEventView;

    open spec fn view(&self) -> PumpEventView {
        match self {
            PumpEvent::Opened => PumpEventView::Opened,
            PumpEvent::OpenFailed(failure) => PumpEventView::OpenFailed(*failure),
            PumpEvent::FrameRead(frame) => PumpEventView::FrameRead(frame@),
            PumpEvent::ReadFailed => PumpEventView::ReadFailed,
            PumpEvent::Written => PumpEventView::Written,
            PumpEvent::WriteFailed => PumpEventView::WriteFailed,
        }
    }
}

/// What an [`OutboundPump`] asks its caller to do next.
#[derive(Debug, Clone, PartialEq, Eq)]
pub enum PumpAction {
    /// Open a stream to the peer.
    OpenStream,
    /// Read one frame from the virtual interface.
    ReadDevice,
    /// Write exactly these bytes to the stream.
    WriteStream(Vec<u8>),
    /// Report the reason with the bytes written so far, and end the task.
    Stop { reason: StopReason, sent: u64 },
    /// Do nothing: the event was not awaited.
    Nothing,
}

/// The mathematical value of a [`PumpAction`].
pub enum PumpActionView {
    OpenStream,
    ReadDevice,
    WriteStream(Seq<u8>),
    Stop { reason: StopReason, sent: u64 },
    Nothing,
}

impl View for PumpAction {
    type V = PumpActionView;

    open spec fn view(&self) -> PumpActionView {
        match self {
            PumpAction::OpenStream => PumpActionView::OpenStream,
            PumpAction::ReadDevice => PumpActionView::ReadDevice,
            PumpAction::WriteStream(bytes) => PumpActionView::WriteStream(bytes@),
            PumpAction::Stop { reason, sent } => PumpActionView::Stop {
                reason: *reason,
                sent: *sent,
            },
            PumpAction::Nothing => PumpActionView::Nothing,
        }
    }
}

/// One step of the outbound pump: the state and the action that follow
/// `event` in `state`.
///
/// A frame read is written as it is. A failure to open the stream, to read
/// the interface or to write the stream stops the pump, and a stopped pump
/// stays stopped. An event that the state does not await changes nothing.
pub open spec fn pump_step(state: OutboundPump, event: PumpEventView) -> (
    OutboundPump,
    PumpActionView,
) {
    match (state, event) {
        (OutboundPump::Opening, PumpEventView::Opened) => (
            OutboundPump::Reading { sent: 0 },
            PumpActionView::ReadDevice,
        ),
        (OutboundPump::Opening, PumpEventView::OpenFailed(failure)) => (
            OutboundPump::Stopped,
            PumpActionView::Stop { reason: reason_of(failure), sent: 0 },
        ),
        (OutboundPump::Reading { sent }, PumpEventView::FrameRead(frame)) => (
            OutboundPump::Writing { sent, pending: frame.len() as u64 },
            PumpActionView::WriteStream(frame),
        ),
        (OutboundPump::Reading { sent }, PumpEventView::ReadFailed) => (
            OutboundPump::Stopped,
            PumpActionView::Stop { reason: StopReason::DeviceFailed, sent },
        ),
        (OutboundPump::Writing { sent, pending }, PumpEventView::Written) => (
            OutboundPump::Reading { sent: counted(sent, pending) },
            PumpActionView::ReadDevice,
        ),
        (OutboundPump::Writing { sent, pending }, PumpEventView::WriteFailed) => (
            OutboundPump::Stopped,
            PumpActionView::Stop { reason: StopReason::StreamFailed, sent },
        ),
        _ => (state, PumpActionView::Nothing),
    }
}

impl OutboundPump {
    /// A pump that has done nothing yet, and the action that starts it:
    /// to open the stream to the peer.
    pub fn start() -> (begun: (OutboundPump, PumpAction))
        ensures
            begun.0 == OutboundPump::Opening,
            begun.1@ == PumpActionView::OpenStream,
    {
        (OutboundPump::Opening, PumpAction::OpenStream)
    }

    /// Whether the pump has stopped for good.
    pub fn is_stopped(&self) -> (stopped: bool)
        ensures
            stopped == (*self == OutboundPump::Stopped),
    {
        match self {
            OutboundPump::Stopped => true,
            _ => false,
        }
    }

    /// Takes one event and gives the next state and the action to perform.
    pub fn step(self, event: PumpEvent) -> (next: (OutboundPump, PumpAction))
        ensures
            (next.0, next.1@) == pump_step(self, event@),
    {
        match self {
            OutboundPump::Opening => match event {
                PumpEvent::Opened => (OutboundPump::Reading { sent: 0 }, PumpAction::ReadDevice),
                PumpEvent::OpenFailed(failure) => (
                    OutboundPump::Stopped,
                    PumpAction::Stop { reason: stop_reason(failure), sent: 0 },
                ),
                _ => (self, PumpAction::Nothing),
            },
            OutboundPump::Reading { sent } => match event {
                PumpEvent::FrameRead(frame) => (
                    OutboundPump::Writing { sent, pending: frame.len() as u64 },
                    PumpAction::WriteStream(frame),
                ),
                PumpEvent::ReadFailed => (
                    OutboundPump::Stopped,
                    PumpAction::Stop { reason: StopReason::DeviceFailed, sent },
                ),
                _ => (self, PumpAction::Nothing),
            },
            OutboundPump::Writing { sent, pending } => match event {
                PumpEvent::Written => (
                    OutboundPump::Reading { sent: sent.saturating_add(pending) },
                    PumpAction::ReadDevice,
                ),
                PumpEvent::WriteFailed => (
                    OutboundPump::Stopped,
                    PumpAction::Stop { reason: StopReason::StreamFailed, sent },
                ),
                _ => (self, PumpAction::Nothing),
            },
            OutboundPump::Stopped => (self, PumpAction::Nothing),
        }
    }
}

/// The task that receives what a peer sends on one stream.
#[derive(Debug, Clone, PartialEq, Eq)]
pub enum InboundSession {
    /// The stream is still read; these bytes have come so far, in order.
    Receiving(Vec<u8>),
    /// The stream has ended or failed: nothing more is done.
    Finished,
}

/// The mathematical value of an [`InboundSession`].
pub enum InboundView {
    Receiving(Seq<u8>),
    Finished,
}

impl View for InboundSession {
    type V = InboundView;

    open spec fn view(&self) -> InboundView {
        match self {
            InboundSession::Receiving(bytes) => InboundView::Receiving(bytes@),
            InboundSession::Finished => InboundView::Finished,
        }
    }
}

/// What came of one read of the stream.
#[derive(Debug, Clone, PartialEq, Eq)]
pub enum StreamRead {
    /// The read gave these bytes. No bytes at all means that the peer has
    /// closed the stream.
    Bytes(Vec<u8>),
    /// The read failed.
    Failed,
}

/// The mathematical value of a [`StreamRead`].
pub enum StreamReadView {
    Bytes(Seq<u8>),
    Failed,
}

impl View for StreamRead {
    type V = StreamReadView;

    open spec fn view(&self) -> StreamReadView {
        match self {
            StreamRead::Bytes(bytes) => StreamReadView::Bytes(bytes@),
            StreamRead::Failed => StreamReadView::Failed,
        }
    }
}

/// What an [`InboundSession`] asks its caller to do next.
#[derive(Debug, Clone, PartialEq, Eq)]
pub enum InboundAction {
    /// Read the stream again.
    ReadStream,
    /// Write exactly these bytes, as one frame, to the virtual interface.
    WriteDevice(Vec<u8>),
    /// Send exactly these bytes back to the peer, on a stream of their own.
    SendReply(Vec<u8>),
    /// The frame of `received` bytes is dropped: write nothing, send nothing.
    Discard { received: usize },
    /// Report the failed read with the bytes that had come, and end the task.
    Stop { received: usize },
    /// Do nothing: the session has finished.
    Nothing,
}

/// The mathematical value of an [`InboundAction`].
pub enum InboundActionView {
    ReadStream,
    WriteDevice(Seq<u8>),
    SendReply(Seq<u8>),
    Discard { received: usize },
    Stop { received: usize },
    Nothing,
}

impl View for InboundAction {
    type V = InboundActionView;

    open spec fn view(&self) -> InboundActionView {
        match self {
            InboundAction::ReadStream => InboundActionView::ReadStream,
            InboundAction::WriteDevice(bytes) => InboundActionView::WriteDevice(bytes@),
            InboundAction::SendReply(bytes) => InboundActionView::SendReply(bytes@),
            InboundAction::Discard { received } => InboundActionView::Discard {
                received: *received,
            },
            InboundAction::Stop { received } => InboundActionView::Stop { received: *received },
            InboundAction::Nothing => InboundActionView::Nothing,
        }
    }
}

/// The action that carries out the interceptor's verdict on a frame.
pub open spec fn action_for(verdict: VerdictView, received: usize) -> InboundActionView {
    match verdict {
        VerdictView::Forward(bytes) => InboundActionView::WriteDevice(bytes),
        VerdictView::Drop => InboundActionView::Discard { received },
        VerdictView::Reply(bytes) => InboundActionView::SendReply(bytes),
    }
}

/// One step of an inbound session for the overlay address `overlay`.
///
/// Bytes that come are put behind those that came before. A read of no bytes
/// ends the stream: all that has come is one frame, and the interceptor's
/// verdict on it is carried out. A failed read ends the session with nothing
/// written or sent.
pub open spec fn inbound_step(state: InboundView, read: StreamReadView, overlay: u32) -> (
    InboundView,
    InboundActionView,
) {
    match (state, read) {
        (InboundView::Receiving(gathered), StreamReadView::Bytes(chunk)) => if chunk.len() > 0 {
            (InboundView::Receiving(gathered + chunk), InboundActionView::ReadStream)
        } else {
            (
                InboundView::Finished,
                action_for(verdict_for(gathered, overlay), gathered.len() as usize),
            )
        },
        (InboundView::Receiving(gathered), StreamReadView::Failed) => (
            InboundView::Finished,
            InboundActionView::Stop { received: gathered.len() as usize },
        ),
        (InboundView::Finished, _) => (InboundView::Finished, InboundActionView::Nothing),
    }
}

impl InboundSession {
    /// A session that has read nothing yet, and the action that starts it:
    /// to read the stream.
    pub fn start() -> (begun: (InboundSession, InboundAction))
        ensures
            begun.0@ == InboundView::Receiving(Seq::empty()),
            begun.1@ == InboundActionView::ReadStream,
    {
        (InboundSession::Receiving(Vec::new()), InboundAction::ReadStream)
    }

    /// The number of bytes that have come and are still held.
    pub fn received(&self) -> (count: usize)
        ensures
            count == match self@ {
                InboundView::Receiving(gathered) => gathered.len(),
                InboundView::Finished => 0,
            },
    {
        match self {
            InboundSession::Receiving(gathered) => gathered.len(),
            InboundSession::Finished => 0,
        }
    }

    /// Takes what one read gave and gives the next state and the action to
    /// perform.
    pub fn step(self, interceptor: &Interceptor, read: StreamRead) -> (next: (
        InboundSession,
        InboundAction,
    ))
        ensures
            (next.0@, next.1@) == inbound_step(self@, read@, interceptor.overlay),
    {
        match self {
            InboundSession::Receiving(mut gathered) => match read {
                StreamRead::Bytes(mut chunk) => {
                    if chunk.len() > 0 {
                        gathered.append(&mut chunk);
                        (InboundSession::Receiving(gathered), InboundAction::ReadStream)
                    } else {
                        let received = gathered.len();
                        let action = match interceptor.intercept(gathered) {
                            Verdict::Forward(bytes) => InboundAction::WriteDevice(bytes),
                            Verdict::Drop => InboundAction::Discard { received },
                            Verdict::Reply(bytes) => InboundAction::SendReply(bytes),
                        };
                        (InboundSession::Finished, action)
                    }
                },
                StreamRead::Failed => {
                    let received = gathered.len();
                    (InboundSession::Finished, InboundAction::Stop { received })
                },
            },
            InboundSession::Finished => (InboundSession::Finished, InboundAction::Nothing),
        }
    }
}

/// The task that sends one reply back to the peer that asked.
#[derive(Debug, Clone, PartialEq, Eq)]
pub enum ReplySender {
    /// Waiting for the stream to open; these bytes are to be sent.
    Opening(Vec<u8>),
    /// Waiting for the reply to be written.
    Writing,
    /// Sent, or given up: nothing more is done.
    Done,
}

/// The mathematical value of a [`ReplySender`].
pub enum ReplySenderView {
    Opening(Seq<u8>),
    Writing,
    Done,
}

impl View for ReplySender {
    type V = ReplySenderView;

    open spec fn view(&self) -> ReplySenderView {
        match self {
            ReplySender::Opening(bytes) => ReplySenderView::Opening(bytes@),
            ReplySender::Writing => ReplySenderView::Writing,
            ReplySender::Done => ReplySenderView::Done,
        }
    }
}

/// What happened to the last action of a [`ReplySender`].
#[derive(Debug, Clone, Copy, PartialEq, Eq, Structural)]
pub enum ReplyEvent {
    /// The stream is open.
    Opened,
    /// The stream could not be opened.
    OpenFailed(OpenFailure),
    /// The reply is written to the stream.
    Written,
    /// Writing to the stream failed.
    WriteFailed,
}

/// What a [`ReplySender`] asks its caller to do next.
#[derive(Debug, Clone, PartialEq, Eq)]
pub enum ReplyAction {
    /// Open a stream to the peer.
    OpenStream,
    /// Write exactly these bytes to the stream.
    WriteStream(Vec<u8>),
    /// Close the sending side of the stream: the reply is sent.
    CloseStream,
    /// Report the reason and end the task; nothing is tried again.
    Stop(StopReason),
    /// Do nothing: the event was not awaited.
    Nothing,
}

/// The mathematical value of a [`ReplyAction`].
pub enum ReplyActionView {
    OpenStream,
    WriteStream(Seq<u8>),
    CloseStream,
    Stop(StopReason),
    Nothing,
}

impl View for ReplyAction {
    type V = ReplyActionView;

    open spec fn view(&self) -> ReplyActionView {
        match self {
            ReplyAction::OpenStream => ReplyActionView::OpenStream,
            ReplyAction::WriteStream(bytes) => ReplyActionView::WriteStream(bytes@),
            ReplyAction::CloseStream => ReplyActionView::CloseStream,
            ReplyAction::Stop(reason) => ReplyActionView::Stop(*reason),
            ReplyAction::Nothing => ReplyActionView::Nothing,
        }
    }
}

/// One step of a reply sender.
///
/// Once the stream is open the reply is written as it is, and once it is
/// written the stream is closed. A failure to open or to write ends the
/// task, and nothing is tried a second time.
pub open spec fn reply_step(state: ReplySenderView, event: ReplyEvent) -> (
    ReplySenderView,
    ReplyActionView,
) {
    match (state, event) {
        (ReplySenderView::Opening(reply), ReplyEvent::Opened) => (
            ReplySenderView::Writing,
            ReplyActionView::WriteStream(reply),
        ),
        (ReplySenderView::Opening(reply), ReplyEvent::OpenFailed(failure)) => (
            ReplySenderView::Done,
            ReplyActionView::Stop(reason_of(failure)),
        ),
        (ReplySenderView::Writing, ReplyEvent::Written) => (
            ReplySenderView::Done,
            ReplyActionView::CloseStream,
        ),
        (ReplySenderView::Writing, ReplyEvent::WriteFailed) => (
            ReplySenderView::Done,
            ReplyActionView::Stop(StopReason::StreamFailed),
        ),
        _ => (state, ReplyActionView::Nothing),
    }
}

impl ReplySender {
    /// A sender for `reply`, and the action that starts it: to open a stream
    /// to the peer.
    pub fn start(reply: Vec<u8>) -> (begun: (ReplySender, ReplyAction))
        ensures
            begun.0@ == ReplySenderView::Opening(reply@),
            begun.1@ == ReplyActionView::OpenStream,
    {
        (ReplySender::Opening(reply), ReplyAction::OpenStream)
    }

    /// Takes one event and gives the next state and the action to perform.
    pub fn step(self, event: ReplyEvent) -> (next: (ReplySender, ReplyAction))
        ensures
            (next.0@, next.1@) == reply_step(self@, event),
    {
        match self {
            ReplySender::Opening(reply) => match event {
                ReplyEvent::Opened => (ReplySender::Writing, ReplyAction::WriteStream(reply)),
                ReplyEvent::OpenFailed(failure) => (
                    ReplySender::Done,
                    ReplyAction::Stop(stop_reason(failure)),
                ),
                _ => (ReplySender::Opening(reply), ReplyAction::Nothing),
            },
            ReplySender::Writing => match event {
                ReplyEvent::Written => (ReplySender::Done, ReplyAction::CloseStream),
                ReplyEvent::WriteFailed => (
                    ReplySender::Done,
                    ReplyAction::Stop(StopReason::StreamFailed),
                ),
                _ => (ReplySender::Writing, ReplyAction::Nothing),
            },
            ReplySender::Done => (ReplySender::Done, ReplyAction::Nothing),
        }
    }
}

/// The bytes that an action writes to a stream.
pub open spec fn written(action: PumpActionView) -> Seq<u8> {
    match action {
        PumpActionView::WriteStream(bytes) => bytes,
        _ => Seq::empty(),
    }
}

/// All that a pump in `state` writes to its stream while the virtual
/// interface gives `frames` one after another and every write succeeds.
pub open spec fn pumped(state: OutboundPump, frames: Seq<Seq<u8>>) -> Seq<u8>
    decreases frames.len(),
{
    if frames.len() == 0 {
        Seq::empty()
    } else {
        let (writing, action) = pump_step(state, PumpEventView::FrameRead(frames.first()));
        let (reading, _) = pump_step(writing, PumpEventView::Written);
        written(action) + pumped(reading, frames.drop_first())
    }
}

/// The state of a session that was in `state` and has since read `chunks`
/// one after another.
pub open spec fn after_reads(state: InboundView, chunks: Seq<Seq<u8>>, overlay: u32) -> InboundView
    decreases chunks.len(),
{
    if chunks.len() == 0 {
        state
    } else {
        after_reads(
            inbound_step(state, StreamReadView::Bytes(chunks.first()), overlay).0,
            chunks.drop_first(),
            overlay,
        )
    }
}

/// A pump that is reading writes the frames it is given, in order and with
/// nothing between them.
pub proof fn lemma_pumped_is_frames(sent: u64, frames: Seq<Seq<u8>>)
    ensures
        pumped(OutboundPump::Reading { sent }, frames) == frames.flatten(),
    decreases frames.len(),
{
    if frames.len() > 0 {
        let pending = frames.first().len() as u64;
        lemma_pumped_is_frames(counted(sent, pending), frames.drop_first());
    }
}

/// A session that reads chunks, none of them empty, holds them in order
/// behind what it held before.
pub proof fn lemma_reads_gather(gathered: Seq<u8>, chunks: Seq<Seq<u8>>, overlay: u32)
    requires
        forall|i: int| 0 <= i < chunks.len() ==> (#[trigger] chunks[i]).len() > 0,
    ensures
        after_reads(InboundView::Receiving(gathered), chunks, overlay) == InboundView::Receiving(
            gathered + chunks.flatten(),
        ),
    decreases chunks.len(),
{
    if chunks.len() == 0 {
        assert(gathered + chunks.flatten() =~= gathered);
    } else {
        let rest = chunks.drop_first();
        assert(chunks.first() == chunks[0]);
        assert forall|i: int| 0 <= i < rest.len() implies (#[trigger] rest[i]).len() > 0 by {
            assert(rest[i] == chunks[i + 1]);
        }
        lemma_reads_gather(gathered + chunks.first(), rest, overlay);
        assert((gathered + chunks.first()) + rest.flatten() =~= gathered + chunks.flatten());
    }
}

/// What one peer's pump reads from its virtual interface, the other peer's
/// session hands to its interceptor: the same bytes in the same order.
///
/// The pump reads `frames` and writes them to the stream. The stream delivers
/// those bytes in order, cut into `chunks` as it pleases, and then ends. The
/// session then holds exactly the bytes of the frames, and acts on the
/// interceptor's verdict on them; where the verdict is to forward, those
/// bytes are written to the far virtual interface unchanged.
pub proof fn lemma_relay_keeps_bytes(
    sent: u64,
    frames: Seq<Seq<u8>>,
    chunks: Seq<Seq<u8>>,
    overlay: u32,
)
    requires
        forall|i: int| 0 <= i < chunks.len() ==> (#[trigger] chunks[i]).len() > 0,
        chunks.flatten() == pumped(OutboundPump::Reading { sent }, frames),
    ensures
        after_reads(InboundView::Receiving(Seq::empty()), chunks, overlay)
            == InboundView::Receiving(frames.flatten()),
        inbound_step(
            after_reads(InboundView::Receiving(Seq::empty()), chunks, overlay),
            StreamReadView::Bytes(Seq::empty()),
            overlay,
        ) == (
            InboundView::Finished,
            action_for(verdict_for(frames.flatten(), overlay), frames.flatten().len() as usize),
        ),
        verdict_for(frames.flatten(), overlay) is Forward ==> inbound_step(
            after_reads(InboundView::Receiving(Seq::empty()), chunks, overlay),
            StreamReadView::Bytes(Seq::empty()),
            overlay,
        ).1 == InboundActionView::WriteDevice(frames.flatten()),
{
    lemma_pumped_is_frames(sent, frames);
    lemma_reads_gather(Seq::empty(), chunks, overlay);
    assert(Seq::<u8>::empty() + chunks.flatten() =~= chunks.flatten());
}

/// An IPv4 packet for another address reaches neither the virtual interface nor the
/// peer: at the end of the stream the session discards it.
pub proof fn lemma_foreign_frame_is_discarded(gathered: Seq<u8>, overlay: u32)
    requires
        is_ipv4(gathered),
        ipv4_destination(gathered) != overlay,
    ensures
        inbound_step(
            InboundView::Receiving(gathered),
            StreamReadView::Bytes(Seq::empty()),
            overlay,
        ) == (
            InboundView::Finished,
            InboundActionView::Discard { received: gathered.len() as usize },
        ),
{
}

/// What is no IPv4 packet is written to the virtual interface byte for
/// byte: at the end of the stream the session hands on all it gathered.
pub proof fn lemma_unparsed_frame_is_written(gathered: Seq<u8>, overlay: u32)
    requires
        !is_ipv4(gathered),
    ensures
        inbound_step(
            InboundView::Receiving(gathered),
            StreamReadView::Bytes(Seq::empty()),
            overlay,
        ) == (InboundView::Finished, InboundActionView::WriteDevice(gathered)),
{
}

/// A pump whose stream could not be opened reports why and never asks for a
/// stream again, whatever is reported to it afterwards.
pub proof fn lemma_pump_never_retries(failure: OpenFailure, later: PumpEventView)
    ensures
        pump_step(OutboundPump::Opening, PumpEventView::OpenFailed(failure)) == (
            OutboundPump::Stopped,
            PumpActionView::Stop { reason: reason_of(failure), sent: 0 },
        ),
        pump_step(OutboundPump::Stopped, later) == (OutboundPump::Stopped, PumpActionView::Nothing),
{
}

/// A reply whose stream could not be opened is given up: the sender reports
/// why and never asks for a stream again.
pub proof fn lemma_reply_never_retries(reply: Seq<u8>, failure: OpenFailure, later: ReplyEvent)
    ensures
        reply_step(ReplySenderView::Opening(reply), ReplyEvent::OpenFailed(failure)) == (
            ReplySenderView::Done,
            ReplyActionView::Stop(reason_of(failure)),
        ),
        reply_step(ReplySenderView::Done, later) == (
            ReplySenderView::Done,
            ReplyActionView::Nothing,
        ),
{
}

} // verus!
