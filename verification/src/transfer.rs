//! Streaming a file of this host into a guest.

use crate::error::method_unimplemented;
use crate::error::portproxy_method_is_unimplemented;
use crate::error::ErrorView;
use crate::error::Result;
use crate::error::SandboxError;
use vstd::prelude::*;

verus! {

/// The largest piece of a file that goes into one message of a stream.
pub const STREAM_CHUNK_BYTES: usize = 524_288;

/// A message of the stream that writes a file.
#[derive(Debug)]
pub enum WriteRequest {
    /// The first one.
    Start { path: String, create_parents: bool, expected_bytes: u64, mode: Option<u32> },
    /// A piece of the file.
    Data(Vec<u8>),
}

/// A message of the stream that writes a file, with its text as a sequence.
pub enum WriteRequestView {
    Start { path: Seq<char>, create_parents: bool, expected_bytes: u64, mode: Option<u32> },
    Data(Seq<u8>),
}

impl View for WriteRequest {
    type V = WriteRequestView;

    open spec fn view(&self) -> WriteRequestView {
        match self {
            WriteRequest::Start { path, create_parents, expected_bytes, mode } => {
                WriteRequestView::Start {
                    path: path@,
                    create_parents: *create_parents,
                    expected_bytes: *expected_bytes,
                    mode: *mode,
                }
            },
            WriteRequest::Data(data) => WriteRequestView::Data(data@),
        }
    }
}

/// The message that begins the stream: missing directories are made, and the guest is told how
/// many bytes to expect.
pub fn write_start(path: &str, expected_bytes: u64, mode: Option<u32>) -> (request: WriteRequest)
    ensures
        request@ == (WriteRequestView::Start {
            path: path@,
            create_parents: true,
            expected_bytes,
            mode,
        }),
{
    WriteRequest::Start { path: path.to_owned(), create_parents: true, expected_bytes, mode }
}

/// The error of a stream that the guest closed while there was more to send.
pub fn write_stream_closed(started: bool) -> (e: SandboxError)
    ensures
        e@ == stream_closed(started),
{
    if started {
        SandboxError::InvalidResponse("file stream closed before completion".to_owned())
    } else {
        SandboxError::InvalidResponse("file stream closed before start".to_owned())
    }
}

/// The model of a result.
pub open spec fn result_view<T>(r: Result<T>) -> std::result::Result<T, ErrorView> {
    match r {
        Ok(value) => Ok(value),
        Err(e) => Err(e@),
    }
}

/// Chunks of a file, one after the other.
pub open spec fn whole(chunks: Seq<Seq<u8>>) -> Seq<u8>
    decreases chunks.len(),
{
    if chunks.len() == 0 {
        Seq::empty()
    } else {
        whole(chunks.drop_last()) + chunks.last()
    }
}

/// The chunks can be read: none is empty, and none is larger than asked for.
pub open spec fn readable(chunks: Seq<Seq<u8>>, limit: usize) -> bool {
    forall|i: int| 0 <= i < chunks.len() ==> 0 < (#[trigger] chunks[i]).len() <= limit
}

/// How far the sending of a file has come.
#[derive(Clone, Copy, Debug, PartialEq, Eq, Structural)]
pub enum FeedPhase {
    /// The first message is being sent.
    Announcing,
    /// The next piece is being read.
    Reading,
    /// A piece is being sent.
    Sending,
    /// Nothing is left to be decided.
    Over,
}

/// What the sending of a file meets.
#[derive(Debug)]
pub enum FeedEvent {
    /// The message was taken, or the guest had closed the stream.
    Sent { taken: bool },
    /// These bytes were read, none at the end of the file, or the file could not be read.
    Read(Result<Vec<u8>>),
}

/// What is done next.
#[derive(Debug)]
pub enum FeedAction {
    /// Sends a message.
    Send(WriteRequest),
    /// Reads the next piece, of so many bytes at most.
    Read { limit: usize },
    /// Ends with the result.
    End(Result<()>),
}

/// The model of a `FeedEvent`.
pub enum FeedEventView {
    Sent { taken: bool },
    Read(std::result::Result<Seq<u8>, ErrorView>),
}

/// The model of a `FeedAction`.
pub enum FeedActionView {
    Send(WriteRequestView),
    Read { limit: usize },
    End(std::result::Result<(), ErrorView>),
}

impl View for FeedEvent {
    type V = FeedEventView;

    open spec fn view(&self) -> FeedEventView {
        match self {
            FeedEvent::Sent { taken } => FeedEventView::Sent { taken: *taken },
            FeedEvent::Read(Ok(data)) => FeedEventView::Read(Ok(data@)),
            FeedEvent::Read(Err(e)) => FeedEventView::Read(Err(e@)),
        }
    }
}

impl View for FeedAction {
    type V = FeedActionView;

    open spec fn view(&self) -> FeedActionView {
        match self {
            FeedAction::Send(request) => FeedActionView::Send(request@),
            FeedAction::Read { limit } => FeedActionView::Read { limit: *limit },
            FeedAction::End(result) => FeedActionView::End(result_view(*result)),
        }
    }
}

/// The event is one that can be met in a phase. No more bytes are read than were asked for.
pub open spec fn expected_feed_event(phase: FeedPhase, event: FeedEventView) -> bool {
    match event {
        FeedEventView::Sent { .. } => phase == FeedPhase::Announcing || phase == FeedPhase::Sending,
        FeedEventView::Read(r) => phase == FeedPhase::Reading && (r matches Ok(data) ==> data.len()
            <= STREAM_CHUNK_BYTES),
    }
}

/// That the guest closed the stream, before or after the first message.
pub open spec fn stream_closed(started: bool) -> ErrorView {
    ErrorView::InvalidResponse(
        if started {
            "file stream closed before completion"@
        } else {
            "file stream closed before start"@
        },
    )
}

/// What an event makes of the phase, and what is done next: after each message that is taken a piece
/// is read, and sent as it is, until the file is at its end.
pub open spec fn feed_step(phase: FeedPhase, event: FeedEventView) -> (FeedPhase, FeedActionView) {
    match event {
        FeedEventView::Sent { taken } => if taken {
            (FeedPhase::Reading, FeedActionView::Read { limit: STREAM_CHUNK_BYTES })
        } else {
            (
                FeedPhase::Over,
                FeedActionView::End(Err(stream_closed(phase == FeedPhase::Sending))),
            )
        },
        FeedEventView::Read(Ok(data)) => if data.len() > 0 {
            (FeedPhase::Sending, FeedActionView::Send(WriteRequestView::Data(data)))
        } else {
            (FeedPhase::Over, FeedActionView::End(Ok(())))
        },
        FeedEventView::Read(Err(e)) => (FeedPhase::Over, FeedActionView::End(Err(e))),
    }
}

/// A file that is being sent as a stream.
#[derive(Debug)]
pub struct FileFeed {
    phase: FeedPhase,
}

impl View for FileFeed {
    type V = FeedPhase;

    closed spec fn view(&self) -> FeedPhase {
        self.phase
    }
}

impl FileFeed {
    /// Begins to send a file, with the message that announces it.
    pub fn start(path: &str, expected_bytes: u64, mode: Option<u32>) -> (r: (FileFeed, FeedAction))
        ensures
            r.0@ == FeedPhase::Announcing,
            r.1@ == FeedActionView::Send(
                (WriteRequestView::Start {
                    path: path@,
                    create_parents: true,
                    expected_bytes,
                    mode,
                }),
            ),
    {
        (
            FileFeed { phase: FeedPhase::Announcing },
            FeedAction::Send(write_start(path, expected_bytes, mode)),
        )
    }

    /// Takes an event in and says what is done next.
    pub fn step(&mut self, event: FeedEvent) -> (action: FeedAction)
        requires
            expected_feed_event(old(self)@, event@),
        ensures
            (final(self)@, action@) == feed_step(old(self)@, event@),
    {
        match event {
            FeedEvent::Sent { taken } => {
                if taken {
                    self.phase = FeedPhase::Reading;
                    FeedAction::Read { limit: STREAM_CHUNK_BYTES }
                } else {
                    let started: bool = match self.phase {
                        FeedPhase::Sending => true,
                        _ => false,
                    };
                    self.phase = FeedPhase::Over;
                    FeedAction::End(Err(write_stream_closed(started)))
                }
            },
            FeedEvent::Read(Ok(data)) => {
                if data.len() > 0 {
                    self.phase = FeedPhase::Sending;
                    FeedAction::Send(WriteRequest::Data(data))
                } else {
                    self.phase = FeedPhase::Over;
                    FeedAction::End(Ok(()))
                }
            },
            FeedEvent::Read(Err(e)) => {
                self.phase = FeedPhase::Over;
                FeedAction::End(Err(e))
            },
        }
    }
}

/// A piece of a file that is to be sent has at least one byte and at most as many as go into one
/// message, and is what was read.
pub proof fn law_pieces_are_bounded(phase: FeedPhase, event: FeedEventView)
    requires
        expected_feed_event(phase, event),
    ensures
        feed_step(phase, event).1 matches FeedActionView::Send(request) ==> {
            &&& request matches WriteRequestView::Data(data)
            &&& 0 < data.len() <= STREAM_CHUNK_BYTES
            &&& event == FeedEventView::Read(Ok(data))
        },
{
}

/// The phase after events.
pub open spec fn feed_after(phase: FeedPhase, events: Seq<FeedEventView>) -> FeedPhase
    decreases events.len(),
{
    if events.len() == 0 {
        phase
    } else {
        feed_step(feed_after(phase, events.drop_last()), events.last()).0
    }
}

/// The bytes of the messages that events call for, one after the other.
pub open spec fn fed_bytes(phase: FeedPhase, events: Seq<FeedEventView>) -> Seq<u8>
    decreases events.len(),
{
    if events.len() == 0 {
        Seq::empty()
    } else {
        let before = events.drop_last();
        fed_bytes(phase, before) + (match feed_step(feed_after(phase, before), events.last()).1 {
            FeedActionView::Send(WriteRequestView::Data(data)) => data,
            _ => Seq::empty(),
        })
    }
}

/// What the sending of a file meets that is read as these chunks, every one of which is taken.
pub open spec fn feed_going_well(chunks: Seq<Seq<u8>>) -> Seq<FeedEventView>
    decreases chunks.len(),
{
    if chunks.len() == 0 {
        Seq::empty()
    } else {
        feed_going_well(chunks.drop_last()).push(FeedEventView::Read(Ok(chunks.last()))).push(
            FeedEventView::Sent { taken: true },
        )
    }
}

/// A file whose pieces are all taken is sent whole and in order, and its end is the end of the stream.
pub proof fn law_file_is_sent_whole(chunks: Seq<Seq<u8>>)
    requires
        readable(chunks, STREAM_CHUNK_BYTES),
    ensures
        feed_after(FeedPhase::Reading, feed_going_well(chunks)) == FeedPhase::Reading,
        fed_bytes(FeedPhase::Reading, feed_going_well(chunks)) == whole(chunks),
        feed_step(FeedPhase::Reading, FeedEventView::Read(Ok(Seq::<u8>::empty()))).1
            == FeedActionView::End(Ok(())),
    decreases chunks.len(),
{
    if chunks.len() > 0 {
        let head = chunks.drop_last();
        let chunk = chunks.last();
        assert(readable(head, STREAM_CHUNK_BYTES)) by {
            assert forall|i: int| 0 <= i < head.len() implies 0 < (#[trigger] head[i]).len()
                <= STREAM_CHUNK_BYTES by {
                assert(chunks[i].len() > 0);
            }
        }
        law_file_is_sent_whole(head);
        let phase = FeedPhase::Reading;
        let before = feed_going_well(head);
        let read = before.push(FeedEventView::Read(Ok(chunk)));
        let all = read.push(FeedEventView::Sent { taken: true });
        assert(chunks[chunks.len() - 1].len() > 0);
        assert(read.drop_last() =~= before);
        assert(all.drop_last() =~= read);
        assert(feed_after(phase, read) == feed_step(feed_after(phase, before), read.last()).0);
        assert(feed_after(phase, all) == feed_step(feed_after(phase, read), all.last()).0);
        assert(fed_bytes(phase, read) == fed_bytes(phase, before) + chunk);
        assert(fed_bytes(phase, all) =~= fed_bytes(phase, read));
    }
}

/// How the task that reads the file came to its end.
#[derive(Debug)]
pub enum Producer {
    /// It ran through, with this result.
    Ran(Result<()>),
    /// It was torn down.
    Lost(String),
}

/// The error of such a task, where it has one.
pub open spec fn producer_fault(producer: Producer) -> Option<ErrorView> {
    match producer {
        Producer::Ran(Ok(_)) => None,
        Producer::Ran(Err(e)) => Some(e@),
        Producer::Lost(text) => Some(
            ErrorView::InvalidResponse("file stream task failed: "@ + text@),
        ),
    }
}

/// The result of a stream: what the guest says comes before what the reader of the file says.
pub fn write_stream_outcome(answer: Result<()>, producer: Producer) -> (r: Result<()>)
    ensures
        match r {
            Ok(_) => answer is Ok && producer_fault(producer) is None,
            Err(e) => match answer {
                Err(first) => e == first,
                Ok(_) => producer_fault(producer) == Some(e@),
            },
        },
{
    match answer {
        Err(e) => Err(e),
        Ok(_) => match producer {
            Producer::Ran(result) => result,
            Producer::Lost(text) => Err(
                SandboxError::InvalidResponse(
                    "file stream task failed: ".to_owned().concat(&text),
                ),
            ),
        },
    }
}

/// The guest takes no streams: the file has to be written in parts.
pub open spec fn takes_no_streams(e: ErrorView) -> bool {
    match e {
        ErrorView::Grpc(status) => method_unimplemented(status.code, status.message),
        _ => false,
    }
}

/// What a stream comes to: its result, or `None` where the file has to be written in parts.
pub fn after_write_stream(result: Result<()>) -> (r: Option<Result<()>>)
    ensures
        match r {
            Some(same) => same == result && match result {
                Ok(_) => true,
                Err(e) => !takes_no_streams(e@),
            },
            None => result matches Err(e) && takes_no_streams(e@),
        },
{
    match result {
        Ok(done) => Some(Ok(done)),
        Err(SandboxError::Grpc(status)) => {
            if portproxy_method_is_unimplemented(&status) {
                None
            } else {
                Some(Err(SandboxError::Grpc(status)))
            }
        },
        Err(e) => Some(Err(e)),
    }
}

/// A file is read 512 KiB at a time, after each message that was taken. A receiver that takes none ends
/// the stream with an error, and so does a file that cannot be read further.
pub proof fn law_stream_goes_on_while_it_is_taken(phase: FeedPhase, e: ErrorView)
    ensures
        feed_step(phase, FeedEventView::Sent { taken: true }) == (
            FeedPhase::Reading,
            FeedActionView::Read { limit: 524_288 },
        ),
        feed_step(phase, FeedEventView::Sent { taken: false }).0 == FeedPhase::Over,
        feed_step(phase, FeedEventView::Sent { taken: false }).1 matches FeedActionView::End(
            Err(_),
        ),
        feed_step(FeedPhase::Announcing, FeedEventView::Sent { taken: false }).1
            == FeedActionView::End(
            Err(ErrorView::InvalidResponse("file stream closed before start"@)),
        ),
        feed_step(FeedPhase::Sending, FeedEventView::Sent { taken: false }).1
            == FeedActionView::End(
            Err(ErrorView::InvalidResponse("file stream closed before completion"@)),
        ),
        feed_step(phase, FeedEventView::Read(Err(e))) == (
            FeedPhase::Over,
            FeedActionView::End(Err(e)),
        ),
{
}

/// What a producer failed with is not lost, and one that ran to its end has no fault. Only a node that
/// does not know the method takes no streams.
pub proof fn law_producer_failure_is_told(producer: Producer, e: ErrorView)
    ensures
        producer_fault(producer) is None <==> producer matches Producer::Ran(Ok(_)),
        producer matches Producer::Ran(Err(x)) ==> producer_fault(producer) == Some(x@),
        producer matches Producer::Lost(text) ==> producer_fault(producer) == Some(
            ErrorView::InvalidResponse("file stream task failed: "@ + text@),
        ),
        takes_no_streams(e) ==> e is Grpc,
        e matches ErrorView::Grpc(status) ==> takes_no_streams(e) == method_unimplemented(
            status.code,
            status.message,
        ),
{
}

/// Requests, events and actions of a stream are seen as what they are.
pub proof fn law_feed_is_seen_as_it_is(request: WriteRequest, event: FeedEvent, action: FeedAction)
    ensures
        request matches WriteRequest::Start { path, create_parents, expected_bytes, mode }
            ==> request@ == (WriteRequestView::Start {
            path: path@,
            create_parents,
            expected_bytes,
            mode,
        }),
        request matches WriteRequest::Data(data) ==> request@ == WriteRequestView::Data(data@),
        event matches FeedEvent::Sent { taken } ==> event@ == (FeedEventView::Sent { taken }),
        event matches FeedEvent::Read(Ok(data)) ==> event@ == FeedEventView::Read(Ok(data@)),
        event matches FeedEvent::Read(Err(e)) ==> event@ == FeedEventView::Read(Err(e@)),
        action matches FeedAction::Send(r) ==> action@ == FeedActionView::Send(r@),
        action matches FeedAction::Read { limit } ==> action@ == (FeedActionView::Read { limit }),
        action matches FeedAction::End(Ok(_)) ==> action@ == FeedActionView::End(Ok(())),
        action matches FeedAction::End(Err(e)) ==> action@ == FeedActionView::End(Err(e@)),
{
}

/// An outcome is seen as what it is.
pub proof fn law_result_is_seen_as_it_is<T>(value: T, e: SandboxError)
    ensures
        result_view(Ok(value)) == std::result::Result::<T, ErrorView>::Ok(value),
        result_view::<T>(Err(e)) == std::result::Result::<T, ErrorView>::Err(e@),
{
}

/// Each phase of a stream awaits its own answer, and what a step orders is what its phase awaits.
pub proof fn law_feed_phases_await_their_answers(
    phase: FeedPhase,
    taken: bool,
    data: Seq<u8>,
    event: FeedEventView,
)
    ensures
        expected_feed_event(phase, FeedEventView::Sent { taken }) <==> phase == FeedPhase::Announcing
            || phase == FeedPhase::Sending,
        expected_feed_event(phase, FeedEventView::Read(Ok(data))) <==> phase == FeedPhase::Reading
            && data.len() <= 524_288,
        feed_step(phase, event).1 is Read ==> feed_step(phase, event).0 == FeedPhase::Reading,
        feed_step(phase, event).1 is Send ==> feed_step(phase, event).0 == FeedPhase::Sending,
        feed_step(phase, event).1 is End ==> feed_step(phase, event).0 == FeedPhase::Over,
{
}

} // verus!
