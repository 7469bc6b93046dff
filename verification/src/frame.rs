//! Frames: how messages travel over a stream.
//!
//! A frame is the length of the whole frame as four big-endian bytes, the
//! length itself included, followed by the bytes of one message. The stream
//! itself is not ours: whoever owns it hands the bytes it read to a
//! [`FrameReader`], and writes the bytes that [`encode_frame`] returns.

use vstd::prelude::*;

use crate::codec::{
    be_u32, from_be_u32, get_u32, lemma_be_u32_roundtrip, lemma_split_concat, put_bytes, put_u32,
};
use crate::request::Request;
use crate::response::Response;

verus! {

/// The number of bytes that a reader is ready to take at the start of a
/// frame.
pub const RECEIVE_BUFFER_SIZE: usize = 8192;

/// The number of bytes of the length that starts a frame.
pub const FRAME_HEADER_SIZE: usize = 4;

/// The greatest number of bytes of a message that fits into a frame.
pub const MAX_MESSAGE_SIZE: usize = 0xffff_fffb;

/// The frame that carries `message`.
pub open spec fn spec_frame(message: Seq<u8>) -> Seq<u8> {
    be_u32((FRAME_HEADER_SIZE + message.len()) as u32) + message
}

/// The frame that carries `message`, or `None` if the message is too long
/// for its length to be written down.
pub fn encode_frame(message: &[u8]) -> (r: Option<Vec<u8>>)
    ensures
        r is Some <==> message@.len() <= MAX_MESSAGE_SIZE,
        r matches Some(frame) ==> frame@ == spec_frame(message@),
{
    if message.len() > MAX_MESSAGE_SIZE {
        return None;
    }
    let mut frame: Vec<u8> = Vec::new();
    put_u32(&mut frame, (FRAME_HEADER_SIZE + message.len()) as u32);
    put_bytes(&mut frame, message);
    Some(frame)
}

/// The frame that carries `request`.
pub fn frame_request(request: &Request) -> (r: Option<Vec<u8>>)
    ensures
        r is Some <==> request@.encoding().len() <= MAX_MESSAGE_SIZE,
        r matches Some(frame) ==> frame@ == spec_frame(request@.encoding()),
{
    let mut message: Vec<u8> = Vec::new();
    request.encode(&mut message);
    assert(message@ =~= request@.encoding());
    encode_frame(message.as_slice())
}

/// The frame that carries `response`.
pub fn frame_response(response: &Response) -> (r: Option<Vec<u8>>)
    ensures
        r is Some <==> response@.encoding().len() <= MAX_MESSAGE_SIZE,
        r matches Some(frame) ==> frame@ == spec_frame(response@.encoding()),
{
    let mut message: Vec<u8> = Vec::new();
    response.encode(&mut message);
    assert(message@ =~= response@.encoding());
    encode_frame(message.as_slice())
}

/// What the bytes received so far amount to.
#[derive(Debug, PartialEq, Eq)]
pub enum Received {
    /// The frame is not complete: read on.
    More,
    /// The stream ended between two frames.
    End,
    /// A frame is complete. These are the bytes of its message.
    Frame(Vec<u8>),
}

/// Why a frame could not be received.
#[derive(Debug, Clone, Copy, PartialEq, Eq, Structural)]
pub enum ReceiveError {
    /// The stream ended in the middle of a frame.
    Closed,
    /// More bytes were received than the frame declares.
    Excess { declared: u32, received: usize },
}

/// What the bytes received so far amount to, as a value of specifications.
pub enum ReceivedView {
    More,
    End,
    Frame(Seq<u8>),
    Failed(ReceiveError),
}

/// The outcome of a read that delivered `chunk` after `received`.
///
/// An empty chunk means the stream has ended: between two frames that is the
/// end, within a frame it is an error. Else the frame is complete once as
/// many bytes have arrived as its first four bytes declare. If more have
/// arrived, that is an error.
pub open spec fn spec_receive(received: Seq<u8>, chunk: Seq<u8>) -> ReceivedView {
    let all = received + chunk;
    if chunk.len() == 0 {
        if received.len() > 0 {
            ReceivedView::Failed(ReceiveError::Closed)
        } else {
            ReceivedView::End
        }
    } else if all.len() < FRAME_HEADER_SIZE {
        ReceivedView::More
    } else if all.len() < from_be_u32(all) {
        ReceivedView::More
    } else if all.len() > from_be_u32(all) {
        ReceivedView::Failed(
            ReceiveError::Excess { declared: from_be_u32(all), received: all.len() as usize },
        )
    } else {
        ReceivedView::Frame(all.subrange(FRAME_HEADER_SIZE as int, all.len() as int))
    }
}

/// The number of bytes that a reader is ready to hold once `all` has arrived:
/// as many as the frame declares, and [`RECEIVE_BUFFER_SIZE`] at least.
pub open spec fn spec_capacity(capacity: usize, all: Seq<u8>) -> usize {
    if all.len() >= FRAME_HEADER_SIZE && from_be_u32(all) > capacity {
        from_be_u32(all) as usize
    } else {
        capacity
    }
}

/// Collects the bytes of one frame after the other.
pub struct FrameReader {
    received: Vec<u8>,
    capacity: usize,
}

impl FrameReader {
    /// The bytes of the current frame that have arrived.
    pub closed spec fn received(&self) -> Seq<u8> {
        self.received@
    }

    /// The number of bytes that the reader is ready to hold.
    pub closed spec fn capacity(&self) -> usize {
        self.capacity
    }

    /// The reader has room for at least one more byte. This holds of a new
    /// reader, and feeding it keeps it.
    pub closed spec fn wf(&self) -> bool {
        &&& self.received@.len() < self.capacity
        &&& self.capacity >= RECEIVE_BUFFER_SIZE
    }

    /// A reader at the start of a frame.
    pub fn new() -> (r: FrameReader)
        ensures
            r.wf(),
            r.received() == Seq::<u8>::empty(),
            r.capacity() == RECEIVE_BUFFER_SIZE,
    {
        FrameReader { received: Vec::new(), capacity: RECEIVE_BUFFER_SIZE }
    }

    /// The number of bytes to ask the stream for next.
    pub fn window(&self) -> (n: usize)
        ensures
            n >= 1,
            self.wf() ==> n == self.capacity() - self.received().len(),
    {
        if self.capacity > self.received.len() {
            self.capacity - self.received.len()
        } else {
            1
        }
    }

    /// Take the bytes that a read delivered; an empty chunk if the stream
    /// has ended.
    ///
    /// While the frame is incomplete the reader keeps what has arrived, and
    /// grows to the length that the frame declares. After a frame, the end
    /// of the stream or an error it is back at the start of a frame.
    pub fn feed(&mut self, chunk: &[u8]) -> (r: Result<Received, ReceiveError>)
        ensures
            old(self).wf() ==> final(self).wf(),
            received_view(r) == spec_receive(old(self).received(), chunk@),
            r matches Ok(Received::More) ==> final(self).received() == old(self).received()
                + chunk@ && final(self).capacity() == spec_capacity(
                old(self).capacity(),
                old(self).received() + chunk@,
            ),
            !(r matches Ok(Received::More)) ==> final(self).received() == Seq::<u8>::empty()
                && final(self).capacity() == RECEIVE_BUFFER_SIZE,
    {
        if chunk.len() == 0 {
            let closed = self.received.len() > 0;
            self.reset();
            return if closed {
                Err(ReceiveError::Closed)
            } else {
                Ok(Received::End)
            };
        }
        put_bytes(&mut self.received, chunk);
        let len = self.received.len();
        if len < FRAME_HEADER_SIZE {
            return Ok(Received::More);
        }
        let declared: u32 = match get_u32(self.received.as_slice()) {
            Ok(declared) => declared,
            Err(_) => {
                return Ok(Received::More);
            },
        };
        if declared as usize > self.capacity {
            self.capacity = declared as usize;
        }
        if len < declared as usize {
            return Ok(Received::More);
        }
        if len > declared as usize {
            self.reset();
            return Err(ReceiveError::Excess { declared, received: len });
        }
        let message = self.received.split_off(FRAME_HEADER_SIZE);
        self.reset();
        Ok(Received::Frame(message))
    }

    /// Go back to the start of a frame.
    fn reset(&mut self)
        ensures
            final(self).wf(),
            final(self).received() == Seq::<u8>::empty(),
            final(self).capacity() == RECEIVE_BUFFER_SIZE,
    {
        self.received.clear();
        self.capacity = RECEIVE_BUFFER_SIZE;
    }
}

/// The outcome of a read, as a value of specifications.
pub open spec fn received_view(r: Result<Received, ReceiveError>) -> ReceivedView {
    match r {
        Ok(Received::More) => ReceivedView::More,
        Ok(Received::End) => ReceivedView::End,
        Ok(Received::Frame(message)) => ReceivedView::Frame(message@),
        Err(e) => ReceivedView::Failed(e),
    }
}

/// A frame that arrives in one piece at the start of a frame is received
/// whole, and its message is the one that was framed.
pub proof fn lemma_frame_roundtrip(message: Seq<u8>)
    requires
        message.len() <= MAX_MESSAGE_SIZE,
    ensures
        spec_receive(Seq::empty(), spec_frame(message)) == ReceivedView::Frame(message),
{
    let header = be_u32((FRAME_HEADER_SIZE + message.len()) as u32);
    let frame = spec_frame(message);
    lemma_be_u32_roundtrip((FRAME_HEADER_SIZE + message.len()) as u32);
    lemma_split_concat(header, message);
    assert(Seq::<u8>::empty() + frame =~= frame);
    assert(forall|i: int| 0 <= i < 4 ==> frame[i] == header[i]);
    assert(from_be_u32(frame) == from_be_u32(header));
}

/// A frame that arrives in two pieces is received whole as well: after the
/// first piece the reader asks for more, and with the second piece the
/// message is the one that was framed.
pub proof fn lemma_frame_in_two_pieces(message: Seq<u8>, cut: int)
    requires
        message.len() <= MAX_MESSAGE_SIZE,
        0 < cut < spec_frame(message).len(),
    ensures
        spec_receive(Seq::empty(), spec_frame(message).take(cut)) == ReceivedView::More,
        spec_receive(spec_frame(message).take(cut), spec_frame(message).skip(cut))
            == ReceivedView::Frame(message),
{
    let header = be_u32((FRAME_HEADER_SIZE + message.len()) as u32);
    let frame = spec_frame(message);
    let first = frame.take(cut);
    let second = frame.skip(cut);
    lemma_frame_roundtrip(message);
    lemma_be_u32_roundtrip((FRAME_HEADER_SIZE + message.len()) as u32);
    assert(Seq::<u8>::empty() + first =~= first);
    assert(Seq::<u8>::empty() + frame =~= frame);
    assert(first + second =~= frame);
    assert(forall|i: int| 0 <= i < 4 ==> frame[i] == header[i]);
    assert(from_be_u32(frame) == from_be_u32(header));
    if cut >= 4 {
        assert(forall|i: int| 0 <= i < 4 ==> first[i] == frame[i]);
        assert(from_be_u32(first) == from_be_u32(frame));
    }
}

} // verus!
