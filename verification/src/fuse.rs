//! FUSE messages over a macFUSE channel: what is taken in, what is owed a reply, and what a reply
//! looks like. The channel exists on macOS, whose machines store the low byte of a number first.

use crate::numeral::decimal;
use crate::numeral::signed_decimal;
use crate::numeral::to_decimal;
use crate::numeral::to_signed_decimal;
use std::collections::HashMap;
use vstd::bytes::lemma_auto_spec_u32_to_from_le_bytes;
use vstd::bytes::lemma_auto_spec_u64_to_from_le_bytes;
use vstd::bytes::spec_u32_from_le_bytes;
use vstd::bytes::spec_u32_to_le_bytes;
use vstd::bytes::spec_u64_from_le_bytes;
use vstd::bytes::spec_u64_to_le_bytes;
use vstd::bytes::u32_from_le_bytes;
use vstd::bytes::u32_to_le_bytes;
use vstd::bytes::u64_from_le_bytes;
use vstd::bytes::u64_to_le_bytes;
use vstd::prelude::*;
use vstd::slice::slice_subrange;

verus! {

// ---------------------------------------------------------------------------
// Errors
// ---------------------------------------------------------------------------
/// The kind of an I/O error.
#[derive(Clone, Copy, Debug, PartialEq, Eq, Structural)]
pub enum ErrorKind {
    InvalidData,
    InvalidInput,
    NotFound,
    Other,
    PermissionDenied,
    TimedOut,
    Unsupported,
    WriteZero,
    /// The one of the error that the last failed call of the system left.
    LastSystem,
}

/// An error number of the system, by its name.
#[derive(Clone, Copy, Debug, PartialEq, Eq, Structural)]
pub enum Errno {
    EACCES,
    EIO,
    ENODEV,
    ENOTSUP,
    EPROTO,
    /// The one that the last failed call of the system left.
    Last,
}

/// An error of the channel.
#[derive(Debug)]
pub enum FuseError {
    /// An error of a kind, with a message.
    Message { kind: ErrorKind, message: String },
    /// An error of the system.
    System(Errno),
}

/// An error of the channel, with its message as a sequence.
pub enum FuseErrorView {
    Message { kind: ErrorKind, message: Seq<char> },
    System(Errno),
}

impl View for FuseError {
    type V = FuseErrorView;

    open spec fn view(&self) -> FuseErrorView {
        match self {
            FuseError::Message { kind, message } => FuseErrorView::Message {
                kind: *kind,
                message: message@,
            },
            FuseError::System(errno) => FuseErrorView::System(*errno),
        }
    }
}

/// A result of the channel, with its error as a view.
pub open spec fn fuse_outcome<T>(r: std::result::Result<T, FuseError>) -> std::result::Result<
    T,
    FuseErrorView,
> {
    match r {
        Ok(v) => Ok(v),
        Err(e) => Err(e@),
    }
}

/// An error with a fixed message.
pub open spec fn fault(kind: ErrorKind, message: Seq<char>) -> FuseErrorView {
    FuseErrorView::Message { kind, message }
}

pub(crate) fn fuse_error(kind: ErrorKind, message: &str) -> (e: FuseError)
    ensures
        e@ == fault(kind, message@),
{
    FuseError::Message { kind, message: message.to_owned() }
}

impl FuseError {
    /// The kind of the error; none for an error of the system.
    pub fn kind(&self) -> (kind: Option<ErrorKind>)
        ensures
            kind == (match self@ {
                FuseErrorView::Message { kind, .. } => Some(kind),
                FuseErrorView::System(_) => None,
            }),
    {
        match self {
            FuseError::Message { kind, .. } => Some(*kind),
            FuseError::System(_) => None,
        }
    }
}

// ---------------------------------------------------------------------------
// Messages that are owed a reply
// ---------------------------------------------------------------------------
/// The messages that have been taken in and not answered, each under its unique number.
#[verifier::reject_recursive_types(T)]
#[derive(Debug)]
pub struct PendingMessages<T> {
    messages: HashMap<u64, T>,
}

impl<T> View for PendingMessages<T> {
    type V = Map<u64, T>;

    closed spec fn view(&self) -> Map<u64, T> {
        self.messages@
    }
}

impl<T> PendingMessages<T> {
    /// No messages.
    pub fn new() -> (pending: PendingMessages<T>)
        ensures
            pending@ == Map::<u64, T>::empty(),
    {
        PendingMessages { messages: HashMap::new() }
    }

    /// Takes a message in, unless its number is taken: the message then comes back, and the one
    /// that was there stays.
    pub fn insert(&mut self, unique: u64, message: T) -> (r: std::result::Result<(), T>)
        ensures
            match r {
                Ok(_) => !old(self)@.contains_key(unique) && final(self)@ == old(self)@.insert(
                    unique,
                    message,
                ),
                Err(back) => old(self)@.contains_key(unique) && final(self)@ == old(self)@ && back
                    == message,
            },
    {
        broadcast use vstd::std_specs::hash::group_hash_axioms;

        if self.messages.contains_key(&unique) {
            Err(message)
        } else {
            let _ = self.messages.insert(unique, message);
            Ok(())
        }
    }

    /// Hands a message out.
    pub fn remove(&mut self, unique: u64) -> (message: Option<T>)
        ensures
            final(self)@ == old(self)@.remove(unique),
            match message {
                Some(m) => old(self)@.contains_key(unique) && old(self)@[unique] == m,
                None => !old(self)@.contains_key(unique),
            },
    {
        broadcast use vstd::std_specs::hash::group_hash_axioms;

        let message = self.messages.remove(&unique);
        assert(self@ =~= old(self)@.remove(unique));
        message
    }

    /// Drops every message.
    pub fn clear(&mut self)
        ensures
            final(self)@ == Map::<u64, T>::empty(),
    {
        self.messages.clear();
    }
}

/// A message that is taken in is handed out once, as it was, and another one under its number
/// changes nothing until then.
pub proof fn law_pending_message_is_handed_out_once<T>(
    pending: Map<u64, T>,
    unique: u64,
    message: T,
)
    requires
        !pending.contains_key(unique),
    ensures
        ({
            let taken = pending.insert(unique, message);
            &&& taken.contains_key(unique) && taken[unique] == message
            &&& !taken.remove(unique).contains_key(unique)
            &&& taken.remove(unique) == pending
        }),
{
    assert(pending.insert(unique, message).remove(unique) =~= pending);
}

// ---------------------------------------------------------------------------
// Headers
// ---------------------------------------------------------------------------
/// The size of the header of a reply: its length, its error and its unique number.
pub const FUSE_OUT_HEADER_SIZE: usize = 16;

/// The size of what is sent in place of a payload that went through the buffer of the channel.
pub const FUSE_REPLY_BUFFER_OUT_SIZE: usize = 8;

/// What is sent in place of a payload that went through the buffer of the channel.
#[derive(Clone, Copy, Debug, PartialEq, Eq, Structural)]
pub struct FuseReplyBufferOut {
    pub size: u32,
    pub flags: u32,
}

/// The unique number of a message, or an error where the message is too short for one.
pub open spec fn unique_of(message: Seq<u8>) -> std::result::Result<u64, Errno> {
    if message.len() < 16 {
        Err(Errno::EPROTO)
    } else {
        Ok(spec_u64_from_le_bytes(message.subrange(8, 16)))
    }
}

/// The unique number of a message.
pub fn fuse_message_unique(message: &[u8]) -> (r: std::result::Result<u64, Errno>)
    ensures
        r == unique_of(message@),
{
    if message.len() < 16 {
        Err(Errno::EPROTO)
    } else {
        Ok(u64_from_le_bytes(slice_subrange(message, 8, 16)))
    }
}

/// Whether a reply tells of success: its error is zero.
pub open spec fn reply_success(header: Seq<u8>) -> std::result::Result<bool, FuseErrorView> {
    if header.len() < 8 {
        Err(fault(ErrorKind::InvalidInput, "short FUSE reply header"@))
    } else {
        Ok(spec_u32_from_le_bytes(header.subrange(4, 8)) == 0)
    }
}

/// Whether a reply tells of success.
pub fn fuse_reply_succeeded(header: &[u8]) -> (r: std::result::Result<bool, FuseError>)
    ensures
        fuse_outcome(r) == reply_success(header@),
{
    if header.len() < 8 {
        Err(fuse_error(ErrorKind::InvalidInput, "short FUSE reply header"))
    } else {
        Ok(u32_from_le_bytes(slice_subrange(header, 4, 8)) == 0)
    }
}

/// The header of a reply.
pub open spec fn header_of(len: u32, error: u32, unique: u64) -> Seq<u8> {
    spec_u32_to_le_bytes(len) + spec_u32_to_le_bytes(error) + spec_u64_to_le_bytes(unique)
}

/// An error number as a reply carries it: below zero, in two's complement.
pub open spec fn negated(errno: i32) -> u32 {
    if errno == 0 {
        0
    } else if errno > 0 {
        (0x1_0000_0000 - errno) as u32
    } else {
        (0x1_0000_0000 + errno) as u32
    }
}

/// The header of a reply that tells of an error.
pub fn fuse_errno_reply_header(unique: u64, errno: i32) -> (header: Vec<u8>)
    requires
        errno > i32::MIN,
    ensures
        header@ == header_of(16, negated(errno), unique),
        header@.len() == FUSE_OUT_HEADER_SIZE,
{
    let size: i64 = if errno < 0 {
        -(errno as i64)
    } else {
        errno as i64
    };
    let error: u32 = if size == 0 {
        0
    } else {
        (0x1_0000_0000i64 - size) as u32
    };
    let mut header = u32_to_le_bytes(16);
    let mut error_bytes = u32_to_le_bytes(error);
    let mut unique_bytes = u64_to_le_bytes(unique);
    header.append(&mut error_bytes);
    header.append(&mut unique_bytes);
    header
}

/// What is written into the header of an error reply is read from it: its unique number, and that
/// it tells of an error wherever there is one.
pub proof fn law_errno_reply_is_correlated(unique: u64, errno: i32)
    requires
        errno > i32::MIN,
    ensures
        unique_of(header_of(16, negated(errno), unique)) == std::result::Result::<u64, Errno>::Ok(
            unique,
        ),
        reply_success(header_of(16, negated(errno), unique)) == std::result::Result::<
            bool,
            FuseErrorView,
        >::Ok(errno == 0),
{
    lemma_auto_spec_u32_to_from_le_bytes();
    lemma_auto_spec_u64_to_from_le_bytes();
    let h = header_of(16, negated(errno), unique);
    assert(h.subrange(8, 16) =~= spec_u64_to_le_bytes(unique));
    assert(h.subrange(4, 8) =~= spec_u32_to_le_bytes(negated(errno)));
}

// ---------------------------------------------------------------------------
// Taking messages in
// ---------------------------------------------------------------------------
/// A part of the body of a message; none where its address is missing although it is not empty.
pub type BodyBuffer<'a> = Option<&'a [u8]>;

/// The bytes of the parts, one after the other.
pub open spec fn body_bytes(bodies: Seq<Option<&[u8]>>) -> Seq<u8>
    decreases bodies.len(),
{
    if bodies.len() == 0 {
        Seq::empty()
    } else {
        body_bytes(bodies.drop_last()) + (match bodies.last() {
            Some(b) => b@,
            None => Seq::<u8>::empty(),
        })
    }
}

/// The number of parts that are copied: those before the first that is missing or goes beyond the
/// size.
pub open spec fn copied_parts(bodies: Seq<Option<&[u8]>>, body_size: int) -> int
    decreases bodies.len(),
{
    if bodies.len() == 0 {
        0
    } else {
        let before = copied_parts(bodies.drop_last(), body_size);
        if before == bodies.len() - 1 && bodies.last() is Some && body_bytes(bodies).len()
            <= body_size {
            bodies.len() as int
        } else {
            before
        }
    }
}

/// Bytes laid over the beginning of others.
pub open spec fn overlaid(base: Seq<u8>, bytes: Seq<u8>) -> Seq<u8> {
    bytes + base.skip(bytes.len() as int)
}

/// The message can be taken in at all: it is not empty, and there is room for it.
pub open spec fn is_takable(bodies: Seq<Option<&[u8]>>, body_size: usize, room: int) -> bool {
    0 < body_size <= room && bodies.len() > 0
}

proof fn lemma_copied_parts(bodies: Seq<Option<&[u8]>>, body_size: int, n: int)
    requires
        0 <= n < bodies.len(),
        copied_parts(bodies.take(n), body_size) == n,
        bodies[n] is None || body_bytes(bodies.take(n + 1)).len() > body_size,
    ensures
        copied_parts(bodies, body_size) == n,
    decreases bodies.len(),
{
    let head = bodies.drop_last();
    if n == bodies.len() - 1 {
        assert(head =~= bodies.take(n));
        assert(bodies.take(n + 1) =~= bodies);
    } else {
        assert(head.take(n) =~= bodies.take(n));
        assert(head.take(n + 1) =~= bodies.take(n + 1));
        lemma_copied_parts(head, body_size, n);
    }
}

/// Copies the parts of the body of a message to a buffer, one after the other. They must have the
/// size that the message tells.
pub fn copy_body_buffers<'a>(
    bodies: &[BodyBuffer<'a>],
    body_size: usize,
    destination: &mut [u8],
) -> (r: std::result::Result<usize, Errno>)
    ensures
        final(destination)@.len() == old(destination)@.len(),
        !is_takable(bodies@, body_size, old(destination)@.len() as int) ==> final(destination)@
            == old(destination)@,
        is_takable(bodies@, body_size, old(destination)@.len() as int) ==> final(destination)@
            == overlaid(
            old(destination)@,
            body_bytes(bodies@.take(copied_parts(bodies@, body_size as int))),
        ),
        match r {
            Ok(n) => {
                &&& is_takable(bodies@, body_size, old(destination)@.len() as int)
                &&& copied_parts(bodies@, body_size as int) == bodies@.len()
                &&& body_bytes(bodies@).len() == body_size
                &&& n == body_size
            },
            Err(e) => {
                &&& e == Errno::EIO
                &&& !(is_takable(bodies@, body_size, old(destination)@.len() as int)
                    && copied_parts(bodies@, body_size as int) == bodies@.len() && body_bytes(
                    bodies@,
                ).len() == body_size)
            },
        },
{
    if body_size == 0 || body_size > destination.len() || bodies.len() == 0 {
        return Err(Errno::EIO);
    }
    let ghost base = destination@;
    let ghost all = bodies@;
    let mut offset: usize = 0;
    let mut index: usize = 0;
    assert(all.take(0).len() == 0);
    assert(destination@ =~= overlaid(base, body_bytes(all.take(0))));
    while index < bodies.len()
        invariant
            index <= bodies@.len(),
            all == bodies@,
            base == old(destination)@,
            base.len() == destination@.len(),
            offset <= body_size <= base.len(),
            offset == body_bytes(all.take(index as int)).len(),
            copied_parts(all.take(index as int), body_size as int) == index,
            destination@ == overlaid(base, body_bytes(all.take(index as int))),
            is_takable(all, body_size, base.len() as int),
        decreases bodies@.len() - index,
    {
        let ghost copied = body_bytes(all.take(index as int));
        assert(all.take(index + 1).drop_last() =~= all.take(index as int));
        assert(all.take(index + 1).last() == all[index as int]);
        let body = match bodies[index] {
            Some(body) => body,
            None => {
                proof {
                    lemma_copied_parts(all, body_size as int, index as int);
                }
                return Err(Errno::EIO);
            },
        };
        let room: usize = body_size - offset;
        if body.len() > room {
            proof {
                lemma_copied_parts(all, body_size as int, index as int);
            }
            return Err(Errno::EIO);
        }
        let mut i: usize = 0;
        assert(body@.take(0) =~= Seq::<u8>::empty());
        assert(copied + body@.take(0) =~= copied);
        while i < body.len()
            invariant
                i <= body@.len(),
                base.len() == destination@.len(),
                offset == copied.len(),
                offset + body@.len() <= body_size <= base.len(),
                destination@ == overlaid(base, copied + body@.take(i as int)),
            decreases body@.len() - i,
        {
            let ghost before = destination@;
            destination[offset + i] = body[i];
            assert(destination@ == before.update(offset + i, body@[i as int]));
            assert(destination@ =~= overlaid(base, copied + body@.take(i + 1)));
            i += 1;
        }
        assert(body@.take(body@.len() as int) =~= body@);
        offset = offset + body.len();
        index += 1;
    }
    assert(all.take(all.len() as int) =~= all);
    if offset != body_size {
        return Err(Errno::EIO);
    }
    Ok(offset)
}

// ---------------------------------------------------------------------------
// Replies
// ---------------------------------------------------------------------------
/// The bytes of buffers, one after the other.
pub open spec fn flat(buffers: Seq<&[u8]>) -> Seq<u8>
    decreases buffers.len(),
{
    if buffers.len() == 0 {
        Seq::empty()
    } else {
        flat(buffers.drop_last()) + buffers.last()@
    }
}

/// The size of buffers together; an error where it does not fit.
pub open spec fn reply_size(buffers: Seq<&[u8]>) -> std::result::Result<int, FuseErrorView> {
    if flat(buffers).len() > usize::MAX {
        Err(fault(ErrorKind::InvalidInput, "reply size overflow"@))
    } else {
        Ok(flat(buffers).len() as int)
    }
}

proof fn lemma_flat_grows(buffers: Seq<&[u8]>, n: int)
    requires
        0 <= n <= buffers.len(),
    ensures
        flat(buffers.take(n)).len() <= flat(buffers).len(),
    decreases buffers.len(),
{
    if n == buffers.len() {
        assert(buffers.take(n) =~= buffers);
    } else {
        assert(buffers.drop_last().take(n) =~= buffers.take(n));
        lemma_flat_grows(buffers.drop_last(), n);
    }
}

fn size_from(buffers: &[&[u8]], from: usize) -> (r: std::result::Result<usize, FuseError>)
    requires
        from <= buffers@.len(),
    ensures
        match r {
            Ok(n) => n == flat(buffers@.skip(from as int)).len(),
            Err(e) => flat(buffers@.skip(from as int)).len() > usize::MAX && e@ == fault(
                ErrorKind::InvalidInput,
                "reply size overflow"@,
            ),
        },
{
    let ghost all = buffers@.skip(from as int);
    let mut size: usize = 0;
    let mut i: usize = from;
    assert(all.take(0).len() == 0);
    while i < buffers.len()
        invariant
            from <= i <= buffers@.len(),
            all == buffers@.skip(from as int),
            size == flat(all.take(i - from)).len(),
        decreases buffers@.len() - i,
    {
        proof {
            let k = i - from;
            assert(all.take(k + 1).drop_last() =~= all.take(k));
            assert(all.take(k + 1).last() == buffers@[i as int]);
            lemma_flat_grows(all, k + 1);
        }
        match size.checked_add(buffers[i].len()) {
            Some(n) => {
                size = n;
            },
            None => return Err(fuse_error(ErrorKind::InvalidInput, "reply size overflow")),
        }
        i += 1;
    }
    assert(all.take(all.len() as int) =~= all);
    Ok(size)
}

/// The size of a reply as it is sent without a buffer of the channel.
pub fn ordinary_reply_size(buffers: &[&[u8]]) -> (r: std::result::Result<usize, FuseError>)
    ensures
        match r {
            Ok(n) => reply_size(buffers@) == std::result::Result::<int, FuseErrorView>::Ok(
                n as int,
            ),
            Err(e) => reply_size(buffers@) == std::result::Result::<int, FuseErrorView>::Err(e@),
        },
{
    assert(buffers@.skip(0) =~= buffers@);
    size_from(buffers, 0)
}

/// The payload of a reply: everything after its header.
pub open spec fn payload_of(buffers: Seq<&[u8]>) -> Seq<u8> {
    flat(buffers.skip(1))
}

/// The error of a payload that cannot go through a buffer of a size.
pub open spec fn payload_error(buffers: Seq<&[u8]>, room: int) -> Option<FuseErrorView> {
    if buffers.len() == 0 || buffers[0]@.len() != FUSE_OUT_HEADER_SIZE {
        Some(fault(ErrorKind::InvalidInput, "unexpected FUSE reply header size"@))
    } else if payload_of(buffers).len() > usize::MAX {
        Some(fault(ErrorKind::InvalidInput, "reply size overflow"@))
    } else if payload_of(buffers).len() > room {
        Some(
            fault(
                ErrorKind::InvalidInput,
                "reply payload "@ + decimal(payload_of(buffers).len())
                    + " exceeds MFMessage buffer "@ + decimal(room as nat),
            ),
        )
    } else {
        None
    }
}

/// Copies the payload of a reply to the buffer of the channel.
pub fn copy_reply_payload(destination: &mut [u8], buffers: &[&[u8]]) -> (r: std::result::Result<
    usize,
    FuseError,
>)
    ensures
        match r {
            Ok(n) => payload_error(buffers@, old(destination)@.len() as int) is None && n
                == payload_of(buffers@).len() && final(destination)@ == overlaid(
                old(destination)@,
                payload_of(buffers@),
            ),
            Err(e) => payload_error(buffers@, old(destination)@.len() as int) == Some(e@)
                && final(destination)@ == old(destination)@,
        },
{
    if buffers.len() == 0 || buffers[0].len() != FUSE_OUT_HEADER_SIZE {
        return Err(fuse_error(ErrorKind::InvalidInput, "unexpected FUSE reply header size"));
    }
    let payload_size: usize = match size_from(buffers, 1) {
        Ok(n) => n,
        Err(e) => return Err(e),
    };
    if payload_size > destination.len() {
        let size = to_decimal(payload_size as u64);
        let room = to_decimal(destination.len() as u64);
        return Err(
            FuseError::Message {
                kind: ErrorKind::InvalidInput,
                message: "reply payload ".to_owned().concat(&size).concat(
                    " exceeds MFMessage buffer ",
                ).concat(&room),
            },
        );
    }
    let ghost base = destination@;
    let ghost all = buffers@.skip(1);
    let mut offset: usize = 0;
    let mut index: usize = 1;
    assert(all.take(0).len() == 0);
    assert(destination@ =~= overlaid(base, flat(all.take(0))));
    while index < buffers.len()
        invariant
            1 <= index <= buffers@.len(),
            all == buffers@.skip(1),
            base.len() == destination@.len(),
            payload_size == flat(all).len(),
            payload_size <= base.len(),
            offset == flat(all.take(index - 1)).len(),
            destination@ == overlaid(base, flat(all.take(index - 1))),
        decreases buffers@.len() - index,
    {
        let ghost copied = flat(all.take(index - 1));
        proof {
            assert(all.take(index as int).drop_last() =~= all.take(index - 1));
            assert(all.take(index as int).last() == buffers@[index as int]);
            lemma_flat_grows(all, index as int);
        }
        let body = buffers[index];
        let mut i: usize = 0;
        assert(copied + body@.take(0) =~= copied);
        while i < body.len()
            invariant
                i <= body@.len(),
                base.len() == destination@.len(),
                offset == copied.len(),
                offset + body@.len() <= payload_size <= base.len(),
                destination@ == overlaid(base, copied + body@.take(i as int)),
            decreases body@.len() - i,
        {
            let ghost before = destination@;
            destination[offset + i] = body[i];
            assert(destination@ == before.update(offset + i, body@[i as int]));
            assert(destination@ =~= overlaid(base, copied + body@.take(i + 1)));
            i += 1;
        }
        assert(body@.take(body@.len() as int) =~= body@);
        offset = offset + body.len();
        index += 1;
    }
    assert(all.take(all.len() as int) =~= all);
    Ok(payload_size)
}

/// A reply whose payload went through the buffer of the channel.
#[derive(Debug)]
pub struct BufferedReply {
    pub header: Vec<u8>,
    pub buffer_out: FuseReplyBufferOut,
}

/// The header of a reply whose payload went through the buffer of the channel: with the length of
/// what is still sent.
pub open spec fn buffered_header(header: Seq<u8>) -> Seq<u8> {
    spec_u32_to_le_bytes(24) + header.skip(4)
}

/// Copies the payload of a reply to the buffer of the channel, and makes what is sent in its place.
pub fn prepare_buffered_reply(destination: &mut [u8], buffers: &[&[u8]]) -> (r: std::result::Result<
    BufferedReply,
    FuseError,
>)
    ensures
        final(destination)@ == (if payload_error(
            buffers@,
            old(destination)@.len() as int,
        ) is None {
            overlaid(old(destination)@, payload_of(buffers@))
        } else {
            old(destination)@
        }),
        match r {
            Ok(reply) => {
                &&& payload_error(buffers@, old(destination)@.len() as int) is None
                &&& reply.header@ == buffered_header(buffers@[0]@)
                &&& reply.header@.len() == FUSE_OUT_HEADER_SIZE
                &&& reply.buffer_out.size == payload_of(buffers@).len()
                &&& reply.buffer_out.flags == 0
            },
            Err(e) => match payload_error(buffers@, old(destination)@.len() as int) {
                Some(error) => e@ == error,
                None => payload_of(buffers@).len() > u32::MAX && e@ == fault(
                    ErrorKind::InvalidInput,
                    "reply payload exceeds u32"@,
                ),
            },
        },
{
    let payload_size: usize = match copy_reply_payload(destination, buffers) {
        Ok(n) => n,
        Err(e) => return Err(e),
    };
    let mut header = u32_to_le_bytes(24);
    let mut rest = vstd::slice::slice_to_vec(slice_subrange(buffers[0], 4, 16));
    assert(rest@ =~= buffers@[0]@.skip(4));
    header.append(&mut rest);
    if payload_size > 0xffff_ffff {
        return Err(fuse_error(ErrorKind::InvalidInput, "reply payload exceeds u32"));
    }
    Ok(
        BufferedReply {
            header,
            buffer_out: FuseReplyBufferOut { size: payload_size as u32, flags: 0 },
        },
    )
}

/// A reply that went through the buffer of the channel keeps its unique number and its error, and
/// tells the length of what is sent.
pub proof fn law_buffered_reply_is_correlated(header: Seq<u8>)
    requires
        header.len() == FUSE_OUT_HEADER_SIZE,
    ensures
        unique_of(buffered_header(header)) == unique_of(header),
        reply_success(buffered_header(header)) == reply_success(header),
        spec_u32_from_le_bytes(buffered_header(header).take(4)) == FUSE_OUT_HEADER_SIZE
            + FUSE_REPLY_BUFFER_OUT_SIZE,
{
    lemma_auto_spec_u32_to_from_le_bytes();
    let h = buffered_header(header);
    assert(h.subrange(8, 16) =~= header.subrange(8, 16));
    assert(h.subrange(4, 8) =~= header.subrange(4, 8));
    assert(h.take(4) =~= spec_u32_to_le_bytes(24));
}

/// The number of bytes that go out for a reply whose payload went through the buffer of the channel.
pub const FUSE_BUFFERED_REPLY_SIZE: usize = 24;

/// How a reply is sent.
#[derive(Clone, Copy, Debug, PartialEq, Eq, Structural)]
pub enum ReplyPlan {
    /// Its payload goes through the buffer of the channel.
    Buffered,
    /// It is sent as it is, and this many bytes must go out.
    Ordinary(usize),
}

/// How a reply is sent: where the message has a buffer and the reply tells of success, its payload
/// goes through the buffer.
pub open spec fn planned_reply(buffers: Seq<&[u8]>, has_buffer: bool) -> std::result::Result<
    ReplyPlan,
    FuseErrorView,
> {
    match reply_size(buffers) {
        Err(e) => Err(e),
        Ok(size) => if !has_buffer {
            Ok(ReplyPlan::Ordinary(size as usize))
        } else {
            match reply_success(buffers[0]@) {
                Err(e) => Err(e),
                Ok(true) => Ok(ReplyPlan::Buffered),
                Ok(false) => Ok(ReplyPlan::Ordinary(size as usize)),
            }
        },
    }
}

/// How a reply is sent.
pub fn plan_reply(buffers: &[&[u8]], has_buffer: bool) -> (r: std::result::Result<
    ReplyPlan,
    FuseError,
>)
    requires
        buffers@.len() > 0,
    ensures
        fuse_outcome(r) == planned_reply(buffers@, has_buffer),
{
    let size: usize = match ordinary_reply_size(buffers) {
        Ok(n) => n,
        Err(e) => return Err(e),
    };
    if !has_buffer {
        return Ok(ReplyPlan::Ordinary(size));
    }
    match fuse_reply_succeeded(buffers[0]) {
        Ok(succeeded) => if succeeded {
            Ok(ReplyPlan::Buffered)
        } else {
            Ok(ReplyPlan::Ordinary(size))
        },
        Err(e) => Err(e),
    }
}

/// What the number of bytes that went out means; below zero the system tells why.
pub fn sent_outcome(sent: i64, expected: usize) -> (r: std::result::Result<(), FuseError>)
    ensures
        fuse_outcome(r) == (if sent < 0 {
            std::result::Result::<(), FuseErrorView>::Err(FuseErrorView::System(Errno::Last))
        } else if sent != expected {
            Err(
                fault(
                    ErrorKind::WriteZero,
                    "MFChannelSendMessage sent "@ + signed_decimal(sent as int) + " of "@ + decimal(
                        expected as nat,
                    ) + " bytes"@,
                ),
            )
        } else {
            Ok(())
        }),
{
    if sent < 0 {
        return Err(FuseError::System(Errno::Last));
    }
    if sent as u64 != expected as u64 {
        let sent = to_signed_decimal(sent);
        let expected = to_decimal(expected as u64);
        return Err(
            FuseError::Message {
                kind: ErrorKind::WriteZero,
                message: "MFChannelSendMessage sent ".to_owned().concat(&sent).concat(
                    " of ",
                ).concat(&expected).concat(" bytes"),
            },
        );
    }
    Ok(())
}

/// What the number of bytes of an error reply that went out means.
pub fn errno_sent_outcome(sent: i64) -> (r: std::result::Result<(), FuseError>)
    ensures
        fuse_outcome(r) == (if sent < 0 {
            std::result::Result::<(), FuseErrorView>::Err(FuseErrorView::System(Errno::Last))
        } else if sent != FUSE_OUT_HEADER_SIZE {
            Err(
                fault(
                    ErrorKind::WriteZero,
                    "MFChannelSendMessage sent "@ + signed_decimal(sent as int) + " of "@ + decimal(
                        16,
                    ) + " error-reply bytes"@,
                ),
            )
        } else {
            Ok(())
        }),
{
    if sent < 0 {
        return Err(FuseError::System(Errno::Last));
    }
    if sent != 16 {
        let sent = to_signed_decimal(sent);
        let expected = to_decimal(16);
        return Err(
            FuseError::Message {
                kind: ErrorKind::WriteZero,
                message: "MFChannelSendMessage sent ".to_owned().concat(&sent).concat(
                    " of ",
                ).concat(&expected).concat(" error-reply bytes"),
            },
        );
    }
    Ok(())
}

/// What is done about a reply that could not be prepared.
#[derive(Debug)]
pub enum FailedReply {
    /// The message that waits for it is told of an I/O error.
    ReplyIoError,
    /// No message waits for it, and the sender is told.
    Fail(FuseError),
}

/// Decides what is done about a reply that could not be prepared.
pub fn failed_reply(has_pending: bool, error: FuseError) -> (step: FailedReply)
    ensures
        step == (if has_pending {
            FailedReply::ReplyIoError
        } else {
            FailedReply::Fail(error)
        }),
{
    if has_pending {
        FailedReply::ReplyIoError
    } else {
        FailedReply::Fail(error)
    }
}

// ---------------------------------------------------------------------------
// What the bytes of a message say
// ---------------------------------------------------------------------------
/// A message is known by the number in its second eight bytes, and a reply tells of success where the four
/// bytes before these are zero; what stands elsewhere does not count.
pub proof fn law_header_is_read_at_its_place(
    len: u32,
    error: u32,
    unique: u64,
    rest: Seq<u8>,
    short: Seq<u8>,
)
    ensures
        header_of(len, error, unique).len() == 16,
        unique_of(header_of(len, error, unique) + rest) == std::result::Result::<u64, Errno>::Ok(
            unique,
        ),
        reply_success(header_of(len, error, unique) + rest) == std::result::Result::<
            bool,
            FuseErrorView,
        >::Ok(error == 0),
        spec_u32_from_le_bytes((header_of(len, error, unique) + rest).take(4)) == len,
        short.len() < 16 ==> unique_of(short) == std::result::Result::<u64, Errno>::Err(
            Errno::EPROTO,
        ),
        short.len() < 8 ==> reply_success(short) is Err,
{
    lemma_auto_spec_u32_to_from_le_bytes();
    lemma_auto_spec_u64_to_from_le_bytes();
    let h = header_of(len, error, unique) + rest;
    assert(h.subrange(8, 16) =~= spec_u64_to_le_bytes(unique));
    assert(h.subrange(4, 8) =~= spec_u32_to_le_bytes(error));
    assert(h.take(4) =~= spec_u32_to_le_bytes(len));
}

/// An error goes out as its number below zero, in 32 bits.
pub proof fn law_error_goes_out_below_zero(errno: i32)
    requires
        errno > i32::MIN,
    ensures
        errno == 0 ==> negated(errno) == 0,
        errno > 0 ==> negated(errno) + errno == 0x1_0000_0000,
        errno < 0 ==> negated(errno) - errno == 0x1_0000_0000,
{
}

/// Parts are put together in their order, and none is left out but one without an address.
pub proof fn law_parts_are_put_together(
    bodies: Seq<Option<&[u8]>>,
    body: &[u8],
    buffers: Seq<&[u8]>,
)
    ensures
        body_bytes(Seq::<Option<&[u8]>>::empty()).len() == 0,
        body_bytes(bodies.push(Some(body))) == body_bytes(bodies) + body@,
        body_bytes(bodies.push(None)) == body_bytes(bodies),
        flat(Seq::<&[u8]>::empty()).len() == 0,
        flat(buffers.push(body)) == flat(buffers) + body@,
        payload_of(seq![body] + buffers) == flat(buffers),
{
    assert(bodies.push(Some(body)).drop_last() =~= bodies);
    assert(bodies.push(None).drop_last() =~= bodies);
    assert(body_bytes(bodies.push(None)) =~= body_bytes(bodies));
    assert(buffers.push(body).drop_last() =~= buffers);
    assert((seq![body] + buffers).skip(1) =~= buffers);
}

/// The parts that are copied are the first ones, as many as have an address and fit into the size of the
/// body; the first that does not ends the copying.
pub proof fn law_first_parts_are_copied(bodies: Seq<Option<&[u8]>>, size: int)
    ensures
        0 <= copied_parts(bodies, size) <= bodies.len(),
        forall|i: int| 0 <= i < copied_parts(bodies, size) ==> (#[trigger] bodies[i]) is Some,
        copied_parts(bodies, size) > 0 ==> body_bytes(
            bodies.take(copied_parts(bodies, size)),
        ).len() <= size,
        copied_parts(bodies, size) < bodies.len() ==> bodies[copied_parts(bodies, size)] is None
            || body_bytes(bodies.take(copied_parts(bodies, size) + 1)).len() > size,
    decreases bodies.len(),
{
    if bodies.len() > 0 {
        let head = bodies.drop_last();
        law_first_parts_are_copied(head, size);
        let before = copied_parts(head, size);
        let n = copied_parts(bodies, size);
        assert(bodies.take(bodies.len() as int) =~= bodies);
        assert(forall|i: int| 0 <= i < head.len() ==> #[trigger] bodies[i] == head[i]);
        if n == before {
            assert(bodies.take(n) =~= head.take(n));
            if n < head.len() {
                assert(bodies.take(n + 1) =~= head.take(n + 1));
            }
        }
    }
}

/// Bytes that are laid over others take the place of as many of them; what stands behind them stays.
pub proof fn law_bytes_are_laid_over(base: Seq<u8>, bytes: Seq<u8>, i: int)
    requires
        bytes.len() <= base.len(),
    ensures
        overlaid(base, bytes).len() == base.len(),
        0 <= i < bytes.len() ==> overlaid(base, bytes)[i] == bytes[i],
        bytes.len() <= i < base.len() ==> overlaid(base, bytes)[i] == base[i],
{
}

/// A message can be taken in where it is not empty, has a part and fits into the room.
pub proof fn law_message_must_fit(bodies: Seq<Option<&[u8]>>, size: usize, room: int)
    ensures
        is_takable(bodies, size, room) <==> size > 0 && size <= room && bodies.len() > 0,
{
}

/// A payload goes through the buffer of the channel where the reply has a whole header and the payload
/// fits; in every other case that is an error.
pub proof fn law_payload_must_fit(buffers: Seq<&[u8]>, room: int)
    requires
        0 <= room <= usize::MAX,
    ensures
        payload_error(buffers, room) is None <==> buffers.len() > 0 && buffers[0]@.len() == 16
            && payload_of(buffers).len() <= room,
{
}

/// A reply is as long as its parts together. It goes through the buffer where there is one and the reply
/// tells of success, and as it is in every other case.
pub proof fn law_only_success_goes_through_buffer(buffers: Seq<&[u8]>)
    requires
        buffers.len() > 0,
        buffers[0]@.len() >= 8,
        flat(buffers).len() <= usize::MAX,
    ensures
        planned_reply(buffers, false) == std::result::Result::<ReplyPlan, FuseErrorView>::Ok(
            ReplyPlan::Ordinary(flat(buffers).len() as usize),
        ),
        spec_u32_from_le_bytes(buffers[0]@.subrange(4, 8)) == 0 ==> planned_reply(buffers, true)
            == std::result::Result::<ReplyPlan, FuseErrorView>::Ok(ReplyPlan::Buffered),
        spec_u32_from_le_bytes(buffers[0]@.subrange(4, 8)) != 0 ==> planned_reply(buffers, true)
            == std::result::Result::<ReplyPlan, FuseErrorView>::Ok(
            ReplyPlan::Ordinary(flat(buffers).len() as usize),
        ),
{
}

/// The header that goes with a payload in the buffer tells 24 bytes and is the reply's own in all else.
pub proof fn law_buffered_header_tells_its_size(len: u32, error: u32, unique: u64)
    ensures
        buffered_header(header_of(len, error, unique)) == header_of(24, error, unique),
{
    lemma_auto_spec_u32_to_from_le_bytes();
    lemma_auto_spec_u64_to_from_le_bytes();
    let h = header_of(len, error, unique);
    assert(h.skip(4) =~= spec_u32_to_le_bytes(error) + spec_u64_to_le_bytes(unique));
    assert(buffered_header(h) =~= header_of(24, error, unique));
}

/// An error is seen as what it is.
pub proof fn law_fuse_errors_are_seen_as_they_are(e: FuseError)
    ensures
        e matches FuseError::Message { kind, message } ==> e@ == (FuseErrorView::Message {
            kind,
            message: message@,
        }),
        e matches FuseError::System(errno) ==> e@ == FuseErrorView::System(errno),
{
}

/// An outcome is seen as what it is.
pub proof fn law_fuse_outcome_is_seen_as_it_is<T>(value: T, e: FuseError)
    ensures
        fuse_outcome(Ok(value)) == std::result::Result::<T, FuseErrorView>::Ok(value),
        fuse_outcome::<T>(Err(e)) == std::result::Result::<T, FuseErrorView>::Err(e@),
{
}

/// Replies that cannot be sent tell why.
pub proof fn law_refused_replies_tell_why(buffers: Seq<&[u8]>, room: int, header: Seq<u8>)
    requires
        0 <= room <= usize::MAX,
    ensures
        header.len() < 8 ==> reply_success(header) == std::result::Result::<
            bool,
            FuseErrorView,
        >::Err(
            FuseErrorView::Message {
                kind: ErrorKind::InvalidInput,
                message: "short FUSE reply header"@,
            },
        ),
        flat(buffers).len() > usize::MAX ==> reply_size(buffers) == std::result::Result::<
            int,
            FuseErrorView,
        >::Err(
            FuseErrorView::Message {
                kind: ErrorKind::InvalidInput,
                message: "reply size overflow"@,
            },
        ),
        flat(buffers).len() <= usize::MAX ==> reply_size(buffers) == std::result::Result::<
            int,
            FuseErrorView,
        >::Ok(flat(buffers).len() as int),
        buffers.len() == 0 || buffers[0]@.len() != 16 ==> payload_error(buffers, room) == Some(
            FuseErrorView::Message {
                kind: ErrorKind::InvalidInput,
                message: "unexpected FUSE reply header size"@,
            },
        ),
        buffers.len() > 0 && buffers[0]@.len() == 16 && room < payload_of(buffers).len()
            <= usize::MAX ==> payload_error(buffers, room) == Some(
            FuseErrorView::Message {
                kind: ErrorKind::InvalidInput,
                message: "reply payload "@ + decimal(payload_of(buffers).len())
                    + " exceeds MFMessage buffer "@ + decimal(room as nat),
            },
        ),
{
}

} // verus!
