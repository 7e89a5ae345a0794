//! A macFUSE channel: what it takes in, what it owes replies, and when it is closing.

use crate::fuse::body_bytes;
use crate::fuse::copied_parts;
use crate::fuse::copy_body_buffers;
use crate::fuse::fault;
use crate::fuse::fuse_error;
use crate::fuse::fuse_errno_reply_header;
use crate::fuse::fuse_message_unique;
use crate::fuse::header_of;
use crate::fuse::is_takable;
use crate::fuse::negated;
use crate::fuse::overlaid;
use crate::fuse::unique_of;
use crate::fuse::BodyBuffer;
use crate::fuse::Errno;
use crate::fuse::ErrorKind;
use crate::fuse::FuseError;
use crate::fuse::FuseErrorView;
use crate::fuse::PendingMessages;
use crate::fuse_mount::failure_text;
use crate::fuse_mount::MountFailure;
use crate::fuse_mount::MF_MOUNT_FILE_SYSTEM_EXTENSION_REQUIRES_APPROVAL;
use crate::fuse_mount::MF_MOUNT_UNSUPPORTED_OS_VERSION;
use crate::numeral::decimal;
use crate::numeral::to_decimal;
use vstd::prelude::*;
use vstd::slice::slice_subrange;

verus! {

/// The state of a channel.
#[verifier::reject_recursive_types(T)]
#[derive(Debug)]
pub struct MacFuseChannel<T> {
    closing: bool,
    closed: bool,
    mount_failure: Option<MountFailure>,
    pending: PendingMessages<T>,
}

/// What the state of a channel comes to.
#[verifier::reject_recursive_types(T)]
pub struct ChannelView<T> {
    pub closing: bool,
    pub closed: bool,
    pub mount_failure: Option<MountFailure>,
    pub pending: Map<u64, T>,
}

impl<T> View for MacFuseChannel<T> {
    type V = ChannelView<T>;

    closed spec fn view(&self) -> ChannelView<T> {
        ChannelView {
            closing: self.closing,
            closed: self.closed,
            mount_failure: self.mount_failure,
            pending: self.pending@,
        }
    }
}

/// The error number with which a channel ends.
pub open spec fn end_errno(failure: Option<MountFailure>) -> Errno {
    match failure {
        Some(f) => if f.result == MF_MOUNT_UNSUPPORTED_OS_VERSION {
            Errno::ENOTSUP
        } else if f.result == MF_MOUNT_FILE_SYSTEM_EXTENSION_REQUIRES_APPROVAL {
            Errno::EACCES
        } else {
            Errno::EIO
        },
        None => Errno::ENODEV,
    }
}

/// What taking a message in gives: its size, and the unique number under which it waits for a reply.
pub open spec fn taken_in(
    body_size: i64,
    bodies: Option<Seq<Option<&[u8]>>>,
    room: int,
    pending: Set<u64>,
) -> std::result::Result<(usize, u64), Errno> {
    if body_size < 0 {
        Err(Errno::Last)
    } else {
        match bodies {
            None => if body_size > usize::MAX {
                Err(Errno::EIO)
            } else {
                Err(Errno::Last)
            },
            Some(bodies) => if body_size > usize::MAX || !is_takable(
                bodies,
                body_size as usize,
                room,
            ) || copied_parts(bodies, body_size as int) != bodies.len() || body_bytes(bodies).len()
                != body_size {
                Err(Errno::EIO)
            } else {
                match unique_of(body_bytes(bodies)) {
                    Err(e) => Err(e),
                    Ok(unique) => if pending.contains(unique) {
                        Err(Errno::EPROTO)
                    } else {
                        Ok((body_size as usize, unique))
                    },
                }
            },
        }
    }
}

/// The optional parts of a body.
pub open spec fn opt_bodies<'a>(bodies: Option<&[BodyBuffer<'a>]>) -> Option<Seq<Option<&'a [u8]>>> {
    match bodies {
        Some(b) => Some(b@),
        None => None,
    }
}

/// A reply that may be sent.
#[verifier::reject_recursive_types(T)]
#[derive(Debug)]
pub struct SendStart<T> {
    pub unique: u64,
    /// The message that waited for it; none for a message that nobody waits for.
    pub pending: Option<T>,
}

/// The error of a reply that may not be sent.
pub open spec fn send_error(
    buffers: Seq<&[u8]>,
    pending: Set<u64>,
    closing: bool,
) -> Option<FuseErrorView> {
    if buffers.len() == 0 {
        Some(
            fault(
                ErrorKind::InvalidInput,
                "MFChannelSendMessage requires at least one buffer"@,
            ),
        )
    } else {
        match unique_of(buffers[0]@) {
            Err(e) => Some(FuseErrorView::System(e)),
            Ok(unique) => if unique != 0 && !pending.contains(unique) {
                Some(
                    fault(
                        ErrorKind::NotFound,
                        "MFChannel reply had no pending message unique="@ + decimal(unique as nat),
                    ),
                )
            } else if closing {
                Some(FuseErrorView::System(Errno::ENODEV))
            } else {
                None
            },
        }
    }
}

impl<T> MacFuseChannel<T> {
    /// A channel that has just been opened.
    pub fn new() -> (channel: MacFuseChannel<T>)
        ensures
            channel@ == (ChannelView {
                closing: false,
                closed: false,
                mount_failure: None,
                pending: Map::<u64, T>::empty(),
            }),
    {
        MacFuseChannel {
            closing: false,
            closed: false,
            mount_failure: None,
            pending: PendingMessages::new(),
        }
    }

    /// Notes why the mount failed.
    pub fn set_mount_failure(&mut self, failure: MountFailure)
        ensures
            final(self)@ == (ChannelView { mount_failure: Some(failure), ..old(self)@ }),
    {
        self.mount_failure = Some(failure);
    }

    /// Whether the channel is closing.
    pub fn is_closing(&self) -> (closing: bool)
        ensures
            closing == self@.closing,
    {
        self.closing
    }

    /// Begins to close the channel: from now on nothing is taken in or sent.
    pub fn begin_closing(&mut self)
        ensures
            final(self)@ == (ChannelView { closing: true, ..old(self)@ }),
    {
        self.closing = true;
    }

    /// Closes the channel, and drops every message that waits for a reply.
    pub fn mark_closed_by_fuse_channel(&mut self)
        ensures
            final(self)@ == (ChannelView {
                closing: true,
                closed: true,
                pending: Map::<u64, T>::empty(),
                ..old(self)@
            }),
    {
        self.closing = true;
        self.closed = true;
        self.pending.clear();
    }

    /// The error number with which the channel ends.
    pub fn terminal_errno(&self) -> (errno: Errno)
        ensures
            errno == end_errno(self@.mount_failure),
    {
        match &self.mount_failure {
            Some(failure) => failure.terminal_errno(),
            None => Errno::ENODEV,
        }
    }

    /// The error of the mount, where it failed.
    pub fn mount_error(&self) -> (error: Option<FuseError>)
        ensures
            match self@.mount_failure {
                Some(f) => error is Some && error->Some_0@ == fault(
                    f.kind,
                    failure_text(f.message@, f.result, f.errno),
                ),
                None => error is None,
            },
    {
        match &self.mount_failure {
            Some(failure) => Some(failure.io_error()),
            None => None,
        }
    }

    /// Whether a message may be waited for.
    pub fn may_receive(&self) -> (r: std::result::Result<(), Errno>)
        ensures
            r == (if self@.closing {
                std::result::Result::<(), Errno>::Err(end_errno(self@.mount_failure))
            } else {
                Ok(())
            }),
    {
        if self.closing {
            Err(self.terminal_errno())
        } else {
            Ok(())
        }
    }

    /// Whether a blocked receiver may be interrupted.
    pub fn may_interrupt(&self) -> (r: std::result::Result<(), Errno>)
        ensures
            r == (if self@.closed {
                std::result::Result::<(), Errno>::Err(Errno::ENODEV)
            } else {
                Ok(())
            }),
    {
        if self.closed {
            Err(Errno::ENODEV)
        } else {
            Ok(())
        }
    }

    /// Takes a message in: copies its body to a buffer and keeps it until it is answered. A size below
    /// zero, or parts that could not be had, mean that the system tells why.
    pub fn take_in<'a>(
        &mut self,
        message: T,
        body_size: i64,
        bodies: Option<&[BodyBuffer<'a>]>,
        buffer: &mut [u8],
    ) -> (r: std::result::Result<usize, Errno>)
        ensures
            final(buffer)@.len() == old(buffer)@.len(),
            match taken_in(
                body_size,
                opt_bodies(bodies),
                old(buffer)@.len() as int,
                old(self)@.pending.dom(),
            ) {
                Ok((size, unique)) => {
                    &&& r == std::result::Result::<usize, Errno>::Ok(size)
                    &&& final(self)@ == (ChannelView {
                        pending: old(self)@.pending.insert(unique, message),
                        ..old(self)@
                    })
                    &&& final(buffer)@ == overlaid(
                        old(buffer)@,
                        body_bytes(opt_bodies(bodies)->Some_0),
                    )
                },
                Err(e) => {
                    &&& r == std::result::Result::<usize, Errno>::Err(e)
                    &&& final(self)@ == old(self)@
                },
            },
    {
        if body_size < 0 {
            return Err(Errno::Last);
        }
        if body_size as u64 > usize::MAX as u64 {
            return Err(Errno::EIO);
        }
        let bodies = match bodies {
            Some(bodies) => bodies,
            None => return Err(Errno::Last),
        };
        let ghost room = buffer@.len() as int;
        let received: usize = match copy_body_buffers(bodies, body_size as usize, buffer) {
            Ok(n) => n,
            Err(e) => return Err(e),
        };
        proof {
            assert(bodies@.take(bodies@.len() as int) =~= bodies@);
            assert(buffer@.subrange(0, received as int) =~= body_bytes(bodies@));
        }
        let unique: u64 = match fuse_message_unique(slice_subrange(buffer, 0, received)) {
            Ok(unique) => unique,
            Err(e) => return Err(e),
        };
        match self.pending.insert(unique, message) {
            Ok(_) => Ok(received),
            Err(_) => Err(Errno::EPROTO),
        }
    }

    /// Notes that a message needs no reply; false where no such message waits.
    pub fn complete_without_reply(&mut self, unique: u64) -> (waited: bool)
        ensures
            waited == old(self)@.pending.contains_key(unique),
            final(self)@ == (ChannelView {
                pending: old(self)@.pending.remove(unique),
                ..old(self)@
            }),
    {
        match self.pending.remove(unique) {
            Some(_) => true,
            None => false,
        }
    }

    /// The error reply for a message that waits; the message waits no longer.
    pub fn fail_pending_request(&mut self, unique: u64, errno: i32) -> (r: std::result::Result<
        Vec<u8>,
        FuseError,
    >)
        requires
            errno > i32::MIN,
        ensures
            final(self)@ == (ChannelView {
                pending: old(self)@.pending.remove(unique),
                ..old(self)@
            }),
            match r {
                Ok(header) => {
                    &&& old(self)@.pending.contains_key(unique)
                    &&& !old(self)@.closing
                    &&& header@ == header_of(16, negated(errno), unique)
                },
                Err(e) => if !old(self)@.pending.contains_key(unique) {
                    e@ == fault(
                        ErrorKind::NotFound,
                        "MFChannel error completion had no pending message unique="@ + decimal(
                            unique as nat,
                        ),
                    )
                } else {
                    old(self)@.closing && e@ == FuseErrorView::System(Errno::ENODEV)
                },
            },
    {
        match self.pending.remove(unique) {
            Some(_) => {},
            None => {
                let shown = to_decimal(unique);
                return Err(
                    FuseError::Message {
                        kind: ErrorKind::NotFound,
                        message: "MFChannel error completion had no pending message unique=".to_owned().concat(
                            &shown,
                        ),
                    },
                );
            },
        }
        if self.closing {
            return Err(FuseError::System(Errno::ENODEV));
        }
        Ok(fuse_errno_reply_header(unique, errno))
    }

    /// Begins to send a reply. The message that waited for it waits no longer, also where the channel
    /// is closing and the reply may not be sent.
    pub fn begin_send(&mut self, buffers: &[&[u8]]) -> (r: std::result::Result<
        SendStart<T>,
        FuseError,
    >)
        ensures
            match r {
                Ok(start) => {
                    &&& send_error(buffers@, old(self)@.pending.dom(), old(self)@.closing) is None
                    &&& unique_of(buffers@[0]@) == std::result::Result::<u64, Errno>::Ok(
                        start.unique,
                    )
                    &&& match start.pending {
                        Some(m) => old(self)@.pending.contains_key(start.unique)
                            && old(self)@.pending[start.unique] == m,
                        None => !old(self)@.pending.contains_key(start.unique),
                    }
                },
                Err(e) => send_error(buffers@, old(self)@.pending.dom(), old(self)@.closing)
                    == Some(e@),
            },
            final(self)@ == (ChannelView {
                pending: if buffers@.len() > 0 && unique_of(buffers@[0]@) is Ok {
                    old(self)@.pending.remove(unique_of(buffers@[0]@)->Ok_0)
                } else {
                    old(self)@.pending
                },
                ..old(self)@
            }),
    {
        if buffers.len() == 0 {
            return Err(
                fuse_error(
                    ErrorKind::InvalidInput,
                    "MFChannelSendMessage requires at least one buffer",
                ),
            );
        }
        let unique: u64 = match fuse_message_unique(buffers[0]) {
            Ok(unique) => unique,
            Err(e) => return Err(FuseError::System(e)),
        };
        let pending = self.pending.remove(unique);
        if unique != 0 && pending.is_none() {
            let shown = to_decimal(unique);
            return Err(
                FuseError::Message {
                    kind: ErrorKind::NotFound,
                    message: "MFChannel reply had no pending message unique=".to_owned().concat(
                        &shown,
                    ),
                },
            );
        }
        if self.closing {
            return Err(FuseError::System(Errno::ENODEV));
        }
        Ok(SendStart { unique, pending })
    }
}

/// A message is answered at most once: after its reply, or after the channel was closed, none waits
/// under its number, and a further reply is refused.
pub proof fn law_message_is_answered_once(buffers: Seq<&[u8]>, pending: Set<u64>, closing: bool)
    requires
        buffers.len() > 0,
        unique_of(buffers[0]@) is Ok,
        unique_of(buffers[0]@)->Ok_0 != 0,
    ensures
        ({
            let unique = unique_of(buffers[0]@)->Ok_0;
            &&& send_error(buffers, pending.remove(unique), closing) is Some
            &&& send_error(buffers, Set::empty(), true) is Some
        }),
{
}

/// A channel that ends tells why: the system is too old, the extension waits for approval, something
/// else failed, or nothing failed and the mount is gone.
pub proof fn law_end_of_channel_is_told(failure: MountFailure)
    ensures
        failure.result == 1 ==> end_errno(Some(failure)) == Errno::ENOTSUP,
        failure.result == 4 ==> end_errno(Some(failure)) == Errno::EACCES,
        failure.result != 1 && failure.result != 4 ==> end_errno(Some(failure)) == Errno::EIO,
        end_errno(None) == Errno::ENODEV,
{
}

/// A message is taken in with its size and its number where all its parts are there, fill it and fit into
/// the room, and where no message of the same number waits for its reply; in every other case it is
/// refused.
pub proof fn law_whole_message_is_taken_in(
    size: i64,
    bodies: Seq<Option<&[u8]>>,
    room: int,
    pending: Set<u64>,
)
    requires
        0 <= room <= usize::MAX,
    ensures
        match taken_in(size, Some(bodies), room, pending) {
            Ok((n, unique)) => {
                &&& n == size && 0 < size <= room
                &&& forall|i: int| 0 <= i < bodies.len() ==> (#[trigger] bodies[i]) is Some
                &&& body_bytes(bodies).len() == size
                &&& unique_of(body_bytes(bodies)) == std::result::Result::<u64, Errno>::Ok(unique)
                &&& !pending.contains(unique)
            },
            Err(_) => {
                ||| size <= 0 || size > room || bodies.len() == 0
                ||| exists|i: int| 0 <= i < bodies.len() && (#[trigger] bodies[i]) is None
                ||| body_bytes(bodies).len() != size
                ||| size < 16
                ||| pending.contains(unique_of(body_bytes(bodies))->Ok_0)
            },
        },
        taken_in(size, None, room, pending) is Err,
{
    crate::fuse::law_first_parts_are_copied(bodies, size as int);
    let n = copied_parts(bodies, size as int);
    if 0 <= n < bodies.len() && bodies[n] is Some && body_bytes(bodies).len() == size {
        lemma_bytes_of_first(bodies, n + 1);
    }
}

/// The first parts have no more bytes than all of them.
proof fn lemma_bytes_of_first(bodies: Seq<Option<&[u8]>>, n: int)
    requires
        0 <= n <= bodies.len(),
    ensures
        body_bytes(bodies.take(n)).len() <= body_bytes(bodies).len(),
    decreases bodies.len(),
{
    if n < bodies.len() {
        lemma_bytes_of_first(bodies.drop_last(), n);
        assert(bodies.drop_last().take(n) =~= bodies.take(n));
    } else {
        assert(bodies.take(n) =~= bodies);
    }
}

/// A reply is sent where it answers a message that waits for it, or none at all, and the channel stays
/// open.
pub proof fn law_reply_needs_its_message(
    buffers: Seq<&[u8]>,
    pending: Set<u64>,
    closing: bool,
    unique: u64,
)
    requires
        buffers.len() > 0,
        unique_of(buffers[0]@) == std::result::Result::<u64, Errno>::Ok(unique),
    ensures
        send_error(buffers, pending, closing) is None <==> (unique == 0 || pending.contains(unique))
            && !closing,
        unique != 0 && !pending.contains(unique) ==> send_error(buffers, pending, closing) == Some(
            fault(
                ErrorKind::NotFound,
                "MFChannel reply had no pending message unique="@ + decimal(unique as nat),
            ),
        ),
        (unique == 0 || pending.contains(unique)) && closing ==> send_error(
            buffers,
            pending,
            closing,
        ) == Some(FuseErrorView::System(Errno::ENODEV)),
        send_error(Seq::empty(), pending, closing) is Some,
{
}

/// A reply without any bytes, or with half a header, is refused.
pub proof fn law_empty_reply_is_refused(
    buffers: Seq<&[u8]>,
    pending: Set<u64>,
    closing: bool,
)
    ensures
        send_error(Seq::empty(), pending, closing) == Some(
            FuseErrorView::Message {
                kind: ErrorKind::InvalidInput,
                message: "MFChannelSendMessage requires at least one buffer"@,
            },
        ),
        buffers.len() > 0 && buffers[0]@.len() < 16 ==> send_error(buffers, pending, closing)
            == Some(FuseErrorView::System(Errno::EPROTO)),
{
}

/// A message that is not taken in tells why: the system's own error where it gave no message, an error of
/// the transport where the parts do not make up the message, and one of the protocol where its header is
/// short or its number waits already.
pub proof fn law_refused_message_tells_why(
    size: i64,
    bodies: Seq<Option<&[u8]>>,
    room: int,
    pending: Set<u64>,
)
    requires
        0 <= room <= usize::MAX,
    ensures
        size < 0 ==> taken_in(size, Some(bodies), room, pending) == std::result::Result::<
            (usize, u64),
            Errno,
        >::Err(Errno::Last) && taken_in(size, None, room, pending) == std::result::Result::<
            (usize, u64),
            Errno,
        >::Err(Errno::Last),
        0 <= size <= usize::MAX ==> taken_in(size, None, room, pending) == std::result::Result::<
            (usize, u64),
            Errno,
        >::Err(Errno::Last),
        size > usize::MAX ==> taken_in(size, None, room, pending) == std::result::Result::<
            (usize, u64),
            Errno,
        >::Err(Errno::EIO),
        size == 0 || size > room || (size > 0 && (bodies.len() == 0 || body_bytes(bodies).len()
            != size)) ==> taken_in(size, Some(bodies), room, pending) == std::result::Result::<
            (usize, u64),
            Errno,
        >::Err(Errno::EIO),
        0 < size <= room && size < 16 && bodies.len() > 0 && copied_parts(bodies, size as int)
            == bodies.len() && body_bytes(bodies).len() == size ==> taken_in(
            size,
            Some(bodies),
            room,
            pending,
        ) == std::result::Result::<(usize, u64), Errno>::Err(Errno::EPROTO),
        16 <= size <= room && bodies.len() > 0 && copied_parts(bodies, size as int) == bodies.len()
            && body_bytes(bodies).len() == size && pending.contains(
            unique_of(body_bytes(bodies))->Ok_0,
        ) ==> taken_in(size, Some(bodies), room, pending) == std::result::Result::<
            (usize, u64),
            Errno,
        >::Err(Errno::EPROTO),
{
}

} // verus!
