//! Writing a file of this host, part by part, into a guest that takes no streams.

use crate::error::ErrorView;
use crate::error::Result;
use crate::shell::assemble_file;
use crate::shell::assembly_command;
use crate::shell::part_path;
use crate::shell::part_path_of;
use crate::shell::staging_path;
use crate::shell::staging_path_of;
use crate::shell::LEGACY_CHUNK_BYTES;
use crate::text::clone_strings;
use crate::text::views;
use crate::transfer::readable;
use crate::transfer::result_view;
use crate::transfer::whole;
use vstd::prelude::*;

verus! {

/// How far a write has come.
#[derive(Clone, Copy, Debug, PartialEq, Eq, Structural)]
pub enum PartsPhase {
    /// The file is being opened.
    Opening,
    /// The next part is being read.
    Reading,
    /// A part is being written.
    Writing,
    /// The guest puts the parts together.
    Assembling,
    /// Nothing is left to be decided.
    Finished,
}

/// What a write meets.
#[derive(Debug)]
pub enum PartsEvent {
    /// The file was opened and has this length.
    Opened(u64),
    /// These bytes were read, none at the end of the file, or the file could not be read.
    Read(Result<Vec<u8>>),
    /// The part was written, or it was not.
    Written(Result<()>),
    /// The command came to its end.
    Ran(Result<()>),
}

/// What a write does next.
#[derive(Debug)]
pub enum PartsAction {
    /// Reads the next part, of so many bytes at most.
    Read { limit: usize },
    /// Writes the bytes as a file of the guest.
    Write { part: String, data: Vec<u8> },
    /// Runs the command that puts the parts together.
    Run(String),
    /// Removes files of the guest, one after the other, whether or not each can be removed, and ends
    /// with the result.
    Finish { remove: Vec<String>, result: Result<()> },
}

/// The model of a `PartsEvent`.
pub enum PartsEventView {
    Opened(u64),
    Read(std::result::Result<Seq<u8>, ErrorView>),
    Written(std::result::Result<(), ErrorView>),
    Ran(std::result::Result<(), ErrorView>),
}

/// The model of a `PartsAction`.
pub enum PartsActionView {
    Read { limit: usize },
    Write { part: Seq<char>, data: Seq<u8> },
    Run(Seq<char>),
    Finish { remove: Seq<Seq<char>>, result: std::result::Result<(), ErrorView> },
}

impl View for PartsEvent {
    type V = PartsEventView;

    open spec fn view(&self) -> PartsEventView {
        match self {
            PartsEvent::Opened(length) => PartsEventView::Opened(*length),
            PartsEvent::Read(Ok(data)) => PartsEventView::Read(Ok(data@)),
            PartsEvent::Read(Err(e)) => PartsEventView::Read(Err(e@)),
            PartsEvent::Written(r) => PartsEventView::Written(result_view(*r)),
            PartsEvent::Ran(r) => PartsEventView::Ran(result_view(*r)),
        }
    }
}

impl View for PartsAction {
    type V = PartsActionView;

    open spec fn view(&self) -> PartsActionView {
        match self {
            PartsAction::Read { limit } => PartsActionView::Read { limit: *limit },
            PartsAction::Write { part, data } => PartsActionView::Write {
                part: part@,
                data: data@,
            },
            PartsAction::Run(command) => PartsActionView::Run(command@),
            PartsAction::Finish { remove, result } => PartsActionView::Finish {
                remove: views(remove@),
                result: result_view(*result),
            },
        }
    }
}

/// A file that is being written in parts.
#[derive(Debug)]
pub struct PartsWrite {
    path: String,
    mode: Option<u32>,
    transfer_id: String,
    staging: String,
    expected_bytes: u64,
    parts: Vec<String>,
    phase: PartsPhase,
}

/// The model of a `PartsWrite`: the file, the length that it should have, and how many parts are
/// written.
pub struct PartsView {
    pub path: Seq<char>,
    pub mode: Option<u32>,
    pub transfer_id: Seq<char>,
    pub expected_bytes: u64,
    pub written: nat,
    pub phase: PartsPhase,
}

/// The paths of the first parts.
pub open spec fn part_paths(transfer_id: Seq<char>, count: nat) -> Seq<Seq<char>> {
    Seq::new(count, |i: int| part_path_of(transfer_id, i))
}

impl View for PartsWrite {
    type V = PartsView;

    closed spec fn view(&self) -> PartsView {
        PartsView {
            path: self.path@,
            mode: self.mode,
            transfer_id: self.transfer_id@,
            expected_bytes: self.expected_bytes,
            written: self.parts@.len(),
            phase: self.phase,
        }
    }
}

/// The event is one that a write can meet in its phase. No more bytes are read than were asked for.
pub open spec fn expected_parts_event(phase: PartsPhase, event: PartsEventView) -> bool {
    match event {
        PartsEventView::Opened(_) => phase == PartsPhase::Opening,
        PartsEventView::Read(r) => phase == PartsPhase::Reading && (r matches Ok(data) ==> data.len()
            <= LEGACY_CHUNK_BYTES),
        PartsEventView::Written(_) => phase == PartsPhase::Writing,
        PartsEventView::Ran(_) => phase == PartsPhase::Assembling,
    }
}

/// The parts that are written, and the file that they are put together in.
pub open spec fn leftovers(s: PartsView) -> Seq<Seq<char>> {
    part_paths(s.transfer_id, s.written).push(staging_path_of(s.path, s.transfer_id))
}

/// The end of a write.
pub open spec fn finished_write(
    s: PartsView,
    remove: Seq<Seq<char>>,
    result: std::result::Result<(), ErrorView>,
) -> (PartsView, PartsActionView) {
    (
        PartsView { phase: PartsPhase::Finished, ..s },
        PartsActionView::Finish { remove, result },
    )
}

/// What an event makes of a write, and what is done next. Where a part cannot be written, those
/// before it are removed; where the guest has run the command, all are, and so is the file that
/// they were put together in.
pub open spec fn parts_step(s: PartsView, event: PartsEventView) -> (PartsView, PartsActionView) {
    match event {
        PartsEventView::Opened(expected_bytes) => (
            PartsView { expected_bytes, phase: PartsPhase::Reading, ..s },
            PartsActionView::Read { limit: LEGACY_CHUNK_BYTES },
        ),
        PartsEventView::Read(Ok(data)) => if data.len() > 0 {
            (
                PartsView { phase: PartsPhase::Writing, ..s },
                PartsActionView::Write {
                    part: part_path_of(s.transfer_id, s.written as int),
                    data,
                },
            )
        } else {
            (
                PartsView { phase: PartsPhase::Assembling, ..s },
                PartsActionView::Run(
                    assembly_command(
                        s.path,
                        staging_path_of(s.path, s.transfer_id),
                        part_paths(s.transfer_id, s.written),
                        s.expected_bytes,
                        s.mode,
                    ),
                ),
            )
        },
        PartsEventView::Read(Err(e)) => finished_write(s, Seq::empty(), Err(e)),
        PartsEventView::Written(Ok(_)) => (
            PartsView { written: s.written + 1, phase: PartsPhase::Reading, ..s },
            PartsActionView::Read { limit: LEGACY_CHUNK_BYTES },
        ),
        PartsEventView::Written(Err(e)) => finished_write(
            s,
            part_paths(s.transfer_id, s.written),
            Err(e),
        ),
        PartsEventView::Ran(result) => finished_write(s, leftovers(s), result),
    }
}

impl PartsWrite {
    /// The parts are numbered in the order in which they were written.
    pub closed spec fn wf(&self) -> bool {
        &&& views(self.parts@) == part_paths(self.transfer_id@, self.parts@.len())
        &&& self.staging@ == staging_path_of(self.path@, self.transfer_id@)
    }

    /// A write that has not begun. Only an absolute path can be written in parts.
    pub fn new(path: &str, mode: Option<u32>, transfer_id: String) -> (r: Result<PartsWrite>)
        ensures
            match r {
                Ok(write) => path@.len() > 0 && path@[0] == '/' && write.wf() && write@ == (PartsView {
                    path: path@,
                    mode,
                    transfer_id: transfer_id@,
                    expected_bytes: 0,
                    written: 0,
                    phase: PartsPhase::Opening,
                }),
                Err(e) => !(path@.len() > 0 && path@[0] == '/') && e@ == ErrorView::InvalidConfig(
                    "legacy streamed guest writes require an absolute destination"@,
                ),
            },
    {
        match staging_path(path, &transfer_id) {
            Ok(staging) => {
                let parts: Vec<String> = Vec::new();
                assert(views(parts@) =~= part_paths(transfer_id@, 0));
                Ok(
                    PartsWrite {
                        path: path.to_owned(),
                        mode,
                        transfer_id,
                        staging,
                        expected_bytes: 0,
                        parts,
                        phase: PartsPhase::Opening,
                    },
                )
            },
            Err(e) => Err(e),
        }
    }

    /// Takes an event in and says what is done next.
    pub fn step(&mut self, event: PartsEvent) -> (action: PartsAction)
        requires
            old(self).wf(),
            expected_parts_event(old(self)@.phase, event@),
        ensures
            final(self).wf(),
            (final(self)@, action@) == parts_step(old(self)@, event@),
    {
        match event {
            PartsEvent::Opened(expected_bytes) => {
                self.expected_bytes = expected_bytes;
                self.phase = PartsPhase::Reading;
                PartsAction::Read { limit: LEGACY_CHUNK_BYTES }
            },
            PartsEvent::Read(Ok(data)) => {
                if data.len() > 0 {
                    self.phase = PartsPhase::Writing;
                    let part = part_path(&self.transfer_id, self.parts.len());
                    PartsAction::Write { part, data }
                } else {
                    self.phase = PartsPhase::Assembling;
                    PartsAction::Run(
                        assemble_file(
                            &self.path,
                            &self.staging,
                            &self.parts,
                            self.expected_bytes,
                            self.mode,
                        ),
                    )
                }
            },
            PartsEvent::Read(Err(e)) => {
                self.phase = PartsPhase::Finished;
                let remove: Vec<String> = Vec::new();
                assert(views(remove@) =~= Seq::empty());
                PartsAction::Finish { remove, result: Err(e) }
            },
            PartsEvent::Written(Ok(_)) => {
                let part = part_path(&self.transfer_id, self.parts.len());
                self.parts.push(part);
                proof {
                    let paths = part_paths(self.transfer_id@, self.parts@.len());
                    let before = part_paths(self.transfer_id@, old(self).parts@.len());
                    assert(paths =~= before.push(part@));
                    assert(views(self.parts@) =~= views(old(self).parts@).push(part@));
                }
                self.phase = PartsPhase::Reading;
                PartsAction::Read { limit: LEGACY_CHUNK_BYTES }
            },
            PartsEvent::Written(Err(e)) => {
                self.phase = PartsPhase::Finished;
                PartsAction::Finish { remove: clone_strings(&self.parts), result: Err(e) }
            },
            PartsEvent::Ran(result) => {
                self.phase = PartsPhase::Finished;
                let mut remove = clone_strings(&self.parts);
                remove.push(self.staging.clone());
                assert(views(remove@) =~= leftovers(self@));
                PartsAction::Finish { remove, result }
            },
        }
    }
}

/// Every part that is to be written has at least one byte, and at most as many as the guest takes at
/// once. It holds the bytes that were read, and goes to the path that follows those of the parts before
/// it.
pub proof fn law_parts_are_bounded(s: PartsView, event: PartsEventView)
    requires
        expected_parts_event(s.phase, event),
    ensures
        parts_step(s, event).1 matches PartsActionView::Write { part, data } ==> 0 < data.len()
            <= LEGACY_CHUNK_BYTES && part == part_path_of(s.transfer_id, s.written as int) && event
            == PartsEventView::Read(Ok(data)),
        parts_step(s, event).1 matches PartsActionView::Read { limit } ==> limit
            == LEGACY_CHUNK_BYTES,
{
}

/// The write after events.
pub open spec fn after_events(s: PartsView, events: Seq<PartsEventView>) -> PartsView
    decreases events.len(),
{
    if events.len() == 0 {
        s
    } else {
        parts_step(after_events(s, events.drop_last()), events.last()).0
    }
}

/// The bytes that a write orders to be written, one part after the other.
pub open spec fn ordered_bytes(s: PartsView, events: Seq<PartsEventView>) -> Seq<u8>
    decreases events.len(),
{
    if events.len() == 0 {
        Seq::empty()
    } else {
        let before = events.drop_last();
        ordered_bytes(s, before) + (match parts_step(after_events(s, before), events.last()).1 {
            PartsActionView::Write { data, .. } => data,
            _ => Seq::empty(),
        })
    }
}

/// What a write meets whose parts are read as these chunks and are all written.
pub open spec fn parts_going_well(chunks: Seq<Seq<u8>>) -> Seq<PartsEventView>
    decreases chunks.len(),
{
    if chunks.len() == 0 {
        Seq::empty()
    } else {
        parts_going_well(chunks.drop_last()).push(PartsEventView::Read(Ok(chunks.last()))).push(
            PartsEventView::Written(Ok(())),
        )
    }
}

proof fn lemma_parts_going_well(s: PartsView, chunks: Seq<Seq<u8>>)
    requires
        s.phase == PartsPhase::Reading,
        readable(chunks, LEGACY_CHUNK_BYTES),
    ensures
        after_events(s, parts_going_well(chunks)) == (PartsView {
            written: s.written + chunks.len(),
            ..s
        }),
        ordered_bytes(s, parts_going_well(chunks)) == whole(chunks),
    decreases chunks.len(),
{
    if chunks.len() > 0 {
        let head = chunks.drop_last();
        let chunk = chunks.last();
        assert(readable(head, LEGACY_CHUNK_BYTES)) by {
            assert forall|i: int| 0 <= i < head.len() implies 0 < (#[trigger] head[i]).len()
                <= LEGACY_CHUNK_BYTES by {
                assert(chunks[i].len() > 0);
            }
        }
        lemma_parts_going_well(s, head);
        let before = parts_going_well(head);
        let read = before.push(PartsEventView::Read(Ok(chunk)));
        let all = read.push(PartsEventView::Written(Ok(())));
        assert(chunks[chunks.len() - 1].len() > 0);
        assert(read.drop_last() =~= before);
        assert(all.drop_last() =~= read);
        assert(after_events(s, read) == parts_step(after_events(s, before), read.last()).0);
        assert(after_events(s, all) == parts_step(after_events(s, read), all.last()).0);
        assert(ordered_bytes(s, read) == ordered_bytes(s, before) + chunk);
        assert(ordered_bytes(s, all) =~= ordered_bytes(s, read));
    }
}

/// A file that is read to its end, and whose parts are all written, is put together from exactly
/// these, in the order in which they were read; together they hold the bytes of the file. Whatever
/// comes of that, every part is removed in the end, and so is the file that they were put together in.
pub proof fn law_parts_are_put_together_and_removed(
    s: PartsView,
    chunks: Seq<Seq<u8>>,
    result: std::result::Result<(), ErrorView>,
)
    requires
        s.phase == PartsPhase::Reading,
        s.written == 0,
        readable(chunks, LEGACY_CHUNK_BYTES),
    ensures
        ({
            let written = after_events(s, parts_going_well(chunks));
            let staging = staging_path_of(s.path, s.transfer_id);
            let parts = part_paths(s.transfer_id, chunks.len());
            let (assembling, command) = parts_step(
                written,
                PartsEventView::Read(Ok(Seq::<u8>::empty())),
            );
            let (_, end) = parts_step(assembling, PartsEventView::Ran(result));
            &&& ordered_bytes(s, parts_going_well(chunks)) == whole(chunks)
            &&& command == PartsActionView::Run(
                assembly_command(s.path, staging, parts, s.expected_bytes, s.mode),
            )
            &&& end == PartsActionView::Finish { remove: parts.push(staging), result }
        }),
{
    lemma_parts_going_well(s, chunks);
}

/// A part that cannot be written ends the write with its error, and no part before it is left behind.
pub proof fn law_failed_part_leaves_nothing_behind(
    s: PartsView,
    chunks: Seq<Seq<u8>>,
    data: Seq<u8>,
    error: ErrorView,
)
    requires
        s.phase == PartsPhase::Reading,
        s.written == 0,
        readable(chunks, LEGACY_CHUNK_BYTES),
        0 < data.len() <= LEGACY_CHUNK_BYTES,
    ensures
        ({
            let written = after_events(s, parts_going_well(chunks));
            let (writing, part) = parts_step(written, PartsEventView::Read(Ok(data)));
            let (_, end) = parts_step(writing, PartsEventView::Written(Err(error)));
            &&& part == PartsActionView::Write {
                part: part_path_of(s.transfer_id, chunks.len() as int),
                data,
            }
            &&& end == PartsActionView::Finish {
                remove: part_paths(s.transfer_id, chunks.len()),
                result: Err(error),
            }
        }),
{
    lemma_parts_going_well(s, chunks);
}

/// A file is read 12 MiB at a time: after it was opened, and after each part that was written.
pub proof fn law_file_is_read_part_by_part(s: PartsView, size: u64)
    ensures
        parts_step(s, PartsEventView::Opened(size)).1 == (PartsActionView::Read {
            limit: 12_582_912,
        }),
        parts_step(s, PartsEventView::Opened(size)).0 == (PartsView {
            expected_bytes: size,
            phase: PartsPhase::Reading,
            ..s
        }),
        parts_step(s, PartsEventView::Written(Ok(()))).1 == (PartsActionView::Read {
            limit: 12_582_912,
        }),
        parts_step(s, PartsEventView::Written(Ok(()))).0 == (PartsView {
            written: s.written + 1,
            phase: PartsPhase::Reading,
            ..s
        }),
{
}

/// A file that cannot be read further ends the write with that error. What the guest made of the parts
/// is told as it is, and nothing stays behind: not the parts, nor the staged file.
pub proof fn law_end_of_write_is_told(
    s: PartsView,
    e: ErrorView,
    result: std::result::Result<(), ErrorView>,
)
    ensures
        parts_step(s, PartsEventView::Read(Err(e))).1 matches PartsActionView::Finish {
            result: r,
            ..
        } && r == std::result::Result::<(), ErrorView>::Err(e),
        parts_step(s, PartsEventView::Ran(result)).1 matches PartsActionView::Finish {
            result: r,
            remove,
        } && r == result && remove.len() == s.written + 1 && remove.last() == staging_path_of(
            s.path,
            s.transfer_id,
        ) && forall|i: int|
            0 <= i < s.written ==> #[trigger] remove[i] == part_path_of(s.transfer_id, i),
        parts_step(s, PartsEventView::Read(Err(e))).0.phase == PartsPhase::Finished,
        parts_step(s, PartsEventView::Written(Err(e))).0.phase == PartsPhase::Finished,
        parts_step(s, PartsEventView::Ran(result)).0.phase == PartsPhase::Finished,
{
}

/// Events and actions of a write are seen as what they are.
pub proof fn law_parts_are_seen_as_they_are(event: PartsEvent, action: PartsAction, i: int)
    ensures
        event matches PartsEvent::Opened(n) ==> event@ == PartsEventView::Opened(n),
        event matches PartsEvent::Read(Ok(data)) ==> event@ == PartsEventView::Read(Ok(data@)),
        event matches PartsEvent::Read(Err(e)) ==> event@ == PartsEventView::Read(Err(e@)),
        event matches PartsEvent::Written(Ok(_)) ==> event@ == PartsEventView::Written(Ok(())),
        event matches PartsEvent::Written(Err(e)) ==> event@ == PartsEventView::Written(Err(e@)),
        event matches PartsEvent::Ran(Ok(_)) ==> event@ == PartsEventView::Ran(Ok(())),
        event matches PartsEvent::Ran(Err(e)) ==> event@ == PartsEventView::Ran(Err(e@)),
        action matches PartsAction::Read { limit } ==> action@ == (PartsActionView::Read { limit }),
        action matches PartsAction::Write { part, data } ==> action@ == (PartsActionView::Write {
            part: part@,
            data: data@,
        }),
        action matches PartsAction::Run(command) ==> action@ == PartsActionView::Run(command@),
        action matches PartsAction::Finish { remove, result } ==> {
            &&& action@ is Finish
            &&& action@->remove.len() == remove@.len()
            &&& 0 <= i < remove@.len() ==> action@->remove[i] == remove@[i]@
            &&& action@->result is Ok <==> result is Ok
            &&& result is Err ==> action@->result->Err_0 == result->Err_0@
        },
{
}

/// Each phase of a write awaits its own answer: the opened file, what was read, that it was written, and
/// that the guest put the parts together.
pub proof fn law_phases_await_their_answers(
    phase: PartsPhase,
    size: u64,
    data: Seq<u8>,
    e: ErrorView,
    result: std::result::Result<(), ErrorView>,
)
    ensures
        expected_parts_event(phase, PartsEventView::Opened(size)) <==> phase == PartsPhase::Opening,
        expected_parts_event(phase, PartsEventView::Read(Ok(data))) <==> phase
            == PartsPhase::Reading && data.len() <= 12_582_912,
        expected_parts_event(phase, PartsEventView::Read(Err(e))) <==> phase == PartsPhase::Reading,
        expected_parts_event(phase, PartsEventView::Written(result)) <==> phase
            == PartsPhase::Writing,
        expected_parts_event(phase, PartsEventView::Ran(result)) <==> phase
            == PartsPhase::Assembling,
{
}

/// What a step orders is what its phase awaits: a read is answered while reading, a part while writing,
/// the command while assembling.
pub proof fn law_orders_fit_their_phases(s: PartsView, event: PartsEventView)
    ensures
        parts_step(s, event).1 is Read ==> parts_step(s, event).0.phase == PartsPhase::Reading,
        parts_step(s, event).1 is Write ==> parts_step(s, event).0.phase == PartsPhase::Writing,
        parts_step(s, event).1 is Run ==> parts_step(s, event).0.phase == PartsPhase::Assembling,
        parts_step(s, event).1 is Finish ==> parts_step(s, event).0.phase == PartsPhase::Finished,
{
}

} // verus!
