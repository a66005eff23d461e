//! The SD logger: block buffering, record logging and the decisions around the log file.

use vstd::prelude::*;

use crate::log_blocks::{
    buffer_after, contents, fed, full_blocks, joined, law_nothing_is_lost, leftover,
    lemma_buffer_more, lemma_feed_more, lemma_short_stream, BLOCK_LEN,
};
use crate::log_file::LogFileSearch;
use crate::log_record::{
    event_tag, law_log_reads_back, payload_of, read_records, record_bytes, records_bytes, tag_of,
    word_to_bytes, words_bytes, words_to_bytes,
};
use crate::robotstate::LogEvent;

verus! {

/// The logger: an open log file, if there is one, and the bytes not yet written to it.
///
/// `F` is the handle of an open file. The methods decide what has to be written and return it;
/// the owner of the card performs the writes, in order.
pub struct SdLogger<F> {
    pub file: Option<F>,
    pub write_buf: [u8; BLOCK_LEN],
    pub write_len: usize,
}

impl<F> View for SdLogger<F> {
    type V = Seq<u8>;

    /// The bytes held back.
    open spec fn view(&self) -> Seq<u8> {
        self.write_buf@.take(self.write_len as int)
    }
}

impl<F> SdLogger<F> {
    /// Fewer bytes are held back than fill a block.
    pub open spec fn inv(&self) -> bool {
        self.write_len < BLOCK_LEN
    }

    /// A logger without a file and with nothing held back; its buffer is all zero.
    pub fn new() -> (logger: Self)
        ensures
            logger.inv(),
            logger.file is None,
            logger@ == Seq::<u8>::empty(),
            logger.write_buf@ == Seq::new(BLOCK_LEN as nat, |i: int| 0u8),
    {
        let logger = SdLogger { file: None, write_buf: [0; BLOCK_LEN], write_len: 0 };
        assert(logger@ == Seq::<u8>::empty());
        logger
    }

    /// Empties the buffer; returns its bytes if there are any and a file to write them to.
    fn take_pending(&mut self) -> (block: Option<Vec<u8>>)
        requires
            old(self).write_len <= BLOCK_LEN,
        ensures
            final(self).file == old(self).file,
            final(self).write_buf == old(self).write_buf,
            final(self).write_len == 0,
            match block {
                Some(bytes) => old(self).file is Some && old(self).write_len > 0 && bytes@ == old(
                    self,
                )@,
                None => old(self).file is None || old(self).write_len == 0,
            },
    {
        let mut block: Option<Vec<u8>> = None;
        if self.write_len > 0 {
            if self.file.is_some() {
                let mut bytes: Vec<u8> = Vec::new();
                let mut i: usize = 0;
                while i < self.write_len
                    invariant
                        i <= self.write_len <= BLOCK_LEN,
                        bytes@ == self.write_buf@.take(i as int),
                    decreases self.write_len - i,
                {
                    bytes.push(self.write_buf[i]);
                    i += 1;
                }
                block = Some(bytes);
            }
            self.write_len = 0;
        }
        block
    }

    /// Buffers `data`; returns the blocks that have to be written to the file, in order.
    /// Without a file the full blocks are dropped.
    pub fn write_buffered(&mut self, data: &[u8]) -> (blocks: Vec<Vec<u8>>)
        requires
            old(self).inv(),
        ensures
            final(self).inv(),
            final(self).file == old(self).file,
            final(self)@ == leftover(old(self)@ + data@),
            final(self).write_buf@ == buffer_after(old(self).write_buf@, old(self)@ + data@),
            old(self)@.len() + data@.len() < BLOCK_LEN ==> forall|j: int|
                final(self).write_len <= j < BLOCK_LEN ==> final(self).write_buf@[j] == old(
                    self,
                ).write_buf@[j],
            old(self).file is Some ==> contents(blocks@) == full_blocks(old(self)@ + data@),
            old(self).file is None ==> blocks@.len() == 0,
    {
        let mut blocks: Vec<Vec<u8>> = Vec::new();
        let mut input_offset: usize = 0;
        proof {
            lemma_short_stream(self@);
            assert(self@ + data@.take(0) == self@);
            assert(self.write_buf@ == buffer_after(self.write_buf@, self@));
        }
        while input_offset < data.len()
            invariant
                self.inv(),
                self.file == old(self).file,
                input_offset <= data.len(),
                self@ == leftover(old(self)@ + data@.take(input_offset as int)),
                self.write_buf@ == buffer_after(
                    old(self).write_buf@,
                    old(self)@ + data@.take(input_offset as int),
                ),
                self.file is Some ==> contents(blocks@) == full_blocks(
                    old(self)@ + data@.take(input_offset as int),
                ),
                self.file is None ==> blocks@.len() == 0,
            decreases data.len() - input_offset,
        {
            let ghost before = self@;
            let ghost buf = self.write_buf@;
            let ghost stream = old(self)@ + data@.take(input_offset as int);
            let available: usize = BLOCK_LEN - self.write_len;
            let rest: usize = data.len() - input_offset;
            let to_copy: usize = if available < rest { available } else { rest };
            let start: usize = self.write_len;
            let mut i: usize = 0;
            while i < to_copy
                invariant
                    i <= to_copy,
                    start == self.write_len,
                    start + to_copy <= BLOCK_LEN,
                    input_offset + to_copy <= data.len(),
                    self.file == old(self).file,
                    before.len() == start,
                    self.write_buf@.take(start + i) == before + data@.subrange(
                        input_offset as int,
                        input_offset + i,
                    ),
                    forall|j: int| start + i <= j < BLOCK_LEN ==> self.write_buf@[j] == buf[j],
                decreases to_copy - i,
            {
                let ghost was = self.write_buf@;
                self.write_buf[start + i] = data[input_offset + i];
                assert(self.write_buf@ == was.update(start + i, data@[input_offset + i]));
                assert(self.write_buf@.take(start + i + 1) == was.take(start + i).push(
                    data@[input_offset + i],
                ));
                i += 1;
            }
            self.write_len = start + to_copy;
            let ghost part = data@.subrange(input_offset as int, input_offset + to_copy);
            input_offset = input_offset + to_copy;
            proof {
                assert(self@ == before + part);
                assert(stream + part == old(self)@ + data@.take(input_offset as int));
                lemma_feed_more(stream, part);
                lemma_buffer_more(old(self).write_buf@, stream, part);
                lemma_short_stream(before + part);
                assert(self.write_buf@ == buffer_after(buf, before + part)) by {
                    assert forall|j: int| 0 <= j < self.write_len implies self.write_buf@[j]
                        == (before + part)[j] by {
                        assert(self.write_buf@[j] == self@[j]);
                    }
                }
            }
            if self.write_len == BLOCK_LEN {
                let ghost whole = self@;
                let ghost due = contents(blocks@);
                match self.take_pending() {
                    Some(block) => {
                        blocks.push(block);
                        assert(contents(blocks@) == due + seq![whole]);
                    },
                    None => {},
                }
                assert(self@ == Seq::<u8>::empty());
            }
        }
        assert(data@.take(input_offset as int) == data@);
        proof {
            if old(self)@.len() + data@.len() < BLOCK_LEN {
                lemma_short_stream(old(self)@ + data@);
            }
        }
        blocks
    }

    /// Empties the buffer; returns the bytes that have to be written, if a file is open to take
    /// them. Without a file they are dropped.
    pub fn flush_buffer(&mut self) -> (block: Option<Vec<u8>>)
        requires
            old(self).write_len <= BLOCK_LEN,
        ensures
            final(self).inv(),
            final(self).file == old(self).file,
            final(self).write_buf == old(self).write_buf,
            final(self)@ == Seq::<u8>::empty(),
            block is Some <==> old(self).file is Some && old(self)@.len() > 0,
            block is Some ==> block->0@ == old(self)@,
    {
        let block = self.take_pending();
        assert(self@ == Seq::<u8>::empty());
        block
    }

    /// Empties the buffer; returns the bytes that have to be written, if any, and whether the
    /// file has to be flushed after that. To be called when all writing is done.
    pub fn flush(&mut self) -> (done: (Option<Vec<u8>>, bool))
        requires
            old(self).write_len <= BLOCK_LEN,
        ensures
            final(self).inv(),
            final(self).file == old(self).file,
            final(self).write_buf == old(self).write_buf,
            final(self)@ == Seq::<u8>::empty(),
            done.0 is Some <==> old(self).file is Some && old(self)@.len() > 0,
            done.0 is Some ==> done.0->0@ == old(self)@,
            done.1 == old(self).file is Some,
    {
        let block = self.flush_buffer();
        (block, self.file.is_some())
    }

    /// Returns what has to be written to the file at once, past the buffer: all of `data` if a
    /// file is open, otherwise nothing.
    pub fn write<'a>(&mut self, data: &'a [u8]) -> (direct: Option<&'a [u8]>)
        ensures
            *final(self) == *old(self),
            direct is Some <==> old(self).file is Some,
            direct is Some ==> direct->0@ == data@,
    {
        if self.file.is_some() {
            Some(data)
        } else {
            None
        }
    }

    /// Gives up the file, if one is open. The bytes held back stay.
    pub fn close_file(&mut self)
        ensures
            final(self).file is None,
            final(self).write_len == old(self).write_len,
            final(self).write_buf == old(self).write_buf,
    {
        self.file = None;
    }

    /// Gives up the file, if one is open, and begins the search for the name of a new one.
    pub fn open_new_file(&mut self) -> (search: LogFileSearch)
        ensures
            final(self).file is None,
            final(self).write_len == old(self).write_len,
            final(self).write_buf == old(self).write_buf,
            search.slot == 0,
    {
        self.close_file();
        LogFileSearch::new()
    }

    /// Takes over the new file; returns what has to be written at its front, and whether the file
    /// has to be flushed after that. The bytes held back stay, and follow that front.
    pub fn file_created(&mut self, file: F) -> (front: (Vec<u8>, bool))
        ensures
            final(self).file == Some(file),
            final(self).write_len == old(self).write_len,
            final(self).write_buf == old(self).write_buf,
            front.0@ == log_magic(),
            front.1,
    {
        self.file = Some(file);
        (vec![0xAA, 0xBB, 0xCC, 0xDD], true)
    }

    /// Buffers the bytes of single precision words; returns the blocks to write.
    fn write_floats(&mut self, words: &[u32]) -> (blocks: Vec<Vec<u8>>)
        requires
            old(self).inv(),
        ensures
            final(self).inv(),
            final(self).file == old(self).file,
            final(self)@ == leftover(old(self)@ + words_bytes(words@)),
            final(self).write_buf@ == buffer_after(
                old(self).write_buf@,
                old(self)@ + words_bytes(words@),
            ),
            old(self).file is Some ==> contents(blocks@) == full_blocks(
                old(self)@ + words_bytes(words@),
            ),
            old(self).file is None ==> blocks@.len() == 0,
    {
        let bytes = words_to_bytes(words);
        self.write_buffered(bytes.as_slice())
    }

    /// Buffers one record; returns the blocks that have to be written to the file, in order.
    pub fn log_event_compact(&mut self, t_ms: u32, event: &LogEvent) -> (blocks: Vec<Vec<u8>>)
        requires
            old(self).inv(),
        ensures
            final(self).inv(),
            final(self).file == old(self).file,
            final(self)@ == leftover(old(self)@ + record_bytes(t_ms, *event)),
            final(self).write_buf@ == buffer_after(
                old(self).write_buf@,
                old(self)@ + record_bytes(t_ms, *event),
            ),
            old(self)@.len() + record_bytes(t_ms, *event).len() < BLOCK_LEN ==> forall|j: int|
                final(self).write_len <= j < BLOCK_LEN ==> final(self).write_buf@[j] == old(
                    self,
                ).write_buf@[j],
            old(self).file is Some ==> contents(blocks@) == full_blocks(
                old(self)@ + record_bytes(t_ms, *event),
            ),
            old(self).file is None ==> blocks@.len() == 0,
    {
        let ghost held = self@;
        let ghost buf = self.write_buf@;
        let stamp = word_to_bytes(t_ms);
        let mut blocks = self.write_buffered(stamp.as_slice());
        let ghost first = contents(blocks@);
        let tag: Vec<u8> = vec![tag_of(event)];
        let mut tagged = self.write_buffered(tag.as_slice());
        let ghost second = contents(tagged@);
        let words = payload_of(event);
        let mut payload = self.write_floats(words.as_slice());
        let ghost third = contents(payload@);
        blocks.append(&mut tagged);
        blocks.append(&mut payload);
        proof {
            let s1 = held + stamp@;
            let s2 = s1 + tag@;
            lemma_feed_more(s1, tag@);
            lemma_feed_more(s2, words_bytes(words@));
            lemma_buffer_more(buf, s1, tag@);
            lemma_buffer_more(buf, s2, words_bytes(words@));
            assert(tag@ == seq![event_tag(*event)]);
            assert(s2 + words_bytes(words@) == held + record_bytes(t_ms, *event));
            assert(contents(blocks@) == first + second + third);
            assert(first + second + third == (first + second) + third);
            if held.len() + record_bytes(t_ms, *event).len() < BLOCK_LEN {
                lemma_short_stream(held + record_bytes(t_ms, *event));
            }
        }
        blocks
    }

    /// What printing the file does next; without a file it does nothing. No chunk is longer than
    /// what is read at a time.
    pub fn read_all(&self, event: ReadEvent) -> (action: ReadAction)
        requires
            event matches ReadEvent::Chunk { n } ==> n <= READ_CHUNK_LEN,
        ensures
            action == read_all_action(self.file is Some, event),
            action matches ReadAction::Print { n } ==> 1 <= n <= READ_CHUNK_LEN,
    {
        match event {
            ReadEvent::Begin => if self.file.is_some() {
                ReadAction::SeekToStart
            } else {
                ReadAction::Finish
            },
            ReadEvent::Sought { ok } => if ok {
                ReadAction::TestEnd
            } else {
                ReadAction::Finish
            },
            ReadEvent::Tested { at_end } => if at_end {
                ReadAction::Finish
            } else {
                ReadAction::ReadChunk
            },
            ReadEvent::Chunk { n } => if n > 0 {
                ReadAction::Print { n }
            } else {
                ReadAction::TestEnd
            },
            ReadEvent::Printed => ReadAction::TestEnd,
            ReadEvent::ReadFailed => ReadAction::Finish,
        }
    }
}

/// The four bytes at the front of every log file.
pub open spec fn log_magic() -> Seq<u8> {
    seq![0xAAu8, 0xBBu8, 0xCCu8, 0xDDu8]
}

/// Bytes read at a time when the log is printed.
pub const READ_CHUNK_LEN: usize = 27;

/// What happened while the log is printed.
#[derive(Clone, Copy, Debug, PartialEq, Eq, Structural)]
pub enum ReadEvent {
    Begin,
    Sought { ok: bool },
    Tested { at_end: bool },
    Chunk { n: usize },
    Printed,
    ReadFailed,
}

/// What printing the log asks for.
#[derive(Clone, Copy, Debug, PartialEq, Eq, Structural)]
pub enum ReadAction {
    SeekToStart,
    TestEnd,
    ReadChunk,
    Print { n: usize },
    Finish,
}

/// Printing goes chunk by chunk until the end of the file or the first failure; an empty chunk is
/// not printed.
pub open spec fn read_all_action(has_file: bool, event: ReadEvent) -> ReadAction {
    match event {
        ReadEvent::Begin if has_file => ReadAction::SeekToStart,
        ReadEvent::Sought { ok } if ok => ReadAction::TestEnd,
        ReadEvent::Tested { at_end } if !at_end => ReadAction::ReadChunk,
        ReadEvent::Chunk { n } if n > 0 => ReadAction::Print { n },
        ReadEvent::Chunk { .. } => ReadAction::TestEnd,
        ReadEvent::Printed => ReadAction::TestEnd,
        _ => ReadAction::Finish,
    }
}

/// What printing shows of the bytes `rest`, and whether it gets to their end, if it goes on from
/// testing for the end and `sizes` are the lengths of the chunks that can be read, one by one,
/// before a read fails.
pub open spec fn shown(rest: Seq<u8>, sizes: Seq<usize>) -> (Seq<u8>, bool)
    decreases sizes.len(),
{
    match read_all_action(true, ReadEvent::Tested { at_end: rest.len() == 0 }) {
        ReadAction::ReadChunk => if sizes.len() == 0 {
            (Seq::empty(), false)
        } else {
            match read_all_action(true, ReadEvent::Chunk { n: sizes[0] }) {
                ReadAction::Print { n } => {
                    let (more, end) = shown(rest.skip(n as int), sizes.drop_first());
                    (rest.take(n as int) + more, end)
                },
                _ => shown(rest, sizes.drop_first()),
            }
        },
        _ => (Seq::empty(), true),
    }
}

/// How many bytes a list of chunks holds.
pub open spec fn total(sizes: Seq<usize>) -> nat
    decreases sizes.len(),
{
    if sizes.len() == 0 {
        0
    } else {
        sizes[0] as nat + total(sizes.drop_first())
    }
}

/// Printing shows the whole file, in order, however it is cut into chunks; if reading fails
/// before the end, it shows what was read until then.
pub proof fn law_everything_is_printed(file: Seq<u8>, sizes: Seq<usize>)
    requires
        total(sizes) <= file.len(),
    ensures
        shown(file, sizes).0 == file.take(total(sizes) as int),
        shown(file, sizes).1 <==> total(sizes) == file.len(),
    decreases sizes.len(),
{
    if sizes.len() > 0 {
        let n = sizes[0] as int;
        let rest = sizes.drop_first();
        law_everything_is_printed(file.skip(n), rest);
        assert(file.take(n) + file.skip(n).take(total(rest) as int) == file.take(
            n + total(rest) as int,
        ));
        if n == 0 {
            assert(file.skip(0) == file);
        }
        if file.len() == 0 {
            assert(file.take(total(sizes) as int) == Seq::<u8>::empty());
        }
    } else {
        assert(file.take(0) == Seq::<u8>::empty());
    }
}

/// A calendar time stamp of the file system.
#[derive(Clone, Copy, Debug, PartialEq, Eq, Structural)]
pub struct FileStamp {
    pub year_since_1970: u8,
    pub zero_indexed_month: u8,
    pub zero_indexed_day: u8,
    pub hours: u8,
    pub minutes: u8,
    pub seconds: u8,
}

/// The clock of a robot without a calendar: it always shows the epoch.
#[derive(Clone, Copy, Debug, PartialEq, Eq, Structural)]
pub struct DummyClock;

impl DummyClock {
    /// The time stamp that every file gets.
    pub fn get_timestamp(&self) -> (stamp: FileStamp)
        ensures
            stamp == (FileStamp {
                year_since_1970: 0,
                zero_indexed_month: 0,
                zero_indexed_day: 0,
                hours: 0,
                minutes: 0,
                seconds: 0,
            }),
    {
        FileStamp {
            year_since_1970: 0,
            zero_indexed_month: 0,
            zero_indexed_day: 0,
            hours: 0,
            minutes: 0,
            seconds: 0,
        }
    }
}

/// The records of a list of stamped events, one by one.
pub open spec fn record_list(records: Seq<(u32, LogEvent)>) -> Seq<Seq<u8>> {
    Seq::new(records.len(), |i: int| record_bytes(records[i].0, records[i].1))
}

proof fn lemma_joined_prepend(head: Seq<u8>, parts: Seq<Seq<u8>>)
    ensures
        joined(seq![head] + parts) == head + joined(parts),
    decreases parts.len(),
{
    let all = seq![head] + parts;
    if parts.len() == 0 {
        assert(all.last() == head);
        assert(joined(all.drop_last()) == Seq::<u8>::empty());
        assert(joined(all) == head + joined(parts));
    } else {
        lemma_joined_prepend(head, parts.drop_last());
        assert(all.drop_last() == seq![head] + parts.drop_last());
        assert(all.last() == parts.last());
        assert(joined(all) == head + joined(parts));
    }
}

proof fn lemma_joined_records(records: Seq<(u32, LogEvent)>)
    ensures
        joined(record_list(records)) == records_bytes(records),
    decreases records.len(),
{
    if records.len() > 0 {
        let rest = records.drop_first();
        lemma_joined_records(rest);
        let head = record_bytes(records[0].0, records[0].1);
        lemma_joined_prepend(head, record_list(rest));
        assert(record_list(records) == seq![head] + record_list(rest));
    }
}

proof fn lemma_behind_front(front: Seq<u8>, middle: Seq<u8>, end: Seq<u8>, body: Seq<u8>)
    requires
        middle + end == body,
    ensures
        (front + middle + end).take(front.len() as int) == front,
        (front + middle + end).skip(front.len() as int) == body,
{
    assert((front + middle + end).take(front.len() as int) == front);
    assert((front + middle + end).skip(front.len() as int) == middle + end);
}

/// A log file: its front, the blocks that fell due and the bytes held back at the end.
pub open spec fn file_bytes(parts: Seq<Seq<u8>>) -> Seq<u8> {
    log_magic() + joined(fed(Seq::empty(), parts).0) + fed(Seq::empty(), parts).1
}

proof fn lemma_file_bytes(parts: Seq<Seq<u8>>, body: Seq<u8>)
    requires
        joined(parts) == body,
    ensures
        file_bytes(parts).take(4) == log_magic(),
        file_bytes(parts).skip(4) == body,
{
    let (blocks, held) = fed(Seq::empty(), parts);
    law_nothing_is_lost(Seq::empty(), parts);
    assert(Seq::<u8>::empty() + body == body);
    lemma_behind_front(log_magic(), joined(blocks), held, body);
}

/// Events logged one after the other to a fresh file, with a flush at the end: the file holds its
/// front, then the blocks and the last bytes, and what stands behind the front reads back as the
/// events, in order.
#[verifier::rlimit(40)]
pub proof fn law_logged_events_read_back(records: Seq<(u32, LogEvent)>)
    ensures
        file_bytes(record_list(records)).take(4) == log_magic(),
        read_records(file_bytes(record_list(records)).skip(4)) == Some(records),
{
    lemma_joined_records(records);
    lemma_file_bytes(record_list(records), records_bytes(records));
    law_log_reads_back(records);
}

/// Printing starts exactly if there is a file, at its front, and goes on only if that was found;
/// a chunk is printed exactly if it is not empty; after a chunk the end of the file is tested for,
/// and at the end, or if a read fails, printing is over.
pub proof fn law_printing_starts_at_the_front(has_file: bool, event: ReadEvent, n: usize)
    ensures
        ({
            let action = read_all_action(has_file, event);
            &&& action == ReadAction::SeekToStart <==> event == ReadEvent::Begin && has_file
            &&& action == (ReadAction::Print { n }) <==> event == (ReadEvent::Chunk { n }) && n > 0
            &&& action == ReadAction::ReadChunk <==> event == (ReadEvent::Tested { at_end: false })
            &&& action == ReadAction::TestEnd <==> {
                ||| event == (ReadEvent::Sought { ok: true })
                ||| event == (ReadEvent::Chunk { n: 0 })
                ||| event == ReadEvent::Printed
            }
        }),
{
}

} // verus!
