//! In-memory log: a ring of the last 100 entries, and the text the web UI shows.
use vstd::prelude::*;
use crate::bytes::{decimal_u64, format_u64, push_slice};

verus! {

/// Number of entries the ring keeps.
pub const LOG_CAPACITY: usize = 100;

/// Largest message an entry holds, in bytes.
pub const LOG_MESSAGE_CAPACITY: usize = 100;

/// Largest text `get_logs` returns, in bytes.
pub const LOG_TEXT_CAPACITY: usize = 3000;

/// One log line: when it was logged and its text.
pub struct LogEntry {
    /// Time since boot in microseconds.
    pub time_us: u64,
    /// UTF-8 bytes of the message, at most 100.
    pub message: Vec<u8>,
}

impl LogEntry {
    /// An entry for `message` logged at `time_us`. A message longer than 100 bytes does
    /// not fit the entry and is dropped whole, leaving it empty.
    pub fn new(time_us: u64, message: &[u8]) -> (r: Self)
        ensures
            r.time_us == time_us,
            r.message@ == (if message@.len() <= LOG_MESSAGE_CAPACITY {
                message@
            } else {
                Seq::<u8>::empty()
            }),
    {
        let mut s: Vec<u8> = Vec::new();
        if message.len() <= LOG_MESSAGE_CAPACITY {
            push_slice(&mut s, message);
        }
        LogEntry { time_us, message: s }
    }

    /// The empty entry the ring starts with.
    pub fn empty() -> (r: Self)
        ensures
            r.time_us == 0,
            r.message@.len() == 0,
    {
        LogEntry { time_us: 0, message: Vec::new() }
    }
}

/// A ring of the last `LOG_CAPACITY` entries.
pub struct LogRingBuffer {
    buffer: Vec<LogEntry>,
    start: usize,
    count: usize,
}

impl LogRingBuffer {
    /// The slots hold `LOG_CAPACITY` entries, the oldest at `start`, `count` of them live.
    pub closed spec fn wf(&self) -> bool {
        &&& self.buffer@.len() == LOG_CAPACITY
        &&& self.start < LOG_CAPACITY
        &&& self.count <= LOG_CAPACITY
    }

    /// The live entries, oldest first.
    pub closed spec fn entries(&self) -> Seq<LogEntry> {
        Seq::new(
            self.count as nat,
            |i: int| self.buffer@[(self.start + i) % LOG_CAPACITY as int],
        )
    }

    /// An empty ring.
    pub fn new() -> (r: Self)
        ensures
            r.wf(),
            r.entries().len() == 0,
    {
        let mut buffer: Vec<LogEntry> = Vec::new();
        for i in 0..LOG_CAPACITY
            invariant
                buffer@.len() == i,
        {
            buffer.push(LogEntry::empty());
        }
        LogRingBuffer { buffer, start: 0, count: 0 }
    }

    /// Appends `entry`; when the ring is full the oldest entry is overwritten.
    pub fn push(&mut self, entry: LogEntry)
        requires
            old(self).wf(),
        ensures
            final(self).wf(),
            final(self).entries() == (if old(self).entries().len() < LOG_CAPACITY {
                old(self).entries().push(entry)
            } else {
                old(self).entries().drop_first().push(entry)
            }),
    {
        let end = (self.start + self.count) % LOG_CAPACITY;
        let ghost old_entries = self.entries();
        self.buffer.set(end, entry);
        if self.count < LOG_CAPACITY {
            self.count += 1;
            assert(self.entries() =~= old_entries.push(entry));
        } else {
            self.start = (self.start + 1) % LOG_CAPACITY;
            assert(self.entries() =~= old_entries.drop_first().push(entry)) by {
                assert forall|i: int| 0 <= i < LOG_CAPACITY implies #[trigger] self.entries()[i]
                    == old_entries.drop_first().push(entry)[i] by {
                    if i < LOG_CAPACITY - 1 {
                        assert((old(self).start + 1 + i) % 100 == (((old(self).start + 1) % 100) + i)
                            % 100);
                    } else {
                        assert((((old(self).start + 1) % 100) + i) % 100 == (old(self).start + 100)
                            % 100);
                    }
                }
            }
        }
    }

    /// Number of live entries.
    pub fn len(&self) -> (r: usize)
        requires
            self.wf(),
        ensures
            r == self.entries().len(),
    {
        self.count
    }

    /// The `i`-th live entry, oldest first.
    pub fn get(&self, i: usize) -> (r: &LogEntry)
        requires
            self.wf(),
            i < self.entries().len(),
        ensures
            *r == self.entries()[i as int],
    {
        let idx = (self.start + i) % LOG_CAPACITY;
        &self.buffer[idx]
    }

    /// The log as text: per entry, the time in microseconds right-aligned in ten
    /// columns, a space, the message and a newline, capped at `LOG_TEXT_CAPACITY` bytes.
    pub fn get_logs(&self) -> (r: Vec<u8>)
        requires
            self.wf(),
        ensures
            r@ == log_text(self.entries(), self.entries().len() as int),
            r@.len() <= LOG_TEXT_CAPACITY,
    {
        let mut logs: Vec<u8> = Vec::new();
        let n = self.count;
        for k in 0..n
            invariant
                self.wf(),
                n == self.entries().len(),
                logs@ == log_text(self.entries(), k as int),
                logs@.len() <= LOG_TEXT_CAPACITY,
        {
            let entry = self.get(k);
            append_time(&mut logs, entry.time_us);
            append_capped(&mut logs, &[32u8]);
            append_capped(&mut logs, entry.message.as_slice());
            append_capped(&mut logs, &[10u8]);
            assert(logs@ == log_text(self.entries(), k + 1));
        }
        logs
    }
}

/// `text` followed by `piece` when the whole of it fits in the cap, else `text`.
pub open spec fn capped(text: Seq<u8>, piece: Seq<u8>) -> Seq<u8> {
    if text.len() + piece.len() <= LOG_TEXT_CAPACITY {
        text + piece
    } else {
        text
    }
}

/// `text` after writing `v` right-aligned in ten columns: the padding spaces go in one by
/// one and writing stops at the first that does not fit; the digits go in whole or not at
/// all.
pub open spec fn with_time(text: Seq<u8>, v: u64) -> Seq<u8> {
    let digits = decimal_u64(v);
    let pad = if digits.len() < 10 {
        10 - digits.len()
    } else {
        0
    };
    if text.len() + pad <= LOG_TEXT_CAPACITY {
        capped(text + Seq::new(pad as nat, |i: int| 32u8), digits)
    } else {
        text + Seq::new((LOG_TEXT_CAPACITY - text.len()) as nat, |i: int| 32u8)
    }
}

/// Text of the first `k` entries.
pub open spec fn log_text(entries: Seq<LogEntry>, k: int) -> Seq<u8>
    decreases k,
{
    if k <= 0 {
        seq![]
    } else {
        let e = entries[k - 1];
        capped(
            capped(capped(with_time(log_text(entries, k - 1), e.time_us), seq![32u8]), e.message@),
            seq![10u8],
        )
    }
}

fn append_capped(text: &mut Vec<u8>, piece: &[u8])
    requires
        old(text)@.len() <= LOG_TEXT_CAPACITY,
    ensures
        final(text)@ == capped(old(text)@, piece@),
        final(text)@.len() <= LOG_TEXT_CAPACITY,
{
    if piece.len() <= LOG_TEXT_CAPACITY - text.len() {
        push_slice(text, piece);
    }
}

fn append_time(text: &mut Vec<u8>, v: u64)
    requires
        old(text)@.len() <= LOG_TEXT_CAPACITY,
    ensures
        final(text)@ == with_time(old(text)@, v),
        final(text)@.len() <= LOG_TEXT_CAPACITY,
{
    let digits = format_u64(v);
    let pad = if digits.len() < 10 {
        10 - digits.len()
    } else {
        0
    };
    let ghost start = text@;
    let pads_fit = pad <= LOG_TEXT_CAPACITY - text.len();
    for i in 0..pad
        invariant
            start.len() <= LOG_TEXT_CAPACITY,
            text@.len() <= LOG_TEXT_CAPACITY,
            text@ == start + Seq::new(i as nat, |k: int| 32u8) || (text@ == start + Seq::new(
                (LOG_TEXT_CAPACITY - start.len()) as nat,
                |k: int| 32u8,
            ) && start.len() + i > LOG_TEXT_CAPACITY),
    {
        if text.len() < LOG_TEXT_CAPACITY {
            text.push(32);
        }
        assert(text@ =~= start + Seq::new((i + 1) as nat, |k: int| 32u8) || (text@ =~= start
            + Seq::new((LOG_TEXT_CAPACITY - start.len()) as nat, |k: int| 32u8) && start.len() + i + 1
            > LOG_TEXT_CAPACITY));
    }
    if pads_fit {
        append_capped(text, digits.as_slice());
    }
}

} // verus!
