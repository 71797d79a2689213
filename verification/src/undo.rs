//! The undo log: the original text of every file an operation rewrote, most
//! recent last, bounded by a maximum number of entries.
use vstd::prelude::*;
use vstd::slice::slice_subrange;
use vstd::string::*;

use crate::text::{
    is_blank, join_seqs, join_strings, spec_lines, split_lines, str_is_blank, string_views,
};

verus! {

/// An entry in the undo log, storing enough information to reverse an operation.
#[derive(Debug, Clone)]
pub struct UndoEntry {
    /// The full original text before the operation.
    pub original_text: String,
}

/// A record in the persistent undo log file (.ripsed/undo.jsonl).
#[derive(Debug, Clone)]
pub struct UndoRecord {
    pub timestamp: String,
    pub file_path: String,
    pub entry: UndoEntry,
}

/// Manages the undo log.
pub struct UndoLog {
    records: Vec<UndoRecord>,
    max_entries: usize,
}

/// The last `max` records of `s` when it holds more than `max`, else `s`.
pub open spec fn pruned(s: Seq<UndoRecord>, max: nat) -> Seq<UndoRecord> {
    if s.len() > max {
        s.skip(s.len() - max)
    } else {
        s
    }
}

/// The index from which the last `count` elements of a sequence of length
/// `len` start (0 when there are fewer).
pub open spec fn tail_start(len: nat, count: nat) -> nat {
    if len > count {
        (len - count) as nat
    } else {
        0
    }
}

impl View for UndoLog {
    type V = Seq<UndoRecord>;

    closed spec fn view(&self) -> Seq<UndoRecord> {
        self.records@
    }
}

impl UndoLog {
    /// The maximum number of records kept after a push.
    pub closed spec fn limit(&self) -> nat {
        self.max_entries as nat
    }

    /// An empty log that keeps at most `max_entries` records.
    pub fn new(max_entries: usize) -> (log: Self)
        ensures
            log@ == Seq::<UndoRecord>::empty(),
            log.limit() == max_entries,
    {
        UndoLog { records: Vec::new(), max_entries }
    }

    /// A log holding the given records, oldest first, as they were read back
    /// from storage (they are not pruned until the next push).
    pub fn from_records(records: Vec<UndoRecord>, max_entries: usize) -> (log: Self)
        ensures
            log@ == records@,
            log.limit() == max_entries,
    {
        UndoLog { records, max_entries }
    }

    /// The records, oldest first.
    pub fn records(&self) -> (r: &[UndoRecord])
        ensures
            r@ == self@,
    {
        self.records.as_slice()
    }

    /// Append a new undo record, then drop the oldest records beyond the limit.
    pub fn push(&mut self, record: UndoRecord)
        ensures
            final(self)@ == pruned(old(self)@.push(record), old(self).limit()),
            final(self).limit() == old(self).limit(),
    {
        self.records.push(record);
        self.prune();
    }

    /// Remove the last `count` records (all of them when there are fewer)
    /// and return them, most recent first.
    pub fn pop(&mut self, count: usize) -> (r: Vec<UndoRecord>)
        ensures
            final(self)@ == old(self)@.take(tail_start(old(self)@.len(), count as nat) as int),
            r@ == old(self)@.skip(tail_start(old(self)@.len(), count as nat) as int).reverse(),
            final(self).limit() == old(self).limit(),
    {
        let drain_start = if self.records.len() > count {
            self.records.len() - count
        } else {
            0
        };
        let mut popped: Vec<UndoRecord> = Vec::new();
        let ghost orig = self.records@;
        while self.records.len() > drain_start
            invariant
                drain_start <= self.records@.len() <= orig.len(),
                drain_start == tail_start(orig.len(), count as nat),
                self.records@ == orig.take(self.records@.len() as int),
                popped@ == orig.skip(self.records@.len() as int).reverse(),
                self.max_entries == old(self).max_entries,
            decreases self.records.len(),
        {
            let ghost len = self.records@.len();
            let rec = self.records.pop().unwrap();
            popped.push(rec);
            assert(orig.skip(len - 1).reverse() =~= orig.skip(len as int).reverse().push(
                orig[len - 1],
            ));
            assert(self.records@ =~= orig.take(len - 1));
        }
        popped
    }

    /// Number of entries in the log.
    pub fn len(&self) -> (r: usize)
        ensures
            r == self@.len(),
    {
        self.records.len()
    }

    /// Whether the log holds no entry.
    pub fn is_empty(&self) -> (r: bool)
        ensures
            r == (self@.len() == 0),
    {
        self.records.len() == 0
    }

    /// The last `count` records (all of them when there are fewer), oldest first.
    pub fn recent(&self, count: usize) -> (r: &[UndoRecord])
        ensures
            r@ == self@.skip(tail_start(self@.len(), count as nat) as int),
    {
        let start = if self.records.len() > count {
            self.records.len() - count
        } else {
            0
        };
        let all = self.records.as_slice();
        let r = slice_subrange(all, start, self.records.len());
        assert(r@ =~= self@.skip(start as int));
        r
    }

    /// Drop the oldest records beyond the limit.
    fn prune(&mut self)
        ensures
            final(self)@ == pruned(old(self)@, old(self).limit()),
            final(self).limit() == old(self).limit(),
    {
        if self.records.len() > self.max_entries {
            let excess = self.records.len() - self.max_entries;
            let kept = self.records.split_off(excess);
            self.records = kept;
        }
    }
}

/// The lines that are not blank, in order.
pub open spec fn non_blank(ls: Seq<Seq<char>>) -> Seq<Seq<char>>
    decreases ls.len(),
{
    if ls.len() == 0 {
        seq![]
    } else if is_blank(ls.last()) {
        non_blank(ls.drop_last())
    } else {
        non_blank(ls.drop_last()).push(ls.last())
    }
}

/// The records of a stored log, one per line: the lines of the content
/// that are not blank.
pub fn jsonl_record_lines(content: &str) -> (r: Vec<String>)
    ensures
        string_views(r@) == non_blank(spec_lines(content@)),
{
    let lines = split_lines(content);
    let ghost lv = string_views(lines@);
    let mut out: Vec<String> = Vec::new();
    let mut i: usize = 0;
    while i < lines.len()
        invariant
            lv == string_views(lines@),
            lv == spec_lines(content@),
            i <= lines.len(),
            string_views(out@) == non_blank(lv.take(i as int)),
        decreases lines.len() - i,
    {
        assert(lv.take(i + 1).drop_last() =~= lv.take(i as int));
        assert(lv.take(i + 1).last() == lines@[i as int]@);
        if !str_is_blank(lines[i].as_str()) {
            let ghost before = out@;
            out.push(lines[i].clone());
            assert(string_views(out@) =~= string_views(before).push(lines@[i as int]@));
        }
        i += 1;
    }
    assert(lv.take(lines.len() as int) =~= lv);
    out
}

/// The stored form of a log's serialised records: one per line, each
/// followed by a line feed.
pub fn frame_jsonl(lines: &Vec<String>) -> (r: String)
    ensures
        lines@.len() == 0 ==> r@ == Seq::<char>::empty(),
        lines@.len() > 0 ==> r@ == join_seqs(string_views(lines@), seq!['\n']) + seq!['\n'],
{
    proof {
        reveal_strlit("\n");
    }
    assert("\n"@ =~= seq!['\n']);
    let mut r = join_strings(lines, "\n");
    if lines.len() > 0 {
        r.append("\n");
    } else {
        assert(string_views(lines@) =~= Seq::<Seq<char>>::empty());
    }
    r
}

} // verus!
