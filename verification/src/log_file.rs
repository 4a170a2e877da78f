//! The format of a log kept in files: the records of the data file, each
//! framed by its length and its sequence number, and the range of
//! sequence numbers that the log holds. Reading and writing the files is
//! the caller's.

use vstd::prelude::*;
use vstd::bytes::{
    lemma_auto_spec_u64_to_from_le_bytes, spec_u64_from_le_bytes, spec_u64_to_le_bytes, u64_from_le_bytes,
    u64_to_le_bytes,
};
use vstd::slice::slice_subrange;

verus! {

/// Why the files of a log cannot be used.
#[derive(Clone, Copy, Debug, PartialEq, Eq, Structural)]
pub enum LogError {
    /// The data file ends within a record.
    UnexpectedEof,
    /// The metadata file holds this many bytes, which are not the 8 of a
    /// sequence number.
    BadMetadata(usize),
    /// The log starts behind its end.
    InvalidRange { start: u64, end: u64 },
    /// A record has a sequence number that the log has not written yet.
    InvalidSeqNo { seqno: u64, start: u64, end: u64 },
    /// A truncation up to a sequence number that is not in the log.
    InvalidTruncation { upper: u64, start: u64, end: u64 },
}

/// A record as it stands in the data file: the length of the data in 8
/// bytes, the lowest first; the data; the sequence number in 8 bytes.
pub open spec fn frame(data: Seq<u8>, seqno: u64) -> Seq<u8> {
    spec_u64_to_le_bytes(data.len() as u64) + data + spec_u64_to_le_bytes(seqno)
}

/// A record as it stands in the data file.
pub fn encode_record(data: &Vec<u8>, seqno: u64) -> (r: Vec<u8>)
    requires
        data@.len() <= u64::MAX,
    ensures
        r@ == frame(data@, seqno),
{
    let mut out = u64_to_le_bytes(data.len() as u64);
    let mut i: usize = 0;
    while i < data.len()
        invariant
            i <= data@.len(),
            out@ == spec_u64_to_le_bytes(data@.len() as u64) + data@.take(i as int),
        decreases data.len() - i,
    {
        out.push(data[i]);
        assert(data@.take(i + 1) =~= data@.take(i as int).push(data@[i as int]));
        assert(out@ =~= spec_u64_to_le_bytes(data@.len() as u64) + data@.take(i + 1));
        i += 1;
    }
    assert(data@.take(data@.len() as int) =~= data@);
    let mut tail = u64_to_le_bytes(seqno);
    out.append(&mut tail);
    out
}

/// The records of a data file from `start` up to `end`, each with its
/// sequence number, in the order of the file. A record below `start` was
/// truncated and is left out; one at `end` or above is an error, and so
/// is a file that ends within a record.
pub open spec fn records(bytes: Seq<u8>, start: u64, end: u64) -> Result<Seq<(u64, Seq<u8>)>, LogError>
    decreases bytes.len(),
{
    if bytes.len() == 0 {
        Ok(Seq::empty())
    } else if bytes.len() < 8 {
        Err(LogError::UnexpectedEof)
    } else {
        let n = spec_u64_from_le_bytes(bytes.subrange(0, 8)) as int;
        if bytes.len() - 16 < n {
            Err(LogError::UnexpectedEof)
        } else {
            let seqno = spec_u64_from_le_bytes(bytes.subrange(8 + n, 16 + n));
            let rest = records(bytes.skip(16 + n), start, end);
            if seqno < start {
                rest
            } else if seqno >= end {
                Err(LogError::InvalidSeqNo { seqno, start, end })
            } else {
                with_first((seqno, bytes.subrange(8, 8 + n)), rest)
            }
        }
    }
}

/// Records with one before them, unless they are an error.
pub open spec fn with_first(first: (u64, Seq<u8>), rest: Result<Seq<(u64, Seq<u8>)>, LogError>) -> Result<
    Seq<(u64, Seq<u8>)>,
    LogError,
> {
    match rest {
        Ok(rs) => Ok(seq![first] + rs),
        Err(e) => Err(e),
    }
}

/// Records behind others, unless they are an error.
pub open spec fn behind(before: Seq<(u64, Seq<u8>)>, rest: Result<Seq<(u64, Seq<u8>)>, LogError>) -> Result<
    Seq<(u64, Seq<u8>)>,
    LogError,
> {
    match rest {
        Ok(rs) => Ok(before + rs),
        Err(e) => Err(e),
    }
}

/// The views of records.
pub open spec fn records_view(v: Seq<(u64, Vec<u8>)>) -> Seq<(u64, Seq<u8>)> {
    Seq::new(v.len(), |i: int| (v[i].0, v[i].1@))
}

/// A copy of the bytes from `from` up to `to`.
fn copy_range(bytes: &Vec<u8>, from: usize, to: usize) -> (r: Vec<u8>)
    requires
        from <= to <= bytes@.len(),
    ensures
        r@ == bytes@.subrange(from as int, to as int),
{
    let mut out: Vec<u8> = Vec::new();
    let mut i: usize = from;
    while i < to
        invariant
            from <= i <= to <= bytes@.len(),
            out@ == bytes@.subrange(from as int, i as int),
        decreases to - i,
    {
        out.push(bytes[i]);
        assert(bytes@.subrange(from as int, i + 1) =~= bytes@.subrange(from as int, i as int).push(bytes@[i as int]));
        i += 1;
    }
    out
}

/// The records of a data file that a log from `start` up to `end` holds.
pub fn read_records(bytes: &Vec<u8>, start: u64, end: u64) -> (r: Result<Vec<(u64, Vec<u8>)>, LogError>)
    ensures
        match r {
            Ok(v) => records(bytes@, start, end) == Ok::<Seq<(u64, Seq<u8>)>, LogError>(records_view(v@)),
            Err(e) => records(bytes@, start, end) == Err::<Seq<(u64, Seq<u8>)>, LogError>(e),
        },
{
    let mut out: Vec<(u64, Vec<u8>)> = Vec::new();
    let len = bytes.len();
    let mut i: usize = 0;
    assert(bytes@.skip(0) =~= bytes@);
    assert(records_view(out@) =~= Seq::<(u64, Seq<u8>)>::empty());
    assert(behind(Seq::empty(), records(bytes@, start, end)) == records(bytes@, start, end)) by {
        match records(bytes@, start, end) {
            Ok(rs) => {
                assert(Seq::<(u64, Seq<u8>)>::empty() + rs =~= rs);
            },
            Err(_) => {},
        }
    }
    while i < len
        invariant
            i <= len == bytes@.len(),
            records(bytes@, start, end) == behind(records_view(out@), records(bytes@.skip(i as int), start, end)),
        decreases len - i,
    {
        let ghost here = bytes@.skip(i as int);
        let ghost done = records_view(out@);
        if len - i < 8 {
            return Err(LogError::UnexpectedEof);
        }
        let n64 = u64_from_le_bytes(slice_subrange(bytes.as_slice(), i, i + 8));
        assert(bytes@.subrange(i as int, i + 8) =~= here.subrange(0, 8));
        let left: u64 = (len - i - 8) as u64;
        if left < n64 || left - n64 < 8 {
            return Err(LogError::UnexpectedEof);
        }
        let n = n64 as usize;
        let seqno = u64_from_le_bytes(slice_subrange(bytes.as_slice(), i + 8 + n, i + 16 + n));
        assert(bytes@.subrange(i + 8 + n, i + 16 + n) =~= here.subrange(8 + n, 16 + n));
        assert(here.skip(16 + n) =~= bytes@.skip(i + 16 + n));
        let ghost rest = records(bytes@.skip(i + 16 + n), start, end);
        if seqno < start {
        } else if seqno >= end {
            return Err(LogError::InvalidSeqNo { seqno, start, end });
        } else {
            let data = copy_range(bytes, i + 8, i + 8 + n);
            assert(bytes@.subrange(i + 8, i + 8 + n) =~= here.subrange(8, 8 + n));
            out.push((seqno, data));
            assert(records_view(out@) =~= done.push((seqno, data@)));
            assert(behind(done, with_first((seqno, data@), rest)) == behind(records_view(out@), rest)) by {
                match rest {
                    Ok(rs) => {
                        assert(done + (seq![(seqno, data@)] + rs) =~= done.push((seqno, data@)) + rs);
                    },
                    Err(_) => {},
                }
            }
        }
        i = i + 16 + n;
    }
    proof {
        assert(records_view(out@) + Seq::<(u64, Seq<u8>)>::empty() =~= records_view(out@));
    }
    Ok(out)
}

/// Records written one behind the other are read back as they were
/// written: a record in the range of the log comes first, before those of
/// the rest of the file, and one below the range is left out.
pub proof fn lemma_read_what_was_written(data: Seq<u8>, seqno: u64, rest: Seq<u8>, start: u64, end: u64)
    requires
        data.len() <= u64::MAX,
        seqno < end,
    ensures
        records(frame(data, seqno) + rest, start, end) == if seqno < start {
            records(rest, start, end)
        } else {
            with_first((seqno, data), records(rest, start, end))
        },
{
    lemma_auto_spec_u64_to_from_le_bytes();
    let bytes = frame(data, seqno) + rest;
    let n = data.len() as int;
    assert(bytes.subrange(0, 8) =~= spec_u64_to_le_bytes(data.len() as u64));
    assert(bytes.subrange(8 + n, 16 + n) =~= spec_u64_to_le_bytes(seqno));
    assert(bytes.subrange(8, 8 + n) =~= data);
    assert(bytes.skip(16 + n) =~= rest);
}

/// The sequence number below which a log was truncated, from the bytes of
/// its metadata file; nothing for a file that was just made, which the
/// caller then fills with the number 0.
pub open spec fn truncated_below(bytes: Seq<u8>) -> Result<Option<u64>, LogError> {
    if bytes.len() == 0 {
        Ok(None)
    } else if bytes.len() < 8 {
        Err(LogError::BadMetadata(bytes.len() as usize))
    } else {
        Ok(Some(spec_u64_from_le_bytes(bytes.subrange(0, 8))))
    }
}

/// The sequence number below which a log was truncated.
pub fn read_metadata(bytes: &Vec<u8>) -> (r: Result<Option<u64>, LogError>)
    ensures
        r == truncated_below(bytes@),
{
    if bytes.len() == 0 {
        Ok(None)
    } else if bytes.len() < 8 {
        Err(LogError::BadMetadata(bytes.len()))
    } else {
        Ok(Some(u64_from_le_bytes(slice_subrange(bytes.as_slice(), 0, 8))))
    }
}

/// The range of sequence numbers of a log.
#[derive(Clone, Copy, Debug, PartialEq, Eq, Structural)]
pub struct SeqNoRange {
    /// The first sequence number that was not truncated.
    pub start: u64,
    /// The sequence number of the next write.
    pub end: u64,
}

impl SeqNoRange {
    /// A range is well formed when it does not start behind its end.
    pub open spec fn wf(self) -> bool {
        self.start <= self.end
    }

    /// The range of a log that was truncated below `start` and whose data
    /// file ends with the given 8 bytes, or is empty: the end lies one
    /// behind the sequence number of the last record.
    pub fn open(start: u64, last: Option<u64>) -> (r: Result<SeqNoRange, LogError>)
        requires
            last is Some ==> last->0 < u64::MAX,
        ensures
            r == (if start > end_after(last) {
                Err::<SeqNoRange, LogError>(LogError::InvalidRange { start, end: end_after(last) })
            } else {
                Ok::<SeqNoRange, LogError>(SeqNoRange { start, end: end_after(last) })
            }),
            r is Ok ==> r->Ok_0.wf(),
    {
        let end = match last {
            Some(n) => n + 1,
            None => 0,
        };
        if start > end {
            Err(LogError::InvalidRange { start, end })
        } else {
            Ok(SeqNoRange { start, end })
        }
    }

    /// The sequence number of the next write, and the range after it.
    pub fn write(self) -> (r: (u64, SeqNoRange))
        requires
            self.wf(),
            self.end < u64::MAX,
        ensures
            r.0 == self.end,
            r.1 == (SeqNoRange { start: self.start, end: (self.end + 1) as u64 }),
            r.1.wf(),
    {
        (self.end, SeqNoRange { start: self.start, end: self.end + 1 })
    }

    /// The range after the log is truncated below `upper`, which must lie
    /// behind the start and not behind the end.
    pub fn truncate(self, upper: u64) -> (r: Result<SeqNoRange, LogError>)
        requires
            self.wf(),
        ensures
            r == (if upper <= self.start || upper > self.end {
                Err::<SeqNoRange, LogError>(
                    LogError::InvalidTruncation { upper, start: self.start, end: self.end },
                )
            } else {
                Ok::<SeqNoRange, LogError>(SeqNoRange { start: upper, end: self.end })
            }),
            r is Ok ==> r->Ok_0.wf(),
    {
        if upper <= self.start || upper > self.end {
            Err(LogError::InvalidTruncation { upper, start: self.start, end: self.end })
        } else {
            Ok(SeqNoRange { start: upper, end: self.end })
        }
    }
}

/// The sequence number of the next write of a log whose last record has
/// the given sequence number, 0 for a log without records.
pub open spec fn end_after(last: Option<u64>) -> u64 {
    match last {
        Some(n) => (n + 1) as u64,
        None => 0,
    }
}

/// The sequence number of the last record of a data file, which stands in
/// its last 8 bytes; nothing for an empty file.
pub fn last_seqno(bytes: &Vec<u8>) -> (r: Result<Option<u64>, LogError>)
    ensures
        r == (if bytes@.len() == 0 {
            Ok::<Option<u64>, LogError>(None)
        } else if bytes@.len() < 8 {
            Err::<Option<u64>, LogError>(LogError::UnexpectedEof)
        } else {
            Ok::<Option<u64>, LogError>(
                Some(spec_u64_from_le_bytes(bytes@.subrange(bytes@.len() - 8, bytes@.len() as int))),
            )
        }),
{
    let len = bytes.len();
    if len == 0 {
        Ok(None)
    } else if len < 8 {
        Err(LogError::UnexpectedEof)
    } else {
        Ok(Some(u64_from_le_bytes(slice_subrange(bytes.as_slice(), len - 8, len))))
    }
}

} // verus!
