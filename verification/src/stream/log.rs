//! The layout of a job's log file.
//!
//! A log is a header of 13 bytes followed by records, one for each message that the job's
//! writer accepted, in the order of their arrival:
//!
//! ```text
//! header:  "hqlog"  version: u32  reserved: u32
//! Start:   0  task: u32
//! Data:    1  task: u32  channel: u32  length: u32  `length` bytes of output
//! End:     2  task: u32
//! ```
//!
//! All integers are stored with their least significant byte first. The reserved field is
//! written as zero and never looked at when a log is read.
use crate::stream::buffer::{
    buffer_bytes, buffer_put_slice, buffer_put_u32_le, buffer_put_u8, buffer_to_vec,
    buffer_with_capacity, le_bytes, le_value, lemma_le_value_of_le_bytes, read_u32_le,
};
use crate::transfer::stream::{ChannelId, FromStreamerMessage};
use crate::JobTaskId;
use bytes::BytesMut;
use vstd::prelude::*;
use vstd::slice::{slice_subrange, slice_to_vec};

verus! {

/// The version of the layout that this library writes and reads.
pub const HQ_LOG_VERSION: u32 = 0;

/// The length of the header of a log.
pub const LOG_HEADER_LEN: usize = 13;

/// The tag of a record that a task's `Start` message leaves.
pub const TAG_START: u8 = 0;

/// The tag of a record that holds output.
pub const TAG_DATA: u8 = 1;

/// The tag of a record that a task's `End` message leaves.
pub const TAG_END: u8 = 2;

/// The length of a `Data` record without its output.
pub const DATA_RECORD_PREFIX_LEN: usize = 13;

/// Why bytes could not be read as a log, or a message not be written as a record.
#[derive(Debug, Clone, Copy, PartialEq, Eq, Structural)]
pub enum LogError {
    /// The bytes end inside the header or inside a record.
    Truncated,
    /// The bytes do not start with the magic token.
    BadMagic,
    /// The header names a version of the layout that this library does not know.
    UnsupportedVersion(u32),
    /// A record starts with a tag that the layout does not define.
    UnknownTag(u8),
    /// The output of a `Data` message is longer than a record can hold.
    PayloadTooLarge,
}

/// One record of a log.
#[derive(Debug, Clone, PartialEq, Eq)]
pub enum LogRecord {
    Start { task: JobTaskId },
    Data { task: JobTaskId, channel: ChannelId, data: Vec<u8> },
    End { task: JobTaskId },
}

/// One record of a log, as a mathematical value.
pub enum LogRecordView {
    Start { task: JobTaskId },
    Data { task: JobTaskId, channel: ChannelId, data: Seq<u8> },
    End { task: JobTaskId },
}

impl View for LogRecord {
    type V = LogRecordView;

    open spec fn view(&self) -> LogRecordView {
        match *self {
            LogRecord::Start { task } => LogRecordView::Start { task },
            LogRecord::Data { task, channel, data } => LogRecordView::Data {
                task,
                channel,
                data: data@,
            },
            LogRecord::End { task } => LogRecordView::End { task },
        }
    }
}

/// The views of the records of `records`, in the same order.
pub open spec fn records_view(records: Seq<LogRecord>) -> Seq<LogRecordView> {
    records.map_values(|r: LogRecord| r@)
}

/// The magic token: the ASCII letters `hqlog`.
pub open spec fn log_magic() -> Seq<u8> {
    seq![0x68u8, 0x71u8, 0x6cu8, 0x6fu8, 0x67u8]
}

/// The header of every log: magic token, version, reserved field.
pub open spec fn header_bytes() -> Seq<u8> {
    log_magic() + le_bytes(HQ_LOG_VERSION) + le_bytes(0)
}

/// The record that a message leaves in the log of its job.
pub open spec fn record_of(message: FromStreamerMessage) -> LogRecordView {
    match message {
        FromStreamerMessage::Start(m) => LogRecordView::Start { task: m.task },
        FromStreamerMessage::Data(m) => LogRecordView::Data {
            task: m.task,
            channel: m.channel,
            data: m.data@,
        },
        FromStreamerMessage::End(m) => LogRecordView::End { task: m.task },
    }
}

/// Whether output of `len` bytes can be stored in one record: its length has to fit into the
/// four bytes of the length field, and the whole record into one allocation.
pub open spec fn payload_fits(len: nat) -> bool {
    len <= u32::MAX && len + DATA_RECORD_PREFIX_LEN <= isize::MAX
}

/// Whether a record can be written: only the output of a `Data` record can be too long.
pub open spec fn record_fits(record: LogRecordView) -> bool {
    match record {
        LogRecordView::Data { data, .. } => payload_fits(data.len()),
        _ => true,
    }
}

/// The bytes of one record.
pub open spec fn record_bytes(record: LogRecordView) -> Seq<u8> {
    match record {
        LogRecordView::Start { task } => seq![TAG_START] + le_bytes(task),
        LogRecordView::Data { task, channel, data } => seq![TAG_DATA] + le_bytes(task) + le_bytes(
            channel,
        ) + le_bytes(data.len() as u32) + data,
        LogRecordView::End { task } => seq![TAG_END] + le_bytes(task),
    }
}

/// The bytes of a sequence of records: those of the first, then those of the others.
pub open spec fn records_bytes(records: Seq<LogRecordView>) -> Seq<u8>
    decreases records.len(),
{
    if records.len() == 0 {
        Seq::empty()
    } else {
        record_bytes(records[0]) + records_bytes(records.skip(1))
    }
}

/// The bytes of a whole log that holds `records`.
pub open spec fn log_bytes(records: Seq<LogRecordView>) -> Seq<u8> {
    header_bytes() + records_bytes(records)
}

/// Whether `len` bytes of output fit into one record.
pub fn check_payload_len(len: usize) -> (fits: bool)
    ensures
        fits == payload_fits(len as nat),
{
    len <= u32::MAX as usize && len <= isize::MAX as usize - DATA_RECORD_PREFIX_LEN
}

/// Appends the header of a log to `buffer`.
pub(crate) fn put_header(buffer: &mut BytesMut)
    requires
        buffer_bytes(*old(buffer)).len() + LOG_HEADER_LEN <= isize::MAX,
    ensures
        buffer_bytes(*final(buffer)) == buffer_bytes(*old(buffer)) + header_bytes(),
{
    let magic: [u8; 5] = [0x68, 0x71, 0x6c, 0x6f, 0x67];
    buffer_put_slice(buffer, magic.as_slice());
    buffer_put_u32_le(buffer, HQ_LOG_VERSION);
    buffer_put_u32_le(buffer, 0);
}

/// Appends the record of `message` to `buffer`.
pub(crate) fn put_record(buffer: &mut BytesMut, message: &FromStreamerMessage)
    requires
        record_fits(record_of(*message)),
        buffer_bytes(*old(buffer)).len() + record_bytes(record_of(*message)).len() <= isize::MAX,
    ensures
        buffer_bytes(*final(buffer)) == buffer_bytes(*old(buffer)) + record_bytes(
            record_of(*message),
        ),
{
    match message {
        FromStreamerMessage::Start(m) => {
            buffer_put_u8(buffer, TAG_START);
            buffer_put_u32_le(buffer, m.task);
        },
        FromStreamerMessage::Data(m) => {
            buffer_put_u8(buffer, TAG_DATA);
            buffer_put_u32_le(buffer, m.task);
            buffer_put_u32_le(buffer, m.channel);
            buffer_put_u32_le(buffer, m.data.len() as u32);
            buffer_put_slice(buffer, m.data.as_slice());
        },
        FromStreamerMessage::End(m) => {
            buffer_put_u8(buffer, TAG_END);
            buffer_put_u32_le(buffer, m.task);
        },
    }
}

/// The header of a log, as written at the start of every log file.
pub fn encode_header() -> (bytes: Vec<u8>)
    ensures
        bytes@ == header_bytes(),
{
    let mut buffer = buffer_with_capacity(16);
    put_header(&mut buffer);
    buffer_to_vec(&buffer)
}

/// The record that `message` leaves in the log of its job. It fails, with
/// `LogError::PayloadTooLarge`, exactly for a `Data` message whose output does not fit into one
/// record.
pub fn encode_record(message: &FromStreamerMessage) -> (result: Result<Vec<u8>, LogError>)
    ensures
        result is Ok <==> record_fits(record_of(*message)),
        result matches Ok(bytes) ==> bytes@ == record_bytes(record_of(*message)),
        result matches Err(e) ==> e == LogError::PayloadTooLarge,
{
    let fits = match message {
        FromStreamerMessage::Data(m) => check_payload_len(m.data.len()),
        _ => true,
    };
    if !fits {
        return Err(LogError::PayloadTooLarge);
    }
    let mut buffer = buffer_with_capacity(16);
    put_record(&mut buffer, message);
    Ok(buffer_to_vec(&buffer))
}

/// What reading one record from the start of `bytes` gives: the record and the number of bytes
/// that it takes, or the reason why there is none.
pub open spec fn parse_record_spec(bytes: Seq<u8>) -> Result<(LogRecordView, nat), LogError> {
    if bytes.len() == 0 {
        Err(LogError::Truncated)
    } else if bytes[0] == TAG_START || bytes[0] == TAG_END {
        if bytes.len() < 5 {
            Err(LogError::Truncated)
        } else if bytes[0] == TAG_START {
            Ok((LogRecordView::Start { task: le_value(bytes.subrange(1, 5)) }, 5))
        } else {
            Ok((LogRecordView::End { task: le_value(bytes.subrange(1, 5)) }, 5))
        }
    } else if bytes[0] == TAG_DATA {
        if bytes.len() < DATA_RECORD_PREFIX_LEN {
            Err(LogError::Truncated)
        } else {
            let len = le_value(bytes.subrange(9, 13)) as int;
            if bytes.len() < DATA_RECORD_PREFIX_LEN + len {
                Err(LogError::Truncated)
            } else {
                Ok(
                    (
                        LogRecordView::Data {
                            task: le_value(bytes.subrange(1, 5)),
                            channel: le_value(bytes.subrange(5, 9)),
                            data: bytes.subrange(13, 13 + len),
                        },
                        (DATA_RECORD_PREFIX_LEN + len) as nat,
                    ),
                )
            }
        }
    } else {
        Err(LogError::UnknownTag(bytes[0]))
    }
}

/// What reading records until the end of `bytes` gives: all of them, or the reason why the
/// first unreadable one could not be read.
pub open spec fn parse_records_spec(bytes: Seq<u8>) -> Result<Seq<LogRecordView>, LogError>
    decreases bytes.len(),
{
    if bytes.len() == 0 {
        Ok(Seq::empty())
    } else {
        match parse_record_spec(bytes) {
            Err(e) => Err(e),
            Ok((record, taken)) => {
                if 0 < taken <= bytes.len() {
                    match parse_records_spec(bytes.skip(taken as int)) {
                        Err(e) => Err(e),
                        Ok(others) => Ok(seq![record] + others),
                    }
                } else {
                    Err(LogError::Truncated)
                }
            },
        }
    }
}

/// What reading `bytes` as a log gives: its records, or the reason why it is no log. The
/// reserved field of the header is not looked at.
pub open spec fn parse_log_spec(bytes: Seq<u8>) -> Result<Seq<LogRecordView>, LogError> {
    if bytes.len() < LOG_HEADER_LEN {
        Err(LogError::Truncated)
    } else if bytes.subrange(0, 5) != log_magic() {
        Err(LogError::BadMagic)
    } else if le_value(bytes.subrange(5, 9)) != HQ_LOG_VERSION {
        Err(LogError::UnsupportedVersion(le_value(bytes.subrange(5, 9))))
    } else {
        parse_records_spec(bytes.skip(LOG_HEADER_LEN as int))
    }
}

/// A record is read with every byte that it takes inside `bytes`.
pub proof fn lemma_parse_record_bounds(bytes: Seq<u8>)
    ensures
        parse_record_spec(bytes) matches Ok((_, taken)) ==> 0 < taken <= bytes.len(),
{
}

/// Reads the number stored in the four bytes of `bytes` from `at` on.
fn read_field(bytes: &[u8], at: usize) -> (n: u32)
    requires
        at + 4 <= bytes@.len(),
    ensures
        n == le_value(bytes@.subrange(at as int, at + 4)),
{
    // the length of a slice fits into `usize`, and so does `at + 4`
    let _ = bytes.len();
    read_u32_le(slice_subrange(bytes, at, at + 4))
}

/// Reads the record that starts at `at`, and says where the next one starts. Reading at or
/// behind the end of `bytes` fails with `LogError::Truncated`.
pub fn parse_record(bytes: &[u8], at: usize) -> (result: Result<(LogRecord, usize), LogError>)
    ensures
        at >= bytes@.len() ==> result == Err::<(LogRecord, usize), LogError>(LogError::Truncated),
        at < bytes@.len() ==> match parse_record_spec(bytes@.skip(at as int)) {
            Ok((record, taken)) => result matches Ok((r, next)) && r@ == record && next == at
                + taken,
            Err(e) => result == Err::<(LogRecord, usize), LogError>(e),
        },
{
    let len = bytes.len();
    if at >= len {
        return Err(LogError::Truncated);
    }
    let ghost rest = bytes@.skip(at as int);
    let tag = bytes[at];
    if tag == TAG_START || tag == TAG_END {
        if len - at < 5 {
            return Err(LogError::Truncated);
        }
        let task = read_field(bytes, at + 1);
        if tag == TAG_START {
            Ok((LogRecord::Start { task }, at + 5))
        } else {
            Ok((LogRecord::End { task }, at + 5))
        }
    } else if tag == TAG_DATA {
        if len - at < DATA_RECORD_PREFIX_LEN {
            return Err(LogError::Truncated);
        }
        let task = read_field(bytes, at + 1);
        let channel = read_field(bytes, at + 5);
        let size = read_field(bytes, at + 9);
        if ((len - at - DATA_RECORD_PREFIX_LEN) as u64) < size as u64 {
            return Err(LogError::Truncated);
        }
        let start = at + DATA_RECORD_PREFIX_LEN;
        let end = start + size as usize;
        let data = slice_to_vec(slice_subrange(bytes, start, end));
        assert(data@ =~= rest.subrange(13, 13 + size));
        Ok((LogRecord::Data { task, channel, data }, end))
    } else {
        Err(LogError::UnknownTag(tag))
    }
}

/// Reads a whole log: checks the header, then reads records until the bytes end.
///
/// The result is the list of records exactly when `bytes` starts with the magic token and the
/// known version, and what follows the header is a sequence of complete records with known
/// tags. Otherwise it is the error of the first thing that is wrong.
pub fn parse_log(bytes: &[u8]) -> (result: Result<Vec<LogRecord>, LogError>)
    ensures
        match parse_log_spec(bytes@) {
            Ok(records) => result matches Ok(v) && records_view(v@) == records,
            Err(e) => result == Err::<Vec<LogRecord>, LogError>(e),
        },
{
    let len = bytes.len();
    if len < LOG_HEADER_LEN {
        return Err(LogError::Truncated);
    }
    let magic = slice_subrange(bytes, 0, 5);
    if magic[0] != 0x68 || magic[1] != 0x71 || magic[2] != 0x6c || magic[3] != 0x6f || magic[4]
        != 0x67 {
        assert(bytes@.subrange(0, 5) != log_magic());
        return Err(LogError::BadMagic);
    }
    assert(bytes@.subrange(0, 5) =~= log_magic());
    let version = read_field(bytes, 5);
    if version != HQ_LOG_VERSION {
        return Err(LogError::UnsupportedVersion(version));
    }
    let mut records: Vec<LogRecord> = Vec::new();
    let mut at: usize = LOG_HEADER_LEN;
    let ghost whole = parse_log_spec(bytes@);
    while at < len
        invariant
            len == bytes@.len(),
            LOG_HEADER_LEN <= at <= len,
            whole == parse_log_spec(bytes@),
            whole == match parse_records_spec(bytes@.skip(at as int)) {
                Ok(others) => Ok::<Seq<LogRecordView>, LogError>(records_view(records@) + others),
                Err(e) => Err::<Seq<LogRecordView>, LogError>(e),
            },
        decreases len - at,
    {
        let ghost rest = bytes@.skip(at as int);
        let ghost before = records_view(records@);
        match parse_record(bytes, at) {
            Err(e) => {
                return Err(e);
            },
            Ok((record, next)) => {
                proof {
                    lemma_parse_record_bounds(rest);
                    let taken = (next - at) as nat;
                    assert(rest.skip(taken as int) =~= bytes@.skip(next as int));
                    match parse_records_spec(bytes@.skip(next as int)) {
                        Ok(others) => {
                            assert((before + seq![record@]) + others =~= before + (seq![record@]
                                + others));
                        },
                        Err(_) => {},
                    }
                }
                records.push(record);
                assert(records_view(records@) =~= before + seq![record@]);
                at = next;
            },
        }
    }
    Ok(records)
}

/// Whether every record of `records` can be written.
pub open spec fn records_fit(records: Seq<LogRecordView>) -> bool {
    forall|i: int| 0 <= i < records.len() ==> record_fits(#[trigger] records[i])
}

/// The bytes of a record followed by anything are read back as that record, and exactly its
/// bytes are taken.
pub proof fn lemma_parse_written_record(record: LogRecordView, rest: Seq<u8>)
    requires
        record_fits(record),
    ensures
        record_bytes(record).len() > 0,
        parse_record_spec(record_bytes(record) + rest) == Ok::<(LogRecordView, nat), LogError>(
            (record, record_bytes(record).len()),
        ),
{
    let bytes = record_bytes(record) + rest;
    match record {
        LogRecordView::Start { task } => {
            lemma_le_value_of_le_bytes(task, Seq::<u8>::empty());
        },
        LogRecordView::End { task } => {
            lemma_le_value_of_le_bytes(task, Seq::<u8>::empty());
        },
        LogRecordView::Data { task, channel, data } => {
            let size = data.len() as u32;
            lemma_le_value_of_le_bytes(task, Seq::<u8>::empty());
            lemma_le_value_of_le_bytes(channel, Seq::<u8>::empty());
            lemma_le_value_of_le_bytes(size, Seq::<u8>::empty());
            assert(bytes.subrange(13, 13 + data.len() as int) =~= data);
        },
    }
}

/// The bytes of a sequence of records are the bytes of all but the last, then those of the
/// last: appending a record to a log appends its bytes.
pub proof fn lemma_records_bytes_push(records: Seq<LogRecordView>, record: LogRecordView)
    ensures
        records_bytes(records.push(record)) == records_bytes(records) + record_bytes(record),
    decreases records.len(),
{
    let all = records.push(record);
    if records.len() == 0 {
        assert(records_bytes(all.skip(1)) =~= Seq::<u8>::empty());
    } else {
        lemma_records_bytes_push(records.skip(1), record);
        assert(all.skip(1) =~= records.skip(1).push(record));
    }
}

/// Reading the bytes of records that can be written gives these records back.
pub proof fn lemma_parse_written_records(records: Seq<LogRecordView>)
    requires
        records_fit(records),
    ensures
        parse_records_spec(records_bytes(records)) == Ok::<Seq<LogRecordView>, LogError>(records),
    decreases records.len(),
{
    if records.len() == 0 {
        assert(records =~= Seq::<LogRecordView>::empty());
    } else {
        let first = records[0];
        let others = records.skip(1);
        assert forall|i: int| 0 <= i < others.len() implies record_fits(#[trigger] others[i]) by {}
        lemma_parse_written_record(first, records_bytes(others));
        lemma_parse_written_records(others);
        let bytes = records_bytes(records);
        let taken = record_bytes(first).len();
        assert(bytes.skip(taken as int) =~= records_bytes(others));
        assert(seq![first] + others =~= records);
    }
}

/// A log that holds records that can be written is read back as exactly these records: what
/// the library writes, it reads.
pub proof fn lemma_parse_written_log(records: Seq<LogRecordView>)
    requires
        records_fit(records),
    ensures
        parse_log_spec(log_bytes(records)) == Ok::<Seq<LogRecordView>, LogError>(records),
{
    let bytes = log_bytes(records);
    lemma_parse_written_records(records);
    assert(bytes.subrange(0, 5) =~= log_magic());
    lemma_le_value_of_le_bytes(HQ_LOG_VERSION, Seq::<u8>::empty());
    assert(bytes.skip(LOG_HEADER_LEN as int) =~= records_bytes(records));
}

} // verus!
