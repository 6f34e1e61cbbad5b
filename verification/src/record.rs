//! The data section: the byte-exact grammar of one record (tag, timestamp,
//! optional length prefix, payload) and of the whole record stream, the
//! table of known record layouts, and the verified record decoder.

use vstd::prelude::*;
use crate::bytes::be_val;
use crate::bytes::field_u16;
use crate::bytes::field_u32;
use crate::bytes::field_u64;
use crate::bytes::Cursor;
use crate::registry::Registry;
use crate::types::EventSize;
use crate::types::ParseError;

verus! {

/// The tag word that ends the data section instead of opening a record.
pub const TERMINATOR: u16 = 0xFFFF;

/// The tags whose payload layout the dispatcher knows.  Records of any other
/// declared tag are still framed correctly, but surfaced as opaque bytes.
pub open spec fn known_tag(tag: u16) -> bool {
    payload_min(tag) >= 0
}

/// The least payload length the fields of a known tag need, or -1 for a tag
/// with no known layout.  Blob-carrying tags accept any payload at least as
/// long as their fixed leading fields; payload bytes past a known layout are
/// consumed but carry no fields.
pub open spec fn payload_min(tag: u16) -> int {
    match tag {
        0u16 => 4,
        1u16 => 4,
        2u16 => 10,
        3u16 => 4,
        4u16 => 6,
        8u16 => 6,
        9u16 => 0,
        10u16 => 0,
        11u16 => 0,
        12u16 => 0,
        18u16 => 14,
        19u16 => 0,
        20u16 => 0,
        21u16 => 0,
        22u16 => 0,
        25u16 => 6,
        26u16 => 4,
        27u16 => 6,
        28u16 => 6,
        29u16 => 4,
        30u16 => 0,
        32u16 => 8,
        33u16 => 8,
        34u16 => 56,
        43u16 => 16,
        44u16 => 4,
        45u16 => 2,
        46u16 => 2,
        47u16 => 2,
        49u16 => 12,
        50u16 => 12,
        51u16 => 12,
        52u16 => 38,
        53u16 => 58,
        54u16 => 0,
        55u16 => 18,
        56u16 => 12,
        57u16 => 8,
        90u16 => 16,
        91u16 => 12,
        _ => -1,
    }
}

/// Whether a payload is long enough for the fields of its (known) tag.
pub open spec fn payload_wf(tag: u16, p: Seq<u8>) -> bool {
    p.len() >= payload_min(tag)
}

/// One decoded record body, one variant per known tag, plus the opaque
/// variant for declared-but-unhandled tags.
pub enum Record {
    ThreadCreate { threadid: u32 },
    ThreadRun { threadid: u32 },
    ThreadStop { threadid: u32, status: u16, block_threadid: u32 },
    ThreadRunnable { threadid: u32 },
    ThreadMigrate { threadid: u32, capno: u16 },
    ThreadWakeup { threadid: u32, capno: u16 },
    GcStart,
    GcEnd,
    RequestSeqGc,
    RequestParGc,
    BlockMarker { block_size: u32, time_end: u64, capno: u16 },
    UserMsg { bytes: Vec<u8> },
    GcIdle,
    GcWork,
    GcDone,
    CapsetCreate { capset: u32, type_: u16 },
    CapsetDelete { capset: u32 },
    CapsetAssignCap { capset: u32, capno: u16 },
    CapsetRemoveCap { capset: u32, capno: u16 },
    RtsIdentifier { capset: u32, name: Vec<u8> },
    ProgramArgs { bytes: Vec<u8> },
    OsProcessPid { capset: u32, pid: u32 },
    OsProcessPpid { capset: u32, ppid: u32 },
    SparkCounters { counters: [u64; 7] },
    WallClockTime { capset: u32, sec: u64, nsec: u32 },
    ThreadLabel { threadid: u32, label: Vec<u8> },
    CapCreate { capno: u16 },
    CapDelete { capno: u16 },
    CapDisable { capno: u16 },
    HeapAllocated { capset: u32, allocated_bytes: u64 },
    HeapSize { capset: u32, size: u64 },
    HeapLive { capset: u32, size: u64 },
    HeapInfo {
        capset: u32,
        gen: u16,
        max_heap: u64,
        alloc_size: u64,
        mblock_size: u64,
        block_size: u64,
    },
    GcStats {
        capset: u32,
        gen: u16,
        copied: u64,
        slop: u64,
        fragmentation: u64,
        threads: u32,
        max_copied: u64,
        total_copied: u64,
        balanced_copied: u64,
    },
    GcGlobalSync,
    TaskCreate { taskid: u64, capno: u16, k_threadid: u64 },
    TaskMigrate { taskid: u64, from_capno: u16, to_capno: u16 },
    TaskDelete { taskid: u64 },
    MemReturn { capset: u32, mblocks: u32, retain: u32, return_: u32 },
    BlocksSize { capset: u32, blocks: u64 },
    Unknown { bytes: Vec<u8> },
}

/// The record body a payload denotes under its tag: the variant is the
/// tag's, and every field equals the big-endian value at its fixed offset.
pub open spec fn rec_matches(r: Record, tag: u16, p: Seq<u8>) -> bool {
    match r {
        Record::ThreadCreate { threadid } => tag == 0 && threadid == be_val(p.subrange(0, 4)),
        Record::ThreadRun { threadid } => tag == 1 && threadid == be_val(p.subrange(0, 4)),
        Record::ThreadStop { threadid, status, block_threadid } => tag == 2
            && threadid == be_val(p.subrange(0, 4))
            && status == be_val(p.subrange(4, 6))
            && block_threadid == be_val(p.subrange(6, 10)),
        Record::ThreadRunnable { threadid } => tag == 3 && threadid == be_val(p.subrange(0, 4)),
        Record::ThreadMigrate { threadid, capno } => tag == 4
            && threadid == be_val(p.subrange(0, 4))
            && capno == be_val(p.subrange(4, 6)),
        Record::ThreadWakeup { threadid, capno } => tag == 8
            && threadid == be_val(p.subrange(0, 4))
            && capno == be_val(p.subrange(4, 6)),
        Record::GcStart => tag == 9,
        Record::GcEnd => tag == 10,
        Record::RequestSeqGc => tag == 11,
        Record::RequestParGc => tag == 12,
        Record::BlockMarker { block_size, time_end, capno } => tag == 18
            && block_size == be_val(p.subrange(0, 4))
            && time_end == be_val(p.subrange(4, 12))
            && capno == be_val(p.subrange(12, 14)),
        Record::UserMsg { bytes } => tag == 19 && bytes@ == p,
        Record::GcIdle => tag == 20,
        Record::GcWork => tag == 21,
        Record::GcDone => tag == 22,
        Record::CapsetCreate { capset, type_ } => tag == 25
            && capset == be_val(p.subrange(0, 4))
            && type_ == be_val(p.subrange(4, 6)),
        Record::CapsetDelete { capset } => tag == 26 && capset == be_val(p.subrange(0, 4)),
        Record::CapsetAssignCap { capset, capno } => tag == 27
            && capset == be_val(p.subrange(0, 4))
            && capno == be_val(p.subrange(4, 6)),
        Record::CapsetRemoveCap { capset, capno } => tag == 28
            && capset == be_val(p.subrange(0, 4))
            && capno == be_val(p.subrange(4, 6)),
        Record::RtsIdentifier { capset, name } => tag == 29
            && capset == be_val(p.subrange(0, 4))
            && name@ == p.subrange(4, p.len() as int),
        Record::ProgramArgs { bytes } => tag == 30 && bytes@ == p,
        Record::OsProcessPid { capset, pid } => tag == 32
            && capset == be_val(p.subrange(0, 4))
            && pid == be_val(p.subrange(4, 8)),
        Record::OsProcessPpid { capset, ppid } => tag == 33
            && capset == be_val(p.subrange(0, 4))
            && ppid == be_val(p.subrange(4, 8)),
        Record::SparkCounters { counters } => tag == 34
            && counters@.len() == 7
            && counters@[0] == be_val(p.subrange(0, 8))
            && counters@[1] == be_val(p.subrange(8, 16))
            && counters@[2] == be_val(p.subrange(16, 24))
            && counters@[3] == be_val(p.subrange(24, 32))
            && counters@[4] == be_val(p.subrange(32, 40))
            && counters@[5] == be_val(p.subrange(40, 48))
            && counters@[6] == be_val(p.subrange(48, 56)),
        Record::WallClockTime { capset, sec, nsec } => tag == 43
            && capset == be_val(p.subrange(0, 4))
            && sec == be_val(p.subrange(4, 12))
            && nsec == be_val(p.subrange(12, 16)),
        Record::ThreadLabel { threadid, label } => tag == 44
            && threadid == be_val(p.subrange(0, 4))
            && label@ == p.subrange(4, p.len() as int),
        Record::CapCreate { capno } => tag == 45 && capno == be_val(p.subrange(0, 2)),
        Record::CapDelete { capno } => tag == 46 && capno == be_val(p.subrange(0, 2)),
        Record::CapDisable { capno } => tag == 47 && capno == be_val(p.subrange(0, 2)),
        Record::HeapAllocated { capset, allocated_bytes } => tag == 49
            && capset == be_val(p.subrange(0, 4))
            && allocated_bytes == be_val(p.subrange(4, 12)),
        Record::HeapSize { capset, size } => tag == 50
            && capset == be_val(p.subrange(0, 4))
            && size == be_val(p.subrange(4, 12)),
        Record::HeapLive { capset, size } => tag == 51
            && capset == be_val(p.subrange(0, 4))
            && size == be_val(p.subrange(4, 12)),
        Record::HeapInfo { capset, gen, max_heap, alloc_size, mblock_size, block_size } => tag == 52
            && capset == be_val(p.subrange(0, 4))
            && gen == be_val(p.subrange(4, 6))
            && max_heap == be_val(p.subrange(6, 14))
            && alloc_size == be_val(p.subrange(14, 22))
            && mblock_size == be_val(p.subrange(22, 30))
            && block_size == be_val(p.subrange(30, 38)),
        Record::GcStats {
            capset,
            gen,
            copied,
            slop,
            fragmentation,
            threads,
            max_copied,
            total_copied,
            balanced_copied,
        } => tag == 53
            && capset == be_val(p.subrange(0, 4))
            && gen == be_val(p.subrange(4, 6))
            && copied == be_val(p.subrange(6, 14))
            && slop == be_val(p.subrange(14, 22))
            && fragmentation == be_val(p.subrange(22, 30))
            && threads == be_val(p.subrange(30, 34))
            && max_copied == be_val(p.subrange(34, 42))
            && total_copied == be_val(p.subrange(42, 50))
            && balanced_copied == be_val(p.subrange(50, 58)),
        Record::GcGlobalSync => tag == 54,
        Record::TaskCreate { taskid, capno, k_threadid } => tag == 55
            && taskid == be_val(p.subrange(0, 8))
            && capno == be_val(p.subrange(8, 10))
            && k_threadid == be_val(p.subrange(10, 18)),
        Record::TaskMigrate { taskid, from_capno, to_capno } => tag == 56
            && taskid == be_val(p.subrange(0, 8))
            && from_capno == be_val(p.subrange(8, 10))
            && to_capno == be_val(p.subrange(10, 12)),
        Record::TaskDelete { taskid } => tag == 57 && taskid == be_val(p.subrange(0, 8)),
        Record::MemReturn { capset, mblocks, retain, return_ } => tag == 90
            && capset == be_val(p.subrange(0, 4))
            && mblocks == be_val(p.subrange(4, 8))
            && retain == be_val(p.subrange(8, 12))
            && return_ == be_val(p.subrange(12, 16)),
        Record::BlocksSize { capset, blocks } => tag == 91
            && capset == be_val(p.subrange(0, 4))
            && blocks == be_val(p.subrange(4, 12)),
        Record::Unknown { bytes } => !known_tag(tag) && bytes@ == p,
    }
}

/// One record as the grammar sees it: its tag, its timestamp, whether it was
/// framed under the variable size class, and its exact payload bytes.
pub struct SpecRecord {
    pub tag: u16,
    pub time: u64,
    pub var: bool,
    pub payload: Seq<u8>,
}

/// One step of the data section grammar at position `i`: the terminator word
/// (`Ok(None)`), or one record and the position after it, or the exact
/// failure.  A missing registry entry, a stream too short for the declared
/// payload, and a declared payload too short for a known layout are all
/// fatal.
pub open spec fn spec_record_at(s: Seq<u8>, i: int, reg: Map<u16, EventSize>) -> Result<
    Option<(SpecRecord, int)>,
    ParseError,
> {
    if i + 2 > s.len() {
        Err(ParseError::Truncated)
    } else {
        let tag = be_val(s.subrange(i, i + 2)) as u16;
        if tag == TERMINATOR {
            Ok(None)
        } else if i + 10 > s.len() {
            Err(ParseError::Truncated)
        } else {
            let time = be_val(s.subrange(i + 2, i + 10)) as u64;
            if !reg.dom().contains(tag) {
                Err(ParseError::UnregisteredTag(tag))
            } else {
                match reg[tag] {
                    EventSize::Variable => {
                        if i + 12 > s.len() {
                            Err(ParseError::Truncated)
                        } else {
                            let plen = be_val(s.subrange(i + 10, i + 12));
                            if i + 12 + plen > s.len() {
                                Err(ParseError::Truncated)
                            } else {
                                let p = s.subrange(i + 12, i + 12 + plen);
                                if known_tag(tag) && !payload_wf(tag, p) {
                                    Err(ParseError::ShortPayload(tag))
                                } else {
                                    Ok(
                                        Some(
                                            (
                                                SpecRecord { tag, time, var: true, payload: p },
                                                i + 12 + plen,
                                            ),
                                        ),
                                    )
                                }
                            }
                        }
                    },
                    EventSize::Fixed(n) => {
                        if i + 10 + n > s.len() {
                            Err(ParseError::Truncated)
                        } else {
                            let p = s.subrange(i + 10, i + 10 + n);
                            if known_tag(tag) && !payload_wf(tag, p) {
                                Err(ParseError::ShortPayload(tag))
                            } else {
                                Ok(
                                    Some(
                                        (
                                            SpecRecord { tag, time, var: false, payload: p },
                                            i + 10 + n,
                                        ),
                                    ),
                                )
                            }
                        }
                    },
                }
            }
        }
    }
}

pub proof fn lemma_record_at_end(s: Seq<u8>, i: int, reg: Map<u16, EventSize>)
    requires
        0 <= i,
        spec_record_at(s, i, reg) matches Ok(Some(_)),
    ensures
        spec_record_at(s, i, reg) matches Ok(Some(rj))
            && i + 10 <= rj.1 <= s.len()
            && rj.0.payload.len() <= 0xFFFF
            && rj.1 == i + 10 + (if rj.0.var { 2int } else { 0int }) + rj.0.payload.len(),
{
    let tag = be_val(s.subrange(i, i + 2)) as u16;
    if reg.dom().contains(tag) && reg[tag] is Variable {
        crate::bytes::lemma_be_val_bound(s.subrange(i + 10, i + 12));
        crate::bytes::lemma_pow256_small();
    }
}

/// The rest of the data section from `i` on: records until the terminator,
/// and the position just past the terminator word.
pub open spec fn spec_records(s: Seq<u8>, i: int, reg: Map<u16, EventSize>) -> Result<
    (Seq<SpecRecord>, int),
    ParseError,
>
    decreases s.len() - i,
{
    match spec_record_at(s, i, reg) {
        Err(e) => Err(e),
        Ok(None) => Ok((seq![], i + 2)),
        Ok(Some((r0, j))) => {
            if i < j <= s.len() {
                match spec_records(s, j, reg) {
                    Err(e) => Err(e),
                    Ok((rest, end)) => Ok((seq![r0] + rest, end)),
                }
            } else {
                Err(ParseError::Truncated)
            }
        },
    }
}

/// The whole log: the header seals the registry, then the data section runs
/// under it.  On success: every record in stream order, and the position
/// just past the terminator.  Bytes past the terminator are not the log's.
pub open spec fn spec_log(s: Seq<u8>) -> Result<(Seq<SpecRecord>, int), ParseError> {
    match crate::header::spec_header(s) {
        Err(e) => Err(e),
        Ok((reg, p)) => spec_records(s, p, reg),
    }
}

/// Copies the payload bytes from `off` to the end.
fn tail_bytes(p: &Vec<u8>, off: usize) -> (r: Vec<u8>)
    requires
        off <= p@.len(),
    ensures
        r@ == p@.subrange(off as int, p@.len() as int),
{
    let n = p.len();
    let mut out: Vec<u8> = Vec::new();
    let mut i: usize = off;
    while i < n
        invariant
            off <= i <= n,
            n == p@.len(),
            out@ == p@.subrange(off as int, i as int),
        decreases n - i,
    {
        out.push(p[i]);
        proof {
            assert(out@ =~= p@.subrange(off as int, i + 1));
        }
        i = i + 1;
    }
    out
}

/// Interprets a framed payload under its tag: the known layouts read their
/// fixed big-endian fields, every other tag stays opaque bytes.
pub fn interp_payload(tag: u16, p: Vec<u8>) -> (r: Result<Record, ParseError>)
    ensures
        match r {
            Ok(rec) => rec_matches(rec, tag, p@) && (known_tag(tag) ==> payload_wf(tag, p@)),
            Err(e) => known_tag(tag) && !payload_wf(tag, p@) && e == ParseError::ShortPayload(tag),
        },
{
    let n = p.len();
    match tag {
        0 => {
            if n < 4 { return Err(ParseError::ShortPayload(tag)); }
            Ok(Record::ThreadCreate { threadid: field_u32(&p, 0) })
        },
        1 => {
            if n < 4 { return Err(ParseError::ShortPayload(tag)); }
            Ok(Record::ThreadRun { threadid: field_u32(&p, 0) })
        },
        2 => {
            if n < 10 { return Err(ParseError::ShortPayload(tag)); }
            Ok(Record::ThreadStop {
                threadid: field_u32(&p, 0),
                status: field_u16(&p, 4),
                block_threadid: field_u32(&p, 6),
            })
        },
        3 => {
            if n < 4 { return Err(ParseError::ShortPayload(tag)); }
            Ok(Record::ThreadRunnable { threadid: field_u32(&p, 0) })
        },
        4 => {
            if n < 6 { return Err(ParseError::ShortPayload(tag)); }
            Ok(Record::ThreadMigrate { threadid: field_u32(&p, 0), capno: field_u16(&p, 4) })
        },
        8 => {
            if n < 6 { return Err(ParseError::ShortPayload(tag)); }
            Ok(Record::ThreadWakeup { threadid: field_u32(&p, 0), capno: field_u16(&p, 4) })
        },
        9 => Ok(Record::GcStart),
        10 => Ok(Record::GcEnd),
        11 => Ok(Record::RequestSeqGc),
        12 => Ok(Record::RequestParGc),
        18 => {
            if n < 14 { return Err(ParseError::ShortPayload(tag)); }
            Ok(Record::BlockMarker {
                block_size: field_u32(&p, 0),
                time_end: field_u64(&p, 4),
                capno: field_u16(&p, 12),
            })
        },
        19 => Ok(Record::UserMsg { bytes: p }),
        20 => Ok(Record::GcIdle),
        21 => Ok(Record::GcWork),
        22 => Ok(Record::GcDone),
        25 => {
            if n < 6 { return Err(ParseError::ShortPayload(tag)); }
            Ok(Record::CapsetCreate { capset: field_u32(&p, 0), type_: field_u16(&p, 4) })
        },
        26 => {
            if n < 4 { return Err(ParseError::ShortPayload(tag)); }
            Ok(Record::CapsetDelete { capset: field_u32(&p, 0) })
        },
        27 => {
            if n < 6 { return Err(ParseError::ShortPayload(tag)); }
            Ok(Record::CapsetAssignCap { capset: field_u32(&p, 0), capno: field_u16(&p, 4) })
        },
        28 => {
            if n < 6 { return Err(ParseError::ShortPayload(tag)); }
            Ok(Record::CapsetRemoveCap { capset: field_u32(&p, 0), capno: field_u16(&p, 4) })
        },
        29 => {
            if n < 4 { return Err(ParseError::ShortPayload(tag)); }
            let capset = field_u32(&p, 0);
            let name = tail_bytes(&p, 4);
            Ok(Record::RtsIdentifier { capset, name })
        },
        30 => Ok(Record::ProgramArgs { bytes: p }),
        32 => {
            if n < 8 { return Err(ParseError::ShortPayload(tag)); }
            Ok(Record::OsProcessPid { capset: field_u32(&p, 0), pid: field_u32(&p, 4) })
        },
        33 => {
            if n < 8 { return Err(ParseError::ShortPayload(tag)); }
            Ok(Record::OsProcessPpid { capset: field_u32(&p, 0), ppid: field_u32(&p, 4) })
        },
        34 => {
            if n < 56 { return Err(ParseError::ShortPayload(tag)); }
            let counters: [u64; 7] = [
                field_u64(&p, 0),
                field_u64(&p, 8),
                field_u64(&p, 16),
                field_u64(&p, 24),
                field_u64(&p, 32),
                field_u64(&p, 40),
                field_u64(&p, 48),
            ];
            Ok(Record::SparkCounters { counters })
        },
        43 => {
            if n < 16 { return Err(ParseError::ShortPayload(tag)); }
            Ok(Record::WallClockTime {
                capset: field_u32(&p, 0),
                sec: field_u64(&p, 4),
                nsec: field_u32(&p, 12),
            })
        },
        44 => {
            if n < 4 { return Err(ParseError::ShortPayload(tag)); }
            let threadid = field_u32(&p, 0);
            let label = tail_bytes(&p, 4);
            Ok(Record::ThreadLabel { threadid, label })
        },
        45 => {
            if n < 2 { return Err(ParseError::ShortPayload(tag)); }
            Ok(Record::CapCreate { capno: field_u16(&p, 0) })
        },
        46 => {
            if n < 2 { return Err(ParseError::ShortPayload(tag)); }
            Ok(Record::CapDelete { capno: field_u16(&p, 0) })
        },
        47 => {
            if n < 2 { return Err(ParseError::ShortPayload(tag)); }
            Ok(Record::CapDisable { capno: field_u16(&p, 0) })
        },
        49 => {
            if n < 12 { return Err(ParseError::ShortPayload(tag)); }
            Ok(Record::HeapAllocated { capset: field_u32(&p, 0), allocated_bytes: field_u64(&p, 4) })
        },
        50 => {
            if n < 12 { return Err(ParseError::ShortPayload(tag)); }
            Ok(Record::HeapSize { capset: field_u32(&p, 0), size: field_u64(&p, 4) })
        },
        51 => {
            if n < 12 { return Err(ParseError::ShortPayload(tag)); }
            Ok(Record::HeapLive { capset: field_u32(&p, 0), size: field_u64(&p, 4) })
        },
        52 => {
            if n < 38 { return Err(ParseError::ShortPayload(tag)); }
            Ok(Record::HeapInfo {
                capset: field_u32(&p, 0),
                gen: field_u16(&p, 4),
                max_heap: field_u64(&p, 6),
                alloc_size: field_u64(&p, 14),
                mblock_size: field_u64(&p, 22),
                block_size: field_u64(&p, 30),
            })
        },
        53 => {
            if n < 58 { return Err(ParseError::ShortPayload(tag)); }
            Ok(Record::GcStats {
                capset: field_u32(&p, 0),
                gen: field_u16(&p, 4),
                copied: field_u64(&p, 6),
                slop: field_u64(&p, 14),
                fragmentation: field_u64(&p, 22),
                threads: field_u32(&p, 30),
                max_copied: field_u64(&p, 34),
                total_copied: field_u64(&p, 42),
                balanced_copied: field_u64(&p, 50),
            })
        },
        54 => Ok(Record::GcGlobalSync),
        55 => {
            if n < 18 { return Err(ParseError::ShortPayload(tag)); }
            Ok(Record::TaskCreate {
                taskid: field_u64(&p, 0),
                capno: field_u16(&p, 8),
                k_threadid: field_u64(&p, 10),
            })
        },
        56 => {
            if n < 12 { return Err(ParseError::ShortPayload(tag)); }
            Ok(Record::TaskMigrate {
                taskid: field_u64(&p, 0),
                from_capno: field_u16(&p, 8),
                to_capno: field_u16(&p, 10),
            })
        },
        57 => {
            if n < 8 { return Err(ParseError::ShortPayload(tag)); }
            Ok(Record::TaskDelete { taskid: field_u64(&p, 0) })
        },
        90 => {
            if n < 16 { return Err(ParseError::ShortPayload(tag)); }
            Ok(Record::MemReturn {
                capset: field_u32(&p, 0),
                mblocks: field_u32(&p, 4),
                retain: field_u32(&p, 8),
                return_: field_u32(&p, 12),
            })
        },
        91 => {
            if n < 12 { return Err(ParseError::ShortPayload(tag)); }
            Ok(Record::BlocksSize { capset: field_u32(&p, 0), blocks: field_u64(&p, 4) })
        },
        _ => Ok(Record::Unknown { bytes: p }),
    }
}

/// The dispatcher's view of one decode step: the clean end of the data
/// section, or one framed record with its body interpreted.
pub enum Decoded {
    Terminator,
    Event { tag: u16, time: u64, size: usize, rec: Record },
}

/// Decodes one record at the cursor, byte-for-byte as the grammar says:
/// tag word, timestamp, length prefix for the variable size class, payload.
pub fn decode_record(cur: &mut Cursor<'_>, reg: &Registry) -> (r: Result<Decoded, ParseError>)
    requires
        old(cur).wf(),
    ensures
        final(cur).wf(),
        final(cur).bytes() == old(cur).bytes(),
        match r {
            Ok(d) => match d {
                Decoded::Terminator => spec_record_at(old(cur).bytes(), old(cur).at(), reg.sizes())
                    == Ok::<Option<(SpecRecord, int)>, ParseError>(None)
                    && final(cur).at() == old(cur).at() + 2,
                Decoded::Event { tag, time, size, rec } => spec_record_at(
                    old(cur).bytes(),
                    old(cur).at(),
                    reg.sizes(),
                ) matches Ok(Some(rj))
                    && rj.0.tag == tag
                    && rj.0.time == time
                    && rj.0.payload.len() == size
                    && size <= 0xFFFF
                    && rec_matches(rec, tag, rj.0.payload)
                    && final(cur).at() == rj.1,
            },
            Err(e) => spec_record_at(old(cur).bytes(), old(cur).at(), reg.sizes()) matches Err(e2)
                && e == e2,
        },
{
    let ghost s = old(cur).bytes();
    let ghost i = old(cur).at();
    let tag = match cur.read_u16() {
        Ok(v) => v,
        Err(e) => { return Err(e); },
    };
    if tag == TERMINATOR {
        return Ok(Decoded::Terminator);
    }
    let time = match cur.read_u64() {
        Ok(v) => v,
        Err(e) => { return Err(e); },
    };
    let size_class = match reg.get_size(tag) {
        Some(sz) => sz,
        None => { return Err(ParseError::UnregisteredTag(tag)); },
    };
    let size: usize = match size_class {
        EventSize::Variable => {
            let plen = match cur.read_u16() {
                Ok(v) => v,
                Err(e) => { return Err(e); },
            };
            proof {
                crate::bytes::lemma_be_val_bound(s.subrange(i + 10, i + 12));
                crate::bytes::lemma_pow256_small();
            }
            plen as usize
        },
        EventSize::Fixed(n) => n as usize,
    };
    let payload = match cur.read_bytes(size) {
        Ok(v) => v,
        Err(e) => { return Err(e); },
    };
    let rec = match interp_payload(tag, payload) {
        Ok(v) => v,
        Err(e) => { return Err(e); },
    };
    Ok(Decoded::Event { tag, time, size, rec })
}

/// The bytes one record occupies in the stream: tag word, timestamp, the
/// length prefix where the size class is variable, and the payload.
pub open spec fn record_span(r: SpecRecord) -> int {
    2 + 8 + (if r.var { 2int } else { 0int }) + r.payload.len()
}

pub open spec fn total_span(rs: Seq<SpecRecord>) -> int
    decreases rs.len(),
{
    if rs.len() == 0 {
        0
    } else {
        record_span(rs[0]) + total_span(rs.drop_first())
    }
}

/// Round-trip framing of the data section: a well-formed record stream is
/// consumed byte-exactly — the end position is the start, plus the spans of
/// the records in it, plus the terminator word.
pub proof fn lemma_records_accounting(s: Seq<u8>, i: int, reg: Map<u16, EventSize>)
    requires
        0 <= i,
        spec_records(s, i, reg) is Ok,
    ensures
        spec_records(s, i, reg) matches Ok(p) && p.1 == i + total_span(p.0) + 2,
    decreases s.len() - i,
{
    match spec_record_at(s, i, reg) {
        Err(_) => {},
        Ok(None) => {
            let p = spec_records(s, i, reg)->Ok_0;
            assert(total_span(p.0) == 0);
        },
        Ok(Some((r0, j))) => {
            lemma_record_at_end(s, i, reg);
            lemma_records_accounting(s, j, reg);
            let rest = spec_records(s, j, reg)->Ok_0;
            assert(seq![r0] + rest.0 =~= spec_records(s, i, reg)->Ok_0.0);
            assert((seq![r0] + rest.0)[0] == r0);
            assert((seq![r0] + rest.0).drop_first() =~= rest.0);
        },
    }
}

/// Round-trip framing of a whole log: on a well-formed log, decoding ends
/// exactly at the terminator word that follows the declared spans of all
/// its records.
pub proof fn lemma_log_accounting(s: Seq<u8>)
    requires
        spec_log(s) is Ok,
    ensures
        spec_log(s) matches Ok(p) && crate::header::spec_header(s) matches Ok(h)
            && p.1 == h.1 + total_span(p.0) + 2,
{
    let h = crate::header::spec_header(s)->Ok_0;
    crate::header::lemma_descriptors_end(s, 8);
    lemma_records_accounting(s, h.1, h.0);
}

/// A record framed under the variable size class reads exactly the payload
/// its length prefix declares — whether or not its tag has a known layout.
pub proof fn lemma_variable_record(s: Seq<u8>, i: int, reg: Map<u16, EventSize>)
    requires
        0 <= i,
        spec_record_at(s, i, reg) matches Ok(Some(rj)) && rj.0.var,
    ensures
        spec_record_at(s, i, reg) matches Ok(Some(rj))
            && reg[rj.0.tag] == EventSize::Variable
            && rj.0.payload.len() == be_val(s.subrange(i + 10, i + 12))
            && rj.1 == i + 12 + rj.0.payload.len(),
{
    crate::bytes::lemma_be_val_bound(s.subrange(i + 10, i + 12));
}

} // verus!
