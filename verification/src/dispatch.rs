//! The event dispatcher: the main decode loop.  It frames every record
//! against the registry the header sealed, hands each one to the sink, and
//! stops cleanly at the terminator word.  Success and every failure are
//! pinned to the byte-exact log grammar.

use vstd::prelude::*;
use crate::bytes::Cursor;
use crate::header::decode_header;
use crate::header::spec_header;
use crate::record::decode_record;
use crate::record::lemma_record_at_end;
use crate::record::spec_log;
use crate::record::spec_records;
use crate::record::Decoded;
use crate::record::Record;
use crate::sink::EventlogParser;
use crate::types::ParseError;
use crate::types::SinkError;

verus! {

/// Invokes the sink operation a decoded record selects, after the
/// record-observed hook.
fn deliver<Parser: EventlogParser>(
    handle: &mut Parser,
    tag: u16,
    time: u64,
    size: usize,
    rec: Record,
) -> (r: Result<(), SinkError>)
    requires
        size <= 0xFFFF,
{
    match handle.event_start(tag, time, size) {
        Ok(()) => (),
        Err(e) => { return Err(e); },
    };
    match rec {
        Record::ThreadCreate { threadid } => handle.event_thread_create(time, threadid),
        Record::ThreadRun { threadid } => handle.event_thread_run(time, threadid),
        Record::ThreadStop { threadid, status, block_threadid } => handle.event_thread_stop(
            time,
            threadid,
            status,
            block_threadid,
        ),
        Record::ThreadRunnable { threadid } => handle.event_thread_runnable(time, threadid),
        Record::ThreadMigrate { threadid, capno } => handle.event_thread_migrate(
            time,
            threadid,
            capno,
        ),
        Record::ThreadWakeup { threadid, capno } => handle.event_thread_wakeup(
            time,
            threadid,
            capno,
        ),
        Record::GcStart => handle.event_gc_start(time),
        Record::GcEnd => handle.event_gc_end(time),
        Record::RequestSeqGc => handle.event_request_seq_gc(time),
        Record::RequestParGc => handle.event_request_par_gc(time),
        Record::BlockMarker { block_size, time_end, capno } => handle.event_block_marker(
            time,
            block_size,
            time_end,
            capno,
        ),
        Record::UserMsg { bytes } => handle.event_user_msg(time, bytes),
        Record::GcIdle => handle.event_gc_idle(time),
        Record::GcWork => handle.event_gc_work(time),
        Record::GcDone => handle.event_gc_done(time),
        Record::CapsetCreate { capset, type_ } => handle.event_capset_create(time, capset, type_),
        Record::CapsetDelete { capset } => handle.event_capset_delete(time, capset),
        Record::CapsetAssignCap { capset, capno } => handle.event_capset_assign_cap(
            time,
            capset,
            capno,
        ),
        Record::CapsetRemoveCap { capset, capno } => handle.event_capset_remove_cap(
            time,
            capset,
            capno,
        ),
        Record::RtsIdentifier { capset, name } => handle.event_rts_identifier(time, capset, name),
        Record::ProgramArgs { bytes } => handle.event_program_args(time, bytes),
        Record::OsProcessPid { capset, pid } => handle.event_osprocess_pid(time, capset, pid),
        Record::OsProcessPpid { capset, ppid } => handle.event_osprocess_ppid(time, capset, ppid),
        Record::SparkCounters { counters } => handle.event_spark_counters(time, counters),
        Record::WallClockTime { capset, sec, nsec } => handle.event_wall_clock_time(
            time,
            capset,
            sec,
            nsec,
        ),
        Record::ThreadLabel { threadid, label } => handle.event_thread_label(time, threadid, label),
        Record::CapCreate { capno } => handle.event_cap_create(time, capno),
        Record::CapDelete { capno } => handle.event_cap_delete(time, capno),
        Record::CapDisable { capno } => handle.event_cap_disable(time, capno),
        Record::HeapAllocated { capset, allocated_bytes } => handle.event_heap_allocated(
            time,
            capset,
            allocated_bytes,
        ),
        Record::HeapSize { capset, size: sz } => handle.event_heap_size(time, capset, sz),
        Record::HeapLive { capset, size: sz } => handle.event_heap_live(time, capset, sz),
        Record::HeapInfo { capset, gen, max_heap, alloc_size, mblock_size, block_size } => handle
            .event_heap_info_ghc(time, capset, gen, max_heap, alloc_size, mblock_size, block_size),
        Record::GcStats {
            capset,
            gen,
            copied,
            slop,
            fragmentation,
            threads,
            max_copied,
            total_copied,
            balanced_copied,
        } => handle.event_gc_stats_ghc(
            time,
            capset,
            gen,
            copied,
            slop,
            fragmentation,
            threads,
            max_copied,
            total_copied,
            balanced_copied,
        ),
        Record::GcGlobalSync => handle.event_gc_global_sync(time),
        Record::TaskCreate { taskid, capno, k_threadid } => handle.event_task_create(
            time,
            taskid,
            capno,
            k_threadid,
        ),
        Record::TaskMigrate { taskid, from_capno, to_capno } => handle.event_task_migrate(
            time,
            taskid,
            from_capno,
            to_capno,
        ),
        Record::TaskDelete { taskid } => handle.event_task_delete(time, taskid),
        Record::MemReturn { capset, mblocks, retain, return_ } => handle.event_mem_return(
            time,
            capset,
            mblocks,
            retain,
            return_,
        ),
        Record::BlocksSize { capset, blocks } => handle.event_blocks_size(time, capset, blocks),
        Record::Unknown { bytes } => handle.event_unknown(tag, time, bytes),
    }
}

/// Checks a whole log's framing without consuming its events: header,
/// every record, terminator.  No sink takes part, so the round trip is
/// unconditional — on every well-formed log this returns normally with the
/// log's record count and zero framing errors, and on every malformed one
/// it fails with exactly the grammar's error.
#[verifier::loop_isolation(false)]
#[verifier::rlimit(60)]
pub fn validate(data: &Vec<u8>) -> (r: Result<usize, ParseError>)
    ensures
        r is Ok <==> spec_log(data@) is Ok,
        match r {
            Ok(n) => spec_log(data@) matches Ok(p) && n == p.0.len(),
            Err(e) => spec_log(data@) matches Err(e2) && e == e2,
        },
{
    let ghost s = data@;
    let total = data.len();
    let mut cur = Cursor::new(data);
    let reg = match decode_header(&mut cur) {
        Ok(r) => r,
        Err(e) => { return Err(e); },
    };
    let ghost hdr = spec_header(s)->Ok_0;
    let mut count: usize = 0;
    loop
        invariant
            cur.wf(),
            cur.bytes() == s,
            10 * count <= cur.at(),
            match spec_records(s, cur.at(), hdr.0) {
                Ok(p) => spec_log(s) matches Ok(q) && q.0.len() == count + p.0.len()
                    && q.1 == p.1,
                Err(e) => spec_log(s) == Err::<(Seq<crate::record::SpecRecord>, int), ParseError>(
                    e,
                ),
            },
        decreases s.len() - cur.at(),
    {
        let ghost i = cur.at();
        match decode_record(&mut cur, &reg) {
            Err(e) => {
                return Err(e);
            },
            Ok(Decoded::Terminator) => {
                return Ok(count);
            },
            Ok(Decoded::Event { .. }) => {
                proof {
                    lemma_record_at_end(s, i, hdr.0);
                    let rj = crate::record::spec_record_at(s, i, hdr.0)->Ok_0->Some_0;
                    let rest = spec_records(s, rj.1, hdr.0);
                    if rest is Ok {
                        assert((seq![rj.0] + rest->Ok_0.0).len() == 1 + rest->Ok_0.0.len());
                    }
                }
                count = count + 1;
            },
        }
    }
}

/// Decodes a whole log from memory, driving the given sink: header first,
/// then every record until the terminator word.  On success the number of
/// records delivered is returned; it equals the record count of the log
/// grammar.  A log whose header is malformed fails with exactly that
/// framing error: no sink operation is consulted before the header is done.
/// A log malformed in its data section fails with its exact framing error,
/// unless the sink aborted the pass at an earlier record; on a well-formed
/// log the only possible failure is the sink's, so a well-formed log with
/// no records — where the sink is never asked anything — always succeeds.
#[verifier::loop_isolation(false)]
#[verifier::rlimit(60)]
pub fn parse<Parser: EventlogParser>(data: &Vec<u8>, handle: &mut Parser) -> (r: Result<
    usize,
    ParseError,
>)
    ensures
        match r {
            Ok(n) => spec_log(data@) matches Ok(p) && n == p.0.len(),
            Err(e) => match spec_log(data@) {
                Ok(_) => e is Sink,
                Err(e2) => e == e2 || e is Sink,
            },
        },
        match spec_header(data@) {
            Err(he) => r == Err::<usize, ParseError>(he),
            Ok(_) => true,
        },
        match spec_log(data@) {
            Ok(p) => p.0.len() == 0 ==> r == Ok::<usize, ParseError>(0),
            Err(_) => true,
        },
{
    let ghost s = data@;
    let total = data.len();
    let mut cur = Cursor::new(data);
    let reg = match decode_header(&mut cur) {
        Ok(r) => r,
        Err(e) => { return Err(e); },
    };
    let ghost hdr = spec_header(s)->Ok_0;
    let mut count: usize = 0;
    loop
        invariant
            cur.wf(),
            cur.bytes() == s,
            10 * count <= cur.at(),
            match spec_records(s, cur.at(), hdr.0) {
                Ok(p) => spec_log(s) matches Ok(q) && q.0.len() == count + p.0.len()
                    && q.1 == p.1,
                Err(e) => spec_log(s) == Err::<(Seq<crate::record::SpecRecord>, int), ParseError>(
                    e,
                ),
            },
        decreases s.len() - cur.at(),
    {
        let ghost i = cur.at();
        match decode_record(&mut cur, &reg) {
            Err(e) => {
                return Err(e);
            },
            Ok(Decoded::Terminator) => {
                return Ok(count);
            },
            Ok(Decoded::Event { tag, time, size, rec }) => {
                proof {
                    lemma_record_at_end(s, i, hdr.0);
                    let rj = crate::record::spec_record_at(s, i, hdr.0)->Ok_0->Some_0;
                    let rest = spec_records(s, rj.1, hdr.0);
                    if rest is Ok {
                        assert((seq![rj.0] + rest->Ok_0.0).len() == 1 + rest->Ok_0.0.len());
                    }
                }
                match deliver(handle, tag, time, size, rec) {
                    Ok(()) => (),
                    Err(se) => {
                        return Err(ParseError::Sink(se));
                    },
                };
                count = count + 1;
            },
        }
    }
}

} // verus!
