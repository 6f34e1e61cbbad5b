//! The event sink interface: one operation per understood event kind, each
//! defaulting to "accept and ignore", plus the opaque-record and
//! record-observed hooks.  One decode pass drives any one implementation;
//! a sink aborts the pass by returning an error.

use vstd::prelude::*;
use crate::types::SinkError;

verus! {

/// A consumer of decoded records.  The dispatcher calls `event_start` once
/// per record with its framing facts, then exactly one of the other
/// operations with the record's fields.  Payload sizes never exceed the
/// 16-bit range the format can declare.
pub trait EventlogParser: Sized {
    /// A record was framed: its tag, its timestamp, and its payload size in
    /// bytes (not counting the tag, timestamp and length-prefix words).
    fn event_start(&mut self, _id: u16, _time: u64, _size: usize) -> (r: Result<(), SinkError>)
        requires
            _size <= 0xFFFF,
        default_ensures
            r is Ok,
            *final(self) == *old(self),
    {
        Ok(())
    }

    /// A record of a declared tag with no known layout, as raw bytes.
    fn event_unknown(&mut self, _tag: u16, _time: u64, _bytes: Vec<u8>) -> (r: Result<
        (),
        SinkError,
    >)
        default_ensures
            r is Ok,
            *final(self) == *old(self),
    {
        Ok(())
    }

    fn event_block_marker(
        &mut self,
        _time: u64,
        _block_size: u32,
        _time_end: u64,
        _capno: u16,
    ) -> (r: Result<(), SinkError>)
        default_ensures
            r is Ok,
            *final(self) == *old(self),
    {
        Ok(())
    }

    fn event_rts_identifier(&mut self, _time: u64, _capset: u32, _name: Vec<u8>) -> (r: Result<
        (),
        SinkError,
    >)
        default_ensures
            r is Ok,
            *final(self) == *old(self),
    {
        Ok(())
    }

    fn event_wall_clock_time(&mut self, _time: u64, _capset: u32, _sec: u64, _nsec: u32) -> (r:
        Result<(), SinkError>)
        default_ensures
            r is Ok,
            *final(self) == *old(self),
    {
        Ok(())
    }

    fn event_osprocess_pid(&mut self, _time: u64, _capset: u32, _pid: u32) -> (r: Result<
        (),
        SinkError,
    >)
        default_ensures
            r is Ok,
            *final(self) == *old(self),
    {
        Ok(())
    }

    fn event_osprocess_ppid(&mut self, _time: u64, _capset: u32, _ppid: u32) -> (r: Result<
        (),
        SinkError,
    >)
        default_ensures
            r is Ok,
            *final(self) == *old(self),
    {
        Ok(())
    }

    fn event_program_args(&mut self, _time: u64, _args: Vec<u8>) -> (r: Result<(), SinkError>)
        default_ensures
            r is Ok,
            *final(self) == *old(self),
    {
        Ok(())
    }

    fn event_program_env(&mut self, _time: u64, _env: Vec<u8>) -> (r: Result<(), SinkError>)
        default_ensures
            r is Ok,
            *final(self) == *old(self),
    {
        Ok(())
    }

    fn event_spark_counters(&mut self, _time: u64, _counters: [u64; 7]) -> (r: Result<
        (),
        SinkError,
    >)
        default_ensures
            r is Ok,
            *final(self) == *old(self),
    {
        Ok(())
    }

    fn event_thread_create(&mut self, _time: u64, _threadid: u32) -> (r: Result<(), SinkError>)
        default_ensures
            r is Ok,
            *final(self) == *old(self),
    {
        Ok(())
    }

    fn event_thread_run(&mut self, _time: u64, _threadid: u32) -> (r: Result<(), SinkError>)
        default_ensures
            r is Ok,
            *final(self) == *old(self),
    {
        Ok(())
    }

    fn event_thread_stop(
        &mut self,
        _time: u64,
        _threadid: u32,
        _status: u16,
        _block_threadid: u32,
    ) -> (r: Result<(), SinkError>)
        default_ensures
            r is Ok,
            *final(self) == *old(self),
    {
        Ok(())
    }

    fn event_thread_label(&mut self, _time: u64, _threadid: u32, _label: Vec<u8>) -> (r: Result<
        (),
        SinkError,
    >)
        default_ensures
            r is Ok,
            *final(self) == *old(self),
    {
        Ok(())
    }

    fn event_thread_runnable(&mut self, _time: u64, _threadid: u32) -> (r: Result<(), SinkError>)
        default_ensures
            r is Ok,
            *final(self) == *old(self),
    {
        Ok(())
    }

    fn event_thread_migrate(&mut self, _time: u64, _threadid: u32, _capno: u16) -> (r: Result<
        (),
        SinkError,
    >)
        default_ensures
            r is Ok,
            *final(self) == *old(self),
    {
        Ok(())
    }

    fn event_thread_wakeup(&mut self, _time: u64, _threadid: u32, _capno: u16) -> (r: Result<
        (),
        SinkError,
    >)
        default_ensures
            r is Ok,
            *final(self) == *old(self),
    {
        Ok(())
    }

    fn event_task_create(
        &mut self,
        _time: u64,
        _taskid: u64,
        _capno: u16,
        _k_threadid: u64,
    ) -> (r: Result<(), SinkError>)
        default_ensures
            r is Ok,
            *final(self) == *old(self),
    {
        Ok(())
    }

    fn event_task_migrate(
        &mut self,
        _time: u64,
        _taskid: u64,
        _from_capno: u16,
        _to_capno: u16,
    ) -> (r: Result<(), SinkError>)
        default_ensures
            r is Ok,
            *final(self) == *old(self),
    {
        Ok(())
    }

    fn event_task_delete(&mut self, _time: u64, _taskid: u64) -> (r: Result<(), SinkError>)
        default_ensures
            r is Ok,
            *final(self) == *old(self),
    {
        Ok(())
    }

    fn event_request_seq_gc(&mut self, _time: u64) -> (r: Result<(), SinkError>)
        default_ensures
            r is Ok,
            *final(self) == *old(self),
    {
        Ok(())
    }

    fn event_request_par_gc(&mut self, _time: u64) -> (r: Result<(), SinkError>)
        default_ensures
            r is Ok,
            *final(self) == *old(self),
    {
        Ok(())
    }

    fn event_gc_start(&mut self, _time: u64) -> (r: Result<(), SinkError>)
        default_ensures
            r is Ok,
            *final(self) == *old(self),
    {
        Ok(())
    }

    fn event_gc_end(&mut self, _time: u64) -> (r: Result<(), SinkError>)
        default_ensures
            r is Ok,
            *final(self) == *old(self),
    {
        Ok(())
    }

    fn event_gc_work(&mut self, _time: u64) -> (r: Result<(), SinkError>)
        default_ensures
            r is Ok,
            *final(self) == *old(self),
    {
        Ok(())
    }

    fn event_gc_idle(&mut self, _time: u64) -> (r: Result<(), SinkError>)
        default_ensures
            r is Ok,
            *final(self) == *old(self),
    {
        Ok(())
    }

    fn event_gc_done(&mut self, _time: u64) -> (r: Result<(), SinkError>)
        default_ensures
            r is Ok,
            *final(self) == *old(self),
    {
        Ok(())
    }

    fn event_gc_global_sync(&mut self, _time: u64) -> (r: Result<(), SinkError>)
        default_ensures
            r is Ok,
            *final(self) == *old(self),
    {
        Ok(())
    }

    fn event_gc_stats_ghc(
        &mut self,
        _time: u64,
        _capset: u32,
        _gen: u16,
        _copied: u64,
        _slop: u64,
        _fragmentation: u64,
        _threads: u32,
        _max_copied: u64,
        _total_copied: u64,
        _balanced_copied: u64,
    ) -> (r: Result<(), SinkError>)
        default_ensures
            r is Ok,
            *final(self) == *old(self),
    {
        Ok(())
    }

    fn event_heap_info_ghc(
        &mut self,
        _time: u64,
        _capset: u32,
        _gen: u16,
        _max_heap: u64,
        _alloc_size: u64,
        _mblock_size: u64,
        _block_size: u64,
    ) -> (r: Result<(), SinkError>)
        default_ensures
            r is Ok,
            *final(self) == *old(self),
    {
        Ok(())
    }

    fn event_heap_allocated(&mut self, _time: u64, _capset: u32, _allocated_bytes: u64) -> (r:
        Result<(), SinkError>)
        default_ensures
            r is Ok,
            *final(self) == *old(self),
    {
        Ok(())
    }

    fn event_heap_size(&mut self, _time: u64, _capset: u32, _size: u64) -> (r: Result<
        (),
        SinkError,
    >)
        default_ensures
            r is Ok,
            *final(self) == *old(self),
    {
        Ok(())
    }

    fn event_heap_live(&mut self, _time: u64, _capset: u32, _size: u64) -> (r: Result<
        (),
        SinkError,
    >)
        default_ensures
            r is Ok,
            *final(self) == *old(self),
    {
        Ok(())
    }

    fn event_blocks_size(&mut self, _time: u64, _capset: u32, _blocks: u64) -> (r: Result<
        (),
        SinkError,
    >)
        default_ensures
            r is Ok,
            *final(self) == *old(self),
    {
        Ok(())
    }

    fn event_mem_return(
        &mut self,
        _time: u64,
        _capset: u32,
        _mblocks: u32,
        _retain: u32,
        _return_: u32,
    ) -> (r: Result<(), SinkError>)
        default_ensures
            r is Ok,
            *final(self) == *old(self),
    {
        Ok(())
    }

    fn event_user_msg(&mut self, _time: u64, _bytes: Vec<u8>) -> (r: Result<(), SinkError>)
        default_ensures
            r is Ok,
            *final(self) == *old(self),
    {
        Ok(())
    }

    fn event_cap_create(&mut self, _time: u64, _capno: u16) -> (r: Result<(), SinkError>)
        default_ensures
            r is Ok,
            *final(self) == *old(self),
    {
        Ok(())
    }

    fn event_cap_delete(&mut self, _time: u64, _capno: u16) -> (r: Result<(), SinkError>)
        default_ensures
            r is Ok,
            *final(self) == *old(self),
    {
        Ok(())
    }

    fn event_cap_disable(&mut self, _time: u64, _capno: u16) -> (r: Result<(), SinkError>)
        default_ensures
            r is Ok,
            *final(self) == *old(self),
    {
        Ok(())
    }

    fn event_capset_create(&mut self, _time: u64, _capset: u32, _type_: u16) -> (r: Result<
        (),
        SinkError,
    >)
        default_ensures
            r is Ok,
            *final(self) == *old(self),
    {
        Ok(())
    }

    fn event_capset_delete(&mut self, _time: u64, _capset: u32) -> (r: Result<(), SinkError>)
        default_ensures
            r is Ok,
            *final(self) == *old(self),
    {
        Ok(())
    }

    fn event_capset_assign_cap(&mut self, _time: u64, _capset: u32, _capno: u16) -> (r: Result<
        (),
        SinkError,
    >)
        default_ensures
            r is Ok,
            *final(self) == *old(self),
    {
        Ok(())
    }

    fn event_capset_remove_cap(&mut self, _time: u64, _capset: u32, _capno: u16) -> (r: Result<
        (),
        SinkError,
    >)
        default_ensures
            r is Ok,
            *final(self) == *old(self),
    {
        Ok(())
    }
}

} // verus!
