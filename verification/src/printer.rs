//! The line-oriented consumer: records, in arrival order, one entry per
//! event it understands — each tagged with its timestamp and block context —
//! for a front end to render.  Unlike the aggregator it tolerates unhandled
//! tags, noting them instead of failing.

use vstd::prelude::*;
use crate::tracker::observe_left;
use crate::tracker::cap_of;
use crate::tracker::BlockCtx;
use crate::types::SinkError;
use crate::sink::EventlogParser;

verus! {

/// One renderable entry: what a record said, reduced to the fields worth
/// showing.
#[derive(Debug, Clone, PartialEq, Eq, Structural)]
pub enum Note {
    Unknown { tag: u16, len: usize },
    BlockMarker { capno: Option<u16>, block_size: u32, time_end: u64 },
    CapsetCreate { capset: u32, type_: u16 },
    CapsetDelete { capset: u32 },
    CapsetAssign { capset: u32, capno: u16 },
    CapsetRemove { capset: u32, capno: u16 },
    CapCreate { capno: u16 },
    CapDelete { capno: u16 },
    CapDisable { capno: u16 },
    TaskCreate { taskid: u64, capno: u16, k_threadid: u64 },
    TaskMigrate { taskid: u64, from_capno: u16, to_capno: u16 },
    TaskDelete { taskid: u64 },
    ThreadCreate { threadid: u32 },
    ThreadRun { threadid: u32 },
    ThreadStop { threadid: u32 },
    ThreadLabel { threadid: u32 },
    ThreadRunnable { threadid: u32 },
    ThreadMigrate { threadid: u32, capno: u16 },
    ThreadWakeup { threadid: u32, capno: u16 },
}

/// A sink that collects one entry per understood event, in decode order,
/// each under its timestamp and the block context its record started in.
pub struct PrintEvents {
    ctx: BlockCtx,
    current: Option<u16>,
    lines: Vec<(u64, Option<u16>, Note)>,
}

impl PrintEvents {
    /// The collected entries in decode order.
    pub closed spec fn lines_spec(&self) -> Seq<(u64, Option<u16>, Note)> {
        self.lines@
    }

    /// The tracker state this consumer maintains.
    pub closed spec fn ctx_state(&self) -> BlockCtx {
        self.ctx
    }

    /// The context the record being delivered is attributed under.
    pub closed spec fn current_spec(&self) -> Option<u16> {
        self.current
    }

    pub fn new() -> (r: PrintEvents)
        ensures
            r.lines_spec() == Seq::<(u64, Option<u16>, Note)>::empty(),
            r.ctx_state().left() == 0,
            r.ctx_state().cap() is None,
            r.current_spec() is None,
    {
        PrintEvents { ctx: BlockCtx::new(), current: None, lines: Vec::new() }
    }

    /// Files one entry under the current record's timestamp and context.
    fn note(&mut self, time: u64, n: Note)
        ensures
            final(self).lines_spec() == old(self).lines_spec().push(
                (time, old(self).current_spec(), n),
            ),
            final(self).ctx_state() == old(self).ctx_state(),
            final(self).current_spec() == old(self).current_spec(),
    {
        let cap = self.current;
        self.lines.push((time, cap, n));
    }

    /// Yields the collected entries to the caller.
    pub fn take_lines(self) -> (r: Vec<(u64, Option<u16>, Note)>)
        ensures
            r@ == self.lines_spec(),
    {
        self.lines
    }
}

impl EventlogParser for PrintEvents {
    /// Snapshots the context the record starts under, then deducts the
    /// record's bytes from the span.
    fn event_start(&mut self, _id: u16, _time: u64, _size: usize) -> (r: Result<(), SinkError>)
        ensures
            r is Ok,
            final(self).lines_spec() == old(self).lines_spec(),
            final(self).current_spec() == old(self).ctx_state().context_spec(),
            final(self).ctx_state().cap() == old(self).ctx_state().cap(),
            final(self).ctx_state().left() == observe_left(
                old(self).ctx_state().left(),
                _size as int,
            ),
    {
        self.current = self.ctx.current_context();
        self.ctx.on_record_observed(_size);
        Ok(())
    }

    /// An unhandled tag is noted, not fatal for this consumer.
    fn event_unknown(&mut self, _tag: u16, _time: u64, _bytes: Vec<u8>) -> (r: Result<
        (),
        SinkError,
    >)
        ensures
            r is Ok,
            final(self).lines_spec() == old(self).lines_spec().push(
                (
                    _time,
                    old(self).current_spec(),
                    Note::Unknown { tag: _tag, len: _bytes.len() },
                ),
            ),
            final(self).ctx_state() == old(self).ctx_state(),
            final(self).current_spec() == old(self).current_spec(),
    {
        let len = _bytes.len();
        self.note(_time, Note::Unknown { tag: _tag, len });
        Ok(())
    }

    /// Notes the marker under the span it interrupts, then resets the span
    /// to the announced size and capability.
    fn event_block_marker(
        &mut self,
        _time: u64,
        _block_size: u32,
        _time_end: u64,
        _capno: u16,
    ) -> (r: Result<(), SinkError>)
        ensures
            r is Ok,
            final(self).lines_spec() == old(self).lines_spec().push(
                (
                    _time,
                    old(self).current_spec(),
                    Note::BlockMarker {
                        capno: cap_of(_capno),
                        block_size: _block_size,
                        time_end: _time_end,
                    },
                ),
            ),
            final(self).ctx_state().left() == _block_size,
            final(self).ctx_state().cap() == cap_of(_capno),
            final(self).current_spec() == old(self).current_spec(),
    {
        let capno = if _capno == crate::tracker::NO_CAP {
            None
        } else {
            Some(_capno)
        };
        self.note(_time, Note::BlockMarker { capno, block_size: _block_size, time_end: _time_end });
        self.ctx.on_block_marker(_block_size, _capno);
        Ok(())
    }

    fn event_capset_create(&mut self, _time: u64, _capset: u32, _type_: u16) -> (r: Result<
        (),
        SinkError,
    >)
        ensures
            r is Ok,
            final(self).lines_spec() == old(self).lines_spec().push(
                (_time, old(self).current_spec(), Note::CapsetCreate { capset: _capset, type_: _type_ }),
            ),
            final(self).ctx_state() == old(self).ctx_state(),
            final(self).current_spec() == old(self).current_spec(),
    {
        self.note(_time, Note::CapsetCreate { capset: _capset, type_: _type_ });
        Ok(())
    }

    fn event_capset_delete(&mut self, _time: u64, _capset: u32) -> (r: Result<(), SinkError>)
        ensures
            r is Ok,
            final(self).lines_spec() == old(self).lines_spec().push(
                (_time, old(self).current_spec(), Note::CapsetDelete { capset: _capset }),
            ),
            final(self).ctx_state() == old(self).ctx_state(),
            final(self).current_spec() == old(self).current_spec(),
    {
        self.note(_time, Note::CapsetDelete { capset: _capset });
        Ok(())
    }

    fn event_capset_assign_cap(&mut self, _time: u64, _capset: u32, _capno: u16) -> (r: Result<
        (),
        SinkError,
    >)
        ensures
            r is Ok,
            final(self).lines_spec() == old(self).lines_spec().push(
                (_time, old(self).current_spec(), Note::CapsetAssign { capset: _capset, capno: _capno }),
            ),
            final(self).ctx_state() == old(self).ctx_state(),
            final(self).current_spec() == old(self).current_spec(),
    {
        self.note(_time, Note::CapsetAssign { capset: _capset, capno: _capno });
        Ok(())
    }

    fn event_capset_remove_cap(&mut self, _time: u64, _capset: u32, _capno: u16) -> (r: Result<
        (),
        SinkError,
    >)
        ensures
            r is Ok,
            final(self).lines_spec() == old(self).lines_spec().push(
                (_time, old(self).current_spec(), Note::CapsetRemove { capset: _capset, capno: _capno }),
            ),
            final(self).ctx_state() == old(self).ctx_state(),
            final(self).current_spec() == old(self).current_spec(),
    {
        self.note(_time, Note::CapsetRemove { capset: _capset, capno: _capno });
        Ok(())
    }

    fn event_cap_create(&mut self, _time: u64, _capno: u16) -> (r: Result<(), SinkError>)
        ensures
            r is Ok,
            final(self).lines_spec() == old(self).lines_spec().push(
                (_time, old(self).current_spec(), Note::CapCreate { capno: _capno }),
            ),
            final(self).ctx_state() == old(self).ctx_state(),
            final(self).current_spec() == old(self).current_spec(),
    {
        self.note(_time, Note::CapCreate { capno: _capno });
        Ok(())
    }

    fn event_cap_delete(&mut self, _time: u64, _capno: u16) -> (r: Result<(), SinkError>)
        ensures
            r is Ok,
            final(self).lines_spec() == old(self).lines_spec().push(
                (_time, old(self).current_spec(), Note::CapDelete { capno: _capno }),
            ),
            final(self).ctx_state() == old(self).ctx_state(),
            final(self).current_spec() == old(self).current_spec(),
    {
        self.note(_time, Note::CapDelete { capno: _capno });
        Ok(())
    }

    fn event_cap_disable(&mut self, _time: u64, _capno: u16) -> (r: Result<(), SinkError>)
        ensures
            r is Ok,
            final(self).lines_spec() == old(self).lines_spec().push(
                (_time, old(self).current_spec(), Note::CapDisable { capno: _capno }),
            ),
            final(self).ctx_state() == old(self).ctx_state(),
            final(self).current_spec() == old(self).current_spec(),
    {
        self.note(_time, Note::CapDisable { capno: _capno });
        Ok(())
    }

    fn event_task_create(
        &mut self,
        _time: u64,
        _taskid: u64,
        _capno: u16,
        _k_threadid: u64,
    ) -> (r: Result<(), SinkError>)
        ensures
            r is Ok,
            final(self).lines_spec() == old(self).lines_spec().push(
                (
                    _time,
                    old(self).current_spec(),
                    Note::TaskCreate { taskid: _taskid, capno: _capno, k_threadid: _k_threadid },
                ),
            ),
            final(self).ctx_state() == old(self).ctx_state(),
            final(self).current_spec() == old(self).current_spec(),
    {
        self.note(_time, Note::TaskCreate { taskid: _taskid, capno: _capno, k_threadid: _k_threadid });
        Ok(())
    }

    fn event_task_migrate(
        &mut self,
        _time: u64,
        _taskid: u64,
        _from_capno: u16,
        _to_capno: u16,
    ) -> (r: Result<(), SinkError>)
        ensures
            r is Ok,
            final(self).lines_spec() == old(self).lines_spec().push(
                (
                    _time,
                    old(self).current_spec(),
                    Note::TaskMigrate {
                        taskid: _taskid,
                        from_capno: _from_capno,
                        to_capno: _to_capno,
                    },
                ),
            ),
            final(self).ctx_state() == old(self).ctx_state(),
            final(self).current_spec() == old(self).current_spec(),
    {
        self.note(
            _time,
            Note::TaskMigrate { taskid: _taskid, from_capno: _from_capno, to_capno: _to_capno },
        );
        Ok(())
    }

    fn event_task_delete(&mut self, _time: u64, _taskid: u64) -> (r: Result<(), SinkError>)
        ensures
            r is Ok,
            final(self).lines_spec() == old(self).lines_spec().push(
                (_time, old(self).current_spec(), Note::TaskDelete { taskid: _taskid }),
            ),
            final(self).ctx_state() == old(self).ctx_state(),
            final(self).current_spec() == old(self).current_spec(),
    {
        self.note(_time, Note::TaskDelete { taskid: _taskid });
        Ok(())
    }

    fn event_thread_create(&mut self, _time: u64, _threadid: u32) -> (r: Result<(), SinkError>)
        ensures
            r is Ok,
            final(self).lines_spec() == old(self).lines_spec().push(
                (_time, old(self).current_spec(), Note::ThreadCreate { threadid: _threadid }),
            ),
            final(self).ctx_state() == old(self).ctx_state(),
            final(self).current_spec() == old(self).current_spec(),
    {
        self.note(_time, Note::ThreadCreate { threadid: _threadid });
        Ok(())
    }

    fn event_thread_run(&mut self, _time: u64, _threadid: u32) -> (r: Result<(), SinkError>)
        ensures
            r is Ok,
            final(self).lines_spec() == old(self).lines_spec().push(
                (_time, old(self).current_spec(), Note::ThreadRun { threadid: _threadid }),
            ),
            final(self).ctx_state() == old(self).ctx_state(),
            final(self).current_spec() == old(self).current_spec(),
    {
        self.note(_time, Note::ThreadRun { threadid: _threadid });
        Ok(())
    }

    /// This consumer shows the thread only; the status code is not decoded
    /// here.
    fn event_thread_stop(
        &mut self,
        _time: u64,
        _threadid: u32,
        _status: u16,
        _block_threadid: u32,
    ) -> (r: Result<(), SinkError>)
        ensures
            r is Ok,
            final(self).lines_spec() == old(self).lines_spec().push(
                (_time, old(self).current_spec(), Note::ThreadStop { threadid: _threadid }),
            ),
            final(self).ctx_state() == old(self).ctx_state(),
            final(self).current_spec() == old(self).current_spec(),
    {
        self.note(_time, Note::ThreadStop { threadid: _threadid });
        Ok(())
    }

    fn event_thread_label(&mut self, _time: u64, _threadid: u32, _label: Vec<u8>) -> (r: Result<
        (),
        SinkError,
    >)
        ensures
            r is Ok,
            final(self).lines_spec() == old(self).lines_spec().push(
                (_time, old(self).current_spec(), Note::ThreadLabel { threadid: _threadid }),
            ),
            final(self).ctx_state() == old(self).ctx_state(),
            final(self).current_spec() == old(self).current_spec(),
    {
        self.note(_time, Note::ThreadLabel { threadid: _threadid });
        Ok(())
    }

    fn event_thread_runnable(&mut self, _time: u64, _threadid: u32) -> (r: Result<(), SinkError>)
        ensures
            r is Ok,
            final(self).lines_spec() == old(self).lines_spec().push(
                (_time, old(self).current_spec(), Note::ThreadRunnable { threadid: _threadid }),
            ),
            final(self).ctx_state() == old(self).ctx_state(),
            final(self).current_spec() == old(self).current_spec(),
    {
        self.note(_time, Note::ThreadRunnable { threadid: _threadid });
        Ok(())
    }

    fn event_thread_migrate(&mut self, _time: u64, _threadid: u32, _capno: u16) -> (r: Result<
        (),
        SinkError,
    >)
        ensures
            r is Ok,
            final(self).lines_spec() == old(self).lines_spec().push(
                (
                    _time,
                    old(self).current_spec(),
                    Note::ThreadMigrate { threadid: _threadid, capno: _capno },
                ),
            ),
            final(self).ctx_state() == old(self).ctx_state(),
            final(self).current_spec() == old(self).current_spec(),
    {
        self.note(_time, Note::ThreadMigrate { threadid: _threadid, capno: _capno });
        Ok(())
    }

    fn event_thread_wakeup(&mut self, _time: u64, _threadid: u32, _capno: u16) -> (r: Result<
        (),
        SinkError,
    >)
        ensures
            r is Ok,
            final(self).lines_spec() == old(self).lines_spec().push(
                (
                    _time,
                    old(self).current_spec(),
                    Note::ThreadWakeup { threadid: _threadid, capno: _capno },
                ),
            ),
            final(self).ctx_state() == old(self).ctx_state(),
            final(self).current_spec() == old(self).current_spec(),
    {
        self.note(_time, Note::ThreadWakeup { threadid: _threadid, capno: _capno });
        Ok(())
    }
}

} // verus!
