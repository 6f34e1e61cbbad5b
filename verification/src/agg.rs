//! The time-ordered aggregator: a sink that buckets every typed scheduling
//! event under its timestamp, each tagged with the capability context active
//! when its record was observed.  Buckets are kept in strictly ascending
//! timestamp order; within one bucket, events keep decode order.

use vstd::prelude::*;
use crate::tracker::observe_left;
use crate::tracker::cap_of;
use crate::tracker::BlockCtx;
use crate::types::stop_decode;
use crate::types::utf8_decode;
use crate::types::utf8_to_string;
use crate::types::Ev;
use crate::types::SinkError;
use crate::types::StopStatus;
use crate::sink::EventlogParser;

verus! {

/// Where an event lands in a bucket sequence: an existing bucket with its
/// exact timestamp grows at its end, otherwise a new bucket opens at the
/// position that keeps timestamps ascending (the first bucket not below
/// it).
pub open spec fn agg_insert(
    s: Seq<(u64, Seq<(Option<u16>, Ev)>)>,
    t: u64,
    p: (Option<u16>, Ev),
) -> Seq<(u64, Seq<(Option<u16>, Ev)>)>
    decreases s.len(),
{
    if s.len() == 0 {
        seq![(t, seq![p])]
    } else if s[0].0 < t {
        seq![s[0]] + agg_insert(s.drop_first(), t, p)
    } else if s[0].0 == t {
        seq![(t, s[0].1.push(p))] + s.drop_first()
    } else {
        seq![(t, seq![p])] + s
    }
}

/// Strictly ascending timestamps: every bucket key is its own.
pub open spec fn buckets_sorted(s: Seq<(u64, Seq<(Option<u16>, Ev)>)>) -> bool {
    forall|i: int, j: int| 0 <= i < j < s.len() ==> s[i].0 < s[j].0
}

/// The events bucketed under timestamp `t` (empty if none are).
pub open spec fn bucket_of(s: Seq<(u64, Seq<(Option<u16>, Ev)>)>, t: u64) -> Seq<
    (Option<u16>, Ev),
>
    decreases s.len(),
{
    if s.len() == 0 {
        seq![]
    } else if s[0].0 == t {
        s[0].1
    } else {
        bucket_of(s.drop_first(), t)
    }
}

/// Aggregation ordering: inserting into a sorted bucket sequence keeps it
/// sorted, appends the event at the end of its own timestamp's bucket, and
/// leaves every other bucket as it was.
pub proof fn lemma_agg_insert_props(
    s: Seq<(u64, Seq<(Option<u16>, Ev)>)>,
    t: u64,
    p: (Option<u16>, Ev),
)
    requires
        buckets_sorted(s),
    ensures
        buckets_sorted(agg_insert(s, t, p)),
        bucket_of(agg_insert(s, t, p), t) == bucket_of(s, t).push(p),
        forall|u: u64| u != t ==> bucket_of(agg_insert(s, t, p), u) == bucket_of(s, u),
    decreases s.len(),
{
    let r = agg_insert(s, t, p);
    if s.len() == 0 {
        assert(r == seq![(t, seq![p])]);
        assert(bucket_of(s, t) =~= Seq::<(Option<u16>, Ev)>::empty());
        assert(bucket_of(r, t) == bucket_of(s, t).push(p));
        assert forall|u: u64| u != t implies bucket_of(r, u) == bucket_of(s, u) by {
            assert(r.drop_first() =~= s);
            assert(bucket_of(r, u) == bucket_of(r.drop_first(), u));
        }
    } else if s[0].0 < t {
        let rest = s.drop_first();
        assert(buckets_sorted(rest)) by {
            assert(forall|k: int| 0 <= k < rest.len() ==> rest[k] == s[k + 1]);
        }
        lemma_agg_insert_props(rest, t, p);
        let r2 = agg_insert(rest, t, p);
        assert(r == seq![s[0]] + r2);
        assert(r[0] == s[0]);
        assert(forall|k: int| 0 <= k < r2.len() ==> r[k + 1] == r2[k]);
        // every key in the inserted tail is above the head key
        assert forall|j: int| 1 <= j < r.len() implies s[0].0 < r[j].0 by {
            lemma_agg_insert_keys(rest, t, p, j - 1);
        }
        assert(buckets_sorted(r)) by {
            assert(forall|i: int, j: int|
                1 <= i < j < r.len() ==> r[i] == r2[i - 1] && r[j] == r2[j - 1]);
        }
        assert(r.drop_first() =~= r2);
        assert(bucket_of(r, t) == bucket_of(r2, t));
        assert(bucket_of(s, t) == bucket_of(rest, t));
        assert(forall|u: u64| u != t && u != s[0].0 ==> bucket_of(r, u) == bucket_of(r2, u)
            && bucket_of(s, u) == bucket_of(rest, u));
    } else if s[0].0 == t {
        let rest = s.drop_first();
        assert(r == seq![(t, s[0].1.push(p))] + rest);
        assert(r[0].0 == t);
        assert(forall|k: int| 0 <= k < rest.len() ==> r[k + 1] == rest[k] && rest[k] == s[k + 1]);
        assert(buckets_sorted(r));
        assert(bucket_of(r, t) == s[0].1.push(p));
        assert(r.drop_first() =~= rest);
        assert(forall|u: u64| u != t ==> bucket_of(r, u) == bucket_of(rest, u) && bucket_of(
            s,
            u,
        ) == bucket_of(rest, u));
    } else {
        assert(r == seq![(t, seq![p])] + s);
        assert(r[0].0 == t);
        assert(forall|k: int| 0 <= k < s.len() ==> r[k + 1] == s[k]);
        assert(buckets_sorted(r));
        assert(r.drop_first() =~= s);
        assert(bucket_of(s, t) =~= Seq::<(Option<u16>, Ev)>::empty()) by {
            lemma_bucket_absent(s, t);
        }
        assert(bucket_of(r, t) == bucket_of(s, t).push(p));
    }
}

/// Inserting at the first position whose key is not below `t` is what
/// `agg_insert` does: grow that bucket if the key is exactly `t`, else open
/// a new bucket there.
pub proof fn lemma_agg_insert_at(
    s: Seq<(u64, Seq<(Option<u16>, Ev)>)>,
    t: u64,
    p: (Option<u16>, Ev),
    k: int,
)
    requires
        0 <= k <= s.len(),
        forall|j: int| 0 <= j < k ==> s[j].0 < t,
        k < s.len() ==> s[k].0 >= t,
    ensures
        agg_insert(s, t, p) == if k < s.len() && s[k].0 == t {
            s.update(k, (t, s[k].1.push(p)))
        } else {
            s.take(k) + seq![(t, seq![p])] + s.skip(k)
        },
    decreases s.len(),
{
    let r = agg_insert(s, t, p);
    if s.len() == 0 {
        assert(r =~= s.take(k) + seq![(t, seq![p])] + s.skip(k));
    } else if k == 0 {
        if s[0].0 == t {
            assert(r =~= s.update(0, (t, s[0].1.push(p))));
        } else {
            assert(r =~= s.take(0) + seq![(t, seq![p])] + s.skip(0));
        }
    } else {
        let rest = s.drop_first();
        assert(forall|j: int| 0 <= j < rest.len() ==> rest[j] == s[j + 1]);
        lemma_agg_insert_at(rest, t, p, k - 1);
        if k < s.len() && s[k].0 == t {
            assert(r =~= s.update(k, (t, s[k].1.push(p))));
        } else {
            assert(r =~= s.take(k) + seq![(t, seq![p])] + s.skip(k));
        }
    }
}

/// In a sorted sequence whose head key is above `t`, no bucket holds `t`.
proof fn lemma_bucket_absent(s: Seq<(u64, Seq<(Option<u16>, Ev)>)>, t: u64)
    requires
        buckets_sorted(s),
        s.len() > 0 ==> s[0].0 > t,
    ensures
        bucket_of(s, t) == Seq::<(Option<u16>, Ev)>::empty(),
    decreases s.len(),
{
    if s.len() > 0 {
        let rest = s.drop_first();
        assert(forall|k: int| 0 <= k < rest.len() ==> rest[k] == s[k + 1]);
        lemma_bucket_absent(rest, t);
    }
}

/// Every key of an inserted sequence is one of the old keys or the new one.
proof fn lemma_agg_insert_keys(
    s: Seq<(u64, Seq<(Option<u16>, Ev)>)>,
    t: u64,
    p: (Option<u16>, Ev),
    j: int,
)
    requires
        0 <= j < agg_insert(s, t, p).len(),
    ensures
        agg_insert(s, t, p)[j].0 == t || exists|i: int|
            0 <= i < s.len() && s[i].0 == #[trigger] agg_insert(s, t, p)[j].0,
    decreases s.len(),
{
    let r = agg_insert(s, t, p);
    if s.len() == 0 {
    } else if s[0].0 < t {
        let rest = s.drop_first();
        assert(forall|k: int| 0 <= k < rest.len() ==> rest[k] == s[k + 1]);
        if j > 0 {
            lemma_agg_insert_keys(rest, t, p, j - 1);
            assert(r[j] == agg_insert(rest, t, p)[j - 1]);
            if agg_insert(rest, t, p)[j - 1].0 != t {
                let i0 = choose|i: int|
                    0 <= i < rest.len() && rest[i].0 == agg_insert(rest, t, p)[j - 1].0;
                assert(s[i0 + 1].0 == r[j].0);
            }
        }
    } else if s[0].0 == t {
        let rest = s.drop_first();
        assert(forall|k: int| 0 <= k < rest.len() ==> rest[k] == s[k + 1]);
        if j > 0 {
            assert(r[j] == rest[j - 1]);
            assert(s[j].0 == r[j].0);
        }
    } else {
        if j > 0 {
            assert(r[j] == s[j - 1]);
        }
    }
}

/// The time-ordered aggregator: a sink that requires full semantic
/// understanding of every record, validates the enumerated fields, and
/// yields the merged capability-annotated trace.
pub struct SchedEvents {
    ordered: Vec<(u64, Vec<(Option<u16>, Ev)>)>,
    ctx: BlockCtx,
    current: Option<u16>,
}

impl SchedEvents {
    /// The aggregated trace so far: timestamp buckets in storage order.
    pub closed spec fn buckets(&self) -> Seq<(u64, Seq<(Option<u16>, Ev)>)> {
        self.ordered@.map_values(|b: (u64, Vec<(Option<u16>, Ev)>)| (b.0, b.1@))
    }

    /// The tracker state the aggregator maintains.
    pub closed spec fn ctx_state(&self) -> BlockCtx {
        self.ctx
    }

    /// The context the record being delivered is attributed under.
    pub closed spec fn current_spec(&self) -> Option<u16> {
        self.current
    }

    /// The aggregator's invariant: bucket timestamps strictly ascend.
    pub open spec fn wf(&self) -> bool {
        buckets_sorted(self.buckets())
    }

    pub fn new() -> (r: SchedEvents)
        ensures
            r.buckets() == Seq::<(u64, Seq<(Option<u16>, Ev)>)>::empty(),
            r.ctx_state().left() == 0,
            r.ctx_state().cap() is None,
            r.current_spec() is None,
            r.wf(),
    {
        let r = SchedEvents { ordered: Vec::new(), ctx: BlockCtx::new(), current: None };
        proof {
            assert(r.buckets() =~= Seq::<(u64, Seq<(Option<u16>, Ev)>)>::empty());
        }
        r
    }

    /// The capability context the record being delivered is attributed
    /// under: the tracker's context as it stood when the record was
    /// observed, before the record's own bytes were deducted from the span.
    pub fn block_cap(&self) -> (r: Option<u16>)
        ensures
            r == self.current_spec(),
    {
        self.current
    }

    /// Files one typed event under its timestamp, tagged with the block
    /// context of its record: appended to its timestamp's bucket if one
    /// exists, else opening a new bucket where timestamps stay ascending.
    pub fn add(&mut self, time: u64, ev: Ev)
        ensures
            final(self).buckets() == agg_insert(
                old(self).buckets(),
                time,
                (old(self).current_spec(), ev),
            ),
            final(self).ctx_state() == old(self).ctx_state(),
            final(self).current_spec() == old(self).current_spec(),
            old(self).wf() ==> final(self).wf(),
    {
        let ghost obk = old(self).buckets();
        let ghost pair = (old(self).current_spec(), ev);
        let cap = self.current;
        let n = self.ordered.len();
        let mut k: usize = 0;
        while k < n && self.ordered[k].0 < time
            invariant
                0 <= k <= n,
                n == self.ordered@.len(),
                *self == *old(self),
                forall|j: int| 0 <= j < k ==> self.buckets()[j].0 < time,
            decreases n - k,
        {
            proof {
                assert(self.buckets()[k as int].0 == self.ordered@[k as int].0);
            }
            k = k + 1;
        }
        proof {
            lemma_agg_insert_at(obk, time, pair, k as int);
            assert(k < n ==> obk[k as int].0 == self.ordered@[k as int].0);
        }
        if k < n && self.ordered[k].0 == time {
            let mut b = self.ordered.remove(k);
            b.1.push((cap, ev));
            self.ordered.insert(k, b);
            proof {
                assert(final(self).buckets() =~= obk.update(
                    k as int,
                    (time, obk[k as int].1.push(pair)),
                ));
                if old(self).wf() {
                    lemma_agg_insert_props(obk, time, pair);
                }
            }
        } else {
            let mut fresh: Vec<(Option<u16>, Ev)> = Vec::new();
            fresh.push((cap, ev));
            self.ordered.insert(k, (time, fresh));
            proof {
                assert(final(self).buckets() =~= obk.take(k as int) + seq![(time, seq![pair])]
                    + obk.skip(k as int));
                if old(self).wf() {
                    lemma_agg_insert_props(obk, time, pair);
                }
            }
        }
    }

    /// Yields the finished trace to the caller: for each timestamp in
    /// storage order, the context-tagged events recorded under it.
    pub fn take_ordered(self) -> (r: Vec<(u64, Vec<(Option<u16>, Ev)>)>)
        ensures
            r@.map_values(|b: (u64, Vec<(Option<u16>, Ev)>)| (b.0, b.1@)) == self.buckets(),
    {
        self.ordered
    }
}

impl EventlogParser for SchedEvents {
    /// Snapshots the context the record starts under, then deducts the
    /// record's bytes from the span.
    fn event_start(&mut self, _id: u16, _time: u64, _size: usize) -> (r: Result<(), SinkError>)
        ensures
            r is Ok,
            final(self).buckets() == old(self).buckets(),
            final(self).current_spec() == old(self).ctx_state().context_spec(),
            final(self).ctx_state().cap() == old(self).ctx_state().cap(),
            final(self).ctx_state().left() == observe_left(
                old(self).ctx_state().left(),
                _size as int,
            ),
            old(self).wf() ==> final(self).wf(),
    {
        self.current = self.ctx.current_context();
        self.ctx.on_record_observed(_size);
        Ok(())
    }

    /// Resets the span to the announced size and capability,
    /// unconditionally.
    fn event_block_marker(
        &mut self,
        _time: u64,
        _block_size: u32,
        _time_end: u64,
        _capno: u16,
    ) -> (r: Result<(), SinkError>)
        ensures
            r is Ok,
            final(self).buckets() == old(self).buckets(),
            final(self).current_spec() == old(self).current_spec(),
            final(self).ctx_state().left() == _block_size,
            final(self).ctx_state().cap() == cap_of(_capno),
            old(self).wf() ==> final(self).wf(),
    {
        self.ctx.on_block_marker(_block_size, _capno);
        Ok(())
    }

    /// This consumer requires full semantic understanding: an unhandled tag
    /// aborts the pass.
    fn event_unknown(&mut self, _tag: u16, _time: u64, _bytes: Vec<u8>) -> (r: Result<
        (),
        SinkError,
    >)
        ensures
            r matches Err(e) && e == SinkError::UnhandledTag(_tag),
            final(self).buckets() == old(self).buckets(),
            final(self).ctx_state() == old(self).ctx_state(),
            final(self).current_spec() == old(self).current_spec(),
    {
        Err(SinkError::UnhandledTag(_tag))
    }

    fn event_cap_create(&mut self, _time: u64, _capno: u16) -> (r: Result<(), SinkError>)
        ensures
            r is Ok,
            final(self).buckets() == agg_insert(
                old(self).buckets(),
                _time,
                (old(self).current_spec(), Ev::CapCreate { capno: _capno }),
            ),
            final(self).ctx_state() == old(self).ctx_state(),
            final(self).current_spec() == old(self).current_spec(),
            old(self).wf() ==> final(self).wf(),
    {
        self.add(_time, Ev::CapCreate { capno: _capno });
        Ok(())
    }

    fn event_cap_delete(&mut self, _time: u64, _capno: u16) -> (r: Result<(), SinkError>)
        ensures
            r is Ok,
            final(self).buckets() == agg_insert(
                old(self).buckets(),
                _time,
                (old(self).current_spec(), Ev::CapDelete { capno: _capno }),
            ),
            final(self).ctx_state() == old(self).ctx_state(),
            final(self).current_spec() == old(self).current_spec(),
            old(self).wf() ==> final(self).wf(),
    {
        self.add(_time, Ev::CapDelete { capno: _capno });
        Ok(())
    }

    fn event_cap_disable(&mut self, _time: u64, _capno: u16) -> (r: Result<(), SinkError>)
        ensures
            r is Ok,
            final(self).buckets() == agg_insert(
                old(self).buckets(),
                _time,
                (old(self).current_spec(), Ev::CapDisable { capno: _capno }),
            ),
            final(self).ctx_state() == old(self).ctx_state(),
            final(self).current_spec() == old(self).current_spec(),
            old(self).wf() ==> final(self).wf(),
    {
        self.add(_time, Ev::CapDisable { capno: _capno });
        Ok(())
    }

    fn event_task_create(
        &mut self,
        _time: u64,
        _taskid: u64,
        _capno: u16,
        _k_threadid: u64,
    ) -> (r: Result<(), SinkError>)
        ensures
            r is Ok,
            final(self).buckets() == agg_insert(
                old(self).buckets(),
                _time,
                (
                    old(self).current_spec(),
                    Ev::TaskCreate { taskid: _taskid, capno: _capno, kernel_tid: _k_threadid },
                ),
            ),
            final(self).ctx_state() == old(self).ctx_state(),
            final(self).current_spec() == old(self).current_spec(),
            old(self).wf() ==> final(self).wf(),
    {
        self.add(_time, Ev::TaskCreate { taskid: _taskid, capno: _capno, kernel_tid: _k_threadid });
        Ok(())
    }

    fn event_task_migrate(
        &mut self,
        _time: u64,
        _taskid: u64,
        _from_capno: u16,
        _to_capno: u16,
    ) -> (r: Result<(), SinkError>)
        ensures
            r is Ok,
            final(self).buckets() == agg_insert(
                old(self).buckets(),
                _time,
                (
                    old(self).current_spec(),
                    Ev::TaskMigrate { taskid: _taskid, from: _from_capno, to: _to_capno },
                ),
            ),
            final(self).ctx_state() == old(self).ctx_state(),
            final(self).current_spec() == old(self).current_spec(),
            old(self).wf() ==> final(self).wf(),
    {
        self.add(_time, Ev::TaskMigrate { taskid: _taskid, from: _from_capno, to: _to_capno });
        Ok(())
    }

    fn event_task_delete(&mut self, _time: u64, _taskid: u64) -> (r: Result<(), SinkError>)
        ensures
            r is Ok,
            final(self).buckets() == agg_insert(
                old(self).buckets(),
                _time,
                (old(self).current_spec(), Ev::TaskDelete { taskid: _taskid }),
            ),
            final(self).ctx_state() == old(self).ctx_state(),
            final(self).current_spec() == old(self).current_spec(),
            old(self).wf() ==> final(self).wf(),
    {
        self.add(_time, Ev::TaskDelete { taskid: _taskid });
        Ok(())
    }

    fn event_thread_create(&mut self, _time: u64, _threadid: u32) -> (r: Result<(), SinkError>)
        ensures
            r is Ok,
            final(self).buckets() == agg_insert(
                old(self).buckets(),
                _time,
                (old(self).current_spec(), Ev::ThreadCreate { id: _threadid }),
            ),
            final(self).ctx_state() == old(self).ctx_state(),
            final(self).current_spec() == old(self).current_spec(),
            old(self).wf() ==> final(self).wf(),
    {
        self.add(_time, Ev::ThreadCreate { id: _threadid });
        Ok(())
    }

    fn event_thread_run(&mut self, _time: u64, _threadid: u32) -> (r: Result<(), SinkError>)
        ensures
            r is Ok,
            final(self).buckets() == agg_insert(
                old(self).buckets(),
                _time,
                (old(self).current_spec(), Ev::ThreadRun { id: _threadid }),
            ),
            final(self).ctx_state() == old(self).ctx_state(),
            final(self).current_spec() == old(self).current_spec(),
            old(self).wf() ==> final(self).wf(),
    {
        self.add(_time, Ev::ThreadRun { id: _threadid });
        Ok(())
    }

    /// Validates the stop status: codes outside 1 through 20 are a fatal
    /// error for this consumer.
    fn event_thread_stop(
        &mut self,
        _time: u64,
        _threadid: u32,
        _status: u16,
        _block_threadid: u32,
    ) -> (r: Result<(), SinkError>)
        ensures
            r is Ok <==> 1 <= _status <= 20,
            r matches Err(e) ==> e == SinkError::BadStopStatus(_status)
                && final(self).buckets() == old(self).buckets(),
            r is Ok ==> final(self).buckets() == agg_insert(
                old(self).buckets(),
                _time,
                (
                    old(self).current_spec(),
                    Ev::ThreadStop {
                        id: _threadid,
                        status: stop_decode(_status),
                        block_on: _block_threadid,
                    },
                ),
            ),
            final(self).ctx_state() == old(self).ctx_state(),
            final(self).current_spec() == old(self).current_spec(),
            old(self).wf() ==> final(self).wf(),
    {
        match StopStatus::from(_status) {
            Ok(st) => {
                self.add(
                    _time,
                    Ev::ThreadStop { id: _threadid, status: st, block_on: _block_threadid },
                );
                Ok(())
            },
            Err(e) => Err(e),
        }
    }

    /// Decodes the label as UTF-8: invalid text is a fatal error for this
    /// consumer.
    fn event_thread_label(&mut self, _time: u64, _threadid: u32, _label: Vec<u8>) -> (r: Result<
        (),
        SinkError,
    >)
        ensures
            r is Ok <==> utf8_decode(_label@) is Some,
            r matches Err(e) ==> e == SinkError::BadUtf8 && final(self).buckets() == old(
                self,
            ).buckets(),
            r is Ok ==> exists|lbl: String|
                #![auto]
                lbl@ == utf8_decode(_label@)->Some_0 && final(self).buckets() == agg_insert(
                    old(self).buckets(),
                    _time,
                    (old(self).current_spec(), Ev::ThreadLabel { id: _threadid, label: lbl }),
                ),
            final(self).ctx_state() == old(self).ctx_state(),
            final(self).current_spec() == old(self).current_spec(),
            old(self).wf() ==> final(self).wf(),
    {
        match utf8_to_string(_label) {
            Ok(lbl) => {
                let ghost glbl = lbl;
                self.add(_time, Ev::ThreadLabel { id: _threadid, label: lbl });
                proof {
                    assert(glbl@ == utf8_decode(_label@)->Some_0 && final(self).buckets()
                        == agg_insert(
                        old(self).buckets(),
                        _time,
                        (old(self).current_spec(), Ev::ThreadLabel { id: _threadid, label: glbl }),
                    ));
                }
                Ok(())
            },
            Err(e) => Err(e),
        }
    }

    fn event_thread_runnable(&mut self, _time: u64, _threadid: u32) -> (r: Result<(), SinkError>)
        ensures
            r is Ok,
            final(self).buckets() == agg_insert(
                old(self).buckets(),
                _time,
                (old(self).current_spec(), Ev::ThreadRunnable { id: _threadid }),
            ),
            final(self).ctx_state() == old(self).ctx_state(),
            final(self).current_spec() == old(self).current_spec(),
            old(self).wf() ==> final(self).wf(),
    {
        self.add(_time, Ev::ThreadRunnable { id: _threadid });
        Ok(())
    }

    fn event_thread_migrate(&mut self, _time: u64, _threadid: u32, _capno: u16) -> (r: Result<
        (),
        SinkError,
    >)
        ensures
            r is Ok,
            final(self).buckets() == agg_insert(
                old(self).buckets(),
                _time,
                (old(self).current_spec(), Ev::ThreadMigrate { id: _threadid, capno: _capno }),
            ),
            final(self).ctx_state() == old(self).ctx_state(),
            final(self).current_spec() == old(self).current_spec(),
            old(self).wf() ==> final(self).wf(),
    {
        self.add(_time, Ev::ThreadMigrate { id: _threadid, capno: _capno });
        Ok(())
    }

    fn event_thread_wakeup(&mut self, _time: u64, _threadid: u32, _capno: u16) -> (r: Result<
        (),
        SinkError,
    >)
        ensures
            r is Ok,
            final(self).buckets() == agg_insert(
                old(self).buckets(),
                _time,
                (old(self).current_spec(), Ev::ThreadWakeup { id: _threadid, capno: _capno }),
            ),
            final(self).ctx_state() == old(self).ctx_state(),
            final(self).current_spec() == old(self).current_spec(),
            old(self).wf() ==> final(self).wf(),
    {
        self.add(_time, Ev::ThreadWakeup { id: _threadid, capno: _capno });
        Ok(())
    }
}

} // verus!
