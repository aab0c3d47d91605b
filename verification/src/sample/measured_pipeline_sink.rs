//! The sink of the latency-measuring sample pipeline: it receives spin
//! counts and adds up how far the shared spin counter has moved since each
//! was sent.

use crate::elem::sink::Sink;
use crate::sample::tick::Tick;
use crate::{same_apart_from_queue, take_messages, ChannelState, ChannelWrapper, Message};
use std::sync::atomic::{AtomicUsize, Ordering};
use std::sync::Arc;
use vstd::prelude::*;
use vstd::wrapping::{u64_specs, usize_specs};

verus! {

/// The current value of the shared spin counter.
fn spin_count(counter: &Arc<AtomicUsize>) -> usize {
    counter.load(Ordering::Acquire)
}

/// `n` is a value that reading the shared spin counter `counter` can give.
pub closed spec fn read_spins(counter: Arc<AtomicUsize>, n: usize) -> bool {
    call_ensures(spin_count, (&counter,), n)
}

/// `ns` is a number of nanoseconds that asking `t` how much time has
/// elapsed since it can give.
pub closed spec fn read_elapsed(t: Tick, ns: u64) -> bool {
    call_ensures(Tick::elapsed_ns, (&t,), ns)
}

/// The latency total after adding, for each `Value(t)` in `msgs`, the spins
/// from `t` to `now` (both sums wrapping around).
pub open spec fn latency_after(latency: u64, now: usize, msgs: Seq<Message<usize, &'static str>>) -> u64
    decreases msgs.len(),
{
    if msgs.len() == 0 {
        latency
    } else {
        let prev = latency_after(latency, now, msgs.drop_last());
        match msgs.last() {
            Message::Value(t) => u64_specs::wrapping_add(prev, usize_specs::wrapping_sub(now, t) as u64),
            _ => prev,
        }
    }
}

/// The message count after counting each `Value` in `msgs` (wrapping around).
pub open spec fn count_after(count: u64, msgs: Seq<Message<usize, &'static str>>) -> u64
    decreases msgs.len(),
{
    if msgs.len() == 0 {
        count
    } else {
        let prev = count_after(count, msgs.drop_last());
        match msgs.last() {
            Message::Value(_) => u64_specs::wrapping_add(prev, 1),
            _ => prev,
        }
    }
}

/// `new` is the sink `old` after recording one run that read the spin
/// counter as `now` before and `end` after handling the messages `msgs` (see
/// `MeasuredPipelineSink::record`).
pub open spec fn recorded(
    old: MeasuredPipelineSink,
    new: MeasuredPipelineSink,
    now: usize,
    msgs: Seq<Message<usize, &'static str>>,
    end: usize,
) -> bool {
    &&& new.spec_runs() == u64_specs::wrapping_add(old.spec_runs(), 1)
    &&& new.spec_latency() == latency_after(old.spec_latency(), now, msgs)
    &&& new.spec_count() == count_after(old.spec_count(), msgs)
    &&& new.spec_others_spins() == (if old.spec_last_spin() != 0 {
        u64_specs::wrapping_add(old.spec_others_spins(), usize_specs::wrapping_sub(now, old.spec_last_spin()) as u64)
    } else {
        old.spec_others_spins()
    })
    &&& new.spec_last_spin() == end
    &&& new.spec_start() == old.spec_start()
    &&& new.spec_spinned() == old.spec_spinned()
}

/// The statistics the sink reports.
#[derive(Copy, Clone, Debug, PartialEq, Eq, Structural)]
pub struct SinkStats {
    /// Average spins from sending to receiving, per message.
    pub avg_latency: u64,
    pub count: u64,
    /// Nanoseconds since the sink was created, per message.
    pub ns_per_count: u64,
    /// Spins since the sink was created, per message.
    pub spins_per_count: u64,
    pub runs: u64,
    /// Spins between the end of one run and the start of the next, per run.
    pub others_spins_per_exec: u64,
}

/// A sink that measures, in spins of a shared counter, how long the values
/// it receives took to arrive.
pub struct MeasuredPipelineSink {
    latency: u64,
    count: u64,
    runs: u64,
    start: usize,
    spinned: Arc<AtomicUsize>,
    elapsed: Tick,
    others_spins: u64,
    last_spin: usize,
}

impl Sink for MeasuredPipelineSink {
    type InputValue = usize;
    type InputError = &'static str;

    open spec fn process_effect(
        old: Self,
        new: Self,
        old_input: ChannelWrapper<usize, &'static str>,
        new_input: ChannelWrapper<usize, &'static str>,
        old_stop: bool,
        new_stop: bool,
    ) -> bool {
        &&& same_apart_from_queue(old_input, new_input)
        &&& old_input is ConnectedReceiver ==> new_stop == old_stop && exists|
            now: usize,
            msgs: Seq<Message<usize, &'static str>>,
            end: usize,
        | #[trigger] recorded(old, new, now, msgs, end)
        &&& !(old_input is ConnectedReceiver) ==> new_stop && new == old && new_input == old_input
    }

    fn process(&mut self, input: &mut ChannelWrapper<usize, &'static str>, stop: &mut bool) {
        match self.step(input) {
            Ok(()) => {},
            Err(_) => {
                *stop = true;
            },
        }
    }
}

impl MeasuredPipelineSink {
    pub closed spec fn spec_latency(&self) -> u64 {
        self.latency
    }

    pub closed spec fn spec_count(&self) -> u64 {
        self.count
    }

    pub closed spec fn spec_runs(&self) -> u64 {
        self.runs
    }

    pub closed spec fn spec_start(&self) -> usize {
        self.start
    }

    pub closed spec fn spec_others_spins(&self) -> u64 {
        self.others_spins
    }

    pub closed spec fn spec_last_spin(&self) -> usize {
        self.last_spin
    }

    /// The point in time the sink was created at.
    pub closed spec fn spec_elapsed(&self) -> Tick {
        self.elapsed
    }

    /// The shared spin counter the sink reads.
    pub closed spec fn spec_spinned(&self) -> Arc<AtomicUsize> {
        self.spinned
    }

    /// A sink with nothing measured yet, started at the current value of the
    /// spin counter `spinned` and the current time.
    pub fn new(spinned: Arc<AtomicUsize>) -> (res: MeasuredPipelineSink)
        ensures
            res.spec_latency() == 0,
            res.spec_count() == 0,
            res.spec_runs() == 0,
            res.spec_others_spins() == 0,
            res.spec_last_spin() == 0,
            res.spec_spinned() == spinned,
            read_spins(spinned, res.spec_start()),
    {
        let start = spin_count(&spinned);
        MeasuredPipelineSink {
            latency: 0,
            runs: 0,
            count: 0,
            start,
            spinned,
            elapsed: Tick::new(),
            others_spins: 0,
            last_spin: 0,
        }
    }

    /// One run: on a connected input, reads the spin counter, takes the
    /// waiting messages, reads the counter again and records the run (see
    /// `record`); on any other input, fails with "The channel is not
    /// connected" and touches nothing.
    pub fn step(&mut self, input: &mut ChannelWrapper<usize, &'static str>) -> (res: Result<(), &'static str>)
        ensures
            same_apart_from_queue(*old(input), *final(input)),
            *old(input) is ConnectedReceiver ==> res is Ok && exists|
                now: usize,
                msgs: Seq<Message<usize, &'static str>>,
                end: usize,
            | #[trigger] recorded(*old(self), *final(self), now, msgs, end),
            !(*old(input) is ConnectedReceiver) ==> res == Err::<(), &'static str>("The channel is not connected")
                && *final(self) == *old(self) && *final(input) == *old(input),
    {
        match input.state() {
            ChannelState::ConnectedReceiver => {
                let now = spin_count(&self.spinned);
                let msgs = match take_messages(input) {
                    Some(m) => m,
                    None => Vec::new(),
                };
                let end = spin_count(&self.spinned);
                self.record(now, &msgs, end);
                assert(recorded(*old(self), *self, now, msgs@, end));
                Ok(())
            },
            _ => Err("The channel is not connected"),
        }
    }

    /// Records one run that read the spin counter as `now` before and `end`
    /// after handling the messages `msgs`: each `Value(t)` adds the spins
    /// from `t` to `now` to the latency and one to the count, and the spins
    /// from the end of the previous run (if there was one) to `now` go to
    /// the others' spins.
    pub fn record(&mut self, now: usize, msgs: &Vec<Message<usize, &'static str>>, end: usize)
        ensures
            final(self).spec_runs() == u64_specs::wrapping_add(old(self).spec_runs(), 1),
            final(self).spec_latency() == latency_after(old(self).spec_latency(), now, msgs@),
            final(self).spec_count() == count_after(old(self).spec_count(), msgs@),
            final(self).spec_others_spins() == (if old(self).spec_last_spin() != 0 {
                u64_specs::wrapping_add(
                    old(self).spec_others_spins(),
                    usize_specs::wrapping_sub(now, old(self).spec_last_spin()) as u64,
                )
            } else {
                old(self).spec_others_spins()
            }),
            final(self).spec_last_spin() == end,
            final(self).spec_start() == old(self).spec_start(),
            final(self).spec_spinned() == old(self).spec_spinned(),
    {
        self.runs = self.runs.wrapping_add(1);
        let n = msgs.len();
        let mut i: usize = 0;
        while i < n
            invariant
                i <= n,
                n == msgs@.len(),
                self.runs == u64_specs::wrapping_add(old(self).runs, 1),
                self.latency == latency_after(old(self).latency, now, msgs@.take(i as int)),
                self.count == count_after(old(self).count, msgs@.take(i as int)),
                self.others_spins == old(self).others_spins,
                self.last_spin == old(self).last_spin,
                self.start == old(self).start,
                self.spinned == old(self).spinned,
            decreases n - i,
        {
            assert(msgs@.take(i + 1).drop_last() =~= msgs@.take(i as int));
            assert(msgs@.take(i + 1).last() == msgs@[i as int]);
            match msgs[i] {
                Message::Value(tick) => {
                    self.latency = self.latency.wrapping_add(now.wrapping_sub(tick) as u64);
                    self.count = self.count.wrapping_add(1);
                },
                _ => {},
            }
            i = i + 1;
        }
        assert(msgs@.take(n as int) =~= msgs@);
        if self.last_spin != 0 {
            self.others_spins = self.others_spins.wrapping_add(now.wrapping_sub(self.last_spin) as u64);
        }
        self.last_spin = end;
    }

    /// The statistics of the measurements so far. The per-message and
    /// per-run figures divide by the count and the number of runs, so both
    /// must be positive.
    pub fn stats(&self) -> (res: SinkStats)
        requires
            self.spec_count() > 0,
            self.spec_runs() > 0,
        ensures
            res.avg_latency == self.spec_latency() / self.spec_count(),
            res.count == self.spec_count(),
            res.runs == self.spec_runs(),
            res.others_spins_per_exec == self.spec_others_spins() / self.spec_runs(),
            exists|ns: u64| #[trigger] read_elapsed(self.spec_elapsed(), ns) && res.ns_per_count == ns / self.spec_count(),
            exists|now: usize| #[trigger] read_spins(self.spec_spinned(), now) && res.spins_per_count == (
            usize_specs::wrapping_sub(now, self.spec_start()) as u64) / self.spec_count(),
    {
        let ns = self.elapsed.elapsed_ns();
        let now = spin_count(&self.spinned);
        let res = SinkStats {
            avg_latency: self.latency / self.count,
            count: self.count,
            ns_per_count: ns / self.count,
            spins_per_count: (now.wrapping_sub(self.start) as u64) / self.count,
            runs: self.runs,
            others_spins_per_exec: self.others_spins / self.runs,
        };
        assert(read_elapsed(self.spec_elapsed(), ns) && res.ns_per_count == ns / self.spec_count());
        assert(read_spins(self.spec_spinned(), now) && res.spins_per_count == (usize_specs::wrapping_sub(
            now,
            self.spec_start(),
        ) as u64) / self.spec_count());
        res
    }
}

/// A sink that measures latency in spins of the counter `spinned`.
pub fn new(spinned: Arc<AtomicUsize>) -> (res: MeasuredPipelineSink)
    ensures
        res.spec_latency() == 0,
        res.spec_count() == 0,
        res.spec_runs() == 0,
        res.spec_others_spins() == 0,
        res.spec_last_spin() == 0,
        res.spec_spinned() == spinned,
        read_spins(spinned, res.spec_start()),
{
    MeasuredPipelineSink::new(spinned)
}

/// `q` is the whole quotient of `x` by `d`: `q` times `d` is at most `x`,
/// and one more than `q` times `d` exceeds it.
pub open spec fn is_quotient(q: int, x: int, d: int) -> bool {
    q * d <= x < (q + 1) * d
}

proof fn lemma_div_is_quotient(x: int, d: int)
    requires
        0 <= x,
        0 < d,
    ensures
        is_quotient(x / d, x, d),
{
    vstd::arithmetic::div_mod::lemma_fundamental_div_mod(x, d);
    vstd::arithmetic::div_mod::lemma_mod_pos_bound(x, d);
    let q = x / d;
    let r = x % d;
    assert(q * d <= x < (q + 1) * d) by (nonlinear_arith)
        requires
            x == d * q + r,
            0 <= r < d,
    ;
}

/// The statistics of a sink are per message and per run: the average
/// latency, the nanoseconds and the spins since the sink was created are
/// each divided by the number of messages counted, and the others' spins by
/// the number of runs. The spins are those of the shared counter from its
/// reading when the sink was created to a reading during the call, and the
/// nanoseconds those the sink's start time reports during the call.
pub proof fn stats_are_per_message_and_per_run(sink: MeasuredPipelineSink, res: SinkStats)
    requires
        call_ensures(MeasuredPipelineSink::stats, (&sink,), res),
        sink.spec_count() > 0,
        sink.spec_runs() > 0,
    ensures
        res.count == sink.spec_count(),
        res.runs == sink.spec_runs(),
        is_quotient(res.avg_latency as int, sink.spec_latency() as int, sink.spec_count() as int),
        is_quotient(res.others_spins_per_exec as int, sink.spec_others_spins() as int, sink.spec_runs() as int),
        exists|now: usize|
            #[trigger] read_spins(sink.spec_spinned(), now) && is_quotient(
                res.spins_per_count as int,
                usize_specs::wrapping_sub(now, sink.spec_start()) as int,
                sink.spec_count() as int,
            ),
        exists|ns: u64|
            #[trigger] read_elapsed(sink.spec_elapsed(), ns) && is_quotient(
                res.ns_per_count as int,
                ns as int,
                sink.spec_count() as int,
            ),
{
    let c = sink.spec_count() as int;
    lemma_div_is_quotient(sink.spec_latency() as int, c);
    lemma_div_is_quotient(sink.spec_others_spins() as int, sink.spec_runs() as int);
    let now = choose|now: usize|
        #[trigger] read_spins(sink.spec_spinned(), now) && res.spins_per_count == (usize_specs::wrapping_sub(
            now,
            sink.spec_start(),
        ) as u64) / sink.spec_count();
    let spins = usize_specs::wrapping_sub(now, sink.spec_start());
    assert(spins as u64 as int == spins as int);
    lemma_div_is_quotient(spins as int, c);
    assert(read_spins(sink.spec_spinned(), now) && is_quotient(res.spins_per_count as int, spins as int, c));
    let ns = choose|ns: u64| #[trigger] read_elapsed(sink.spec_elapsed(), ns) && res.ns_per_count == ns / sink.spec_count();
    lemma_div_is_quotient(ns as int, c);
    assert(read_elapsed(sink.spec_elapsed(), ns) && is_quotient(res.ns_per_count as int, ns as int, c));
}

} // verus!
