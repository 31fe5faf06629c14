use vstd::prelude::*;

verus! {

/// Events collected while waiting for the input to settle. Times are in
/// milliseconds of a monotonic clock chosen by the caller.
#[derive(Clone, Copy, PartialEq, Eq, Structural)]
pub struct DebouncingBatch {
    pub event_count: u32,
    pub first_input_at: Option<u64>,
}

impl DebouncingBatch {
    /// No event yet.
    pub fn new() -> (r: DebouncingBatch)
        ensures
            r == (DebouncingBatch { event_count: 0, first_input_at: None }),
    {
        DebouncingBatch { event_count: 0, first_input_at: None }
    }

    /// Counts one more event; the first one's time is kept.
    pub fn absorb(&mut self, now: u64)
        requires
            old(self).event_count < u32::MAX,
        ensures
            final(self).event_count == old(self).event_count + 1,
            final(self).first_input_at == match old(self).first_input_at {
                Some(t) => Some(t),
                None => Some(now),
            },
    {
        self.event_count = self.event_count + 1;
        if self.first_input_at.is_none() {
            self.first_input_at = Some(now);
        }
    }
}

/// How long a batch has been collecting at `now`, as logged when it triggers:
/// zero for an empty batch or a clock that went back.
pub fn log_trigger(b: &DebouncingBatch, now: u64) -> (r: u64)
    ensures
        r == match b.first_input_at {
            Some(t) => if now >= t {
                (now - t) as u64
            } else {
                0
            },
            None => 0,
        },
{
    match b.first_input_at {
        Some(t) => if now >= t {
            now - t
        } else {
            0
        },
        None => 0,
    }
}

/// How long to wait for input when no batch is open: one hour.
pub const IDLE_WAIT_MS: u64 = 3_600_000;

/// Delivers bursts of events once no new event came for a delay: each event
/// opens or extends the window, and when the window passes the batch is
/// handed over.
#[derive(Clone, Copy, PartialEq, Eq, Structural)]
pub struct Debouncer {
    pub batch: DebouncingBatch,
    pub deadline: Option<u64>,
    pub delay: u64,
}

/// What happened while waiting for input.
#[derive(Clone, Copy, PartialEq, Eq, Structural)]
pub enum DebouncerInput {
    /// An event arrived.
    Event,
    /// The wait passed without event.
    Timeout,
}

impl Debouncer {
    /// A debouncer with an empty batch and no window open.
    pub fn start(delay: u64) -> (r: Debouncer)
        ensures
            r.batch == (DebouncingBatch { event_count: 0, first_input_at: None }),
            r.deadline is None,
            r.delay == delay,
    {
        Debouncer { batch: DebouncingBatch::new(), deadline: None, delay }
    }

    /// How long to wait for the next event: until the window closes, or an
    /// hour when none is open.
    pub fn wait_time(&self, now: u64) -> (r: u64)
        ensures
            r == match self.deadline {
                Some(d) => if d >= now {
                    (d - now) as u64
                } else {
                    0
                },
                None => IDLE_WAIT_MS,
            },
    {
        match self.deadline {
            Some(d) => if d >= now {
                d - now
            } else {
                0
            },
            None => IDLE_WAIT_MS,
        }
    }

    /// Takes in what the wait gave. An event joins the batch and moves the
    /// window's end to `now + delay`; a timeout hands over a non-empty batch
    /// and starts afresh (a timeout with an empty batch changes nothing).
    pub fn step(&mut self, input: DebouncerInput, now: u64) -> (r: Option<DebouncingBatch>)
        requires
            input == DebouncerInput::Event ==> old(self).batch.event_count < u32::MAX && now + old(self).delay
                <= u64::MAX,
        ensures
            (*final(self), r) == step_spec(*old(self), input, now),
    {
        match input {
            DebouncerInput::Event => {
                self.batch.absorb(now);
                self.deadline = Some(now + self.delay);
                None
            },
            DebouncerInput::Timeout => {
                if self.batch.event_count > 0 {
                    let b = self.batch;
                    self.batch = DebouncingBatch::new();
                    self.deadline = None;
                    Some(b)
                } else {
                    None
                }
            },
        }
    }
}

/// One step of a debouncer: the state after it and the batch handed over.
pub open spec fn step_spec(d: Debouncer, input: DebouncerInput, now: u64) -> (Debouncer, Option<DebouncingBatch>) {
    match input {
        DebouncerInput::Event => (
            Debouncer {
                batch: DebouncingBatch {
                    event_count: (d.batch.event_count + 1) as u32,
                    first_input_at: match d.batch.first_input_at {
                        Some(t) => Some(t),
                        None => Some(now),
                    },
                },
                deadline: Some((now + d.delay) as u64),
                delay: d.delay,
            },
            None,
        ),
        DebouncerInput::Timeout => if d.batch.event_count > 0 {
            (
                Debouncer {
                    batch: DebouncingBatch { event_count: 0, first_input_at: None },
                    deadline: None,
                    delay: d.delay,
                },
                Some(d.batch),
            )
        } else {
            (d, None)
        },
    }
}

/// A debouncer after events at the given times.
pub open spec fn after_events(d: Debouncer, times: Seq<u64>) -> Debouncer
    decreases times.len(),
{
    if times.len() == 0 {
        d
    } else {
        step_spec(after_events(d, times.drop_last()), DebouncerInput::Event, times.last()).0
    }
}

proof fn lemma_after_events(delay: u64, times: Seq<u64>)
    requires
        times.len() < u32::MAX,
    ensures
        after_events(Debouncer { batch: DebouncingBatch { event_count: 0, first_input_at: None }, deadline: None, delay }, times).batch.event_count == times.len(),
        times.len() > 0 ==> after_events(Debouncer { batch: DebouncingBatch { event_count: 0, first_input_at: None }, deadline: None, delay }, times).batch.first_input_at == Some(times[0]),
        times.len() == 0 ==> after_events(Debouncer { batch: DebouncingBatch { event_count: 0, first_input_at: None }, deadline: None, delay }, times).batch.first_input_at is None,
        after_events(Debouncer { batch: DebouncingBatch { event_count: 0, first_input_at: None }, deadline: None, delay }, times).delay == delay,
    decreases times.len(),
{
    if times.len() > 0 {
        lemma_after_events(delay, times.drop_last());
        if times.len() > 1 {
            assert(times.drop_last()[0] == times[0]);
        }
    }
}

/// A burst of events followed by a timeout is handed over whole, once: the
/// batch counts every event and starts at the first one, and the debouncer
/// is fresh again.
pub proof fn law_burst_delivered_whole(delay: u64, times: Seq<u64>, timeout_at: u64)
    requires
        0 < times.len() < u32::MAX,
    ensures
        ({
            let fresh = Debouncer { batch: DebouncingBatch { event_count: 0, first_input_at: None }, deadline: None, delay };
            let (after, delivered) = step_spec(after_events(fresh, times), DebouncerInput::Timeout, timeout_at);
            &&& delivered == Some(DebouncingBatch { event_count: times.len() as u32, first_input_at: Some(times[0]) })
            &&& after == fresh
        }),
{
    lemma_after_events(delay, times);
}


/// A step never hands over an empty batch.
pub proof fn law_no_empty_trigger(d: Debouncer, input: DebouncerInput, now: u64)
    ensures
        step_spec(d, input, now).1 matches Some(b) ==> b.event_count > 0,
{
}

/// A debouncer after a run of inputs, each with its time, and the batches it
/// handed over, in order.
pub open spec fn run(d: Debouncer, inputs: Seq<(DebouncerInput, u64)>) -> (Debouncer, Seq<DebouncingBatch>)
    decreases inputs.len(),
{
    if inputs.len() == 0 {
        (d, Seq::empty())
    } else {
        let (before, delivered) = run(d, inputs.drop_last());
        let (after, out) = step_spec(before, inputs.last().0, inputs.last().1);
        (after, match out {
            Some(b) => delivered.push(b),
            None => delivered,
        })
    }
}

/// The number of events among the inputs.
pub open spec fn events_in(inputs: Seq<(DebouncerInput, u64)>) -> nat
    decreases inputs.len(),
{
    if inputs.len() == 0 {
        0
    } else {
        events_in(inputs.drop_last()) + if inputs.last().0 == DebouncerInput::Event { 1nat } else { 0nat }
    }
}

/// The number of events in the batches.
pub open spec fn events_delivered(batches: Seq<DebouncingBatch>) -> nat
    decreases batches.len(),
{
    if batches.len() == 0 {
        0
    } else {
        events_delivered(batches.drop_last()) + batches.last().event_count as nat
    }
}

/// Over any run, every event is handed over exactly once or still waits in
/// the batch, and no handed-over batch is empty.
pub proof fn law_every_event_delivered_once(d: Debouncer, inputs: Seq<(DebouncerInput, u64)>)
    requires
        d.batch.event_count + events_in(inputs) < u32::MAX,
    ensures
        events_delivered(run(d, inputs).1) + run(d, inputs).0.batch.event_count == d.batch.event_count + events_in(
            inputs,
        ),
        forall|i: int| 0 <= i < run(d, inputs).1.len() ==> (#[trigger] run(d, inputs).1[i]).event_count > 0,
        run(d, inputs).0.delay == d.delay,
    decreases inputs.len(),
{
    if inputs.len() > 0 {
        law_every_event_delivered_once(d, inputs.drop_last());
        let (before, delivered) = run(d, inputs.drop_last());
        let (after, out) = step_spec(before, inputs.last().0, inputs.last().1);
        match out {
            Some(b) => {
                let now = delivered.push(b);
                assert(now.drop_last() =~= delivered);
                assert forall|i: int| 0 <= i < now.len() implies (#[trigger] now[i]).event_count > 0 by {
                    if i < delivered.len() {
                        assert(now[i] == delivered[i]);
                    }
                }
            },
            None => {},
        }
    }
}


/// The time of the last event among the inputs.
pub open spec fn last_event_time(inputs: Seq<(DebouncerInput, u64)>) -> Option<u64>
    decreases inputs.len(),
{
    if inputs.len() == 0 {
        None
    } else if inputs.last().0 == DebouncerInput::Event {
        Some(inputs.last().1)
    } else {
        last_event_time(inputs.drop_last())
    }
}

/// Event times leave room for the delay.
pub open spec fn events_fit(delay: u64, inputs: Seq<(DebouncerInput, u64)>) -> bool {
    forall|i: int| 0 <= i < inputs.len() && (#[trigger] inputs[i]).0 == DebouncerInput::Event ==> inputs[i].1 + delay
        <= u64::MAX
}

/// The debouncer that has seen nothing.
pub open spec fn fresh_debouncer(delay: u64) -> Debouncer {
    Debouncer { batch: DebouncingBatch { event_count: 0, first_input_at: None }, deadline: None, delay }
}

/// A timeout comes only once the window has passed: the receive loop waits
/// [Debouncer::wait_time], which is what is left of the window.
pub open spec fn timeouts_after_deadline(delay: u64, inputs: Seq<(DebouncerInput, u64)>) -> bool {
    forall|i: int| 0 <= i < inputs.len() && (#[trigger] inputs[i]).0 == DebouncerInput::Timeout
        ==> (run(fresh_debouncer(delay), inputs.take(i)).0.deadline matches Some(dl) ==> inputs[i].1 >= dl)
}

proof fn lemma_window(delay: u64, inputs: Seq<(DebouncerInput, u64)>)
    requires
        events_fit(delay, inputs),
    ensures
        run(fresh_debouncer(delay), inputs).0.batch.event_count > 0 ==> run(fresh_debouncer(delay), inputs).0.deadline is Some,
        run(fresh_debouncer(delay), inputs).0.deadline matches Some(dl) ==> (last_event_time(inputs) matches Some(t) && dl
            == t + delay),
        run(fresh_debouncer(delay), inputs).0.delay == delay,
    decreases inputs.len(),
{
    if inputs.len() > 0 {
        let d = inputs.drop_last();
        assert forall|i: int| 0 <= i < d.len() && (#[trigger] d[i]).0 == DebouncerInput::Event implies d[i].1 + delay
            <= u64::MAX by {
            assert(d[i] == inputs[i]);
        }
        lemma_window(delay, d);
        assert(inputs[inputs.len() - 1] == inputs.last());
    }
}

/// Over the receive loop, a batch is handed over only once no event came for
/// the delay: when the step at `i` hands a batch over, it comes at least the
/// delay after the last event before it. With [law_every_event_delivered_once]
/// and [law_burst_delivered_whole], a burst is handed over whole, once, and
/// not early.
pub proof fn law_delivered_after_quiet(delay: u64, inputs: Seq<(DebouncerInput, u64)>, i: int)
    requires
        events_fit(delay, inputs),
        timeouts_after_deadline(delay, inputs),
        0 <= i < inputs.len(),
        step_spec(run(fresh_debouncer(delay), inputs.take(i)).0, inputs[i].0, inputs[i].1).1 is Some,
    ensures
        last_event_time(inputs.take(i)) matches Some(t) && inputs[i].1 >= t + delay,
{
    let p = inputs.take(i);
    assert forall|j: int| 0 <= j < p.len() && (#[trigger] p[j]).0 == DebouncerInput::Event implies p[j].1 + delay
        <= u64::MAX by {
        assert(p[j] == inputs[j]);
    }
    lemma_window(delay, p);
    assert(inputs[i].0 == DebouncerInput::Timeout);
}

} // verus!
