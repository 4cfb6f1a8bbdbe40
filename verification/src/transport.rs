use vstd::prelude::*;

use crate::entry::LogEntry;

verus! {

/// Commands sent from the client to the background transport task.
#[derive(Debug)]
pub enum TransportCommand {
    /// Enqueue a log entry for batched delivery.
    Send(LogEntry),
    /// Ship the current buffer now.
    Flush,
    /// Ship what is left, then stop.
    Shutdown,
}

/// What wakes the transport's flush loop.
#[derive(Debug)]
pub enum FlushEvent {
    /// The periodic flush timer fired.
    Tick,
    /// A command arrived from a client.
    Command(TransportCommand),
    /// Every client handle is gone: the command channel is closed.
    Closed,
}

/// What the flush loop does after an event.
#[derive(Debug)]
pub struct FlushAction {
    /// A batch to ship now, if any; a shipped batch is never empty.
    pub batch: Option<Vec<LogEntry>>,
    /// Whether the loop ends (after shipping the batch).
    pub stop: bool,
}

/// The buffer size at which a batch leaves on its own: the configured batch
/// size, where a batch size of 0 acts as 1 (every entry leaves at once).
pub open spec fn threshold(batch_size: nat) -> nat {
    if batch_size == 0 {
        1
    } else {
        batch_size
    }
}

/// Ship the whole buffer if it holds anything.
pub open spec fn ship_if_any(buf: Seq<LogEntry>, stop: bool) -> (Seq<LogEntry>, Option<Seq<LogEntry>>, bool) {
    if buf.len() > 0 {
        (Seq::empty(), Some(buf), stop)
    } else {
        (buf, None, stop)
    }
}

/// One step of the flush loop: from the buffer, the batch size and an event,
/// the new buffer, the batch shipped (if any) and whether the loop stops.
pub open spec fn flush_step(buf: Seq<LogEntry>, batch_size: nat, ev: FlushEvent) -> (
    Seq<LogEntry>,
    Option<Seq<LogEntry>>,
    bool,
) {
    match ev {
        FlushEvent::Tick => ship_if_any(buf, false),
        FlushEvent::Command(TransportCommand::Send(e)) => {
            let b = buf.push(e);
            if b.len() >= batch_size {
                (Seq::empty(), Some(b), false)
            } else {
                (b, None, false)
            }
        },
        FlushEvent::Command(TransportCommand::Flush) => ship_if_any(buf, false),
        FlushEvent::Command(TransportCommand::Shutdown) | FlushEvent::Closed => ship_if_any(buf, true),
    }
}

/// The entry that an event enqueues, as a sequence of zero or one entries.
pub open spec fn enqueued_by(ev: FlushEvent) -> Seq<LogEntry> {
    match ev {
        FlushEvent::Command(TransportCommand::Send(e)) => seq![e],
        _ => Seq::empty(),
    }
}

/// The flush loop run over a sequence of events from a buffer: the final
/// buffer, the batches shipped in order, and whether it stopped. Events after
/// the stop are not processed (the loop has returned).
pub open spec fn run(buf: Seq<LogEntry>, batch_size: nat, events: Seq<FlushEvent>) -> (
    Seq<LogEntry>,
    Seq<Seq<LogEntry>>,
    bool,
)
    decreases events.len(),
{
    if events.len() == 0 {
        (buf, Seq::empty(), false)
    } else {
        let (b, batches, stopped) = run(buf, batch_size, events.drop_last());
        if stopped {
            (b, batches, stopped)
        } else {
            let (b2, shipped, stop) = flush_step(b, batch_size, events.last());
            match shipped {
                Some(batch) => (b2, batches.push(batch), stop),
                None => (b2, batches, stop),
            }
        }
    }
}

/// The entries that the events processed by `run` enqueued, in order.
pub open spec fn accepted(buf: Seq<LogEntry>, batch_size: nat, events: Seq<FlushEvent>) -> Seq<LogEntry>
    decreases events.len(),
{
    if events.len() == 0 {
        Seq::empty()
    } else if run(buf, batch_size, events.drop_last()).2 {
        accepted(buf, batch_size, events.drop_last())
    } else {
        accepted(buf, batch_size, events.drop_last()) + enqueued_by(events.last())
    }
}

/// A timer tick or a flush command.
pub open spec fn is_flush_event(ev: FlushEvent) -> bool {
    match ev {
        FlushEvent::Tick | FlushEvent::Command(TransportCommand::Flush) => true,
        _ => false,
    }
}

/// A shutdown command or a closed channel.
pub open spec fn is_stop_event(ev: FlushEvent) -> bool {
    match ev {
        FlushEvent::Closed | FlushEvent::Command(TransportCommand::Shutdown) => true,
        _ => false,
    }
}

/// Event law of the flush loop: a timer tick and a flush ship the whole
/// buffer as one batch when it holds anything and nothing otherwise, and keep
/// running; a shutdown or a closed channel does the same and stops; a sent
/// entry joins the end of the buffer, and the buffer leaves as one batch once
/// it reaches the batch size.
pub proof fn lemma_flush_events(buf: Seq<LogEntry>, batch_size: nat, e: LogEntry)
    ensures
        buf.len() > 0 ==> flush_step(buf, batch_size, FlushEvent::Tick) == (Seq::<LogEntry>::empty(), Some(buf), false),
        buf.len() == 0 ==> flush_step(buf, batch_size, FlushEvent::Tick) == (buf, None::<Seq<LogEntry>>, false),
        buf.len() > 0 ==> flush_step(buf, batch_size, FlushEvent::Command(TransportCommand::Flush))
            == (Seq::<LogEntry>::empty(), Some(buf), false),
        buf.len() == 0 ==> flush_step(buf, batch_size, FlushEvent::Command(TransportCommand::Flush))
            == (buf, None::<Seq<LogEntry>>, false),
        buf.len() > 0 ==> flush_step(buf, batch_size, FlushEvent::Command(TransportCommand::Shutdown))
            == (Seq::<LogEntry>::empty(), Some(buf), true),
        buf.len() > 0 ==> flush_step(buf, batch_size, FlushEvent::Closed) == (Seq::<LogEntry>::empty(), Some(buf), true),
        buf.len() == 0 ==> flush_step(buf, batch_size, FlushEvent::Closed) == (buf, None::<Seq<LogEntry>>, true),
        buf.len() + 1 >= batch_size ==> flush_step(buf, batch_size, FlushEvent::Command(TransportCommand::Send(e)))
            == (Seq::<LogEntry>::empty(), Some(buf.push(e)), false),
        buf.len() + 1 < batch_size ==> flush_step(buf, batch_size, FlushEvent::Command(TransportCommand::Send(e)))
            == (buf.push(e), None::<Seq<LogEntry>>, false),
{
}

/// Periodic-flush law: an entry sent to a running loop leaves no later than
/// the next timer tick. Whatever the buffer held and whatever the batch size,
/// after the send and the tick the buffer is empty, and the entries shipped by
/// the two steps together are the old buffer followed by the entry.
pub proof fn lemma_sent_entry_leaves_by_next_tick(buf: Seq<LogEntry>, batch_size: nat, e: LogEntry)
    ensures
        ({
            let (b1, s1, stop1) = flush_step(buf, batch_size, FlushEvent::Command(TransportCommand::Send(e)));
            let (b2, s2, stop2) = flush_step(b1, batch_size, FlushEvent::Tick);
            &&& !stop1 && !stop2
            &&& b2.len() == 0
            &&& match (s1, s2) {
                (Some(x), None) => x == buf.push(e),
                (None, Some(y)) => y == buf.push(e),
                _ => false,
            }
        }),
{
}

/// Every batch in the sequence holds at least one and at most `cap` entries.
pub open spec fn batches_within(batches: Seq<Seq<LogEntry>>, cap: nat) -> bool {
    forall|i: int| 0 <= i < batches.len() ==> 0 < #[trigger] batches[i].len() <= cap
}

/// Delivery law of the flush loop. Start from a buffer below the threshold and
/// feed any events: the batches shipped, followed by what is still buffered, are
/// exactly the starting buffer followed by the entries sent, in the order sent:
/// nothing is lost, duplicated or reordered. Every batch holds between one
/// entry and the threshold, the buffer stays below the threshold, and once the
/// loop has stopped nothing is left buffered, so everything sent was shipped.
pub proof fn lemma_run_delivers_in_order(buf: Seq<LogEntry>, batch_size: nat, events: Seq<FlushEvent>)
    requires
        buf.len() < threshold(batch_size),
    ensures
        ({
            let (rest, batches, stopped) = run(buf, batch_size, events);
            &&& batches.flatten() + rest == buf + accepted(buf, batch_size, events)
            &&& batches_within(batches, threshold(batch_size))
            &&& rest.len() < threshold(batch_size)
            &&& stopped ==> rest.len() == 0
            &&& stopped ==> batches.flatten() == buf + accepted(buf, batch_size, events)
        }),
    decreases events.len(),
{
    if events.len() == 0 {
        assert(buf + Seq::<LogEntry>::empty() =~= buf);
        assert(Seq::<Seq<LogEntry>>::empty().flatten() + buf =~= buf);
    } else {
        let prefix = events.drop_last();
        lemma_run_delivers_in_order(buf, batch_size, prefix);
        let (b, batches, stopped) = run(buf, batch_size, prefix);
        let acc = accepted(buf, batch_size, prefix);
        if !stopped {
            let ev = events.last();
            let (b2, shipped, stop) = flush_step(b, batch_size, ev);
            match shipped {
                Some(x) => {
                    batches.lemma_flatten_push(x);
                    assert(b2.len() == 0);
                    match ev {
                        FlushEvent::Command(TransportCommand::Send(e)) => {
                            assert(x == b.push(e));
                            assert(batches.flatten() + x + b2 =~= (batches.flatten() + b).push(e));
                            assert(buf + (acc + enqueued_by(ev)) =~= (buf + acc).push(e));
                        },
                        _ => {
                            assert(x == b);
                            assert(enqueued_by(ev) =~= Seq::<LogEntry>::empty());
                            assert(batches.flatten() + x + b2 =~= batches.flatten() + b);
                            assert(buf + (acc + enqueued_by(ev)) =~= buf + acc);
                        },
                    }
                    assert(batches.push(x).flatten() + b2 == buf + accepted(buf, batch_size, events));
                    assert forall|i: int| 0 <= i < batches.push(x).len() implies 0 < #[trigger] batches.push(x)[i].len() <= threshold(batch_size) by {
                        if i < batches.len() {
                            assert(batches.push(x)[i] == batches[i]);
                        }
                    }
                },
                None => {
                    match ev {
                        FlushEvent::Command(TransportCommand::Send(e)) => {
                            assert(b2 == b.push(e));
                            assert(batches.flatten() + b2 =~= (batches.flatten() + b).push(e));
                            assert(buf + (acc + enqueued_by(ev)) =~= (buf + acc).push(e));
                        },
                        _ => {
                            assert(b2 == b);
                            assert(enqueued_by(ev) =~= Seq::<LogEntry>::empty());
                            assert(buf + (acc + enqueued_by(ev)) =~= buf + acc);
                        },
                    }
                },
            }
            if stop {
                assert(b2.len() == 0);
            }
        }
        let (rest, all, st) = run(buf, batch_size, events);
        if st {
            assert(all.flatten() + rest =~= all.flatten());
        }
    }
}

/// The decision core of the background transport: the buffer of entries not
/// yet shipped, the batch size, and whether the loop has stopped.
pub struct BatchBuffer {
    entries: Vec<LogEntry>,
    batch_size: usize,
    stopped: bool,
}

impl BatchBuffer {
    #[verifier::type_invariant]
    spec fn bounded(self) -> bool {
        &&& self.entries@.len() < threshold(self.batch_size as nat)
        &&& self.stopped ==> self.entries@.len() == 0
    }

    /// The entries buffered and not yet shipped, oldest first.
    pub closed spec fn buffered(self) -> Seq<LogEntry> {
        self.entries@
    }

    /// The configured batch size.
    pub closed spec fn size(self) -> nat {
        self.batch_size as nat
    }

    /// Whether the loop has stopped.
    pub closed spec fn has_stopped(self) -> bool {
        self.stopped
    }

    /// An empty, running buffer with the given batch size.
    pub fn new(batch_size: usize) -> (b: BatchBuffer)
        ensures
            b.buffered() == Seq::<LogEntry>::empty(),
            b.size() == batch_size,
            !b.has_stopped(),
    {
        BatchBuffer { entries: Vec::new(), batch_size, stopped: false }
    }

    /// The configured batch size.
    pub fn batch_size(&self) -> (n: usize)
        ensures
            n == self.size(),
    {
        self.batch_size
    }

    /// Number of entries buffered.
    pub fn len(&self) -> (n: usize)
        ensures
            n == self.buffered().len(),
    {
        self.entries.len()
    }

    /// Whether the loop has stopped.
    pub fn is_stopped(&self) -> (b: bool)
        ensures
            b == self.has_stopped(),
    {
        self.stopped
    }

    /// Take every buffered entry out, leaving the buffer empty.
    fn drain(&mut self) -> (out: Vec<LogEntry>)
        ensures
            out@ == old(self).buffered(),
            final(self).buffered() == Seq::<LogEntry>::empty(),
            final(self).size() == old(self).size(),
            final(self).has_stopped() == old(self).has_stopped(),
    {
        let mut out: Vec<LogEntry> = Vec::new();
        std::mem::swap(&mut out, &mut self.entries);
        out
    }

    /// Process one event of the flush loop: buffer what is sent, and hand out
    /// the batch to ship, as `flush_step` says.
    pub fn step(&mut self, ev: FlushEvent) -> (a: FlushAction)
        requires
            !old(self).has_stopped(),
        ensures
            final(self).size() == old(self).size(),
            final(self).has_stopped() == a.stop,
            final(self).buffered().len() < threshold(final(self).size()),
            a.stop ==> final(self).buffered().len() == 0,
            is_flush_event(ev) ==> {
                &&& !a.stop
                &&& final(self).buffered().len() == 0
                &&& (old(self).buffered().len() > 0 <==> a.batch is Some)
                &&& a.batch matches Some(v) ==> v@ == old(self).buffered()
            },
            is_stop_event(ev) ==> {
                &&& a.stop
                &&& final(self).buffered().len() == 0
                &&& (old(self).buffered().len() > 0 <==> a.batch is Some)
                &&& a.batch matches Some(v) ==> v@ == old(self).buffered()
            },
            ev matches FlushEvent::Command(TransportCommand::Send(e)) ==> {
                &&& !a.stop
                &&& if old(self).buffered().len() + 1 >= old(self).size() {
                    &&& a.batch matches Some(v) && v@ == old(self).buffered().push(e)
                    &&& final(self).buffered().len() == 0
                } else {
                    &&& a.batch is None
                    &&& final(self).buffered() == old(self).buffered().push(e)
                }
            },
            ({
                let (b, shipped, stop) = flush_step(old(self).buffered(), old(self).size(), ev);
                &&& final(self).buffered() == b
                &&& a.stop == stop
                &&& match a.batch {
                    Some(v) => shipped == Some(v@),
                    None => shipped.is_none(),
                }
            }),
    {
        proof {
            use_type_invariant(&*self);
        }
        match ev {
            FlushEvent::Command(TransportCommand::Send(e)) => {
                let mut entries: Vec<LogEntry> = Vec::new();
                std::mem::swap(&mut entries, &mut self.entries);
                entries.push(e);
                if entries.len() >= self.batch_size {
                    FlushAction { batch: Some(entries), stop: false }
                } else {
                    self.entries = entries;
                    FlushAction { batch: None, stop: false }
                }
            },
            FlushEvent::Tick | FlushEvent::Command(TransportCommand::Flush) => {
                self.ship_if_any(false)
            },
            FlushEvent::Command(TransportCommand::Shutdown) | FlushEvent::Closed => {
                self.ship_if_any(true)
            },
        }
    }

    /// Ship the whole buffer if it holds anything; stop if asked.
    fn ship_if_any(&mut self, stop: bool) -> (a: FlushAction)
        requires
            !old(self).has_stopped(),
        ensures
            final(self).size() == old(self).size(),
            final(self).has_stopped() == stop,
            a.stop == stop,
            ({
                let (b, shipped, _) = ship_if_any(old(self).buffered(), stop);
                &&& final(self).buffered() == b
                &&& match a.batch {
                    Some(v) => shipped == Some(v@),
                    None => shipped.is_none(),
                }
            }),
    {
        let entries = self.drain();
        let batch = if entries.len() > 0 {
            Some(entries)
        } else {
            None
        };
        self.stopped = stop;
        FlushAction { batch, stop }
    }
}

} // verus!
