//! The bridge from interrupt context to task context, and the interactive
//! shell that consumes it.

use crate::task::{Poll, TaskId};
use crossbeam_queue::ArrayQueue;
use vstd::prelude::*;

verus! {

/// Events the bridge holds at most.
pub const CAPACITY: usize = 100;

#[verifier::external_type_specification]
#[verifier::external_body]
#[verifier::reject_recursive_types(T)]
pub struct ExArrayQueue<T>(ArrayQueue<T>);

/// The events a queue holds, oldest first.
pub uninterp spec fn queue_contents(queue: ArrayQueue<char>) -> Seq<char>;

/// The number of events a queue was made to hold.
pub uninterp spec fn queue_capacity(queue: ArrayQueue<char>) -> nat;

/// `ArrayQueue::new`: an empty queue of the capacity asked for. The call
/// panics on a capacity of zero and on one too large to allocate; only
/// capacities far below that are admitted here.
#[verifier::external_body]
fn queue_new(capacity: usize) -> (queue: ArrayQueue<char>)
    requires
        0 < capacity <= 0xffff,
    ensures
        queue_contents(queue) == Seq::<char>::empty(),
        queue_capacity(queue) == capacity,
{
    ArrayQueue::new(capacity)
}

/// `ArrayQueue::push`: appends the event unless the queue is full, in which
/// case the queue stays as it is and the event comes back as the error.
#[verifier::external_body]
fn queue_push(queue: &mut ArrayQueue<char>, value: char) -> (pushed: Result<(), char>)
    ensures
        pushed is Ok <==> queue_contents(*old(queue)).len() < queue_capacity(*old(queue)),
        pushed is Ok ==> queue_contents(*final(queue)) == queue_contents(*old(queue)).push(value),
        pushed matches Err(v) ==> v == value && queue_contents(*final(queue)) == queue_contents(
            *old(queue),
        ),
        queue_capacity(*final(queue)) == queue_capacity(*old(queue)),
{
    queue.push(value)
}

/// `ArrayQueue::pop`: removes and returns the oldest event, or returns
/// `None` and changes nothing if there is none.
#[verifier::external_body]
fn queue_pop(queue: &mut ArrayQueue<char>) -> (value: Option<char>)
    ensures
        value is Some <==> queue_contents(*old(queue)).len() > 0,
        value matches Some(v) ==> v == queue_contents(*old(queue))[0] && queue_contents(
            *final(queue),
        ) == queue_contents(*old(queue)).drop_first(),
        value is None ==> queue_contents(*final(queue)) == queue_contents(*old(queue)),
        queue_capacity(*final(queue)) == queue_capacity(*old(queue)),
{
    queue.pop()
}

/// `ArrayQueue::len`: the number of events held.
#[verifier::external_body]
fn queue_len(queue: &ArrayQueue<char>) -> (len: usize)
    ensures
        len == queue_contents(*queue).len(),
{
    queue.len()
}

/// What a bridge is, seen from outside.
pub struct BridgeView {
    /// The queued events, oldest first; `None` until a consumer has set the
    /// queue up.
    pub queue: Option<Seq<char>>,
    /// The task to wake on the next successful push.
    pub waker: Option<TaskId>,
    /// Events refused because the queue was full.
    pub dropped: nat,
}

/// What became of an event offered to the bridge.
#[derive(Debug, Clone, Copy, PartialEq, Eq, Structural)]
pub enum Delivery {
    /// The event is queued. `wake` is the task that had registered for it,
    /// if one had; the caller marks it ready.
    Queued { wake: Option<TaskId> },
    /// The queue was full; the event is lost and the loss counted.
    Dropped,
    /// No consumer has set the queue up yet; the event is lost.
    Uninitialized,
}

/// The bridge after `c` was offered to it, and what became of `c`.
pub open spec fn pushed(bridge: BridgeView, c: char) -> (BridgeView, Delivery) {
    match bridge.queue {
        None => (bridge, Delivery::Uninitialized),
        Some(queue) => {
            if queue.len() < CAPACITY {
                (
                    BridgeView { queue: Some(queue.push(c)), waker: None, ..bridge },
                    Delivery::Queued { wake: bridge.waker },
                )
            } else {
                (
                    BridgeView {
                        dropped: if bridge.dropped < u64::MAX {
                            bridge.dropped + 1
                        } else {
                            bridge.dropped
                        },
                        ..bridge
                    },
                    Delivery::Dropped,
                )
            }
        },
    }
}

/// The bridge after its oldest event was taken, and that event.
pub open spec fn popped(bridge: BridgeView) -> (BridgeView, Option<char>) {
    match bridge.queue {
        Some(queue) if queue.len() > 0 => (
            BridgeView { queue: Some(queue.drop_first()), ..bridge },
            Some(queue[0]),
        ),
        _ => (bridge, None),
    }
}

/// The bridge after `waker` registered as the task to wake. An earlier
/// registration is replaced.
pub open spec fn registered(bridge: BridgeView, waker: TaskId) -> BridgeView {
    BridgeView { waker: Some(waker), ..bridge }
}

/// The bridge after the registration was withdrawn.
pub open spec fn unregistered(bridge: BridgeView) -> BridgeView {
    BridgeView { waker: None, ..bridge }
}

/// The bridge after one whole poll on behalf of `waker`, and the poll's
/// answer: the oldest event if there is one, else `Pending` with `waker`
/// registered.
pub open spec fn polled(bridge: BridgeView, waker: TaskId) -> (BridgeView, Poll<Option<char>>) {
    match popped(bridge).1 {
        Some(c) => (popped(bridge).0, Poll::Ready(Some(c))),
        None => (registered(bridge, waker), Poll::Pending),
    }
}

/// The channel that carries captured events from interrupt context to the
/// one task that consumes them.
pub struct Bridge {
    queue: Option<ArrayQueue<char>>,
    waker: Option<TaskId>,
    dropped: u64,
}

impl View for Bridge {
    type V = BridgeView;

    closed spec fn view(&self) -> BridgeView {
        BridgeView {
            queue: match self.queue {
                Some(queue) => Some(queue_contents(queue)),
                None => None,
            },
            waker: self.waker,
            dropped: self.dropped as nat,
        }
    }
}

impl Bridge {
    #[verifier::type_invariant]
    spec fn well_formed(self) -> bool {
        self.queue matches Some(queue) ==> queue_capacity(queue) == CAPACITY && queue_contents(
            queue,
        ).len() <= CAPACITY
    }

    /// A bridge with no queue, no registered task and nothing dropped.
    pub fn new() -> (bridge: Self)
        ensures
            bridge@ == (BridgeView { queue: None, waker: None, dropped: 0 }),
    {
        Bridge { queue: None, waker: None, dropped: 0 }
    }

    /// Whether a consumer has set the queue up.
    pub fn is_initialized(&self) -> (initialized: bool)
        ensures
            initialized == self@.queue is Some,
    {
        self.queue.is_some()
    }

    /// Number of queued events; zero while there is no queue.
    pub fn len(&self) -> (len: usize)
        ensures
            len <= CAPACITY,
            match self@.queue {
                Some(queue) => len == queue.len(),
                None => len == 0,
            },
    {
        proof {
            use_type_invariant(self);
        }
        match &self.queue {
            Some(queue) => queue_len(queue),
            None => 0,
        }
    }

    /// Number of events refused because the queue was full. The count stops
    /// at the largest value it can hold.
    pub fn dropped(&self) -> (dropped: u64)
        ensures
            dropped == self@.dropped,
    {
        self.dropped
    }

    /// The task that will be woken by the next successful push.
    pub fn waker(&self) -> (waker: Option<TaskId>)
        ensures
            waker == self@.waker,
    {
        self.waker
    }

    /// Takes the oldest event, if there is one. Never waits.
    pub fn pop(&mut self) -> (event: Option<char>)
        ensures
            (final(self)@, event) == popped(old(self)@),
    {
        let Bridge { queue, waker, dropped } = self.dismantle();
        match queue {
            Some(mut queue) => {
                let event = queue_pop(&mut queue);
                *self = Bridge { queue: Some(queue), waker, dropped };
                event
            },
            None => {
                *self = Bridge { queue: None, waker, dropped };
                None
            },
        }
    }

    /// Moves the bridge out of `self`, leaving an empty one behind, so that
    /// its queue can be worked on.
    fn dismantle(&mut self) -> (bridge: Bridge)
        ensures
            bridge == *old(self),
            bridge.well_formed(),
    {
        proof {
            use_type_invariant(&*self);
        }
        let mut bridge = Bridge { queue: None, waker: None, dropped: 0 };
        core::mem::swap(self, &mut bridge);
        bridge
    }

    /// Makes `waker` the task to wake on the next successful push.
    pub fn register(&mut self, waker: TaskId)
        ensures
            final(self)@ == registered(old(self)@, waker),
    {
        proof {
            use_type_invariant(&*self);
        }
        self.waker = Some(waker);
    }

    /// Withdraws the registration and returns it.
    pub fn take(&mut self) -> (waker: Option<TaskId>)
        ensures
            waker == old(self)@.waker,
            final(self)@ == unregistered(old(self)@),
    {
        proof {
            use_type_invariant(&*self);
        }
        let waker = self.waker;
        self.waker = None;
        waker
    }
}

/// Offers an event to the bridge from interrupt context. Never waits and
/// never retries: a full queue drops the event and counts the loss.
pub fn add_char(bridge: &mut Bridge, c: char) -> (delivery: Delivery)
    ensures
        (final(bridge)@, delivery) == pushed(old(bridge)@, c),
{
    let Bridge { queue, waker, dropped } = bridge.dismantle();
    match queue {
        Some(mut queue) => {
            match queue_push(&mut queue, c) {
                Ok(()) => {
                    *bridge = Bridge { queue: Some(queue), waker: None, dropped };
                    Delivery::Queued { wake: waker }
                },
                Err(_) => {
                    let dropped: u64 = if dropped < u64::MAX {
                        dropped + 1
                    } else {
                        dropped
                    };
                    *bridge = Bridge { queue: Some(queue), waker, dropped };
                    Delivery::Dropped
                },
            }
        },
        None => {
            *bridge = Bridge { queue: None, waker, dropped };
            Delivery::Uninitialized
        },
    }
}

/// The bridge after each of `events` was offered to it in turn.
pub open spec fn pushed_all(bridge: BridgeView, events: Seq<char>) -> BridgeView
    decreases events.len(),
{
    if events.len() == 0 {
        bridge
    } else {
        pushed(pushed_all(bridge, events.drop_last()), events.last()).0
    }
}

/// A bridge that holds `queue` keeps the oldest events and drops the rest:
/// after `events` were offered with no pop in between, it holds the first
/// `CAPACITY` of `queue + events`, in order, and has counted one drop for
/// each event beyond them.
pub proof fn lemma_overflow_drops_newest(bridge: BridgeView, queue: Seq<char>, events: Seq<char>)
    requires
        bridge.queue == Some(queue),
        queue.len() <= CAPACITY,
        bridge.dropped + events.len() <= u64::MAX,
    ensures
        queue.len() + events.len() <= CAPACITY ==> pushed_all(bridge, events).queue == Some(
            queue + events,
        ) && pushed_all(bridge, events).dropped == bridge.dropped,
        queue.len() + events.len() > CAPACITY ==> pushed_all(bridge, events).queue == Some(
            (queue + events).take(CAPACITY as int),
        ) && pushed_all(bridge, events).dropped == bridge.dropped + queue.len() + events.len()
            - CAPACITY,
    decreases events.len(),
{
    if events.len() == 0 {
        assert(queue + events =~= queue);
        assert(queue.take(queue.len() as int) =~= queue);
    } else {
        let before = events.drop_last();
        lemma_overflow_drops_newest(bridge, queue, before);
        let mid = pushed_all(bridge, before);
        assert(queue + events =~= (queue + before).push(events.last()));
        if queue.len() + events.len() <= CAPACITY {
        } else if queue.len() + before.len() <= CAPACITY {
            assert((queue + events).take(CAPACITY as int) =~= queue + before);
        } else {
            assert((queue + events).take(CAPACITY as int) =~= (queue + before).take(
                CAPACITY as int,
            ));
        }
    }
}

/// A consumer that found the queue empty and registered is woken by the
/// next event, and its very next poll returns that event.
pub proof fn lemma_wake_then_ready(bridge: BridgeView, consumer: TaskId, c: char)
    requires
        bridge.queue == Some(Seq::<char>::empty()),
    ensures
        polled(bridge, consumer).1 == Poll::<Option<char>>::Pending,
        pushed(polled(bridge, consumer).0, c).1 == (Delivery::Queued { wake: Some(consumer) }),
        polled(pushed(polled(bridge, consumer).0, c).0, consumer).1 == Poll::Ready(Some(c)),
{
    let waiting = polled(bridge, consumer).0;
    assert(waiting.queue == Some(Seq::<char>::empty()));
    let queued = pushed(waiting, c).0;
    assert(queued.queue->0 =~= seq![c]);
}

/// An event that arrives after the consumer found the queue empty and before
/// it registered is not lost: the consumer is not woken for it, but the
/// drain that follows registration finds it.
pub proof fn lemma_no_lost_event(bridge: BridgeView, consumer: TaskId, c: char)
    requires
        bridge.queue == Some(Seq::<char>::empty()),
    ensures
        popped(bridge) == (bridge, None::<char>),
        pushed(bridge, c).1 == (Delivery::Queued { wake: bridge.waker }),
        popped(registered(pushed(bridge, c).0, consumer)).1 == Some(c),
{
    let queued = pushed(bridge, c).0;
    assert(queued.queue->0 =~= seq![c]);
}

/// The events taken by `n` pops in a row, oldest first.
pub open spec fn popped_all(bridge: BridgeView, n: nat) -> Seq<char>
    decreases n,
{
    if n == 0 {
        Seq::empty()
    } else {
        match popped(bridge).1 {
            Some(c) => seq![c] + popped_all(popped(bridge).0, (n - 1) as nat),
            None => Seq::empty(),
        }
    }
}

/// Events leave the bridge in the order in which they entered it: as long as
/// none is dropped, popping as many events as were pushed gives them back,
/// first in, first out.
pub proof fn lemma_order_is_preserved(bridge: BridgeView, events: Seq<char>)
    requires
        bridge.queue == Some(Seq::<char>::empty()),
        events.len() <= CAPACITY,
        bridge.dropped + events.len() <= u64::MAX,
    ensures
        popped_all(pushed_all(bridge, events), events.len()) == events,
{
    lemma_overflow_drops_newest(bridge, Seq::empty(), events);
    assert(Seq::<char>::empty() + events =~= events);
    lemma_pops_drain(pushed_all(bridge, events), events);
}

/// Popping as many events as a bridge holds takes all of them, in order.
proof fn lemma_pops_drain(bridge: BridgeView, queue: Seq<char>)
    requires
        bridge.queue == Some(queue),
    ensures
        popped_all(bridge, queue.len()) == queue,
    decreases queue.len(),
{
    if queue.len() > 0 {
        lemma_pops_drain(popped(bridge).0, queue.drop_first());
        assert(seq![queue[0]] + queue.drop_first() =~= queue);
    }
}

/// The consumer's end of the bridge: an endless sequence of events.
#[derive(Debug)]
pub struct CharStream {
    _private: (),
}

impl CharStream {
    /// Sets the bridge's queue up and returns the consumer's end. There is
    /// one consumer: this may be called once per bridge.
    pub fn new(bridge: &mut Bridge) -> (stream: Self)
        requires
            old(bridge)@.queue is None,
        ensures
            final(bridge)@ == (BridgeView { queue: Some(Seq::empty()), ..old(bridge)@ }),
    {
        let Bridge { queue: _, waker, dropped } = bridge.dismantle();
        *bridge = Bridge { queue: Some(queue_new(CAPACITY)), waker, dropped };
        CharStream { _private: () }
    }

    /// One attempt to take the next event on behalf of the task `cx`.
    ///
    /// The queue is drained first. If it is empty, `cx` is registered as the
    /// task to wake and the queue is drained once more, so that an event that
    /// arrived in between is not left waiting for a wake that has already
    /// happened.
    pub fn poll_next(&mut self, bridge: &mut Bridge, cx: TaskId) -> (next: Poll<Option<char>>)
        requires
            old(bridge)@.queue is Some,
        ensures
            (final(bridge)@, next) == polled(old(bridge)@, cx),
    {
        if let Some(c) = bridge.pop() {
            return Poll::Ready(Some(c));
        }
        bridge.register(cx);
        // With the bridge held exclusively nothing can arrive between the
        // first drain and this one. A caller that lets interrupts in between
        // the steps performs them one by one, with `pop`, `register` and
        // `take`, and there this drain is what closes the gap.
        match bridge.pop() {
            Some(c) => {
                bridge.take();
                Poll::Ready(Some(c))
            },
            None => Poll::Pending,
        }
    }
}

/// The prompt that invites a line.
pub open spec fn prompt() -> Seq<char> {
    ">>>"@
}

/// What the shell prints when a line is complete.
pub open spec fn report(line: Seq<char>) -> Seq<char> {
    "\ninput: "@ + line + "\n>>>"@
}

/// The line buffer after the shell was given `c`, and what it prints.
///
/// A line feed reports the line and starts a new one; a backspace takes the
/// last character back, silently; anything else joins the line and is
/// echoed.
pub open spec fn fed(line: Seq<char>, c: char) -> (Seq<char>, Seq<char>) {
    if c == '\n' {
        (Seq::empty(), report(line))
    } else if c == '\u{8}' {
        (
            if line.len() > 0 {
                line.drop_last()
            } else {
                line
            },
            Seq::empty(),
        )
    } else {
        (line.push(c), seq![c])
    }
}

/// The line buffer after the shell was given each of `events` in turn, and
/// everything it printed meanwhile.
pub open spec fn fed_all(line: Seq<char>, events: Seq<char>) -> (Seq<char>, Seq<char>)
    decreases events.len(),
{
    if events.len() == 0 {
        (line, Seq::empty())
    } else {
        let (before, printed) = fed_all(line, events.drop_last());
        let (after, more) = fed(before, events.last());
        (after, printed + more)
    }
}

/// Whether `c` neither ends a line nor edits it.
pub open spec fn plain(c: char) -> bool {
    c != '\n' && c != '\u{8}'
}

/// The interactive shell: collects characters into a line and reports each
/// finished line.
#[derive(Debug)]
pub struct Shell {
    chars: CharStream,
    string: Vec<char>,
}

impl Shell {
    /// The line typed so far.
    pub closed spec fn line(&self) -> Seq<char> {
        self.string@
    }

    /// The line typed so far.
    pub fn typed(&self) -> (line: &Vec<char>)
        ensures
            line@ == self.line(),
    {
        &self.string
    }

    /// Gives the shell one character and returns what it prints.
    pub fn feed(&mut self, c: char) -> (printed: Vec<char>)
        ensures
            (final(self).line(), printed@) == fed(old(self).line(), c),
    {
        let mut printed: Vec<char> = Vec::new();
        if c == '\n' {
            proof {
                reveal_strlit("\ninput: ");
                reveal_strlit("\n>>>");
            }
            printed.push('\n');
            printed.push('i');
            printed.push('n');
            printed.push('p');
            printed.push('u');
            printed.push('t');
            printed.push(':');
            printed.push(' ');
            let mut i: usize = 0;
            while i < self.string.len()
                invariant
                    0 <= i <= self.string@.len(),
                    printed@ == "\ninput: "@ + self.string@.take(i as int),
                decreases self.string@.len() - i,
            {
                printed.push(self.string[i]);
                assert(self.string@.take(i + 1) =~= self.string@.take(i as int).push(
                    self.string@[i as int],
                ));
                i = i + 1;
            }
            assert(self.string@.take(i as int) =~= self.string@);
            printed.push('\n');
            printed.push('>');
            printed.push('>');
            printed.push('>');
            assert(printed@ =~= report(self.string@));
            self.string.clear();
        } else if c == '\u{8}' {
            self.string.pop();
        } else {
            self.string.push(c);
            printed.push(c);
        }
        printed
    }

    /// Runs the shell until it has to wait: every queued event is taken and
    /// fed to it, oldest first, and the task `cx` is left registered for the
    /// next one. Returns everything printed on the way.
    pub fn poll(&mut self, bridge: &mut Bridge, cx: TaskId) -> (printed: Vec<char>)
        requires
            old(bridge)@.queue is Some,
        ensures
            final(bridge)@ == (BridgeView {
                queue: Some(Seq::empty()),
                waker: Some(cx),
                ..old(bridge)@
            }),
            (final(self).line(), printed@) == fed_all(old(self).line(), old(bridge)@.queue->0),
    {
        let ghost events = bridge@.queue->0;
        let ghost start = self.string@;
        let mut printed: Vec<char> = Vec::new();
        let mut taken: Ghost<int> = Ghost(0);
        assert(events.take(0) =~= Seq::<char>::empty());
        assert(events.skip(0) =~= events);
        loop
            invariant
                0 <= taken@ <= events.len(),
                bridge@.queue == Some(events.skip(taken@)),
                bridge@.dropped == old(bridge)@.dropped,
                (self.string@, printed@) == fed_all(start, events.take(taken@)),
            ensures
                bridge@ == (BridgeView {
                    queue: Some(Seq::empty()),
                    waker: Some(cx),
                    ..old(bridge)@
                }),
                (self.string@, printed@) == fed_all(start, events),
            decreases events.len() - taken@,
        {
            match self.chars.poll_next(bridge, cx) {
                Poll::Ready(Some(c)) => {
                    let mut more = self.feed(c);
                    printed.append(&mut more);
                    proof {
                        let next = taken@ + 1;
                        assert(events.take(next).drop_last() =~= events.take(taken@));
                        assert(events.take(next).last() == c);
                        assert(events.skip(taken@).drop_first() =~= events.skip(next));
                        taken@ = next;
                    }
                },
                _ => {
                    assert(events.take(taken@) =~= events);
                    assert(events.skip(taken@) =~= Seq::<char>::empty());
                    break ;
                },
            }
        }
        printed
    }
}

/// Starts the shell on a bridge that has no consumer yet. Returns the shell
/// and the prompt to print.
pub fn shell(bridge: &mut Bridge) -> (started: (Shell, Vec<char>))
    requires
        old(bridge)@.queue is None,
    ensures
        final(bridge)@ == (BridgeView { queue: Some(Seq::empty()), ..old(bridge)@ }),
        started.0.line() == Seq::<char>::empty(),
        started.1@ == prompt(),
{
    let chars = CharStream::new(bridge);
    let mut printed: Vec<char> = Vec::new();
    proof {
        reveal_strlit(">>>");
    }
    printed.push('>');
    printed.push('>');
    printed.push('>');
    assert(printed@ =~= prompt());
    (Shell { chars, string: Vec::new() }, printed)
}

/// Characters that neither end nor edit a line are collected and echoed as
/// they come.
pub proof fn lemma_plain_text_is_echoed(line: Seq<char>, text: Seq<char>)
    requires
        forall|i: int| 0 <= i < text.len() ==> plain(#[trigger] text[i]),
    ensures
        fed_all(line, text) == (line + text, text),
    decreases text.len(),
{
    if text.len() == 0 {
        assert(line + text =~= line);
    } else {
        lemma_plain_text_is_echoed(line, text.drop_last());
        assert(plain(text[text.len() - 1]));
        assert(line + text =~= (line + text.drop_last()).push(text.last()));
        assert(text =~= text.drop_last() + seq![text.last()]);
    }
}

/// A line of plain text followed by a line feed is echoed, reported once,
/// and followed by a fresh prompt; the line buffer is empty again.
pub proof fn lemma_line_is_reported_once(text: Seq<char>)
    requires
        forall|i: int| 0 <= i < text.len() ==> plain(#[trigger] text[i]),
    ensures
        fed_all(Seq::empty(), text.push('\n')) == (Seq::<char>::empty(), text + report(text)),
{
    let typed = text.push('\n');
    assert(typed.drop_last() =~= text);
    lemma_plain_text_is_echoed(Seq::empty(), text);
    assert(Seq::<char>::empty() + text =~= text);
}

} // verus!
