//! The forwarding engine: a state machine that moves items from a source into
//! a consumer, holding at most one item that the consumer has not yet accepted.
//!
//! One call of the engine's step, as a scheduler sees it, is a run of
//! [`Forward::resume`]: it begins with [`Event::Poll`] and continues, each
//! [`Action`] answered by the matching event, until the action is `Yield`,
//! `Complete` or `Fail`.
use vstd::prelude::*;

verus! {

/// What a consumer operation (`poll_ready`, `start_send`, `poll_flush`,
/// `poll_close`) reported.
#[derive(Debug)]
pub enum SinkPoll<E> {
    Ready,
    Pending,
    Failed(E),
}

/// What the source reported when asked for its next item.
#[derive(Debug)]
pub enum SourcePoll<T, E> {
    Item(T),
    Failed(E),
    Exhausted,
    Pending,
}

/// What the driver reports to the engine.
#[derive(Debug)]
pub enum Event<T, E> {
    /// The scheduler invoked the step.
    Poll,
    /// The answer to `Action::PollReady`.
    Ready(SinkPoll<E>),
    /// The answer to `Action::StartSend`.
    Sent(Result<(), E>),
    /// The answer to `Action::PollNext`.
    Next(SourcePoll<T, E>),
    /// The answer to `Action::PollFlush`.
    Flushed(SinkPoll<E>),
    /// The answer to `Action::PollClose`.
    Closed(SinkPoll<E>),
}

/// What the engine asks the driver to do next.
#[derive(Debug)]
pub enum Action<S, T, E> {
    /// Ask the consumer whether it can accept an item.
    PollReady,
    /// Hand this item to the consumer.
    StartSend(T),
    /// Ask the source for its next item.
    PollNext,
    /// Ask the consumer to flush what it has accepted.
    PollFlush,
    /// Ask the consumer to close.
    PollClose,
    /// End the step: not done yet.
    Yield,
    /// End the step: forwarding is done and the consumer is handed back.
    Complete(S),
    /// End the step: forwarding failed.
    Fail(E),
}

/// Where the engine stands: between steps, or waiting for the answer to the
/// action it asked for.
#[derive(PartialEq, Eq, Structural, Debug, Clone, Copy)]
pub enum Stage {
    /// Between steps, forwarding.
    Idle,
    /// Waiting for `poll_ready` on behalf of the buffered item; `draining`
    /// when the item was buffered by an earlier step.
    AwaitReady { draining: bool },
    /// Waiting for `start_send`.
    AwaitSend,
    /// Waiting for the source.
    AwaitNext,
    /// Waiting for `poll_flush`.
    AwaitFlush,
    /// Waiting for `poll_close`.
    AwaitClose,
    /// The consumer has been closed and handed back.
    Done,
    /// The source or the consumer failed.
    Failed,
}

/// The engine's abstract state.
pub struct ForwardState<T> {
    pub stage: Stage,
    /// The item pulled from the source that the consumer has not yet taken.
    pub buffered: Option<T>,
    /// Every item pulled from the source, in order.
    pub pulled: Seq<T>,
    /// Every item handed to the consumer, in order.
    pub delivered: Seq<T>,
    /// The item, if any, that was discarded when the consumer failed to
    /// say whether it could accept it.
    pub dropped: Seq<T>,
    /// How many times the consumer finished closing.
    pub closes: nat,
}

/// The items held by an optional slot.
pub open spec fn slot_items<T>(slot: Option<T>) -> Seq<T> {
    match slot {
        Some(t) => seq![t],
        None => Seq::empty(),
    }
}

/// The state of a freshly built engine.
pub open spec fn initial<T>() -> ForwardState<T> {
    ForwardState {
        stage: Stage::Idle,
        buffered: None,
        pulled: Seq::empty(),
        delivered: Seq::empty(),
        dropped: Seq::empty(),
        closes: 0,
    }
}

/// The engine stands at a terminal stage.
pub open spec fn is_terminal(stage: Stage) -> bool {
    stage == Stage::Done || stage == Stage::Failed
}

/// The state's invariant.
pub open spec fn inv<T>(s: ForwardState<T>) -> bool {
    &&& s.pulled == s.delivered + s.dropped + slot_items(s.buffered)
    &&& s.dropped.len() + slot_items(s.buffered).len() <= 1
    &&& s.stage != Stage::Failed ==> s.dropped.len() == 0
    &&& s.stage is AwaitReady ==> s.buffered is Some
    &&& (s.stage == Stage::AwaitNext || s.stage == Stage::AwaitSend || s.stage == Stage::AwaitClose
        || s.stage == Stage::Done) ==> s.buffered is None
    &&& s.closes == (if s.stage == Stage::Done { 1nat } else { 0nat })
}

/// The event is the one the engine waits for in this state.
pub open spec fn accepts<T, E>(s: ForwardState<T>, ev: Event<T, E>) -> bool {
    match ev {
        Event::Poll => s.stage == Stage::Idle,
        Event::Ready(_) => s.stage is AwaitReady,
        Event::Sent(_) => s.stage == Stage::AwaitSend,
        Event::Next(_) => s.stage == Stage::AwaitNext,
        Event::Flushed(_) => s.stage == Stage::AwaitFlush,
        Event::Closed(_) => s.stage == Stage::AwaitClose,
    }
}

/// The state with another stage.
pub open spec fn at<T>(s: ForwardState<T>, stage: Stage) -> ForwardState<T> {
    ForwardState { stage, ..s }
}

/// The engine's rule: the next state and the action asked for, when the
/// event `ev` comes in state `s`.
pub open spec fn transition<T, E>(s: ForwardState<T>, ev: Event<T, E>) -> (ForwardState<T>, Action<(), T, E>) {
    match ev {
        Event::Poll => {
            if s.buffered is Some {
                (at(s, Stage::AwaitReady { draining: true }), Action::PollReady)
            } else {
                (at(s, Stage::AwaitNext), Action::PollNext)
            }
        },
        Event::Ready(p) => match p {
            SinkPoll::Ready => {
                let t = s.buffered->0;
                (
                    ForwardState {
                        stage: Stage::AwaitSend,
                        buffered: None,
                        delivered: s.delivered.push(t),
                        ..s
                    },
                    Action::StartSend(t),
                )
            },
            SinkPoll::Pending => {
                if s.stage->draining {
                    (at(s, Stage::Idle), Action::Yield)
                } else {
                    (at(s, Stage::AwaitFlush), Action::PollFlush)
                }
            },
            SinkPoll::Failed(e) => (
                ForwardState {
                    stage: Stage::Failed,
                    buffered: None,
                    dropped: slot_items(s.buffered),
                    ..s
                },
                Action::Fail(e),
            ),
        },
        Event::Sent(r) => match r {
            Ok(()) => (at(s, Stage::AwaitNext), Action::PollNext),
            Err(e) => (at(s, Stage::Failed), Action::Fail(e)),
        },
        Event::Next(p) => match p {
            SourcePoll::Item(t) => (
                ForwardState {
                    stage: Stage::AwaitReady { draining: false },
                    buffered: Some(t),
                    pulled: s.pulled.push(t),
                    ..s
                },
                Action::PollReady,
            ),
            SourcePoll::Failed(e) => (at(s, Stage::Failed), Action::Fail(e)),
            SourcePoll::Exhausted => (at(s, Stage::AwaitClose), Action::PollClose),
            SourcePoll::Pending => (at(s, Stage::AwaitFlush), Action::PollFlush),
        },
        Event::Flushed(p) => match p {
            SinkPoll::Failed(e) => (at(s, Stage::Failed), Action::Fail(e)),
            _ => (at(s, Stage::Idle), Action::Yield),
        },
        Event::Closed(p) => match p {
            SinkPoll::Ready => (
                ForwardState { stage: Stage::Done, closes: s.closes + 1, ..s },
                Action::Complete(()),
            ),
            SinkPoll::Pending => (at(s, Stage::Idle), Action::Yield),
            SinkPoll::Failed(e) => (at(s, Stage::Failed), Action::Fail(e)),
        },
    }
}

/// The state reached from `s` when the events `evs` come in turn.
pub open spec fn run<T, E>(s: ForwardState<T>, evs: Seq<Event<T, E>>) -> ForwardState<T>
    decreases evs.len(),
{
    if evs.len() == 0 {
        s
    } else {
        run(transition(s, evs[0]).0, evs.drop_first())
    }
}

/// Each of the events `evs` is the one the engine waits for when it comes.
pub open spec fn valid_run<T, E>(s: ForwardState<T>, evs: Seq<Event<T, E>>) -> bool
    decreases evs.len(),
{
    evs.len() == 0 || (accepts(s, evs[0]) && valid_run(transition(s, evs[0]).0, evs.drop_first()))
}

/// The items that the source produced among the events `evs`, in order.
pub open spec fn source_items<T, E>(evs: Seq<Event<T, E>>) -> Seq<T>
    decreases evs.len(),
{
    if evs.len() == 0 {
        Seq::empty()
    } else {
        let first = match evs[0] {
            Event::Next(SourcePoll::Item(t)) => seq![t],
            _ => Seq::empty(),
        };
        first + source_items(evs.drop_first())
    }
}

/// The event is the consumer reporting that it can accept an item.
pub open spec fn is_ready_report<T, E>(ev: Event<T, E>) -> bool {
    ev matches Event::Ready(SinkPoll::Ready)
}

/// Every rule of the engine keeps the invariant.
pub proof fn lemma_transition_keeps_inv<T, E>(s: ForwardState<T>, ev: Event<T, E>)
    requires
        inv(s),
        accepts(s, ev),
    ensures
        inv(transition(s, ev).0),
{
    let n = transition(s, ev).0;
    if let Event::Ready(SinkPoll::Ready) = ev {
        assert(n.pulled =~= n.delivered + n.dropped + slot_items(n.buffered));
    }
    if let Event::Ready(SinkPoll::Failed(_)) = ev {
        assert(n.pulled =~= n.delivered + n.dropped + slot_items(n.buffered));
    }
}

/// Along a run: the invariant holds, the items pulled grow by exactly the
/// items the source produced, and nothing is delivered unless the consumer
/// reported that it was ready.
proof fn lemma_run<T, E>(s: ForwardState<T>, evs: Seq<Event<T, E>>)
    requires
        inv(s),
        valid_run(s, evs),
    ensures
        inv(run(s, evs)),
        run(s, evs).pulled == s.pulled + source_items(evs),
        (forall|i: int| 0 <= i < evs.len() ==> !is_ready_report(#[trigger] evs[i]))
            ==> run(s, evs).delivered == s.delivered,
    decreases evs.len(),
{
    if evs.len() == 0 {
        assert(s.pulled + source_items(evs) =~= s.pulled);
    } else {
        let ev = evs[0];
        let rest = evs.drop_first();
        let n = transition(s, ev).0;
        lemma_transition_keeps_inv(s, ev);
        lemma_run(n, rest);
        let first: Seq<T> = match ev {
            Event::Next(SourcePoll::Item(t)) => seq![t],
            _ => Seq::empty(),
        };
        assert(n.pulled =~= s.pulled + first);
        assert(source_items(evs) == first + source_items(rest));
        assert(run(s, evs).pulled =~= s.pulled + source_items(evs));
        if forall|i: int| 0 <= i < evs.len() ==> !is_ready_report(#[trigger] evs[i]) {
            assert(!is_ready_report(evs[0]));
            assert forall|i: int| 0 <= i < rest.len() implies !is_ready_report(#[trigger] rest[i]) by {
                assert(rest[i] == evs[i + 1]);
            }
        }
    }
}

/// Between any two events of a run, every item pulled from the source has
/// been handed to the consumer except at most one: the one held in the
/// buffer, or, once the consumer failed to answer for it, the one dropped.
pub proof fn lemma_at_most_one_pending<T, E>(evs: Seq<Event<T, E>>)
    requires
        valid_run(initial::<T>(), evs),
    ensures
        run(initial::<T>(), evs).pulled == run(initial::<T>(), evs).delivered + run(
            initial::<T>(),
            evs,
        ).dropped + slot_items(run(initial::<T>(), evs).buffered),
        run(initial::<T>(), evs).stage != Stage::Failed ==> run(initial::<T>(), evs).pulled
            == run(initial::<T>(), evs).delivered + slot_items(run(initial::<T>(), evs).buffered),
        run(initial::<T>(), evs).pulled.len() <= run(initial::<T>(), evs).delivered.len() + 1,
{
    lemma_run(initial::<T>(), evs);
    let f = run(initial::<T>(), evs);
    if f.stage != Stage::Failed {
        assert(f.dropped =~= Seq::<T>::empty());
        assert(f.delivered + f.dropped =~= f.delivered);
    }
}

/// When forwarding completes, the consumer has been handed exactly the items
/// the source produced, in the order produced, and has been closed once.
pub proof fn lemma_order_preserved<T, E>(evs: Seq<Event<T, E>>)
    requires
        valid_run(initial::<T>(), evs),
        run(initial::<T>(), evs).stage == Stage::Done,
    ensures
        run(initial::<T>(), evs).delivered == source_items(evs),
        run(initial::<T>(), evs).closes == 1,
{
    lemma_run(initial::<T>(), evs);
    let f = run(initial::<T>(), evs);
    assert(Seq::<T>::empty() + source_items(evs) =~= source_items(evs));
    assert(f.dropped =~= Seq::<T>::empty());
    assert(f.delivered + f.dropped + slot_items(f.buffered) =~= f.delivered);
}

/// While the consumer never reports that it is ready, the engine pulls at
/// most one item from the source.
pub proof fn lemma_backpressure<T, E>(evs: Seq<Event<T, E>>)
    requires
        valid_run(initial::<T>(), evs),
        forall|i: int| 0 <= i < evs.len() ==> !is_ready_report(#[trigger] evs[i]),
    ensures
        run(initial::<T>(), evs).pulled.len() <= 1,
{
    lemma_run(initial::<T>(), evs);
}

/// The engine reaches a terminal stage exactly when it answers `Complete` or
/// `Fail`, and once there it accepts no further event.
pub proof fn lemma_no_double_completion<T, E>(s: ForwardState<T>, ev: Event<T, E>)
    ensures
        is_terminal(s.stage) ==> !accepts(s, ev),
        accepts(s, ev) ==> (is_terminal(transition(s, ev).0.stage) <==> (transition(s, ev).1 is Complete
            || transition(s, ev).1 is Fail)),
{
}

/// An action with the consumer it hands back left out.
pub open spec fn directive<S, T, E>(a: Action<S, T, E>) -> Action<(), T, E> {
    match a {
        Action::PollReady => Action::PollReady,
        Action::StartSend(t) => Action::StartSend(t),
        Action::PollNext => Action::PollNext,
        Action::PollFlush => Action::PollFlush,
        Action::PollClose => Action::PollClose,
        Action::Yield => Action::Yield,
        Action::Complete(_) => Action::Complete(()),
        Action::Fail(e) => Action::Fail(e),
    }
}

/// The engine. It owns the consumer until it hands it back on completion,
/// and at most one item pulled from the source that the consumer has not
/// yet accepted.
pub struct Forward<S, T> {
    consumer: Option<S>,
    buffered_item: Option<T>,
    stage: Stage,
    pulled: Ghost<Seq<T>>,
    delivered: Ghost<Seq<T>>,
    dropped: Ghost<Seq<T>>,
    closes: Ghost<nat>,
}

impl<S, T> View for Forward<S, T> {
    type V = ForwardState<T>;

    closed spec fn view(&self) -> ForwardState<T> {
        ForwardState {
            stage: self.stage,
            buffered: self.buffered_item,
            pulled: self.pulled@,
            delivered: self.delivered@,
            dropped: self.dropped@,
            closes: self.closes@,
        }
    }
}

impl<S, T> Forward<S, T> {
    /// The consumer the engine holds, if it has not handed it back.
    pub closed spec fn consumer(&self) -> Option<S> {
        self.consumer
    }

    /// The engine's state is consistent, and it holds the consumer unless it
    /// is done.
    pub open spec fn wf(&self) -> bool {
        &&& inv(self@)
        &&& (self.consumer() is Some <==> self@.stage != Stage::Done)
    }

    /// An engine that forwards into `consumer`, with nothing pulled yet.
    pub fn new(consumer: S) -> (r: Self)
        ensures
            r.wf(),
            r@ == initial::<T>(),
            r.consumer() == Some(consumer),
    {
        Forward {
            consumer: Some(consumer),
            buffered_item: None,
            stage: Stage::Idle,
            pulled: Ghost(Seq::empty()),
            delivered: Ghost(Seq::empty()),
            dropped: Ghost(Seq::empty()),
            closes: Ghost(0),
        }
    }

    /// The current stage.
    pub fn stage(&self) -> (r: Stage)
        ensures
            r == self@.stage,
    {
        self.stage
    }

    /// Whether an item pulled from the source waits in the buffer.
    pub fn has_buffered(&self) -> (r: bool)
        ensures
            r == self@.buffered is Some,
    {
        self.buffered_item.is_some()
    }

    /// Whether `ev` is the event the engine waits for. Any other event is a
    /// misuse; in particular none is accepted once the engine is done or
    /// failed.
    pub fn accepts<E>(&self, ev: &Event<T, E>) -> (r: bool)
        ensures
            r == accepts(self@, *ev),
    {
        match ev {
            Event::Poll => self.stage == Stage::Idle,
            Event::Ready(_) => match self.stage {
                Stage::AwaitReady { .. } => true,
                _ => false,
            },
            Event::Sent(_) => self.stage == Stage::AwaitSend,
            Event::Next(_) => self.stage == Stage::AwaitNext,
            Event::Flushed(_) => self.stage == Stage::AwaitFlush,
            Event::Closed(_) => self.stage == Stage::AwaitClose,
        }
    }

    /// The consumer, for the driver to perform an action on it.
    pub fn consumer_mut(&mut self) -> (r: &mut S)
        requires
            old(self).wf(),
            old(self)@.stage != Stage::Done,
        ensures
            *r == old(self).consumer()->0,
            final(self)@ == old(self)@,
            final(self).consumer() == Some(*final(r)),
    {
        self.consumer.as_mut().unwrap()
    }

    /// The try-send step: once the consumer has answered `poll_ready` for
    /// the buffered item, hand the item over if it is ready, keep it if not,
    /// and drop it if the consumer failed.
    fn try_start_send<E>(&mut self, p: SinkPoll<E>) -> (r: Action<S, T, E>)
        requires
            old(self).wf(),
            old(self)@.stage is AwaitReady,
        ensures
            final(self).wf(),
            (final(self)@, directive(r)) == transition(old(self)@, Event::<T, E>::Ready(p)),
            final(self).consumer() == old(self).consumer(),
    {
        match p {
            SinkPoll::Ready => {
                let t = self.buffered_item.take().unwrap();
                self.delivered = Ghost(self.delivered@.push(t));
                self.stage = Stage::AwaitSend;
                assert(self.pulled@ =~= self.delivered@ + self.dropped@ + slot_items(self.buffered_item));
                Action::StartSend(t)
            },
            SinkPoll::Pending => {
                let draining = match self.stage {
                    Stage::AwaitReady { draining } => draining,
                    _ => false,
                };
                if draining {
                    self.stage = Stage::Idle;
                    Action::Yield
                } else {
                    self.stage = Stage::AwaitFlush;
                    Action::PollFlush
                }
            },
            SinkPoll::Failed(e) => {
                self.dropped = Ghost(slot_items(self.buffered_item));
                self.buffered_item = None;
                self.stage = Stage::Failed;
                assert(self.pulled@ =~= self.delivered@ + self.dropped@ + slot_items(self.buffered_item));
                Action::Fail(e)
            },
        }
    }

    /// Takes in what happened and says what to do next, following
    /// [`transition`]. On completion the consumer is handed back in
    /// `Action::Complete`, and the engine holds it no more.
    pub fn resume<E>(&mut self, ev: Event<T, E>) -> (r: Action<S, T, E>)
        requires
            old(self).wf(),
            accepts(old(self)@, ev),
        ensures
            final(self).wf(),
            (final(self)@, directive(r)) == transition(old(self)@, ev),
            r is Complete ==> Some(r->Complete_0) == old(self).consumer() && final(self).consumer() is None,
            !(r is Complete) ==> final(self).consumer() == old(self).consumer(),
    {
        match ev {
            Event::Poll => {
                if self.buffered_item.is_some() {
                    self.stage = Stage::AwaitReady { draining: true };
                    Action::PollReady
                } else {
                    self.stage = Stage::AwaitNext;
                    Action::PollNext
                }
            },
            Event::Ready(p) => self.try_start_send(p),
            Event::Sent(res) => match res {
                Ok(()) => {
                    self.stage = Stage::AwaitNext;
                    Action::PollNext
                },
                Err(e) => {
                    self.stage = Stage::Failed;
                    Action::Fail(e)
                },
            },
            Event::Next(p) => match p {
                SourcePoll::Item(t) => {
                    self.pulled = Ghost(self.pulled@.push(t));
                    self.buffered_item = Some(t);
                    self.stage = Stage::AwaitReady { draining: false };
                    Action::PollReady
                },
                SourcePoll::Failed(e) => {
                    self.stage = Stage::Failed;
                    Action::Fail(e)
                },
                SourcePoll::Exhausted => {
                    self.stage = Stage::AwaitClose;
                    Action::PollClose
                },
                SourcePoll::Pending => {
                    self.stage = Stage::AwaitFlush;
                    Action::PollFlush
                },
            },
            Event::Flushed(p) => match p {
                SinkPoll::Failed(e) => {
                    self.stage = Stage::Failed;
                    Action::Fail(e)
                },
                _ => {
                    self.stage = Stage::Idle;
                    Action::Yield
                },
            },
            Event::Closed(p) => match p {
                SinkPoll::Ready => {
                    self.closes = Ghost(self.closes@ + 1);
                    self.stage = Stage::Done;
                    Action::Complete(self.consumer.take().unwrap())
                },
                SinkPoll::Pending => {
                    self.stage = Stage::Idle;
                    Action::Yield
                },
                SinkPoll::Failed(e) => {
                    self.stage = Stage::Failed;
                    Action::Fail(e)
                },
            },
        }
    }
}

} // verus!
