use futures_forward::{Action, Event, Forward, SinkPoll, SourcePoll, Stage};
use std::collections::VecDeque;

/// A consumer that records what it is asked to do. `ready` and `close_ready`
/// script its answers; when a script runs out it answers ready.
#[derive(Debug, Default)]
struct Recorder {
    sent: Vec<u32>,
    ready_checks: u32,
    flushes: u32,
    closes: u32,
    close_polls: u32,
    ready: VecDeque<bool>,
    close_ready: VecDeque<bool>,
    fail_flush: bool,
    fail_send: bool,
    fail_ready: bool,
}

/// A source that hands out its script, then reports exhaustion for ever.
struct Source {
    script: VecDeque<SourcePoll<u32, &'static str>>,
    polls: u32,
}

impl Source {
    fn new(script: Vec<SourcePoll<u32, &'static str>>) -> Source {
        Source { script: script.into_iter().collect(), polls: 0 }
    }

    fn items(items: &[u32]) -> Source {
        Source::new(items.iter().map(|&i| SourcePoll::Item(i)).collect())
    }

    fn poll_next(&mut self) -> SourcePoll<u32, &'static str> {
        self.polls += 1;
        self.script.pop_front().unwrap_or(SourcePoll::Exhausted)
    }
}

/// One step of the engine, as a scheduler's poll: performs each action on
/// the source and the consumer until the step ends.
fn step(
    engine: &mut Forward<Recorder, u32>,
    source: &mut Source,
) -> Action<Recorder, u32, &'static str> {
    let mut ev: Event<u32, &'static str> = Event::Poll;
    loop {
        assert!(engine.accepts(&ev));
        match engine.resume(ev) {
            Action::PollReady => {
                let c = engine.consumer_mut();
                c.ready_checks += 1;
                ev = if c.fail_ready {
                    Event::Ready(SinkPoll::Failed("ready"))
                } else if c.ready.pop_front().unwrap_or(true) {
                    Event::Ready(SinkPoll::Ready)
                } else {
                    Event::Ready(SinkPoll::Pending)
                };
            }
            Action::StartSend(item) => {
                let c = engine.consumer_mut();
                if c.fail_send {
                    ev = Event::Sent(Err("send"));
                } else {
                    c.sent.push(item);
                    ev = Event::Sent(Ok(()));
                }
            }
            Action::PollNext => ev = Event::Next(source.poll_next()),
            Action::PollFlush => {
                let c = engine.consumer_mut();
                c.flushes += 1;
                ev = if c.fail_flush {
                    Event::Flushed(SinkPoll::Failed("flush"))
                } else {
                    Event::Flushed(SinkPoll::Ready)
                };
            }
            Action::PollClose => {
                let c = engine.consumer_mut();
                c.close_polls += 1;
                ev = if c.close_ready.pop_front().unwrap_or(true) {
                    c.closes += 1;
                    Event::Closed(SinkPoll::Ready)
                } else {
                    Event::Closed(SinkPoll::Pending)
                };
            }
            other => return other,
        }
    }
}

fn expect_complete(a: Action<Recorder, u32, &'static str>) -> Recorder {
    match a {
        Action::Complete(c) => c,
        other => panic!("expected completion, got {:?}", other),
    }
}

#[test]
fn exhaustion_close_returns_consumer() {
    let mut engine = Forward::new(Recorder::default());
    let mut source = Source::items(&[7]);
    let rec = expect_complete(step(&mut engine, &mut source));
    assert_eq!(rec.sent, vec![7]);
    assert_eq!(rec.closes, 1);
    assert_eq!(rec.close_polls, 1);
    assert_eq!(engine.stage(), Stage::Done);
}

#[test]
fn empty_source_closes_at_once() {
    let mut engine = Forward::new(Recorder::default());
    let mut source = Source::items(&[]);
    let rec = expect_complete(step(&mut engine, &mut source));
    assert!(rec.sent.is_empty());
    assert_eq!(rec.closes, 1);
    assert_eq!(rec.ready_checks, 0);
}

#[test]
fn source_error_short_circuits() {
    let mut engine = Forward::new(Recorder::default());
    let mut source = Source::new(vec![
        SourcePoll::Item(1),
        SourcePoll::Item(2),
        SourcePoll::Failed("boom"),
        SourcePoll::Item(3),
    ]);
    match step(&mut engine, &mut source) {
        Action::Fail(e) => assert_eq!(e, "boom"),
        other => panic!("expected failure, got {:?}", other),
    }
    assert_eq!(engine.stage(), Stage::Failed);
    assert_eq!(source.polls, 3);
    let rec = engine.consumer_mut();
    assert_eq!(rec.sent, vec![1, 2]);
    assert_eq!(rec.closes, 0);
    assert_eq!(rec.close_polls, 0);
}

#[test]
fn order_is_preserved_across_steps() {
    let mut engine = Forward::new(Recorder::default());
    let mut source = Source::new(vec![
        SourcePoll::Item(10),
        SourcePoll::Pending,
        SourcePoll::Item(20),
        SourcePoll::Item(30),
        SourcePoll::Pending,
        SourcePoll::Item(40),
        SourcePoll::Item(50),
    ]);
    engine.consumer_mut().ready = vec![true, false, true, true, false, true].into_iter().collect();
    let mut steps = 0;
    let rec = loop {
        steps += 1;
        match step(&mut engine, &mut source) {
            Action::Yield => continue,
            other => break expect_complete(other),
        }
    };
    assert_eq!(rec.sent, vec![10, 20, 30, 40, 50]);
    assert_eq!(rec.closes, 1);
    assert_eq!(steps, 5);
}

#[test]
fn consumer_never_ready_pulls_one_item() {
    let mut engine = Forward::new(Recorder::default());
    let mut source = Source::items(&[1, 2, 3, 4, 5]);
    engine.consumer_mut().ready = std::iter::repeat(false).take(100).collect();
    for _ in 0..10 {
        assert!(matches!(step(&mut engine, &mut source), Action::Yield));
    }
    assert_eq!(source.polls, 1);
    let rec = engine.consumer_mut();
    assert!(rec.sent.is_empty());
    assert_eq!(rec.ready_checks, 10);
}

#[test]
fn at_most_one_item_pending_between_steps() {
    let mut engine = Forward::new(Recorder::default());
    let items: Vec<u32> = (0..20).collect();
    let mut source = Source::items(&items);
    engine.consumer_mut().ready = (0..60).map(|i| i % 3 == 0).collect();
    loop {
        let a = step(&mut engine, &mut source);
        let pulled = source.polls.min(items.len() as u32) as usize;
        if let Action::Complete(rec) = a {
            assert_eq!(rec.sent, items);
            break;
        }
        let sent = engine.consumer_mut().sent.len();
        assert!(pulled <= sent + 1);
    }
}

#[test]
fn no_event_accepted_after_completion() {
    let mut engine = Forward::new(Recorder::default());
    let mut source = Source::items(&[]);
    expect_complete(step(&mut engine, &mut source));
    assert!(!engine.accepts(&Event::<u32, &str>::Poll));
    assert!(!engine.accepts(&Event::<u32, &str>::Ready(SinkPoll::Ready)));
    assert!(!engine.accepts(&Event::<u32, &str>::Sent(Ok(()))));
    assert!(!engine.accepts(&Event::<u32, &str>::Next(SourcePoll::Item(1))));
    assert!(!engine.accepts(&Event::<u32, &str>::Flushed(SinkPoll::Ready)));
    assert!(!engine.accepts(&Event::<u32, &str>::Closed(SinkPoll::Ready)));
}

#[test]
fn no_event_accepted_after_failure() {
    let mut engine = Forward::new(Recorder::default());
    let mut source = Source::new(vec![SourcePoll::Failed("boom")]);
    assert!(matches!(step(&mut engine, &mut source), Action::Fail("boom")));
    assert!(!engine.accepts(&Event::<u32, &str>::Poll));
}

#[test]
fn pending_close_asks_source_again() {
    let mut engine = Forward::new(Recorder::default());
    let mut source = Source::items(&[3]);
    engine.consumer_mut().close_ready = vec![false, false].into_iter().collect();
    assert!(matches!(step(&mut engine, &mut source), Action::Yield));
    assert_eq!(engine.stage(), Stage::Idle);
    assert_eq!(source.polls, 2);
    assert!(matches!(step(&mut engine, &mut source), Action::Yield));
    assert_eq!(source.polls, 3);
    let rec = expect_complete(step(&mut engine, &mut source));
    assert_eq!(source.polls, 4);
    assert_eq!(rec.close_polls, 3);
    assert_eq!(rec.closes, 1);
    assert_eq!(rec.sent, vec![3]);
}

#[test]
fn source_pending_flushes_consumer() {
    let mut engine = Forward::new(Recorder::default());
    let mut source = Source::new(vec![SourcePoll::Item(1), SourcePoll::Pending]);
    assert!(matches!(step(&mut engine, &mut source), Action::Yield));
    assert_eq!(engine.stage(), Stage::Idle);
    let rec = engine.consumer_mut();
    assert_eq!(rec.sent, vec![1]);
    assert_eq!(rec.flushes, 1);
}

#[test]
fn flush_error_fails() {
    let mut engine = Forward::new(Recorder::default());
    engine.consumer_mut().fail_flush = true;
    let mut source = Source::new(vec![SourcePoll::Pending]);
    assert!(matches!(step(&mut engine, &mut source), Action::Fail("flush")));
}

#[test]
fn ready_error_fails() {
    let mut engine = Forward::new(Recorder::default());
    engine.consumer_mut().fail_ready = true;
    let mut source = Source::items(&[1]);
    assert!(matches!(step(&mut engine, &mut source), Action::Fail("ready")));
    assert!(!engine.has_buffered());
    let rec = engine.consumer_mut();
    assert!(rec.sent.is_empty());
    assert_eq!(rec.closes, 0);
}

#[test]
fn send_error_fails() {
    let mut engine = Forward::new(Recorder::default());
    engine.consumer_mut().fail_send = true;
    let mut source = Source::items(&[1, 2]);
    assert!(matches!(step(&mut engine, &mut source), Action::Fail("send")));
    assert_eq!(source.polls, 1);
}

#[test]
fn consumer_not_ready_for_fresh_item_flushes() {
    let mut engine = Forward::new(Recorder::default());
    engine.consumer_mut().ready = vec![false].into_iter().collect();
    let mut source = Source::items(&[9]);
    assert!(matches!(step(&mut engine, &mut source), Action::Yield));
    assert_eq!(engine.consumer_mut().flushes, 1);
    let rec = expect_complete(step(&mut engine, &mut source));
    assert_eq!(rec.sent, vec![9]);
    assert_eq!(rec.flushes, 1);
}

#[test]
fn buffered_item_is_drained_before_source() {
    let mut engine = Forward::new(Recorder::default());
    engine.consumer_mut().ready = vec![false, false].into_iter().collect();
    let mut source = Source::items(&[4, 5]);
    assert!(matches!(step(&mut engine, &mut source), Action::Yield));
    assert!(engine.has_buffered());
    assert!(matches!(step(&mut engine, &mut source), Action::Yield));
    assert!(engine.has_buffered());
    assert_eq!(source.polls, 1);
    assert_eq!(engine.consumer_mut().flushes, 1);
    let rec = expect_complete(step(&mut engine, &mut source));
    assert_eq!(rec.sent, vec![4, 5]);
}
