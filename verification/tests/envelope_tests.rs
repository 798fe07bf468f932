use envelope::{Actor, Envelope, EnvelopeProxy, Handler, Message, SyncEnvelopeProxy, ToEnvelope};
use futures::channel::oneshot;
use futures::channel::oneshot::Sender;

struct Increment;

impl Message for Increment {
    type Result = u64;
}

struct Counter {
    count: u64,
}

struct TestContext;

impl Actor for Counter {
    type Context = TestContext;
}

impl Handler<Increment> for Counter {
    fn handle(&mut self, _msg: Increment, _ctx: &mut TestContext) -> u64 {
        self.count += 1;
        self.count
    }
}

fn recv_now(rx: &mut oneshot::Receiver<u64>) -> Option<u64> {
    match rx.try_recv() {
        Ok(v) => v,
        Err(_) => None,
    }
}

#[test]
fn scenario_a_dropped_consumer_short_circuits() {
    let mut act = Counter { count: 0 };
    let mut ctx = TestContext;
    let (tx, rx) = oneshot::channel::<u64>();
    let mut env: Envelope<SyncEnvelopeProxy<Counter, Increment>> =
        Envelope::new(Increment, Some(tx));
    drop(rx);
    env.handle(&mut act, &mut ctx);
    assert_eq!(act.count, 0);
}

#[test]
fn scenario_b_live_consumer_receives_result() {
    let mut act = Counter { count: 0 };
    let mut ctx = TestContext;
    let (tx, mut rx) = oneshot::channel::<u64>();
    let mut env: Envelope<SyncEnvelopeProxy<Counter, Increment>> =
        Envelope::new(Increment, Some(tx));
    env.handle(&mut act, &mut ctx);
    assert_eq!(act.count, 1);
    assert_eq!(recv_now(&mut rx), Some(1));
}

#[test]
fn scenario_c_second_invocation_is_a_no_op() {
    let mut act = Counter { count: 0 };
    let mut ctx = TestContext;
    let (tx, mut rx) = oneshot::channel::<u64>();
    let mut env: Envelope<SyncEnvelopeProxy<Counter, Increment>> =
        Envelope::new(Increment, Some(tx));
    env.handle(&mut act, &mut ctx);
    assert_eq!(act.count, 1);
    assert_eq!(recv_now(&mut rx), Some(1));
    env.handle(&mut act, &mut ctx);
    assert_eq!(act.count, 1);
}

#[test]
fn fire_and_forget_runs_handler_exactly_once() {
    let mut act = Counter { count: 0 };
    let mut ctx = TestContext;
    let mut env: Envelope<SyncEnvelopeProxy<Counter, Increment>> = Envelope::new(Increment, None);
    env.handle(&mut act, &mut ctx);
    assert_eq!(act.count, 1);
    env.handle(&mut act, &mut ctx);
    env.handle(&mut act, &mut ctx);
    assert_eq!(act.count, 1);
}

#[test]
fn delivered_value_is_the_handler_result() {
    let mut act = Counter { count: 41 };
    let mut ctx = TestContext;
    let (tx, mut rx) = oneshot::channel::<u64>();
    let mut env: Envelope<SyncEnvelopeProxy<Counter, Increment>> =
        Envelope::new(Increment, Some(tx));
    env.handle(&mut act, &mut ctx);
    assert_eq!(act.count, 42);
    assert_eq!(recv_now(&mut rx), Some(42));
}

#[test]
fn dispatch_skips_everything_when_cancellation_was_observed() {
    let mut act = Counter { count: 0 };
    let mut ctx = TestContext;
    let mut unit: SyncEnvelopeProxy<Counter, Increment> = SyncEnvelopeProxy::new(Increment, None);
    unit.dispatch(true, None, &mut act, &mut ctx);
    assert_eq!(act.count, 0);
    unit.dispatch(false, None, &mut act, &mut ctx);
    assert_eq!(act.count, 1);
}

#[test]
fn dispatch_delivers_through_the_given_sender_when_live() {
    let mut act = Counter { count: 0 };
    let mut ctx = TestContext;
    let (tx, mut rx) = oneshot::channel::<u64>();
    let mut unit: SyncEnvelopeProxy<Counter, Increment> = SyncEnvelopeProxy::new(Increment, None);
    unit.dispatch(false, Some(tx), &mut act, &mut ctx);
    assert_eq!(act.count, 1);
    assert_eq!(recv_now(&mut rx), Some(1));
}

struct ResetSignal;

impl EnvelopeProxy for ResetSignal {
    type Actor = Counter;

    fn handle(&mut self, act: &mut Counter, _ctx: &mut TestContext) {
        act.count = 0;
    }
}

#[test]
fn with_proxy_carries_a_custom_dispatch_unit() {
    let mut act = Counter { count: 7 };
    let mut ctx = TestContext;
    let mut env: Envelope<ResetSignal> = Envelope::with_proxy(ResetSignal);
    env.handle(&mut act, &mut ctx);
    assert_eq!(act.count, 0);
}

impl ToEnvelope<Counter, Increment> for TestContext {
    type Proxy = SyncEnvelopeProxy<Counter, Increment>;

    fn pack(msg: Increment, tx: Option<Sender<u64>>) -> Envelope<Self::Proxy> {
        Envelope::new(msg, tx)
    }
}

#[test]
fn pack_builds_an_envelope_ready_to_invoke() {
    let mut act = Counter { count: 0 };
    let mut ctx = TestContext;
    let (tx, mut rx) = oneshot::channel::<u64>();
    let mut env = <TestContext as ToEnvelope<Counter, Increment>>::pack(Increment, Some(tx));
    env.handle(&mut act, &mut ctx);
    assert_eq!(act.count, 1);
    assert_eq!(recv_now(&mut rx), Some(1));
}

fn sending_side(n: u64) -> Vec<Envelope<SyncEnvelopeProxy<Counter, Increment>>> {
    let mut mailbox = Vec::new();
    for _ in 0..n {
        mailbox.push(Envelope::new(Increment, None));
    }
    mailbox
}

#[test]
fn transfer_of_custody_many_envelopes_one_invocation_each() {
    // Envelopes are built by one logical owner and handed over whole; the
    // consuming owner invokes each exactly once.
    let mut act = Counter { count: 0 };
    let mut ctx = TestContext;
    let mailbox = sending_side(100);
    for mut env in mailbox {
        env.handle(&mut act, &mut ctx);
    }
    assert_eq!(act.count, 100);
}

#[test]
fn cancelled_then_reinvoked_delivers_without_a_sender() {
    // After a short-circuited invocation the message is still held, but the
    // sender is gone: a later invocation runs the handler fire-and-forget.
    let mut act = Counter { count: 0 };
    let mut ctx = TestContext;
    let (tx, rx) = oneshot::channel::<u64>();
    let mut env: Envelope<SyncEnvelopeProxy<Counter, Increment>> =
        Envelope::new(Increment, Some(tx));
    drop(rx);
    env.handle(&mut act, &mut ctx);
    assert_eq!(act.count, 0);
    env.handle(&mut act, &mut ctx);
    assert_eq!(act.count, 1);
}
