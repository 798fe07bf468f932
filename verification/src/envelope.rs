use core::marker::PhantomData;
use futures::channel::oneshot::Sender;
use vstd::prelude::*;

use crate::handler::{Actor, Handler, Message};

verus! {

/// Converter capability: packs a message, together with an optional response
/// sender, into an [`Envelope`]. One implementation exists per
/// execution-context flavor, so that different context kinds can choose
/// different dispatch units while exposing the same envelope type to senders.
pub trait ToEnvelope<A, M> where A: Actor + Handler<M>, M: Message + Send {
    /// The dispatch unit this context flavor packs messages into.
    type Proxy: EnvelopeProxy<Actor = A>;

    /// Pack message into suitable envelope. The envelope comes back ready
    /// for its one invocation: it still holds a message.
    fn pack(msg: M, tx: Option<Sender<M::Result>>) -> (e: Envelope<Self::Proxy>)
        ensures
            e.proxy().pending(),
    ;
}

/// Dispatch capability: the single operation the scheduling loop needs from
/// one already-dequeued unit of work — invoke it against the live actor and
/// the actor's execution context.
pub trait EnvelopeProxy: Sized {
    type Actor: Actor;

    /// Whether this unit still holds a message to dispatch. A freshly built
    /// unit is pending; after a delivering invocation it no longer is. The
    /// default says every unit is forever pending, which promises nothing;
    /// a message-bound unit refines it.
    open spec fn pending(self) -> bool {
        true
    }

    /// The transitions one invocation of this unit may make on the unit
    /// itself, the actor and the context. An implementation refines this
    /// relation and proves `handle` against it; the default allows every
    /// transition, promising nothing.
    open spec fn step(
        pre: Self,
        pre_act: Self::Actor,
        pre_ctx: <Self::Actor as Actor>::Context,
        post: Self,
        post_act: Self::Actor,
        post_ctx: <Self::Actor as Actor>::Context,
    ) -> bool {
        true
    }

    /// Handle the held message within the given actor and context. Besides
    /// its own `step` relation, every unit owes two things: it never becomes
    /// pending again, and invoking one whose message is already gone changes
    /// nothing — a second invocation is a safe no-op, never an error.
    fn handle(
        &mut self,
        act: &mut Self::Actor,
        ctx: &mut <Self::Actor as Actor>::Context,
    )
        ensures
            Self::step(*old(self), *old(act), *old(ctx), *final(self), *final(act), *final(ctx)),
            final(self).pending() ==> old(self).pending(),
            !old(self).pending() ==> !final(self).pending() && *final(act) == *old(act)
                && *final(ctx) == *old(ctx),
    ;
}

/// An opaque, movable carrier of one pending message destined for one actor,
/// consumed by at most one delivering invocation.
///
/// The envelope is built on the sending side, moved into the actor's mailbox,
/// and later invoked by the mailbox's single consumer; it owns exactly one
/// dispatch unit and adds nothing of its own: invoking the envelope is
/// invoking that unit.
///
/// The envelope is generic in its dispatch unit. Verus's `dyn` support does
/// not yet reach a trait object of a trait with an associated type or a type
/// parameter, so the unit's type stands where a boxed capability object
/// otherwise would, and a mailbox is uniform per unit type rather than per
/// actor.
///
/// Crossing from the sending side to the invoking side is a transfer of
/// custody, not sharing: the envelope is moved by value, `handle` needs
/// `&mut`, and nothing here is internally shared, so exclusive access is
/// what Rust's ownership rules already enforce. The runtime around this
/// crate must still route every envelope for one actor through that actor's
/// single consumer, so that invocations never overlap with each other or
/// with the actor's own state access.
pub struct Envelope<P: EnvelopeProxy>(P);

impl<P: EnvelopeProxy> Envelope<P> {
    /// The dispatch unit this envelope carries.
    pub closed spec fn proxy(self) -> P {
        self.0
    }

    /// Wrap an already-built dispatch unit, so that other layers can supply
    /// composed or custom dispatch behavior behind the same envelope type.
    pub fn with_proxy(proxy: P) -> (e: Envelope<P>)
        ensures
            e.proxy() == proxy,
    {
        Envelope(proxy)
    }
}

impl<A, M> Envelope<SyncEnvelopeProxy<A, M>> where
    A: Actor + Handler<M>,
    M: Message + Send,
    M::Result: Send,
 {
    /// Build an envelope around a fresh message-bound dispatch unit holding
    /// `msg` and, optionally, the sending half `tx` of the response channel.
    pub fn new(msg: M, tx: Option<Sender<M::Result>>) -> (e: Self)
        ensures
            e.proxy().message() == Some(msg),
            e.proxy().sender() == tx,
    {
        Envelope(SyncEnvelopeProxy::new(msg, tx))
    }
}

impl<P: EnvelopeProxy> EnvelopeProxy for Envelope<P> {
    type Actor = P::Actor;

    open spec fn pending(self) -> bool {
        self.proxy().pending()
    }

    open spec fn step(
        pre: Self,
        pre_act: P::Actor,
        pre_ctx: <P::Actor as Actor>::Context,
        post: Self,
        post_act: P::Actor,
        post_ctx: <P::Actor as Actor>::Context,
    ) -> bool {
        P::step(pre.proxy(), pre_act, pre_ctx, post.proxy(), post_act, post_ctx)
    }

    fn handle(
        &mut self,
        act: &mut P::Actor,
        ctx: &mut <P::Actor as Actor>::Context,
    ) {
        self.0.handle(act, ctx)
    }
}

/// The message-bound dispatch unit: binds one actor type and one message
/// type, and owns the message together with the optional response sender
/// until its one delivering invocation takes them.
pub struct SyncEnvelopeProxy<A, M> where M: Message + Send {
    act: PhantomData<A>,
    msg: Option<M>,
    tx: Option<Sender<M::Result>>,
}

impl<A, M> SyncEnvelopeProxy<A, M> where M: Message + Send {
    /// The message slot: full until the first delivering invocation.
    pub closed spec fn message(self) -> Option<M> {
        self.msg
    }

    /// The response-sender slot: full until the first invocation takes it.
    pub closed spec fn sender(self) -> Option<Sender<M::Result>> {
        self.tx
    }

    /// A fresh unit holding `msg` and, optionally, the sending half `tx` of
    /// the response channel.
    pub fn new(msg: M, tx: Option<Sender<M::Result>>) -> (p: Self)
        ensures
            p.message() == Some(msg),
            p.sender() == tx,
    {
        SyncEnvelopeProxy { act: PhantomData, msg: Some(msg), tx }
    }
}

/// What finishing one invocation does to the message slot, the actor and the
/// context, given the cancellation observation made on the taken sender:
/// - a cancelled invocation stops short — the handler does not run, the
///   message stays put for a later owner of the envelope;
/// - with no message left, nothing runs and nothing changes;
/// - otherwise the message is taken and exactly one handler step relates
///   the old actor and context to the new ones; the executable path hands
///   the step's result to the sender, if one was taken, which the one-shot
///   channel then carries to the consumer.
pub open spec fn dispatch_post<A, M>(
    cancelled: bool,
    pre: SyncEnvelopeProxy<A, M>,
    pre_act: A,
    pre_ctx: A::Context,
    post: SyncEnvelopeProxy<A, M>,
    post_act: A,
    post_ctx: A::Context,
) -> bool where A: Actor + Handler<M>, M: Message + Send {
    if cancelled {
        post.message() == pre.message() && post_act == pre_act && post_ctx == pre_ctx
    } else if pre.message() is None {
        post.message() is None && post_act == pre_act && post_ctx == pre_ctx
    } else {
        post.message() is None && exists|r: M::Result|
            A::handled(pre_act, pre_ctx, pre.message()->0, post_act, post_ctx, r)
    }
}

/// Everything one invocation of a message-bound dispatch unit may do: the
/// sender slot is consumed, and the rest is [`dispatch_post`] — for the
/// cancelled observation only when a sender was there to observe it.
pub open spec fn invoke_step<A, M>(
    pre: SyncEnvelopeProxy<A, M>,
    pre_act: A,
    pre_ctx: A::Context,
    post: SyncEnvelopeProxy<A, M>,
    post_act: A,
    post_ctx: A::Context,
) -> bool where A: Actor + Handler<M>, M: Message + Send {
    post.sender() is None && ((pre.sender() is Some && dispatch_post(
        true,
        pre,
        pre_act,
        pre_ctx,
        post,
        post_act,
        post_ctx,
    )) || dispatch_post(false, pre, pre_act, pre_ctx, post, post_act, post_ctx))
}

impl<A, M> SyncEnvelopeProxy<A, M> where
    A: Actor + Handler<M>,
    M: Message + Send,
    M::Result: Send,
 {
    /// Finish one invocation after the sender slot has been taken and its
    /// cancellation query answered: skip everything when the consumer was
    /// observed gone, otherwise take the message, run the handler once and
    /// deliver its result through `tx`, if a sender was taken.
    ///
    /// Unlike `handle`, which cannot say which answer the cancellation query
    /// gave, this states the outcome exactly for each value of `cancelled`.
    pub fn dispatch(
        &mut self,
        cancelled: bool,
        tx: Option<Sender<M::Result>>,
        act: &mut A,
        ctx: &mut A::Context,
    )
        ensures
            final(self).sender() == old(self).sender(),
            dispatch_post(
                cancelled,
                *old(self),
                *old(act),
                *old(ctx),
                *final(self),
                *final(act),
                *final(ctx),
            ),
    {
        if cancelled {
            return ;
        }
        if let Some(msg) = self.msg.take() {
            let result = <A as Handler<M>>::handle(act, msg, ctx);
            if let Some(sender) = tx {
                let _ = sender.send(result);
            }
        }
    }
}

impl<A, M> EnvelopeProxy for SyncEnvelopeProxy<A, M> where
    A: Actor + Handler<M>,
    M: Message + Send,
    M::Result: Send,
 {
    type Actor = A;

    open spec fn pending(self) -> bool {
        self.message() is Some
    }

    open spec fn step(
        pre: Self,
        pre_act: A,
        pre_ctx: A::Context,
        post: Self,
        post_act: A,
        post_ctx: A::Context,
    ) -> bool {
        invoke_step(pre, pre_act, pre_ctx, post, post_act, post_ctx)
    }

    /// Take the sender, ask it once whether the consumer is gone, and finish
    /// through [`SyncEnvelopeProxy::dispatch`].
    fn handle(&mut self, act: &mut A, ctx: &mut A::Context) {
        let tx = self.tx.take();
        let cancelled = match &tx {
            Some(sender) => sender.is_canceled(),
            None => false,
        };
        self.dispatch(cancelled, tx, act, ctx);
    }
}

/// Whether an invocation taking a unit from `pre` to `post` delivered its
/// message — took it out of the slot and ran the handler on it.
pub open spec fn dispatched<A, M>(
    pre: SyncEnvelopeProxy<A, M>,
    post: SyncEnvelopeProxy<A, M>,
) -> bool where M: Message + Send {
    pre.message() is Some && post.message() is None
}

/// At-most-once: across two consecutive invocations of one dispatch unit,
/// the message is delivered at most once; once an invocation has delivered
/// it, the unit holds no sender to answer through any more, and the next
/// invocation changes neither the actor nor the context.
pub proof fn lemma_at_most_once<A, M>(
    p0: SyncEnvelopeProxy<A, M>,
    a0: A,
    c0: A::Context,
    p1: SyncEnvelopeProxy<A, M>,
    a1: A,
    c1: A::Context,
    p2: SyncEnvelopeProxy<A, M>,
    a2: A,
    c2: A::Context,
) where A: Actor + Handler<M>, M: Message + Send
    requires
        invoke_step(p0, a0, c0, p1, a1, c1),
        invoke_step(p1, a1, c1, p2, a2, c2),
    ensures
        !(dispatched(p0, p1) && dispatched(p1, p2)),
        p1.sender() is None,
        dispatched(p0, p1) ==> p2.message() is None && a2 == a1 && c2 == c1,
{
}

/// Fire-and-forget: a pending unit that holds no response sender delivers on
/// its first invocation — the handler runs, relating the old actor and
/// context to the new ones — and there is no sender to deliver through,
/// before the invocation or after it.
pub proof fn lemma_fire_and_forget<A, M>(
    p0: SyncEnvelopeProxy<A, M>,
    a0: A,
    c0: A::Context,
    p1: SyncEnvelopeProxy<A, M>,
    a1: A,
    c1: A::Context,
) where A: Actor + Handler<M>, M: Message + Send
    requires
        invoke_step(p0, a0, c0, p1, a1, c1),
        p0.message() is Some,
        p0.sender() is None,
    ensures
        dispatched(p0, p1),
        p1.sender() is None,
        exists|r: M::Result| A::handled(a0, c0, p0.message()->0, a1, c1, r),
{
}

/// A run of sequential invocations of one dispatch unit: element `i` of
/// each sequence is the state just before invocation `i`, and the last
/// element the state after the final invocation.
pub open spec fn invocation_chain<A, M>(
    units: Seq<SyncEnvelopeProxy<A, M>>,
    actors: Seq<A>,
    contexts: Seq<A::Context>,
) -> bool where A: Actor + Handler<M>, M: Message + Send {
    &&& units.len() == actors.len()
    &&& units.len() == contexts.len()
    &&& forall|i: int|
        0 <= i < units.len() - 1 ==> #[trigger] invoke_step(
            units[i],
            actors[i],
            contexts[i],
            units[i + 1],
            actors[i + 1],
            contexts[i + 1],
        )
}

/// Once the message slot is empty it stays empty through any further
/// invocations of the run, and neither the actor nor the context moves
/// again.
pub proof fn lemma_spent_stays_spent<A, M>(
    units: Seq<SyncEnvelopeProxy<A, M>>,
    actors: Seq<A>,
    contexts: Seq<A::Context>,
    i: int,
    j: int,
) where A: Actor + Handler<M>, M: Message + Send
    requires
        invocation_chain(units, actors, contexts),
        0 <= i <= j < units.len(),
        units[i].message() is None,
    ensures
        units[j].message() is None,
        actors[j] == actors[i],
        contexts[j] == contexts[i],
    decreases j - i,
{
    if i < j {
        lemma_spent_stays_spent(units, actors, contexts, i, j - 1);
        let k: int = j - 1;
        assert(invoke_step(
            units[k],
            actors[k],
            contexts[k],
            units[k + 1],
            actors[k + 1],
            contexts[k + 1],
        ));
    }
}

/// At-most-once over a whole run: however many times one dispatch unit is
/// invoked in sequence, at most one invocation delivers the message. Every
/// invocation after the delivering one — `i` delivers, `j` is any later one
/// — delivers nothing, leaves the actor and the context exactly as it found
/// them, and holds no sender through which anything could still be sent.
pub proof fn lemma_at_most_once_chain<A, M>(
    units: Seq<SyncEnvelopeProxy<A, M>>,
    actors: Seq<A>,
    contexts: Seq<A::Context>,
    i: int,
    j: int,
) where A: Actor + Handler<M>, M: Message + Send
    requires
        invocation_chain(units, actors, contexts),
        0 <= i < j < units.len() - 1,
        dispatched(units[i], units[i + 1]),
    ensures
        !dispatched(units[j], units[j + 1]),
        actors[j + 1] == actors[j],
        contexts[j + 1] == contexts[j],
        units[j].sender() is None,
{
    lemma_spent_stays_spent(units, actors, contexts, i + 1, j);
    let k: int = j - 1;
    assert(invoke_step(units[k], actors[k], contexts[k], units[k + 1], actors[k + 1], contexts[k + 1]));
    assert(invoke_step(units[j], actors[j], contexts[j], units[j + 1], actors[j + 1], contexts[j + 1]));
}

} // verus!
