//! Message-envelope dispatch for an actor-style runtime.
//!
//! A sender packs a message, together with an optional one-shot response
//! sender, into an [`Envelope`]. The envelope is an opaque, movable unit of
//! work: the actor's scheduling loop later invokes it against the live actor
//! and its execution context, the bound handler runs at most once, and its
//! result is delivered through the response channel if anyone is still
//! listening.

mod channel;
mod envelope;
mod handler;

pub use self::envelope::{
    dispatch_post, dispatched, invocation_chain, invoke_step, lemma_at_most_once,
    lemma_at_most_once_chain, lemma_fire_and_forget, lemma_spent_stays_spent, Envelope,
    EnvelopeProxy, SyncEnvelopeProxy, ToEnvelope,
};
pub use self::handler::{Actor, Handler, Message};
