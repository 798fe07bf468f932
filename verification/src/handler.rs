use vstd::prelude::*;

verus! {

/// A message an actor can receive. `Result` is the type of the value the
/// actor's handler produces in reply.
pub trait Message {
    type Result;
}

/// An independent unit of state that processes messages one at a time,
/// within an execution context of the associated type. The context itself
/// (scheduling, suspension) is a collaborator of this crate, not part of it:
/// here it is only the second piece of mutable state a handler may touch.
pub trait Actor: Sized {
    type Context;
}

/// Per-message-type handling logic: given the actor, one message and the
/// actor's execution context, produce a result value.
pub trait Handler<M: Message>: Actor {
    /// The handler's own description of one processing step: which follow-up
    /// actor states, context states and result values handling `msg` may
    /// produce from the given starting point. An implementation refines this
    /// relation and proves `handle` against it; the default allows every
    /// outcome, promising nothing.
    open spec fn handled(
        pre_act: Self,
        pre_ctx: Self::Context,
        msg: M,
        post_act: Self,
        post_ctx: Self::Context,
        result: M::Result,
    ) -> bool {
        true
    }

    /// Process one message, mutating the actor and its context.
    fn handle(&mut self, msg: M, ctx: &mut Self::Context) -> (result: M::Result)
        ensures
            Self::handled(*old(self), *old(ctx), msg, *final(self), *final(ctx), result),
    ;
}

} // verus!
