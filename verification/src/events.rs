//! A typed event bus: handlers register under an event kind and receive a
//! token; triggering an event answers the tokens of the handlers bound to it,
//! in binding order, as a snapshot unaffected by later binds or unbinds.

use vstd::prelude::*;

verus! {

/// The event kinds the core signals.
#[derive(Clone, Copy, PartialEq, Eq, Structural)]
pub enum EventKind {
    /// The process has been asked to shut down.
    AppShutdown,
    /// The background transmission worker reported an unrecoverable failure.
    SyncOutgoingFailure,
}

/// The tokens bound to `kind` among `bindings`, in binding order.
pub open spec fn tokens_for(bindings: Seq<(EventKind, u64)>, kind: EventKind) -> Seq<u64>
    decreases bindings.len(),
{
    if bindings.len() == 0 {
        Seq::empty()
    } else {
        let rest = tokens_for(bindings.drop_last(), kind);
        if bindings.last().0 == kind {
            rest.push(bindings.last().1)
        } else {
            rest
        }
    }
}

/// `bindings` with the binding of `token` under `kind` taken out.
pub open spec fn without_binding(
    bindings: Seq<(EventKind, u64)>,
    kind: EventKind,
    token: u64,
) -> Seq<(EventKind, u64)>
    decreases bindings.len(),
{
    if bindings.len() == 0 {
        Seq::empty()
    } else {
        let rest = without_binding(bindings.drop_last(), kind, token);
        if bindings.last().0 == kind && bindings.last().1 == token {
            rest
        } else {
            rest.push(bindings.last())
        }
    }
}

/// The event bus.  Each binding pairs an event kind with the token handed
/// back at bind time; the code owning the handlers maps tokens to actions.
pub struct Emitter {
    pub bindings: Vec<(EventKind, u64)>,
    pub next_token: u64,
}

impl Emitter {
    /// Every token handed out so far is below `next_token`.
    pub open spec fn wf(self) -> bool {
        forall|i: int| 0 <= i < self.bindings@.len() ==> self.bindings@[i].1 < self.next_token
    }

    pub fn new() -> (r: Emitter)
        ensures
            r.bindings@ == Seq::<(EventKind, u64)>::empty(),
            r.next_token == 0,
            r.wf(),
    {
        Emitter { bindings: Vec::new(), next_token: 0 }
    }

    /// Registers a handler under `kind`; the returned token names it for
    /// `unbind`, and is fresh among all tokens this bus has handed out.
    pub fn bind(&mut self, kind: EventKind) -> (token: u64)
        requires
            old(self).wf(),
            old(self).next_token < u64::MAX,
        ensures
            token == old(self).next_token,
            final(self).bindings@ == old(self).bindings@.push((kind, token)),
            final(self).next_token == old(self).next_token + 1,
            final(self).wf(),
    {
        let token = self.next_token;
        self.bindings.push((kind, token));
        self.next_token = token + 1;
        token
    }

    /// Removes the binding of `token` under `kind`; answers whether one was
    /// there.
    pub fn unbind(&mut self, kind: EventKind, token: u64) -> (found: bool)
        requires
            old(self).wf(),
        ensures
            final(self).bindings@ == without_binding(old(self).bindings@, kind, token),
            final(self).next_token == old(self).next_token,
            final(self).wf(),
            found == (final(self).bindings@.len() < old(self).bindings@.len()),
    {
        let ghost orig = self.bindings@;
        let mut out: Vec<(EventKind, u64)> = Vec::new();
        let mut idx: usize = 0;
        let mut found = false;
        while idx < self.bindings.len()
            invariant
                idx <= orig.len(),
                self.bindings@ == orig,
                self.next_token == old(self).next_token,
                forall|k: int| 0 <= k < orig.len() ==> orig[k].1 < self.next_token,
                forall|k: int| 0 <= k < out@.len() ==> out@[k].1 < self.next_token,
                out@ == without_binding(orig.subrange(0, idx as int), kind, token),
                found == (out@.len() < idx as nat),
                out@.len() <= idx as nat,
            decreases orig.len() - idx,
        {
            let b = self.bindings[idx];
            proof {
                assert(orig.subrange(0, idx as int + 1).drop_last() =~= orig.subrange(0, idx as int));
            }
            if b.0 == kind && b.1 == token {
                found = true;
            } else {
                out.push(b);
            }
            idx += 1;
        }
        proof {
            assert(orig.subrange(0, orig.len() as int) =~= orig);
            lemma_without_binding_len(orig, kind, token);
        }
        self.bindings = out;
        found
    }

    /// The tokens currently bound to `kind`, in binding order: the snapshot a
    /// caller walks to invoke handlers, unaffected by binds or unbinds made
    /// while it does.
    pub fn trigger(&self, kind: EventKind) -> (tokens: Vec<u64>)
        ensures
            tokens@ == tokens_for(self.bindings@, kind),
    {
        let mut out: Vec<u64> = Vec::new();
        let mut idx: usize = 0;
        while idx < self.bindings.len()
            invariant
                idx <= self.bindings@.len(),
                out@ == tokens_for(self.bindings@.subrange(0, idx as int), kind),
            decreases self.bindings@.len() - idx,
        {
            let b = self.bindings[idx];
            proof {
                assert(self.bindings@.subrange(0, idx as int + 1).drop_last()
                    =~= self.bindings@.subrange(0, idx as int));
            }
            if b.0 == kind {
                out.push(b.1);
            }
            idx += 1;
        }
        proof {
            assert(self.bindings@.subrange(0, self.bindings@.len() as int) =~= self.bindings@);
        }
        out
    }
}

proof fn lemma_without_binding_len(bindings: Seq<(EventKind, u64)>, kind: EventKind, token: u64)
    ensures
        without_binding(bindings, kind, token).len() <= bindings.len(),
    decreases bindings.len(),
{
    if bindings.len() > 0 {
        lemma_without_binding_len(bindings.drop_last(), kind, token);
    }
}

} // verus!
