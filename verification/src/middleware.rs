//! Interceptors and the continuation they are handed.
//!
//! An interceptor is given the request, the shared state, and `next`: a
//! single-use continuation that runs the rest of the chain. It calls `next`
//! once, or answers by itself.

use vstd::prelude::*;
use crate::req::{Req, ReqView};
use crate::res::{Res, ResView};

verus! {

/// Whether the continuation `next` can be called on every request and
/// computes the function `f` from the value of the request to the value of
/// the response.
pub open spec fn computes<N: FnOnce(Req) -> Res>(next: N, f: spec_fn(ReqView) -> ResView) -> bool {
    &&& forall|r: Req| next.requires((r,))
    &&& forall|r: Req, o: Res| next.ensures((r,), o) ==> o@ == f(r@)
}

/// One layer around a handler.
pub trait Middleware<S> {
    /// Whether this interceptor states in `spec_handle` what it does. One
    /// that does not, promises nothing about its response.
    open spec fn specified(&self) -> bool {
        false
    }

    /// The response that this interceptor gives for a request, when the rest
    /// of the chain computes `next`.
    open spec fn spec_handle(
        &self,
        req: ReqView,
        state: S,
        next: spec_fn(ReqView) -> ResView,
    ) -> ResView {
        arbitrary()
    }

    /// Handles a request: may act before and after calling `next`, may change
    /// the request it passes on and the response it gets back, and may answer
    /// without calling `next` at all.
    fn handle<N: FnOnce(Req) -> Res>(&self, req: Req, state: &S, next: N) -> (res: Res)
        requires
            forall|r: Req| next.requires((r,)),
        ensures
            self.specified() ==> forall|f: spec_fn(ReqView) -> ResView|
                computes(next, f) ==> res@ == self.spec_handle(req@, *state, f),
    ;
}

/// The function that the layers from index `from` on compute around
/// `terminal`: each layer is handed the layers after it as its `next`, so the
/// first layer is the outermost.
pub open spec fn chain<S, M: Middleware<S>>(
    layers: Seq<M>,
    from: int,
    state: S,
    terminal: spec_fn(ReqView) -> ResView,
) -> spec_fn(ReqView) -> ResView
    decreases layers.len() - from,
{
    if 0 <= from < layers.len() {
        let inner = chain(layers, from + 1, state, terminal);
        |r: ReqView| layers[from].spec_handle(r, state, inner)
    } else {
        terminal
    }
}

/// Whether every layer from index `from` on states what it does.
pub open spec fn all_specified<S, M: Middleware<S>>(layers: Seq<M>, from: int) -> bool {
    forall|i: int| from <= i < layers.len() ==> (#[trigger] layers[i]).specified()
}

/// Runs the layers from index `from` on around `terminal`.
pub fn run_from<S, M: Middleware<S>, N: FnOnce(Req) -> Res>(
    layers: &Vec<M>,
    from: usize,
    req: Req,
    state: &S,
    terminal: N,
) -> (res: Res)
    requires
        forall|r: Req| terminal.requires((r,)),
    ensures
        all_specified(layers@, from as int) ==> forall|f: spec_fn(ReqView) -> ResView|
            computes(terminal, f) ==> res@ == chain(layers@, from as int, *state, f)(req@),
        from >= layers@.len() ==> terminal.ensures((req,), res),
    decreases layers.len() - from,
{
    if from < layers.len() {
        let rest = |r: Req| -> (o: Res)
            ensures
                all_specified(layers@, from + 1) ==> forall|f: spec_fn(ReqView) -> ResView|
                    computes(terminal, f) ==> o@ == chain(layers@, from + 1, *state, f)(r@),
            { run_from(layers, from + 1, r, state, terminal) };
        let res = layers[from].handle(req, state, rest);
        proof {
            if all_specified(layers@, from as int) {
                assert(layers@[from as int].specified());
                assert(all_specified(layers@, from + 1));
                assert forall|f: spec_fn(ReqView) -> ResView| computes(terminal, f) implies res@
                    == chain(layers@, from as int, *state, f)(req@) by {
                    assert(computes(rest, chain(layers@, from + 1, *state, f)));
                }
            }
        }
        res
    } else {
        terminal(req)
    }
}

} // verus!
