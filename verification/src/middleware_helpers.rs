//! Composing interceptors: a list run as one, an interceptor behind a
//! predicate, and a builder for both.

use vstd::prelude::*;
use crate::middleware::{all_specified, chain, computes, run_from, Middleware};
use crate::req::{Req, ReqView};
use crate::res::{Res, ResView};

verus! {

/// A list of interceptors that runs as a single interceptor: the first entry
/// is the outermost, and `next` follows the last.
pub struct CombinedMiddleware<M> {
    middleware: Vec<M>,
}

impl<M> CombinedMiddleware<M> {
    /// The interceptors, outermost first.
    pub closed spec fn layers(&self) -> Seq<M> {
        self.middleware@
    }

    /// Combines a list of interceptors.
    pub fn new(middleware: Vec<M>) -> (combined: Self)
        ensures
            combined.layers() == middleware@,
    {
        Self { middleware }
    }

    /// Adds an interceptor as the new innermost layer.
    pub fn with(self, mw: M) -> (combined: Self)
        ensures
            combined.layers() == self.layers().push(mw),
    {
        let mut middleware = self.middleware;
        middleware.push(mw);
        Self { middleware }
    }
}

impl<S, M: Middleware<S>> Middleware<S> for CombinedMiddleware<M> {
    open spec fn specified(&self) -> bool {
        all_specified(self.layers(), 0)
    }

    open spec fn spec_handle(
        &self,
        req: ReqView,
        state: S,
        next: spec_fn(ReqView) -> ResView,
    ) -> ResView {
        chain(self.layers(), 0, state, next)(req)
    }

    /// An empty list gives what `next` gives for the request as it came.
    fn handle<N: FnOnce(Req) -> Res>(&self, req: Req, state: &S, next: N) -> (res: Res)
        ensures
            self.layers().len() == 0 ==> next.ensures((req,), res),
    {
        run_from(&self.middleware, 0, req, state, next)
    }
}

/// Whether a predicate can be asked about every request and state, and gives
/// one answer for each value of a request.
pub open spec fn decides<S, F: Fn(&Req, &S) -> bool>(predicate: F) -> bool {
    &&& forall|r: Req, s: S| #[trigger] predicate.requires((&r, &s))
    &&& forall|r1: Req, r2: Req, s: S|
        r1@ == r2@ ==> !(#[trigger] predicate.ensures((&r1, &s), true)
            && #[trigger] predicate.ensures((&r2, &s), false))
}

/// What a predicate answers for the value of a request, and a state.
pub open spec fn holds_of<S, F: Fn(&Req, &S) -> bool>(predicate: F, req: ReqView, state: S) -> bool {
    exists|r: Req| r@ == req && #[trigger] predicate.ensures((&r, &state), true)
}

/// An interceptor that runs only where a predicate over request and state
/// holds. Where it does not hold, the request goes straight to `next`.
pub struct ConditionalMiddleware<S, M, F: Fn(&Req, &S) -> bool> {
    middleware: M,
    predicate: F,
    _marker: core::marker::PhantomData<S>,
}

impl<S, M, F: Fn(&Req, &S) -> bool> ConditionalMiddleware<S, M, F> {
    #[verifier::type_invariant]
    spec fn wf(self) -> bool {
        decides::<S, F>(self.predicate)
    }

    /// The interceptor behind the predicate.
    pub closed spec fn inner(&self) -> M {
        self.middleware
    }

    /// Whether the predicate holds of a request and a state.
    pub closed spec fn applies(&self, req: ReqView, state: S) -> bool {
        holds_of(self.predicate, req, state)
    }

    /// Puts an interceptor behind a predicate.
    pub fn new(middleware: M, predicate: F) -> (conditional: Self)
        requires
            decides::<S, F>(predicate),
        ensures
            conditional.inner() == middleware,
            forall|r: ReqView, s: S| conditional.applies(r, s) == holds_of(predicate, r, s),
    {
        Self { middleware, predicate, _marker: core::marker::PhantomData }
    }
}

impl<S, M: Middleware<S>, F: Fn(&Req, &S) -> bool> Middleware<S> for ConditionalMiddleware<
    S,
    M,
    F,
> {
    open spec fn specified(&self) -> bool {
        self.inner().specified()
    }

    open spec fn spec_handle(
        &self,
        req: ReqView,
        state: S,
        next: spec_fn(ReqView) -> ResView,
    ) -> ResView {
        if self.applies(req, state) {
            self.inner().spec_handle(req, state, next)
        } else {
            next(req)
        }
    }

    /// Where the predicate does not hold, the response is what `next` gives
    /// for the request as it came, whatever the interceptor behind the
    /// predicate is.
    fn handle<N: FnOnce(Req) -> Res>(&self, req: Req, state: &S, next: N) -> (res: Res)
        ensures
            !self.applies(req@, *state) ==> next.ensures((req,), res),
            !self.applies(req@, *state) ==> forall|f: spec_fn(ReqView) -> ResView|
                computes(next, f) ==> res@ == f(req@),
    {
        proof {
            use_type_invariant(self);
        }
        let run: bool = (self.predicate)(&req, state);
        assert(self.predicate.ensures((&req, state), run));
        assert(run == self.applies(req@, *state)) by {
            if self.applies(req@, *state) {
                let other = choose|r: Req|
                    r@ == req@ && #[trigger] self.predicate.ensures((&r, state), true);
                assert(!(self.predicate.ensures((&other, state), true)
                    && self.predicate.ensures((&req, state), false)));
            }
        }
        if run {
            self.middleware.handle(req, state, next)
        } else {
            next(req)
        }
    }
}

/// An entry of a built chain: an interceptor that always runs, or one behind
/// a predicate.
pub enum Layer<S, M, F: Fn(&Req, &S) -> bool> {
    Always(M),
    When(ConditionalMiddleware<S, M, F>),
}

impl<S, M: Middleware<S>, F: Fn(&Req, &S) -> bool> Middleware<S> for Layer<S, M, F> {
    open spec fn specified(&self) -> bool {
        match *self {
            Layer::Always(mw) => mw.specified(),
            Layer::When(conditional) => conditional.specified(),
        }
    }

    open spec fn spec_handle(
        &self,
        req: ReqView,
        state: S,
        next: spec_fn(ReqView) -> ResView,
    ) -> ResView {
        match *self {
            Layer::Always(mw) => mw.spec_handle(req, state, next),
            Layer::When(conditional) => conditional.spec_handle(req, state, next),
        }
    }

    /// An entry behind a predicate that does not hold gives what `next`
    /// gives for the request as it came.
    fn handle<N: FnOnce(Req) -> Res>(&self, req: Req, state: &S, next: N) -> (res: Res)
        ensures
            self matches Layer::When(conditional) && !conditional.applies(req@, *state)
                ==> next.ensures((req,), res),
    {
        match self {
            Layer::Always(mw) => mw.handle(req, state, next),
            Layer::When(conditional) => conditional.handle(req, state, next),
        }
    }
}

/// Builds a chain entry by entry, outermost first.
pub struct MiddlewareChain<S, M, F: Fn(&Req, &S) -> bool> {
    middleware: Vec<Layer<S, M, F>>,
}

impl<S, M: Middleware<S>, F: Fn(&Req, &S) -> bool> MiddlewareChain<S, M, F> {
    /// The entries so far, outermost first.
    pub closed spec fn layers(&self) -> Seq<Layer<S, M, F>> {
        self.middleware@
    }

    /// An empty chain.
    pub fn new() -> (built: Self)
        ensures
            built.layers() == Seq::<Layer<S, M, F>>::empty(),
    {
        Self { middleware: Vec::new() }
    }

    /// Adds an interceptor that always runs, inside those added before.
    pub fn add(self, mw: M) -> (built: Self)
        ensures
            built.layers() == self.layers().push(Layer::Always(mw)),
    {
        let mut middleware = self.middleware;
        middleware.push(Layer::Always(mw));
        Self { middleware }
    }

    /// Adds an interceptor that runs only where the predicate holds, inside
    /// those added before.
    pub fn when(self, predicate: F, mw: M) -> (built: Self)
        requires
            decides::<S, F>(predicate),
        ensures
            built.layers().len() == self.layers().len() + 1,
            built.layers().drop_last() == self.layers(),
            built.layers().last() matches Layer::When(conditional) && conditional.inner() == mw
                && forall|r: ReqView, s: S|
                conditional.applies(r, s) == holds_of(predicate, r, s),
    {
        let mut middleware = self.middleware;
        middleware.push(Layer::When(ConditionalMiddleware::new(mw, predicate)));
        assert(middleware@.drop_last() =~= self.middleware@);
        Self { middleware }
    }

    /// The chain as one interceptor.
    pub fn build(self) -> (combined: CombinedMiddleware<Layer<S, M, F>>)
        ensures
            combined.layers() == self.layers(),
    {
        CombinedMiddleware::new(self.middleware)
    }
}

impl<S, M: Middleware<S>, F: Fn(&Req, &S) -> bool> Default for MiddlewareChain<S, M, F> {
    fn default() -> (built: Self)
        ensures
            built.layers() == Seq::<Layer<S, M, F>>::empty(),
    {
        Self::new()
    }
}

} // verus!
