//! Laws of interceptor chains: strict onion nesting, and the silence of a
//! conditional layer whose predicate does not hold.

use vstd::prelude::*;
use crate::middleware::{chain, Middleware};
use crate::middleware_helpers::{ConditionalMiddleware, Layer};
use crate::req::{Req, ReqView};
use crate::res::ResView;

verus! {

/// Nesting. A layer is handed the layers after it as its `next`; after the
/// last layer comes the terminal.
pub proof fn lemma_chain_unfolds<S, M: Middleware<S>>(
    layers: Seq<M>,
    from: int,
    state: S,
    terminal: spec_fn(ReqView) -> ResView,
    req: ReqView,
)
    requires
        0 <= from <= layers.len(),
    ensures
        from < layers.len() ==> chain(layers, from, state, terminal)(req)
            == layers[from].spec_handle(req, state, chain(layers, from + 1, state, terminal)),
        from == layers.len() ==> chain(layers, from, state, terminal) == terminal,
{
}

/// Whether a layer acts on the request on the way in with `before`, always
/// calls `next`, and acts on the response on the way out with `after`.
pub open spec fn wraps<S, M: Middleware<S>>(
    layer: M,
    state: S,
    before: spec_fn(ReqView) -> ReqView,
    after: spec_fn(ResView) -> ResView,
) -> bool {
    forall|r: ReqView, f: spec_fn(ReqView) -> ResView| #[trigger]
        layer.spec_handle(r, state, f) == after(f(before(r)))
}

/// The request after the "before" actions from index `from` on, applied in
/// list order.
pub open spec fn enter(befores: Seq<spec_fn(ReqView) -> ReqView>, from: int, req: ReqView) -> ReqView
    decreases befores.len() - from,
{
    if 0 <= from < befores.len() {
        enter(befores, from + 1, befores[from](req))
    } else {
        req
    }
}

/// The response after the "after" actions from index `from` on, applied in
/// reverse list order: the last layer's first.
pub open spec fn leave(afters: Seq<spec_fn(ResView) -> ResView>, from: int, res: ResView) -> ResView
    decreases afters.len() - from,
{
    if 0 <= from < afters.len() {
        afters[from](leave(afters, from + 1, res))
    } else {
        res
    }
}

/// Onion order. In a chain of layers that each act before and after `next`,
/// the "before" actions run in list order, then the terminal, then the
/// "after" actions in reverse list order.
pub proof fn lemma_onion_order<S, M: Middleware<S>>(
    layers: Seq<M>,
    state: S,
    befores: Seq<spec_fn(ReqView) -> ReqView>,
    afters: Seq<spec_fn(ResView) -> ResView>,
    terminal: spec_fn(ReqView) -> ResView,
    from: int,
    req: ReqView,
)
    requires
        befores.len() == layers.len(),
        afters.len() == layers.len(),
        forall|i: int| 0 <= i < layers.len() ==> wraps(layers[i], state, befores[i], afters[i]),
        0 <= from <= layers.len(),
    ensures
        chain(layers, from, state, terminal)(req) == leave(
            afters,
            from,
            terminal(enter(befores, from, req)),
        ),
    decreases layers.len() - from,
{
    if from < layers.len() {
        let inner = chain(layers, from + 1, state, terminal);
        assert(wraps(layers[from], state, befores[from], afters[from]));
        assert(layers[from].spec_handle(req, state, inner) == afters[from](
            inner(befores[from](req)),
        ));
        lemma_onion_order(layers, state, befores, afters, terminal, from + 1, befores[from](req));
    }
}

/// Onion order of three. For the chain `[a, b, c]` around a terminal, the
/// request passes `a`, `b`, `c` on the way in and the response passes `c`,
/// `b`, `a` on the way out.
pub proof fn lemma_onion_order_of_three<S, M: Middleware<S>>(
    a: M,
    b: M,
    c: M,
    state: S,
    before: Seq<spec_fn(ReqView) -> ReqView>,
    after: Seq<spec_fn(ResView) -> ResView>,
    terminal: spec_fn(ReqView) -> ResView,
    req: ReqView,
)
    requires
        before.len() == 3,
        after.len() == 3,
        wraps(a, state, before[0], after[0]),
        wraps(b, state, before[1], after[1]),
        wraps(c, state, before[2], after[2]),
    ensures
        chain(seq![a, b, c], 0, state, terminal)(req) == after[0](
            after[1](after[2](terminal(before[2](before[1](before[0](req)))))),
        ),
{
    let layers = seq![a, b, c];
    lemma_onion_order(layers, state, before, after, terminal, 0, req);
    reveal_with_fuel(enter, 4);
    reveal_with_fuel(leave, 4);
}

/// Short circuit. A layer that answers without calling `next` ends the way
/// in: the layers before it still see its response on the way out, and
/// neither the layers after it nor the terminal have any part in it.
pub proof fn lemma_short_circuit<S, M: Middleware<S>>(
    layers: Seq<M>,
    at: int,
    state: S,
    terminal: spec_fn(ReqView) -> ResView,
    other: spec_fn(ReqView) -> ResView,
    from: int,
)
    requires
        0 <= from <= at < layers.len(),
        forall|r: ReqView, f: spec_fn(ReqView) -> ResView, g: spec_fn(ReqView) -> ResView|
            layers[at].spec_handle(r, state, f) == layers[at].spec_handle(r, state, g),
    ensures
        chain(layers, from, state, terminal) == chain(layers, from, state, other),
    decreases at - from,
{
    let one = chain(layers, from, state, terminal);
    let two = chain(layers, from, state, other);
    if from < at {
        lemma_short_circuit(layers, at, state, terminal, other, from + 1);
    }
    assert forall|r: ReqView| #[trigger] one(r) == two(r) by {
        if from == at {
            let f = chain(layers, from + 1, state, terminal);
            let g = chain(layers, from + 1, state, other);
            assert(layers[at].spec_handle(r, state, f) == layers[at].spec_handle(r, state, g));
        }
    }
    assert(one =~= two);
}

/// Whether a layer hands every request to `next` unchanged and returns what
/// comes back unchanged.
pub open spec fn passes_through<S, M: Middleware<S>>(layer: M, state: S) -> bool {
    forall|r: ReqView, f: spec_fn(ReqView) -> ResView| #[trigger] layer.spec_handle(r, state, f) == f(r)
}

/// The layers after a removed one compute what they computed before.
proof fn lemma_chain_after_removed<S, M: Middleware<S>>(
    layers: Seq<M>,
    at: int,
    state: S,
    terminal: spec_fn(ReqView) -> ResView,
    from: int,
)
    requires
        0 <= at < layers.len(),
        at <= from < layers.len(),
    ensures
        chain(layers, from + 1, state, terminal) == chain(
            layers.remove(at),
            from,
            state,
            terminal,
        ),
    decreases layers.len() - from,
{
    let removed = layers.remove(at);
    let one = chain(layers, from + 1, state, terminal);
    let two = chain(removed, from, state, terminal);
    if from + 1 < layers.len() {
        lemma_chain_after_removed(layers, at, state, terminal, from + 1);
        assert(removed[from] == layers[from + 1]);
        assert(one =~= two);
    }
}

/// A layer that passes through adds nothing. A chain with such a layer
/// computes what the chain without it computes.
pub proof fn lemma_pass_through_removed<S, M: Middleware<S>>(
    layers: Seq<M>,
    at: int,
    state: S,
    terminal: spec_fn(ReqView) -> ResView,
    from: int,
)
    requires
        0 <= from <= at < layers.len(),
        passes_through(layers[at], state),
    ensures
        chain(layers, from, state, terminal) == chain(layers.remove(at), from, state, terminal),
    decreases at - from,
{
    let removed = layers.remove(at);
    let one = chain(layers, from, state, terminal);
    let two = chain(removed, from, state, terminal);
    if from == at {
        lemma_chain_after_removed(layers, at, state, terminal, at);
        let inner = chain(layers, at + 1, state, terminal);
        assert forall|r: ReqView| #[trigger] one(r) == inner(r) by {
            assert(layers[at].spec_handle(r, state, inner) == inner(r));
        }
        assert(one =~= inner);
    } else {
        lemma_pass_through_removed(layers, at, state, terminal, from + 1);
        assert(removed[from] == layers[from]);
        assert(one =~= two);
    }
}

/// A conditional interceptor whose predicate holds of no request, in a given
/// state, passes through.
pub proof fn lemma_false_predicate_passes_through<S, M: Middleware<S>, F: Fn(&Req, &S) -> bool>(
    conditional: ConditionalMiddleware<S, M, F>,
    state: S,
)
    requires
        forall|r: ReqView| !conditional.applies(r, state),
    ensures
        passes_through(conditional, state),
        passes_through(Layer::When(conditional), state),
{
    assert forall|r: ReqView, f: spec_fn(ReqView) -> ResView| #[trigger]
        conditional.spec_handle(r, state, f) == f(r) by {
        assert(!conditional.applies(r, state));
    }
    let layer = Layer::When(conditional);
    assert forall|r: ReqView, f: spec_fn(ReqView) -> ResView| #[trigger]
        layer.spec_handle(r, state, f) == f(r) by {
        assert(!conditional.applies(r, state));
    }
}

/// A false condition is no layer. A chain in which a conditional entry's
/// predicate holds of no request computes what the chain without that entry
/// computes.
pub proof fn lemma_false_condition_removed<S, M: Middleware<S>, F: Fn(&Req, &S) -> bool>(
    layers: Seq<Layer<S, M, F>>,
    at: int,
    state: S,
    terminal: spec_fn(ReqView) -> ResView,
)
    requires
        0 <= at < layers.len(),
        layers[at] matches Layer::When(conditional) && forall|r: ReqView|
            !conditional.applies(r, state),
    ensures
        chain(layers, 0, state, terminal) == chain(layers.remove(at), 0, state, terminal),
{
    lemma_false_predicate_passes_through(layers[at]->When_0, state);
    lemma_pass_through_removed(layers, at, state, terminal, 0);
}

} // verus!
