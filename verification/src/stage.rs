//! Composable unary transforms.
//!
//! A [`Stage`] wraps a single-input single-output callable together with the
//! number of leaf transforms it contains.  Two stages whose boundary types
//! align can be combined with [`compose`]; the result is itself a stage and
//! can be composed again.  Applying a stage with [`invoke`] adds one to the
//! supplied [`InvocationCounter`] for every leaf transform executed.

use core::marker::PhantomData;
use vstd::prelude::*;
use vstd::string::StringExecFns;

use crate::chars::upper_of;
use crate::chars::upper_str;

verus! {

/// Counts leaf-level stage applications.  It starts at zero and only ever
/// grows; every [`invoke`] adds the invoked stage's leaf count.  Verified
/// code keeps no global mutable state, so the counter is an explicit value:
/// callers that want one process-wide reading thread a single counter
/// through all their invocations.
pub struct InvocationCounter {
    count: u64,
}

impl InvocationCounter {
    /// The current reading, as a mathematical integer.
    pub closed spec fn value(&self) -> nat {
        self.count as nat
    }

    /// A fresh counter, starting at zero.
    pub fn new() -> (c: InvocationCounter)
        ensures
            c.value() == 0,
    {
        InvocationCounter { count: 0 }
    }

    /// Reads the current count.
    pub fn read_invocation_count(&self) -> (n: u64)
        ensures
            n == self.value(),
    {
        self.count
    }

    fn add(&mut self, n: usize)
        requires
            old(self).value() + n <= u64::MAX,
        ensures
            final(self).value() == old(self).value() + n,
    {
        self.count = self.count + (n as u64);
    }
}

/// One transform step: an owned callable `I -> O` plus the number of leaf
/// transforms composed into it.
#[verifier::reject_recursive_types(I)]
#[verifier::reject_recursive_types(O)]
pub struct Stage<I, O, F: Fn(I) -> O> {
    func: F,
    leaves: usize,
    boundary: PhantomData<(I, O)>,
}

impl<I, O, F: Fn(I) -> O> Stage<I, O, F> {
    /// How many leaf transforms this stage executes per invocation.
    pub closed spec fn leaf_count(self) -> nat {
        self.leaves as nat
    }

    /// The callable accepts every input of its declared type.
    pub closed spec fn callable(self) -> bool {
        forall|x: I| call_requires(self.func, (x,))
    }

    /// `o` is a possible output of this stage on input `x`.
    pub closed spec fn can_produce(self, x: I, o: O) -> bool {
        call_ensures(self.func, (x,), o)
    }

    /// A well-formed stage is total and contains at least one leaf.
    pub open spec fn wf(self) -> bool {
        self.callable() && self.leaf_count() >= 1
    }

    /// The input-output relation of this stage, as a function value.
    pub open spec fn rel(self) -> spec_fn(I, O) -> bool {
        |x: I, o: O| self.can_produce(x, o)
    }
}

/// The relational composition of two input-output relations: `x` maps to `o`
/// when some intermediate value links them.
pub open spec fn rel_chain<A, B, C>(
    r: spec_fn(A, B) -> bool,
    s: spec_fn(B, C) -> bool,
) -> spec_fn(A, C) -> bool {
    |x: A, o: C| exists|u: B| #[trigger] r(x, u) && s(u, o)
}

/// A relation maps each input to at most one output.
pub open spec fn deterministic<A, B>(r: spec_fn(A, B) -> bool) -> bool {
    forall|x: A, o1: B, o2: B| #[trigger] r(x, o1) && #[trigger] r(x, o2) ==> o1 == o2
}

/// Relational composition is associative: chaining three relations admits
/// exactly the same input-output pairs no matter how the chain is
/// parenthesised.
pub proof fn lemma_rel_chain_associative<A, B, C, D>(
    r1: spec_fn(A, B) -> bool,
    r2: spec_fn(B, C) -> bool,
    r3: spec_fn(C, D) -> bool,
)
    ensures
        forall|x: A, o: D|
            #[trigger] rel_chain(rel_chain(r1, r2), r3)(x, o) <==> #[trigger] rel_chain(
                r1,
                rel_chain(r2, r3),
            )(x, o),
{
    assert forall|x: A, o: D|
        #[trigger] rel_chain(rel_chain(r1, r2), r3)(x, o) implies rel_chain(
        r1,
        rel_chain(r2, r3),
    )(x, o) by {
        let v = choose|v: C| #[trigger] rel_chain(r1, r2)(x, v) && r3(v, o);
        let u = choose|u: B| #[trigger] r1(x, u) && r2(u, v);
        assert(rel_chain(r2, r3)(u, o)) by {
            assert(r2(u, v) && r3(v, o));
        }
        assert(r1(x, u) && rel_chain(r2, r3)(u, o));
    }
    assert forall|x: A, o: D|
        #[trigger] rel_chain(r1, rel_chain(r2, r3))(x, o) implies rel_chain(
        rel_chain(r1, r2),
        r3,
    )(x, o) by {
        let u = choose|u: B| #[trigger] r1(x, u) && rel_chain(r2, r3)(u, o);
        let v = choose|v: C| #[trigger] r2(u, v) && r3(v, o);
        assert(rel_chain(r1, r2)(x, v)) by {
            assert(r1(x, u) && r2(u, v));
        }
        assert(rel_chain(r1, r2)(x, v) && r3(v, o));
    }
}

/// Composing three stages left-to-right or right-to-left yields pipelines
/// that agree on every input, provided the leaf stages are deterministic.
/// The hypotheses on the five composed stages are exactly what [`compose`]
/// ensures.
pub proof fn lemma_composed_outputs_agree<
    I,
    U,
    V,
    O,
    F1: Fn(I) -> U,
    F2: Fn(U) -> V,
    F3: Fn(V) -> O,
    F12: Fn(I) -> V,
    F23: Fn(U) -> O,
    FL: Fn(I) -> O,
    FR: Fn(I) -> O,
>(
    s1: Stage<I, U, F1>,
    s2: Stage<U, V, F2>,
    s3: Stage<V, O, F3>,
    s12: Stage<I, V, F12>,
    s23: Stage<U, O, F23>,
    lhs: Stage<I, O, FL>,
    rhs: Stage<I, O, FR>,
    x: I,
    o_left: O,
    o_right: O,
)
    requires
        deterministic(s1.rel()),
        deterministic(s2.rel()),
        deterministic(s3.rel()),
        forall|x0: I, v: V|
            #[trigger] s12.can_produce(x0, v) ==> rel_chain(s1.rel(), s2.rel())(x0, v),
        forall|u0: U, o: O|
            #[trigger] s23.can_produce(u0, o) ==> rel_chain(s2.rel(), s3.rel())(u0, o),
        forall|x0: I, o: O|
            #[trigger] lhs.can_produce(x0, o) ==> rel_chain(s12.rel(), s3.rel())(x0, o),
        forall|x0: I, o: O|
            #[trigger] rhs.can_produce(x0, o) ==> rel_chain(s1.rel(), s23.rel())(x0, o),
        lhs.can_produce(x, o_left),
        rhs.can_produce(x, o_right),
    ensures
        o_left == o_right,
{
    let v = choose|v: V| #[trigger] s12.rel()(x, v) && s3.rel()(v, o_left);
    let u = choose|u: U| #[trigger] s1.rel()(x, u) && s2.rel()(u, v);
    let u2 = choose|u2: U| #[trigger] s1.rel()(x, u2) && s23.rel()(u2, o_right);
    let v2 = choose|v2: V| #[trigger] s2.rel()(u2, v2) && s3.rel()(v2, o_right);
    assert(u == u2);
    assert(v == v2);
}

/// Wraps a callable as a single-leaf stage.
pub fn plugin<I, O, F: Fn(I) -> O>(f: F) -> (s: Stage<I, O, F>)
    requires
        forall|x: I| call_requires(f, (x,)),
    ensures
        s.wf(),
        s.leaf_count() == 1,
        forall|x: I, o: O| s.can_produce(x, o) <==> call_ensures(f, (x,), o),
{
    Stage { func: f, leaves: 1, boundary: PhantomData }
}

/// Applies the stage to `input` and charges one count per leaf transform.
pub fn invoke<I, O, F: Fn(I) -> O>(
    stage: &Stage<I, O, F>,
    input: I,
    counter: &mut InvocationCounter,
) -> (out: O)
    requires
        stage.wf(),
        old(counter).value() + stage.leaf_count() <= u64::MAX,
    ensures
        stage.can_produce(input, out),
        final(counter).value() == old(counter).value() + stage.leaf_count(),
{
    counter.add(stage.leaves);
    (stage.func)(input)
}

/// Sequential composition: the result applies `left`, then feeds its output
/// to `right`.  Both input stages are consumed.  Every output of the composed
/// stage is explained by an intermediate value that `left` can produce and
/// that `right` maps to the final output.
pub fn compose<I, U, O, F: Fn(I) -> U, G: Fn(U) -> O>(
    left: Stage<I, U, F>,
    right: Stage<U, O, G>,
) -> (s: Stage<I, O, impl Fn(I) -> O>)
    requires
        left.wf(),
        right.wf(),
        left.leaf_count() + right.leaf_count() <= usize::MAX,
    ensures
        s.wf(),
        s.leaf_count() == left.leaf_count() + right.leaf_count(),
        forall|x: I, o: O|
            #[trigger] s.can_produce(x, o) ==> rel_chain(left.rel(), right.rel())(x, o),
{
    let n = left.leaves + right.leaves;
    let f = left.func;
    let g = right.func;
    let f0: Ghost<F> = Ghost(f);
    let g0: Ghost<G> = Ghost(g);
    let h = move |x: I| -> (o: O)
        ensures
            exists|u: U| call_ensures(f0@, (x,), u) && call_ensures(g0@, (u,), o),
        {
            g(f(x))
        };
    let s = Stage { func: h, leaves: n, boundary: PhantomData };
    proof {
        assert forall|x: I, o: O| #[trigger] s.can_produce(x, o) implies rel_chain(
            left.rel(),
            right.rel(),
        )(x, o) by {
            let u = choose|u: U| call_ensures(f0@, (x,), u) && call_ensures(g0@, (u,), o);
            assert(left.rel()(x, u) && right.rel()(u, o));
        }
    }
    s
}

/// Upper-casing of a string, suitable as a stage callable.  The result is
/// what `str::to_uppercase` computes, written [`upper_of`] in contracts.
pub fn uppercase(input: String) -> (r: String)
    ensures
        r@ == upper_of(input@),
{
    upper_str(input.as_str())
}

/// Appends three exclamation marks, suitable as a stage callable.
pub fn add_exclamations(input: String) -> (r: String)
    ensures
        r@ == input@ + seq!['!', '!', '!'],
{
    let r = input.concat("!!!");
    proof {
        reveal_strlit("!!!");
        assert(r@ =~= input@ + seq!['!', '!', '!']);
    }
    r
}

} // verus!
