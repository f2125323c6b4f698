//! A model of the drawing context's persistent state, and how paint steps change it.
use vstd::prelude::*;
use crate::color::Rgba;
use crate::render::{LineCap, Step};

verus! {

/// The part of the drawing context that outlives a path: stroke width, cap and colour.
pub struct Pen {
    pub line_width: int,
    pub cap: LineCap,
    pub color: Rgba,
}

/// The current pen, and the pens pushed by `Save` that a `Restore` has not popped.
pub struct Context {
    pub pen: Pen,
    pub saved: Seq<Pen>,
}

/// The context after one step. Path and text steps leave it as it was.
pub open spec fn apply_step(c: Context, s: Step) -> Context {
    match s {
        Step::Save => Context { pen: c.pen, saved: c.saved.push(c.pen) },
        Step::Restore => if c.saved.len() > 0 {
            Context { pen: c.saved.last(), saved: c.saved.drop_last() }
        } else {
            c
        },
        Step::SetLineCap(cap) => Context { pen: Pen { cap, ..c.pen }, saved: c.saved },
        Step::SetLineWidth(w) => Context { pen: Pen { line_width: w, ..c.pen }, saved: c.saved },
        Step::SetColor(color) => Context { pen: Pen { color, ..c.pen }, saved: c.saved },
        _ => c,
    }
}

/// The context after the steps, in order.
pub open spec fn run_steps(c: Context, steps: Seq<Step>) -> Context
    decreases steps.len(),
{
    if steps.len() == 0 {
        c
    } else {
        apply_step(run_steps(c, steps.drop_last()), steps.last())
    }
}

/// A step that neither pushes nor pops the saved pens.
pub open spec fn is_unscoped(s: Step) -> bool {
    !(s is Save) && !(s is Restore)
}

/// Running one more step is applying it to where the others left the context.
pub proof fn lemma_run_push(c: Context, steps: Seq<Step>, s: Step)
    ensures
        run_steps(c, steps.push(s)) == apply_step(run_steps(c, steps), s),
{
    assert(steps.push(s).drop_last() =~= steps);
}

/// Running two lists in turn is running them joined.
pub proof fn lemma_run_concat(c: Context, a: Seq<Step>, b: Seq<Step>)
    ensures
        run_steps(c, a + b) == run_steps(run_steps(c, a), b),
    decreases b.len(),
{
    if b.len() == 0 {
        assert(a + b =~= a);
    } else {
        lemma_run_concat(c, a, b.drop_last());
        assert((a + b).drop_last() =~= a + b.drop_last());
        assert((a + b).last() == b.last());
    }
}

/// Steps that neither push nor pop leave the saved pens alone.
pub proof fn lemma_unscoped_keeps_saved(c: Context, steps: Seq<Step>)
    requires
        forall|i: int| 0 <= i < steps.len() ==> is_unscoped(#[trigger] steps[i]),
    ensures
        run_steps(c, steps).saved == c.saved,
    decreases steps.len(),
{
    if steps.len() > 0 {
        let rest = steps.drop_last();
        assert forall|i: int| 0 <= i < rest.len() implies is_unscoped(#[trigger] rest[i]) by {
            assert(rest[i] == steps[i]);
        }
        lemma_unscoped_keeps_saved(c, rest);
        assert(is_unscoped(steps[steps.len() - 1]));
    }
}

/// A `Save`, then unscoped steps, then a `Restore`: the context comes back as it was.
pub proof fn lemma_scope_restores(c: Context, body: Seq<Step>)
    requires
        forall|i: int| 0 <= i < body.len() ==> is_unscoped(#[trigger] body[i]),
    ensures
        run_steps(c, seq![Step::Save] + body + seq![Step::Restore]) == c,
{
    let opened = apply_step(c, Step::Save);
    lemma_run_push(c, Seq::empty(), Step::Save);
    assert(Seq::<Step>::empty().push(Step::Save) =~= seq![Step::Save]);
    lemma_run_concat(c, seq![Step::Save], body);
    lemma_unscoped_keeps_saved(opened, body);
    lemma_run_push(c, seq![Step::Save] + body, Step::Restore);
    assert((seq![Step::Save] + body).push(Step::Restore) =~= seq![Step::Save] + body + seq![Step::Restore]);
    assert(c.saved.push(c.pen).drop_last() =~= c.saved);
}

} // verus!
