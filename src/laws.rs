use vstd::prelude::*;

use crate::context::KvPair;
use crate::error::{context_line, context_lines, point_line, point_lines, rendered, Error};
use crate::point::ErrorPoint;

verus! {

/// The lines of the points `p` in the order of `p`, first to last.
pub open spec fn point_lines_in_order(p: Seq<ErrorPoint>) -> Seq<char>
    decreases p.len(),
{
    if p.len() == 0 {
        Seq::empty()
    } else {
        point_line(p.first()@) + point_lines_in_order(p.drop_first())
    }
}

/// The lines of the context entries `c` in the order of `c`, first to last.
pub open spec fn context_lines_in_order(c: Seq<KvPair>) -> Seq<char>
    decreases c.len(),
{
    if c.len() == 0 {
        Seq::empty()
    } else {
        context_line(c.first()@) + context_lines_in_order(c.drop_first())
    }
}

/// Points recorded later are shown before points recorded earlier: the lines of `a`
/// followed by `b` are the lines of `b`, then those of `a`.
pub proof fn lemma_point_lines_append(a: Seq<ErrorPoint>, b: Seq<ErrorPoint>)
    ensures
        point_lines(a + b) == point_lines(b) + point_lines(a),
    decreases b.len(),
{
    if b.len() == 0 {
        assert(a + b =~= a);
        assert(point_lines(b) + point_lines(a) =~= point_lines(a));
    } else {
        assert((a + b).drop_last() =~= a + b.drop_last());
        assert((a + b).last() == b.last());
        lemma_point_lines_append(a, b.drop_last());
        assert(point_lines(a + b) =~= point_lines(b) + point_lines(a));
    }
}

/// Context entries attached later are shown before entries attached earlier: the lines
/// of `a` followed by `b` are the lines of `b`, then those of `a`.
pub proof fn lemma_context_lines_append(a: Seq<KvPair>, b: Seq<KvPair>)
    ensures
        context_lines(a + b) == context_lines(b) + context_lines(a),
    decreases b.len(),
{
    if b.len() == 0 {
        assert(a + b =~= a);
        assert(context_lines(b) + context_lines(a) =~= context_lines(a));
    } else {
        assert((a + b).drop_last() =~= a + b.drop_last());
        assert((a + b).last() == b.last());
        lemma_context_lines_append(a, b.drop_last());
        assert(context_lines(a + b) =~= context_lines(b) + context_lines(a));
    }
}

/// The points are shown in the reverse of the order they were recorded in.
pub proof fn lemma_point_lines_reversed(p: Seq<ErrorPoint>)
    ensures
        point_lines(p) == point_lines_in_order(p.reverse()),
    decreases p.len(),
{
    if p.len() > 0 {
        lemma_point_lines_reversed(p.drop_last());
        assert(p.reverse().first() == p.last());
        assert(p.reverse().drop_first() =~= p.drop_last().reverse());
    }
}

/// The context entries are shown in the reverse of the order they were attached in.
pub proof fn lemma_context_lines_reversed(c: Seq<KvPair>)
    ensures
        context_lines(c) == context_lines_in_order(c.reverse()),
    decreases c.len(),
{
    if c.len() > 0 {
        lemma_context_lines_reversed(c.drop_last());
        assert(c.reverse().first() == c.last());
        assert(c.reverse().drop_first() =~= c.drop_last().reverse());
    }
}

/// Propagating an error through points `ps`, one after the other, leaves its points
/// extended by `ps` in call order, and shows the new points latest first, before the
/// points it had. `es` holds the error before the first propagation and after each one.
pub proof fn lemma_propagation_chain<E>(es: Seq<Error<E>>, ps: Seq<ErrorPoint>)
    requires
        es.len() == ps.len() + 1,
        forall|k: int|
            0 <= k < ps.len() ==> #[trigger] es[k + 1].spec_points() == es[k].spec_points().push(
                ps[k],
            ),
    ensures
        es.last().spec_points() == es[0].spec_points() + ps,
        es.last().spec_points().len() == es[0].spec_points().len() + ps.len(),
        point_lines(es.last().spec_points()) == point_lines_in_order(ps.reverse()) + point_lines(
            es[0].spec_points(),
        ),
    decreases ps.len(),
{
    if ps.len() == 0 {
        assert(es[0].spec_points() + ps =~= es[0].spec_points());
        assert(ps.reverse() =~= Seq::<ErrorPoint>::empty());
    } else {
        let n = ps.len() - 1;
        let es2 = es.drop_last();
        let ps2 = ps.drop_last();
        assert forall|k: int| 0 <= k < ps2.len() implies #[trigger] es2[k + 1].spec_points()
            == es2[k].spec_points().push(ps2[k]) by {
            assert(es[k + 1].spec_points() == es[k].spec_points().push(ps[k]));
        }
        lemma_propagation_chain(es2, ps2);
        assert(es[n + 1].spec_points() == es[n].spec_points().push(ps[n]));
        assert(es.last().spec_points() =~= es[0].spec_points() + ps);
        lemma_point_lines_append(es[0].spec_points(), ps);
        lemma_point_lines_reversed(ps);
    }
}

/// Attaching context entries one after the other keeps the entries already there, adds one
/// entry per attachment, and keeps the entries in the order they were attached. `es` holds
/// the error before the first attachment and after each one.
pub proof fn lemma_context_chain<E>(es: Seq<Error<E>>)
    requires
        es.len() >= 1,
        forall|k: int|
            1 <= k < es.len() ==> {
                &&& (#[trigger] es[k]).spec_context().len() == es[k - 1].spec_context().len() + 1
                &&& es[k].spec_context().drop_last() == es[k - 1].spec_context()
            },
    ensures
        es.last().spec_context().len() == es[0].spec_context().len() + es.len() - 1,
        es.last().spec_context().take(es[0].spec_context().len() as int) == es[0].spec_context(),
        forall|k: int|
            1 <= k < es.len() ==> es.last().spec_context()[es[0].spec_context().len() + k - 1]
                == (#[trigger] es[k]).spec_context().last(),
    decreases es.len(),
{
    if es.len() > 1 {
        let n = es.len() - 1;
        let es2 = es.drop_last();
        assert forall|k: int| 1 <= k < es2.len() implies {
            &&& (#[trigger] es2[k]).spec_context().len() == es2[k - 1].spec_context().len() + 1
            &&& es2[k].spec_context().drop_last() == es2[k - 1].spec_context()
        } by {
            assert(es[k] == es2[k]);
        }
        lemma_context_chain(es2);
        let base = es[0].spec_context().len() as int;
        let last = es[n].spec_context();
        let prev = es2[n - 1].spec_context();
        assert(es[n].spec_context().len() == es[n - 1].spec_context().len() + 1);
        assert(last.drop_last() == prev);
        assert(last.take(base) =~= prev.take(base));
        assert forall|k: int| 1 <= k < es.len() implies last[base + k - 1]
            == (#[trigger] es[k]).spec_context().last() by {
            if k < n {
                assert(es2[k] == es[k]);
                assert(prev[base + k - 1] == es[k].spec_context().last());
                assert(last[base + k - 1] == last.drop_last()[base + k - 1]);
            }
        }
    }
}

/// Rendering the same error with the same origin text twice gives the same text.
pub proof fn lemma_render_idempotent<E>(e: Error<E>, origin: Seq<char>, r1: Seq<char>, r2: Seq<
    char,
>)
    requires
        r1 == rendered(origin, e.spec_context(), e.spec_points()),
        r2 == rendered(origin, e.spec_context(), e.spec_points()),
    ensures
        r1 == r2,
{
}

/// An error with no points and no context is shown as `Error: ` and its origin alone.
pub proof fn lemma_render_bare(origin: Seq<char>)
    ensures
        rendered(origin, Seq::<KvPair>::empty(), Seq::<ErrorPoint>::empty()) == "Error: "@ + origin,
{
    assert(rendered(origin, Seq::<KvPair>::empty(), Seq::<ErrorPoint>::empty()) =~= "Error: "@
        + origin);
}

} // verus!
