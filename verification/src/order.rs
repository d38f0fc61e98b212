//! The order in which shapes are declared.

use vstd::prelude::*;

use crate::smithy::{id_before, in_scope, Shape, ShapeId};
use crate::text::{law_text_order_total, law_text_order_transitive, text_before};

verus! {

/// A shape put into a list that is ordered by identity, behind the shapes that
/// do not come after it.
pub open spec fn insert_by_id(ordered: Seq<Shape>, shape: Shape) -> Seq<Shape>
    decreases ordered.len(),
{
    if ordered.len() > 0 && id_before(shape.shape.id, ordered.last().shape.id) {
        insert_by_id(ordered.drop_last(), shape).push(ordered.last())
    } else {
        ordered.push(shape)
    }
}

/// Shapes ordered by identity. Those of equal identity keep their order.
pub open spec fn order_by_id(shapes: Seq<Shape>) -> Seq<Shape>
    decreases shapes.len(),
{
    if shapes.len() == 0 {
        Seq::empty()
    } else {
        insert_by_id(order_by_id(shapes.drop_last()), shapes.last())
    }
}

/// The shapes in scope.
pub open spec fn shapes_in_scope(shapes: Seq<Shape>, scope: Option<Seq<char>>) -> Seq<Shape> {
    shapes.filter(|shape: Shape| in_scope(shape.shape.id, scope))
}

/// No shape comes before one that stands in front of it.
pub open spec fn is_ordered(shapes: Seq<Shape>) -> bool {
    forall|i: int, j: int|
        0 <= i < j < shapes.len() ==> !id_before(
            (#[trigger] shapes[j]).shape.id,
            (#[trigger] shapes[i]).shape.id,
        )
}

/// Two identities at the same place in the order: they are spelled alike,
/// letter for letter.
pub open spec fn same_place(a: ShapeId, b: ShapeId) -> bool {
    &&& a.namespace@ == b.namespace@
    &&& a.shape_name@ == b.shape_name@
    &&& match (a.member_name, b.member_name) {
        (Some(x), Some(y)) => x@ == y@,
        (None, None) => true,
        _ => false,
    }
}

/// No two shapes have the same place in the order.
pub open spec fn distinct_ids(shapes: Seq<Shape>) -> bool {
    forall|i: int, j: int|
        0 <= i < j < shapes.len() ==> !same_place(
            (#[trigger] shapes[i]).shape.id,
            (#[trigger] shapes[j]).shape.id,
        )
}

/// Inserting at the right place is inserting by identity.
proof fn lemma_insert_at(ordered: Seq<Shape>, shape: Shape, at: int)
    requires
        0 <= at <= ordered.len(),
        at > 0 ==> !id_before(shape.shape.id, ordered[at - 1].shape.id),
        forall|k: int|
            at <= k < ordered.len() ==> id_before(
                shape.shape.id,
                (#[trigger] ordered[k]).shape.id,
            ),
    ensures
        insert_by_id(ordered, shape) == ordered.insert(at, shape),
    decreases ordered.len(),
{
    if at == ordered.len() {
        assert(ordered.insert(at, shape) =~= ordered.push(shape));
    } else {
        lemma_insert_at(ordered.drop_last(), shape, at);
        assert(ordered.insert(at, shape) =~= ordered.drop_last().insert(at, shape).push(
            ordered.last(),
        ));
    }
}

/// The shapes in a list of references.
pub open spec fn shapes_of(references: Seq<&Shape>) -> Seq<Shape> {
    references.map_values(|shape: &Shape| *shape)
}

/// Puts a shape into a list that is ordered by identity.
pub(crate) fn insert_ordered<'a>(ordered: &mut Vec<&'a Shape>, shape: &'a Shape)
    ensures
        shapes_of(final(ordered)@) == insert_by_id(shapes_of(old(ordered)@), *shape),
{
    let mut at: usize = ordered.len();
    while at > 0 && shape.shape.id.is_before(&ordered[at - 1].shape.id)
        invariant
            at <= ordered@.len(),
            ordered@ == old(ordered)@,
            forall|k: int|
                at <= k < ordered@.len() ==> id_before(
                    shape.shape.id,
                    (#[trigger] shapes_of(ordered@)[k]).shape.id,
                ),
        decreases at,
    {
        at = at - 1;
    }
    proof {
        lemma_insert_at(shapes_of(ordered@), *shape, at as int);
    }
    ordered.insert(at, shape);
    assert(shapes_of(ordered@) =~= shapes_of(old(ordered)@).insert(at as int, *shape));
}

// ---------------------------------------------------------------------------
// Laws of the order

/// Identities are totally ordered: of two of them exactly one of three holds,
/// that they have the same place, or that one or the other comes first.
pub proof fn law_id_order_total(a: ShapeId, b: ShapeId)
    ensures
        same_place(a, b) ==> !id_before(a, b) && !id_before(b, a),
        !same_place(a, b) ==> id_before(a, b) != id_before(b, a),
{
    law_text_order_total(a.namespace@, b.namespace@);
    law_text_order_total(a.shape_name@, b.shape_name@);
    if let (Some(x), Some(y)) = (a.member_name, b.member_name) {
        law_text_order_total(x@, y@);
    }
}

/// The order of identities is transitive.
pub proof fn law_id_order_transitive(a: ShapeId, b: ShapeId, c: ShapeId)
    requires
        id_before(a, b),
        id_before(b, c),
    ensures
        id_before(a, c),
{
    law_text_order_total(a.namespace@, b.namespace@);
    law_text_order_total(b.namespace@, c.namespace@);
    law_text_order_total(a.shape_name@, b.shape_name@);
    law_text_order_total(b.shape_name@, c.shape_name@);
    if text_before(a.namespace@, b.namespace@) && text_before(b.namespace@, c.namespace@) {
        law_text_order_transitive(a.namespace@, b.namespace@, c.namespace@);
        law_text_order_total(a.namespace@, c.namespace@);
    }
    if text_before(a.shape_name@, b.shape_name@) && text_before(b.shape_name@, c.shape_name@) {
        law_text_order_transitive(a.shape_name@, b.shape_name@, c.shape_name@);
        law_text_order_total(a.shape_name@, c.shape_name@);
    }
    if let (Some(x), Some(y), Some(z)) = (a.member_name, b.member_name, c.member_name) {
        if text_before(x@, y@) && text_before(y@, z@) {
            law_text_order_transitive(x@, y@, z@);
        }
    }
}

/// Where `b` does not come after `a`, nor `c` after `b`, `c` does not come
/// after `a`.
proof fn lemma_not_after(a: ShapeId, b: ShapeId, c: ShapeId)
    requires
        !id_before(a, b),
        !id_before(b, c),
    ensures
        !id_before(a, c),
{
    law_id_order_total(a, b);
    law_id_order_total(b, c);
    law_id_order_total(a, c);
    if id_before(a, c) {
        if id_before(c, b) {
            law_id_order_transitive(a, c, b);
        } else {
            assert(same_place(b, c));
            assert(id_before(a, b));
        }
    }
}

/// Inserting keeps the order, and adds the shape and no other.
proof fn lemma_insert_ordered(ordered: Seq<Shape>, shape: Shape)
    requires
        is_ordered(ordered),
    ensures
        is_ordered(insert_by_id(ordered, shape)),
        insert_by_id(ordered, shape).to_multiset() == ordered.to_multiset().insert(shape),
    decreases ordered.len(),
{
    broadcast use vstd::seq_lib::group_to_multiset_ensures;

    let result = insert_by_id(ordered, shape);
    if ordered.len() > 0 && id_before(shape.shape.id, ordered.last().shape.id) {
        let front = ordered.drop_last();
        let last = ordered.last();
        lemma_insert_ordered(front, shape);
        assert(front.push(last) =~= ordered);
        assert(result.to_multiset() =~= ordered.to_multiset().insert(shape));
        assert forall|i: int| 0 <= i < result.len() - 1 implies !id_before(
            last.shape.id,
            (#[trigger] result[i]).shape.id,
        ) by {
            let inner = insert_by_id(front, shape);
            assert(inner.contains(inner[i]));
            assert(inner.to_multiset().count(inner[i]) > 0);
            if inner[i] == shape {
                law_id_order_total(last.shape.id, shape.shape.id);
            } else {
                assert(front.to_multiset().count(inner[i]) > 0);
                assert(front.contains(inner[i]));
            }
        }
    } else {
        assert forall|i: int| 0 <= i < ordered.len() implies !id_before(
            shape.shape.id,
            (#[trigger] ordered[i]).shape.id,
        ) by {
            if i < ordered.len() - 1 {
                lemma_not_after(shape.shape.id, ordered.last().shape.id, ordered[i].shape.id);
            }
        }
    }
}

/// Ordering by identity orders the shapes, and neither loses, adds nor repeats
/// one.
pub proof fn law_order_sorts(shapes: Seq<Shape>)
    ensures
        is_ordered(order_by_id(shapes)),
        order_by_id(shapes).to_multiset() == shapes.to_multiset(),
    decreases shapes.len(),
{
    broadcast use vstd::seq_lib::group_to_multiset_ensures;

    if shapes.len() > 0 {
        law_order_sorts(shapes.drop_last());
        lemma_insert_ordered(order_by_id(shapes.drop_last()), shapes.last());
        assert(shapes.drop_last().push(shapes.last()) =~= shapes);
    } else {
        assert(shapes =~= Seq::<Shape>::empty());
    }
}

/// The shapes at one place in the order.
pub open spec fn at_place(shapes: Seq<Shape>, id: ShapeId) -> Seq<Shape> {
    shapes.filter(|shape: Shape| same_place(shape.shape.id, id))
}

/// Inserting puts a shape behind those at the same place.
proof fn lemma_insert_stable(ordered: Seq<Shape>, shape: Shape, id: ShapeId)
    ensures
        at_place(insert_by_id(ordered, shape), id) == at_place(ordered.push(shape), id),
    decreases ordered.len(),
{
    let here = |s: Shape| same_place(s.shape.id, id);
    if ordered.len() > 0 && id_before(shape.shape.id, ordered.last().shape.id) {
        let front = ordered.drop_last();
        let last = ordered.last();
        lemma_insert_stable(front, shape, id);
        law_id_order_total(shape.shape.id, last.shape.id);
        assert(!(here(shape) && here(last)));
        assert(front.push(last) =~= ordered);
        insert_by_id(front, shape).lemma_filter_push(last, here);
        front.lemma_filter_push(shape, here);
        front.lemma_filter_push(last, here);
        ordered.lemma_filter_push(shape, here);
    }
}

/// Ordering by identity is stable: shapes at the same place keep their order.
pub proof fn law_order_stable(shapes: Seq<Shape>, id: ShapeId)
    ensures
        at_place(order_by_id(shapes), id) == at_place(shapes, id),
    decreases shapes.len(),
{
    let here = |s: Shape| same_place(s.shape.id, id);
    if shapes.len() > 0 {
        let front = shapes.drop_last();
        law_order_stable(front, id);
        lemma_insert_stable(order_by_id(front), shapes.last(), id);
        order_by_id(front).lemma_filter_push(shapes.last(), here);
        front.lemma_filter_push(shapes.last(), here);
        assert(front.push(shapes.last()) =~= shapes);
    } else {
        assert(order_by_id(shapes) =~= shapes);
    }
}

/// Different elements of a list without two shapes at one place are at
/// different places.
proof fn lemma_distinct_values(shapes: Seq<Shape>)
    requires
        distinct_ids(shapes),
    ensures
        forall|a: Shape, b: Shape|
            shapes.contains(a) && shapes.contains(b) && a != b ==> !(#[trigger] same_place(
                a.shape.id,
                b.shape.id,
            )),
{
    assert forall|a: Shape, b: Shape|
        shapes.contains(a) && shapes.contains(b) && a != b implies !(#[trigger] same_place(
        a.shape.id,
        b.shape.id,
    )) by {
        let i = choose|i: int| 0 <= i < shapes.len() && shapes[i] == a;
        let j = choose|j: int| 0 <= j < shapes.len() && shapes[j] == b;
        if i < j {
            assert(!same_place(shapes[i].shape.id, shapes[j].shape.id));
        } else {
            assert(!same_place(shapes[j].shape.id, shapes[i].shape.id));
        }
    }
}

/// There is one way to order shapes that are all at different places.
proof fn lemma_order_unique(x: Seq<Shape>, y: Seq<Shape>)
    requires
        is_ordered(x),
        is_ordered(y),
        x.to_multiset() == y.to_multiset(),
        forall|a: Shape, b: Shape|
            x.contains(a) && x.contains(b) && a != b ==> !(#[trigger] same_place(
                a.shape.id,
                b.shape.id,
            )),
    ensures
        x == y,
    decreases x.len(),
{
    broadcast use vstd::seq_lib::group_to_multiset_ensures;

    assert(x.len() == x.to_multiset().len());
    assert(y.len() == y.to_multiset().len());
    if x.len() == 0 {
        assert(x =~= y);
    } else {
        let p = x.last();
        let q = y.last();
        assert(x.contains(p));
        assert(y.contains(q));
        assert(x.to_multiset().count(p) > 0);
        assert(y.to_multiset().count(q) > 0);
        assert(y.contains(p));
        assert(x.contains(q));
        if p != q {
            let i = choose|i: int| 0 <= i < y.len() && y[i] == p;
            let j = choose|j: int| 0 <= j < x.len() && x[j] == q;
            assert(!id_before(y[y.len() - 1].shape.id, y[i].shape.id));
            assert(!id_before(x[x.len() - 1].shape.id, x[j].shape.id));
            law_id_order_total(p.shape.id, q.shape.id);
            assert(!same_place(p.shape.id, q.shape.id));
            assert(false);
        }
        let xf = x.drop_last();
        let yf = y.drop_last();
        assert(xf.push(p) =~= x);
        assert(yf.push(q) =~= y);
        assert(xf.to_multiset() =~= x.to_multiset().remove(p));
        assert(yf.to_multiset() =~= y.to_multiset().remove(q));
        assert forall|a: Shape, b: Shape|
            xf.contains(a) && xf.contains(b) && a != b implies !(#[trigger] same_place(
            a.shape.id,
            b.shape.id,
        )) by {
            let i = choose|i: int| 0 <= i < xf.len() && xf[i] == a;
            let j = choose|j: int| 0 <= j < xf.len() && xf[j] == b;
            assert(x[i] == a);
            assert(x[j] == b);
        }
        lemma_order_unique(xf, yf);
    }
}

/// Filtering a list filters its multiset.
proof fn lemma_filter_multiset(shapes: Seq<Shape>, pred: spec_fn(Shape) -> bool)
    ensures
        shapes.filter(pred).to_multiset() == shapes.to_multiset().filter(pred),
    decreases shapes.len(),
{
    broadcast use vstd::seq_lib::group_to_multiset_ensures;

    if shapes.len() > 0 {
        let front = shapes.drop_last();
        lemma_filter_multiset(front, pred);
        front.lemma_filter_push(shapes.last(), pred);
        assert(front.push(shapes.last()) =~= shapes);
    } else {
        reveal(Seq::filter);
    }
    assert(shapes.filter(pred).to_multiset() =~= shapes.to_multiset().filter(pred));
}

/// The order of the shapes in scope does not depend on the order in which the
/// model yields its shapes, as long as no two of them are at the same place.
pub proof fn law_order_canonical(a: Seq<Shape>, b: Seq<Shape>, scope: Option<Seq<char>>)
    requires
        distinct_ids(a),
        a.to_multiset() == b.to_multiset(),
    ensures
        order_by_id(shapes_in_scope(a, scope)) == order_by_id(shapes_in_scope(b, scope)),
{
    broadcast use vstd::seq_lib::group_to_multiset_ensures;

    let within = |shape: Shape| in_scope(shape.shape.id, scope);
    let x = order_by_id(shapes_in_scope(a, scope));
    let y = order_by_id(shapes_in_scope(b, scope));
    law_order_sorts(shapes_in_scope(a, scope));
    law_order_sorts(shapes_in_scope(b, scope));
    lemma_filter_multiset(a, within);
    lemma_filter_multiset(b, within);
    lemma_distinct_values(a);
    assert forall|s: Shape, t: Shape|
        x.contains(s) && x.contains(t) && s != t implies !(#[trigger] same_place(
        s.shape.id,
        t.shape.id,
    )) by {
        assert(x.to_multiset().count(s) > 0);
        assert(x.to_multiset().count(t) > 0);
        assert(a.to_multiset().count(s) > 0);
        assert(a.to_multiset().count(t) > 0);
        assert(a.contains(s) && a.contains(t));
    }
    lemma_order_unique(x, y);
}

} // verus!
