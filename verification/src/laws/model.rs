//! What holds of the parts of a model, of text, and of steps that follow one
//! another.

use vstd::prelude::*;
use vstd::utf8::is_ascii_chars;

use crate::emission::Emission;
use crate::error::CodegenError;
use crate::outside::{alike, ascii_lowercase};
use crate::smithy::{
    applied_value, entry_value, id_before, in_scope, same_shape, AppliedTrait, AppliedTraits,
    ShapeId, Value,
};
use crate::text::{ends_in, pieces, text_before};

verus! {

// ---------------------------------------------------------------------------
// Text

/// Two texts are ordered by the first character in which they differ, and a text
/// comes before what continues it.
pub proof fn law_text_order_decides(
    common: Seq<char>,
    c: char,
    d: char,
    a: Seq<char>,
    b: Seq<char>,
)
    ensures
        c != d ==> text_before(common.push(c) + a, common.push(d) + b) == (c < d),
        text_before(common, common.push(c) + a),
        !text_before(common.push(c) + a, common),
    decreases common.len(),
{
    let x = common.push(c) + a;
    let y = common.push(d) + b;
    if common.len() > 0 {
        law_text_order_decides(common.drop_first(), c, d, a, b);
        assert(x.drop_first() =~= common.drop_first().push(c) + a);
        assert(y.drop_first() =~= common.drop_first().push(d) + b);
        assert(x[0] == common[0]);
        assert(y[0] == common[0]);
    } else {
        assert(x[0] == c);
        assert(y[0] == d);
    }
}

/// Cutting a text at each separator: a text without one is one piece, and at a
/// separator the pieces of what is in front are followed by those of what is
/// behind.
pub proof fn law_pieces(a: Seq<char>, b: Seq<char>, separator: char)
    ensures
        !a.contains(separator) ==> pieces(a, separator) == seq![a],
        pieces(a.push(separator) + b, separator) == pieces(a, separator) + pieces(b, separator),
    decreases a.len() + b.len(),
{
    super::lemma_pieces_free(a, separator);
    super::lemma_pieces_free(b, separator);
    if !a.contains(separator) {
        super::lemma_pieces_extend(Seq::empty(), a, separator);
        assert(Seq::<char>::empty() + a =~= a);
        assert(pieces(a, separator) =~= seq![a]);
    }
    let joined = a.push(separator) + b;
    if b.len() == 0 {
        assert(joined =~= a.push(separator));
        assert(joined.drop_last() =~= a);
        assert(pieces(joined, separator) =~= pieces(a, separator) + pieces(b, separator));
    } else {
        let front = b.drop_last();
        law_pieces(a, front, separator);
        super::lemma_pieces_free(front, separator);
        assert(joined.drop_last() =~= a.push(separator) + front);
        let before = pieces(a, separator) + pieces(front, separator);
        assert(before.last() == pieces(front, separator).last());
        assert(before.drop_last() =~= pieces(a, separator) + pieces(front, separator).drop_last());
        assert(pieces(joined, separator) =~= pieces(a, separator) + pieces(b, separator));
    }
}

/// A text ends in another exactly where it is something followed by the other.
pub proof fn law_ends_in(text: Seq<char>, suffix: Seq<char>)
    ensures
        ends_in(text, suffix) <==> exists|stem: Seq<char>| text == #[trigger] (stem + suffix),
{
    if ends_in(text, suffix) {
        let stem = text.take(text.len() - suffix.len());
        assert(text =~= stem + suffix);
    }
    if exists|stem: Seq<char>| text == #[trigger] (stem + suffix) {
        let stem = choose|stem: Seq<char>| text == #[trigger] (stem + suffix);
        assert(text.skip(text.len() - suffix.len()) =~= suffix);
    }
}

// ---------------------------------------------------------------------------
// Identity

/// A name is alike to itself, and names are alike both ways round; ASCII names are alike exactly where their lower cases are equal.
pub proof fn law_alike(a: Seq<char>, b: Seq<char>)
    ensures
        alike(a, a),
        alike(a, b) == alike(b, a),
        is_ascii_chars(a) && is_ascii_chars(b) ==> (alike(a, b) <==> ascii_lowercase(a)
            == ascii_lowercase(b)),
{
}

/// The scope is a matter of the namespace alone: without one every shape is in
/// scope, with one exactly the shapes whose namespace is alike to it.
pub proof fn law_scope(id: ShapeId, namespace: Seq<char>)
    ensures
        in_scope(id, None),
        in_scope(id, Some(id.namespace@)),
        in_scope(id, Some(namespace)) <==> alike(namespace, id.namespace@),
{
}

/// An identity is the same shape as itself; two identities are the same shape
/// both ways round; and then they are both of members or both not, and each is
/// in the scope of the other's namespace.
pub proof fn law_same_shape(a: ShapeId, b: ShapeId)
    ensures
        same_shape(a, a),
        same_shape(a, b) == same_shape(b, a),
        same_shape(a, b) ==> (a.member_name is Some <==> b.member_name is Some),
        same_shape(a, b) ==> in_scope(a, Some(b.namespace@)) && in_scope(b, Some(a.namespace@)),
        same_shape(a, b) ==> alike(a.shape_name@, b.shape_name@),
        alike(a.namespace@, b.namespace@) && alike(a.shape_name@, b.shape_name@)
            && a.member_name is None && b.member_name is None ==> same_shape(a, b),
{
}

/// Identities are ordered by namespace first, by shape name next, and by member
/// last; the shape itself comes before its members.
pub proof fn law_id_order_decides(a: ShapeId, b: ShapeId)
    ensures
        text_before(a.namespace@, b.namespace@) ==> id_before(a, b),
        a.namespace@ == b.namespace@ && text_before(a.shape_name@, b.shape_name@) ==> id_before(
            a,
            b,
        ),
        a.namespace@ == b.namespace@ && a.shape_name@ == b.shape_name@ && a.member_name is None
            && b.member_name is Some ==> id_before(a, b),
        a.namespace@ == b.namespace@ && a.shape_name@ == b.shape_name@ && a.member_name is Some
            && b.member_name is Some && text_before(a.member_name->0@, b.member_name->0@)
            ==> id_before(a, b),
{
    crate::text::law_text_order_total(a.namespace@, b.namespace@);
    crate::text::law_text_order_total(a.shape_name@, b.shape_name@);
}

// ---------------------------------------------------------------------------
// Traits and values

/// A trait has a value exactly where it is applied, letter for letter, and not
/// to a member of the trait's shape.
pub proof fn law_trait_applied(traits: AppliedTraits, namespace: Seq<char>, name: Seq<char>)
    ensures
        traits.has(namespace, name) <==> exists|i: int|
            0 <= i < traits.applied@.len() && (#[trigger] traits.applied@[i]).id.is_exactly(
                namespace,
                name,
            ),
{
    lemma_applied(traits.applied@, namespace, name);
}

proof fn lemma_applied(applied: Seq<AppliedTrait>, namespace: Seq<char>, name: Seq<char>)
    ensures
        applied_value(applied, namespace, name) is Some <==> exists|i: int|
            0 <= i < applied.len() && (#[trigger] applied[i]).id.is_exactly(namespace, name),
    decreases applied.len(),
{
    if applied.len() > 0 {
        let rest = applied.drop_first();
        lemma_applied(rest, namespace, name);
        if exists|i: int| 0 <= i < rest.len() && (#[trigger] rest[i]).id.is_exactly(namespace, name) {
            let i = choose|i: int|
                0 <= i < rest.len() && (#[trigger] rest[i]).id.is_exactly(namespace, name);
            assert(applied[i + 1].id.is_exactly(namespace, name));
        }
        if exists|i: int|
            0 <= i < applied.len() && (#[trigger] applied[i]).id.is_exactly(namespace, name) {
            let i = choose|i: int|
                0 <= i < applied.len() && (#[trigger] applied[i]).id.is_exactly(namespace, name);
            if i > 0 {
                assert(rest[i - 1].id.is_exactly(namespace, name));
            }
        }
    }
}

/// The value of a trait is the one given where it is first applied.
pub proof fn law_trait_value(
    traits: AppliedTraits,
    namespace: Seq<char>,
    name: Seq<char>,
    i: int,
)
    requires
        0 <= i < traits.applied@.len(),
        traits.applied@[i].id.namespace@ == namespace,
        traits.applied@[i].id.shape_name@ == name,
        traits.applied@[i].id.member_name is None,
        forall|j: int|
            0 <= j < i ==> !(#[trigger] traits.applied@[j]).id.is_exactly(namespace, name),
    ensures
        traits.value_of(namespace, name) == Some(traits.applied@[i].value),
{
    lemma_applied_first(traits.applied@, namespace, name, i);
}

proof fn lemma_applied_first(
    applied: Seq<AppliedTrait>,
    namespace: Seq<char>,
    name: Seq<char>,
    i: int,
)
    requires
        0 <= i < applied.len(),
        applied[i].id.is_exactly(namespace, name),
        forall|j: int| 0 <= j < i ==> !(#[trigger] applied[j]).id.is_exactly(namespace, name),
    ensures
        applied_value(applied, namespace, name) == Some(applied[i].value),
    decreases i,
{
    if i > 0 {
        assert(!applied[0].id.is_exactly(namespace, name));
        let rest = applied.drop_first();
        assert forall|j: int| 0 <= j < i - 1 implies !(#[trigger] rest[j]).id.is_exactly(
            namespace,
            name,
        ) by {
            assert(!applied[j + 1].id.is_exactly(namespace, name));
        }
        lemma_applied_first(rest, namespace, name, i - 1);
    }
}

/// The value of a key is the one at its first entry; a key without an entry has
/// none.
pub proof fn law_entry_value(entries: Seq<(String, Value)>, key: Seq<char>, i: int)
    requires
        0 <= i <= entries.len(),
        forall|j: int| 0 <= j < i ==> (#[trigger] entries[j]).0@ != key,
        i < entries.len() ==> entries[i].0@ == key,
    ensures
        i < entries.len() ==> entry_value(entries, key) == Some(entries[i].1),
        i == entries.len() ==> entry_value(entries, key) is None,
    decreases i,
{
    if i > 0 {
        assert(entries[0].0@ != key);
        let rest = entries.drop_first();
        assert forall|j: int| 0 <= j < i - 1 implies (#[trigger] rest[j]).0@ != key by {
            assert(entries[j + 1].0@ != key);
        }
        law_entry_value(rest, key, i - 1);
    }
}

// ---------------------------------------------------------------------------
// Steps

/// A step that succeeds is followed by the next one, right behind its text; one
/// that stops is followed by nothing.
pub proof fn law_steps(first: Emission, next: Emission)
    ensures
        first.error is None ==> first.followed_by(next).text == first.text + next.text,
        first.error is None ==> first.followed_by(next).error == next.error,
        first.error is Some ==> first.followed_by(next) == first,
{
}

/// The steps of a list are those of its first part followed by those of the
/// rest; one item is one step, and no item is nothing.
pub proof fn law_each<A>(a: Seq<A>, b: Seq<A>, item: A, step: spec_fn(A) -> Emission)
    ensures
        Emission::each(Seq::<A>::empty(), step) == Emission::nothing(),
        Emission::each(seq![item], step) == step(item),
        Emission::each(a + b, step) == Emission::each(a, step).followed_by(
            Emission::each(b, step),
        ),
    decreases b.len(),
{
    assert(seq![item].drop_last() =~= Seq::<A>::empty());
    assert(Seq::<char>::empty() + step(item).text =~= step(item).text);
    if b.len() == 0 {
        assert(a + b =~= a);
        assert(Emission::each(a, step).text + Seq::<char>::empty() =~= Emission::each(a, step).text);
    } else {
        law_each(a, b.drop_last(), item, step);
        assert((a + b).drop_last() =~= a + b.drop_last());
        let x = Emission::each(a, step);
        let y = Emission::each(b.drop_last(), step);
        let z = step(b.last());
        assert((x.text + y.text) + z.text =~= x.text + (y.text + z.text));
    }
}

/// A step appends its text whatever the outcome; it succeeds exactly where it
/// has no error, and else the outcome is its error.
pub proof fn law_outcome(
    step: Emission,
    before: Seq<char>,
    after: Seq<char>,
    outcome: Result<(), CodegenError>,
)
    requires
        step.takes(before, after, outcome),
    ensures
        after == before + step.text,
        outcome is Ok <==> step.error is None,
        outcome is Err ==> step.error == Some(outcome->Err_0@),
{
}

} // verus!
