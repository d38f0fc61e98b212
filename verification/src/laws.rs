//! What holds of the generator as a whole.

use vstd::prelude::*;

use crate::codegen::{documentation_lines, documentation_text, TypeSupport};
use crate::declare::{declaration, declaration_step, declarations};
use crate::emission::{group_append, Emission};
use crate::error::CodegenError;
use crate::order::{distinct_ids, law_order_canonical, order_by_id, shapes_in_scope};
use crate::service::{
    dispatch_arm, interface_method, interface_step, method_signature, operation_named,
    receiver_method, receiver_step, send_method, sender_method, sender_step, service_emission,
    service_interface, service_receiver, service_sender, service_step, services,
};
use crate::smithy::{
    in_scope, AppliedTraits, MemberShape, Service, ServiceOperation, Shape, ShapeKind, ShapeRef,
};
use crate::text::{ends_in, pieces};
use crate::types::{is_boxed, is_optional, is_plain_value, is_required, shape_emission};

pub mod declare;
pub mod documentation;
pub mod model;
pub mod service;
pub mod types;

verus! {

// ---------------------------------------------------------------------------
// Output

/// Output only grows: whatever a step does, the text written before it stays in
/// front.
pub proof fn law_output_grows(
    step: Emission,
    before: Seq<char>,
    after: Seq<char>,
    outcome: Result<(), CodegenError>,
)
    requires
        step.takes(before, after, outcome),
    ensures
        before.is_prefix_of(after),
{
    lemma_prefix(before, step.text);
}

/// Steps that follow one another succeed together exactly when each succeeds.
pub proof fn law_each_succeeds<A>(items: Seq<A>, step: spec_fn(A) -> Emission)
    ensures
        Emission::each(items, step).error is None <==> forall|i: int|
            0 <= i < items.len() ==> (#[trigger] step(items[i])).error is None,
    decreases items.len(),
{
    if items.len() > 0 {
        let front = items.drop_last();
        law_each_succeeds(front, step);
        if Emission::each(items, step).error is None {
            assert forall|i: int| 0 <= i < items.len() implies (#[trigger] step(
                items[i],
            )).error is None by {
                if i < front.len() {
                    assert(step(front[i]).error is None);
                }
            }
        } else if forall|i: int|
            0 <= i < items.len() ==> (#[trigger] step(items[i])).error is None {
            assert forall|i: int| 0 <= i < front.len() implies (#[trigger] step(
                front[i],
            )).error is None by {
                assert(step(items[i]).error is None);
            }
            assert(step(items[items.len() - 1]).error is None);
        }
    }
}

// ---------------------------------------------------------------------------
// Declarations

/// The declarations do not depend on the order in which the model yields its
/// shapes.
pub proof fn law_declarations_canonical(
    a: Seq<Shape>,
    b: Seq<Shape>,
    scope: Option<Seq<char>>,
    support: TypeSupport,
)
    requires
        distinct_ids(a),
        a.to_multiset() == b.to_multiset(),
    ensures
        declarations(a, scope, support) == declarations(b, scope, support),
{
    law_order_canonical(a, b, scope);
}

/// A list whose elements all pass a filter stays as it is.
proof fn lemma_filter_all<A>(items: Seq<A>, pred: spec_fn(A) -> bool)
    requires
        forall|i: int| 0 <= i < items.len() ==> pred(#[trigger] items[i]),
    ensures
        items.filter(pred) == items,
    decreases items.len(),
{
    reveal(Seq::filter);
    if items.len() > 0 {
        lemma_filter_all(items.drop_last(), pred);
        assert(items.drop_last().push(items.last()) =~= items);
    }
}

/// A namespace limits declaration output to the shapes of that namespace: the
/// declarations are those of a model that holds nothing else.
pub proof fn law_scope_limits_declarations(
    shapes: Seq<Shape>,
    scope: Option<Seq<char>>,
    support: TypeSupport,
)
    ensures
        declarations(shapes, scope, support) == declarations(
            shapes_in_scope(shapes, scope),
            None,
            support,
        ),
{
    lemma_filter_all(
        shapes_in_scope(shapes, scope),
        |shape: Shape| in_scope(shape.shape.id, None),
    );
}

/// The declarations succeed exactly when that of every shape in scope does.
pub proof fn law_declarations_succeed(
    shapes: Seq<Shape>,
    scope: Option<Seq<char>>,
    support: TypeSupport,
)
    ensures
        declarations(shapes, scope, support).error is None <==> forall|i: int|
            0 <= i < shapes.len() && in_scope((#[trigger] shapes[i]).shape.id, scope)
                ==> declaration(shapes[i], support).error is None,
{
    broadcast use vstd::seq_lib::group_to_multiset_ensures;

    let within = |shape: Shape| in_scope(shape.shape.id, scope);
    let kept = shapes_in_scope(shapes, scope);
    let ordered = order_by_id(kept);
    let step = declaration_step(support);
    law_each_succeeds(ordered, step);
    crate::order::law_order_sorts(kept);
    assert forall|i: int|
        0 <= i < shapes.len() && in_scope((#[trigger] shapes[i]).shape.id, scope) && declarations(
            shapes,
            scope,
            support,
        ).error is None implies declaration(shapes[i], support).error is None by {
        shapes.lemma_filter_contains(within, i);
        assert(kept.contains(shapes[i]));
        assert(kept.to_multiset().count(shapes[i]) > 0);
        assert(ordered.contains(shapes[i]));
        let j = choose|j: int| 0 <= j < ordered.len() && ordered[j] == shapes[i];
        assert(step(ordered[j]).error is None);
    }
    if forall|i: int|
        0 <= i < shapes.len() && in_scope((#[trigger] shapes[i]).shape.id, scope) ==> declaration(
            shapes[i],
            support,
        ).error is None {
        assert forall|j: int| 0 <= j < ordered.len() implies (#[trigger] step(
            ordered[j],
        )).error is None by {
            assert(ordered.to_multiset().count(ordered[j]) > 0);
            assert(kept.contains(ordered[j]));
            let k = choose|k: int| 0 <= k < kept.len() && kept[k] == ordered[j];
            shapes.lemma_filter_pred(within, k);
            lemma_filter_subset(shapes, within, kept[k]);
        }
    }
}

/// What passes a filter was there before.
proof fn lemma_filter_subset<A>(items: Seq<A>, pred: spec_fn(A) -> bool, item: A)
    requires
        items.filter(pred).contains(item),
    ensures
        items.contains(item),
    decreases items.len(),
{
    reveal(Seq::filter);
    if items.len() > 0 {
        let front = items.drop_last();
        if item == items.last() {
            assert(items[items.len() - 1] == item);
        } else {
            let k = choose|k: int| 0 <= k < items.filter(pred).len() && items.filter(pred)[k] == item;
            assert(front.filter(pred)[k] == item);
            lemma_filter_subset(front, pred, item);
            let j = choose|j: int| 0 <= j < front.len() && front[j] == item;
            assert(items[j] == item);
        }
    }
}

/// Which fields are wrapped in `Option`: a boxed field always, a required one
/// that is not boxed never, and one without either mark unless it is a plain
/// value.
pub proof fn law_optional_table(field: MemberShape)
    ensures
        !is_required(field) && !is_boxed(field) && !is_plain_value(
            field.target.id.shape_name@,
        ) ==> is_optional(field),
        !is_required(field) && !is_boxed(field) && is_plain_value(field.target.id.shape_name@)
            ==> !is_optional(field),
        !is_required(field) && is_boxed(field) ==> is_optional(field),
        is_required(field) && !is_boxed(field) ==> !is_optional(field),
{
}

// ---------------------------------------------------------------------------
// Services

/// An operation that is out of scope appears in no part of a service.
pub proof fn law_scope_limits_operations(
    shapes: Seq<Shape>,
    service: ShapeRef,
    method: ServiceOperation,
    scope: Option<Seq<char>>,
    support: TypeSupport,
)
    requires
        !in_scope(method.id, scope),
    ensures
        interface_method(shapes, service, method, scope, support) == Emission::nothing(),
        receiver_method(shapes, service, method, scope, support) == Emission::nothing(),
        sender_method(shapes, service, method, scope, support) == Emission::nothing(),
{
}

/// Where the interface of a service can be written, so can its receiver and its
/// sender.
pub proof fn law_interface_covers(
    shapes: Seq<Shape>,
    id: ShapeRef,
    traits: AppliedTraits,
    service: Service,
    scope: Option<Seq<char>>,
    support: TypeSupport,
)
    requires
        service_interface(shapes, id, traits, service, scope, support).error is None,
    ensures
        service_receiver(shapes, id, traits, service, scope, support).error is None,
        service_sender(shapes, id, traits, service, scope, support).error is None,
{
    let ops = service.operations@;
    law_each_succeeds(ops, interface_step(shapes, id, scope, support));
    law_each_succeeds(ops, receiver_step(shapes, id, scope, support));
    law_each_succeeds(ops, sender_step(shapes, id, scope, support));
    assert forall|i: int| 0 <= i < ops.len() implies (#[trigger] receiver_step(
        shapes,
        id,
        scope,
        support,
    )(ops[i])).error is None by {
        assert(interface_step(shapes, id, scope, support)(ops[i]).error is None);
    }
    assert forall|i: int| 0 <= i < ops.len() implies (#[trigger] sender_step(
        shapes,
        id,
        scope,
        support,
    )(ops[i])).error is None by {
        assert(interface_step(shapes, id, scope, support)(ops[i]).error is None);
    }
}

/// A service that is out of scope is not written, nor is a shape that is not a
/// service.
pub proof fn law_scope_limits_services(
    shapes: Seq<Shape>,
    shape: Shape,
    scope: Option<Seq<char>>,
    support: TypeSupport,
)
    requires
        !in_scope(shape.shape.id, scope) || !(shape.body is Service),
    ensures
        service_emission(shapes, shape, scope, support) == Emission::nothing(),
{
}

/// The services succeed exactly when the interface of every service in scope
/// does.
pub proof fn law_services_succeed(
    shapes: Seq<Shape>,
    scope: Option<Seq<char>>,
    support: TypeSupport,
)
    ensures
        services(shapes, scope, support).error is None <==> forall|i: int|
            0 <= i < shapes.len() && in_scope((#[trigger] shapes[i]).shape.id, scope) ==> (
            shapes[i].body matches ShapeKind::Service(service) ==> service_interface(
                shapes,
                shapes[i].shape,
                shapes[i].traits,
                service,
                scope,
                support,
            ).error is None),
{
    let step = service_step(shapes, scope, support);
    law_each_succeeds(shapes, step);
    assert forall|i: int| 0 <= i < shapes.len() implies ((#[trigger] step(shapes[i])).error is None
        <==> (in_scope(shapes[i].shape.id, scope) ==> (
    shapes[i].body matches ShapeKind::Service(service) ==> service_interface(
        shapes,
        shapes[i].shape,
        shapes[i].traits,
        service,
        scope,
        support,
    ).error is None))) by {
        let shape = shapes[i];
        if let ShapeKind::Service(service) = shape.body {
            if in_scope(shape.shape.id, scope) && service_interface(
                shapes,
                shape.shape,
                shape.traits,
                service,
                scope,
                support,
            ).error is None {
                law_interface_covers(shapes, shape.shape, shape.traits, service, scope, support);
            }
        }
    }
    if services(shapes, scope, support).error is None {
        assert forall|i: int|
            0 <= i < shapes.len() && in_scope((#[trigger] shapes[i]).shape.id, scope) implies (
        shapes[i].body matches ShapeKind::Service(service) ==> service_interface(
            shapes,
            shapes[i].shape,
            shapes[i].traits,
            service,
            scope,
            support,
        ).error is None) by {
            assert(step(shapes[i]).error is None);
        }
    }
}

/// The text with which a receiver matches the name of an operation.
pub open spec fn match_text(dispatch_name: Seq<char>) -> Seq<char> {
    "\""@ + dispatch_name + "\" => {\n"@
}

/// The text with which a sender names the operation that it sends to.
pub open spec fn send_text(dispatch_name: Seq<char>) -> Seq<char> {
    "let resp = self.transport.send(ctx, &self.config, Message{ method: "@ + "\""@ + dispatch_name
        + "\", arg: Cow::Borrowed(&arg)}).await?;\n"@
}

/// A text is a prefix of what it begins.
proof fn lemma_prefix(head: Seq<char>, tail: Seq<char>)
    ensures
        head.is_prefix_of(head + tail),
{
    assert((head + tail).subrange(0, head.len() as int) =~= head);
}

/// A text behind nothing is the text.
proof fn lemma_nothing_before(text: Seq<char>)
    ensures
        Seq::<char>::empty() + text == text,
{
    assert(Seq::<char>::empty() + text =~= text);
}

/// What stands between two texts is told apart by the whole.
proof fn lemma_between(head: Seq<char>, a: Seq<char>, b: Seq<char>, tail: Seq<char>)
    ensures
        head + a + tail == head + b + tail ==> a == b,
{
    let x = head + a + tail;
    let y = head + b + tail;
    if x == y {
        assert(x.len() == y.len());
        assert(x.subrange(head.len() as int, (head.len() + a.len()) as int) =~= a);
        assert(y.subrange(head.len() as int, (head.len() + b.len()) as int) =~= b);
    }
}

/// The sender sends the name that the receiver matches: for an operation whose
/// parts are written, the receiver's part begins by matching the operation's
/// dispatch name, and the sender's part sends that name.
pub proof fn law_sender_meets_receiver(
    shapes: Seq<Shape>,
    service: ShapeRef,
    method: ServiceOperation,
    scope: Option<Seq<char>>,
    support: TypeSupport,
)
    requires
        in_scope(method.id, scope),
        sender_method(shapes, service, method, scope, support).error is None,
    ensures
        match_text(method.dispatch_name@).is_prefix_of(
            receiver_method(shapes, service, method, scope, support).text,
        ),
        exists|before: Seq<char>, after: Seq<char>|
            sender_method(shapes, service, method, scope, support).text == #[trigger] (before
                + send_text(method.dispatch_name@) + after),
{
    broadcast use group_append;

    let (op, traits) = operation_named(shapes, method.id)->0;
    let name = method.dispatch_name@;

    let arm = dispatch_arm(service, method, op, support);
    let matched = match_text(name);
    let rest = (match op.input {
        Some(input) => "let value: "@ + shape_emission(input, support).text
            + " = deserialize(message.arg.as_ref())?;\n"@,
        None => Seq::empty(),
    }) + "let resp = "@ + service.rust_name@ + "::"@ + method.method_name@ + "(self, ctx"@ + (
    if op.input is Some {
        ", &value"@
    } else {
        Seq::empty()
    }) + ").await?;\n"@ + "let buf = Cow::Owned(serialize(&resp)?);\n"@
        + "Ok(Message { method: "@ + method.full_dispatch_name@ + ", arg: buf })},\n"@;
    assert(arm.text == matched + rest);
    lemma_prefix(matched, rest);

    let signature = method_signature(method.method_name@, traits, op, support);
    let before = "#[allow(unused)]\n"@ + signature.text + " {\n"@ + (if op.input is Some {
        "let arg = serialize(arg)?;\n"@
    } else {
        "let arg = *b\"\";\n"@
    });
    let after = (if op.output is Some {
        "let value = deserialize(resp.arg.as_ref())?; Ok(value)"@
    } else {
        "Ok(())"@
    }) + " }\n"@;
    assert(send_method(method, traits, op, support).text == before + send_text(name) + after);
}

/// The sender implements the interface: for an operation whose parts are
/// written, the interface declares a signature, and the sender defines a method
/// of the same signature.
pub proof fn law_sender_implements_interface(
    shapes: Seq<Shape>,
    service: ShapeRef,
    method: ServiceOperation,
    scope: Option<Seq<char>>,
    support: TypeSupport,
)
    requires
        in_scope(method.id, scope),
        interface_method(shapes, service, method, scope, support).error is None,
    ensures
        exists|signature: Seq<char>|
            {
                &&& interface_method(shapes, service, method, scope, support).text
                    == #[trigger] (signature + ";\n"@)
                &&& ("#[allow(unused)]\n"@ + signature + " {\n"@).is_prefix_of(
                    sender_method(shapes, service, method, scope, support).text,
                )
            },
{
    broadcast use group_append;

    let (op, traits) = operation_named(shapes, method.id)->0;
    let signature = method_signature(method.method_name@, traits, op, support);
    let declared = signature.text + ";\n"@;
    assert(interface_method(shapes, service, method, scope, support).text == declared);
    let head = "#[allow(unused)]\n"@ + signature.text + " {\n"@;
    let tail = (if op.input is Some {
        "let arg = serialize(arg)?;\n"@
    } else {
        "let arg = *b\"\";\n"@
    }) + send_text(method.dispatch_name@) + (if op.output is Some {
        "let value = deserialize(resp.arg.as_ref())?; Ok(value)"@
    } else {
        "Ok(())"@
    }) + " }\n"@;
    assert(send_method(method, traits, op, support).text == head + tail);
    lemma_prefix(head, tail);
}

// ---------------------------------------------------------------------------
// Documentation

/// No piece of a text holds the separator, and there is at least one piece.
proof fn lemma_pieces_free(text: Seq<char>, separator: char)
    ensures
        pieces(text, separator).len() > 0,
        forall|k: int|
            0 <= k < pieces(text, separator).len() ==> !(#[trigger] pieces(
                text,
                separator,
            )[k]).contains(separator),
    decreases text.len(),
{
    if text.len() > 0 {
        lemma_pieces_free(text.drop_last(), separator);
        let front = pieces(text.drop_last(), separator);
        assert(!front[front.len() - 1].contains(separator));
        assert forall|k: int| 0 <= k < pieces(text, separator).len() implies !(#[trigger] pieces(
            text,
            separator,
        )[k]).contains(separator) by {
            if text.last() != separator && k == front.len() - 1 {
                let grown = front.last().push(text.last());
                assert(pieces(text, separator)[k] == grown);
                if grown.contains(separator) {
                    let i = choose|i: int| 0 <= i < grown.len() && grown[i] == separator;
                    assert(front.last()[i] == separator);
                }
            } else if k < front.len() {
                assert(pieces(text, separator)[k] == front[k]);
            }
        }
    }
}

/// A text without the separator extends the last piece.
proof fn lemma_pieces_extend(text: Seq<char>, more: Seq<char>, separator: char)
    requires
        !more.contains(separator),
    ensures
        pieces(text + more, separator) == pieces(text, separator).drop_last().push(
            pieces(text, separator).last() + more,
        ),
    decreases more.len(),
{
    lemma_pieces_free(text, separator);
    if more.len() == 0 {
        assert(text + more =~= text);
        assert(pieces(text, separator).last() + more =~= pieces(text, separator).last());
        assert(pieces(text, separator) =~= pieces(text, separator).drop_last().push(
            pieces(text, separator).last(),
        ));
    } else {
        let front = more.drop_last();
        assert(more.contains(more[more.len() - 1]));
        assert forall|i: int| 0 <= i < front.len() implies front[i] != separator by {
            assert(more.contains(more[i]));
        }
        lemma_pieces_extend(text, front, separator);
        assert((text + more).drop_last() =~= text + front);
        assert((pieces(text, separator).last() + front).push(more.last()) =~= pieces(
            text,
            separator,
        ).last() + more);
        let before = pieces(text + front, separator);
        assert(before.drop_last() =~= pieces(text, separator).drop_last());
    }
}

/// A line as a documentation comment, without its end.
pub open spec fn documented_line(line: Seq<char>) -> Seq<char> {
    "/// "@ + line
}

proof fn lemma_documentation_lines(lines: Seq<Seq<char>>)
    requires
        forall|k: int| 0 <= k < lines.len() ==> !(#[trigger] lines[k]).contains('\n'),
    ensures
        pieces(documentation_lines(lines), '\n') == lines.map_values(
            |line: Seq<char>| documented_line(line),
        ).push(Seq::empty()),
    decreases lines.len(),
{
    let documented = |line: Seq<char>| documented_line(line);
    if lines.len() == 0 {
        assert(pieces(documentation_lines(lines), '\n') =~= lines.map_values(documented).push(
            Seq::empty(),
        ));
    } else {
        let front = lines.drop_last();
        let line = lines.last();
        assert forall|k: int| 0 <= k < front.len() implies !(#[trigger] front[k]).contains(
            '\n',
        ) by {
            assert(!lines[k].contains('\n'));
        }
        lemma_documentation_lines(front);
        let start = documentation_lines(front);
        let comment = documented_line(line);
        reveal_strlit("/// ");
        reveal_strlit("\n");
        assert(!lines[lines.len() - 1].contains('\n'));
        assert(!comment.contains('\n')) by {
            if comment.contains('\n') {
                let i = choose|i: int| 0 <= i < comment.len() && comment[i] == '\n';
                if i >= 4 {
                    assert(line[i - 4] == '\n');
                }
            }
        }
        lemma_pieces_extend(start, comment, '\n');
        let written = start + comment;
        assert(documentation_lines(lines) =~= written.push('\n'));
        assert(written.push('\n').drop_last() =~= written);
        assert(Seq::<char>::empty() + comment =~= comment);
        assert(pieces(written, '\n') =~= front.map_values(documented).push(comment));
        assert(lines.map_values(documented) =~= front.map_values(documented).push(comment));
    }
}

/// Documentation stays in its comment: the lines of the output are the lines of
/// the text, each behind a comment mark, and nothing is behind the last.
pub proof fn law_documentation_lines(text: Seq<char>)
    ensures
        pieces(documentation_text(text), '\n') == pieces(text, '\n').map_values(
            |line: Seq<char>| documented_line(line),
        ).push(Seq::empty()),
{
    lemma_pieces_free(text, '\n');
    lemma_documentation_lines(pieces(text, '\n'));
}

// ---------------------------------------------------------------------------
// Source files

/// A file that is named with the generator's extension is a Rust source.
pub proof fn law_extension_is_rust(stem: Seq<char>)
    ensures
        ends_in(stem + "."@ + "rs"@, ".rs"@),
{
    reveal_strlit(".");
    reveal_strlit("rs");
    reveal_strlit(".rs");
    let path = stem + "."@ + "rs"@;
    assert(path.skip(path.len() - 3) =~= ".rs"@);
}

} // verus!
