//! What holds of comments, of the documentation traits and of the head of a
//! source file.

use vstd::prelude::*;

use crate::codegen::{
    comment_text, deprecation_part, documentation_lines, documentation_part, documentation_text,
    documentation_traits_text, header_text, import_crate, unstable_part, CommentKind,
};
use crate::emission::{lemma_append_nothing, lemma_append_twice};
use crate::smithy::{entry_value, AppliedTraits, Value};
use crate::text::pieces;

verus! {

/// A comment is one line, which begins with the mark of its kind and goes on
/// with the text.
pub proof fn law_comment(line: Seq<char>)
    requires
        !line.contains('\n'),
    ensures
        pieces(comment_text(CommentKind::Documentation, line), '\n') == seq![
            "/// "@ + line,
            Seq::empty(),
        ],
        pieces(comment_text(CommentKind::Inner, line), '\n') == seq!["// "@ + line, Seq::empty()],
{
    reveal_strlit("/// ");
    reveal_strlit("// ");
    reveal_strlit("\n");
    let outer = "/// "@ + line;
    let inner = "// "@ + line;
    assert(!outer.contains('\n')) by {
        if outer.contains('\n') {
            let i = choose|i: int| 0 <= i < outer.len() && outer[i] == '\n';
            assert(i >= 4);
            assert(line[i - 4] == '\n');
        }
    }
    assert(!inner.contains('\n')) by {
        if inner.contains('\n') {
            let i = choose|i: int| 0 <= i < inner.len() && inner[i] == '\n';
            assert(i >= 3);
            assert(line[i - 3] == '\n');
        }
    }
    let none = Seq::<char>::empty();
    super::model::law_pieces(outer, none, '\n');
    super::model::law_pieces(inner, none, '\n');
    super::model::law_pieces(none, none, '\n');
    assert(comment_text(CommentKind::Documentation, line) =~= outer.push('\n') + none);
    assert(comment_text(CommentKind::Inner, line) =~= inner.push('\n') + none);
    assert(seq![outer] + pieces(none, '\n') =~= seq![outer, none]);
    assert(seq![inner] + pieces(none, '\n') =~= seq![inner, none]);
}

/// Documentation of one line more is one comment more, behind the others.
pub proof fn law_documentation_grows(text: Seq<char>, line: Seq<char>)
    requires
        !line.contains('\n'),
    ensures
        documentation_text(line) == "/// "@ + line + "\n"@,
        documentation_text(text.push('\n') + line) == documentation_text(text) + "/// "@ + line
            + "\n"@,
{
    super::model::law_pieces(line, line, '\n');
    super::model::law_pieces(text, line, '\n');
    let one = pieces(line, '\n');
    let more = pieces(text.push('\n') + line, '\n');
    assert(one.drop_last() =~= Seq::<Seq<char>>::empty());
    assert(one.last() == line);
    let comment = comment_text(CommentKind::Documentation, line);
    super::lemma_nothing_before(comment);
    assert(documentation_lines(one.drop_last()) == Seq::<char>::empty());
    assert(documentation_lines(one) == comment);
    lemma_append_twice(documentation_text(text), "/// "@ + line, "\n"@);
    lemma_append_twice(documentation_text(text), "/// "@, line);
    assert(more.drop_last() =~= pieces(text, '\n'));
    assert(more.last() == line);
}

/// An item without documentation traits has nothing in front of it. A
/// documentation puts its text first, an unstable mark comes last.
pub proof fn law_documentation_traits(bare: AppliedTraits, a: AppliedTraits, text: String)
    ensures
        !bare.has("smithy.api"@, "documentation"@) && !bare.has("smithy.api"@, "deprecated"@)
            && !bare.has("smithy.api"@, "unstable"@) ==> documentation_traits_text(bare).len() == 0,
        !bare.has("smithy.api"@, "documentation"@) && a.value_of(
            "smithy.api"@,
            "documentation"@,
        ) == Some(Some(Value::Text(text))) && a.value_of("smithy.api"@, "deprecated"@)
            == bare.value_of("smithy.api"@, "deprecated"@) && a.has("smithy.api"@, "unstable"@)
            == bare.has("smithy.api"@, "unstable"@) ==> documentation_traits_text(a)
            == documentation_text(text@) + documentation_traits_text(bare),
        !bare.has("smithy.api"@, "unstable"@) && a.has("smithy.api"@, "unstable"@) && a.value_of(
            "smithy.api"@,
            "documentation"@,
        ) == bare.value_of("smithy.api"@, "documentation"@) && a.value_of(
            "smithy.api"@,
            "deprecated"@,
        ) == bare.value_of("smithy.api"@, "deprecated"@) ==> documentation_traits_text(a)
            == documentation_traits_text(bare) + "/// "@ + "@unstable"@ + "\n"@,
{
    let none = Seq::<char>::empty();
    let (d, p, u) = (documentation_part(a), deprecation_part(a), unstable_part(a));
    let (e, q, v) = (documentation_part(bare), deprecation_part(bare), unstable_part(bare));
    super::lemma_nothing_before(q);
    super::lemma_nothing_before(none);
    lemma_append_nothing(none);
    lemma_append_nothing(e + q);
    lemma_append_twice(d, q, v);
    lemma_append_twice(e + q, "/// "@ + "@unstable"@, "\n"@);
    lemma_append_twice(e + q, "/// "@, "@unstable"@);
}

/// What stands in front of an item depends on its documentation, its
/// deprecation and its unstable mark alone. A documentation that is no text and a
/// deprecation without entries that can be looked up are as good as none.
pub proof fn law_documentation_traits_only(a: AppliedTraits, b: AppliedTraits)
    requires
        a.value_of("smithy.api"@, "documentation"@) == b.value_of("smithy.api"@, "documentation"@)
            || !(a.value_of("smithy.api"@, "documentation"@) matches Some(Some(Value::Text(_))))
            && !(b.value_of("smithy.api"@, "documentation"@) matches Some(Some(Value::Text(_)))),
        a.value_of("smithy.api"@, "deprecated"@) == b.value_of("smithy.api"@, "deprecated"@)
            || !(a.value_of("smithy.api"@, "deprecated"@) matches Some(Some(Value::Object(_))))
            && !(b.value_of("smithy.api"@, "deprecated"@) matches Some(Some(Value::Object(_)))),
        a.has("smithy.api"@, "unstable"@) == b.has("smithy.api"@, "unstable"@),
    ensures
        documentation_traits_text(a) == documentation_traits_text(b),
{
}

/// The deprecation of an item that has nothing else to document: the attribute
/// with the version and the message, each where it is given as a text.
pub proof fn law_deprecation(
    traits: AppliedTraits,
    entries: Vec<(String, Value)>,
    since: Seq<char>,
    message: Seq<char>,
)
    requires
        !traits.has("smithy.api"@, "documentation"@),
        !traits.has("smithy.api"@, "unstable"@),
        traits.value_of("smithy.api"@, "deprecated"@) == Some(Some(Value::Object(entries))),
        match entry_value(entries@, "since"@) {
            Some(Value::Text(version)) => since == "since"@ + "=\""@ + version@ + "\"\n"@,
            _ => since.len() == 0,
        },
        match entry_value(entries@, "message"@) {
            Some(Value::Text(note)) => message == "note"@ + "=\""@ + note@ + "\"\n"@,
            _ => message.len() == 0,
        },
    ensures
        documentation_traits_text(traits) == "#[deprecated("@ + since + message + ")\n"@,
{
    let none = Seq::<char>::empty();
    assert(since.len() == 0 ==> since =~= none);
    assert(message.len() == 0 ==> message =~= none);
    super::lemma_nothing_before(deprecation_part(traits));
    lemma_append_nothing(deprecation_part(traits));
}

/// The deprecation stands between the documentation and the unstable mark, the
/// same with them as without.
pub proof fn law_deprecation_stands_between(
    all: AppliedTraits,
    documented: AppliedTraits,
    deprecated: AppliedTraits,
    unstable: AppliedTraits,
)
    requires
        documented.value_of("smithy.api"@, "documentation"@) == all.value_of(
            "smithy.api"@,
            "documentation"@,
        ),
        !documented.has("smithy.api"@, "deprecated"@) && !documented.has(
            "smithy.api"@,
            "unstable"@,
        ),
        deprecated.value_of("smithy.api"@, "deprecated"@) == all.value_of(
            "smithy.api"@,
            "deprecated"@,
        ),
        !deprecated.has("smithy.api"@, "documentation"@) && !deprecated.has(
            "smithy.api"@,
            "unstable"@,
        ),
        unstable.has("smithy.api"@, "unstable"@) == all.has("smithy.api"@, "unstable"@),
        !unstable.has("smithy.api"@, "documentation"@) && !unstable.has(
            "smithy.api"@,
            "deprecated"@,
        ),
    ensures
        documentation_traits_text(all) == documentation_traits_text(documented)
            + documentation_traits_text(deprecated) + documentation_traits_text(unstable),
{
    let none = Seq::<char>::empty();
    super::lemma_nothing_before(none);
    super::lemma_nothing_before(deprecation_part(all));
    super::lemma_nothing_before(unstable_part(all));
    lemma_append_nothing(none);
    lemma_append_nothing(documentation_part(all));
    lemma_append_nothing(deprecation_part(all));
}

/// Source that belongs to `wasmbus_rpc` imports from `crate`, and all other
/// source from `wasmbus_rpc`.
pub proof fn law_import(params: Seq<(String, Value)>)
    ensures
        (entry_value(params, "crate"@) matches Some(Value::Text(name)) && name@
            == "wasmbus_rpc"@) ==> import_crate(params) == "crate"@,
        !(entry_value(params, "crate"@) matches Some(Value::Text(name)) && name@
            == "wasmbus_rpc"@) ==> import_crate(params) == "wasmbus_rpc"@,
{
}

proof fn lemma_regroup(a: Seq<char>, b: Seq<char>, c: Seq<char>, d: Seq<char>, e: Seq<char>)
    ensures
        a + b + c + d + e == a + (b + c + d + e),
{
    lemma_append_twice(a, b + c + d, e);
    lemma_append_twice(a, b + c, d);
    lemma_append_twice(a, b, c);
}

/// The head imports from the crate given, and ends with the model's version of
/// Smithy. Heads of different crates, or of different versions, are different.
pub proof fn law_header(
    import: Seq<char>,
    version: Seq<char>,
    other_import: Seq<char>,
    other_version: Seq<char>,
)
    ensures
        header_text(import, version)
            == "// This file is generated automatically using wasmcloud-weld and smithy model definitions\n//\n#[allow(unused_imports)]\nuse "@
            + import
            + "::{\n    client, context, deserialize, serialize, MessageDispatch, RpcError,\n    Transport, Message,\n};\n#[allow(unused_imports)] use async_trait::async_trait;\n#[allow(unused_imports)] use serde::{Deserialize, Serialize};\n#[allow(unused_imports)] use std::borrow::Cow;\n"@
            + "\npub const SMITHY_VERSION : &str = \""@ + version + "\";\n\n"@,
        header_text(import, version) == header_text(import, other_version) ==> version
            == other_version,
        header_text(import, version) == header_text(other_import, version) ==> import
            == other_import,
{
    let open = "// This file is generated automatically using wasmcloud-weld and smithy model definitions\n//\n#[allow(unused_imports)]\nuse "@;
    let middle = "::{\n    client, context, deserialize, serialize, MessageDispatch, RpcError,\n    Transport, Message,\n};\n#[allow(unused_imports)] use async_trait::async_trait;\n#[allow(unused_imports)] use serde::{Deserialize, Serialize};\n#[allow(unused_imports)] use std::borrow::Cow;\n"@;
    let constant = "\npub const SMITHY_VERSION : &str = \""@;
    let close = "\";\n\n"@;
    super::lemma_between(open + import + middle + constant, version, other_version, close);
    let rest = middle + constant + version + close;
    super::lemma_between(open, import, other_import, rest);
    lemma_regroup(open + import, middle, constant, version, close);
    lemma_regroup(open + other_import, middle, constant, version, close);
}

} // verus!
