//! The Rust code generator: its state, the head of a source file, comments and
//! the documentation traits.

use vstd::prelude::*;
use vstd::std_specs::iter::IteratorSpec;
use vstd::string::StrSliceExecFns;

use crate::emission::group_append;
use crate::error::{CodegenError, ErrorView};
use crate::outside::{is_namespace, parse_namespace, same_text};
use crate::smithy::{
    entry_value, get_entry, in_scope, is_opt_namespace, AppliedTraits, Model, ShapeId, Value,
};
use crate::text::{ends_in, pieces, Writer};

verus! {

broadcast use group_append;

/// The optional types that the output may use.
#[derive(Copy, Clone, Debug)]
pub struct TypeSupport {
    /// `Timestamp` may be used.
    pub timestamp: bool,
    /// `BigInteger` may be used.
    pub big_integer: bool,
    /// `BigDecimal` may be used.
    pub big_decimal: bool,
}

impl Default for TypeSupport {
    /// No optional type.
    fn default() -> (support: Self)
        ensures
            !support.timestamp,
            !support.big_integer,
            !support.big_decimal,
    {
        TypeSupport { timestamp: false, big_integer: false, big_decimal: false }
    }
}

/// The generator of Rust source.
pub struct RustCodeGen {
    /// if set, limits declaration output to this namespace only
    namespace: Option<String>,
    /// the optional types that the output may use
    support: TypeSupport,
}

/// The kinds of single-line comment.
pub enum CommentKind {
    /// A comment that documents the item below it.
    Documentation,
    /// Any other comment.
    Inner,
}

// ---------------------------------------------------------------------------
// What the output says

/// The namespace of the Smithy prelude.
pub open spec fn prelude_namespace() -> Seq<char> {
    "smithy.api"@
}

/// A single-line comment.
pub open spec fn comment_text(kind: CommentKind, line: Seq<char>) -> Seq<char> {
    (match kind {
        CommentKind::Documentation => "/// "@,
        CommentKind::Inner => "// "@,
    }) + line + "\n"@
}

/// A documentation comment for each line.
pub open spec fn documentation_lines(lines: Seq<Seq<char>>) -> Seq<char>
    decreases lines.len(),
{
    if lines.len() == 0 {
        Seq::empty()
    } else {
        documentation_lines(lines.drop_last()) + comment_text(
            CommentKind::Documentation,
            lines.last(),
        )
    }
}

/// A text as documentation: each of its lines as a comment of its own.
pub open spec fn documentation_text(text: Seq<char>) -> Seq<char> {
    documentation_lines(pieces(text, '\n'))
}

/// The documentation that the traits give, if any.
pub open spec fn documentation_part(traits: AppliedTraits) -> Seq<char> {
    match traits.value_of(prelude_namespace(), "documentation"@) {
        Some(Some(Value::Text(text))) => documentation_text(text@),
        _ => Seq::empty(),
    }
}

/// A `name="value"` line of an attribute, where the key has a text.
pub open spec fn deprecation_argument(
    entries: Seq<(String, Value)>,
    key: Seq<char>,
    name: Seq<char>,
) -> Seq<char> {
    match entry_value(entries, key) {
        Some(Value::Text(text)) => name + "=\""@ + text@ + "\"\n"@,
        _ => Seq::empty(),
    }
}

/// The deprecation that the traits give, if any.
pub open spec fn deprecation_part(traits: AppliedTraits) -> Seq<char> {
    match traits.value_of(prelude_namespace(), "deprecated"@) {
        Some(Some(Value::Object(entries))) => "#[deprecated("@ + deprecation_argument(
            entries@,
            "since"@,
            "since"@,
        ) + deprecation_argument(entries@, "message"@, "note"@) + ")\n"@,
        _ => Seq::empty(),
    }
}

/// The mark of an unstable item, where the traits give it.
pub open spec fn unstable_part(traits: AppliedTraits) -> Seq<char> {
    if traits.has(prelude_namespace(), "unstable"@) {
        comment_text(CommentKind::Documentation, "@unstable"@)
    } else {
        Seq::empty()
    }
}

/// What the documentation traits put in front of an item.
pub open spec fn documentation_traits_text(traits: AppliedTraits) -> Seq<char> {
    documentation_part(traits) + deprecation_part(traits) + unstable_part(traits)
}

/// The crate to import from: `crate` where the output is that crate itself.
pub open spec fn import_crate(params: Seq<(String, Value)>) -> Seq<char> {
    match entry_value(params, "crate"@) {
        Some(Value::Text(name)) => if name@ == "wasmbus_rpc"@ {
            "crate"@
        } else {
            "wasmbus_rpc"@
        },
        _ => "wasmbus_rpc"@,
    }
}

/// The head of a source file.
pub open spec fn header_text(import: Seq<char>, smithy_version: Seq<char>) -> Seq<char> {
    "// This file is generated automatically using wasmcloud-weld and smithy model definitions\n//\n#[allow(unused_imports)]\nuse "@
        + import
        + "::{\n    client, context, deserialize, serialize, MessageDispatch, RpcError,\n    Transport, Message,\n};\n#[allow(unused_imports)] use async_trait::async_trait;\n#[allow(unused_imports)] use serde::{Deserialize, Serialize};\n#[allow(unused_imports)] use std::borrow::Cow;\n"@
        + "\npub const SMITHY_VERSION : &str = \""@ + smithy_version + "\";\n\n"@
}

// ---------------------------------------------------------------------------
// Source files

/// returns true if the file path ends in ".rs"
pub fn is_rust_source(path: &str) -> (rust: bool)
    ensures
        rust == ends_in(path@, ".rs"@),
{
    proof {
        reveal_strlit(".rs");
    }
    let length = path.unicode_len();
    length >= 3 && same_text(path.substring_char(length - 3, length), ".rs")
}

impl RustCodeGen {
    /// The namespace that declaration output is limited to, if it is.
    pub closed spec fn scope(self) -> Option<Seq<char>> {
        match self.namespace {
            Some(namespace) => Some(namespace@),
            None => None,
        }
    }

    /// The optional types that the output may use.
    pub closed spec fn types(self) -> TypeSupport {
        self.support
    }

    /// The optional types that the output may use.
    pub(crate) fn type_support(&self) -> (support: TypeSupport)
        ensures
            support == self.types(),
    {
        self.support
    }

    /// Whether output is limited to a namespace that the shape is not in.
    pub(crate) fn is_out_of_scope(&self, id: &ShapeId) -> (outside: bool)
        ensures
            outside == !in_scope(*id, self.scope()),
    {
        !is_opt_namespace(id, &self.namespace)
    }

    /// A generator whose output may use the optional types given.
    pub fn with_support(support: TypeSupport) -> (generator: Self)
        ensures
            generator.scope() is None,
            generator.types() == support,
    {
        RustCodeGen { namespace: None, support }
    }

    /// The names of the templates to register before generation.
    pub fn template_names() -> (names: Vec<&'static str>)
        ensures
            names@.map_values(|name: &str| name@) == seq![
                "rust.actor.manifest.yaml"@,
                "rust.actor.rs"@,
                "rust.Cargo.toml"@,
                "rust.cargo_config.toml"@,
                "rust.gitignore"@,
                "rust.build.rs"@,
                "ping.smithy"@,
                "rust.lib.rs"@,
                "rust.Makefile"@,
            ],
    {
        vec![
            "rust.actor.manifest.yaml",
            "rust.actor.rs",
            "rust.Cargo.toml",
            "rust.cargo_config.toml",
            "rust.gitignore",
            "rust.build.rs",
            "ping.smithy",
            "rust.lib.rs",
            "rust.Makefile",
        ]
    }

    /// Initialize code generator for language output, once the templates have
    /// been registered with the outcome given: no namespace limits the output.
    /// Where registration failed, its error is passed on and nothing changes.
    pub fn init(&mut self, registered: Result<(), CodegenError>) -> (outcome: Result<
        (),
        CodegenError,
    >)
        ensures
            outcome == registered,
            final(self).types() == old(self).types(),
            registered is Ok ==> final(self).scope() is None,
            registered is Err ==> *final(self) == *old(self),
    {
        if registered.is_ok() {
            self.namespace = None;
        }
        registered
    }

    /// Of all the files written, those to hand to the formatter: the positions
    /// of the Rust sources, in order.
    pub fn format(&self, files: &Vec<String>) -> (rust_sources: Vec<usize>)
        ensures
            forall|k: int|
                0 <= k < rust_sources@.len() ==> (#[trigger] rust_sources@[k]) < files@.len()
                    && ends_in(files@[rust_sources@[k] as int]@, ".rs"@),
            forall|k: int, l: int|
                0 <= k < l < rust_sources@.len() ==> rust_sources@[k] < rust_sources@[l],
            forall|i: int|
                0 <= i < files@.len() && ends_in((#[trigger] files@[i])@, ".rs"@)
                    ==> rust_sources@.contains(i as usize),
    {
        let mut rust_sources: Vec<usize> = Vec::new();
        let mut n: usize = 0;
        while n < files.len()
            invariant
                n <= files@.len(),
                forall|k: int|
                    0 <= k < rust_sources@.len() ==> (#[trigger] rust_sources@[k]) < n && ends_in(
                        files@[rust_sources@[k] as int]@,
                        ".rs"@,
                    ),
                forall|k: int, l: int|
                    0 <= k < l < rust_sources@.len() ==> rust_sources@[k] < rust_sources@[l],
                forall|i: int|
                    0 <= i < n && ends_in((#[trigger] files@[i])@, ".rs"@)
                        ==> rust_sources@.contains(i as usize),
            decreases files@.len() - n,
        {
            let ghost before = rust_sources@;
            if is_rust_source(files[n].as_str()) {
                rust_sources.push(n);
                assert(rust_sources@[before.len() as int] == n);
                assert forall|i: int|
                    0 <= i < n + 1 && ends_in(
                        (#[trigger] files@[i])@,
                        ".rs"@,
                    ) implies rust_sources@.contains(i as usize) by {
                    if i < n {
                        let k = choose|k: int| 0 <= k < before.len() && before[k] == i as usize;
                        assert(rust_sources@[k] == i as usize);
                    }
                }
            }
            n = n + 1;
        }
        rust_sources
    }

    /// Perform any initialization required prior to code generation for a file:
    /// the output is limited to the namespace given, if one is.
    pub fn init_file(&mut self, namespace: &Option<String>) -> (outcome: Result<(), CodegenError>)
        ensures
            final(self).types() == old(self).types(),
            match *namespace {
                None => outcome is Ok && final(self).scope() is None,
                Some(text) => if is_namespace(text@) {
                    outcome is Ok && final(self).scope() == Some(text@)
                } else {
                    &&& *final(self) == *old(self)
                    &&& outcome matches Err(e) && e@ == ErrorView::InvalidNamespace(text@)
                },
            },
    {
        match namespace {
            Some(text) => {
                match parse_namespace(text.as_str()) {
                    Ok(parsed) => {
                        self.namespace = Some(parsed);
                        Ok(())
                    },
                    Err(_) => Err(CodegenError::InvalidNamespace(text.clone())),
                }
            },
            None => {
                self.namespace = None;
                Ok(())
            },
        }
    }

    /// Writes the head of a source file.
    pub fn write_source_file_header(
        &self,
        w: &mut Writer,
        model: &Model,
        params: &Vec<(String, Value)>,
    ) -> (outcome: Result<(), CodegenError>)
        ensures
            final(w)@ == old(w)@ + header_text(import_crate(params@), model.smithy_version@),
            outcome is Ok,
    {
        // special case: the crate that the output imports from has to import itself with "crate::".
        let import = match get_entry(params, "crate") {
            Some(Value::Text(name)) => if same_text(name.as_str(), "wasmbus_rpc") {
                "crate"
            } else {
                "wasmbus_rpc"
            },
            _ => "wasmbus_rpc",
        };
        w.write("// This file is generated automatically using wasmcloud-weld and smithy model definitions\n//\n#[allow(unused_imports)]\nuse ");
        w.write(import);
        w.write("::{\n    client, context, deserialize, serialize, MessageDispatch, RpcError,\n    Transport, Message,\n};\n#[allow(unused_imports)] use async_trait::async_trait;\n#[allow(unused_imports)] use serde::{Deserialize, Serialize};\n#[allow(unused_imports)] use std::borrow::Cow;\n");
        w.write("\npub const SMITHY_VERSION : &str = \"");
        w.write(model.smithy_version.as_str());
        w.write("\";\n\n");
        Ok(())
    }

    /// returns rust source file extension "rs"
    pub fn get_file_extension(&self) -> (extension: &'static str)
        ensures
            extension@ == "rs"@,
    {
        "rs"
    }

    /// Write a single-line comment
    pub fn write_comment(&self, w: &mut Writer, kind: CommentKind, line: &str)
        ensures
            final(w)@ == old(w)@ + comment_text(kind, line@),
    {
        w.write(match kind {
            CommentKind::Documentation => "/// ",
            CommentKind::Inner => "// ",
        });
        w.write(line);
        w.write("\n");
    }

    /// Writes a text as documentation, line by line.
    pub fn write_documentation(&self, w: &mut Writer, text: &str)
        ensures
            final(w)@ == old(w)@ + documentation_text(text@),
    {
        let mut line = String::new();
        let mut rest = text.chars();
        let ghost mut seen: Seq<char> = Seq::empty();
        loop
            invariant
                rest.decrease() is Some,
                text@ == seen + rest.remaining(),
                pieces(seen, '\n').len() > 0,
                line@ == pieces(seen, '\n').last(),
                w@ == old(w)@ + documentation_lines(pieces(seen, '\n').drop_last()),
            decreases rest.decrease()->0,
        {
            match rest.next() {
                Some(c) => {
                    let ghost grown = seen.push(c);
                    assert(text@ =~= grown + rest.remaining());
                    assert(grown.drop_last() =~= seen);
                    if c == '\n' {
                        self.write_comment(w, CommentKind::Documentation, line.as_str());
                        line = String::new();
                        assert(pieces(grown, '\n').drop_last() =~= pieces(seen, '\n'));
                    } else {
                        line.push(c);
                        assert(pieces(grown, '\n').drop_last() =~= pieces(seen, '\n').drop_last());
                    }
                    proof {
                        seen = grown;
                    }
                },
                None => {
                    assert(seen =~= text@);
                    self.write_comment(w, CommentKind::Documentation, line.as_str());
                    return;
                },
            }
        }
    }

    /// Apply documentation traits: (documentation, deprecated, unstable)
    pub fn apply_documentation_traits(&self, w: &mut Writer, traits: &AppliedTraits)
        ensures
            final(w)@ == old(w)@ + documentation_traits_text(*traits),
    {
        if let Some(Some(Value::Text(text))) = traits.get("smithy.api", "documentation") {
            self.write_documentation(w, text.as_str());
        }

        // deprecated
        if let Some(Some(Value::Object(entries))) = traits.get("smithy.api", "deprecated") {
            w.write("#[deprecated(");
            if let Some(Value::Text(since)) = get_entry(entries, "since") {
                w.write("since");
                w.write("=\"");
                w.write(since.as_str());
                w.write("\"\n");
            }
            if let Some(Value::Text(message)) = get_entry(entries, "message") {
                w.write("note");
                w.write("=\"");
                w.write(message.as_str());
                w.write("\"\n");
            }
            w.write(")\n");
        }

        // unstable
        if traits.get("smithy.api", "unstable").is_some() {
            self.write_comment(w, CommentKind::Documentation, "@unstable");
        }
    }
}

impl Default for RustCodeGen {
    /// A generator that is not limited to a namespace and uses no optional type.
    fn default() -> (generator: Self)
        ensures
            generator.scope() is None,
            !generator.types().timestamp,
            !generator.types().big_integer,
            !generator.types().big_decimal,
    {
        RustCodeGen::with_support(TypeSupport::default())
    }
}

} // verus!
