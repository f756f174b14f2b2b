//! Structural chunking of source files into code units (functions, classes, types) from
//! their syntax tree, the unit that stands for a whole file when none is found, and the
//! path and line helpers the units are keyed by.
use vstd::prelude::*;

use crate::canvas::opt_str;
use crate::model::{cat, cat3, own};
use crate::preview::{byte_len, is_char_boundary, lemma_byte_len_take_unique, utf8_len_exec};
use crate::text::{ascii_lower, chars_of, replace_char, replace_char_exec, string_of, to_ascii_lower, trim, trim_exec};

verus! {

/// A source language with a grammar.
#[derive(Debug, Clone, Copy, PartialEq, Eq, Structural)]
pub enum LangPack {
    Rust,
    Python,
    JavaScript,
    TypeScript,
    Tsx,
}

/// A node of a syntax tree: its kind, the text of its `name` and `type` fields, its byte
/// range in the source, whether it is named, and its children in order.
#[derive(Debug)]
pub struct SyntaxNode {
    pub kind: String,
    pub name: Option<String>,
    pub type_text: Option<String>,
    pub start_byte: usize,
    pub end_byte: usize,
    pub is_named: bool,
    pub children: Vec<SyntaxNode>,
}

/// The syntax tree node type of `tree-sitter`, carried through unread.
#[verifier::external_type_specification]
#[verifier::external_body]
pub struct ExTreeSitterNode<'a>(tree_sitter::Node<'a>);

/// The syntax tree the grammar of `lang` gives `source`, when it parses without error.
pub uninterp spec fn syntax_tree(lang: LangPack, source: Seq<char>) -> Option<SyntaxNode>;

/// Parses `source` with the `tree-sitter` grammar of `lang` (`tree_sitter::Parser` with
/// `set_language` and `parse`) and converts the tree: `None` when the grammar cannot be
/// loaded, parsing gives no tree, or the root has an error. The contract names the tree
/// the grammar gives; the grammar itself is not restated.
#[verifier::external_body]
fn parse_syntax_tree(lang: LangPack, source: &str) -> (r: Option<SyntaxNode>)
    ensures
        r == syntax_tree(lang, source@),
{
    let language: tree_sitter::Language = match lang {
        LangPack::Rust => tree_sitter_rust::LANGUAGE.into(),
        LangPack::Python => tree_sitter_python::LANGUAGE.into(),
        LangPack::JavaScript => tree_sitter_javascript::LANGUAGE.into(),
        LangPack::TypeScript => tree_sitter_typescript::LANGUAGE_TYPESCRIPT.into(),
        LangPack::Tsx => tree_sitter_typescript::LANGUAGE_TSX.into(),
    };
    let mut parser = tree_sitter::Parser::new();
    parser.set_language(&language).ok()?;
    let tree = parser.parse(source, None)?;
    let root = tree.root_node();
    if root.has_error() { return None; }
    Some(convert_node(root, source))
}

/// Copies a `tree_sitter::Node` and its descendants into a [`SyntaxNode`]: its kind, the
/// UTF-8 text of its `name` and `type` fields, its byte range, whether it is named, and
/// its children in order.
#[verifier::external_body]
fn convert_node(node: tree_sitter::Node, source: &str) -> (r: SyntaxNode) {
    let name = node.child_by_field_name("name").and_then(|n| n.utf8_text(source.as_bytes()).ok());
    let type_text = node.child_by_field_name("type").and_then(|n| n.utf8_text(source.as_bytes()).ok());
    let mut cursor = node.walk();
    let mut children = Vec::new();
    for c in node.children(&mut cursor) {
        children.push(convert_node(c, source));
    }
    SyntaxNode { kind: node.kind().to_string(), name: name.map(String::from), type_text: type_text.map(String::from),
        start_byte: node.start_byte(), end_byte: node.end_byte(), is_named: node.is_named(), children }
}

/// A unit of code to embed and store: a function or class with its signature, qualified
/// name, 1-based line and source text.
#[derive(Debug, Clone)]
pub struct CodeUnit {
    pub target_table: &'static str,
    pub target_kind: &'static str,
    pub signature: String,
    pub qualified_name: String,
    pub name_line: usize,
    pub source_text: String,
}

/// Mathematical value of a code unit.
pub struct UnitView {
    pub table: Seq<char>,
    pub signature: Seq<char>,
    pub qualified_name: Seq<char>,
    pub name_line: nat,
    pub source_text: Seq<char>,
}

/// Mathematical value of a code unit; its kind is its table.
pub open spec fn unit_view(u: CodeUnit) -> UnitView {
    UnitView {
        table: u.target_table@,
        signature: u.signature@,
        qualified_name: u.qualified_name@,
        name_line: u.name_line as nat,
        source_text: u.source_text@,
    }
}

/// Mathematical value of code units.
pub open spec fn units_view(v: Seq<CodeUnit>) -> Seq<UnitView> {
    v.map_values(|u: CodeUnit| unit_view(u))
}

/// Whether each unit's kind is its table.
pub open spec fn kinds_match(v: Seq<CodeUnit>) -> bool {
    forall|i: int| 0 <= i < v.len() ==> (#[trigger] v[i]).target_kind@ == v[i].target_table@
}

/// A path with `\` turned into `/`.
pub open spec fn posix(path: Seq<char>) -> Seq<char> {
    replace_char(path, '\\', "/"@)
}

/// Normalising a path twice is normalising it once.
pub proof fn lemma_posix_idempotent(path: Seq<char>)
    ensures
        posix(posix(path)) == posix(path),
    decreases path.len(),
{
    reveal_strlit("/");
    if path.len() > 0 {
        lemma_posix_idempotent(path.drop_last());
        let c = path.last();
        let tail = if c == '\\' {
            "/"@
        } else {
            seq![c]
        };
        assert(posix(path) == posix(path.drop_last()) + tail);
        crate::text::lemma_replace_char_concat(posix(path.drop_last()), tail, '\\', "/"@);
        if c == '\\' {
            assert("/"@ =~= seq!['/']);
            crate::text::lemma_replace_single('/', '\\', "/"@);
        } else {
            crate::text::lemma_replace_single(c, '\\', "/"@);
        }
    } else {
        assert(posix(path) =~= Seq::<char>::empty());
    }
}

/// A path with `\` turned into `/`.
pub fn posix_rel(path: &str) -> (r: String)
    ensures
        r@ == posix(path@),
{
    string_of(&replace_char_exec(chars_of(path).as_slice(), '\\', chars_of("/").as_slice()))
}

/// The signature of a unit: `path:suffix`.
pub fn unit_signature(rel_path_posix: &str, suffix: &str) -> (r: String)
    ensures
        r@ == rel_path_posix@ + ":"@ + suffix@,
{
    cat3(rel_path_posix, ":", suffix)
}

/// The language of a file extension (ASCII case ignored).
pub open spec fn language_of(ext: Seq<char>) -> Option<LangPack> {
    let e = ascii_lower(ext);
    if e == "rs"@ {
        Some(LangPack::Rust)
    } else if e == "py"@ {
        Some(LangPack::Python)
    } else if e == "js"@ || e == "jsx"@ || e == "mjs"@ || e == "cjs"@ {
        Some(LangPack::JavaScript)
    } else if e == "ts"@ {
        Some(LangPack::TypeScript)
    } else if e == "tsx"@ {
        Some(LangPack::Tsx)
    } else {
        None
    }
}

/// The language of a file extension: `rs`, `py`, `js`/`jsx`/`mjs`/`cjs`, `ts`, `tsx`,
/// ASCII case ignored.
pub fn language_for_extension(ext: &str) -> (r: Option<LangPack>)
    ensures
        r == language_of(ext@),
{
    let e = string_of(&to_ascii_lower(&chars_of(ext)));
    let s = e.as_str();
    if crate::text::str_eq(s, "rs") {
        Some(LangPack::Rust)
    } else if crate::text::str_eq(s, "py") {
        Some(LangPack::Python)
    } else if crate::text::str_eq(s, "js") || crate::text::str_eq(s, "jsx") || crate::text::str_eq(
        s,
        "mjs",
    ) || crate::text::str_eq(s, "cjs") {
        Some(LangPack::JavaScript)
    } else if crate::text::str_eq(s, "ts") {
        Some(LangPack::TypeScript)
    } else if crate::text::str_eq(s, "tsx") {
        Some(LangPack::Tsx)
    } else {
        None
    }
}

/// Number of occurrences of `c` in `s`.
pub open spec fn count_char(s: Seq<char>, c: char) -> nat
    decreases s.len(),
{
    if s.len() == 0 {
        0
    } else {
        count_char(s.drop_last(), c) + if s.last() == c {
            1nat
        } else {
            0nat
        }
    }
}

/// The character index at which byte offset `b` of `s` falls, when it is a character
/// boundary.
pub open spec fn char_index(s: Seq<char>, b: nat) -> int {
    choose|k: int| 0 <= k <= s.len() && byte_len(#[trigger] s.take(k)) == b
}

/// The 1-based line of byte offset `b`: one more than the newlines before it, or 1 when
/// `b` is not a character boundary of `src`.
pub open spec fn start_line(src: Seq<char>, b: nat) -> nat {
    if is_char_boundary(src, b) {
        count_char(src.take(char_index(src, b)), '\n') + 1
    } else {
        1
    }
}

/// The text between byte offsets `a` and `b`, or nothing when they do not delimit one.
pub open spec fn text_between(src: Seq<char>, a: nat, b: nat) -> Seq<char> {
    if a <= b && is_char_boundary(src, a) && is_char_boundary(src, b) {
        src.subrange(char_index(src, a), char_index(src, b))
    } else {
        Seq::empty()
    }
}

/// The character index of byte offset `b` of `v`, if it is a character boundary.
fn char_index_of_byte(v: &Vec<char>, b: usize) -> (r: Option<usize>)
    ensures
        match r {
            Some(k) => k <= v@.len() && is_char_boundary(v@, b as nat) && k == char_index(v@, b as nat),
            None => !is_char_boundary(v@, b as nat),
        },
{
    let mut total: usize = 0;
    let mut i: usize = 0;
    loop
        invariant
            i <= v@.len(),
            total == byte_len(v@.take(i as int)),
            total <= b,
            forall|k: int| 0 <= k < i ==> byte_len(#[trigger] v@.take(k)) < total || k == i,
        decreases v@.len() - i,
    {
        if total == b {
            proof {
                assert(byte_len(v@.take(i as int)) == b);
                let c = char_index(v@, b as nat);
                if c != i {
                    if c < i {
                        lemma_byte_len_take_unique(v@, c, i as int);
                    } else {
                        lemma_byte_len_take_unique(v@, i as int, c);
                    }
                }
            }
            return Some(i);
        }
        if i == v.len() {
            proof {
                assert forall|k: int| 0 <= k <= v@.len() implies byte_len(#[trigger] v@.take(k))
                    != b by {
                    if k < i {
                        lemma_byte_len_take_unique(v@, k, i as int);
                    }
                }
            }
            return None;
        }
        let w = utf8_len_exec(v[i]);
        assert(v@.take(i + 1).drop_last() =~= v@.take(i as int));
        if w > b - total {
            proof {
                assert forall|k: int| 0 <= k <= v@.len() implies byte_len(#[trigger] v@.take(k))
                    != b by {
                    if k <= i {
                        if k < i {
                            lemma_byte_len_take_unique(v@, k, i as int);
                        }
                    } else {
                        crate::preview::lemma_byte_len_take_mono(v@, i + 1, k);
                    }
                }
            }
            return None;
        }
        proof {
            lemma_byte_len_take_unique(v@, i as int, i + 1);
        }
        total = total + w;
        i = i + 1;
    }
}

/// Number of `c` in `v[..k]`.
fn count_char_prefix(v: &Vec<char>, k: usize, c: char) -> (r: usize)
    requires
        k <= v@.len(),
    ensures
        r == count_char(v@.take(k as int), c),
        r <= k,
{
    let mut n: usize = 0;
    let mut i: usize = 0;
    while i < k
        invariant
            i <= k <= v@.len(),
            n == count_char(v@.take(i as int), c),
            n <= i,
        decreases k - i,
    {
        assert(v@.take(i + 1).drop_last() =~= v@.take(i as int));
        if v[i] == c {
            n = n + 1;
        }
        i = i + 1;
    }
    n
}

/// The 1-based line at which byte offset `start_byte` of `source` falls.
pub fn start_line_from_byte(source: &str, start_byte: usize) -> (r: usize)
    requires
        source@.len() < usize::MAX,
    ensures
        r == start_line(source@, start_byte as nat),
{
    let v = chars_of(source);
    match char_index_of_byte(&v, start_byte) {
        Some(k) => count_char_prefix(&v, k, '\n') + 1,
        None => 1,
    }
}

fn text_between_exec(v: &Vec<char>, a: usize, b: usize) -> (r: String)
    ensures
        r@ == text_between(v@, a as nat, b as nat),
{
    if a > b {
        return String::new();
    }
    match (char_index_of_byte(v, a), char_index_of_byte(v, b)) {
        (Some(i), Some(j)) => {
            proof {
                if i > j {
                    lemma_byte_len_take_unique(v@, j as int, i as int);
                }
            }
            let s = crate::text::sub_vec(v.as_slice(), i, j);
            string_of(&s)
        },
        _ => String::new(),
    }
}

/// The unit of a node: its table, `path:sig` as signature, `posix(path)::qn` as
/// qualified name, the line of its start, and its text.
pub open spec fn node_unit(
    path: Seq<char>,
    src: Seq<char>,
    node: SyntaxNode,
    table: Seq<char>,
    sig: Seq<char>,
    qn: Seq<char>,
) -> UnitView {
    UnitView {
        table,
        signature: path + ":"@ + sig,
        qualified_name: posix(path) + "::"@ + qn,
        name_line: start_line(src, node.start_byte as nat),
        source_text: text_between(src, node.start_byte as nat, node.end_byte as nat),
    }
}

/// A field text, or `default` when the field is missing.
pub open spec fn field_or(f: Option<String>, default: Seq<char>) -> Seq<char> {
    match f {
        Some(s) => s@,
        None => default,
    }
}

/// `name` behind the dotted class stack, if any.
pub open spec fn dotted(stack: Seq<char>, name: Seq<char>) -> Seq<char> {
    if stack.len() == 0 {
        name
    } else {
        stack + "."@ + name
    }
}

/// Kinds of JavaScript and TypeScript nodes that define a function.
pub open spec fn is_js_function_kind(k: Seq<char>) -> bool {
    k == "function_declaration"@ || k == "generator_function_declaration"@ || k
        == "method_definition"@ || k == "function_expression"@ || k == "arrow_function"@ || k
        == "generator_function"@
}

/// The code units of a syntax tree in pre-order: in Rust, functions (qualified by the
/// enclosing `impl` type), structs, enums, traits and unions; in Python, functions and
/// classes (qualified by the enclosing classes); in JavaScript and TypeScript, functions,
/// methods and classes, and in TypeScript also interfaces, enums and type aliases.
pub open spec fn units_of(
    path: Seq<char>,
    src: Seq<char>,
    lang: LangPack,
    node: SyntaxNode,
    impl_type: Option<Seq<char>>,
    stack: Seq<char>,
) -> Seq<UnitView>
    decreases node, 1nat,
{
    let k = node.kind@;
    let all = node.children@;
    match lang {
        LangPack::Rust => if k == "function_item"@ {
            let name = field_or(node.name, "anon"@);
            let s = match impl_type {
                Some(t) => t + "::"@ + name,
                None => name,
            };
            seq![node_unit(path, src, node, "Function"@, s, s)] + units_of_all(
                path,
                src,
                lang,
                all,
                false,
                impl_type,
                stack,
            )
        } else if k == "struct_item"@ || k == "enum_item"@ || k == "trait_item"@ || k
            == "union_item"@ {
            let name = field_or(node.name, "anon"@);
            seq![node_unit(path, src, node, "Class"@, "class:"@ + name, name)] + units_of_all(
                path,
                src,
                lang,
                all,
                false,
                impl_type,
                stack,
            )
        } else if k == "impl_item"@ {
            let t = match node.type_text {
                Some(s) => trim(s@),
                None => "Impl"@,
            };
            units_of_all(path, src, lang, all, false, Some(t), stack)
        } else {
            units_of_all(path, src, lang, all, false, impl_type, stack)
        },
        LangPack::Python => if k == "function_definition"@ {
            let name = field_or(node.name, "anon"@);
            let s = dotted(stack, name);
            seq![node_unit(path, src, node, "Function"@, s, s)] + units_of_all(
                path,
                src,
                lang,
                all,
                false,
                impl_type,
                stack,
            )
        } else if k == "class_definition"@ {
            let name = field_or(node.name, "Class"@);
            seq![node_unit(path, src, node, "Class"@, "class:"@ + name, name)] + units_of_all(
                path,
                src,
                lang,
                all,
                true,
                None,
                dotted(stack, name),
            )
        } else {
            units_of_all(path, src, lang, all, false, impl_type, stack)
        },
        _ => if is_js_function_kind(k) {
            let name = field_or(node.name, "(anonymous)"@);
            let s = dotted(stack, name);
            seq![node_unit(path, src, node, "Function"@, s, s)] + units_of_all(
                path,
                src,
                lang,
                all,
                false,
                impl_type,
                stack,
            )
        } else if k == "class_declaration"@ {
            let name = field_or(node.name, "Class"@);
            seq![node_unit(path, src, node, "Class"@, "class:"@ + name, name)] + units_of_all(
                path,
                src,
                lang,
                all,
                true,
                None,
                dotted(stack, name),
            )
        } else if (k == "interface_declaration"@ || k == "enum_declaration"@ || k
            == "type_alias_declaration"@) && (lang == LangPack::TypeScript || lang
            == LangPack::Tsx) {
            let name = field_or(node.name, "Type"@);
            seq![
                node_unit(
                    path,
                    src,
                    node,
                    "Class"@,
                    "type:"@ + k + ":"@ + name,
                    k + ":"@ + name,
                ),
            ] + units_of_all(path, src, lang, all, false, impl_type, stack)
        } else {
            units_of_all(path, src, lang, all, false, impl_type, stack)
        },
    }
}

/// The code units of the nodes `ns` (only the named ones when `named_only`), in order.
pub open spec fn units_of_all(
    path: Seq<char>,
    src: Seq<char>,
    lang: LangPack,
    ns: Seq<SyntaxNode>,
    named_only: bool,
    impl_type: Option<Seq<char>>,
    stack: Seq<char>,
) -> Seq<UnitView>
    decreases ns, 0nat,
{
    if ns.len() == 0 {
        Seq::empty()
    } else {
        let rest = units_of_all(path, src, lang, ns.drop_last(), named_only, impl_type, stack);
        if named_only && !ns.last().is_named {
            rest
        } else {
            rest + units_of(path, src, lang, ns.last(), impl_type, stack)
        }
    }
}

fn start_line_chars(v: &Vec<char>, b: usize) -> (r: usize)
    requires
        v@.len() < usize::MAX,
    ensures
        r == start_line(v@, b as nat),
{
    match char_index_of_byte(v, b) {
        Some(k) => count_char_prefix(v, k, '\n') + 1,
        None => 1,
    }
}

fn make_unit(
    path: &str,
    src: &Vec<char>,
    node: &SyntaxNode,
    table: &'static str,
    sig: &str,
    qn: &str,
) -> (u: CodeUnit)
    requires
        src@.len() < usize::MAX,
    ensures
        unit_view(u) == node_unit(path@, src@, *node, table@, sig@, qn@),
        u.target_kind == table,
{
    CodeUnit {
        target_table: table,
        target_kind: table,
        signature: unit_signature(path, sig),
        qualified_name: cat3(posix_rel(path).as_str(), "::", qn),
        name_line: start_line_chars(src, node.start_byte),
        source_text: text_between_exec(src, node.start_byte, node.end_byte),
    }
}

fn field_or_exec<'a>(f: &'a Option<String>, default: &'a str) -> (r: &'a str)
    ensures
        r@ == field_or(*f, default@),
{
    match f {
        Some(s) => s.as_str(),
        None => default,
    }
}

fn dotted_exec(stack: &str, name: &str) -> (r: String)
    ensures
        r@ == dotted(stack@, name@),
{
    if stack.unicode_len() == 0 {
        own(name)
    } else {
        cat3(stack, ".", name)
    }
}

spec fn opt_unit(o: Option<CodeUnit>) -> Seq<UnitView> {
    match o {
        Some(u) => seq![unit_view(u)],
        None => Seq::empty(),
    }
}

fn push_unit(out: &mut Vec<CodeUnit>, u: CodeUnit)
    requires
        kinds_match(old(out)@),
        u.target_kind@ == u.target_table@,
    ensures
        units_view(final(out)@) == units_view(old(out)@).push(unit_view(u)),
        kinds_match(final(out)@),
{
    out.push(u);
    assert(units_view(out@) =~= units_view(old(out)@).push(unit_view(u)));
}

/// Appends the code units of the syntax tree `node` (see [`units_of`]) to `out`.
pub fn gather_units(
    path: &str,
    src: &Vec<char>,
    lang: LangPack,
    node: &SyntaxNode,
    impl_type: Option<&str>,
    stack: &str,
    out: &mut Vec<CodeUnit>,
)
    requires
        src@.len() < usize::MAX,
        kinds_match(old(out)@),
    ensures
        units_view(final(out)@) == units_view(old(out)@) + units_of(
            path@,
            src@,
            lang,
            *node,
            opt_str(impl_type),
            stack@,
        ),
        kinds_match(final(out)@),
    decreases node,
{
    let k = node.kind.as_str();
    let ghost start = units_view(out@);
    // What this node contributes itself, and how its children are walked.
    let mut named_only = false;
    let mut child_impl: Option<String> = match impl_type {
        Some(t) => Some(own(t)),
        None => None,
    };
    let mut child_stack: String = own(stack);
    let mut own_unit: Option<CodeUnit> = None;
    match lang {
        LangPack::Rust => {
            if crate::text::str_eq(k, "function_item") {
                let name = field_or_exec(&node.name, "anon");
                let s = match impl_type {
                    Some(t) => cat3(t, "::", name),
                    None => own(name),
                };
                own_unit = Some(make_unit(path, src, node, "Function", s.as_str(), s.as_str()));
            } else if crate::text::str_eq(k, "struct_item") || crate::text::str_eq(k, "enum_item")
                || crate::text::str_eq(k, "trait_item") || crate::text::str_eq(k, "union_item") {
                let name = field_or_exec(&node.name, "anon");
                let s = cat("class:", name);
                own_unit = Some(make_unit(path, src, node, "Class", s.as_str(), name));
            } else if crate::text::str_eq(k, "impl_item") {
                let t = match &node.type_text {
                    Some(s) => string_of(&trim_exec(chars_of(s.as_str()).as_slice())),
                    None => own("Impl"),
                };
                child_impl = Some(t);
            }
        },
        LangPack::Python => {
            if crate::text::str_eq(k, "function_definition") {
                let name = field_or_exec(&node.name, "anon");
                let s = dotted_exec(stack, name);
                own_unit = Some(make_unit(path, src, node, "Function", s.as_str(), s.as_str()));
            } else if crate::text::str_eq(k, "class_definition") {
                let name = field_or_exec(&node.name, "Class");
                let s = cat("class:", name);
                own_unit = Some(make_unit(path, src, node, "Class", s.as_str(), name));
                named_only = true;
                child_impl = None;
                child_stack = dotted_exec(stack, name);
            }
        },
        _ => {
            if crate::text::str_eq(k, "function_declaration") || crate::text::str_eq(
                k,
                "generator_function_declaration",
            ) || crate::text::str_eq(k, "method_definition") || crate::text::str_eq(
                k,
                "function_expression",
            ) || crate::text::str_eq(k, "arrow_function") || crate::text::str_eq(
                k,
                "generator_function",
            ) {
                let name = field_or_exec(&node.name, "(anonymous)");
                let s = dotted_exec(stack, name);
                own_unit = Some(make_unit(path, src, node, "Function", s.as_str(), s.as_str()));
            } else if crate::text::str_eq(k, "class_declaration") {
                let name = field_or_exec(&node.name, "Class");
                let s = cat("class:", name);
                own_unit = Some(make_unit(path, src, node, "Class", s.as_str(), name));
                named_only = true;
                child_impl = None;
                child_stack = dotted_exec(stack, name);
            } else if (crate::text::str_eq(k, "interface_declaration") || crate::text::str_eq(
                k,
                "enum_declaration",
            ) || crate::text::str_eq(k, "type_alias_declaration")) && (lang == LangPack::TypeScript
                || lang == LangPack::Tsx) {
                let name = field_or_exec(&node.name, "Type");
                let mut s = cat3("type:", k, ":");
                s.append(name);
                let q = cat3(k, ":", name);
                own_unit = Some(make_unit(path, src, node, "Class", s.as_str(), q.as_str()));
            }
        },
    }
    let ghost head: Seq<UnitView> = opt_unit(own_unit);
    match own_unit {
        Some(u) => {
            push_unit(out, u);
        },
        None => {},
    }
    assert(units_view(out@) =~= start + head);
    let ci: Option<&str> = match &child_impl {
        Some(t) => Some(t.as_str()),
        None => None,
    };
    let ghost cs = node.children@;
    let mut i: usize = 0;
    assert(cs.take(0) =~= Seq::<SyntaxNode>::empty());
    while i < node.children.len()
        invariant
            i <= cs.len(),
            cs == node.children@,
            src@.len() < usize::MAX,
            kinds_match(out@),
            units_view(out@) == start + head + units_of_all(
                path@,
                src@,
                lang,
                cs.take(i as int),
                named_only,
                opt_str(ci),
                child_stack@,
            ),
        decreases cs.len() - i,
    {
        assert(cs.take(i + 1).drop_last() =~= cs.take(i as int));
        assert(cs.take(i + 1).last() == cs[i as int]);
        let c = &node.children[i];
        if !(named_only && !c.is_named) {
            let ghost before = units_view(out@);
            gather_units(path, src, lang, c, ci, child_stack.as_str(), out);
            assert(units_view(out@) =~= before + units_of(
                path@,
                src@,
                lang,
                *c,
                opt_str(ci),
                child_stack@,
            ));
        }
        i = i + 1;
    }
    assert(cs.take(cs.len() as int) =~= cs);
}

/// The unit that stands for a whole file.
pub open spec fn fallback_unit(rel_path_posix: Seq<char>, source: Seq<char>) -> UnitView {
    UnitView {
        table: "Function"@,
        signature: rel_path_posix + ":"@ + "__file_fallback__"@,
        qualified_name: posix(rel_path_posix) + "::__file_fallback__"@,
        name_line: 1,
        source_text: source,
    }
}

/// The single unit of a file without units of its own: a function named
/// `__file_fallback__` on line 1 holding the whole source.
pub fn fallback(rel_path_posix: &str, source: &str) -> (r: Vec<CodeUnit>)
    ensures
        units_view(r@) == seq![fallback_unit(rel_path_posix@, source@)],
        kinds_match(r@),
{
    let u = CodeUnit {
        target_table: "Function",
        target_kind: "Function",
        signature: unit_signature(rel_path_posix, "__file_fallback__"),
        qualified_name: cat(posix_rel(rel_path_posix).as_str(), "::__file_fallback__"),
        name_line: 1,
        source_text: own(source),
    };
    let r = vec![u];
    assert(units_view(r@) =~= seq![fallback_unit(rel_path_posix@, source@)]);
    r
}

/// The code units of a file: those of its syntax tree, or the fallback unit when the file
/// does not parse cleanly or has no units.
pub open spec fn file_units(rel_path_posix: Seq<char>, lang: LangPack, source: Seq<char>) -> Seq<UnitView> {
    match syntax_tree(lang, source) {
        Some(root) => {
            let u = units_of(rel_path_posix, source, lang, root, None, Seq::empty());
            if u.len() == 0 {
                seq![fallback_unit(rel_path_posix, source)]
            } else {
                u
            }
        },
        None => seq![fallback_unit(rel_path_posix, source)],
    }
}

/// Extracts the code units of one file.
pub fn extract_units(rel_path_posix: &str, lang: LangPack, source: &str) -> (r: Vec<CodeUnit>)
    requires
        source@.len() < usize::MAX,
    ensures
        units_view(r@) == file_units(rel_path_posix@, lang, source@),
        kinds_match(r@),
{
    match parse_syntax_tree(lang, source) {
        None => fallback(rel_path_posix, source),
        Some(root) => extract_units_from(rel_path_posix, lang, source, &root),
    }
}

/// Extracts the code units of one file from its syntax tree, falling back to the whole
/// file when the tree has none.
pub fn extract_units_from(rel_path_posix: &str, lang: LangPack, source: &str, root: &SyntaxNode) -> (r:
    Vec<CodeUnit>)
    requires
        source@.len() < usize::MAX,
    ensures
        units_view(r@) == ({
            let u = units_of(rel_path_posix@, source@, lang, *root, None, Seq::empty());
            if u.len() == 0 {
                seq![fallback_unit(rel_path_posix@, source@)]
            } else {
                u
            }
        }),
        kinds_match(r@),
{
    let src = chars_of(source);
    let mut units: Vec<CodeUnit> = Vec::new();
    proof {
        reveal_strlit("");
        assert(""@ =~= Seq::<char>::empty());
    }
    assert(units_view(units@) =~= Seq::<UnitView>::empty());
    gather_units(rel_path_posix, &src, lang, root, None, "", &mut units);
    if units.len() == 0 {
        fallback(rel_path_posix, source)
    } else {
        units
    }
}

} // verus!
