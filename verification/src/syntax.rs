//! Concrete syntax trees: the grammars that parse source text, and the tree
//! of plain values that the extraction works on.

use vstd::prelude::*;

verus! {

/// The grammars that source text can be parsed with.
#[derive(Debug, Clone, Copy, PartialEq, Eq, Structural)]
pub enum Grammar {
    Python,
    Rust,
    JavaScript,
    TypeScript,
    Tsx,
    Markdown,
    Json,
    Yaml,
    Html,
    Css,
    Go,
    C,
    Cpp,
    Java,
    Ruby,
    Bash,
    Toml,
}

/// One node of a syntax tree, with its subtree.
#[derive(Debug)]
pub struct SyntaxNode {
    /// The kind of the node, as the grammar names it.
    pub kind: String,
    /// The field of the parent that the node fills, if any.
    pub field: Option<String>,
    /// Whether the grammar names the node; punctuation and keywords are not
    /// named.
    pub named: bool,
    /// The source text that the node spans.
    pub text: String,
    /// The line on which the node starts; the first line is 1.
    pub start_line: u32,
    /// The column at which the node starts; the first column is 0.
    pub start_column: usize,
    /// The line on which the node ends; the first line is 1.
    pub end_line: u32,
    pub children: Vec<SyntaxNode>,
}

/// What the parser tells of one node.
pub struct RawNode {
    pub kind: String,
    pub field: Option<String>,
    pub named: bool,
    /// The byte of the source at which the node starts.
    pub start_byte: usize,
    /// The byte of the source before which the node ends.
    pub end_byte: usize,
    pub start_row: usize,
    pub start_column: usize,
    pub end_row: usize,
    /// The number of nodes in the subtree, the node itself included.
    pub descendants: usize,
}

/// What the parser tells of one node: the model of `RawNode`.
pub struct RawView {
    pub kind: Seq<char>,
    pub field: Option<Seq<char>>,
    pub named: bool,
    pub start_byte: usize,
    pub end_byte: usize,
    pub start_row: usize,
    pub start_column: usize,
    pub end_row: usize,
    pub descendants: usize,
}

impl View for RawNode {
    type V = RawView;

    open spec fn view(&self) -> RawView {
        RawView {
            kind: self.kind@,
            field: opt_text(self.field),
            named: self.named,
            start_byte: self.start_byte,
            end_byte: self.end_byte,
            start_row: self.start_row,
            start_column: self.start_column,
            end_row: self.end_row,
            descendants: self.descendants,
        }
    }
}

/// One node of a syntax tree with its subtree: the model of `SyntaxNode`.
pub struct SyntaxModel {
    pub kind: Seq<char>,
    pub field: Option<Seq<char>>,
    pub named: bool,
    pub text: Seq<char>,
    pub start_line: u32,
    pub start_column: usize,
    pub end_line: u32,
    pub children: Seq<SyntaxModel>,
}

/// The model of a syntax tree.
pub open spec fn syntax_model(node: SyntaxNode) -> SyntaxModel
    decreases node,
{
    SyntaxModel {
        kind: node.kind@,
        field: opt_text(node.field),
        named: node.named,
        text: node.text@,
        start_line: node.start_line,
        start_column: node.start_column,
        end_line: node.end_line,
        children: Seq::new(
            node.children.len() as nat,
            |i: int|
                if 0 <= i < node.children.len() {
                    syntax_model(node.children[i])
                } else {
                    arbitrary()
                },
        ),
    }
}

/// The grammar that a `tree_sitter::Language` is.
pub uninterp spec fn grammar_held(language: tree_sitter::Language) -> Grammar;

/// The nodes of the tree that `tree_sitter::Parser::parse` returns for
/// `source` under `grammar`, in document order, parents before their
/// children; `None` where it returns no tree.
pub uninterp spec fn parsed_nodes(grammar: Grammar, source: Seq<char>) -> Option<Seq<RawView>>;

/// The nodes that a `tree_sitter::Tree` holds, in document order, parents
/// before their children.
pub uninterp spec fn tree_nodes(tree: tree_sitter::Tree) -> Seq<RawView>;

/// What `str::get` returns for the bytes of `source` from `start` up to
/// `end`; `None` where that is no part of the text.
pub uninterp spec fn text_span(source: Seq<char>, start: usize, end: usize) -> Option<Seq<char>>;

/// `tree_sitter::Language`, a grammar: carried through, never looked into.
#[verifier::external_type_specification]
#[verifier::external_body]
pub struct ExLanguage(tree_sitter::Language);

/// `tree_sitter::Tree`, what the parser returns: carried through, and read
/// node by node.
#[verifier::external_type_specification]
#[verifier::external_body]
pub struct ExTree(tree_sitter::Tree);

/// The Python grammar.
///
/// Trusted: converts `tree_sitter_python::LANGUAGE`; the contract says which
/// grammar it is.
#[verifier::external_body]
fn grammar_python() -> (r: tree_sitter::Language)
    ensures
        grammar_held(r) == Grammar::Python,
{
    tree_sitter_python::LANGUAGE.into()
}

/// The Rust grammar.
///
/// Trusted: converts `tree_sitter_rust::LANGUAGE`; the contract says which
/// grammar it is.
#[verifier::external_body]
fn grammar_rust() -> (r: tree_sitter::Language)
    ensures
        grammar_held(r) == Grammar::Rust,
{
    tree_sitter_rust::LANGUAGE.into()
}

/// The JavaScript grammar.
///
/// Trusted: converts `tree_sitter_javascript::LANGUAGE`; the contract says which
/// grammar it is.
#[verifier::external_body]
fn grammar_javascript() -> (r: tree_sitter::Language)
    ensures
        grammar_held(r) == Grammar::JavaScript,
{
    tree_sitter_javascript::LANGUAGE.into()
}

/// The TypeScript grammar.
///
/// Trusted: converts `tree_sitter_typescript::LANGUAGE_TYPESCRIPT`; the
/// contract says which grammar it is.
#[verifier::external_body]
fn grammar_typescript() -> (r: tree_sitter::Language)
    ensures
        grammar_held(r) == Grammar::TypeScript,
{
    tree_sitter_typescript::LANGUAGE_TYPESCRIPT.into()
}

/// The TSX grammar.
///
/// Trusted: converts `tree_sitter_typescript::LANGUAGE_TSX`; the contract
/// says which grammar it is.
#[verifier::external_body]
fn grammar_tsx() -> (r: tree_sitter::Language)
    ensures
        grammar_held(r) == Grammar::Tsx,
{
    tree_sitter_typescript::LANGUAGE_TSX.into()
}

/// The Markdown grammar.
///
/// Trusted: converts `tree_sitter_md::LANGUAGE`; the contract says which
/// grammar it is.
#[verifier::external_body]
fn grammar_markdown() -> (r: tree_sitter::Language)
    ensures
        grammar_held(r) == Grammar::Markdown,
{
    tree_sitter_md::LANGUAGE.into()
}

/// The JSON grammar.
///
/// Trusted: converts `tree_sitter_json::LANGUAGE`; the contract says which
/// grammar it is.
#[verifier::external_body]
fn grammar_json() -> (r: tree_sitter::Language)
    ensures
        grammar_held(r) == Grammar::Json,
{
    tree_sitter_json::LANGUAGE.into()
}

/// The YAML grammar.
///
/// Trusted: converts `tree_sitter_yaml::LANGUAGE`; the contract says which
/// grammar it is.
#[verifier::external_body]
fn grammar_yaml() -> (r: tree_sitter::Language)
    ensures
        grammar_held(r) == Grammar::Yaml,
{
    tree_sitter_yaml::LANGUAGE.into()
}

/// The HTML grammar.
///
/// Trusted: converts `tree_sitter_html::LANGUAGE`; the contract says which
/// grammar it is.
#[verifier::external_body]
fn grammar_html() -> (r: tree_sitter::Language)
    ensures
        grammar_held(r) == Grammar::Html,
{
    tree_sitter_html::LANGUAGE.into()
}

/// The CSS grammar.
///
/// Trusted: converts `tree_sitter_css::LANGUAGE`; the contract says which
/// grammar it is.
#[verifier::external_body]
fn grammar_css() -> (r: tree_sitter::Language)
    ensures
        grammar_held(r) == Grammar::Css,
{
    tree_sitter_css::LANGUAGE.into()
}

/// The Go grammar.
///
/// Trusted: converts `tree_sitter_go::LANGUAGE`; the contract says which
/// grammar it is.
#[verifier::external_body]
fn grammar_go() -> (r: tree_sitter::Language)
    ensures
        grammar_held(r) == Grammar::Go,
{
    tree_sitter_go::LANGUAGE.into()
}

/// The C grammar.
///
/// Trusted: converts `tree_sitter_c::LANGUAGE`; the contract says which
/// grammar it is.
#[verifier::external_body]
fn grammar_c() -> (r: tree_sitter::Language)
    ensures
        grammar_held(r) == Grammar::C,
{
    tree_sitter_c::LANGUAGE.into()
}

/// The C++ grammar.
///
/// Trusted: converts `tree_sitter_cpp::LANGUAGE`; the contract says which
/// grammar it is.
#[verifier::external_body]
fn grammar_cpp() -> (r: tree_sitter::Language)
    ensures
        grammar_held(r) == Grammar::Cpp,
{
    tree_sitter_cpp::LANGUAGE.into()
}

/// The Java grammar.
///
/// Trusted: converts `tree_sitter_java::LANGUAGE`; the contract says which
/// grammar it is.
#[verifier::external_body]
fn grammar_java() -> (r: tree_sitter::Language)
    ensures
        grammar_held(r) == Grammar::Java,
{
    tree_sitter_java::LANGUAGE.into()
}

/// The Ruby grammar.
///
/// Trusted: converts `tree_sitter_ruby::LANGUAGE`; the contract says which
/// grammar it is.
#[verifier::external_body]
fn grammar_ruby() -> (r: tree_sitter::Language)
    ensures
        grammar_held(r) == Grammar::Ruby,
{
    tree_sitter_ruby::LANGUAGE.into()
}

/// The Bash grammar.
///
/// Trusted: converts `tree_sitter_bash::LANGUAGE`; the contract says which
/// grammar it is.
#[verifier::external_body]
fn grammar_bash() -> (r: tree_sitter::Language)
    ensures
        grammar_held(r) == Grammar::Bash,
{
    tree_sitter_bash::LANGUAGE.into()
}

/// The TOML grammar.
///
/// Trusted: calls `tree_sitter_toml_updated::language`; the contract says
/// which grammar it returns.
#[verifier::external_body]
fn grammar_toml() -> (r: tree_sitter::Language)
    ensures
        grammar_held(r) == Grammar::Toml,
{
    tree_sitter_toml_updated::language()
}

/// Parses `source` with a grammar.
///
/// Trusted: makes a `tree_sitter::Parser`, gives it the grammar with
/// `set_language` and calls `Parser::parse`, with no earlier tree, no time
/// limit and no way to stop it, so that what comes back rests on the
/// grammar and the text alone. The contract names the nodes of the tree,
/// `None` where the grammar is refused or the parser returns no tree.
#[verifier::external_body]
fn parse_with(language: &tree_sitter::Language, source: &str) -> (r: Option<tree_sitter::Tree>)
    ensures
        match r {
            Some(tree) => parsed_nodes(grammar_held(*language), source@) == Some(tree_nodes(tree)),
            None => parsed_nodes(grammar_held(*language), source@) is None,
        },
{
    let mut parser = tree_sitter::Parser::new();
    parser.set_language(language).ok()?;
    parser.parse(source, None)
}

/// The number of nodes of a tree.
///
/// Trusted: calls `Node::descendant_count` on the root, which counts the
/// root and all that lies below it.
#[verifier::external_body]
fn node_count(tree: &tree_sitter::Tree) -> (r: usize)
    ensures
        r == tree_nodes(*tree).len(),
{
    tree.root_node().descendant_count()
}

/// What the parser tells of the node that stands at `index` when the nodes
/// are counted in document order, parents before their children.
///
/// Trusted: moves a `TreeCursor` with `goto_descendant` and reads the node
/// there: its kind, the field it fills, whether it is named, the bytes and
/// rows it spans, and `Node::descendant_count`.
#[verifier::external_body]
fn node_at(tree: &tree_sitter::Tree, index: usize) -> (r: RawNode)
    ensures
        index < tree_nodes(*tree).len() ==> r@ == tree_nodes(*tree)[index as int],
{
    let mut cursor = tree.walk();
    cursor.goto_descendant(index);
    let node = cursor.node();
    RawNode {
        kind: node.kind().to_string(),
        field: cursor.field_name().map(|f| f.to_string()),
        named: node.is_named(),
        start_byte: node.start_byte(),
        end_byte: node.end_byte(),
        start_row: node.start_position().row,
        start_column: node.start_position().column,
        end_row: node.end_position().row,
        descendants: node.descendant_count(),
    }
}

/// The part of `source` that lies between two bytes.
///
/// Trusted: calls `str::get` with the range from `start` up to `end`,
/// which gives `None` where the range is no part of the text; the contract
/// names what it returns.
#[verifier::external_body]
fn text_between(source: &str, start: usize, end: usize) -> (r: Option<String>)
    ensures
        opt_text(r) == text_span(source@, start, end),
{
    source.get(start..end).map(|t| t.to_string())
}

/// The line of a row: rows count from 0 and lines from 1. Rows that would
/// pass the largest line are put on it.
pub open spec fn line_of_row(row: usize) -> u32 {
    if row >= u32::MAX {
        u32::MAX
    } else {
        (row + 1) as u32
    }
}

/// The line of a row.
pub fn row_to_line(row: usize) -> (line: u32)
    ensures
        line == line_of_row(row),
        line >= 1,
{
    if row >= 0xFFFF_FFFF {
        0xFFFF_FFFF
    } else {
        (row + 1) as u32
    }
}

/// The grammar behind the name.
fn language_of(grammar: Grammar) -> (r: tree_sitter::Language)
    ensures
        grammar_held(r) == grammar,
{
    match grammar {
        Grammar::Python => grammar_python(),
        Grammar::Rust => grammar_rust(),
        Grammar::JavaScript => grammar_javascript(),
        Grammar::TypeScript => grammar_typescript(),
        Grammar::Tsx => grammar_tsx(),
        Grammar::Markdown => grammar_markdown(),
        Grammar::Json => grammar_json(),
        Grammar::Yaml => grammar_yaml(),
        Grammar::Html => grammar_html(),
        Grammar::Css => grammar_css(),
        Grammar::Go => grammar_go(),
        Grammar::C => grammar_c(),
        Grammar::Cpp => grammar_cpp(),
        Grammar::Java => grammar_java(),
        Grammar::Ruby => grammar_ruby(),
        Grammar::Bash => grammar_bash(),
        Grammar::Toml => grammar_toml(),
    }
}

/// Whether every line of the tree is at least 1 and no node ends before it
/// starts.
pub open spec fn lines_in_order(node: SyntaxNode) -> bool
    decreases node,
{
    &&& 1 <= node.start_line <= node.end_line
    &&& forall|i: int|
        0 <= i < node.children.len() ==> lines_in_order(#[trigger] node.children[i])
}

/// Where the subtree of the node at `index` ends: where the parser says,
/// but not before the node itself and not after `limit`.
pub open spec fn span_end(nodes: Seq<RawView>, index: int, limit: int) -> int {
    let span = if nodes[index].descendants == 0 {
        1
    } else {
        nodes[index].descendants as int
    };
    if span > limit - index {
        limit
    } else {
        index + span
    }
}

/// The text of `source` between two bytes, or nothing where that is no
/// part of the text.
pub open spec fn span_text_of(source: Seq<char>, start: usize, end: usize) -> Seq<char> {
    match text_span(source, start, end) {
        Some(t) => t,
        None => Seq::empty(),
    }
}

/// The last line of a node that starts on `start_row` and ends on
/// `end_row`: no node ends before it starts.
pub open spec fn last_line_of(start_row: usize, end_row: usize) -> u32 {
    if line_of_row(end_row) < line_of_row(start_row) {
        line_of_row(start_row)
    } else {
        line_of_row(end_row)
    }
}

/// The tree of the node at `index` among the nodes of a parse of `source`,
/// where its subtree ends at `limit` at the latest: the node with its text
/// and lines, and below it the trees of the nodes that follow up to the end
/// of its subtree.
pub open spec fn subtree(nodes: Seq<RawView>, source: Seq<char>, index: int, limit: int) -> SyntaxModel
    decreases limit - index, 0int,
{
    let raw = nodes[index];
    SyntaxModel {
        kind: raw.kind,
        field: raw.field,
        named: raw.named,
        text: span_text_of(source, raw.start_byte, raw.end_byte),
        start_line: line_of_row(raw.start_row),
        start_column: raw.start_column,
        end_line: last_line_of(raw.start_row, raw.end_row),
        children: if index < limit {
            subtrees(nodes, source, index + 1, span_end(nodes, index, limit))
        } else {
            Seq::empty()
        },
    }
}

/// The trees of the nodes from `child` up to `end` that lie side by side:
/// the tree of the node at `child`, then those behind its subtree.
pub open spec fn subtrees(nodes: Seq<RawView>, source: Seq<char>, child: int, end: int) -> Seq<
    SyntaxModel,
>
    decreases end - child, 1int,
{
    if child >= end {
        Seq::empty()
    } else {
        seq![subtree(nodes, source, child, end)] + subtrees(
            nodes,
            source,
            span_end(nodes, child, end),
            end,
        )
    }
}

/// The tree that parsing `source` with `grammar` gives; `None` where the
/// parser gives no tree, or one without a node.
pub open spec fn parsed(grammar: Grammar, source: Seq<char>) -> Option<SyntaxModel> {
    match parsed_nodes(grammar, source) {
        Some(nodes) => if nodes.len() == 0 {
            None
        } else {
            Some(subtree(nodes, source, 0, nodes.len() as int))
        },
        None => None,
    }
}

/// Whether `tree` is what parsing `source` with `grammar` gives.
pub open spec fn is_parse_of(tree: SyntaxNode, grammar: Grammar, source: Seq<char>) -> bool {
    lines_in_order(tree) && parsed(grammar, source) == Some(syntax_model(tree))
}

/// The subtree of the node at `index`, and the index behind it. The subtree
/// ends where the parser says, but not before the node itself and not after
/// `limit`.
fn convert(tree: &tree_sitter::Tree, source: &str, index: usize, limit: usize) -> (r: (
    SyntaxNode,
    usize,
))
    requires
        index < limit <= tree_nodes(*tree).len(),
    ensures
        r.1 == span_end(tree_nodes(*tree), index as int, limit as int),
        index < r.1 <= limit,
        syntax_model(r.0) == subtree(tree_nodes(*tree), source@, index as int, limit as int),
        lines_in_order(r.0),
    decreases limit - index,
{
    let ghost nodes = tree_nodes(*tree);
    let raw = node_at(tree, index);
    let span: usize = if raw.descendants == 0 {
        1
    } else {
        raw.descendants
    };
    let end: usize = if span > limit - index {
        limit
    } else {
        index + span
    };
    let mut children: Vec<SyntaxNode> = Vec::new();
    let mut child: usize = index + 1;
    let ghost mut done: Seq<SyntaxModel> = Seq::empty();
    assert(subtrees(nodes, source@, index + 1, end as int) =~= done + subtrees(
        nodes,
        source@,
        child as int,
        end as int,
    ));
    while child < end
        invariant
            index < child <= end <= limit,
            limit <= tree_nodes(*tree).len(),
            nodes == tree_nodes(*tree),
            done.len() == children.len(),
            forall|i: int| 0 <= i < children.len() ==> syntax_model(#[trigger] children[i]) == done[i],
            forall|i: int| 0 <= i < children.len() ==> lines_in_order(#[trigger] children[i]),
            subtrees(nodes, source@, index + 1, end as int) == done + subtrees(
                nodes,
                source@,
                child as int,
                end as int,
            ),
        decreases end - child,
    {
        let (node, next) = convert(tree, source, child, end);
        proof {
            let rest = subtrees(nodes, source@, next as int, end as int);
            assert(done.push(syntax_model(node)) + rest =~= done + (seq![syntax_model(node)]
                + rest));
            done = done.push(syntax_model(node));
        }
        children.push(node);
        child = next;
    }
    let text = match text_between(source, raw.start_byte, raw.end_byte) {
        Some(t) => t,
        None => String::new(),
    };
    let start_line = row_to_line(raw.start_row);
    let last_line = row_to_line(raw.end_row);
    let end_line = if last_line < start_line {
        start_line
    } else {
        last_line
    };
    let node = SyntaxNode {
        kind: raw.kind,
        field: raw.field,
        named: raw.named,
        text,
        start_line,
        start_column: raw.start_column,
        end_line,
        children,
    };
    proof {
        assert(done + subtrees(nodes, source@, end as int, end as int) =~= done);
        assert(syntax_model(node).children =~= done);
    }
    (node, end)
}

/// Parses `source` with `grammar` into a tree of plain values: the tree
/// that the parser's nodes make up, in which lines count from 1 and no
/// node ends before it starts. `None` where the parser gives no tree.
pub fn parse_source(grammar: Grammar, source: &str) -> (r: Option<SyntaxNode>)
    ensures
        match r {
            Some(tree) => is_parse_of(tree, grammar, source@),
            None => parsed(grammar, source@) is None,
        },
{
    let language = language_of(grammar);
    match parse_with(&language, source) {
        Some(tree) => {
            let count = node_count(&tree);
            if count == 0 {
                None
            } else {
                let (root, _) = convert(&tree, source, 0, count);
                Some(root)
            }
        },
        None => None,
    }
}


/// The position of the first node from `from` on that fills `field`, or the
/// number of nodes if none does.
pub open spec fn field_position(nodes: Seq<SyntaxNode>, from: int, field: Seq<char>) -> int
    decreases nodes.len() - from,
{
    if from < 0 || from >= nodes.len() {
        nodes.len() as int
    } else if nodes[from].field is Some && nodes[from].field->0@ == field {
        from
    } else {
        field_position(nodes, from + 1, field)
    }
}

/// The position of the first node from `from` on that has one of two kinds,
/// or the number of nodes if none has.
pub open spec fn kind_position(
    nodes: Seq<SyntaxNode>,
    from: int,
    kind: Seq<char>,
    other: Seq<char>,
) -> int
    decreases nodes.len() - from,
{
    if from < 0 || from >= nodes.len() {
        nodes.len() as int
    } else if nodes[from].kind@ == kind || nodes[from].kind@ == other {
        from
    } else {
        kind_position(nodes, from + 1, kind, other)
    }
}

/// The text of an optional string.
pub open spec fn opt_text(o: Option<String>) -> Option<Seq<char>> {
    match o {
        Some(s) => Some(s@),
        None => None,
    }
}

impl SyntaxNode {
    /// Whether a child fills `field`.
    pub open spec fn has_field(&self, field: Seq<char>) -> bool {
        field_position(self.children@, 0, field) < self.children.len()
    }

    /// The first child that fills `field`; meant for nodes that have one.
    pub open spec fn field_node(&self, field: Seq<char>) -> SyntaxNode {
        self.children[field_position(self.children@, 0, field)]
    }

    /// The text of the first child that fills `field`, if there is one.
    pub open spec fn field_text(&self, field: Seq<char>) -> Option<Seq<char>> {
        if self.has_field(field) {
            Some(self.field_node(field).text@)
        } else {
            None
        }
    }

    /// Tests the kind of the node.
    pub fn is_kind(&self, kind: &str) -> (r: bool)
        ensures
            r == (self.kind@ == kind@),
    {
        crate::text::text_is(self.kind.as_str(), kind)
    }

    /// The first child that fills `field`.
    pub fn child_by_field_name(&self, field: &str) -> (r: Option<&SyntaxNode>)
        ensures
            r is Some == self.has_field(field@),
            r is Some ==> *r->0 == self.field_node(field@),
    {
        let mut i: usize = 0;
        while i < self.children.len()
            invariant
                i <= self.children.len(),
                field_position(self.children@, 0, field@) == field_position(
                    self.children@,
                    i as int,
                    field@,
                ),
            decreases self.children.len() - i,
        {
            let hit = match &self.children[i].field {
                Some(f) => crate::text::text_is(f.as_str(), field),
                None => false,
            };
            if hit {
                return Some(&self.children[i]);
            }
            i += 1;
        }
        None
    }

    /// The position of the first child that fills `field`.
    pub fn position_of_field(&self, field: &str) -> (r: Option<usize>)
        ensures
            r is Some == self.has_field(field@),
            r is Some ==> r->0 == field_position(self.children@, 0, field@) && r->0
                < self.children.len(),
    {
        let mut i: usize = 0;
        while i < self.children.len()
            invariant
                i <= self.children.len(),
                field_position(self.children@, 0, field@) == field_position(
                    self.children@,
                    i as int,
                    field@,
                ),
            decreases self.children.len() - i,
        {
            let hit = match &self.children[i].field {
                Some(f) => crate::text::text_is(f.as_str(), field),
                None => false,
            };
            if hit {
                return Some(i);
            }
            i += 1;
        }
        None
    }

    /// The first child of kind `kind` or `other`.
    pub fn child_of_kind(&self, kind: &str, other: &str) -> (r: Option<&SyntaxNode>)
        ensures
            r is Some == (kind_position(self.children@, 0, kind@, other@) < self.children.len()),
            r is Some ==> *r->0 == self.children[kind_position(
                self.children@,
                0,
                kind@,
                other@,
            )],
    {
        let mut i: usize = 0;
        while i < self.children.len()
            invariant
                i <= self.children.len(),
                kind_position(self.children@, 0, kind@, other@) == kind_position(
                    self.children@,
                    i as int,
                    kind@,
                    other@,
                ),
            decreases self.children.len() - i,
        {
            if self.children[i].is_kind(kind) || self.children[i].is_kind(other) {
                return Some(&self.children[i]);
            }
            i += 1;
        }
        None
    }
}


/// The grammar for files with the extension `ext`, which is in lowercase
/// and without the dot.
pub open spec fn grammar_of_extension(ext: Seq<char>) -> Option<Grammar> {
    if ext == "py"@ || ext == "pyi"@ || ext == "pyw"@ {
        Some(Grammar::Python)
    } else if ext == "rs"@ {
        Some(Grammar::Rust)
    } else if ext == "js"@ || ext == "mjs"@ || ext == "cjs"@ || ext == "jsx"@ {
        Some(Grammar::JavaScript)
    } else if ext == "ts"@ || ext == "mts"@ || ext == "cts"@ {
        Some(Grammar::TypeScript)
    } else if ext == "tsx"@ {
        Some(Grammar::Tsx)
    } else if ext == "md"@ || ext == "markdown"@ {
        Some(Grammar::Markdown)
    } else if ext == "json"@ || ext == "jsonc"@ {
        Some(Grammar::Json)
    } else if ext == "yaml"@ || ext == "yml"@ {
        Some(Grammar::Yaml)
    } else if ext == "html"@ || ext == "htm"@ {
        Some(Grammar::Html)
    } else if ext == "css"@ || ext == "scss"@ {
        Some(Grammar::Css)
    } else if ext == "go"@ {
        Some(Grammar::Go)
    } else if ext == "c"@ || ext == "h"@ {
        Some(Grammar::C)
    } else if ext == "cpp"@ || ext == "cc"@ || ext == "cxx"@ || ext == "hpp"@ || ext == "hh"@
        || ext == "hxx"@ {
        Some(Grammar::Cpp)
    } else if ext == "java"@ {
        Some(Grammar::Java)
    } else if ext == "rb"@ {
        Some(Grammar::Ruby)
    } else if ext == "sh"@ || ext == "bash"@ || ext == "zsh"@ {
        Some(Grammar::Bash)
    } else if ext == "toml"@ {
        Some(Grammar::Toml)
    } else {
        None
    }
}

/// The grammar for the file at `path`, by the extension of its name,
/// whatever the case of its letters.
pub open spec fn grammar_of_file(path: Seq<char>) -> Option<Grammar> {
    match crate::paths::extension_of(crate::paths::base_name(path)) {
        Some(ext) => grammar_of_extension(crate::text::lowercase_of(ext)),
        None => None,
    }
}

/// Tests whether `ext` is the word `word`.
fn is_word(ext: &Vec<char>, word: &str) -> (r: bool)
    ensures
        r == (ext@ == word@),
{
    let w = crate::text::chars_of(word);
    crate::text::same(ext, &w)
}

impl Grammar {
    /// The grammar for the file at `path`; `None` where the name has no
    /// extension or one that no grammar is for.
    pub fn from_path(path: &str) -> (r: Option<Grammar>)
        ensures
            r == grammar_of_file(path@),
    {
        let name = crate::paths::file_name(&crate::text::chars_of(path));
        match crate::paths::extension(&name) {
            Some(ext) => {
                let ext = crate::text::lower(&ext);
                if is_word(&ext, "py") || is_word(&ext, "pyi") || is_word(&ext, "pyw") {
                    Some(Grammar::Python)
                } else if is_word(&ext, "rs") {
                    Some(Grammar::Rust)
                } else if is_word(&ext, "js") || is_word(&ext, "mjs") || is_word(&ext, "cjs")
                    || is_word(&ext, "jsx") {
                    Some(Grammar::JavaScript)
                } else if is_word(&ext, "ts") || is_word(&ext, "mts") || is_word(&ext, "cts") {
                    Some(Grammar::TypeScript)
                } else if is_word(&ext, "tsx") {
                    Some(Grammar::Tsx)
                } else if is_word(&ext, "md") || is_word(&ext, "markdown") {
                    Some(Grammar::Markdown)
                } else if is_word(&ext, "json") || is_word(&ext, "jsonc") {
                    Some(Grammar::Json)
                } else if is_word(&ext, "yaml") || is_word(&ext, "yml") {
                    Some(Grammar::Yaml)
                } else if is_word(&ext, "html") || is_word(&ext, "htm") {
                    Some(Grammar::Html)
                } else if is_word(&ext, "css") || is_word(&ext, "scss") {
                    Some(Grammar::Css)
                } else if is_word(&ext, "go") {
                    Some(Grammar::Go)
                } else if is_word(&ext, "c") || is_word(&ext, "h") {
                    Some(Grammar::C)
                } else if is_word(&ext, "cpp") || is_word(&ext, "cc") || is_word(&ext, "cxx")
                    || is_word(&ext, "hpp") || is_word(&ext, "hh") || is_word(&ext, "hxx") {
                    Some(Grammar::Cpp)
                } else if is_word(&ext, "java") {
                    Some(Grammar::Java)
                } else if is_word(&ext, "rb") {
                    Some(Grammar::Ruby)
                } else if is_word(&ext, "sh") || is_word(&ext, "bash") || is_word(&ext, "zsh") {
                    Some(Grammar::Bash)
                } else if is_word(&ext, "toml") {
                    Some(Grammar::Toml)
                } else {
                    None
                }
            },
            None => None,
        }
    }
}

/// The parsers of all grammars.
pub struct Parsers {}

impl Parsers {
    /// The parsers of all grammars.
    pub fn new() -> (r: Parsers) {
        Parsers {  }
    }

    /// Parses `source` with the grammar that the extension of `path`
    /// selects: the grammar, and the tree that parsing the source with it
    /// gives. `None` for a path that selects no grammar, and where the
    /// parser gives no tree.
    pub fn parse(&mut self, path: &str, source: &str) -> (r: Option<(Grammar, SyntaxNode)>)
        ensures
            match r {
                Some((grammar, tree)) => grammar_of_file(path@) == Some(grammar) && is_parse_of(
                    tree,
                    grammar,
                    source@,
                ),
                None => grammar_of_file(path@) is None || parsed(
                    grammar_of_file(path@)->0,
                    source@,
                ) is None,
            },
    {
        match Grammar::from_path(path) {
            Some(grammar) => match parse_source(grammar, source) {
                Some(tree) => Some((grammar, tree)),
                None => None,
            },
            None => None,
        }
    }
}

} // verus!
