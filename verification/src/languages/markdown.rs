//! Markdown: headings are its symbols.

use crate::text::{chars_of, concat, has_prefix, is_digit, starts_with, trim, trimmed};
use crate::languages::{
    Export, export_views, ExportModel, first_child_of_kinds, first_of_kinds, Import,
    import_views, ImportModel, LanguageSupport, make_symbol, plain_symbol, prefixed, Symbol,
    SymbolKind, SymbolModel, Visibility, VisibilityMechanism, words,
};
use crate::syntax::{Grammar, SyntaxNode};
use vstd::prelude::*;

verus! {

/// The kinds of nodes that hold the text of a heading.
pub open spec fn text_kinds() -> Seq<Seq<char>> {
    seq!["heading_content"@, "inline"@]
}

/// The text of a heading: that of its first content child, without white
/// space around it; empty where it has none.
pub open spec fn heading_text(node: SyntaxNode) -> Seq<char> {
    let at = first_of_kinds(node.children@, 0, text_kinds());
    if at < node.children.len() {
        trimmed(node.children[at].text@)
    } else {
        Seq::empty()
    }
}

/// The position of the first node from `from` on whose kind begins with
/// `atx_h`, or the number of nodes if there is none.
pub open spec fn marker_position(nodes: Seq<SyntaxNode>, from: int) -> int
    decreases nodes.len() - from,
{
    if from < 0 || from >= nodes.len() {
        nodes.len() as int
    } else if has_prefix(nodes[from].kind@, "atx_h"@) {
        from
    } else {
        marker_position(nodes, from + 1)
    }
}

/// The level that a marker of the given kind stands for: the digit that
/// ends the kind, or 1 where it ends otherwise.
pub open spec fn level_of_kind(kind: Seq<char>) -> usize {
    if kind.len() > 0 && is_digit(kind.last()) {
        (kind.last() as u32 - '0' as u32) as usize
    } else {
        1
    }
}

/// The level of a heading: that of its first marker, or 1 without one.
pub open spec fn heading_level(node: SyntaxNode) -> usize {
    let at = marker_position(node.children@, 0);
    if at < node.children.len() {
        level_of_kind(node.children[at].kind@)
    } else {
        1
    }
}

/// `n` number signs.
pub open spec fn hashes(n: usize) -> Seq<char> {
    Seq::new(n as nat, |i: int| '#')
}

/// The level of a heading.
pub fn level_of(node: &SyntaxNode) -> (r: usize)
    ensures
        r == heading_level(*node),
        r <= 9,
{
    let marker = chars_of("atx_h");
    let mut i: usize = 0;
    while i < node.children.len()
        invariant
            i <= node.children.len(),
            marker@ == "atx_h"@,
            marker_position(node.children@, 0) == marker_position(node.children@, i as int),
        decreases node.children.len() - i,
    {
        let kind = chars_of(node.children[i].kind.as_str());
        if starts_with(&kind, &marker) {
            if kind.len() > 0 {
                let last = kind[kind.len() - 1];
                if '0' <= last && last <= '9' {
                    return (last as u32 - '0' as u32) as usize;
                }
            }
            return 1;
        }
        i += 1;
    }
    1
}

/// `n` number signs.
pub fn number_signs(n: usize) -> (r: Vec<char>)
    ensures
        r@ == hashes(n),
{
    let mut r: Vec<char> = Vec::new();
    let mut i: usize = 0;
    while i < n
        invariant
            i <= n,
            r@ == hashes(i),
        decreases n - i,
    {
        r.push('#');
        assert(r@ =~= hashes((i + 1) as usize));
        i += 1;
    }
    r
}

/// Markdown language support.
pub struct Markdown;

impl LanguageSupport for Markdown {
    /// The kinds of nodes that define functions.
    open spec fn function_kind_list(&self) -> Seq<Seq<char>> {
        Seq::<Seq<char>>::empty()
    }

    /// The kinds of nodes that hold other symbols.
    open spec fn container_kind_list(&self) -> Seq<Seq<char>> {
        seq!["atx_heading"@, "setext_heading"@]
    }

    /// The kinds of nodes that define types.
    open spec fn type_kind_list(&self) -> Seq<Seq<char>> {
        Seq::<Seq<char>>::empty()
    }

    /// The kinds of nodes that import.
    open spec fn import_kind_list(&self) -> Seq<Seq<char>> {
        Seq::<Seq<char>>::empty()
    }

    /// The kinds of nodes that may show a symbol to other files.
    open spec fn public_symbol_kind_list(&self) -> Seq<Seq<char>> {
        Seq::<Seq<char>>::empty()
    }

    /// No node defines a function.
    open spec fn function_at(&self, node: SyntaxNode, in_container: bool) -> Option<SymbolModel> {
        None
    }

    /// A heading with text, shown as one number sign for each level, a
    /// space and the text.
    open spec fn container_at(&self, node: SyntaxNode) -> Option<SymbolModel> {
        if heading_text(node).len() == 0 {
            None
        } else {
            Some(
                plain_symbol(
                    node,
                    heading_text(node),
                    SymbolKind::Heading,
                    hashes(heading_level(node)) + " "@ + heading_text(node),
                    Visibility::Public,
                ),
            )
        }
    }

    /// A type is what the node defines as a container.
    open spec fn type_at(&self, node: SyntaxNode) -> Option<SymbolModel> {
        self.container_at(node)
    }

    /// No node imports.
    open spec fn imports_at(&self, node: SyntaxNode) -> Seq<ImportModel> {
        Seq::empty()
    }

    /// No node shows a symbol to other files.
    open spec fn exports_at(&self, node: SyntaxNode) -> Seq<ExportModel> {
        Seq::empty()
    }

    /// Everything is public.
    open spec fn visibility_at(&self, node: SyntaxNode) -> Visibility {
        Visibility::Public
    }

    /// The name of the language: `Markdown`.
    fn name(&self) -> (r: &'static str)
        ensures
            r@ == "Markdown"@,
    {
        "Markdown"
    }

    /// The file extensions of the language, without the dot.
    fn extensions(&self) -> (r: Vec<&'static str>)
        ensures
            words(r@) == seq!["md"@, "markdown"@],
    {
        let r: Vec<&'static str> = vec!["md", "markdown"];
        assert(words(r@) =~= seq!["md"@, "markdown"@]);
        r
    }

    /// The name of the grammar: `markdown`.
    fn grammar_name(&self) -> (r: &'static str)
        ensures
            r@ == "markdown"@,
    {
        "markdown"
    }

    /// The grammar that parses the language.
    fn grammar(&self) -> (r: Option<Grammar>)
        ensures
            r == Some(Grammar::Markdown),
    {
        Some(Grammar::Markdown)
    }

    /// The key under which packages of the language are indexed: none.
    fn lang_key(&self) -> (r: &'static str)
        ensures
            r@ == ""@,
    {
        ""
    }

    /// The kinds of nodes that hold other symbols.
    fn container_kinds(&self) -> (r: Vec<&'static str>) {
        let r: Vec<&'static str> = vec!["atx_heading", "setext_heading"];
        assert(words(r@) =~= self.container_kind_list());
        r
    }

    /// The kinds of nodes that define functions.
    fn function_kinds(&self) -> (r: Vec<&'static str>) {
        let r: Vec<&'static str> = Vec::new();
        assert(words(r@) =~= Seq::<Seq<char>>::empty());
        r
    }

    /// The kinds of nodes that define types.
    fn type_kinds(&self) -> (r: Vec<&'static str>) {
        let r: Vec<&'static str> = Vec::new();
        assert(words(r@) =~= Seq::<Seq<char>>::empty());
        r
    }

    /// The kinds of nodes that import.
    fn import_kinds(&self) -> (r: Vec<&'static str>) {
        let r: Vec<&'static str> = Vec::new();
        assert(words(r@) =~= Seq::<Seq<char>>::empty());
        r
    }

    /// The kinds of nodes that may show a symbol to other files.
    fn public_symbol_kinds(&self) -> (r: Vec<&'static str>) {
        let r: Vec<&'static str> = Vec::new();
        assert(words(r@) =~= Seq::<Seq<char>>::empty());
        r
    }

    /// How the language tells what is visible.
    fn visibility_mechanism(&self) -> (r: VisibilityMechanism)
        ensures
            r == VisibilityMechanism::NotApplicable,
    {
        VisibilityMechanism::NotApplicable
    }

    /// The kinds of nodes that open a scope.
    fn scope_creating_kinds(&self) -> (r: Vec<&'static str>)
        ensures
            words(r@) == Seq::<Seq<char>>::empty(),
    {
        let r: Vec<&'static str> = Vec::new();
        assert(words(r@) =~= Seq::<Seq<char>>::empty());
        r
    }

    /// The kinds of nodes that steer control flow.
    fn control_flow_kinds(&self) -> (r: Vec<&'static str>)
        ensures
            words(r@) == Seq::<Seq<char>>::empty(),
    {
        let r: Vec<&'static str> = Vec::new();
        assert(words(r@) =~= Seq::<Seq<char>>::empty());
        r
    }

    /// The kinds of nodes that add to the complexity of a function.
    fn complexity_nodes(&self) -> (r: Vec<&'static str>)
        ensures
            words(r@) == Seq::<Seq<char>>::empty(),
    {
        let r: Vec<&'static str> = Vec::new();
        assert(words(r@) =~= Seq::<Seq<char>>::empty());
        r
    }

    /// The kinds of nodes that add to the depth of nesting.
    fn nesting_nodes(&self) -> (r: Vec<&'static str>)
        ensures
            words(r@) == Seq::<Seq<char>>::empty(),
    {
        let r: Vec<&'static str> = Vec::new();
        assert(words(r@) =~= Seq::<Seq<char>>::empty());
        r
    }

    /// No node defines a function.
    fn extract_function(&self, node: &SyntaxNode, in_container: bool) -> (r: Option<Symbol>) {
        None
    }

    /// The heading that `node` is.
    fn extract_container(&self, node: &SyntaxNode) -> (r: Option<Symbol>) {
        let kinds: Vec<&'static str> = vec!["heading_content", "inline"];
        assert(words(kinds@) =~= text_kinds());
        let text: Vec<char> = match first_child_of_kinds(node, &kinds) {
            Some(c) => trim(&chars_of(c.text.as_str())),
            None => Vec::new(),
        };
        if text.len() == 0 {
            return None;
        }
        let level = level_of(node);
        let signature = concat(&number_signs(level), &prefixed(" ", &text));
        assert(signature@ =~= hashes(level) + " "@ + text@);
        Some(make_symbol(node, &text, SymbolKind::Heading, &signature, Visibility::Public))
    }

    /// A type is what the node defines as a container.
    fn extract_type(&self, node: &SyntaxNode) -> (r: Option<Symbol>) {
        self.extract_container(node)
    }

    /// No node imports.
    fn extract_imports(&self, node: &SyntaxNode) -> (r: Vec<Import>) {
        let r: Vec<Import> = Vec::new();
        assert(import_views(r@) =~= Seq::<ImportModel>::empty());
        r
    }

    /// No node shows a symbol to other files.
    fn extract_public_symbols(&self, node: &SyntaxNode) -> (r: Vec<Export>) {
        let r: Vec<Export> = Vec::new();
        assert(export_views(r@) =~= Seq::<ExportModel>::empty());
        r
    }

    /// Everything is public.
    fn get_visibility(&self, node: &SyntaxNode) -> (r: Visibility) {
        Visibility::Public
    }

    /// Everything is public.
    fn is_public(&self, node: &SyntaxNode) -> (r: bool) {
        true
    }
}

} // verus!
