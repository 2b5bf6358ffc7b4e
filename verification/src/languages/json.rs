//! JSON: the keys of objects are its symbols.

use crate::text::{chars_of, strip_char, trim_matches};
use crate::languages::{
    Export, export_views, ExportModel, Import, import_views, ImportModel, LanguageSupport,
    make_symbol, plain_symbol, Symbol, SymbolKind, SymbolModel, Visibility, VisibilityMechanism,
    words,
};
use crate::syntax::{Grammar, SyntaxNode};
use vstd::prelude::*;

verus! {

/// JSON language support.
pub struct Json;

impl LanguageSupport for Json {
    /// The kinds of nodes that define functions.
    open spec fn function_kind_list(&self) -> Seq<Seq<char>> {
        Seq::<Seq<char>>::empty()
    }

    /// The kinds of nodes that hold other symbols.
    open spec fn container_kind_list(&self) -> Seq<Seq<char>> {
        seq!["object"@]
    }

    /// The kinds of nodes that define types.
    open spec fn type_kind_list(&self) -> Seq<Seq<char>> {
        Seq::<Seq<char>>::empty()
    }

    /// The kinds of nodes that import.
    open spec fn import_kind_list(&self) -> Seq<Seq<char>> {
        Seq::<Seq<char>>::empty()
    }

    /// The kinds of nodes that may show a symbol to other files.
    open spec fn public_symbol_kind_list(&self) -> Seq<Seq<char>> {
        Seq::<Seq<char>>::empty()
    }

    /// No node defines a function.
    open spec fn function_at(&self, node: SyntaxNode, in_container: bool) -> Option<SymbolModel> {
        None
    }

    /// A `pair` with a key is a variable named by its key, without the quotes around it.
    open spec fn container_at(&self, node: SyntaxNode) -> Option<SymbolModel> {
        if node.kind@ == "pair"@ && node.has_field("key"@) {
            Some(
                plain_symbol(
                    node,
                    strip_char(node.field_node("key"@).text@, '"'),
                    SymbolKind::Variable,
                    strip_char(node.field_node("key"@).text@, '"'),
                    Visibility::Public,
                ),
            )
        } else {
            None
        }
    }

    /// A type is what the node defines as a container.
    open spec fn type_at(&self, node: SyntaxNode) -> Option<SymbolModel> {
        self.container_at(node)
    }

    /// No node imports.
    open spec fn imports_at(&self, node: SyntaxNode) -> Seq<ImportModel> {
        Seq::empty()
    }

    /// No node shows a symbol to other files.
    open spec fn exports_at(&self, node: SyntaxNode) -> Seq<ExportModel> {
        Seq::empty()
    }

    /// Everything is public.
    open spec fn visibility_at(&self, node: SyntaxNode) -> Visibility {
        Visibility::Public
    }

    /// The name of the language: `JSON`.
    fn name(&self) -> (r: &'static str)
        ensures
            r@ == "JSON"@,
    {
        "JSON"
    }

    /// The file extensions of the language, without the dot.
    fn extensions(&self) -> (r: Vec<&'static str>)
        ensures
            words(r@) == seq!["json"@, "jsonc"@],
    {
        let r: Vec<&'static str> = vec!["json", "jsonc"];
        assert(words(r@) =~= seq!["json"@, "jsonc"@]);
        r
    }

    /// The name of the grammar: `json`.
    fn grammar_name(&self) -> (r: &'static str)
        ensures
            r@ == "json"@,
    {
        "json"
    }

    /// The grammar that parses the language.
    fn grammar(&self) -> (r: Option<Grammar>)
        ensures
            r == Some(Grammar::Json),
    {
        Some(Grammar::Json)
    }

    /// The key under which packages of the language are indexed: none.
    fn lang_key(&self) -> (r: &'static str)
        ensures
            r@ == ""@,
    {
        ""
    }

    /// The kinds of nodes that hold other symbols.
    fn container_kinds(&self) -> (r: Vec<&'static str>) {
        let r: Vec<&'static str> = vec!["object"];
        assert(words(r@) =~= self.container_kind_list());
        r
    }

    /// The kinds of nodes that define functions.
    fn function_kinds(&self) -> (r: Vec<&'static str>) {
        let r: Vec<&'static str> = Vec::new();
        assert(words(r@) =~= Seq::<Seq<char>>::empty());
        r
    }

    /// The kinds of nodes that define types.
    fn type_kinds(&self) -> (r: Vec<&'static str>) {
        let r: Vec<&'static str> = Vec::new();
        assert(words(r@) =~= Seq::<Seq<char>>::empty());
        r
    }

    /// The kinds of nodes that import.
    fn import_kinds(&self) -> (r: Vec<&'static str>) {
        let r: Vec<&'static str> = Vec::new();
        assert(words(r@) =~= Seq::<Seq<char>>::empty());
        r
    }

    /// The kinds of nodes that may show a symbol to other files.
    fn public_symbol_kinds(&self) -> (r: Vec<&'static str>) {
        let r: Vec<&'static str> = Vec::new();
        assert(words(r@) =~= Seq::<Seq<char>>::empty());
        r
    }

    /// How the language tells what is visible.
    fn visibility_mechanism(&self) -> (r: VisibilityMechanism)
        ensures
            r == VisibilityMechanism::NotApplicable,
    {
        VisibilityMechanism::NotApplicable
    }

    /// The kinds of nodes that open a scope.
    fn scope_creating_kinds(&self) -> (r: Vec<&'static str>)
        ensures
            words(r@) == Seq::<Seq<char>>::empty(),
    {
        let r: Vec<&'static str> = Vec::new();
        assert(words(r@) =~= Seq::<Seq<char>>::empty());
        r
    }

    /// The kinds of nodes that steer control flow.
    fn control_flow_kinds(&self) -> (r: Vec<&'static str>)
        ensures
            words(r@) == Seq::<Seq<char>>::empty(),
    {
        let r: Vec<&'static str> = Vec::new();
        assert(words(r@) =~= Seq::<Seq<char>>::empty());
        r
    }

    /// The kinds of nodes that add to the complexity of a function.
    fn complexity_nodes(&self) -> (r: Vec<&'static str>)
        ensures
            words(r@) == Seq::<Seq<char>>::empty(),
    {
        let r: Vec<&'static str> = Vec::new();
        assert(words(r@) =~= Seq::<Seq<char>>::empty());
        r
    }

    /// The kinds of nodes that add to the depth of nesting.
    fn nesting_nodes(&self) -> (r: Vec<&'static str>)
        ensures
            words(r@) == Seq::<Seq<char>>::empty(),
    {
        let r: Vec<&'static str> = Vec::new();
        assert(words(r@) =~= Seq::<Seq<char>>::empty());
        r
    }

    /// No node defines a function.
    fn extract_function(&self, node: &SyntaxNode, in_container: bool) -> (r: Option<Symbol>) {
        None
    }

    /// The variable that a `pair` defines.
    fn extract_container(&self, node: &SyntaxNode) -> (r: Option<Symbol>) {
        if !node.is_kind("pair") {
            return None;
        }
        match node.child_by_field_name("key") {
            Some(key) => {
                let name = trim_matches(&chars_of(key.text.as_str()), '"');
                Some(make_symbol(node, &name, SymbolKind::Variable, &name, Visibility::Public))
            },
            None => None,
        }
    }

    /// A type is what the node defines as a container.
    fn extract_type(&self, node: &SyntaxNode) -> (r: Option<Symbol>) {
        self.extract_container(node)
    }

    /// No node imports.
    fn extract_imports(&self, node: &SyntaxNode) -> (r: Vec<Import>) {
        let r: Vec<Import> = Vec::new();
        assert(import_views(r@) =~= Seq::<ImportModel>::empty());
        r
    }

    /// No node shows a symbol to other files.
    fn extract_public_symbols(&self, node: &SyntaxNode) -> (r: Vec<Export>) {
        let r: Vec<Export> = Vec::new();
        assert(export_views(r@) =~= Seq::<ExportModel>::empty());
        r
    }

    /// Everything is public.
    fn get_visibility(&self, node: &SyntaxNode) -> (r: Visibility) {
        Visibility::Public
    }

    /// Everything is public.
    fn is_public(&self, node: &SyntaxNode) -> (r: bool) {
        true
    }
}

} // verus!
