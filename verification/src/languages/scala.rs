//! Scala: classes, objects, traits and their functions.

use crate::text::{chars_of, concat};
use crate::languages::{
    callable_kind, Export, export_views, ExportModel, Import, import_views, ImportModel,
    kind_of_callable, LanguageSupport, make_symbol, name_of, node_name, node_params, params_of,
    plain_symbol, prefixed, Symbol, SymbolKind, SymbolModel, Visibility, VisibilityMechanism,
    words,
};
use crate::syntax::{Grammar, SyntaxNode};
use vstd::prelude::*;

verus! {

/// The return type of a Scala function as its signature shows it: `: ` and
/// the type, or nothing where the function names none.
pub open spec fn return_of(node: SyntaxNode) -> Seq<char> {
    match node.field_text("return_type"@) {
        Some(t) => ": "@ + t,
        None => Seq::empty(),
    }
}

/// What a Scala definition defines: a module for an object, a trait, or a
/// class.
pub open spec fn container_kind_of(kind: Seq<char>) -> SymbolKind {
    if kind == "object_definition"@ {
        SymbolKind::Module
    } else if kind == "trait_definition"@ {
        SymbolKind::Trait
    } else {
        SymbolKind::Class
    }
}

/// The keyword that opens a Scala definition.
pub open spec fn keyword_of(kind: Seq<char>) -> Seq<char> {
    if kind == "object_definition"@ {
        "object"@
    } else if kind == "trait_definition"@ {
        "trait"@
    } else {
        "class"@
    }
}

/// Scala language support.
pub struct ScalaSupport;

impl LanguageSupport for ScalaSupport {
    /// The kinds of nodes that define functions.
    open spec fn function_kind_list(&self) -> Seq<Seq<char>> {
        seq!["function_definition"@]
    }

    /// The kinds of nodes that hold other symbols.
    open spec fn container_kind_list(&self) -> Seq<Seq<char>> {
        seq!["class_definition"@, "object_definition"@, "trait_definition"@]
    }

    /// The kinds of nodes that define types.
    open spec fn type_kind_list(&self) -> Seq<Seq<char>> {
        seq!["class_definition"@, "trait_definition"@]
    }

    /// The kinds of nodes that import.
    open spec fn import_kind_list(&self) -> Seq<Seq<char>> {
        Seq::<Seq<char>>::empty()
    }

    /// The kinds of nodes that may show a symbol to other files.
    open spec fn public_symbol_kind_list(&self) -> Seq<Seq<char>> {
        Seq::<Seq<char>>::empty()
    }

    /// A function with a name, shown as `def`, the name, the parameters and
    /// the return type.
    open spec fn function_at(&self, node: SyntaxNode, in_container: bool) -> Option<SymbolModel> {
        match name_of(node) {
            Some(name) => Some(
                plain_symbol(
                    node,
                    name,
                    callable_kind(in_container),
                    "def "@ + name + params_of(node) + return_of(node),
                    Visibility::Public,
                ),
            ),
            None => None,
        }
    }

    /// A class, object or trait with a name, shown as its keyword and the
    /// name.
    open spec fn container_at(&self, node: SyntaxNode) -> Option<SymbolModel> {
        match name_of(node) {
            Some(name) => Some(
                plain_symbol(
                    node,
                    name,
                    container_kind_of(node.kind@),
                    keyword_of(node.kind@) + " "@ + name,
                    Visibility::Public,
                ),
            ),
            None => None,
        }
    }

    /// A type is what the node defines as a container.
    open spec fn type_at(&self, node: SyntaxNode) -> Option<SymbolModel> {
        self.container_at(node)
    }

    /// No node imports.
    open spec fn imports_at(&self, node: SyntaxNode) -> Seq<ImportModel> {
        Seq::empty()
    }

    /// No node shows a symbol to other files.
    open spec fn exports_at(&self, node: SyntaxNode) -> Seq<ExportModel> {
        Seq::empty()
    }

    /// Everything is public.
    open spec fn visibility_at(&self, node: SyntaxNode) -> Visibility {
        Visibility::Public
    }

    /// The name of the language: `Scala`.
    fn name(&self) -> (r: &'static str)
        ensures
            r@ == "Scala"@,
    {
        "Scala"
    }

    /// The file extensions of the language, without the dot.
    fn extensions(&self) -> (r: Vec<&'static str>)
        ensures
            words(r@) == seq!["scala"@, "sc"@],
    {
        let r: Vec<&'static str> = vec!["scala", "sc"];
        assert(words(r@) =~= seq!["scala"@, "sc"@]);
        r
    }

    /// The name of the grammar: `scala`.
    fn grammar_name(&self) -> (r: &'static str)
        ensures
            r@ == "scala"@,
    {
        "scala"
    }

    /// This library has no grammar for the language.
    fn grammar(&self) -> (r: Option<Grammar>)
        ensures
            r is None,
    {
        None
    }

    /// The key under which packages of the language are indexed: none.
    fn lang_key(&self) -> (r: &'static str)
        ensures
            r@ == ""@,
    {
        ""
    }

    /// The kinds of nodes that hold other symbols.
    fn container_kinds(&self) -> (r: Vec<&'static str>) {
        let r: Vec<&'static str> = vec!["class_definition", "object_definition", "trait_definition"];
        assert(words(r@) =~= self.container_kind_list());
        r
    }

    /// The kinds of nodes that define functions.
    fn function_kinds(&self) -> (r: Vec<&'static str>) {
        let r: Vec<&'static str> = vec!["function_definition"];
        assert(words(r@) =~= self.function_kind_list());
        r
    }

    /// The kinds of nodes that define types.
    fn type_kinds(&self) -> (r: Vec<&'static str>) {
        let r: Vec<&'static str> = vec!["class_definition", "trait_definition"];
        assert(words(r@) =~= self.type_kind_list());
        r
    }

    /// The kinds of nodes that import.
    fn import_kinds(&self) -> (r: Vec<&'static str>) {
        let r: Vec<&'static str> = Vec::new();
        assert(words(r@) =~= Seq::<Seq<char>>::empty());
        r
    }

    /// The kinds of nodes that may show a symbol to other files.
    fn public_symbol_kinds(&self) -> (r: Vec<&'static str>) {
        let r: Vec<&'static str> = Vec::new();
        assert(words(r@) =~= Seq::<Seq<char>>::empty());
        r
    }

    /// How the language tells what is visible.
    fn visibility_mechanism(&self) -> (r: VisibilityMechanism)
        ensures
            r == VisibilityMechanism::AccessModifier,
    {
        VisibilityMechanism::AccessModifier
    }

    /// The kinds of nodes that open a scope.
    fn scope_creating_kinds(&self) -> (r: Vec<&'static str>)
        ensures
            words(r@) == Seq::<Seq<char>>::empty(),
    {
        let r: Vec<&'static str> = Vec::new();
        assert(words(r@) =~= Seq::<Seq<char>>::empty());
        r
    }

    /// The kinds of nodes that steer control flow.
    fn control_flow_kinds(&self) -> (r: Vec<&'static str>)
        ensures
            words(r@) == Seq::<Seq<char>>::empty(),
    {
        let r: Vec<&'static str> = Vec::new();
        assert(words(r@) =~= Seq::<Seq<char>>::empty());
        r
    }

    /// The kinds of nodes that add to the complexity of a function.
    fn complexity_nodes(&self) -> (r: Vec<&'static str>)
        ensures
            words(r@) == Seq::<Seq<char>>::empty(),
    {
        let r: Vec<&'static str> = Vec::new();
        assert(words(r@) =~= Seq::<Seq<char>>::empty());
        r
    }

    /// The kinds of nodes that add to the depth of nesting.
    fn nesting_nodes(&self) -> (r: Vec<&'static str>)
        ensures
            words(r@) == Seq::<Seq<char>>::empty(),
    {
        let r: Vec<&'static str> = Vec::new();
        assert(words(r@) =~= Seq::<Seq<char>>::empty());
        r
    }

    /// The function that `node` defines.
    fn extract_function(&self, node: &SyntaxNode, in_container: bool) -> (r: Option<Symbol>) {
        match node_name(node) {
            Some(name) => {
                let name = chars_of(name.as_str());
                let params = node_params(node);
                let ret: Vec<char> = match node.child_by_field_name("return_type") {
                    Some(t) => prefixed(": ", &chars_of(t.text.as_str())),
                    None => Vec::new(),
                };
                let signature = concat(&concat(&prefixed("def ", &name), &params), &ret);
                Some(
                    make_symbol(
                        node,
                        &name,
                        kind_of_callable(in_container),
                        &signature,
                        Visibility::Public,
                    ),
                )
            },
            None => None,
        }
    }

    /// The class, object or trait that `node` defines.
    fn extract_container(&self, node: &SyntaxNode) -> (r: Option<Symbol>) {
        match node_name(node) {
            Some(name) => {
                let name = chars_of(name.as_str());
                let (kind, keyword) = if node.is_kind("object_definition") {
                    (SymbolKind::Module, "object")
                } else if node.is_kind("trait_definition") {
                    (SymbolKind::Trait, "trait")
                } else {
                    (SymbolKind::Class, "class")
                };
                let signature = concat(&chars_of(keyword), &prefixed(" ", &name));
                assert(signature@ =~= keyword@ + " "@ + name@);
                Some(make_symbol(node, &name, kind, &signature, Visibility::Public))
            },
            None => None,
        }
    }

    /// A type is what the node defines as a container.
    fn extract_type(&self, node: &SyntaxNode) -> (r: Option<Symbol>) {
        self.extract_container(node)
    }

    /// No node imports.
    fn extract_imports(&self, node: &SyntaxNode) -> (r: Vec<Import>) {
        let r: Vec<Import> = Vec::new();
        assert(import_views(r@) =~= Seq::<ImportModel>::empty());
        r
    }

    /// No node shows a symbol to other files.
    fn extract_public_symbols(&self, node: &SyntaxNode) -> (r: Vec<Export>) {
        let r: Vec<Export> = Vec::new();
        assert(export_views(r@) =~= Seq::<ExportModel>::empty());
        r
    }

    /// Everything is public.
    fn get_visibility(&self, node: &SyntaxNode) -> (r: Visibility) {
        Visibility::Public
    }

    /// Everything is public.
    fn is_public(&self, node: &SyntaxNode) -> (r: bool) {
        true
    }
}

} // verus!
