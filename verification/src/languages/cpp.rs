//! C++: classes, structs and the functions they hold.

use crate::text::{chars_of, concat};
use crate::languages::{
    callable_kind, Export, export_views, ExportModel, Import, import_views, ImportModel,
    kind_of_callable, LanguageSupport, make_symbol, name_of, node_name, plain_symbol, prefixed,
    Symbol, SymbolKind, SymbolModel, Visibility, VisibilityMechanism, words,
};
use crate::syntax::{Grammar, SyntaxNode};
use vstd::prelude::*;

verus! {

/// Whether a node of this kind is an identifier.
pub open spec fn is_identifier(kind: Seq<char>) -> bool {
    kind == "identifier"@ || kind == "field_identifier"@
}

/// The text of the first identifier of a subtree in document order.
pub open spec fn first_identifier(node: SyntaxNode) -> Option<Seq<char>>
    decreases node, node.children.len() + 1,
{
    if is_identifier(node.kind@) {
        Some(node.text@)
    } else {
        first_identifier_below(node, 0)
    }
}

/// The text of the first identifier below a node, from child `from` on.
pub open spec fn first_identifier_below(node: SyntaxNode, from: int) -> Option<Seq<char>>
    decreases node, node.children.len() - from,
{
    if from < 0 || from >= node.children.len() {
        None
    } else if first_identifier(node.children[from]) is Some {
        first_identifier(node.children[from])
    } else {
        first_identifier_below(node, from + 1)
    }
}

/// The first identifier of a subtree in document order.
pub fn find_identifier<'a>(node: &'a SyntaxNode) -> (r: Option<&'a String>)
    ensures
        r is Some == first_identifier(*node) is Some,
        r is Some ==> r->0@ == first_identifier(*node)->0,
    decreases node, node.children.len() + 1,
{
    if node.is_kind("identifier") || node.is_kind("field_identifier") {
        Some(&node.text)
    } else {
        find_identifier_below(node, 0)
    }
}

/// The first identifier below a node, from child `from` on.
fn find_identifier_below<'a>(node: &'a SyntaxNode, from: usize) -> (r: Option<&'a String>)
    ensures
        r is Some == first_identifier_below(*node, from as int) is Some,
        r is Some ==> r->0@ == first_identifier_below(*node, from as int)->0,
    decreases node, node.children.len() - from,
{
    if from >= node.children.len() {
        None
    } else {
        match find_identifier(&node.children[from]) {
            Some(id) => Some(id),
            None => find_identifier_below(node, from + 1),
        }
    }
}

/// The name of the function that a definition defines: the first
/// identifier of its declarator.
pub open spec fn declared_name(node: SyntaxNode) -> Option<Seq<char>> {
    if node.has_field("declarator"@) {
        first_identifier(node.field_node("declarator"@))
    } else {
        None
    }
}

/// What a C++ specifier defines: a class or a struct.
pub open spec fn container_kind_of(kind: Seq<char>) -> SymbolKind {
    if kind == "class_specifier"@ {
        SymbolKind::Class
    } else {
        SymbolKind::Struct
    }
}

/// C++ language support.
pub struct CppSupport;

impl LanguageSupport for CppSupport {
    /// The kinds of nodes that define functions.
    open spec fn function_kind_list(&self) -> Seq<Seq<char>> {
        seq!["function_definition"@]
    }

    /// The kinds of nodes that hold other symbols.
    open spec fn container_kind_list(&self) -> Seq<Seq<char>> {
        seq!["class_specifier"@, "struct_specifier"@]
    }

    /// The kinds of nodes that define types.
    open spec fn type_kind_list(&self) -> Seq<Seq<char>> {
        seq!["class_specifier"@, "struct_specifier"@, "enum_specifier"@, "type_definition"@]
    }

    /// The kinds of nodes that import.
    open spec fn import_kind_list(&self) -> Seq<Seq<char>> {
        seq!["preproc_include"@]
    }

    /// The kinds of nodes that may show a symbol to other files.
    open spec fn public_symbol_kind_list(&self) -> Seq<Seq<char>> {
        seq!["function_definition"@, "class_specifier"@, "struct_specifier"@]
    }

    /// A function definition whose declarator holds an identifier, shown
    /// as its name.
    open spec fn function_at(&self, node: SyntaxNode, in_container: bool) -> Option<SymbolModel> {
        match declared_name(node) {
            Some(name) => Some(
                plain_symbol(node, name, callable_kind(in_container), name, Visibility::Public),
            ),
            None => None,
        }
    }

    /// A class or struct with a name, shown as the word for its kind and
    /// the name.
    open spec fn container_at(&self, node: SyntaxNode) -> Option<SymbolModel> {
        match name_of(node) {
            Some(name) => Some(
                plain_symbol(
                    node,
                    name,
                    container_kind_of(node.kind@),
                    container_kind_of(node.kind@).word() + " "@ + name,
                    Visibility::Public,
                ),
            ),
            None => None,
        }
    }

    /// A type is what the node defines as a container.
    open spec fn type_at(&self, node: SyntaxNode) -> Option<SymbolModel> {
        self.container_at(node)
    }

    /// No node imports.
    open spec fn imports_at(&self, node: SyntaxNode) -> Seq<ImportModel> {
        Seq::empty()
    }

    /// No node shows a symbol to other files.
    open spec fn exports_at(&self, node: SyntaxNode) -> Seq<ExportModel> {
        Seq::empty()
    }

    /// Everything is public.
    open spec fn visibility_at(&self, node: SyntaxNode) -> Visibility {
        Visibility::Public
    }

    /// The name of the language: `C++`.
    fn name(&self) -> (r: &'static str)
        ensures
            r@ == "C++"@,
    {
        "C++"
    }

    /// The file extensions of the language, without the dot.
    fn extensions(&self) -> (r: Vec<&'static str>)
        ensures
            words(r@) == seq!["cpp"@, "cc"@, "cxx"@, "hpp"@, "hh"@, "hxx"@],
    {
        let r: Vec<&'static str> = vec!["cpp", "cc", "cxx", "hpp", "hh", "hxx"];
        assert(words(r@) =~= seq!["cpp"@, "cc"@, "cxx"@, "hpp"@, "hh"@, "hxx"@]);
        r
    }

    /// The name of the grammar: `cpp`.
    fn grammar_name(&self) -> (r: &'static str)
        ensures
            r@ == "cpp"@,
    {
        "cpp"
    }

    /// The grammar that parses the language.
    fn grammar(&self) -> (r: Option<Grammar>)
        ensures
            r == Some(Grammar::Cpp),
    {
        Some(Grammar::Cpp)
    }

    /// The key under which packages of the language are indexed: none.
    fn lang_key(&self) -> (r: &'static str)
        ensures
            r@ == ""@,
    {
        ""
    }

    /// The kinds of nodes that hold other symbols.
    fn container_kinds(&self) -> (r: Vec<&'static str>) {
        let r: Vec<&'static str> = vec!["class_specifier", "struct_specifier"];
        assert(words(r@) =~= self.container_kind_list());
        r
    }

    /// The kinds of nodes that define functions.
    fn function_kinds(&self) -> (r: Vec<&'static str>) {
        let r: Vec<&'static str> = vec!["function_definition"];
        assert(words(r@) =~= self.function_kind_list());
        r
    }

    /// The kinds of nodes that define types.
    fn type_kinds(&self) -> (r: Vec<&'static str>) {
        let r: Vec<&'static str> = vec!["class_specifier", "struct_specifier", "enum_specifier", "type_definition"];
        assert(words(r@) =~= self.type_kind_list());
        r
    }

    /// The kinds of nodes that import.
    fn import_kinds(&self) -> (r: Vec<&'static str>) {
        let r: Vec<&'static str> = vec!["preproc_include"];
        assert(words(r@) =~= self.import_kind_list());
        r
    }

    /// The kinds of nodes that may show a symbol to other files.
    fn public_symbol_kinds(&self) -> (r: Vec<&'static str>) {
        let r: Vec<&'static str> = vec!["function_definition", "class_specifier", "struct_specifier"];
        assert(words(r@) =~= self.public_symbol_kind_list());
        r
    }

    /// How the language tells what is visible.
    fn visibility_mechanism(&self) -> (r: VisibilityMechanism)
        ensures
            r == VisibilityMechanism::HeaderBased,
    {
        VisibilityMechanism::HeaderBased
    }

    /// The kinds of nodes that open a scope.
    fn scope_creating_kinds(&self) -> (r: Vec<&'static str>)
        ensures
            words(r@) == Seq::<Seq<char>>::empty(),
    {
        let r: Vec<&'static str> = Vec::new();
        assert(words(r@) =~= Seq::<Seq<char>>::empty());
        r
    }

    /// The kinds of nodes that steer control flow.
    fn control_flow_kinds(&self) -> (r: Vec<&'static str>)
        ensures
            words(r@) == Seq::<Seq<char>>::empty(),
    {
        let r: Vec<&'static str> = Vec::new();
        assert(words(r@) =~= Seq::<Seq<char>>::empty());
        r
    }

    /// The kinds of nodes that add to the complexity of a function.
    fn complexity_nodes(&self) -> (r: Vec<&'static str>)
        ensures
            words(r@) == Seq::<Seq<char>>::empty(),
    {
        let r: Vec<&'static str> = Vec::new();
        assert(words(r@) =~= Seq::<Seq<char>>::empty());
        r
    }

    /// The kinds of nodes that add to the depth of nesting.
    fn nesting_nodes(&self) -> (r: Vec<&'static str>)
        ensures
            words(r@) == Seq::<Seq<char>>::empty(),
    {
        let r: Vec<&'static str> = Vec::new();
        assert(words(r@) =~= Seq::<Seq<char>>::empty());
        r
    }

    /// The function that `node` defines.
    fn extract_function(&self, node: &SyntaxNode, in_container: bool) -> (r: Option<Symbol>) {
        match node.child_by_field_name("declarator") {
            Some(declarator) => match find_identifier(declarator) {
                Some(name) => {
                    let name = chars_of(name.as_str());
                    Some(
                        make_symbol(
                            node,
                            &name,
                            kind_of_callable(in_container),
                            &name,
                            Visibility::Public,
                        ),
                    )
                },
                None => None,
            },
            None => None,
        }
    }

    /// The class or struct that `node` defines.
    fn extract_container(&self, node: &SyntaxNode) -> (r: Option<Symbol>) {
        match node_name(node) {
            Some(name) => {
                let name = chars_of(name.as_str());
                let kind = if node.is_kind("class_specifier") {
                    SymbolKind::Class
                } else {
                    SymbolKind::Struct
                };
                let signature = concat(&chars_of(kind.as_str()), &prefixed(" ", &name));
                assert(signature@ =~= kind.word() + " "@ + name@);
                Some(make_symbol(node, &name, kind, &signature, Visibility::Public))
            },
            None => None,
        }
    }

    /// A type is what the node defines as a container.
    fn extract_type(&self, node: &SyntaxNode) -> (r: Option<Symbol>) {
        self.extract_container(node)
    }

    /// No node imports.
    fn extract_imports(&self, node: &SyntaxNode) -> (r: Vec<Import>) {
        let r: Vec<Import> = Vec::new();
        assert(import_views(r@) =~= Seq::<ImportModel>::empty());
        r
    }

    /// No node shows a symbol to other files.
    fn extract_public_symbols(&self, node: &SyntaxNode) -> (r: Vec<Export>) {
        let r: Vec<Export> = Vec::new();
        assert(export_views(r@) =~= Seq::<ExportModel>::empty());
        r
    }

    /// Everything is public.
    fn get_visibility(&self, node: &SyntaxNode) -> (r: Visibility) {
        Visibility::Public
    }

    /// Everything is public.
    fn is_public(&self, node: &SyntaxNode) -> (r: bool) {
        true
    }
}

} // verus!
