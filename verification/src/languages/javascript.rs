//! JavaScript: export statements say what other files may use.

use crate::languages::{
    ecmascript, Export, ExportModel, Import, ImportModel, LanguageSupport, name_of, node_name,
    Symbol, SymbolModel, Visibility, VisibilityMechanism, words,
};
use crate::syntax::{Grammar, SyntaxNode};
use vstd::prelude::*;

verus! {

/// JavaScript language support.
pub struct JavaScript;

impl LanguageSupport for JavaScript {
    /// The kinds of nodes that define functions.
    open spec fn function_kind_list(&self) -> Seq<Seq<char>> {
        seq!["function_declaration"@, "method_definition"@, "generator_function_declaration"@]
    }

    /// The kinds of nodes that hold other symbols.
    open spec fn container_kind_list(&self) -> Seq<Seq<char>> {
        seq!["class_declaration"@, "class"@]
    }

    /// The kinds of nodes that define types.
    open spec fn type_kind_list(&self) -> Seq<Seq<char>> {
        seq!["class_declaration"@]
    }

    /// The kinds of nodes that import.
    open spec fn import_kind_list(&self) -> Seq<Seq<char>> {
        seq!["import_statement"@]
    }

    /// The kinds of nodes that may show a symbol to other files.
    open spec fn public_symbol_kind_list(&self) -> Seq<Seq<char>> {
        seq!["export_statement"@]
    }

    /// A function with a name; a method is shown without `function`.
    open spec fn function_at(&self, node: SyntaxNode, in_container: bool) -> Option<SymbolModel> {
        match name_of(node) {
            Some(name) => Some(ecmascript::function_symbol(node, in_container, name)),
            None => None,
        }
    }

    /// A class with a name, shown as `class` and the name.
    open spec fn container_at(&self, node: SyntaxNode) -> Option<SymbolModel> {
        match name_of(node) {
            Some(name) => Some(ecmascript::container_symbol(node, name)),
            None => None,
        }
    }

    /// A type is what the node defines as a container.
    open spec fn type_at(&self, node: SyntaxNode) -> Option<SymbolModel> {
        self.container_at(node)
    }

    /// The import of an import statement.
    open spec fn imports_at(&self, node: SyntaxNode) -> Seq<ImportModel> {
        ecmascript::imports_of(node)
    }

    /// What an export statement exports.
    open spec fn exports_at(&self, node: SyntaxNode) -> Seq<ExportModel> {
        ecmascript::exports_of(node)
    }

    /// Everything is public.
    open spec fn visibility_at(&self, node: SyntaxNode) -> Visibility {
        Visibility::Public
    }

    /// The name of the language: `JavaScript`.
    fn name(&self) -> (r: &'static str)
        ensures
            r@ == "JavaScript"@,
    {
        "JavaScript"
    }

    /// The file extensions of the language, without the dot.
    fn extensions(&self) -> (r: Vec<&'static str>)
        ensures
            words(r@) == seq!["js"@, "mjs"@, "cjs"@, "jsx"@],
    {
        let r: Vec<&'static str> = vec!["js", "mjs", "cjs", "jsx"];
        assert(words(r@) =~= seq!["js"@, "mjs"@, "cjs"@, "jsx"@]);
        r
    }

    /// The name of the grammar: `javascript`.
    fn grammar_name(&self) -> (r: &'static str)
        ensures
            r@ == "javascript"@,
    {
        "javascript"
    }

    /// The grammar that parses the language.
    fn grammar(&self) -> (r: Option<Grammar>)
        ensures
            r == Some(Grammar::JavaScript),
    {
        Some(Grammar::JavaScript)
    }

    /// The key under which packages of the language are indexed.
    fn lang_key(&self) -> (r: &'static str)
        ensures
            r@ == "js"@,
    {
        "js"
    }

    /// The kinds of nodes that hold other symbols.
    fn container_kinds(&self) -> (r: Vec<&'static str>) {
        let r: Vec<&'static str> = vec!["class_declaration", "class"];
        assert(words(r@) =~= self.container_kind_list());
        r
    }

    /// The kinds of nodes that define functions.
    fn function_kinds(&self) -> (r: Vec<&'static str>) {
        let r: Vec<&'static str> = vec![
            "function_declaration",
            "method_definition",
            "generator_function_declaration",
        ];
        assert(words(r@) =~= self.function_kind_list());
        r
    }

    /// The kinds of nodes that define types.
    fn type_kinds(&self) -> (r: Vec<&'static str>) {
        let r: Vec<&'static str> = vec!["class_declaration"];
        assert(words(r@) =~= self.type_kind_list());
        r
    }

    /// The kinds of nodes that import.
    fn import_kinds(&self) -> (r: Vec<&'static str>) {
        let r: Vec<&'static str> = vec!["import_statement"];
        assert(words(r@) =~= self.import_kind_list());
        r
    }

    /// The kinds of nodes that may show a symbol to other files.
    fn public_symbol_kinds(&self) -> (r: Vec<&'static str>) {
        let r: Vec<&'static str> = vec!["export_statement"];
        assert(words(r@) =~= self.public_symbol_kind_list());
        r
    }

    /// How the language tells what is visible.
    fn visibility_mechanism(&self) -> (r: VisibilityMechanism)
        ensures
            r == VisibilityMechanism::ExplicitExport,
    {
        VisibilityMechanism::ExplicitExport
    }

    /// The kinds of nodes that open a scope.
    fn scope_creating_kinds(&self) -> (r: Vec<&'static str>)
        ensures
            words(r@) == seq![
                "for_statement"@,
                "for_in_statement"@,
                "while_statement"@,
                "do_statement"@,
                "try_statement"@,
                "catch_clause"@,
                "switch_statement"@,
                "arrow_function"@,
            ],
    {
        let r: Vec<&'static str> = vec![
            "for_statement",
            "for_in_statement",
            "while_statement",
            "do_statement",
            "try_statement",
            "catch_clause",
            "switch_statement",
            "arrow_function",
        ];
        assert(words(r@) =~= seq![
            "for_statement"@,
            "for_in_statement"@,
            "while_statement"@,
            "do_statement"@,
            "try_statement"@,
            "catch_clause"@,
            "switch_statement"@,
            "arrow_function"@,
        ]);
        r
    }

    /// The kinds of nodes that steer control flow.
    fn control_flow_kinds(&self) -> (r: Vec<&'static str>)
        ensures
            words(r@) == seq![
                "if_statement"@,
                "for_statement"@,
                "for_in_statement"@,
                "while_statement"@,
                "do_statement"@,
                "switch_statement"@,
                "try_statement"@,
                "return_statement"@,
                "break_statement"@,
                "continue_statement"@,
                "throw_statement"@,
            ],
    {
        let r: Vec<&'static str> = vec![
            "if_statement",
            "for_statement",
            "for_in_statement",
            "while_statement",
            "do_statement",
            "switch_statement",
            "try_statement",
            "return_statement",
            "break_statement",
            "continue_statement",
            "throw_statement",
        ];
        assert(words(r@) =~= seq![
            "if_statement"@,
            "for_statement"@,
            "for_in_statement"@,
            "while_statement"@,
            "do_statement"@,
            "switch_statement"@,
            "try_statement"@,
            "return_statement"@,
            "break_statement"@,
            "continue_statement"@,
            "throw_statement"@,
        ]);
        r
    }

    /// The kinds of nodes that add to the complexity of a function.
    fn complexity_nodes(&self) -> (r: Vec<&'static str>)
        ensures
            words(r@) == seq![
                "if_statement"@,
                "for_statement"@,
                "for_in_statement"@,
                "while_statement"@,
                "do_statement"@,
                "switch_case"@,
                "catch_clause"@,
                "ternary_expression"@,
                "binary_expression"@,
            ],
    {
        let r: Vec<&'static str> = vec![
            "if_statement",
            "for_statement",
            "for_in_statement",
            "while_statement",
            "do_statement",
            "switch_case",
            "catch_clause",
            "ternary_expression",
            "binary_expression",
        ];
        assert(words(r@) =~= seq![
            "if_statement"@,
            "for_statement"@,
            "for_in_statement"@,
            "while_statement"@,
            "do_statement"@,
            "switch_case"@,
            "catch_clause"@,
            "ternary_expression"@,
            "binary_expression"@,
        ]);
        r
    }

    /// The kinds of nodes that add to the depth of nesting.
    fn nesting_nodes(&self) -> (r: Vec<&'static str>)
        ensures
            words(r@) == seq![
                "if_statement"@,
                "for_statement"@,
                "for_in_statement"@,
                "while_statement"@,
                "do_statement"@,
                "switch_statement"@,
                "try_statement"@,
                "function_declaration"@,
                "method_definition"@,
                "class_declaration"@,
            ],
    {
        let r: Vec<&'static str> = vec![
            "if_statement",
            "for_statement",
            "for_in_statement",
            "while_statement",
            "do_statement",
            "switch_statement",
            "try_statement",
            "function_declaration",
            "method_definition",
            "class_declaration",
        ];
        assert(words(r@) =~= seq![
            "if_statement"@,
            "for_statement"@,
            "for_in_statement"@,
            "while_statement"@,
            "do_statement"@,
            "switch_statement"@,
            "try_statement"@,
            "function_declaration"@,
            "method_definition"@,
            "class_declaration"@,
        ]);
        r
    }

    /// The function that `node` defines.
    fn extract_function(&self, node: &SyntaxNode, in_container: bool) -> (r: Option<Symbol>) {
        match node_name(node) {
            Some(name) => Some(ecmascript::extract_function(node, in_container, name.as_str())),
            None => None,
        }
    }

    /// The class that `node` defines.
    fn extract_container(&self, node: &SyntaxNode) -> (r: Option<Symbol>) {
        match node_name(node) {
            Some(name) => Some(ecmascript::extract_container(node, name.as_str())),
            None => None,
        }
    }

    /// A type is what the node defines as a container.
    fn extract_type(&self, node: &SyntaxNode) -> (r: Option<Symbol>) {
        self.extract_container(node)
    }

    /// The import of an import statement.
    fn extract_imports(&self, node: &SyntaxNode) -> (r: Vec<Import>) {
        ecmascript::extract_imports(node)
    }

    /// What an export statement exports.
    fn extract_public_symbols(&self, node: &SyntaxNode) -> (r: Vec<Export>) {
        ecmascript::extract_public_symbols(node)
    }

    /// Everything is public.
    fn get_visibility(&self, node: &SyntaxNode) -> (r: Visibility) {
        Visibility::Public
    }

    /// Everything is public.
    fn is_public(&self, node: &SyntaxNode) -> (r: bool) {
        true
    }
}

impl JavaScript {
    /// Adds the names that an import clause binds to `names`.
    pub fn collect_import_names(import_clause: &SyntaxNode, names: &mut Vec<String>)
        ensures
            crate::text::texts(final(names)@) == crate::text::texts(old(names)@)
                + ecmascript::clause_names(
                import_clause.children@,
                import_clause.children.len() as int,
            ),
    {
        ecmascript::collect_import_names(import_clause, names)
    }
}

} // verus!
