//! TypeScript and TSX.

use crate::text::{chars_of, concat};
use crate::languages::{
    callable_kind, ecmascript, Export, export_views, ExportModel, Import, import_views,
    ImportModel, kind_of_callable, LanguageSupport, make_symbol, name_of, node_name,
    node_params, params_of, plain_symbol, prefixed, Symbol, SymbolModel, Visibility,
    VisibilityMechanism, words,
};
use crate::syntax::{Grammar, SyntaxNode};
use vstd::prelude::*;

verus! {

/// TypeScript language support.
pub struct TypeScript;

/// TSX language support: TypeScript with JSX.
pub struct Tsx;

impl LanguageSupport for TypeScript {
    /// The kinds of nodes that define functions.
    open spec fn function_kind_list(&self) -> Seq<Seq<char>> {
        seq!["function_declaration"@, "method_definition"@]
    }

    /// The kinds of nodes that hold other symbols.
    open spec fn container_kind_list(&self) -> Seq<Seq<char>> {
        seq!["class_declaration"@, "class"@]
    }

    /// The kinds of nodes that define types.
    open spec fn type_kind_list(&self) -> Seq<Seq<char>> {
        seq![
            "class_declaration"@,
            "interface_declaration"@,
            "type_alias_declaration"@,
            "enum_declaration"@,
        ]
    }

    /// The kinds of nodes that import.
    open spec fn import_kind_list(&self) -> Seq<Seq<char>> {
        seq!["import_statement"@]
    }

    /// The kinds of nodes that may show a symbol to other files.
    open spec fn public_symbol_kind_list(&self) -> Seq<Seq<char>> {
        seq!["export_statement"@]
    }

    /// A function with a name, shown as `function`, the name and the
    /// parameters.
    open spec fn function_at(&self, node: SyntaxNode, in_container: bool) -> Option<SymbolModel> {
        match name_of(node) {
            Some(name) => Some(
                plain_symbol(
                    node,
                    name,
                    callable_kind(in_container),
                    "function "@ + name + params_of(node),
                    Visibility::Public,
                ),
            ),
            None => None,
        }
    }

    /// A class with a name, shown as `class` and the name.
    open spec fn container_at(&self, node: SyntaxNode) -> Option<SymbolModel> {
        match name_of(node) {
            Some(name) => Some(ecmascript::container_symbol(node, name)),
            None => None,
        }
    }

    /// An interface, type alias, enum or class with a name.
    open spec fn type_at(&self, node: SyntaxNode) -> Option<SymbolModel> {
        match name_of(node) {
            Some(name) => ecmascript::type_symbol(node, name),
            None => None,
        }
    }

    /// No node imports.
    open spec fn imports_at(&self, node: SyntaxNode) -> Seq<ImportModel> {
        Seq::empty()
    }

    /// No node shows a symbol to other files.
    open spec fn exports_at(&self, node: SyntaxNode) -> Seq<ExportModel> {
        Seq::empty()
    }

    /// Everything is public.
    open spec fn visibility_at(&self, node: SyntaxNode) -> Visibility {
        Visibility::Public
    }

    /// The name of the language: `TypeScript`.
    fn name(&self) -> (r: &'static str)
        ensures
            r@ == "TypeScript"@,
    {
        "TypeScript"
    }

    /// The file extensions of the language, without the dot.
    fn extensions(&self) -> (r: Vec<&'static str>)
        ensures
            words(r@) == seq!["ts"@, "mts"@, "cts"@],
    {
        let r: Vec<&'static str> = vec!["ts", "mts", "cts"];
        assert(words(r@) =~= seq!["ts"@, "mts"@, "cts"@]);
        r
    }

    /// The name of the grammar: `typescript`.
    fn grammar_name(&self) -> (r: &'static str)
        ensures
            r@ == "typescript"@,
    {
        "typescript"
    }

    /// The grammar that parses the language.
    fn grammar(&self) -> (r: Option<Grammar>)
        ensures
            r == Some(Grammar::TypeScript),
    {
        Some(Grammar::TypeScript)
    }

    /// The key under which packages of the language are indexed.
    fn lang_key(&self) -> (r: &'static str)
        ensures
            r@ == "js"@,
    {
        "js"
    }

    /// The kinds of nodes that hold other symbols.
    fn container_kinds(&self) -> (r: Vec<&'static str>) {
        let r: Vec<&'static str> = vec!["class_declaration", "class"];
        assert(words(r@) =~= self.container_kind_list());
        r
    }

    /// The kinds of nodes that define functions.
    fn function_kinds(&self) -> (r: Vec<&'static str>) {
        let r: Vec<&'static str> = vec!["function_declaration", "method_definition"];
        assert(words(r@) =~= self.function_kind_list());
        r
    }

    /// The kinds of nodes that define types.
    fn type_kinds(&self) -> (r: Vec<&'static str>) {
        let r: Vec<&'static str> = vec![
            "class_declaration",
            "interface_declaration",
            "type_alias_declaration",
            "enum_declaration",
        ];
        assert(words(r@) =~= self.type_kind_list());
        r
    }

    /// The kinds of nodes that import.
    fn import_kinds(&self) -> (r: Vec<&'static str>) {
        let r: Vec<&'static str> = vec!["import_statement"];
        assert(words(r@) =~= self.import_kind_list());
        r
    }

    /// The kinds of nodes that may show a symbol to other files.
    fn public_symbol_kinds(&self) -> (r: Vec<&'static str>) {
        let r: Vec<&'static str> = vec!["export_statement"];
        assert(words(r@) =~= self.public_symbol_kind_list());
        r
    }

    /// How the language tells what is visible.
    fn visibility_mechanism(&self) -> (r: VisibilityMechanism)
        ensures
            r == VisibilityMechanism::ExplicitExport,
    {
        VisibilityMechanism::ExplicitExport
    }

    /// The kinds of nodes that open a scope.
    fn scope_creating_kinds(&self) -> (r: Vec<&'static str>)
        ensures
            words(r@) == seq![
                "for_statement"@,
                "for_in_statement"@,
                "while_statement"@,
                "do_statement"@,
                "try_statement"@,
                "catch_clause"@,
                "switch_statement"@,
                "arrow_function"@,
            ],
    {
        let r: Vec<&'static str> = vec![
            "for_statement",
            "for_in_statement",
            "while_statement",
            "do_statement",
            "try_statement",
            "catch_clause",
            "switch_statement",
            "arrow_function",
        ];
        assert(words(r@) =~= seq![
            "for_statement"@,
            "for_in_statement"@,
            "while_statement"@,
            "do_statement"@,
            "try_statement"@,
            "catch_clause"@,
            "switch_statement"@,
            "arrow_function"@,
        ]);
        r
    }

    /// The kinds of nodes that steer control flow.
    fn control_flow_kinds(&self) -> (r: Vec<&'static str>)
        ensures
            words(r@) == seq![
                "if_statement"@,
                "for_statement"@,
                "for_in_statement"@,
                "while_statement"@,
                "do_statement"@,
                "switch_statement"@,
                "try_statement"@,
                "return_statement"@,
                "break_statement"@,
                "continue_statement"@,
                "throw_statement"@,
            ],
    {
        let r: Vec<&'static str> = vec![
            "if_statement",
            "for_statement",
            "for_in_statement",
            "while_statement",
            "do_statement",
            "switch_statement",
            "try_statement",
            "return_statement",
            "break_statement",
            "continue_statement",
            "throw_statement",
        ];
        assert(words(r@) =~= seq![
            "if_statement"@,
            "for_statement"@,
            "for_in_statement"@,
            "while_statement"@,
            "do_statement"@,
            "switch_statement"@,
            "try_statement"@,
            "return_statement"@,
            "break_statement"@,
            "continue_statement"@,
            "throw_statement"@,
        ]);
        r
    }

    /// The kinds of nodes that add to the complexity of a function.
    fn complexity_nodes(&self) -> (r: Vec<&'static str>)
        ensures
            words(r@) == seq![
                "if_statement"@,
                "for_statement"@,
                "for_in_statement"@,
                "while_statement"@,
                "do_statement"@,
                "switch_case"@,
                "catch_clause"@,
                "ternary_expression"@,
                "binary_expression"@,
            ],
    {
        let r: Vec<&'static str> = vec![
            "if_statement",
            "for_statement",
            "for_in_statement",
            "while_statement",
            "do_statement",
            "switch_case",
            "catch_clause",
            "ternary_expression",
            "binary_expression",
        ];
        assert(words(r@) =~= seq![
            "if_statement"@,
            "for_statement"@,
            "for_in_statement"@,
            "while_statement"@,
            "do_statement"@,
            "switch_case"@,
            "catch_clause"@,
            "ternary_expression"@,
            "binary_expression"@,
        ]);
        r
    }

    /// The kinds of nodes that add to the depth of nesting.
    fn nesting_nodes(&self) -> (r: Vec<&'static str>)
        ensures
            words(r@) == seq![
                "if_statement"@,
                "for_statement"@,
                "for_in_statement"@,
                "while_statement"@,
                "do_statement"@,
                "switch_statement"@,
                "try_statement"@,
                "function_declaration"@,
                "method_definition"@,
                "class_declaration"@,
            ],
    {
        let r: Vec<&'static str> = vec![
            "if_statement",
            "for_statement",
            "for_in_statement",
            "while_statement",
            "do_statement",
            "switch_statement",
            "try_statement",
            "function_declaration",
            "method_definition",
            "class_declaration",
        ];
        assert(words(r@) =~= seq![
            "if_statement"@,
            "for_statement"@,
            "for_in_statement"@,
            "while_statement"@,
            "do_statement"@,
            "switch_statement"@,
            "try_statement"@,
            "function_declaration"@,
            "method_definition"@,
            "class_declaration"@,
        ]);
        r
    }

    /// The function that `node` defines.
    fn extract_function(&self, node: &SyntaxNode, in_container: bool) -> (r: Option<Symbol>) {
        match node_name(node) {
            Some(name) => {
                let name = chars_of(name.as_str());
                let params = node_params(node);
                let signature = concat(&prefixed("function ", &name), &params);
                Some(
                    make_symbol(
                        node,
                        &name,
                        kind_of_callable(in_container),
                        &signature,
                        Visibility::Public,
                    ),
                )
            },
            None => None,
        }
    }

    /// The class that `node` defines.
    fn extract_container(&self, node: &SyntaxNode) -> (r: Option<Symbol>) {
        match node_name(node) {
            Some(name) => Some(ecmascript::extract_container(node, name.as_str())),
            None => None,
        }
    }

    /// The type that `node` defines.
    fn extract_type(&self, node: &SyntaxNode) -> (r: Option<Symbol>) {
        match node_name(node) {
            Some(name) => ecmascript::extract_type(node, name.as_str()),
            None => None,
        }
    }

    /// No node imports.
    fn extract_imports(&self, node: &SyntaxNode) -> (r: Vec<Import>) {
        let r: Vec<Import> = Vec::new();
        assert(import_views(r@) =~= Seq::<ImportModel>::empty());
        r
    }

    /// No node shows a symbol to other files.
    fn extract_public_symbols(&self, node: &SyntaxNode) -> (r: Vec<Export>) {
        let r: Vec<Export> = Vec::new();
        assert(export_views(r@) =~= Seq::<ExportModel>::empty());
        r
    }

    /// Everything is public.
    fn get_visibility(&self, node: &SyntaxNode) -> (r: Visibility) {
        Visibility::Public
    }

    /// Everything is public.
    fn is_public(&self, node: &SyntaxNode) -> (r: bool) {
        true
    }
}

impl LanguageSupport for Tsx {
    /// The kinds of nodes that define functions.
    open spec fn function_kind_list(&self) -> Seq<Seq<char>> {
        seq!["function_declaration"@, "method_definition"@]
    }

    /// The kinds of nodes that hold other symbols.
    open spec fn container_kind_list(&self) -> Seq<Seq<char>> {
        seq!["class_declaration"@, "class"@]
    }

    /// The kinds of nodes that define types.
    open spec fn type_kind_list(&self) -> Seq<Seq<char>> {
        seq![
            "class_declaration"@,
            "interface_declaration"@,
            "type_alias_declaration"@,
            "enum_declaration"@,
        ]
    }

    /// The kinds of nodes that import.
    open spec fn import_kind_list(&self) -> Seq<Seq<char>> {
        seq!["import_statement"@]
    }

    /// The kinds of nodes that may show a symbol to other files.
    open spec fn public_symbol_kind_list(&self) -> Seq<Seq<char>> {
        seq!["export_statement"@]
    }

    /// A function with a name, shown as `function`, the name and the
    /// parameters.
    open spec fn function_at(&self, node: SyntaxNode, in_container: bool) -> Option<SymbolModel> {
        match name_of(node) {
            Some(name) => Some(
                plain_symbol(
                    node,
                    name,
                    callable_kind(in_container),
                    "function "@ + name + params_of(node),
                    Visibility::Public,
                ),
            ),
            None => None,
        }
    }

    /// A class with a name, shown as `class` and the name.
    open spec fn container_at(&self, node: SyntaxNode) -> Option<SymbolModel> {
        match name_of(node) {
            Some(name) => Some(ecmascript::container_symbol(node, name)),
            None => None,
        }
    }

    /// An interface, type alias, enum or class with a name.
    open spec fn type_at(&self, node: SyntaxNode) -> Option<SymbolModel> {
        match name_of(node) {
            Some(name) => ecmascript::type_symbol(node, name),
            None => None,
        }
    }

    /// No node imports.
    open spec fn imports_at(&self, node: SyntaxNode) -> Seq<ImportModel> {
        Seq::empty()
    }

    /// No node shows a symbol to other files.
    open spec fn exports_at(&self, node: SyntaxNode) -> Seq<ExportModel> {
        Seq::empty()
    }

    /// Everything is public.
    open spec fn visibility_at(&self, node: SyntaxNode) -> Visibility {
        Visibility::Public
    }

    /// The name of the language: `TSX`.
    fn name(&self) -> (r: &'static str)
        ensures
            r@ == "TSX"@,
    {
        "TSX"
    }

    /// The file extensions of the language, without the dot.
    fn extensions(&self) -> (r: Vec<&'static str>)
        ensures
            words(r@) == seq!["tsx"@],
    {
        let r: Vec<&'static str> = vec!["tsx"];
        assert(words(r@) =~= seq!["tsx"@]);
        r
    }

    /// The name of the grammar: `tsx`.
    fn grammar_name(&self) -> (r: &'static str)
        ensures
            r@ == "tsx"@,
    {
        "tsx"
    }

    /// The grammar that parses the language.
    fn grammar(&self) -> (r: Option<Grammar>)
        ensures
            r == Some(Grammar::Tsx),
    {
        Some(Grammar::Tsx)
    }

    /// The key under which packages of the language are indexed.
    fn lang_key(&self) -> (r: &'static str)
        ensures
            r@ == "js"@,
    {
        "js"
    }

    /// The kinds of nodes that hold other symbols.
    fn container_kinds(&self) -> (r: Vec<&'static str>) {
        let r: Vec<&'static str> = vec!["class_declaration", "class"];
        assert(words(r@) =~= self.container_kind_list());
        r
    }

    /// The kinds of nodes that define functions.
    fn function_kinds(&self) -> (r: Vec<&'static str>) {
        let r: Vec<&'static str> = vec!["function_declaration", "method_definition"];
        assert(words(r@) =~= self.function_kind_list());
        r
    }

    /// The kinds of nodes that define types.
    fn type_kinds(&self) -> (r: Vec<&'static str>) {
        let r: Vec<&'static str> = vec![
            "class_declaration",
            "interface_declaration",
            "type_alias_declaration",
            "enum_declaration",
        ];
        assert(words(r@) =~= self.type_kind_list());
        r
    }

    /// The kinds of nodes that import.
    fn import_kinds(&self) -> (r: Vec<&'static str>) {
        let r: Vec<&'static str> = vec!["import_statement"];
        assert(words(r@) =~= self.import_kind_list());
        r
    }

    /// The kinds of nodes that may show a symbol to other files.
    fn public_symbol_kinds(&self) -> (r: Vec<&'static str>) {
        let r: Vec<&'static str> = vec!["export_statement"];
        assert(words(r@) =~= self.public_symbol_kind_list());
        r
    }

    /// How the language tells what is visible.
    fn visibility_mechanism(&self) -> (r: VisibilityMechanism)
        ensures
            r == VisibilityMechanism::ExplicitExport,
    {
        VisibilityMechanism::ExplicitExport
    }

    /// The kinds of nodes that open a scope.
    fn scope_creating_kinds(&self) -> (r: Vec<&'static str>)
        ensures
            words(r@) == seq![
                "for_statement"@,
                "for_in_statement"@,
                "while_statement"@,
                "do_statement"@,
                "try_statement"@,
                "catch_clause"@,
                "switch_statement"@,
                "arrow_function"@,
            ],
    {
        let r: Vec<&'static str> = vec![
            "for_statement",
            "for_in_statement",
            "while_statement",
            "do_statement",
            "try_statement",
            "catch_clause",
            "switch_statement",
            "arrow_function",
        ];
        assert(words(r@) =~= seq![
            "for_statement"@,
            "for_in_statement"@,
            "while_statement"@,
            "do_statement"@,
            "try_statement"@,
            "catch_clause"@,
            "switch_statement"@,
            "arrow_function"@,
        ]);
        r
    }

    /// The kinds of nodes that steer control flow.
    fn control_flow_kinds(&self) -> (r: Vec<&'static str>)
        ensures
            words(r@) == seq![
                "if_statement"@,
                "for_statement"@,
                "for_in_statement"@,
                "while_statement"@,
                "do_statement"@,
                "switch_statement"@,
                "try_statement"@,
                "return_statement"@,
                "break_statement"@,
                "continue_statement"@,
                "throw_statement"@,
            ],
    {
        let r: Vec<&'static str> = vec![
            "if_statement",
            "for_statement",
            "for_in_statement",
            "while_statement",
            "do_statement",
            "switch_statement",
            "try_statement",
            "return_statement",
            "break_statement",
            "continue_statement",
            "throw_statement",
        ];
        assert(words(r@) =~= seq![
            "if_statement"@,
            "for_statement"@,
            "for_in_statement"@,
            "while_statement"@,
            "do_statement"@,
            "switch_statement"@,
            "try_statement"@,
            "return_statement"@,
            "break_statement"@,
            "continue_statement"@,
            "throw_statement"@,
        ]);
        r
    }

    /// The kinds of nodes that add to the complexity of a function.
    fn complexity_nodes(&self) -> (r: Vec<&'static str>)
        ensures
            words(r@) == seq![
                "if_statement"@,
                "for_statement"@,
                "for_in_statement"@,
                "while_statement"@,
                "do_statement"@,
                "switch_case"@,
                "catch_clause"@,
                "ternary_expression"@,
                "binary_expression"@,
            ],
    {
        let r: Vec<&'static str> = vec![
            "if_statement",
            "for_statement",
            "for_in_statement",
            "while_statement",
            "do_statement",
            "switch_case",
            "catch_clause",
            "ternary_expression",
            "binary_expression",
        ];
        assert(words(r@) =~= seq![
            "if_statement"@,
            "for_statement"@,
            "for_in_statement"@,
            "while_statement"@,
            "do_statement"@,
            "switch_case"@,
            "catch_clause"@,
            "ternary_expression"@,
            "binary_expression"@,
        ]);
        r
    }

    /// The kinds of nodes that add to the depth of nesting.
    fn nesting_nodes(&self) -> (r: Vec<&'static str>)
        ensures
            words(r@) == seq![
                "if_statement"@,
                "for_statement"@,
                "for_in_statement"@,
                "while_statement"@,
                "do_statement"@,
                "switch_statement"@,
                "try_statement"@,
                "function_declaration"@,
                "method_definition"@,
                "class_declaration"@,
            ],
    {
        let r: Vec<&'static str> = vec![
            "if_statement",
            "for_statement",
            "for_in_statement",
            "while_statement",
            "do_statement",
            "switch_statement",
            "try_statement",
            "function_declaration",
            "method_definition",
            "class_declaration",
        ];
        assert(words(r@) =~= seq![
            "if_statement"@,
            "for_statement"@,
            "for_in_statement"@,
            "while_statement"@,
            "do_statement"@,
            "switch_statement"@,
            "try_statement"@,
            "function_declaration"@,
            "method_definition"@,
            "class_declaration"@,
        ]);
        r
    }

    /// The function that `node` defines.
    fn extract_function(&self, node: &SyntaxNode, in_container: bool) -> (r: Option<Symbol>) {
        match node_name(node) {
            Some(name) => {
                let name = chars_of(name.as_str());
                let params = node_params(node);
                let signature = concat(&prefixed("function ", &name), &params);
                Some(
                    make_symbol(
                        node,
                        &name,
                        kind_of_callable(in_container),
                        &signature,
                        Visibility::Public,
                    ),
                )
            },
            None => None,
        }
    }

    /// The class that `node` defines.
    fn extract_container(&self, node: &SyntaxNode) -> (r: Option<Symbol>) {
        match node_name(node) {
            Some(name) => Some(ecmascript::extract_container(node, name.as_str())),
            None => None,
        }
    }

    /// The type that `node` defines.
    fn extract_type(&self, node: &SyntaxNode) -> (r: Option<Symbol>) {
        match node_name(node) {
            Some(name) => ecmascript::extract_type(node, name.as_str()),
            None => None,
        }
    }

    /// No node imports.
    fn extract_imports(&self, node: &SyntaxNode) -> (r: Vec<Import>) {
        let r: Vec<Import> = Vec::new();
        assert(import_views(r@) =~= Seq::<ImportModel>::empty());
        r
    }

    /// No node shows a symbol to other files.
    fn extract_public_symbols(&self, node: &SyntaxNode) -> (r: Vec<Export>) {
        let r: Vec<Export> = Vec::new();
        assert(export_views(r@) =~= Seq::<ExportModel>::empty());
        r
    }

    /// Everything is public.
    fn get_visibility(&self, node: &SyntaxNode) -> (r: Visibility) {
        Visibility::Public
    }

    /// Everything is public.
    fn is_public(&self, node: &SyntaxNode) -> (r: bool) {
        true
    }
}

} // verus!
