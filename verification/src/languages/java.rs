//! Java: access modifiers say who may use a symbol.

use crate::syntax::kind_position;
use crate::text::{chars_of, concat, contains, has_infix};
use crate::languages::{
    Export, export_views, ExportModel, Import, import_views, ImportModel, LanguageSupport,
    make_export, make_symbol, name_of, node_name, node_params, params_of, plain_symbol,
    prefixed, Symbol, SymbolKind, SymbolModel, Visibility, VisibilityMechanism, words,
};
use crate::syntax::{Grammar, SyntaxNode};
use vstd::prelude::*;

verus! {

/// Who may use what a Java node declares: its first child `modifiers` says
/// so. `private` there makes it private, else `protected` protected; in
/// every other case it counts as public.
pub open spec fn visibility_of(node: SyntaxNode) -> Visibility {
    let at = kind_position(node.children@, 0, "modifiers"@, "modifiers"@);
    if at >= node.children.len() {
        Visibility::Public
    } else if has_infix(node.children[at].text@, "private"@) {
        Visibility::Private
    } else if has_infix(node.children[at].text@, "protected"@) {
        Visibility::Protected
    } else {
        Visibility::Public
    }
}

/// Who may use what a Java node declares.
pub fn node_visibility(node: &SyntaxNode) -> (r: Visibility)
    ensures
        r == visibility_of(*node),
{
    match node.child_of_kind("modifiers", "modifiers") {
        Some(m) => {
            let mods = chars_of(m.text.as_str());
            if contains(&mods, &chars_of("private")) {
                Visibility::Private
            } else if contains(&mods, &chars_of("protected")) {
                Visibility::Protected
            } else {
                Visibility::Public
            }
        },
        None => Visibility::Public,
    }
}

/// What a Java type declaration declares: an interface, an enum or a class.
pub open spec fn container_kind_of(kind: Seq<char>) -> SymbolKind {
    if kind == "interface_declaration"@ {
        SymbolKind::Interface
    } else if kind == "enum_declaration"@ {
        SymbolKind::Enum
    } else {
        SymbolKind::Class
    }
}

/// What a Java declaration of the given kind exports.
pub open spec fn export_kind_of(kind: Seq<char>) -> Option<SymbolKind> {
    if kind == "class_declaration"@ {
        Some(SymbolKind::Class)
    } else if kind == "interface_declaration"@ {
        Some(SymbolKind::Interface)
    } else if kind == "enum_declaration"@ {
        Some(SymbolKind::Enum)
    } else if kind == "method_declaration"@ || kind == "constructor_declaration"@ {
        Some(SymbolKind::Method)
    } else {
        None
    }
}

/// What a Java declaration exports.
pub fn export_kind(node: &SyntaxNode) -> (r: Option<SymbolKind>)
    ensures
        r == export_kind_of(node.kind@),
{
    if node.is_kind("class_declaration") {
        Some(SymbolKind::Class)
    } else if node.is_kind("interface_declaration") {
        Some(SymbolKind::Interface)
    } else if node.is_kind("enum_declaration") {
        Some(SymbolKind::Enum)
    } else if node.is_kind("method_declaration") || node.is_kind("constructor_declaration") {
        Some(SymbolKind::Method)
    } else {
        None
    }
}

/// Java language support.
pub struct Java;

impl LanguageSupport for Java {
    /// The kinds of nodes that define functions.
    open spec fn function_kind_list(&self) -> Seq<Seq<char>> {
        seq!["method_declaration"@, "constructor_declaration"@]
    }

    /// The kinds of nodes that hold other symbols.
    open spec fn container_kind_list(&self) -> Seq<Seq<char>> {
        seq!["class_declaration"@, "interface_declaration"@, "enum_declaration"@]
    }

    /// The kinds of nodes that define types.
    open spec fn type_kind_list(&self) -> Seq<Seq<char>> {
        seq!["class_declaration"@, "interface_declaration"@, "enum_declaration"@]
    }

    /// The kinds of nodes that import.
    open spec fn import_kind_list(&self) -> Seq<Seq<char>> {
        seq!["import_declaration"@]
    }

    /// The kinds of nodes that may show a symbol to other files.
    open spec fn public_symbol_kind_list(&self) -> Seq<Seq<char>> {
        seq![
            "class_declaration"@,
            "interface_declaration"@,
            "enum_declaration"@,
            "method_declaration"@,
        ]
    }

    /// A method or constructor with a name: always a method, shown as the
    /// name and the parameters.
    open spec fn function_at(&self, node: SyntaxNode, in_container: bool) -> Option<SymbolModel> {
        match name_of(node) {
            Some(name) => Some(
                plain_symbol(
                    node,
                    name,
                    SymbolKind::Method,
                    name + params_of(node),
                    visibility_of(node),
                ),
            ),
            None => None,
        }
    }

    /// A class, interface or enum with a name, shown as the word for its
    /// kind and the name.
    open spec fn container_at(&self, node: SyntaxNode) -> Option<SymbolModel> {
        match name_of(node) {
            Some(name) => Some(
                plain_symbol(
                    node,
                    name,
                    container_kind_of(node.kind@),
                    container_kind_of(node.kind@).word() + " "@ + name,
                    visibility_of(node),
                ),
            ),
            None => None,
        }
    }

    /// A type is what the node defines as a container.
    open spec fn type_at(&self, node: SyntaxNode) -> Option<SymbolModel> {
        self.container_at(node)
    }

    /// No node imports.
    open spec fn imports_at(&self, node: SyntaxNode) -> Seq<ImportModel> {
        Seq::empty()
    }

    /// A public declaration with a name exports it, as what its kind says.
    open spec fn exports_at(&self, node: SyntaxNode) -> Seq<ExportModel> {
        if visibility_of(node) == Visibility::Public && name_of(node) is Some && export_kind_of(
            node.kind@,
        ) is Some {
            seq![
                ExportModel {
                    name: name_of(node)->0,
                    kind: export_kind_of(node.kind@)->0,
                    line: node.start_line as usize,
                },
            ]
        } else {
            Seq::empty()
        }
    }

    /// What the modifiers of `node` say.
    open spec fn visibility_at(&self, node: SyntaxNode) -> Visibility {
        visibility_of(node)
    }

    /// The name of the language: `Java`.
    fn name(&self) -> (r: &'static str)
        ensures
            r@ == "Java"@,
    {
        "Java"
    }

    /// The file extensions of the language, without the dot.
    fn extensions(&self) -> (r: Vec<&'static str>)
        ensures
            words(r@) == seq!["java"@],
    {
        let r: Vec<&'static str> = vec!["java"];
        assert(words(r@) =~= seq!["java"@]);
        r
    }

    /// The name of the grammar: `java`.
    fn grammar_name(&self) -> (r: &'static str)
        ensures
            r@ == "java"@,
    {
        "java"
    }

    /// The grammar that parses the language.
    fn grammar(&self) -> (r: Option<Grammar>)
        ensures
            r == Some(Grammar::Java),
    {
        Some(Grammar::Java)
    }

    /// The key under which packages of the language are indexed.
    fn lang_key(&self) -> (r: &'static str)
        ensures
            r@ == "java"@,
    {
        "java"
    }

    /// The kinds of nodes that hold other symbols.
    fn container_kinds(&self) -> (r: Vec<&'static str>) {
        let r: Vec<&'static str> = vec!["class_declaration", "interface_declaration", "enum_declaration"];
        assert(words(r@) =~= self.container_kind_list());
        r
    }

    /// The kinds of nodes that define functions.
    fn function_kinds(&self) -> (r: Vec<&'static str>) {
        let r: Vec<&'static str> = vec!["method_declaration", "constructor_declaration"];
        assert(words(r@) =~= self.function_kind_list());
        r
    }

    /// The kinds of nodes that define types.
    fn type_kinds(&self) -> (r: Vec<&'static str>) {
        let r: Vec<&'static str> = vec!["class_declaration", "interface_declaration", "enum_declaration"];
        assert(words(r@) =~= self.type_kind_list());
        r
    }

    /// The kinds of nodes that import.
    fn import_kinds(&self) -> (r: Vec<&'static str>) {
        let r: Vec<&'static str> = vec!["import_declaration"];
        assert(words(r@) =~= self.import_kind_list());
        r
    }

    /// The kinds of nodes that may show a symbol to other files.
    fn public_symbol_kinds(&self) -> (r: Vec<&'static str>) {
        let r: Vec<&'static str> = vec![
            "class_declaration",
            "interface_declaration",
            "enum_declaration",
            "method_declaration",
        ];
        assert(words(r@) =~= self.public_symbol_kind_list());
        r
    }

    /// How the language tells what is visible.
    fn visibility_mechanism(&self) -> (r: VisibilityMechanism)
        ensures
            r == VisibilityMechanism::AccessModifier,
    {
        VisibilityMechanism::AccessModifier
    }

    /// The kinds of nodes that open a scope.
    fn scope_creating_kinds(&self) -> (r: Vec<&'static str>)
        ensures
            words(r@) == seq![
                "for_statement"@,
                "enhanced_for_statement"@,
                "while_statement"@,
                "do_statement"@,
                "try_statement"@,
                "catch_clause"@,
                "switch_expression"@,
                "block"@,
            ],
    {
        let r: Vec<&'static str> = vec![
            "for_statement",
            "enhanced_for_statement",
            "while_statement",
            "do_statement",
            "try_statement",
            "catch_clause",
            "switch_expression",
            "block",
        ];
        assert(words(r@) =~= seq![
            "for_statement"@,
            "enhanced_for_statement"@,
            "while_statement"@,
            "do_statement"@,
            "try_statement"@,
            "catch_clause"@,
            "switch_expression"@,
            "block"@,
        ]);
        r
    }

    /// The kinds of nodes that steer control flow.
    fn control_flow_kinds(&self) -> (r: Vec<&'static str>)
        ensures
            words(r@) == seq![
                "if_statement"@,
                "for_statement"@,
                "enhanced_for_statement"@,
                "while_statement"@,
                "do_statement"@,
                "switch_expression"@,
                "try_statement"@,
                "return_statement"@,
                "break_statement"@,
                "continue_statement"@,
                "throw_statement"@,
            ],
    {
        let r: Vec<&'static str> = vec![
            "if_statement",
            "for_statement",
            "enhanced_for_statement",
            "while_statement",
            "do_statement",
            "switch_expression",
            "try_statement",
            "return_statement",
            "break_statement",
            "continue_statement",
            "throw_statement",
        ];
        assert(words(r@) =~= seq![
            "if_statement"@,
            "for_statement"@,
            "enhanced_for_statement"@,
            "while_statement"@,
            "do_statement"@,
            "switch_expression"@,
            "try_statement"@,
            "return_statement"@,
            "break_statement"@,
            "continue_statement"@,
            "throw_statement"@,
        ]);
        r
    }

    /// The kinds of nodes that add to the complexity of a function.
    fn complexity_nodes(&self) -> (r: Vec<&'static str>)
        ensures
            words(r@) == seq![
                "if_statement"@,
                "for_statement"@,
                "enhanced_for_statement"@,
                "while_statement"@,
                "do_statement"@,
                "switch_label"@,
                "catch_clause"@,
                "ternary_expression"@,
                "binary_expression"@,
            ],
    {
        let r: Vec<&'static str> = vec![
            "if_statement",
            "for_statement",
            "enhanced_for_statement",
            "while_statement",
            "do_statement",
            "switch_label",
            "catch_clause",
            "ternary_expression",
            "binary_expression",
        ];
        assert(words(r@) =~= seq![
            "if_statement"@,
            "for_statement"@,
            "enhanced_for_statement"@,
            "while_statement"@,
            "do_statement"@,
            "switch_label"@,
            "catch_clause"@,
            "ternary_expression"@,
            "binary_expression"@,
        ]);
        r
    }

    /// The kinds of nodes that add to the depth of nesting.
    fn nesting_nodes(&self) -> (r: Vec<&'static str>)
        ensures
            words(r@) == seq![
                "if_statement"@,
                "for_statement"@,
                "enhanced_for_statement"@,
                "while_statement"@,
                "do_statement"@,
                "switch_expression"@,
                "try_statement"@,
                "method_declaration"@,
                "class_declaration"@,
            ],
    {
        let r: Vec<&'static str> = vec![
            "if_statement",
            "for_statement",
            "enhanced_for_statement",
            "while_statement",
            "do_statement",
            "switch_expression",
            "try_statement",
            "method_declaration",
            "class_declaration",
        ];
        assert(words(r@) =~= seq![
            "if_statement"@,
            "for_statement"@,
            "enhanced_for_statement"@,
            "while_statement"@,
            "do_statement"@,
            "switch_expression"@,
            "try_statement"@,
            "method_declaration"@,
            "class_declaration"@,
        ]);
        r
    }

    /// The method that `node` declares.
    fn extract_function(&self, node: &SyntaxNode, in_container: bool) -> (r: Option<Symbol>) {
        match node_name(node) {
            Some(name) => {
                let name = chars_of(name.as_str());
                let params = node_params(node);
                let signature = concat(&name, &params);
                let visibility = node_visibility(node);
                Some(make_symbol(node, &name, SymbolKind::Method, &signature, visibility))
            },
            None => None,
        }
    }

    /// The class, interface or enum that `node` declares.
    fn extract_container(&self, node: &SyntaxNode) -> (r: Option<Symbol>) {
        match node_name(node) {
            Some(name) => {
                let name = chars_of(name.as_str());
                let kind = if node.is_kind("interface_declaration") {
                    SymbolKind::Interface
                } else if node.is_kind("enum_declaration") {
                    SymbolKind::Enum
                } else {
                    SymbolKind::Class
                };
                let word = chars_of(kind.as_str());
                let signature = concat(&word, &prefixed(" ", &name));
                assert(signature@ =~= kind.word() + " "@ + name@);
                let visibility = node_visibility(node);
                Some(make_symbol(node, &name, kind, &signature, visibility))
            },
            None => None,
        }
    }

    /// A type is what the node defines as a container.
    fn extract_type(&self, node: &SyntaxNode) -> (r: Option<Symbol>) {
        self.extract_container(node)
    }

    /// No node imports.
    fn extract_imports(&self, node: &SyntaxNode) -> (r: Vec<Import>) {
        let r: Vec<Import> = Vec::new();
        assert(import_views(r@) =~= Seq::<ImportModel>::empty());
        r
    }

    /// What `node` exports.
    fn extract_public_symbols(&self, node: &SyntaxNode) -> (r: Vec<Export>) {
        let mut out: Vec<Export> = Vec::new();
        assert(export_views(out@) =~= Seq::<ExportModel>::empty());
        if node_visibility(node) != Visibility::Public {
            return out;
        }
        match node_name(node) {
            Some(name) => {
                let name = chars_of(name.as_str());
                match export_kind(node) {
                    Some(kind) => {
                        let export = make_export(&name, kind, node.start_line as usize);
                        out.push(export);
                        assert(export_views(out@) =~= seq![export@]);
                    },
                    None => {},
                }
            },
            None => {},
        }
        out
    }

    /// Who may use what `node` declares.
    fn get_visibility(&self, node: &SyntaxNode) -> (r: Visibility) {
        node_visibility(node)
    }

    /// Whether what `node` declares is public.
    fn is_public(&self, node: &SyntaxNode) -> (r: bool) {
        node_visibility(node) == Visibility::Public
    }
}

} // verus!
