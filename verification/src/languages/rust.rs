//! Rust: `pub` says what other modules may use.

use crate::text::{chars_of, concat, ends_with, has_prefix, has_suffix, starts_with, texts};
use crate::languages::{
    callable_kind, Export, export_views, ExportModel, first_child_of_kinds, first_of_kinds,
    Import, import_of, import_views, ImportModel, kind_of_callable, LanguageSupport,
    make_export, make_import, make_symbol, name_of, node_name, node_params, params_of,
    plain_symbol, prefixed, Symbol, SymbolKind, SymbolModel, Visibility, VisibilityMechanism,
    words,
};
use crate::syntax::{Grammar, SyntaxNode};
use vstd::prelude::*;

verus! {

/// The kind of node that makes an item public.
pub open spec fn modifier_kinds() -> Seq<Seq<char>> {
    seq!["visibility_modifier"@]
}

/// Whether a Rust item has a visibility modifier among its children.
pub open spec fn has_modifier(node: SyntaxNode) -> bool {
    first_of_kinds(node.children@, 0, modifier_kinds()) < node.children.len()
}

/// Who may use a Rust item: everyone, if it has a visibility modifier.
pub open spec fn visibility_of(node: SyntaxNode) -> Visibility {
    if has_modifier(node) {
        Visibility::Public
    } else {
        Visibility::Private
    }
}

/// Who may use a Rust item.
pub fn node_visibility(node: &SyntaxNode) -> (r: Visibility)
    ensures
        r == visibility_of(*node),
{
    let kinds: Vec<&'static str> = vec!["visibility_modifier"];
    assert(words(kinds@) =~= modifier_kinds());
    match first_child_of_kinds(node, &kinds) {
        Some(_) => Visibility::Public,
        None => Visibility::Private,
    }
}

/// What a Rust type item defines.
pub open spec fn type_kind_of(kind: Seq<char>) -> SymbolKind {
    if kind == "struct_item"@ {
        SymbolKind::Struct
    } else if kind == "enum_item"@ {
        SymbolKind::Enum
    } else if kind == "trait_item"@ {
        SymbolKind::Trait
    } else {
        SymbolKind::Type
    }
}

/// The keyword that opens a Rust type item, with a space behind it.
pub open spec fn type_keyword_of(kind: Seq<char>) -> Seq<char> {
    if kind == "struct_item"@ {
        "struct "@
    } else if kind == "enum_item"@ {
        "enum "@
    } else if kind == "trait_item"@ {
        "trait "@
    } else {
        "type "@
    }
}

/// What a Rust item of the given kind exports.
pub open spec fn export_kind_of(kind: Seq<char>) -> Option<SymbolKind> {
    if kind == "function_item"@ {
        Some(SymbolKind::Function)
    } else if kind == "struct_item"@ {
        Some(SymbolKind::Struct)
    } else if kind == "enum_item"@ {
        Some(SymbolKind::Enum)
    } else if kind == "trait_item"@ {
        Some(SymbolKind::Trait)
    } else if kind == "type_item"@ {
        Some(SymbolKind::Type)
    } else {
        None
    }
}

/// Whether a `use` path is named relative to the module: it begins with
/// `self::`, `super::` or `crate::`.
pub open spec fn is_relative_path(path: Seq<char>) -> bool {
    has_prefix(path, "self::"@) || has_prefix(path, "super::"@) || has_prefix(path, "crate::"@)
}

/// Rust language support.
pub struct Rust;

impl LanguageSupport for Rust {
    /// The kinds of nodes that define functions.
    open spec fn function_kind_list(&self) -> Seq<Seq<char>> {
        seq!["function_item"@]
    }

    /// The kinds of nodes that hold other symbols.
    open spec fn container_kind_list(&self) -> Seq<Seq<char>> {
        seq!["impl_item"@, "trait_item"@]
    }

    /// The kinds of nodes that define types.
    open spec fn type_kind_list(&self) -> Seq<Seq<char>> {
        seq!["struct_item"@, "enum_item"@, "type_item"@, "trait_item"@]
    }

    /// The kinds of nodes that import.
    open spec fn import_kind_list(&self) -> Seq<Seq<char>> {
        seq!["use_declaration"@]
    }

    /// The kinds of nodes that may show a symbol to other files.
    open spec fn public_symbol_kind_list(&self) -> Seq<Seq<char>> {
        seq!["function_item"@, "struct_item"@, "enum_item"@, "type_item"@, "trait_item"@]
    }

    /// A function with a name, shown as `fn`, the name and the parameters.
    open spec fn function_at(&self, node: SyntaxNode, in_container: bool) -> Option<SymbolModel> {
        match name_of(node) {
            Some(name) => Some(
                plain_symbol(node, name, callable_kind(in_container), "fn "@ + name + params_of(node), visibility_of(node)),
            ),
            None => None,
        }
    }

    /// An implementation is a class named by the type it implements, shown
    /// as `impl` and the type; any other container is a trait with a name,
    /// shown as `trait` and the name.
    open spec fn container_at(&self, node: SyntaxNode) -> Option<SymbolModel> {
        if node.kind@ == "impl_item"@ {
            match node.field_text("type"@) {
                Some(name) => Some(
                    plain_symbol(
                        node,
                        name,
                        SymbolKind::Class,
                        "impl "@ + name,
                        Visibility::Public,
                    ),
                ),
                None => None,
            }
        } else {
            match name_of(node) {
                Some(name) => Some(
                    plain_symbol(
                        node,
                        name,
                        SymbolKind::Trait,
                        "trait "@ + name,
                        visibility_of(node),
                    ),
                ),
                None => None,
            }
        }
    }

    /// A struct, enum, trait or type alias with a name, shown as its
    /// keyword and the name.
    open spec fn type_at(&self, node: SyntaxNode) -> Option<SymbolModel> {
        match name_of(node) {
            Some(name) => Some(
                plain_symbol(
                    node,
                    name,
                    type_kind_of(node.kind@),
                    type_keyword_of(node.kind@) + name,
                    visibility_of(node),
                ),
            ),
            None => None,
        }
    }

    /// The import of a `use` declaration that names a path: the path is the
    /// module; a path that ends in `*` imports everything.
    open spec fn imports_at(&self, node: SyntaxNode) -> Seq<ImportModel> {
        if node.kind@ == "use_declaration"@ && node.has_field("argument"@) {
            seq![
                import_of(
                    node.field_node("argument"@).text@,
                    Seq::empty(),
                    None,
                    has_suffix(node.field_node("argument"@).text@, "*"@),
                    is_relative_path(node.field_node("argument"@).text@),
                    node.start_line as usize,
                ),
            ]
        } else {
            Seq::empty()
        }
    }

    /// An item with a visibility modifier and a name exports the name, as
    /// what its kind says.
    open spec fn exports_at(&self, node: SyntaxNode) -> Seq<ExportModel> {
        if has_modifier(node) && name_of(node) is Some && export_kind_of(node.kind@) is Some {
            seq![
                ExportModel {
                    name: name_of(node)->0,
                    kind: export_kind_of(node.kind@)->0,
                    line: node.start_line as usize,
                },
            ]
        } else {
            Seq::empty()
        }
    }

    /// What the visibility modifier of `node` says.
    open spec fn visibility_at(&self, node: SyntaxNode) -> Visibility {
        visibility_of(node)
    }

    /// The name of the language: `Rust`.
    fn name(&self) -> (r: &'static str)
        ensures
            r@ == "Rust"@,
    {
        "Rust"
    }

    /// The file extensions of the language, without the dot.
    fn extensions(&self) -> (r: Vec<&'static str>)
        ensures
            words(r@) == seq!["rs"@],
    {
        let r: Vec<&'static str> = vec!["rs"];
        assert(words(r@) =~= seq!["rs"@]);
        r
    }

    /// The name of the grammar: `rust`.
    fn grammar_name(&self) -> (r: &'static str)
        ensures
            r@ == "rust"@,
    {
        "rust"
    }

    /// The grammar that parses the language.
    fn grammar(&self) -> (r: Option<Grammar>)
        ensures
            r == Some(Grammar::Rust),
    {
        Some(Grammar::Rust)
    }

    /// The key under which packages of the language are indexed.
    fn lang_key(&self) -> (r: &'static str)
        ensures
            r@ == "rust"@,
    {
        "rust"
    }

    /// The kinds of nodes that hold other symbols.
    fn container_kinds(&self) -> (r: Vec<&'static str>) {
        let r: Vec<&'static str> = vec!["impl_item", "trait_item"];
        assert(words(r@) =~= self.container_kind_list());
        r
    }

    /// The kinds of nodes that define functions.
    fn function_kinds(&self) -> (r: Vec<&'static str>) {
        let r: Vec<&'static str> = vec!["function_item"];
        assert(words(r@) =~= self.function_kind_list());
        r
    }

    /// The kinds of nodes that define types.
    fn type_kinds(&self) -> (r: Vec<&'static str>) {
        let r: Vec<&'static str> = vec!["struct_item", "enum_item", "type_item", "trait_item"];
        assert(words(r@) =~= self.type_kind_list());
        r
    }

    /// The kinds of nodes that import.
    fn import_kinds(&self) -> (r: Vec<&'static str>) {
        let r: Vec<&'static str> = vec!["use_declaration"];
        assert(words(r@) =~= self.import_kind_list());
        r
    }

    /// The kinds of nodes that may show a symbol to other files.
    fn public_symbol_kinds(&self) -> (r: Vec<&'static str>) {
        let r: Vec<&'static str> = vec!["function_item", "struct_item", "enum_item", "type_item", "trait_item"];
        assert(words(r@) =~= self.public_symbol_kind_list());
        r
    }

    /// How the language tells what is visible.
    fn visibility_mechanism(&self) -> (r: VisibilityMechanism)
        ensures
            r == VisibilityMechanism::AccessModifier,
    {
        VisibilityMechanism::AccessModifier
    }

    /// The kinds of nodes that open a scope.
    fn scope_creating_kinds(&self) -> (r: Vec<&'static str>)
        ensures
            words(r@) == seq![
                "block"@,
                "for_expression"@,
                "while_expression"@,
                "loop_expression"@,
                "match_arm"@,
                "closure_expression"@,
            ],
    {
        let r: Vec<&'static str> = vec![
            "block",
            "for_expression",
            "while_expression",
            "loop_expression",
            "match_arm",
            "closure_expression",
        ];
        assert(words(r@) =~= seq![
            "block"@,
            "for_expression"@,
            "while_expression"@,
            "loop_expression"@,
            "match_arm"@,
            "closure_expression"@,
        ]);
        r
    }

    /// The kinds of nodes that steer control flow.
    fn control_flow_kinds(&self) -> (r: Vec<&'static str>)
        ensures
            words(r@) == seq![
                "if_expression"@,
                "match_expression"@,
                "for_expression"@,
                "while_expression"@,
                "loop_expression"@,
                "return_expression"@,
                "break_expression"@,
                "continue_expression"@,
            ],
    {
        let r: Vec<&'static str> = vec![
            "if_expression",
            "match_expression",
            "for_expression",
            "while_expression",
            "loop_expression",
            "return_expression",
            "break_expression",
            "continue_expression",
        ];
        assert(words(r@) =~= seq![
            "if_expression"@,
            "match_expression"@,
            "for_expression"@,
            "while_expression"@,
            "loop_expression"@,
            "return_expression"@,
            "break_expression"@,
            "continue_expression"@,
        ]);
        r
    }

    /// The kinds of nodes that add to the complexity of a function.
    fn complexity_nodes(&self) -> (r: Vec<&'static str>)
        ensures
            words(r@) == seq![
                "if_expression"@,
                "match_arm"@,
                "for_expression"@,
                "while_expression"@,
                "loop_expression"@,
                "binary_expression"@,
            ],
    {
        let r: Vec<&'static str> = vec![
            "if_expression",
            "match_arm",
            "for_expression",
            "while_expression",
            "loop_expression",
            "binary_expression",
        ];
        assert(words(r@) =~= seq![
            "if_expression"@,
            "match_arm"@,
            "for_expression"@,
            "while_expression"@,
            "loop_expression"@,
            "binary_expression"@,
        ]);
        r
    }

    /// The kinds of nodes that add to the depth of nesting.
    fn nesting_nodes(&self) -> (r: Vec<&'static str>)
        ensures
            words(r@) == seq![
                "if_expression"@,
                "match_expression"@,
                "for_expression"@,
                "while_expression"@,
                "loop_expression"@,
                "function_item"@,
                "impl_item"@,
            ],
    {
        let r: Vec<&'static str> = vec![
            "if_expression",
            "match_expression",
            "for_expression",
            "while_expression",
            "loop_expression",
            "function_item",
            "impl_item",
        ];
        assert(words(r@) =~= seq![
            "if_expression"@,
            "match_expression"@,
            "for_expression"@,
            "while_expression"@,
            "loop_expression"@,
            "function_item"@,
            "impl_item"@,
        ]);
        r
    }

    /// The function that `node` defines.
    fn extract_function(&self, node: &SyntaxNode, in_container: bool) -> (r: Option<Symbol>) {
        match node_name(node) {
            Some(name) => {
                let name = chars_of(name.as_str());
                let signature = concat(&prefixed("fn ", &name), &node_params(node));
                let visibility = node_visibility(node);
                Some(make_symbol(node, &name, kind_of_callable(in_container), &signature, visibility))
            },
            None => None,
        }
    }

    /// The implementation or trait that `node` defines.
    fn extract_container(&self, node: &SyntaxNode) -> (r: Option<Symbol>) {
        if node.is_kind("impl_item") {
            match node.child_by_field_name("type") {
                Some(t) => {
                    let name = chars_of(t.text.as_str());
                    let signature = prefixed("impl ", &name);
                    Some(
                        make_symbol(
                            node,
                            &name,
                            SymbolKind::Class,
                            &signature,
                            Visibility::Public,
                        ),
                    )
                },
                None => None,
            }
        } else {
            match node_name(node) {
                Some(name) => {
                    let name = chars_of(name.as_str());
                    let signature = prefixed("trait ", &name);
                    let visibility = node_visibility(node);
                    Some(make_symbol(node, &name, SymbolKind::Trait, &signature, visibility))
                },
                None => None,
            }
        }
    }

    /// The type that `node` defines.
    fn extract_type(&self, node: &SyntaxNode) -> (r: Option<Symbol>) {
        match node_name(node) {
            Some(name) => {
                let name = chars_of(name.as_str());
                let (kind, keyword) = if node.is_kind("struct_item") {
                    (SymbolKind::Struct, "struct ")
                } else if node.is_kind("enum_item") {
                    (SymbolKind::Enum, "enum ")
                } else if node.is_kind("trait_item") {
                    (SymbolKind::Trait, "trait ")
                } else {
                    (SymbolKind::Type, "type ")
                };
                let signature = prefixed(keyword, &name);
                let visibility = node_visibility(node);
                Some(make_symbol(node, &name, kind, &signature, visibility))
            },
            None => None,
        }
    }

    /// The import that `node` makes.
    fn extract_imports(&self, node: &SyntaxNode) -> (r: Vec<Import>) {
        let mut out: Vec<Import> = Vec::new();
        assert(import_views(out@) =~= Seq::<ImportModel>::empty());
        if !node.is_kind("use_declaration") {
            return out;
        }
        match node.child_by_field_name("argument") {
            Some(argument) => {
                let path = chars_of(argument.text.as_str());
                let is_wildcard = ends_with(&path, &chars_of("*"));
                let is_relative = starts_with(&path, &chars_of("self::")) || starts_with(
                    &path,
                    &chars_of("super::"),
                ) || starts_with(&path, &chars_of("crate::"));
                let names: Vec<String> = Vec::new();
                assert(texts(names@) =~= Seq::<Seq<char>>::empty());
                let import = make_import(
                    &path,
                    names,
                    None,
                    is_wildcard,
                    is_relative,
                    node.start_line as usize,
                );
                out.push(import);
                assert(import_views(out@) =~= seq![import@]);
                out
            },
            None => out,
        }
    }

    /// What `node` exports.
    fn extract_public_symbols(&self, node: &SyntaxNode) -> (r: Vec<Export>) {
        let mut out: Vec<Export> = Vec::new();
        assert(export_views(out@) =~= Seq::<ExportModel>::empty());
        if node_visibility(node) != Visibility::Public {
            return out;
        }
        match node_name(node) {
            Some(name) => {
                let name = chars_of(name.as_str());
                let kind = if node.is_kind("function_item") {
                    Some(SymbolKind::Function)
                } else if node.is_kind("struct_item") {
                    Some(SymbolKind::Struct)
                } else if node.is_kind("enum_item") {
                    Some(SymbolKind::Enum)
                } else if node.is_kind("trait_item") {
                    Some(SymbolKind::Trait)
                } else if node.is_kind("type_item") {
                    Some(SymbolKind::Type)
                } else {
                    None
                };
                match kind {
                    Some(kind) => {
                        let export = make_export(&name, kind, node.start_line as usize);
                        out.push(export);
                        assert(export_views(out@) =~= seq![export@]);
                    },
                    None => {},
                }
            },
            None => {},
        }
        out
    }

    /// Who may use what `node` defines.
    fn get_visibility(&self, node: &SyntaxNode) -> (r: Visibility) {
        node_visibility(node)
    }

    /// Whether `node` has a visibility modifier.
    fn is_public(&self, node: &SyntaxNode) -> (r: bool) {
        node_visibility(node) == Visibility::Public
    }
}

} // verus!
