//! Go: names that begin with an uppercase letter are exported.

use crate::text::{char_is_uppercase, chars_of, concat, is_upper, strip_char, trim_matches};
use crate::languages::{
    callable_kind, Export, export_views, ExportModel, Import, import_of, import_views,
    ImportModel, kind_of_callable, LanguageSupport, last_child_of_kinds, last_of_kinds,
    make_export, make_import, make_symbol, name_of, node_name, node_params, params_of,
    plain_symbol, prefixed, Symbol, SymbolKind, SymbolModel, Visibility, VisibilityMechanism,
    words,
};
use crate::syntax::{Grammar, SyntaxNode};
use vstd::prelude::*;

verus! {

/// Whether a Go name is exported: it begins with an uppercase letter.
pub open spec fn is_exported(name: Seq<char>) -> bool {
    name.len() > 0 && is_upper(name[0])
}

/// Tests whether a Go name is exported.
pub fn name_is_exported(name: &Vec<char>) -> (r: bool)
    ensures
        r == is_exported(name@),
{
    name.len() > 0 && char_is_uppercase(name[0])
}

/// Who may use a Go name: everyone, if it is exported.
pub open spec fn visibility_of_name(name: Seq<char>) -> Visibility {
    if is_exported(name) {
        Visibility::Public
    } else {
        Visibility::Private
    }
}

/// Who may use a Go name.
pub fn name_visibility(name: &Vec<char>) -> (r: Visibility)
    ensures
        r == visibility_of_name(name@),
{
    if name_is_exported(name) {
        Visibility::Public
    } else {
        Visibility::Private
    }
}

/// What a Go type specification defines: a struct, an interface or
/// another type.
pub open spec fn type_kind_of(node: SyntaxNode) -> SymbolKind {
    if !node.has_field("type"@) {
        SymbolKind::Type
    } else if node.field_node("type"@).kind@ == "struct_type"@ {
        SymbolKind::Struct
    } else if node.field_node("type"@).kind@ == "interface_type"@ {
        SymbolKind::Interface
    } else {
        SymbolKind::Type
    }
}

/// The kinds of nodes that hold the path of an import.
pub open spec fn path_kinds() -> Seq<Seq<char>> {
    seq!["interpreted_string_literal"@]
}

/// The kinds of nodes that hold the alias of an import.
pub open spec fn alias_kinds() -> Seq<Seq<char>> {
    seq!["package_identifier"@, "blank_identifier"@, "dot"@]
}

/// The import that an import specification makes: its last string, without
/// quotes, is the module, and its last identifier, `_` or `.` the alias.
/// Without a module there is no import. The alias `.` imports everything.
pub open spec fn import_of_spec(node: SyntaxNode, line: usize) -> Option<ImportModel> {
    let at = last_of_kinds(node.children@, node.children.len() as int, path_kinds());
    let alias_at = last_of_kinds(node.children@, node.children.len() as int, alias_kinds());
    let path = if at >= 0 {
        strip_char(node.children[at].text@, '"')
    } else {
        Seq::empty()
    };
    let alias = if alias_at >= 0 {
        Some(node.children[alias_at].text@)
    } else {
        None
    };
    if path.len() == 0 {
        None
    } else {
        Some(import_of(path, Seq::empty(), alias, alias == Some(seq!['.']), false, line))
    }
}

/// The imports of the import specifications among the first `n` nodes.
pub open spec fn imports_of_specs(nodes: Seq<SyntaxNode>, n: int, line: usize) -> Seq<ImportModel>
    decreases n,
{
    if n <= 0 {
        Seq::empty()
    } else {
        let rest = imports_of_specs(nodes, n - 1, line);
        if nodes[n - 1].kind@ == "import_spec"@ && import_of_spec(nodes[n - 1], line) is Some {
            rest.push(import_of_spec(nodes[n - 1], line)->0)
        } else {
            rest
        }
    }
}

/// The imports of the first `n` children of an import declaration: those of
/// its specifications and of the specifications in its lists.
pub open spec fn imports_declared(nodes: Seq<SyntaxNode>, n: int, line: usize) -> Seq<ImportModel>
    decreases n,
{
    if n <= 0 {
        Seq::empty()
    } else {
        let rest = imports_declared(nodes, n - 1, line);
        let child = nodes[n - 1];
        if child.kind@ == "import_spec"@ {
            if import_of_spec(child, line) is Some {
                rest.push(import_of_spec(child, line)->0)
            } else {
                rest
            }
        } else if child.kind@ == "import_spec_list"@ {
            rest + imports_of_specs(child.children@, child.children.len() as int, line)
        } else {
            rest
        }
    }
}

/// What a Go declaration of the given kind exports.
pub open spec fn export_kind_of(kind: Seq<char>) -> Option<SymbolKind> {
    if kind == "function_declaration"@ {
        Some(SymbolKind::Function)
    } else if kind == "method_declaration"@ {
        Some(SymbolKind::Method)
    } else if kind == "type_spec"@ {
        Some(SymbolKind::Type)
    } else if kind == "const_spec"@ {
        Some(SymbolKind::Constant)
    } else if kind == "var_spec"@ {
        Some(SymbolKind::Variable)
    } else {
        None
    }
}

/// What a Go declaration exports.
pub fn export_kind(node: &SyntaxNode) -> (r: Option<SymbolKind>)
    ensures
        r == export_kind_of(node.kind@),
{
    if node.is_kind("function_declaration") {
        Some(SymbolKind::Function)
    } else if node.is_kind("method_declaration") {
        Some(SymbolKind::Method)
    } else if node.is_kind("type_spec") {
        Some(SymbolKind::Type)
    } else if node.is_kind("const_spec") {
        Some(SymbolKind::Constant)
    } else if node.is_kind("var_spec") {
        Some(SymbolKind::Variable)
    } else {
        None
    }
}

impl Go {
    /// The import that an import specification makes.
    pub fn parse_import_spec(node: &SyntaxNode, line: usize) -> (r: Option<Import>)
        ensures
            r is Some == import_of_spec(*node, line) is Some,
            r is Some ==> r->0@ == import_of_spec(*node, line)->0,
    {
        let path_list: Vec<&'static str> = vec!["interpreted_string_literal"];
        assert(words(path_list@) =~= path_kinds());
        let alias_list: Vec<&'static str> = vec!["package_identifier", "blank_identifier", "dot"];
        assert(words(alias_list@) =~= alias_kinds());
        let path: Vec<char> = match last_child_of_kinds(node, &path_list) {
            Some(p) => trim_matches(&chars_of(p.text.as_str()), '"'),
            None => Vec::new(),
        };
        let alias: Option<String> = match last_child_of_kinds(node, &alias_list) {
            Some(a) => Some(a.text.clone()),
            None => None,
        };
        if path.len() == 0 {
            return None;
        }
        let is_wildcard = match &alias {
            Some(a) => crate::text::text_is(a.as_str(), "."),
            None => false,
        };
        proof {
            reveal_strlit(".");
            assert("."@ =~= seq!['.']);
        }
        let names: Vec<String> = Vec::new();
        assert(crate::text::texts(names@) =~= Seq::<Seq<char>>::empty());
        Some(make_import(&path, names, alias, is_wildcard, false, line))
    }
}

/// Go language support.
pub struct Go;

impl LanguageSupport for Go {
    /// The kinds of nodes that define functions.
    open spec fn function_kind_list(&self) -> Seq<Seq<char>> {
        seq!["function_declaration"@, "method_declaration"@]
    }

    /// The kinds of nodes that hold other symbols.
    open spec fn container_kind_list(&self) -> Seq<Seq<char>> {
        Seq::<Seq<char>>::empty()
    }

    /// The kinds of nodes that define types.
    open spec fn type_kind_list(&self) -> Seq<Seq<char>> {
        seq!["type_spec"@]
    }

    /// The kinds of nodes that import.
    open spec fn import_kind_list(&self) -> Seq<Seq<char>> {
        seq!["import_declaration"@]
    }

    /// The kinds of nodes that may show a symbol to other files.
    open spec fn public_symbol_kind_list(&self) -> Seq<Seq<char>> {
        seq![
            "function_declaration"@,
            "method_declaration"@,
            "type_spec"@,
            "const_spec"@,
            "var_spec"@,
        ]
    }

    /// A function declaration with a name: `func`, the name and the
    /// parameters.
    open spec fn function_at(&self, node: SyntaxNode, in_container: bool) -> Option<SymbolModel> {
        match name_of(node) {
            Some(name) => Some(
                plain_symbol(
                    node,
                    name,
                    callable_kind(in_container),
                    "func "@ + name + params_of(node),
                    visibility_of_name(name),
                ),
            ),
            None => None,
        }
    }

    /// No node defines a container.
    open spec fn container_at(&self, node: SyntaxNode) -> Option<SymbolModel> {
        None
    }

    /// A type specification with a name: `type` and the name.
    open spec fn type_at(&self, node: SyntaxNode) -> Option<SymbolModel> {
        match name_of(node) {
            Some(name) => Some(
                plain_symbol(
                    node,
                    name,
                    type_kind_of(node),
                    "type "@ + name,
                    visibility_of_name(name),
                ),
            ),
            None => None,
        }
    }

    /// The imports of an import declaration, each on the line of the
    /// declaration.
    open spec fn imports_at(&self, node: SyntaxNode) -> Seq<ImportModel> {
        if node.kind@ == "import_declaration"@ {
            imports_declared(node.children@, node.children.len() as int, node.start_line as usize)
        } else {
            Seq::empty()
        }
    }

    /// A declaration with an exported name exports it, as what its kind
    /// says.
    open spec fn exports_at(&self, node: SyntaxNode) -> Seq<ExportModel> {
        if name_of(node) is Some && is_exported(name_of(node)->0) && export_kind_of(node.kind@)
            is Some {
            seq![
                ExportModel {
                    name: name_of(node)->0,
                    kind: export_kind_of(node.kind@)->0,
                    line: node.start_line as usize,
                },
            ]
        } else {
            Seq::empty()
        }
    }

    /// What `node` defines is public if its name is exported, else private.
    open spec fn visibility_at(&self, node: SyntaxNode) -> Visibility {
        if name_of(node) is Some && is_exported(name_of(node)->0) {
            Visibility::Public
        } else {
            Visibility::Private
        }
    }

    /// The name of the language: `Go`.
    fn name(&self) -> (r: &'static str)
        ensures
            r@ == "Go"@,
    {
        "Go"
    }

    /// The file extensions of the language, without the dot.
    fn extensions(&self) -> (r: Vec<&'static str>)
        ensures
            words(r@) == seq!["go"@],
    {
        let r: Vec<&'static str> = vec!["go"];
        assert(words(r@) =~= seq!["go"@]);
        r
    }

    /// The name of the grammar: `go`.
    fn grammar_name(&self) -> (r: &'static str)
        ensures
            r@ == "go"@,
    {
        "go"
    }

    /// The grammar that parses the language.
    fn grammar(&self) -> (r: Option<Grammar>)
        ensures
            r == Some(Grammar::Go),
    {
        Some(Grammar::Go)
    }

    /// The key under which packages of the language are indexed.
    fn lang_key(&self) -> (r: &'static str)
        ensures
            r@ == "go"@,
    {
        "go"
    }

    /// The kinds of nodes that hold other symbols.
    fn container_kinds(&self) -> (r: Vec<&'static str>) {
        let r: Vec<&'static str> = Vec::new();
        assert(words(r@) =~= Seq::<Seq<char>>::empty());
        r
    }

    /// The kinds of nodes that define functions.
    fn function_kinds(&self) -> (r: Vec<&'static str>) {
        let r: Vec<&'static str> = vec!["function_declaration", "method_declaration"];
        assert(words(r@) =~= self.function_kind_list());
        r
    }

    /// The kinds of nodes that define types.
    fn type_kinds(&self) -> (r: Vec<&'static str>) {
        let r: Vec<&'static str> = vec!["type_spec"];
        assert(words(r@) =~= self.type_kind_list());
        r
    }

    /// The kinds of nodes that import.
    fn import_kinds(&self) -> (r: Vec<&'static str>) {
        let r: Vec<&'static str> = vec!["import_declaration"];
        assert(words(r@) =~= self.import_kind_list());
        r
    }

    /// The kinds of nodes that may show a symbol to other files.
    fn public_symbol_kinds(&self) -> (r: Vec<&'static str>) {
        let r: Vec<&'static str> = vec![
            "function_declaration",
            "method_declaration",
            "type_spec",
            "const_spec",
            "var_spec",
        ];
        assert(words(r@) =~= self.public_symbol_kind_list());
        r
    }

    /// How the language tells what is visible.
    fn visibility_mechanism(&self) -> (r: VisibilityMechanism)
        ensures
            r == VisibilityMechanism::NamingConvention,
    {
        VisibilityMechanism::NamingConvention
    }

    /// The kinds of nodes that open a scope.
    fn scope_creating_kinds(&self) -> (r: Vec<&'static str>)
        ensures
            words(r@) == seq![
                "for_statement"@,
                "if_statement"@,
                "switch_statement"@,
                "select_statement"@,
                "block"@,
            ],
    {
        let r: Vec<&'static str> = vec![
            "for_statement",
            "if_statement",
            "switch_statement",
            "select_statement",
            "block",
        ];
        assert(words(r@) =~= seq![
            "for_statement"@,
            "if_statement"@,
            "switch_statement"@,
            "select_statement"@,
            "block"@,
        ]);
        r
    }

    /// The kinds of nodes that steer control flow.
    fn control_flow_kinds(&self) -> (r: Vec<&'static str>)
        ensures
            words(r@) == seq![
                "if_statement"@,
                "for_statement"@,
                "switch_statement"@,
                "select_statement"@,
                "return_statement"@,
                "break_statement"@,
                "continue_statement"@,
                "goto_statement"@,
                "defer_statement"@,
            ],
    {
        let r: Vec<&'static str> = vec![
            "if_statement",
            "for_statement",
            "switch_statement",
            "select_statement",
            "return_statement",
            "break_statement",
            "continue_statement",
            "goto_statement",
            "defer_statement",
        ];
        assert(words(r@) =~= seq![
            "if_statement"@,
            "for_statement"@,
            "switch_statement"@,
            "select_statement"@,
            "return_statement"@,
            "break_statement"@,
            "continue_statement"@,
            "goto_statement"@,
            "defer_statement"@,
        ]);
        r
    }

    /// The kinds of nodes that add to the complexity of a function.
    fn complexity_nodes(&self) -> (r: Vec<&'static str>)
        ensures
            words(r@) == seq![
                "if_statement"@,
                "for_statement"@,
                "switch_statement"@,
                "select_statement"@,
                "expression_case"@,
                "type_case"@,
                "communication_case"@,
                "binary_expression"@,
            ],
    {
        let r: Vec<&'static str> = vec![
            "if_statement",
            "for_statement",
            "switch_statement",
            "select_statement",
            "expression_case",
            "type_case",
            "communication_case",
            "binary_expression",
        ];
        assert(words(r@) =~= seq![
            "if_statement"@,
            "for_statement"@,
            "switch_statement"@,
            "select_statement"@,
            "expression_case"@,
            "type_case"@,
            "communication_case"@,
            "binary_expression"@,
        ]);
        r
    }

    /// The kinds of nodes that add to the depth of nesting.
    fn nesting_nodes(&self) -> (r: Vec<&'static str>)
        ensures
            words(r@) == seq![
                "if_statement"@,
                "for_statement"@,
                "switch_statement"@,
                "select_statement"@,
                "function_declaration"@,
                "method_declaration"@,
            ],
    {
        let r: Vec<&'static str> = vec![
            "if_statement",
            "for_statement",
            "switch_statement",
            "select_statement",
            "function_declaration",
            "method_declaration",
        ];
        assert(words(r@) =~= seq![
            "if_statement"@,
            "for_statement"@,
            "switch_statement"@,
            "select_statement"@,
            "function_declaration"@,
            "method_declaration"@,
        ]);
        r
    }

    /// The function that `node` declares.
    fn extract_function(&self, node: &SyntaxNode, in_container: bool) -> (r: Option<Symbol>) {
        match node_name(node) {
            Some(name) => {
                let name = chars_of(name.as_str());
                let params = node_params(node);
                let signature = concat(&prefixed("func ", &name), &params);
                let visibility = name_visibility(&name);
                Some(
                    make_symbol(
                        node,
                        &name,
                        kind_of_callable(in_container),
                        &signature,
                        visibility,
                    ),
                )
            },
            None => None,
        }
    }

    /// No node defines a container.
    fn extract_container(&self, node: &SyntaxNode) -> (r: Option<Symbol>) {
        None
    }

    /// The type that `node` specifies.
    fn extract_type(&self, node: &SyntaxNode) -> (r: Option<Symbol>) {
        match node_name(node) {
            Some(name) => {
                let name = chars_of(name.as_str());
                let kind = match node.child_by_field_name("type") {
                    Some(t) => {
                        if t.is_kind("struct_type") {
                            SymbolKind::Struct
                        } else if t.is_kind("interface_type") {
                            SymbolKind::Interface
                        } else {
                            SymbolKind::Type
                        }
                    },
                    None => SymbolKind::Type,
                };
                let signature = prefixed("type ", &name);
                let visibility = name_visibility(&name);
                Some(make_symbol(node, &name, kind, &signature, visibility))
            },
            None => None,
        }
    }

    /// The imports of an import declaration.
    fn extract_imports(&self, node: &SyntaxNode) -> (r: Vec<Import>) {
        let mut out: Vec<Import> = Vec::new();
        assert(import_views(out@) =~= Seq::<ImportModel>::empty());
        if !node.is_kind("import_declaration") {
            return out;
        }
        let line = node.start_line as usize;
        let mut i: usize = 0;
        while i < node.children.len()
            invariant
                i <= node.children.len(),
                import_views(out@) == imports_declared(node.children@, i as int, line),
            decreases node.children.len() - i,
        {
            let child = &node.children[i];
            let ghost before = import_views(out@);
            if child.is_kind("import_spec") {
                match Go::parse_import_spec(child, line) {
                    Some(import) => {
                        out.push(import);
                        assert(import_views(out@) =~= before.push(import@));
                    },
                    None => {},
                }
            } else if child.is_kind("import_spec_list") {
                let mut k: usize = 0;
                while k < child.children.len()
                    invariant
                        k <= child.children.len(),
                        import_views(out@) == before + imports_of_specs(
                            child.children@,
                            k as int,
                            line,
                        ),
                    decreases child.children.len() - k,
                {
                    let spec = &child.children[k];
                    let ghost inner = import_views(out@);
                    if spec.is_kind("import_spec") {
                        match Go::parse_import_spec(spec, line) {
                            Some(import) => {
                                out.push(import);
                                assert(import_views(out@) =~= inner.push(import@));
                            },
                            None => {},
                        }
                    }
                    assert(import_views(out@) =~= before + imports_of_specs(
                        child.children@,
                        k + 1,
                        line,
                    ));
                    k += 1;
                }
            }
            i += 1;
        }
        out
    }

    /// What `node` exports.
    fn extract_public_symbols(&self, node: &SyntaxNode) -> (r: Vec<Export>) {
        let mut out: Vec<Export> = Vec::new();
        assert(export_views(out@) =~= Seq::<ExportModel>::empty());
        match node_name(node) {
            Some(name) => {
                let name = chars_of(name.as_str());
                if name_is_exported(&name) {
                    match export_kind(node) {
                        Some(kind) => {
                            let export = make_export(&name, kind, node.start_line as usize);
                            out.push(export);
                            assert(export_views(out@) =~= seq![export@]);
                        },
                        None => {},
                    }
                }
            },
            None => {},
        }
        out
    }

    /// Who may use what `node` defines.
    fn get_visibility(&self, node: &SyntaxNode) -> (r: Visibility) {
        if self.is_public(node) {
            Visibility::Public
        } else {
            Visibility::Private
        }
    }

    /// Whether the name of `node` is exported.
    fn is_public(&self, node: &SyntaxNode) -> (r: bool) {
        match node_name(node) {
            Some(name) => {
                let name = chars_of(name.as_str());
                name_is_exported(&name)
            },
            None => false,
        }
    }
}

} // verus!
