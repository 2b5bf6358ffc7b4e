//! Python: names that begin with an underscore are private.

use crate::syntax::opt_text;
use crate::text::{chars_of, concat, ends_with, has_prefix, has_suffix, starts_with, texts, text_is};
use crate::languages::{
    callable_kind, Export, export_views, ExportModel, first_child_of_kinds, first_of_kinds,
    Import, import_of, import_views, ImportModel, kind_of_callable, LanguageSupport,
    make_export, make_import, make_symbol, name_of, node_name, node_params, params_of,
    plain_symbol, prefixed, Symbol, SymbolKind, SymbolModel, Visibility, VisibilityMechanism,
    words,
};
use crate::syntax::{Grammar, SyntaxNode};
use vstd::prelude::*;

verus! {

/// Whether a Python name is private: it begins with an underscore, and is
/// not a name such as `__init__` with two underscores at either end.
pub open spec fn is_private_name(name: Seq<char>) -> bool {
    has_prefix(name, "_"@) && !(has_prefix(name, "__"@) && has_suffix(name, "__"@))
}

/// Tests whether a Python name is private.
pub fn name_is_private(name: &Vec<char>) -> (r: bool)
    ensures
        r == is_private_name(name@),
{
    let one = chars_of("_");
    let two = chars_of("__");
    starts_with(name, &one) && !(starts_with(name, &two) && ends_with(name, &two))
}

/// Who may use a Python name.
pub open spec fn visibility_of_name(name: Seq<char>) -> Visibility {
    if is_private_name(name) {
        Visibility::Private
    } else {
        Visibility::Public
    }
}

/// Who may use a Python name.
pub fn name_visibility(name: &Vec<char>) -> (r: Visibility)
    ensures
        r == visibility_of_name(name@),
{
    if name_is_private(name) {
        Visibility::Private
    } else {
        Visibility::Public
    }
}

/// The imports of the first `n` children of an `import` statement: one for
/// each dotted name, and one for each aliased import that has a name.
pub open spec fn module_imports(nodes: Seq<SyntaxNode>, n: int, line: usize) -> Seq<ImportModel>
    decreases n,
{
    if n <= 0 {
        Seq::empty()
    } else {
        let rest = module_imports(nodes, n - 1, line);
        let child = nodes[n - 1];
        if child.kind@ == "dotted_name"@ {
            rest.push(import_of(child.text@, Seq::empty(), None, false, false, line))
        } else if child.kind@ == "aliased_import"@ && child.has_field("name"@) {
            rest.push(
                import_of(
                    child.field_node("name"@).text@,
                    Seq::empty(),
                    child.field_text("alias"@),
                    false,
                    false,
                    line,
                ),
            )
        } else {
            rest
        }
    }
}

/// The name that a child of a `from` import brings in: that of an aliased
/// import is its own name, that of any other child its text.
pub open spec fn imported_name(child: SyntaxNode) -> Seq<char> {
    if child.kind@ == "aliased_import"@ && child.has_field("name"@) {
        child.field_node("name"@).text@
    } else {
        child.text@
    }
}

/// The names that the first `n` children of a `from` import bring in: one
/// for each child that fills the field `name`.
pub open spec fn from_names(nodes: Seq<SyntaxNode>, n: int) -> Seq<Seq<char>>
    decreases n,
{
    if n <= 0 {
        Seq::empty()
    } else {
        let rest = from_names(nodes, n - 1);
        if opt_text(nodes[n - 1].field) == Some("name"@) {
            rest.push(imported_name(nodes[n - 1]))
        } else {
            rest
        }
    }
}

/// The kind of node that imports everything.
pub open spec fn wildcard_kinds() -> Seq<Seq<char>> {
    seq!["wildcard_import"@]
}

/// The import of a `from` import that names a module: the module, the names
/// it brings in, whether it brings in everything, and whether the module
/// is named relative to the file.
pub open spec fn from_import(node: SyntaxNode) -> Seq<ImportModel> {
    if node.has_field("module_name"@) {
        seq![
            import_of(
                node.field_node("module_name"@).text@,
                from_names(node.children@, node.children.len() as int),
                None,
                first_of_kinds(node.children@, 0, wildcard_kinds()) < node.children.len(),
                node.field_node("module_name"@).kind@ == "relative_import"@,
                node.start_line as usize,
            ),
        ]
    } else {
        Seq::empty()
    }
}

/// What a Python definition of the given kind exports.
pub open spec fn export_kind_of(kind: Seq<char>) -> Option<SymbolKind> {
    if kind == "class_definition"@ {
        Some(SymbolKind::Class)
    } else if kind == "function_definition"@ || kind == "async_function_definition"@ {
        Some(SymbolKind::Function)
    } else {
        None
    }
}

/// Python language support.
pub struct Python;

impl LanguageSupport for Python {
    /// The kinds of nodes that define functions.
    open spec fn function_kind_list(&self) -> Seq<Seq<char>> {
        seq!["function_definition"@, "async_function_definition"@]
    }

    /// The kinds of nodes that hold other symbols.
    open spec fn container_kind_list(&self) -> Seq<Seq<char>> {
        seq!["class_definition"@]
    }

    /// The kinds of nodes that define types.
    open spec fn type_kind_list(&self) -> Seq<Seq<char>> {
        seq!["class_definition"@]
    }

    /// The kinds of nodes that import.
    open spec fn import_kind_list(&self) -> Seq<Seq<char>> {
        seq!["import_statement"@, "import_from_statement"@]
    }

    /// The kinds of nodes that may show a symbol to other files.
    open spec fn public_symbol_kind_list(&self) -> Seq<Seq<char>> {
        seq!["function_definition"@, "async_function_definition"@, "class_definition"@]
    }

    /// A function with a name, shown as `def`, the name and the parameters.
    open spec fn function_at(&self, node: SyntaxNode, in_container: bool) -> Option<SymbolModel> {
        match name_of(node) {
            Some(name) => Some(
                plain_symbol(node, name, callable_kind(in_container), "def "@ + name + params_of(node), visibility_of_name(name)),
            ),
            None => None,
        }
    }

    /// A class with a name, shown as `class` and the name.
    open spec fn container_at(&self, node: SyntaxNode) -> Option<SymbolModel> {
        match name_of(node) {
            Some(name) => Some(
                plain_symbol(node, name, SymbolKind::Class, "class "@ + name, visibility_of_name(name)),
            ),
            None => None,
        }
    }

    /// A type is what the node defines as a container.
    open spec fn type_at(&self, node: SyntaxNode) -> Option<SymbolModel> {
        self.container_at(node)
    }

    /// The imports of an `import` statement or of a `from` import, each on
    /// the line of the statement.
    open spec fn imports_at(&self, node: SyntaxNode) -> Seq<ImportModel> {
        if node.kind@ == "import_statement"@ {
            module_imports(node.children@, node.children.len() as int, node.start_line as usize)
        } else if node.kind@ == "import_from_statement"@ {
            from_import(node)
        } else {
            Seq::empty()
        }
    }

    /// A function or class whose name is not private exports it.
    open spec fn exports_at(&self, node: SyntaxNode) -> Seq<ExportModel> {
        if name_of(node) is Some && !is_private_name(name_of(node)->0) && export_kind_of(
            node.kind@,
        ) is Some {
            seq![
                ExportModel {
                    name: name_of(node)->0,
                    kind: export_kind_of(node.kind@)->0,
                    line: node.start_line as usize,
                },
            ]
        } else {
            Seq::empty()
        }
    }

    /// What `node` defines is private if it has a private name, else public.
    open spec fn visibility_at(&self, node: SyntaxNode) -> Visibility {
        if name_of(node) is Some && is_private_name(name_of(node)->0) {
            Visibility::Private
        } else {
            Visibility::Public
        }
    }

    /// The name of the language: `Python`.
    fn name(&self) -> (r: &'static str)
        ensures
            r@ == "Python"@,
    {
        "Python"
    }

    /// The file extensions of the language, without the dot.
    fn extensions(&self) -> (r: Vec<&'static str>)
        ensures
            words(r@) == seq!["py"@, "pyi"@, "pyw"@],
    {
        let r: Vec<&'static str> = vec!["py", "pyi", "pyw"];
        assert(words(r@) =~= seq!["py"@, "pyi"@, "pyw"@]);
        r
    }

    /// The name of the grammar: `python`.
    fn grammar_name(&self) -> (r: &'static str)
        ensures
            r@ == "python"@,
    {
        "python"
    }

    /// The grammar that parses the language.
    fn grammar(&self) -> (r: Option<Grammar>)
        ensures
            r == Some(Grammar::Python),
    {
        Some(Grammar::Python)
    }

    /// The key under which packages of the language are indexed.
    fn lang_key(&self) -> (r: &'static str)
        ensures
            r@ == "python"@,
    {
        "python"
    }

    /// The kinds of nodes that hold other symbols.
    fn container_kinds(&self) -> (r: Vec<&'static str>) {
        let r: Vec<&'static str> = vec!["class_definition"];
        assert(words(r@) =~= self.container_kind_list());
        r
    }

    /// The kinds of nodes that define functions.
    fn function_kinds(&self) -> (r: Vec<&'static str>) {
        let r: Vec<&'static str> = vec!["function_definition", "async_function_definition"];
        assert(words(r@) =~= self.function_kind_list());
        r
    }

    /// The kinds of nodes that define types.
    fn type_kinds(&self) -> (r: Vec<&'static str>) {
        let r: Vec<&'static str> = vec!["class_definition"];
        assert(words(r@) =~= self.type_kind_list());
        r
    }

    /// The kinds of nodes that import.
    fn import_kinds(&self) -> (r: Vec<&'static str>) {
        let r: Vec<&'static str> = vec!["import_statement", "import_from_statement"];
        assert(words(r@) =~= self.import_kind_list());
        r
    }

    /// The kinds of nodes that may show a symbol to other files.
    fn public_symbol_kinds(&self) -> (r: Vec<&'static str>) {
        let r: Vec<&'static str> = vec!["function_definition", "async_function_definition", "class_definition"];
        assert(words(r@) =~= self.public_symbol_kind_list());
        r
    }

    /// How the language tells what is visible.
    fn visibility_mechanism(&self) -> (r: VisibilityMechanism)
        ensures
            r == VisibilityMechanism::NamingConvention,
    {
        VisibilityMechanism::NamingConvention
    }

    /// The kinds of nodes that open a scope.
    fn scope_creating_kinds(&self) -> (r: Vec<&'static str>)
        ensures
            words(r@) == seq![
                "for_statement"@,
                "while_statement"@,
                "with_statement"@,
                "try_statement"@,
                "list_comprehension"@,
                "lambda"@,
            ],
    {
        let r: Vec<&'static str> = vec![
            "for_statement",
            "while_statement",
            "with_statement",
            "try_statement",
            "list_comprehension",
            "lambda",
        ];
        assert(words(r@) =~= seq![
            "for_statement"@,
            "while_statement"@,
            "with_statement"@,
            "try_statement"@,
            "list_comprehension"@,
            "lambda"@,
        ]);
        r
    }

    /// The kinds of nodes that steer control flow.
    fn control_flow_kinds(&self) -> (r: Vec<&'static str>)
        ensures
            words(r@) == seq![
                "if_statement"@,
                "for_statement"@,
                "while_statement"@,
                "try_statement"@,
                "with_statement"@,
                "return_statement"@,
                "break_statement"@,
                "continue_statement"@,
                "raise_statement"@,
            ],
    {
        let r: Vec<&'static str> = vec![
            "if_statement",
            "for_statement",
            "while_statement",
            "try_statement",
            "with_statement",
            "return_statement",
            "break_statement",
            "continue_statement",
            "raise_statement",
        ];
        assert(words(r@) =~= seq![
            "if_statement"@,
            "for_statement"@,
            "while_statement"@,
            "try_statement"@,
            "with_statement"@,
            "return_statement"@,
            "break_statement"@,
            "continue_statement"@,
            "raise_statement"@,
        ]);
        r
    }

    /// The kinds of nodes that add to the complexity of a function.
    fn complexity_nodes(&self) -> (r: Vec<&'static str>)
        ensures
            words(r@) == seq![
                "if_statement"@,
                "elif_clause"@,
                "for_statement"@,
                "while_statement"@,
                "except_clause"@,
                "conditional_expression"@,
                "boolean_operator"@,
            ],
    {
        let r: Vec<&'static str> = vec![
            "if_statement",
            "elif_clause",
            "for_statement",
            "while_statement",
            "except_clause",
            "conditional_expression",
            "boolean_operator",
        ];
        assert(words(r@) =~= seq![
            "if_statement"@,
            "elif_clause"@,
            "for_statement"@,
            "while_statement"@,
            "except_clause"@,
            "conditional_expression"@,
            "boolean_operator"@,
        ]);
        r
    }

    /// The kinds of nodes that add to the depth of nesting.
    fn nesting_nodes(&self) -> (r: Vec<&'static str>)
        ensures
            words(r@) == seq![
                "if_statement"@,
                "for_statement"@,
                "while_statement"@,
                "try_statement"@,
                "with_statement"@,
                "function_definition"@,
                "class_definition"@,
            ],
    {
        let r: Vec<&'static str> = vec![
            "if_statement",
            "for_statement",
            "while_statement",
            "try_statement",
            "with_statement",
            "function_definition",
            "class_definition",
        ];
        assert(words(r@) =~= seq![
            "if_statement"@,
            "for_statement"@,
            "while_statement"@,
            "try_statement"@,
            "with_statement"@,
            "function_definition"@,
            "class_definition"@,
        ]);
        r
    }

    /// The function that `node` defines.
    fn extract_function(&self, node: &SyntaxNode, in_container: bool) -> (r: Option<Symbol>) {
        match node_name(node) {
            Some(name) => {
                let name = chars_of(name.as_str());
                let signature = concat(&prefixed("def ", &name), &node_params(node));
                let visibility = name_visibility(&name);
                Some(make_symbol(node, &name, kind_of_callable(in_container), &signature, visibility))
            },
            None => None,
        }
    }

    /// The class that `node` defines.
    fn extract_container(&self, node: &SyntaxNode) -> (r: Option<Symbol>) {
        match node_name(node) {
            Some(name) => {
                let name = chars_of(name.as_str());
                let signature = prefixed("class ", &name);
                let visibility = name_visibility(&name);
                Some(make_symbol(node, &name, SymbolKind::Class, &signature, visibility))
            },
            None => None,
        }
    }

    /// A type is what the node defines as a container.
    fn extract_type(&self, node: &SyntaxNode) -> (r: Option<Symbol>) {
        self.extract_container(node)
    }

    /// The imports that `node` makes.
    fn extract_imports(&self, node: &SyntaxNode) -> (r: Vec<Import>) {
        let mut out: Vec<Import> = Vec::new();
        assert(import_views(out@) =~= Seq::<ImportModel>::empty());
        let line = node.start_line as usize;
        if node.is_kind("import_statement") {
            let mut i: usize = 0;
            while i < node.children.len()
                invariant
                    i <= node.children.len(),
                    import_views(out@) == module_imports(node.children@, i as int, line),
                decreases node.children.len() - i,
            {
                let child = &node.children[i];
                let ghost before = import_views(out@);
                if child.is_kind("dotted_name") {
                    let names: Vec<String> = Vec::new();
                    assert(texts(names@) =~= Seq::<Seq<char>>::empty());
                    let import = make_import(
                        &chars_of(child.text.as_str()),
                        names,
                        None,
                        false,
                        false,
                        line,
                    );
                    out.push(import);
                    assert(import_views(out@) =~= before.push(import@));
                } else if child.is_kind("aliased_import") {
                    match child.child_by_field_name("name") {
                        Some(name) => {
                            let alias: Option<String> = match child.child_by_field_name("alias") {
                                Some(a) => Some(a.text.clone()),
                                None => None,
                            };
                            let names: Vec<String> = Vec::new();
                            assert(texts(names@) =~= Seq::<Seq<char>>::empty());
                            let import = make_import(
                                &chars_of(name.text.as_str()),
                                names,
                                alias,
                                false,
                                false,
                                line,
                            );
                            out.push(import);
                            assert(import_views(out@) =~= before.push(import@));
                        },
                        None => {},
                    }
                }
                i += 1;
            }
            out
        } else if node.is_kind("import_from_statement") {
            match node.child_by_field_name("module_name") {
                Some(module) => {
                    let mut names: Vec<String> = Vec::new();
                    let mut i: usize = 0;
                    assert(texts(names@) =~= from_names(node.children@, 0));
                    while i < node.children.len()
                        invariant
                            i <= node.children.len(),
                            texts(names@) == from_names(node.children@, i as int),
                        decreases node.children.len() - i,
                    {
                        let child = &node.children[i];
                        let ghost before = texts(names@);
                        let fills_name = match &child.field {
                            Some(f) => text_is(f.as_str(), "name"),
                            None => false,
                        };
                        if fills_name {
                            let own = if child.is_kind("aliased_import") {
                                child.child_by_field_name("name")
                            } else {
                                None
                            };
                            let name = match own {
                                Some(n) => n.text.clone(),
                                None => child.text.clone(),
                            };
                            names.push(name);
                            assert(texts(names@) =~= before.push(imported_name(*child)));
                        }
                        i += 1;
                    }
                    let kinds: Vec<&'static str> = vec!["wildcard_import"];
                    assert(words(kinds@) =~= wildcard_kinds());
                    let is_wildcard = first_child_of_kinds(node, &kinds).is_some();
                    let is_relative = module.is_kind("relative_import");
                    let import = make_import(
                        &chars_of(module.text.as_str()),
                        names,
                        None,
                        is_wildcard,
                        is_relative,
                        line,
                    );
                    out.push(import);
                    assert(import_views(out@) =~= seq![import@]);
                    out
                },
                None => out,
            }
        } else {
            out
        }
    }

    /// What `node` exports.
    fn extract_public_symbols(&self, node: &SyntaxNode) -> (r: Vec<Export>) {
        let mut out: Vec<Export> = Vec::new();
        assert(export_views(out@) =~= Seq::<ExportModel>::empty());
        match node_name(node) {
            Some(name) => {
                let name = chars_of(name.as_str());
                if !name_is_private(&name) {
                    let kind = if node.is_kind("class_definition") {
                        Some(SymbolKind::Class)
                    } else if node.is_kind("function_definition") || node.is_kind(
                        "async_function_definition",
                    ) {
                        Some(SymbolKind::Function)
                    } else {
                        None
                    };
                    match kind {
                        Some(kind) => {
                            let export = make_export(&name, kind, node.start_line as usize);
                            out.push(export);
                            assert(export_views(out@) =~= seq![export@]);
                        },
                        None => {},
                    }
                }
            },
            None => {},
        }
        out
    }

    /// Who may use what `node` defines.
    fn get_visibility(&self, node: &SyntaxNode) -> (r: Visibility) {
        if self.is_public(node) {
            Visibility::Public
        } else {
            Visibility::Private
        }
    }

    /// Whether the name of `node` is not private.
    fn is_public(&self, node: &SyntaxNode) -> (r: bool) {
        match node_name(node) {
            Some(name) => {
                let name = chars_of(name.as_str());
                !name_is_private(&name)
            },
            None => true,
        }
    }
}

} // verus!
