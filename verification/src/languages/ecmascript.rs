//! What JavaScript, TypeScript and TSX share.

use crate::languages::{
    callable_kind, export_views, import_of, import_views, kind_of_callable, last_child_of_kinds,
    last_of_kinds, make_export, make_import, make_symbol, model_of, node_params, opt_model,
    params_of, plain_symbol, prefixed, words, Export, ExportModel, Import, ImportModel, Symbol,
    SymbolKind, SymbolModel, Visibility,
};
use crate::external_packages::{dir_exists, file_exists, is_dir, is_file, opt_resolved};
use crate::file_index::IndexedFile;
use crate::packages::ResolvedPackage;
use crate::paths::{join_path, joined, normalize, normalized, parent, parent_of, with_extension,
    with_extension_of};
use crate::resolution::{node_package_of, resolve_node_package, Environment};
use crate::syntax::SyntaxNode;
use crate::text::{chars_of, concat, has_prefix, slice_of, starts_with, string_of, texts};
use vstd::prelude::*;

verus! {

/// The function that `node` defines under `name`: a method is shown as the
/// name and the parameters, every other function with `function` in front.
pub open spec fn function_symbol(node: SyntaxNode, in_container: bool, name: Seq<char>) -> SymbolModel {
    plain_symbol(
        node,
        name,
        callable_kind(in_container),
        if node.kind@ == "method_definition"@ {
            name + params_of(node)
        } else {
            "function "@ + name + params_of(node)
        },
        Visibility::Public,
    )
}

/// The function or method that `node` defines under `name`.
pub fn extract_function(node: &SyntaxNode, in_container: bool, name: &str) -> (r: Symbol)
    ensures
        model_of(r) == function_symbol(*node, in_container, name@),
        r.children@.len() == 0,
{
    let name = chars_of(name);
    let params = node_params(node);
    let signature = if node.is_kind("method_definition") {
        concat(&name, &params)
    } else {
        concat(&prefixed("function ", &name), &params)
    };
    make_symbol(node, &name, kind_of_callable(in_container), &signature, Visibility::Public)
}

/// The class that `node` defines under `name`, shown as `class` and the name.
pub open spec fn container_symbol(node: SyntaxNode, name: Seq<char>) -> SymbolModel {
    plain_symbol(node, name, SymbolKind::Class, "class "@ + name, Visibility::Public)
}

/// The class that `node` defines under `name`.
pub fn extract_container(node: &SyntaxNode, name: &str) -> (r: Symbol)
    ensures
        model_of(r) == container_symbol(*node, name@),
        r.children@.len() == 0,
{
    let name = chars_of(name);
    let signature = prefixed("class ", &name);
    make_symbol(node, &name, SymbolKind::Class, &signature, Visibility::Public)
}

/// The type that `node` defines under `name`: an interface, a type alias,
/// an enum or a class, shown as its keyword and the name; nodes of other
/// kinds define none.
pub open spec fn type_symbol(node: SyntaxNode, name: Seq<char>) -> Option<SymbolModel> {
    if node.kind@ == "interface_declaration"@ {
        Some(
            plain_symbol(
                node,
                name,
                SymbolKind::Interface,
                "interface "@ + name,
                Visibility::Public,
            ),
        )
    } else if node.kind@ == "type_alias_declaration"@ {
        Some(plain_symbol(node, name, SymbolKind::Type, "type "@ + name, Visibility::Public))
    } else if node.kind@ == "enum_declaration"@ {
        Some(plain_symbol(node, name, SymbolKind::Enum, "enum "@ + name, Visibility::Public))
    } else if node.kind@ == "class_declaration"@ {
        Some(plain_symbol(node, name, SymbolKind::Class, "class "@ + name, Visibility::Public))
    } else {
        None
    }
}

/// The type that `node` defines under `name`.
pub fn extract_type(node: &SyntaxNode, name: &str) -> (r: Option<Symbol>)
    ensures
        opt_model(r) == type_symbol(*node, name@),
        r is Some ==> r->0.children@.len() == 0,
{
    let name = chars_of(name);
    if node.is_kind("interface_declaration") {
        let signature = prefixed("interface ", &name);
        Some(make_symbol(node, &name, SymbolKind::Interface, &signature, Visibility::Public))
    } else if node.is_kind("type_alias_declaration") {
        let signature = prefixed("type ", &name);
        Some(make_symbol(node, &name, SymbolKind::Type, &signature, Visibility::Public))
    } else if node.is_kind("enum_declaration") {
        let signature = prefixed("enum ", &name);
        Some(make_symbol(node, &name, SymbolKind::Enum, &signature, Visibility::Public))
    } else if node.is_kind("class_declaration") {
        let signature = prefixed("class ", &name);
        Some(make_symbol(node, &name, SymbolKind::Class, &signature, Visibility::Public))
    } else {
        None
    }
}

/// Whether `c` is a quotation mark, single or double.
pub open spec fn is_quote(c: char) -> bool {
    c == '"' || c == '\''
}

/// `s` without the quotation marks at its front.
pub open spec fn unquoted_start(s: Seq<char>) -> Seq<char>
    decreases s.len(),
{
    if s.len() > 0 && is_quote(s[0]) {
        unquoted_start(s.drop_first())
    } else {
        s
    }
}

/// `s` without the quotation marks at its end.
pub open spec fn unquoted_end(s: Seq<char>) -> Seq<char>
    decreases s.len(),
{
    if s.len() > 0 && is_quote(s.last()) {
        unquoted_end(s.drop_last())
    } else {
        s
    }
}

/// `s` without the quotation marks at either end.
pub open spec fn unquoted(s: Seq<char>) -> Seq<char> {
    unquoted_end(unquoted_start(s))
}

/// The leading quotation marks end where the first other character stands.
pub proof fn lemma_unquoted_start(s: Seq<char>, a: int)
    requires
        0 <= a <= s.len(),
        forall|j: int| 0 <= j < a ==> is_quote(#[trigger] s[j]),
        a == s.len() || !is_quote(s[a]),
    ensures
        unquoted_start(s) == s.skip(a),
    decreases a,
{
    if a == 0 {
        assert(s.skip(0) =~= s);
    } else {
        let rest = s.drop_first();
        assert forall|j: int| 0 <= j < a - 1 implies is_quote(#[trigger] rest[j]) by {
            assert(rest[j] == s[j + 1]);
        }
        lemma_unquoted_start(rest, a - 1);
        assert(rest.skip(a - 1) =~= s.skip(a));
    }
}

/// The trailing quotation marks begin behind the last other character.
pub proof fn lemma_unquoted_end(s: Seq<char>, b: int)
    requires
        0 <= b <= s.len(),
        forall|j: int| b <= j < s.len() ==> is_quote(#[trigger] s[j]),
        b == 0 || !is_quote(s[b - 1]),
    ensures
        unquoted_end(s) == s.take(b),
    decreases s.len() - b,
{
    if b == s.len() {
        assert(s.take(b) =~= s);
    } else {
        let rest = s.drop_last();
        assert forall|j: int| b <= j < rest.len() implies is_quote(#[trigger] rest[j]) by {
            assert(rest[j] == s[j]);
        }
        lemma_unquoted_end(rest, b);
        assert(rest.take(b) =~= s.take(b));
    }
}

/// Removes the quotation marks from both ends.
pub fn unquote(s: &Vec<char>) -> (r: Vec<char>)
    ensures
        r@ == unquoted(s@),
{
    let mut a: usize = 0;
    while a < s.len() && (s[a] == '"' || s[a] == '\'')
        invariant
            a <= s.len(),
            forall|j: int| 0 <= j < a ==> is_quote(#[trigger] s@[j]),
        decreases s.len() - a,
    {
        a += 1;
    }
    let mut b: usize = s.len();
    while b > a && (s[b - 1] == '"' || s[b - 1] == '\'')
        invariant
            a <= b <= s.len(),
            forall|j: int| b <= j < s.len() ==> is_quote(#[trigger] s@[j]),
        decreases b,
    {
        b -= 1;
    }
    proof {
        lemma_unquoted_start(s@, a as int);
        let rest = s@.skip(a as int);
        assert forall|j: int| b - a <= j < rest.len() implies is_quote(#[trigger] rest[j]) by {
            assert(rest[j] == s@[j + a]);
        }
        if b > a {
            assert(rest[b - a - 1] == s@[b - 1]);
        }
        lemma_unquoted_end(rest, b - a);
        assert(rest.take(b - a) =~= s@.subrange(a as int, b as int));
    }
    slice_of(s, a, b)
}

/// The kinds of nodes that hold the module of an import.
pub open spec fn module_kinds() -> Seq<Seq<char>> {
    seq!["string"@, "string_fragment"@]
}

/// The module that an import statement names: the text of its last
/// string, without quotation marks; empty where it has none.
pub open spec fn module_of(node: SyntaxNode) -> Seq<char> {
    let at = last_of_kinds(node.children@, node.children.len() as int, module_kinds());
    if at >= 0 {
        unquoted(node.children[at].text@)
    } else {
        Seq::empty()
    }
}

/// The names of the import specifiers among the first `n` nodes.
pub open spec fn specifier_names(nodes: Seq<SyntaxNode>, n: int) -> Seq<Seq<char>>
    decreases n,
{
    if n <= 0 {
        Seq::empty()
    } else {
        let rest = specifier_names(nodes, n - 1);
        if nodes[n - 1].kind@ == "import_specifier"@ && nodes[n - 1].has_field("name"@) {
            rest.push(nodes[n - 1].field_node("name"@).text@)
        } else {
            rest
        }
    }
}

/// The names that the first `n` children of an import clause bind: a
/// default import by its identifier, named imports by their names, and a
/// namespace import as `* as` and its name.
pub open spec fn clause_names(nodes: Seq<SyntaxNode>, n: int) -> Seq<Seq<char>>
    decreases n,
{
    if n <= 0 {
        Seq::empty()
    } else {
        let rest = clause_names(nodes, n - 1);
        let child = nodes[n - 1];
        if child.kind@ == "identifier"@ {
            rest.push(child.text@)
        } else if child.kind@ == "named_imports"@ {
            rest + specifier_names(child.children@, child.children.len() as int)
        } else if child.kind@ == "namespace_import"@ {
            if child.has_field("name"@) {
                rest.push("* as "@ + child.field_node("name"@).text@)
            } else {
                rest
            }
        } else {
            rest
        }
    }
}

/// The names that the import clauses among the first `n` nodes bind.
pub open spec fn imported_names(nodes: Seq<SyntaxNode>, n: int) -> Seq<Seq<char>>
    decreases n,
{
    if n <= 0 {
        Seq::empty()
    } else {
        let rest = imported_names(nodes, n - 1);
        if nodes[n - 1].kind@ == "import_clause"@ {
            rest + clause_names(nodes[n - 1].children@, nodes[n - 1].children.len() as int)
        } else {
            rest
        }
    }
}

/// The import that an import statement makes: one, with the module and the
/// names it binds, relative if the module begins with a dot; none where
/// the node is no import statement or names no module.
pub open spec fn imports_of(node: SyntaxNode) -> Seq<ImportModel> {
    if node.kind@ == "import_statement"@ && module_of(node).len() > 0 {
        seq![
            import_of(
                module_of(node),
                imported_names(node.children@, node.children.len() as int),
                None,
                false,
                module_of(node)[0] == '.',
                node.start_line as usize,
            ),
        ]
    } else {
        Seq::empty()
    }
}

/// Adds the names that an import clause binds to `names`.
pub fn collect_import_names(import_clause: &SyntaxNode, names: &mut Vec<String>)
    ensures
        texts(final(names)@) == texts(old(names)@) + clause_names(
            import_clause.children@,
            import_clause.children.len() as int,
        ),
{
    let ghost start = texts(names@);
    let mut i: usize = 0;
    assert(texts(names@) =~= start + clause_names(import_clause.children@, 0));
    while i < import_clause.children.len()
        invariant
            i <= import_clause.children.len(),
            texts(names@) == start + clause_names(import_clause.children@, i as int),
        decreases import_clause.children.len() - i,
    {
        let child = &import_clause.children[i];
        let ghost before = texts(names@);
        if child.is_kind("identifier") {
            names.push(child.text.clone());
            assert(texts(names@) =~= before.push(child.text@));
        } else if child.is_kind("named_imports") {
            let mut k: usize = 0;
            assert(texts(names@) =~= before + specifier_names(child.children@, 0));
            while k < child.children.len()
                invariant
                    k <= child.children.len(),
                    texts(names@) == before + specifier_names(child.children@, k as int),
                decreases child.children.len() - k,
            {
                let inner = &child.children[k];
                let ghost mid = texts(names@);
                if inner.is_kind("import_specifier") {
                    match inner.child_by_field_name("name") {
                        Some(n) => {
                            names.push(n.text.clone());
                            assert(texts(names@) =~= mid.push(n.text@));
                        },
                        None => {},
                    }
                }
                assert(texts(names@) =~= before + specifier_names(child.children@, k + 1));
                k += 1;
            }
        } else if child.is_kind("namespace_import") {
            match child.child_by_field_name("name") {
                Some(n) => {
                    let text = prefixed("* as ", &chars_of(n.text.as_str()));
                    let name = string_of(&text);
                    names.push(name);
                    assert(texts(names@) =~= before.push("* as "@ + n.text@));
                },
                None => {},
            }
        }
        assert(texts(names@) =~= start + clause_names(import_clause.children@, i + 1));
        i += 1;
    }
}

/// The import that an import statement makes.
pub fn extract_imports(node: &SyntaxNode) -> (r: Vec<Import>)
    ensures
        import_views(r@) == imports_of(*node),
{
    let mut out: Vec<Import> = Vec::new();
    assert(import_views(out@) =~= Seq::<ImportModel>::empty());
    if !node.is_kind("import_statement") {
        return out;
    }
    let kinds: Vec<&'static str> = vec!["string", "string_fragment"];
    assert(words(kinds@) =~= module_kinds());
    let module: Vec<char> = match last_child_of_kinds(node, &kinds) {
        Some(m) => unquote(&chars_of(m.text.as_str())),
        None => Vec::new(),
    };
    if module.len() == 0 {
        return out;
    }
    let mut names: Vec<String> = Vec::new();
    let mut i: usize = 0;
    assert(texts(names@) =~= imported_names(node.children@, 0));
    while i < node.children.len()
        invariant
            i <= node.children.len(),
            texts(names@) == imported_names(node.children@, i as int),
        decreases node.children.len() - i,
    {
        if node.children[i].is_kind("import_clause") {
            collect_import_names(&node.children[i], &mut names);
        }
        i += 1;
    }
    let is_relative = module[0] == '.';
    let import = make_import(&module, names, None, false, is_relative, node.start_line as usize);
    out.push(import);
    assert(import_views(out@) =~= seq![import@]);
    out
}

/// The exports of the variable declarators among the first `n` nodes.
pub open spec fn declarator_exports(nodes: Seq<SyntaxNode>, n: int, line: usize) -> Seq<ExportModel>
    decreases n,
{
    if n <= 0 {
        Seq::empty()
    } else {
        let rest = declarator_exports(nodes, n - 1, line);
        if nodes[n - 1].kind@ == "variable_declarator"@ && nodes[n - 1].has_field("name"@) {
            rest.push(
                ExportModel {
                    name: nodes[n - 1].field_node("name"@).text@,
                    kind: SymbolKind::Variable,
                    line,
                },
            )
        } else {
            rest
        }
    }
}

/// Whether a node of this kind declares a function.
pub open spec fn is_function_declaration(kind: Seq<char>) -> bool {
    kind == "function_declaration"@ || kind == "generator_function_declaration"@
}

/// The exports of the first `n` children of an export statement: functions
/// and classes with a name, and the variables of lexical declarations.
pub open spec fn declared_exports(nodes: Seq<SyntaxNode>, n: int, line: usize) -> Seq<ExportModel>
    decreases n,
{
    if n <= 0 {
        Seq::empty()
    } else {
        let rest = declared_exports(nodes, n - 1, line);
        let child = nodes[n - 1];
        if is_function_declaration(child.kind@) {
            if child.has_field("name"@) {
                rest.push(
                    ExportModel {
                        name: child.field_node("name"@).text@,
                        kind: SymbolKind::Function,
                        line,
                    },
                )
            } else {
                rest
            }
        } else if child.kind@ == "class_declaration"@ {
            if child.has_field("name"@) {
                rest.push(
                    ExportModel {
                        name: child.field_node("name"@).text@,
                        kind: SymbolKind::Class,
                        line,
                    },
                )
            } else {
                rest
            }
        } else if child.kind@ == "lexical_declaration"@ {
            rest + declarator_exports(child.children@, child.children.len() as int, line)
        } else {
            rest
        }
    }
}

/// What an export statement exports, each on the line of the statement;
/// other nodes export nothing.
pub open spec fn exports_of(node: SyntaxNode) -> Seq<ExportModel> {
    if node.kind@ == "export_statement"@ {
        declared_exports(node.children@, node.children.len() as int, node.start_line as usize)
    } else {
        Seq::empty()
    }
}

/// What an export statement exports.
pub fn extract_public_symbols(node: &SyntaxNode) -> (r: Vec<Export>)
    ensures
        export_views(r@) == exports_of(*node),
{
    let mut out: Vec<Export> = Vec::new();
    assert(export_views(out@) =~= Seq::<ExportModel>::empty());
    if !node.is_kind("export_statement") {
        return out;
    }
    let line = node.start_line as usize;
    let mut i: usize = 0;
    while i < node.children.len()
        invariant
            i <= node.children.len(),
            export_views(out@) == declared_exports(node.children@, i as int, line),
        decreases node.children.len() - i,
    {
        let child = &node.children[i];
        let ghost before = export_views(out@);
        if child.is_kind("function_declaration") || child.is_kind(
            "generator_function_declaration",
        ) {
            match child.child_by_field_name("name") {
                Some(n) => {
                    let export = make_export(
                        &chars_of(n.text.as_str()),
                        SymbolKind::Function,
                        line,
                    );
                    out.push(export);
                    assert(export_views(out@) =~= before.push(export@));
                },
                None => {},
            }
        } else if child.is_kind("class_declaration") {
            match child.child_by_field_name("name") {
                Some(n) => {
                    let export = make_export(&chars_of(n.text.as_str()), SymbolKind::Class, line);
                    out.push(export);
                    assert(export_views(out@) =~= before.push(export@));
                },
                None => {},
            }
        } else if child.is_kind("lexical_declaration") {
            let mut k: usize = 0;
            assert(export_views(out@) =~= before + declarator_exports(child.children@, 0, line));
            while k < child.children.len()
                invariant
                    k <= child.children.len(),
                    export_views(out@) == before + declarator_exports(
                        child.children@,
                        k as int,
                        line,
                    ),
                decreases child.children.len() - k,
            {
                let inner = &child.children[k];
                let ghost mid = export_views(out@);
                if inner.is_kind("variable_declarator") {
                    match inner.child_by_field_name("name") {
                        Some(n) => {
                            let export = make_export(
                                &chars_of(n.text.as_str()),
                                SymbolKind::Variable,
                                line,
                            );
                            out.push(export);
                            assert(export_views(out@) =~= mid.push(export@));
                        },
                        None => {},
                    }
                }
                assert(export_views(out@) =~= before + declarator_exports(
                    child.children@,
                    k + 1,
                    line,
                ));
                k += 1;
            }
        }
        i += 1;
    }
    out
}


/// The extensions that a JavaScript import may stand for, in the order in
/// which they are tried.
pub fn js_extensions() -> (r: Vec<&'static str>)
    ensures
        words(r@) == seq!["js"@, "jsx"@, "mjs"@, "cjs"@],
{
    let r: Vec<&'static str> = vec!["js", "jsx", "mjs", "cjs"];
    assert(words(r@) =~= seq!["js"@, "jsx"@, "mjs"@, "cjs"@]);
    r
}

/// The extensions that a TypeScript import may stand for, in the order in
/// which they are tried.
pub fn ts_extensions() -> (r: Vec<&'static str>)
    ensures
        words(r@) == seq!["ts"@, "tsx"@, "js"@, "jsx"@, "mts"@, "mjs"@],
{
    let r: Vec<&'static str> = vec!["ts", "tsx", "js", "jsx", "mts", "mjs"];
    assert(words(r@) =~= seq!["ts"@, "tsx"@, "js"@, "jsx"@, "mts"@, "mjs"@]);
    r
}

/// What a relative import points at, in normal form: the module below the
/// directory of the importing file. None for a module that does not begin
/// with `./` or `../`.
pub open spec fn import_target(module: Seq<char>, current_file: Seq<char>) -> Option<Seq<char>> {
    if has_prefix(module, "./"@) {
        Some(normalized(joined(parent_of(current_file), module.skip(2))))
    } else if has_prefix(module, "../"@) {
        Some(normalized(joined(parent_of(current_file), module)))
    } else {
        None
    }
}

/// The position of the first extension from `from` on with which `target`
/// is a file, or the number of extensions.
pub open spec fn extension_position(
    target: Seq<char>,
    extensions: Seq<Seq<char>>,
    entries: Seq<IndexedFile>,
    from: int,
) -> int
    decreases extensions.len() - from,
{
    if from < 0 || from >= extensions.len() {
        extensions.len() as int
    } else if file_exists(entries, with_extension_of(target, extensions[from])) {
        from
    } else {
        extension_position(target, extensions, entries, from + 1)
    }
}

/// The position of the first extension from `from` on with which the
/// directory `target` holds an index file, or the number of extensions.
pub open spec fn index_position(
    target: Seq<char>,
    extensions: Seq<Seq<char>>,
    entries: Seq<IndexedFile>,
    from: int,
) -> int
    decreases extensions.len() - from,
{
    if from < 0 || from >= extensions.len() {
        extensions.len() as int
    } else if file_exists(entries, joined(target, "index."@ + extensions[from])) {
        from
    } else {
        index_position(target, extensions, entries, from + 1)
    }
}

/// The file that a relative import stands for: the target itself if it is
/// a file; else the target with the first extension that makes it one;
/// else, for a directory, its index file with the first extension that
/// exists.
pub open spec fn local_import_of(
    module: Seq<char>,
    current_file: Seq<char>,
    extensions: Seq<Seq<char>>,
    entries: Seq<IndexedFile>,
) -> Option<Seq<char>> {
    match import_target(module, current_file) {
        None => None,
        Some(target) => {
            let ext = extension_position(target, extensions, entries, 0);
            let index = index_position(target, extensions, entries, 0);
            if file_exists(entries, target) {
                Some(target)
            } else if ext < extensions.len() {
                Some(with_extension_of(target, extensions[ext]))
            } else if dir_exists(entries, target) && index < extensions.len() {
                Some(joined(target, "index."@ + extensions[index]))
            } else {
                None
            }
        },
    }
}

/// The file of the project that a relative import stands for.
pub fn resolve_local_import(
    module: &str,
    current_file: &str,
    extensions: &Vec<&'static str>,
    entries: &Vec<IndexedFile>,
) -> (r: Option<String>)
    ensures
        crate::syntax::opt_text(r) == local_import_of(
            module@,
            current_file@,
            words(extensions@),
            entries@,
        ),
{
    let name = chars_of(module);
    let dir = parent(&chars_of(current_file));
    let target = if starts_with(&name, &chars_of("./")) {
        proof {
            reveal_strlit("./");
        }
        let rest = slice_of(&name, 2, name.len());
        assert(rest@ =~= module@.skip(2));
        normalize(&join_path(&dir, &rest))
    } else if starts_with(&name, &chars_of("../")) {
        normalize(&join_path(&dir, &name))
    } else {
        return None;
    };
    if is_file(entries, &target) {
        return Some(string_of(&target));
    }
    let mut i: usize = 0;
    while i < extensions.len()
        invariant
            i <= extensions.len(),
            import_target(module@, current_file@) == Some(target@),
            !file_exists(entries@, target@),
            extension_position(target@, words(extensions@), entries@, 0) == extension_position(
                target@,
                words(extensions@),
                entries@,
                i as int,
            ),
        decreases extensions.len() - i,
    {
        assert(words(extensions@)[i as int] == extensions@[i as int]@);
        let with_ext = with_extension(&target, &chars_of(extensions[i]));
        if is_file(entries, &with_ext) {
            return Some(string_of(&with_ext));
        }
        i += 1;
    }
    if is_dir(entries, &target) {
        let mut i: usize = 0;
        while i < extensions.len()
            invariant
                i <= extensions.len(),
                import_target(module@, current_file@) == Some(target@),
                !file_exists(entries@, target@),
                dir_exists(entries@, target@),
                extension_position(target@, words(extensions@), entries@, 0)
                    >= extensions.len(),
                words(extensions@).len() == extensions.len(),
                index_position(target@, words(extensions@), entries@, 0) == index_position(
                    target@,
                    words(extensions@),
                    entries@,
                    i as int,
                ),
            decreases extensions.len() - i,
        {
            assert(words(extensions@)[i as int] == extensions@[i as int]@);
            let index = join_path(&target, &prefixed("index.", &chars_of(extensions[i])));
            if is_file(entries, &index) {
                return Some(string_of(&index));
            }
            i += 1;
        }
    }
    None
}

/// Where an installed package lies that is imported as `import_name`:
/// below `node_modules`; none for an import relative to the file.
pub fn resolve_external_import(import_name: &str, env: &Environment) -> (r: Option<ResolvedPackage>)
    ensures
        opt_resolved(r) == node_package_of(import_name@, *env),
{
    resolve_node_package(import_name, env)
}

/// The version of Node, if it is known.
pub fn get_version(env: &Environment) -> (r: Option<String>)
    ensures
        r == env.node_version,
{
    crate::languages::copy_opt(&env.node_version)
}

/// The `node_modules` directory of the project, if it is known.
pub fn find_package_cache(env: &Environment) -> (r: Option<String>)
    ensures
        r == env.node_modules,
{
    crate::languages::copy_opt(&env.node_modules)
}

} // verus!
