//! Building the scopes of Python and Rust source from its syntax tree.

use crate::scopes::{binding_views, Binding, BindingKind, BindingModel, Scope, ScopeKind, ScopeResult};
use crate::symbols::{grammar_for_path, grammar_of_path};
use crate::syntax::{is_parse_of, opt_text, parse_source, parsed, Grammar, SyntaxNode};
use crate::text::{chars_of, lines, lines_of, rows, text_is};
use vstd::prelude::*;

verus! {

/// What a scope holds: the model of `Scope`.
pub struct ScopeModel {
    pub kind: ScopeKind,
    pub name: Option<Seq<char>>,
    pub start_line: usize,
    pub end_line: usize,
    pub bindings: Seq<BindingModel>,
    pub children: Seq<ScopeModel>,
}

/// The model of a scope.
pub open spec fn scope_model(s: Scope) -> ScopeModel
    decreases s,
{
    ScopeModel {
        kind: s.kind,
        name: opt_text(s.name),
        start_line: s.start_line,
        end_line: s.end_line,
        bindings: binding_views(s.bindings@),
        children: Seq::new(
            s.children.len() as nat,
            |i: int|
                if 0 <= i < s.children.len() {
                    scope_model(s.children[i])
                } else {
                    arbitrary()
                },
        ),
    }
}

/// The models of the scopes of `v`.
pub open spec fn scope_models(v: Seq<Scope>) -> Seq<ScopeModel> {
    Seq::new(v.len(), |i: int| scope_model(v[i]))
}

/// The bindings and scopes that a piece of a syntax tree gives to the
/// scope around it.
pub struct Gathered {
    pub bindings: Seq<BindingModel>,
    pub children: Seq<ScopeModel>,
}

/// Nothing gathered.
pub open spec fn nothing() -> Gathered {
    Gathered { bindings: Seq::empty(), children: Seq::empty() }
}

/// What `a` and then `b` give.
pub open spec fn both(a: Gathered, b: Gathered) -> Gathered {
    Gathered { bindings: a.bindings + b.bindings, children: a.children + b.children }
}

/// The binding of the name that `node` spells, where `node` stands.
pub open spec fn binding_of(node: SyntaxNode, kind: BindingKind) -> BindingModel {
    BindingModel {
        name: node.text@,
        kind,
        line: node.start_line as usize,
        column: node.start_column,
    }
}

/// The binding of `name`, where `at` stands.
pub open spec fn binding_named(name: Seq<char>, kind: BindingKind, at: SyntaxNode) -> BindingModel {
    BindingModel { name, kind, line: at.start_line as usize, column: at.start_column }
}

/// A scope without bindings and scopes of its own.
pub open spec fn bare_scope(kind: ScopeKind, start_line: usize, end_line: usize) -> ScopeModel {
    ScopeModel {
        kind,
        name: None,
        start_line,
        end_line,
        bindings: Seq::empty(),
        children: Seq::empty(),
    }
}

/// The binding of the name that `node` spells.
fn binding_at(node: &SyntaxNode, kind: BindingKind) -> (r: Binding)
    ensures
        r@ == binding_of(*node, kind),
{
    Binding {
        name: node.text.clone(),
        kind,
        line: node.start_line as usize,
        column: node.start_column,
    }
}

/// The binding of `name`, where `at` stands.
fn binding_with_name(name: &String, kind: BindingKind, at: &SyntaxNode) -> (r: Binding)
    ensures
        r@ == binding_named(name@, kind, *at),
{
    Binding { name: name.clone(), kind, line: at.start_line as usize, column: at.start_column }
}

/// Moves the bindings of `more` behind those of `out`.
fn append_bindings(out: &mut Vec<Binding>, more: Vec<Binding>)
    ensures
        binding_views(final(out)@) == binding_views(old(out)@) + binding_views(more@),
{
    let ghost start = binding_views(out@);
    let mut more = more;
    let ghost all = more@;
    out.append(&mut more);
    assert(binding_views(out@) =~= start + binding_views(all));
}

/// Moves the scopes of `more` behind those of `out`.
fn append_scopes(out: &mut Vec<Scope>, more: Vec<Scope>)
    ensures
        scope_models(final(out)@) == scope_models(old(out)@) + scope_models(more@),
{
    let ghost start = scope_models(out@);
    let mut more = more;
    let ghost all = more@;
    out.append(&mut more);
    assert(scope_models(out@) =~= start + scope_models(all));
}

/// Puts a scope behind those of `out`.
fn push_scope(out: &mut Vec<Scope>, scope: Scope)
    ensures
        scope_models(final(out)@) == scope_models(old(out)@).push(scope_model(scope)),
{
    let ghost start = scope_models(out@);
    out.push(scope);
    assert(scope_models(out@) =~= start.push(scope_model(scope)));
}

/// Puts a binding behind those of `out`.
fn push_binding(out: &mut Vec<Binding>, binding: Binding)
    ensures
        binding_views(final(out)@) == binding_views(old(out)@).push(binding@),
{
    let ghost start = binding_views(out@);
    out.push(binding);
    assert(binding_views(out@) =~= start.push(binding@));
}

/// Makes a scope.
fn make_scope(
    kind: ScopeKind,
    name: Option<String>,
    start_line: usize,
    end_line: usize,
    bindings: Vec<Binding>,
    children: Vec<Scope>,
) -> (r: Scope)
    ensures
        scope_model(r) == (ScopeModel {
            kind,
            name: opt_text(name),
            start_line,
            end_line,
            bindings: binding_views(bindings@),
            children: scope_models(children@),
        }),
{
    let r = Scope { kind, name, start_line, end_line, bindings, children };
    assert(scope_model(r).children =~= scope_models(children@));
    r
}

/// The bindings of the identifiers among the first `n` nodes.
pub open spec fn identifiers_among(nodes: Seq<SyntaxNode>, n: int, kind: BindingKind) -> Seq<
    BindingModel,
>
    decreases n,
{
    if n <= 0 {
        Seq::empty()
    } else {
        let rest = identifiers_among(nodes, n - 1, kind);
        if nodes[n - 1].kind@ == "identifier"@ {
            rest.push(binding_of(nodes[n - 1], kind))
        } else {
            rest
        }
    }
}

/// Adds the bindings of the identifiers among the children of `node`.
fn collect_identifiers(node: &SyntaxNode, kind: BindingKind, out: &mut Vec<Binding>)
    ensures
        binding_views(final(out)@) == binding_views(old(out)@) + identifiers_among(
            node.children@,
            node.children.len() as int,
            kind,
        ),
{
    let ghost start = binding_views(out@);
    let mut i: usize = 0;
    assert(binding_views(out@) =~= start + identifiers_among(node.children@, 0, kind));
    while i < node.children.len()
        invariant
            i <= node.children.len(),
            binding_views(out@) == start + identifiers_among(node.children@, i as int, kind),
        decreases node.children.len() - i,
    {
        if node.children[i].is_kind("identifier") {
            push_binding(out, binding_at(&node.children[i], kind));
        }
        assert(binding_views(out@) =~= start + identifiers_among(node.children@, i + 1, kind));
        i += 1;
    }
}

/// Whether a node of this kind is a Python pattern of several targets.
pub open spec fn is_python_pattern(kind: Seq<char>) -> bool {
    kind == "tuple_pattern"@ || kind == "list_pattern"@ || kind == "pattern_list"@ || kind
        == "tuple"@ || kind == "list"@
}

/// The names that a Python target binds: an identifier binds itself, a
/// pattern of several targets what its parts bind.
pub open spec fn python_targets(node: SyntaxNode, kind: BindingKind) -> Seq<BindingModel>
    decreases node, 1nat, 0nat,
{
    if node.kind@ == "identifier"@ {
        seq![binding_of(node, kind)]
    } else if is_python_pattern(node.kind@) {
        python_targets_below(node, node.children.len() as int, kind)
    } else {
        Seq::empty()
    }
}

/// The names that the first `n` children of a Python pattern bind.
pub open spec fn python_targets_below(node: SyntaxNode, n: int, kind: BindingKind) -> Seq<
    BindingModel,
>
    decreases node, 0nat, n,
{
    if n <= 0 || n > node.children.len() {
        Seq::empty()
    } else {
        python_targets_below(node, n - 1, kind) + python_targets(node.children[n - 1], kind)
    }
}

/// Adds the names that a Python target binds.
fn extract_python_targets(node: &SyntaxNode, kind: BindingKind, out: &mut Vec<Binding>)
    ensures
        binding_views(final(out)@) == binding_views(old(out)@) + python_targets(*node, kind),
    decreases node,
{
    let ghost start = binding_views(out@);
    if node.is_kind("identifier") {
        push_binding(out, binding_at(node, kind));
        assert(binding_views(out@) =~= start + python_targets(*node, kind));
    } else if node.is_kind("tuple_pattern") || node.is_kind("list_pattern") || node.is_kind(
        "pattern_list",
    ) || node.is_kind("tuple") || node.is_kind("list") {
        let mut i: usize = 0;
        assert(binding_views(out@) =~= start + python_targets_below(*node, 0, kind));
        while i < node.children.len()
            invariant
                i <= node.children.len(),
                binding_views(out@) == start + python_targets_below(*node, i as int, kind),
            decreases node.children.len() - i,
        {
            extract_python_targets(&node.children[i], kind, out);
            assert(binding_views(out@) =~= start + python_targets_below(*node, i + 1, kind));
            i += 1;
        }
    } else {
        assert(binding_views(out@) =~= start + python_targets(*node, kind));
    }
}

/// Whether a node of this kind is a Python parameter with a name of its own.
pub open spec fn is_named_parameter(kind: Seq<char>) -> bool {
    kind == "typed_parameter"@ || kind == "default_parameter"@ || kind
        == "typed_default_parameter"@
}

/// Whether a node of this kind is a Python parameter with a star.
pub open spec fn is_splat_parameter(kind: Seq<char>) -> bool {
    kind == "list_splat_pattern"@ || kind == "dictionary_splat_pattern"@
}

/// The name that a Python parameter binds.
pub open spec fn python_param(child: SyntaxNode) -> Seq<BindingModel> {
    if child.kind@ == "identifier"@ {
        seq![binding_of(child, BindingKind::Parameter)]
    } else if is_named_parameter(child.kind@) {
        if child.has_field("name"@) {
            seq![binding_of(child.field_node("name"@), BindingKind::Parameter)]
        } else {
            Seq::empty()
        }
    } else if is_splat_parameter(child.kind@) {
        identifiers_among(child.children@, child.children.len() as int, BindingKind::Parameter)
    } else {
        Seq::empty()
    }
}

/// The names that the first `n` of the parameters bind.
pub open spec fn python_params(nodes: Seq<SyntaxNode>, n: int) -> Seq<BindingModel>
    decreases n,
{
    if n <= 0 {
        Seq::empty()
    } else {
        python_params(nodes, n - 1) + python_param(nodes[n - 1])
    }
}

/// Adds the names that the parameters of a Python function bind.
fn extract_python_params(node: &SyntaxNode, out: &mut Vec<Binding>)
    ensures
        binding_views(final(out)@) == binding_views(old(out)@) + python_params(
            node.children@,
            node.children.len() as int,
        ),
{
    let ghost start = binding_views(out@);
    let mut i: usize = 0;
    assert(binding_views(out@) =~= start + python_params(node.children@, 0));
    while i < node.children.len()
        invariant
            i <= node.children.len(),
            binding_views(out@) == start + python_params(node.children@, i as int),
        decreases node.children.len() - i,
    {
        let child = &node.children[i];
        let ghost before = binding_views(out@);
        if child.is_kind("identifier") {
            push_binding(out, binding_at(child, BindingKind::Parameter));
        } else if child.is_kind("typed_parameter") || child.is_kind("default_parameter")
            || child.is_kind("typed_default_parameter") {
            match child.child_by_field_name("name") {
                Some(name) => {
                    push_binding(out, binding_at(name, BindingKind::Parameter));
                },
                None => {},
            }
        } else if child.is_kind("list_splat_pattern") || child.is_kind(
            "dictionary_splat_pattern",
        ) {
            collect_identifiers(child, BindingKind::Parameter, out);
        }
        assert(binding_views(out@) =~= before + python_param(*child));
        assert(binding_views(out@) =~= start + python_params(node.children@, i + 1));
        i += 1;
    }
}

/// The position of the first node from `from` on that the grammar names,
/// or the number of nodes.
pub open spec fn named_position(nodes: Seq<SyntaxNode>, from: int) -> int
    decreases nodes.len() - from,
{
    if from < 0 || from >= nodes.len() {
        nodes.len() as int
    } else if nodes[from].named {
        from
    } else {
        named_position(nodes, from + 1)
    }
}

/// The first child that the grammar names.
fn first_named_child(node: &SyntaxNode) -> (r: Option<&SyntaxNode>)
    ensures
        r is Some == (named_position(node.children@, 0) < node.children.len()),
        r is Some ==> *r->0 == node.children[named_position(node.children@, 0)],
{
    let mut i: usize = 0;
    while i < node.children.len()
        invariant
            i <= node.children.len(),
            named_position(node.children@, 0) == named_position(node.children@, i as int),
        decreases node.children.len() - i,
    {
        if node.children[i].named {
            return Some(&node.children[i]);
        }
        i += 1;
    }
    None
}

/// The name that the first named child of `node` binds, if that child is
/// an identifier.
pub open spec fn first_identifier_binding(node: SyntaxNode, kind: BindingKind) -> Seq<BindingModel> {
    let at = named_position(node.children@, 0);
    if at < node.children.len() && node.children[at].kind@ == "identifier"@ {
        seq![binding_of(node.children[at], kind)]
    } else {
        Seq::empty()
    }
}

/// Adds the name that the first named child of `node` binds.
fn bind_first_identifier(node: &SyntaxNode, kind: BindingKind, out: &mut Vec<Binding>)
    ensures
        binding_views(final(out)@) == binding_views(old(out)@) + first_identifier_binding(
            *node,
            kind,
        ),
{
    let ghost start = binding_views(out@);
    match first_named_child(node) {
        Some(first) => {
            if first.is_kind("identifier") {
                push_binding(out, binding_at(first, kind));
            }
        },
        None => {},
    }
    assert(binding_views(out@) =~= start + first_identifier_binding(*node, kind));
}

/// The name that a part of a Python import binds: a dotted name its first
/// identifier, an aliased import its alias or else its name.
pub open spec fn python_import(child: SyntaxNode) -> Seq<BindingModel> {
    if child.kind@ == "dotted_name"@ {
        first_identifier_binding(child, BindingKind::Import)
    } else if child.kind@ == "aliased_import"@ {
        if child.has_field("alias"@) {
            seq![binding_of(child.field_node("alias"@), BindingKind::Import)]
        } else if child.has_field("name"@) {
            seq![binding_of(child.field_node("name"@), BindingKind::Import)]
        } else {
            Seq::empty()
        }
    } else {
        Seq::empty()
    }
}

/// The names that the first `n` parts of a Python import bind.
pub open spec fn python_imports(nodes: Seq<SyntaxNode>, n: int) -> Seq<BindingModel>
    decreases n,
{
    if n <= 0 {
        Seq::empty()
    } else {
        python_imports(nodes, n - 1) + python_import(nodes[n - 1])
    }
}

/// Adds the names that a Python import binds.
fn extract_python_imports(node: &SyntaxNode, out: &mut Vec<Binding>)
    ensures
        binding_views(final(out)@) == binding_views(old(out)@) + python_imports(
            node.children@,
            node.children.len() as int,
        ),
{
    let ghost start = binding_views(out@);
    let mut i: usize = 0;
    assert(binding_views(out@) =~= start + python_imports(node.children@, 0));
    while i < node.children.len()
        invariant
            i <= node.children.len(),
            binding_views(out@) == start + python_imports(node.children@, i as int),
        decreases node.children.len() - i,
    {
        let child = &node.children[i];
        let ghost before = binding_views(out@);
        if child.is_kind("dotted_name") {
            bind_first_identifier(child, BindingKind::Import, out);
        } else if child.is_kind("aliased_import") {
            let named = match child.child_by_field_name("alias") {
                Some(alias) => Some(alias),
                None => child.child_by_field_name("name"),
            };
            match named {
                Some(name) => {
                    push_binding(out, binding_at(name, BindingKind::Import));
                },
                None => {},
            }
        }
        assert(binding_views(out@) =~= before + python_import(*child));
        assert(binding_views(out@) =~= start + python_imports(node.children@, i + 1));
        i += 1;
    }
}

/// The names that the first `n` items of a `with` clause bind: what the
/// alias of each item binds.
pub open spec fn with_items(nodes: Seq<SyntaxNode>, n: int) -> Seq<BindingModel>
    decreases n,
{
    if n <= 0 {
        Seq::empty()
    } else {
        let rest = with_items(nodes, n - 1);
        if nodes[n - 1].kind@ == "with_item"@ && nodes[n - 1].has_field("alias"@) {
            rest + python_targets(nodes[n - 1].field_node("alias"@), BindingKind::WithItem)
        } else {
            rest
        }
    }
}

/// The names that the clauses among the first `n` children of a `with`
/// statement bind.
pub open spec fn with_clauses(nodes: Seq<SyntaxNode>, n: int) -> Seq<BindingModel>
    decreases n,
{
    if n <= 0 {
        Seq::empty()
    } else {
        let rest = with_clauses(nodes, n - 1);
        if nodes[n - 1].kind@ == "with_clause"@ {
            rest + with_items(nodes[n - 1].children@, nodes[n - 1].children.len() as int)
        } else {
            rest
        }
    }
}

/// Adds the names that a `with` statement binds.
fn extract_python_with(node: &SyntaxNode, out: &mut Vec<Binding>)
    ensures
        binding_views(final(out)@) == binding_views(old(out)@) + with_clauses(
            node.children@,
            node.children.len() as int,
        ),
{
    let ghost start = binding_views(out@);
    let mut i: usize = 0;
    assert(binding_views(out@) =~= start + with_clauses(node.children@, 0));
    while i < node.children.len()
        invariant
            i <= node.children.len(),
            binding_views(out@) == start + with_clauses(node.children@, i as int),
        decreases node.children.len() - i,
    {
        let clause = &node.children[i];
        let ghost before = binding_views(out@);
        if clause.is_kind("with_clause") {
            let mut k: usize = 0;
            assert(binding_views(out@) =~= before + with_items(clause.children@, 0));
            while k < clause.children.len()
                invariant
                    k <= clause.children.len(),
                    binding_views(out@) == before + with_items(clause.children@, k as int),
                decreases clause.children.len() - k,
            {
                let item = &clause.children[k];
                if item.is_kind("with_item") {
                    match item.child_by_field_name("alias") {
                        Some(alias) => {
                            extract_python_targets(alias, BindingKind::WithItem, out);
                        },
                        None => {},
                    }
                }
                assert(binding_views(out@) =~= before + with_items(clause.children@, k + 1));
                k += 1;
            }
        }
        assert(binding_views(out@) =~= start + with_clauses(node.children@, i + 1));
        i += 1;
    }
}

/// Whether a node of this kind is a Python comprehension.
pub open spec fn is_comprehension(kind: Seq<char>) -> bool {
    kind == "list_comprehension"@ || kind == "set_comprehension"@ || kind
        == "dictionary_comprehension"@ || kind == "generator_expression"@
}

/// What a target in the field `field` of `node` binds, if there is one.
pub open spec fn field_targets(node: SyntaxNode, field: Seq<char>, kind: BindingKind) -> Seq<
    BindingModel,
> {
    if node.has_field(field) {
        python_targets(node.field_node(field), kind)
    } else {
        Seq::empty()
    }
}

/// The binding of the name of a definition, where the definition stands.
pub open spec fn name_binding(node: SyntaxNode, kind: BindingKind) -> Seq<BindingModel> {
    if node.has_field("name"@) {
        seq![binding_named(node.field_node("name"@).text@, kind, node)]
    } else {
        Seq::empty()
    }
}

/// The scope of a Python node: what its children give, under the kind and
/// name of the scope.
pub open spec fn python_scope(node: SyntaxNode, kind: ScopeKind, name: Option<Seq<char>>) -> ScopeModel
    decreases node, 2nat, 0nat,
{
    ScopeModel {
        kind,
        name,
        start_line: node.start_line as usize,
        end_line: node.end_line as usize,
        bindings: python_gather(node, node.children.len() as int, kind).bindings,
        children: python_gather(node, node.children.len() as int, kind).children,
    }
}

/// What the first `n` children of a Python node give to the scope around
/// them.
pub open spec fn python_gather(node: SyntaxNode, n: int, kind: ScopeKind) -> Gathered
    decreases node, 1nat, n,
{
    if n <= 0 || n > node.children.len() {
        nothing()
    } else {
        both(python_gather(node, n - 1, kind), python_child(node.children[n - 1], kind))
    }
}

/// The scopes of the blocks among the first `n` children of a `for`
/// statement that are not empty.
pub open spec fn python_loops(child: SyntaxNode, n: int) -> Seq<ScopeModel>
    decreases child, 1nat, n,
{
    if n <= 0 || n > child.children.len() {
        Seq::empty()
    } else {
        let rest = python_loops(child, n - 1);
        let scope = python_scope(child.children[n - 1], ScopeKind::Loop, None);
        if child.children[n - 1].kind@ == "block"@ && (scope.bindings.len() > 0
            || scope.children.len() > 0) {
            rest.push(scope)
        } else {
            rest
        }
    }
}

/// What one child of a Python node gives to the scope around it.
///
/// A function or class binds its name and opens a scope; a function in a
/// class is a method, and its parameters are bound in its scope. An
/// assignment binds its targets, an import what it imports, a loop its
/// targets, a `with` its aliases, an `except` its identifiers. The body of
/// a loop, a comprehension and a lambda open scopes of their own, which
/// are kept if they bind anything. Every other child gives what its own
/// children give.
pub open spec fn python_child(child: SyntaxNode, kind: ScopeKind) -> Gathered
    decreases child, 3nat, 0nat,
{
    let k = child.kind@;
    if k == "function_definition"@ {
        let inner = python_scope(
            child,
            if kind == ScopeKind::Class {
                ScopeKind::Method
            } else {
                ScopeKind::Function
            },
            child.field_text("name"@),
        );
        let params = if child.has_field("parameters"@) {
            python_params(
                child.field_node("parameters"@).children@,
                child.field_node("parameters"@).children.len() as int,
            )
        } else {
            Seq::empty()
        };
        Gathered {
            bindings: name_binding(child, BindingKind::Function),
            children: seq![ScopeModel { bindings: inner.bindings + params, ..inner }],
        }
    } else if k == "class_definition"@ {
        Gathered {
            bindings: name_binding(child, BindingKind::Class),
            children: seq![python_scope(child, ScopeKind::Class, child.field_text("name"@))],
        }
    } else if k == "assignment"@ || k == "augmented_assignment"@ {
        Gathered {
            bindings: field_targets(child, "left"@, BindingKind::Variable),
            children: Seq::empty(),
        }
    } else if k == "annotated_assignment"@ {
        Gathered {
            bindings: first_identifier_binding(child, BindingKind::Variable),
            children: Seq::empty(),
        }
    } else if k == "import_statement"@ || k == "import_from_statement"@ {
        Gathered {
            bindings: python_imports(child.children@, child.children.len() as int),
            children: Seq::empty(),
        }
    } else if k == "for_statement"@ {
        Gathered {
            bindings: field_targets(child, "left"@, BindingKind::ForLoop),
            children: python_loops(child, child.children.len() as int),
        }
    } else if k == "with_statement"@ {
        Gathered {
            bindings: with_clauses(child.children@, child.children.len() as int),
            children: Seq::empty(),
        }
    } else if k == "except_clause"@ {
        Gathered {
            bindings: identifiers_among(
                child.children@,
                child.children.len() as int,
                BindingKind::ExceptHandler,
            ),
            children: Seq::empty(),
        }
    } else if is_comprehension(k) {
        let scope = python_scope(child, ScopeKind::Comprehension, None);
        Gathered {
            bindings: Seq::empty(),
            children: if scope.bindings.len() > 0 {
                seq![scope]
            } else {
                Seq::empty()
            },
        }
    } else if k == "for_in_clause"@ {
        Gathered {
            bindings: field_targets(child, "left"@, BindingKind::ForLoop),
            children: Seq::empty(),
        }
    } else if k == "lambda"@ {
        let params = if child.has_field("parameters"@) {
            python_params(
                child.field_node("parameters"@).children@,
                child.field_node("parameters"@).children.len() as int,
            )
        } else {
            Seq::empty()
        };
        Gathered {
            bindings: Seq::empty(),
            children: if params.len() > 0 {
                seq![
                    ScopeModel {
                        bindings: params,
                        ..bare_scope(
                            ScopeKind::Lambda,
                            child.start_line as usize,
                            child.end_line as usize,
                        )
                    },
                ]
            } else {
                Seq::empty()
            },
        }
    } else if child.children.len() > 0 {
        Gathered {
            bindings: python_scope(child, kind, None).bindings,
            children: python_scope(child, kind, None).children,
        }
    } else {
        nothing()
    }
}

/// Adds what the target in the field `field` of `node` binds.
fn bind_field_targets(node: &SyntaxNode, field: &str, kind: BindingKind, out: &mut Vec<Binding>)
    ensures
        binding_views(final(out)@) == binding_views(old(out)@) + field_targets(
            *node,
            field@,
            kind,
        ),
{
    let ghost start = binding_views(out@);
    match node.child_by_field_name(field) {
        Some(target) => {
            extract_python_targets(target, kind, out);
        },
        None => {
            assert(binding_views(out@) =~= start + field_targets(*node, field@, kind));
        },
    }
}

/// Adds the binding of the name of a definition.
fn bind_name(node: &SyntaxNode, kind: BindingKind, out: &mut Vec<Binding>)
    ensures
        binding_views(final(out)@) == binding_views(old(out)@) + name_binding(*node, kind),
{
    let ghost start = binding_views(out@);
    match node.child_by_field_name("name") {
        Some(name) => {
            push_binding(out, binding_with_name(&name.text, kind, node));
        },
        None => {},
    }
    assert(binding_views(out@) =~= start + name_binding(*node, kind));
}

/// The text of the name of a definition, if it has one.
fn name_text(node: &SyntaxNode) -> (r: Option<String>)
    ensures
        opt_text(r) == node.field_text("name"@),
{
    match node.child_by_field_name("name") {
        Some(name) => Some(name.text.clone()),
        None => None,
    }
}

/// The bindings and scopes that were gathered, as a model.
pub open spec fn gathered(bindings: Vec<Binding>, children: Vec<Scope>) -> Gathered {
    Gathered { bindings: binding_views(bindings@), children: scope_models(children@) }
}

/// Builds the scope of a Python node.
pub fn build_python_scope(node: &SyntaxNode, kind: ScopeKind, name: Option<String>) -> (r: Scope)
    ensures
        scope_model(r) == python_scope(*node, kind, opt_text(name)),
    decreases node, 2nat,
{
    let mut bindings: Vec<Binding> = Vec::new();
    let mut children: Vec<Scope> = Vec::new();
    let mut i: usize = 0;
    assert(binding_views(bindings@) =~= Seq::<BindingModel>::empty());
    assert(scope_models(children@) =~= Seq::<ScopeModel>::empty());
    while i < node.children.len()
        invariant
            i <= node.children.len(),
            gathered(bindings, children) == python_gather(*node, i as int, kind),
        decreases node.children.len() - i,
    {
        let (more_bindings, more_children) = build_python_child(&node.children[i], kind);
        append_bindings(&mut bindings, more_bindings);
        append_scopes(&mut children, more_children);
        i += 1;
    }
    make_scope(kind, name, node.start_line as usize, node.end_line as usize, bindings, children)
}

/// Builds what one child of a Python node gives to the scope around it.
fn build_python_child(child: &SyntaxNode, kind: ScopeKind) -> (r: (Vec<Binding>, Vec<Scope>))
    ensures
        gathered(r.0, r.1) == python_child(*child, kind),
    decreases child, 3nat,
{
    let mut bindings: Vec<Binding> = Vec::new();
    let mut children: Vec<Scope> = Vec::new();
    assert(binding_views(bindings@) =~= Seq::<BindingModel>::empty());
    assert(scope_models(children@) =~= Seq::<ScopeModel>::empty());
    if child.is_kind("function_definition") {
        bind_name(child, BindingKind::Function, &mut bindings);
        let scope_kind = if kind == ScopeKind::Class {
            ScopeKind::Method
        } else {
            ScopeKind::Function
        };
        let inner = build_python_scope(child, scope_kind, name_text(child));
        let ghost inner_model = scope_model(inner);
        let Scope { kind: k, name: n, start_line, end_line, bindings: own, children: below } =
            inner;
        let mut own = own;
        assert(binding_views(own@) == inner_model.bindings);
        assert(scope_models(below@) =~= inner_model.children);
        match child.child_by_field_name("parameters") {
            Some(params) => {
                extract_python_params(params, &mut own);
            },
            None => {
                assert(binding_views(own@) =~= inner_model.bindings + Seq::<BindingModel>::empty());
            },
        }
        push_scope(&mut children, make_scope(k, n, start_line, end_line, own, below));
        assert(scope_models(children@) =~= python_child(*child, kind).children);
        assert(binding_views(bindings@) =~= python_child(*child, kind).bindings);
    } else if child.is_kind("class_definition") {
        bind_name(child, BindingKind::Class, &mut bindings);
        let inner = build_python_scope(child, ScopeKind::Class, name_text(child));
        push_scope(&mut children, inner);
        assert(scope_models(children@) =~= python_child(*child, kind).children);
        assert(binding_views(bindings@) =~= python_child(*child, kind).bindings);
    } else if child.is_kind("assignment") || child.is_kind("augmented_assignment") {
        bind_field_targets(child, "left", BindingKind::Variable, &mut bindings);
        assert(binding_views(bindings@) =~= python_child(*child, kind).bindings);
    } else if child.is_kind("annotated_assignment") {
        bind_first_identifier(child, BindingKind::Variable, &mut bindings);
        assert(binding_views(bindings@) =~= python_child(*child, kind).bindings);
    } else if child.is_kind("import_statement") || child.is_kind("import_from_statement") {
        extract_python_imports(child, &mut bindings);
        assert(binding_views(bindings@) =~= python_child(*child, kind).bindings);
    } else if child.is_kind("for_statement") {
        bind_field_targets(child, "left", BindingKind::ForLoop, &mut bindings);
        assert(binding_views(bindings@) =~= python_child(*child, kind).bindings);
        let mut i: usize = 0;
        assert(scope_models(children@) =~= python_loops(*child, 0));
        while i < child.children.len()
            invariant
                i <= child.children.len(),
                scope_models(children@) == python_loops(*child, i as int),
            decreases child.children.len() - i,
        {
            if child.children[i].is_kind("block") {
                let scope = build_python_scope(&child.children[i], ScopeKind::Loop, None);
                assert(scope_model(scope).bindings.len() == scope.bindings.len());
                assert(scope_model(scope).children.len() == scope.children.len());
                if scope.bindings.len() > 0 || scope.children.len() > 0 {
                    push_scope(&mut children, scope);
                }
            }
            i += 1;
        }
    } else if child.is_kind("with_statement") {
        extract_python_with(child, &mut bindings);
        assert(binding_views(bindings@) =~= python_child(*child, kind).bindings);
    } else if child.is_kind("except_clause") {
        collect_identifiers(child, BindingKind::ExceptHandler, &mut bindings);
        assert(binding_views(bindings@) =~= python_child(*child, kind).bindings);
    } else if child.is_kind("list_comprehension") || child.is_kind("set_comprehension")
        || child.is_kind("dictionary_comprehension") || child.is_kind("generator_expression") {
        let scope = build_python_scope(child, ScopeKind::Comprehension, None);
        assert(scope_model(scope).bindings.len() == scope.bindings.len());
        if scope.bindings.len() > 0 {
            push_scope(&mut children, scope);
        }
        assert(scope_models(children@) =~= python_child(*child, kind).children);
    } else if child.is_kind("for_in_clause") {
        bind_field_targets(child, "left", BindingKind::ForLoop, &mut bindings);
        assert(binding_views(bindings@) =~= python_child(*child, kind).bindings);
    } else if child.is_kind("lambda") {
        let mut params: Vec<Binding> = Vec::new();
        assert(binding_views(params@) =~= Seq::<BindingModel>::empty());
        match child.child_by_field_name("parameters") {
            Some(p) => {
                extract_python_params(p, &mut params);
                assert(binding_views(params@) =~= python_params(
                    p.children@,
                    p.children.len() as int,
                ));
            },
            None => {},
        }
        assert(binding_views(params@).len() == params.len());
        if params.len() > 0 {
            let below: Vec<Scope> = Vec::new();
            assert(scope_models(below@) =~= Seq::<ScopeModel>::empty());
            push_scope(
                &mut children,
                make_scope(
                    ScopeKind::Lambda,
                    None,
                    child.start_line as usize,
                    child.end_line as usize,
                    params,
                    below,
                ),
            );
        }
        assert(scope_models(children@) =~= python_child(*child, kind).children);
    } else if child.children.len() > 0 {
        let nested = build_python_scope(child, kind, None);
        let ghost nested_model = scope_model(nested);
        let Scope { kind: _, name: _, start_line: _, end_line: _, bindings: b, children: c } = nested;
        assert(scope_models(c@) =~= nested_model.children);
        return (b, c);
    }
    (bindings, children)
}

/// The scope of a file that is not parsed: that of a module without
/// bindings, from the first line to the last.
pub open spec fn plain_scope(content: Seq<char>) -> ScopeModel {
    bare_scope(ScopeKind::Module, 1, lines_of(content).len() as usize)
}

/// The scope of a file that is not parsed.
fn module_scope(content: &str) -> (r: Scope)
    ensures
        scope_model(r) == plain_scope(content@),
{
    let all = lines(&chars_of(content));
    assert(rows(all@).len() == all.len());
    let bindings: Vec<Binding> = Vec::new();
    let children: Vec<Scope> = Vec::new();
    assert(binding_views(bindings@) =~= Seq::<BindingModel>::empty());
    assert(scope_models(children@) =~= Seq::<ScopeModel>::empty());
    make_scope(ScopeKind::Module, None, 1, all.len(), bindings, children)
}

/// The scopes of a tree of the given grammar; trees of grammars other than
/// Python and Rust have none to tell.
pub open spec fn scope_of_tree(grammar: Grammar, tree: SyntaxNode) -> Option<ScopeModel> {
    match grammar {
        Grammar::Python => Some(python_scope(tree, ScopeKind::Module, None)),
        Grammar::Rust => Some(rust_scope(tree, ScopeKind::Module, None)),
        _ => None,
    }
}

/// Whether a node of this kind is a Rust pattern of several parts.
pub open spec fn is_rust_tuple_pattern(kind: Seq<char>) -> bool {
    kind == "tuple_pattern"@ || kind == "slice_pattern"@
}

/// Whether a node of this kind is a Rust pattern around an identifier.
pub open spec fn is_rust_wrapper_pattern(kind: Seq<char>) -> bool {
    kind == "ref_pattern"@ || kind == "mut_pattern"@
}

/// The names that a Rust pattern binds: an identifier other than `_`
/// itself, a pattern of several parts what the parts bind, a struct
/// pattern what the patterns, or else the names, of its fields bind, and
/// a pattern with `ref` or `mut` its identifiers.
pub open spec fn rust_pattern(node: SyntaxNode) -> Seq<BindingModel>
    decreases node, 1nat, 0nat,
{
    let k = node.kind@;
    if k == "identifier"@ {
        if node.text@ == "_"@ {
            Seq::empty()
        } else {
            seq![binding_of(node, BindingKind::Variable)]
        }
    } else if is_rust_tuple_pattern(k) {
        rust_pattern_parts(node, node.children.len() as int)
    } else if k == "struct_pattern"@ {
        rust_pattern_fields(node, node.children.len() as int)
    } else if is_rust_wrapper_pattern(k) {
        rust_pattern_names(node, node.children.len() as int)
    } else {
        Seq::empty()
    }
}

/// The names that the first `n` parts of a Rust pattern bind.
pub open spec fn rust_pattern_parts(node: SyntaxNode, n: int) -> Seq<BindingModel>
    decreases node, 0nat, n,
{
    if n <= 0 || n > node.children.len() {
        Seq::empty()
    } else {
        rust_pattern_parts(node, n - 1) + rust_pattern(node.children[n - 1])
    }
}

/// The position of the pattern of a field, or else of its name, among the
/// children of the field; the number of children if it has neither.
pub open spec fn field_pattern_position(field: SyntaxNode) -> int {
    if field.has_field("pattern"@) {
        crate::syntax::field_position(field.children@, 0, "pattern"@)
    } else {
        crate::syntax::field_position(field.children@, 0, "name"@)
    }
}

/// The names that the first `n` fields of a Rust struct pattern bind.
pub open spec fn rust_pattern_fields(node: SyntaxNode, n: int) -> Seq<BindingModel>
    decreases node, 0nat, n,
{
    if n <= 0 || n > node.children.len() {
        Seq::empty()
    } else {
        let rest = rust_pattern_fields(node, n - 1);
        let field = node.children[n - 1];
        let at = field_pattern_position(field);
        if field.kind@ == "field_pattern"@ && 0 <= at < field.children.len() {
            rest + rust_pattern(field.children[at])
        } else {
            rest
        }
    }
}

/// The names that the identifiers among the first `n` children of a Rust
/// pattern with `ref` or `mut` bind.
pub open spec fn rust_pattern_names(node: SyntaxNode, n: int) -> Seq<BindingModel>
    decreases node, 0nat, n,
{
    if n <= 0 || n > node.children.len() {
        Seq::empty()
    } else {
        let rest = rust_pattern_names(node, n - 1);
        if node.children[n - 1].kind@ == "identifier"@ {
            rest + rust_pattern(node.children[n - 1])
        } else {
            rest
        }
    }
}

/// Adds the names that a Rust pattern binds.
fn extract_rust_pattern(node: &SyntaxNode, out: &mut Vec<Binding>)
    ensures
        binding_views(final(out)@) == binding_views(old(out)@) + rust_pattern(*node),
    decreases node,
{
    let ghost start = binding_views(out@);
    if node.is_kind("identifier") {
        if !text_is(node.text.as_str(), "_") {
            push_binding(out, binding_at(node, BindingKind::Variable));
        }
        assert(binding_views(out@) =~= start + rust_pattern(*node));
    } else if node.is_kind("tuple_pattern") || node.is_kind("slice_pattern") {
        let mut i: usize = 0;
        assert(binding_views(out@) =~= start + rust_pattern_parts(*node, 0));
        while i < node.children.len()
            invariant
                i <= node.children.len(),
                binding_views(out@) == start + rust_pattern_parts(*node, i as int),
            decreases node.children.len() - i,
        {
            extract_rust_pattern(&node.children[i], out);
            assert(binding_views(out@) =~= start + rust_pattern_parts(*node, i + 1));
            i += 1;
        }
    } else if node.is_kind("struct_pattern") {
        let mut i: usize = 0;
        assert(binding_views(out@) =~= start + rust_pattern_fields(*node, 0));
        while i < node.children.len()
            invariant
                i <= node.children.len(),
                binding_views(out@) == start + rust_pattern_fields(*node, i as int),
            decreases node.children.len() - i,
        {
            let field = &node.children[i];
            if field.is_kind("field_pattern") {
                let at = match field.position_of_field("pattern") {
                    Some(p) => Some(p),
                    None => field.position_of_field("name"),
                };
                match at {
                    Some(p) => {
                        extract_rust_pattern(&field.children[p], out);
                    },
                    None => {},
                }
            }
            assert(binding_views(out@) =~= start + rust_pattern_fields(*node, i + 1));
            i += 1;
        }
    } else if node.is_kind("ref_pattern") || node.is_kind("mut_pattern") {
        let mut i: usize = 0;
        assert(binding_views(out@) =~= start + rust_pattern_names(*node, 0));
        while i < node.children.len()
            invariant
                i <= node.children.len(),
                binding_views(out@) == start + rust_pattern_names(*node, i as int),
            decreases node.children.len() - i,
        {
            if node.children[i].is_kind("identifier") {
                extract_rust_pattern(&node.children[i], out);
            }
            assert(binding_views(out@) =~= start + rust_pattern_names(*node, i + 1));
            i += 1;
        }
    } else {
        assert(binding_views(out@) =~= start + rust_pattern(*node));
    }
}

/// What the pattern in the field `pattern` of `node` binds, if there is
/// one.
pub open spec fn pattern_bindings(node: SyntaxNode) -> Seq<BindingModel> {
    if node.has_field("pattern"@) {
        rust_pattern(node.field_node("pattern"@))
    } else {
        Seq::empty()
    }
}

/// Adds what the pattern in the field `pattern` of `node` binds.
fn bind_pattern(node: &SyntaxNode, out: &mut Vec<Binding>)
    ensures
        binding_views(final(out)@) == binding_views(old(out)@) + pattern_bindings(*node),
{
    let ghost start = binding_views(out@);
    match node.child_by_field_name("pattern") {
        Some(pattern) => {
            extract_rust_pattern(pattern, out);
        },
        None => {
            assert(binding_views(out@) =~= start + pattern_bindings(*node));
        },
    }
}

/// The name that a Rust parameter binds: what its pattern binds, or
/// `self`.
pub open spec fn rust_param(child: SyntaxNode) -> Seq<BindingModel> {
    if child.kind@ == "parameter"@ {
        pattern_bindings(child)
    } else if child.kind@ == "self_parameter"@ {
        seq![binding_named("self"@, BindingKind::Parameter, child)]
    } else {
        Seq::empty()
    }
}

/// The names that the first `n` of the parameters bind.
pub open spec fn rust_params(nodes: Seq<SyntaxNode>, n: int) -> Seq<BindingModel>
    decreases n,
{
    if n <= 0 {
        Seq::empty()
    } else {
        rust_params(nodes, n - 1) + rust_param(nodes[n - 1])
    }
}

/// Adds the names that the parameters of a Rust function bind.
fn extract_rust_params(node: &SyntaxNode, out: &mut Vec<Binding>)
    ensures
        binding_views(final(out)@) == binding_views(old(out)@) + rust_params(
            node.children@,
            node.children.len() as int,
        ),
{
    let ghost start = binding_views(out@);
    let mut i: usize = 0;
    assert(binding_views(out@) =~= start + rust_params(node.children@, 0));
    while i < node.children.len()
        invariant
            i <= node.children.len(),
            binding_views(out@) == start + rust_params(node.children@, i as int),
        decreases node.children.len() - i,
    {
        let child = &node.children[i];
        let ghost before = binding_views(out@);
        if child.is_kind("parameter") {
            bind_pattern(child, out);
        } else if child.is_kind("self_parameter") {
            let name = "self".to_owned();
            push_binding(out, binding_with_name(&name, BindingKind::Parameter, child));
        }
        assert(binding_views(out@) =~= before + rust_param(*child));
        assert(binding_views(out@) =~= start + rust_params(node.children@, i + 1));
        i += 1;
    }
}

/// The binding of the alias of a `use ... as` clause, if it has one.
pub open spec fn alias_binding(clause: SyntaxNode) -> Seq<BindingModel> {
    if clause.has_field("alias"@) {
        seq![binding_of(clause.field_node("alias"@), BindingKind::Import)]
    } else {
        Seq::empty()
    }
}

/// The name that an item of a `use` list binds: an identifier itself, a
/// clause with `as` its alias or, without one, its last child if that is
/// an identifier.
pub open spec fn use_item(item: SyntaxNode) -> Seq<BindingModel> {
    if item.kind@ == "identifier"@ {
        seq![binding_of(item, BindingKind::Import)]
    } else if item.kind@ == "use_as_clause"@ {
        if item.has_field("alias"@) {
            alias_binding(item)
        } else if item.children.len() > 0 && item.children[item.children.len() - 1].kind@
            == "identifier"@ {
            seq![binding_of(item.children[item.children.len() - 1], BindingKind::Import)]
        } else {
            Seq::empty()
        }
    } else {
        Seq::empty()
    }
}

/// The names that the first `n` items of a `use` list bind.
pub open spec fn use_items(nodes: Seq<SyntaxNode>, n: int) -> Seq<BindingModel>
    decreases n,
{
    if n <= 0 {
        Seq::empty()
    } else {
        use_items(nodes, n - 1) + use_item(nodes[n - 1])
    }
}

/// The names that a part of a `use` declaration binds: a clause with `as`
/// its alias, a list what its items bind, a path its last name, an
/// identifier itself.
pub open spec fn use_part(child: SyntaxNode) -> Seq<BindingModel> {
    let k = child.kind@;
    if k == "use_as_clause"@ {
        alias_binding(child)
    } else if k == "use_list"@ {
        use_items(child.children@, child.children.len() as int)
    } else if k == "scoped_identifier"@ {
        if child.has_field("name"@) {
            seq![binding_of(child.field_node("name"@), BindingKind::Import)]
        } else {
            Seq::empty()
        }
    } else if k == "identifier"@ {
        seq![binding_of(child, BindingKind::Import)]
    } else {
        Seq::empty()
    }
}

/// The names that the first `n` parts of a `use` declaration bind.
pub open spec fn use_parts(nodes: Seq<SyntaxNode>, n: int) -> Seq<BindingModel>
    decreases n,
{
    if n <= 0 {
        Seq::empty()
    } else {
        use_parts(nodes, n - 1) + use_part(nodes[n - 1])
    }
}

/// Adds the binding of the alias of a `use ... as` clause.
fn bind_alias(clause: &SyntaxNode, out: &mut Vec<Binding>)
    ensures
        binding_views(final(out)@) == binding_views(old(out)@) + alias_binding(*clause),
{
    let ghost start = binding_views(out@);
    match clause.child_by_field_name("alias") {
        Some(alias) => {
            push_binding(out, binding_at(alias, BindingKind::Import));
        },
        None => {},
    }
    assert(binding_views(out@) =~= start + alias_binding(*clause));
}

/// Adds the names that a `use` declaration binds.
fn extract_rust_use(node: &SyntaxNode, out: &mut Vec<Binding>)
    ensures
        binding_views(final(out)@) == binding_views(old(out)@) + use_parts(
            node.children@,
            node.children.len() as int,
        ),
{
    let ghost start = binding_views(out@);
    let mut i: usize = 0;
    assert(binding_views(out@) =~= start + use_parts(node.children@, 0));
    while i < node.children.len()
        invariant
            i <= node.children.len(),
            binding_views(out@) == start + use_parts(node.children@, i as int),
        decreases node.children.len() - i,
    {
        let child = &node.children[i];
        let ghost before = binding_views(out@);
        if child.is_kind("use_as_clause") {
            bind_alias(child, out);
        } else if child.is_kind("use_list") {
            let mut k: usize = 0;
            assert(binding_views(out@) =~= before + use_items(child.children@, 0));
            while k < child.children.len()
                invariant
                    k <= child.children.len(),
                    binding_views(out@) == before + use_items(child.children@, k as int),
                decreases child.children.len() - k,
            {
                let item = &child.children[k];
                let ghost inner = binding_views(out@);
                if item.is_kind("identifier") {
                    push_binding(out, binding_at(item, BindingKind::Import));
                } else if item.is_kind("use_as_clause") {
                    match item.child_by_field_name("alias") {
                        Some(alias) => {
                            push_binding(out, binding_at(alias, BindingKind::Import));
                        },
                        None => {
                            let n = item.children.len();
                            if n > 0 && item.children[n - 1].is_kind("identifier") {
                                push_binding(
                                    out,
                                    binding_at(&item.children[n - 1], BindingKind::Import),
                                );
                            }
                        },
                    }
                }
                assert(binding_views(out@) =~= inner + use_item(*item));
                assert(binding_views(out@) =~= before + use_items(child.children@, k + 1));
                k += 1;
            }
        } else if child.is_kind("scoped_identifier") {
            match child.child_by_field_name("name") {
                Some(name) => {
                    push_binding(out, binding_at(name, BindingKind::Import));
                },
                None => {},
            }
        } else if child.is_kind("identifier") {
            push_binding(out, binding_at(child, BindingKind::Import));
        }
        assert(binding_views(out@) =~= before + use_part(*child));
        assert(binding_views(out@) =~= start + use_parts(node.children@, i + 1));
        i += 1;
    }
}

/// The scope of a Rust node: what its children give, under the kind and
/// name of the scope.
pub open spec fn rust_scope(node: SyntaxNode, kind: ScopeKind, name: Option<Seq<char>>) -> ScopeModel
    decreases node, 2nat, 0nat,
{
    ScopeModel {
        kind,
        name,
        start_line: node.start_line as usize,
        end_line: node.end_line as usize,
        bindings: rust_gather(node, node.children.len() as int, kind).bindings,
        children: rust_gather(node, node.children.len() as int, kind).children,
    }
}

/// What the first `n` children of a Rust node give to the scope around
/// them.
pub open spec fn rust_gather(node: SyntaxNode, n: int, kind: ScopeKind) -> Gathered
    decreases node, 1nat, n,
{
    if n <= 0 || n > node.children.len() {
        nothing()
    } else {
        both(rust_gather(node, n - 1, kind), rust_child(node.children[n - 1], kind))
    }
}

/// The scope of a body, if it binds anything or holds a scope.
pub open spec fn kept_scope(scope: ScopeModel) -> Seq<ScopeModel> {
    if scope.bindings.len() > 0 || scope.children.len() > 0 {
        seq![scope]
    } else {
        Seq::empty()
    }
}

/// What one child of a Rust node gives to the scope around it.
///
/// A function binds its name and opens a scope, in which its parameters
/// are bound; a function in an implementation is a method. A struct and an
/// enum bind their names. An implementation opens a scope named by its
/// type. A `let` binds what its pattern binds, a `for` too, and a `use`
/// what it imports. The body of a `for` and a block open scopes of their
/// own, which are kept if they are not empty. Every other child gives what
/// its own children give.
pub open spec fn rust_child(child: SyntaxNode, kind: ScopeKind) -> Gathered
    decreases child, 3nat, 0nat,
{
    let k = child.kind@;
    if k == "function_item"@ {
        let inner = rust_scope(
            child,
            if kind == ScopeKind::Impl {
                ScopeKind::Method
            } else {
                ScopeKind::Function
            },
            child.field_text("name"@),
        );
        let params = if child.has_field("parameters"@) {
            rust_params(
                child.field_node("parameters"@).children@,
                child.field_node("parameters"@).children.len() as int,
            )
        } else {
            Seq::empty()
        };
        Gathered {
            bindings: name_binding(child, BindingKind::Function),
            children: seq![ScopeModel { bindings: inner.bindings + params, ..inner }],
        }
    } else if k == "struct_item"@ || k == "enum_item"@ {
        Gathered { bindings: name_binding(child, BindingKind::Class), children: Seq::empty() }
    } else if k == "impl_item"@ {
        Gathered {
            bindings: Seq::empty(),
            children: seq![rust_scope(child, ScopeKind::Impl, child.field_text("type"@))],
        }
    } else if k == "let_declaration"@ {
        Gathered { bindings: pattern_bindings(child), children: Seq::empty() }
    } else if k == "for_expression"@ {
        Gathered {
            bindings: pattern_bindings(child),
            children: if 0 <= crate::syntax::field_position(child.children@, 0, "body"@)
                < child.children.len() {
                kept_scope(
                    rust_scope(
                        child.children[crate::syntax::field_position(child.children@, 0, "body"@)],
                        ScopeKind::Loop,
                        None,
                    ),
                )
            } else {
                Seq::empty()
            },
        }
    } else if k == "block"@ {
        Gathered {
            bindings: Seq::empty(),
            children: kept_scope(rust_scope(child, ScopeKind::Block, None)),
        }
    } else if k == "use_declaration"@ {
        Gathered {
            bindings: use_parts(child.children@, child.children.len() as int),
            children: Seq::empty(),
        }
    } else if child.children.len() > 0 {
        Gathered {
            bindings: rust_scope(child, kind, None).bindings,
            children: rust_scope(child, kind, None).children,
        }
    } else {
        nothing()
    }
}

/// Builds the scope of a Rust node.
pub fn build_rust_scope(node: &SyntaxNode, kind: ScopeKind, name: Option<String>) -> (r: Scope)
    ensures
        scope_model(r) == rust_scope(*node, kind, opt_text(name)),
    decreases node, 2nat,
{
    let mut bindings: Vec<Binding> = Vec::new();
    let mut children: Vec<Scope> = Vec::new();
    let mut i: usize = 0;
    assert(binding_views(bindings@) =~= Seq::<BindingModel>::empty());
    assert(scope_models(children@) =~= Seq::<ScopeModel>::empty());
    while i < node.children.len()
        invariant
            i <= node.children.len(),
            gathered(bindings, children) == rust_gather(*node, i as int, kind),
        decreases node.children.len() - i,
    {
        let (more_bindings, more_children) = build_rust_child(&node.children[i], kind);
        append_bindings(&mut bindings, more_bindings);
        append_scopes(&mut children, more_children);
        i += 1;
    }
    make_scope(kind, name, node.start_line as usize, node.end_line as usize, bindings, children)
}

/// Puts a scope behind those of `out` if it binds anything or holds a
/// scope.
fn keep_scope(out: &mut Vec<Scope>, scope: Scope)
    ensures
        scope_models(final(out)@) == scope_models(old(out)@) + kept_scope(scope_model(scope)),
{
    let ghost start = scope_models(out@);
    assert(scope_model(scope).bindings.len() == scope.bindings.len());
    assert(scope_model(scope).children.len() == scope.children.len());
    if scope.bindings.len() > 0 || scope.children.len() > 0 {
        push_scope(out, scope);
    }
    assert(scope_models(out@) =~= start + kept_scope(scope_model(scope)));
}

/// Builds what one child of a Rust node gives to the scope around it.
fn build_rust_child(child: &SyntaxNode, kind: ScopeKind) -> (r: (Vec<Binding>, Vec<Scope>))
    ensures
        gathered(r.0, r.1) == rust_child(*child, kind),
    decreases child, 3nat,
{
    let mut bindings: Vec<Binding> = Vec::new();
    let mut children: Vec<Scope> = Vec::new();
    assert(binding_views(bindings@) =~= Seq::<BindingModel>::empty());
    assert(scope_models(children@) =~= Seq::<ScopeModel>::empty());
    if child.is_kind("function_item") {
        bind_name(child, BindingKind::Function, &mut bindings);
        let scope_kind = if kind == ScopeKind::Impl {
            ScopeKind::Method
        } else {
            ScopeKind::Function
        };
        let inner = build_rust_scope(child, scope_kind, name_text(child));
        let ghost inner_model = scope_model(inner);
        let Scope { kind: k, name: n, start_line, end_line, bindings: own, children: below } =
            inner;
        let mut own = own;
        assert(binding_views(own@) == inner_model.bindings);
        assert(scope_models(below@) =~= inner_model.children);
        match child.child_by_field_name("parameters") {
            Some(params) => {
                extract_rust_params(params, &mut own);
            },
            None => {
                assert(binding_views(own@) =~= inner_model.bindings + Seq::<BindingModel>::empty());
            },
        }
        push_scope(&mut children, make_scope(k, n, start_line, end_line, own, below));
        assert(scope_models(children@) =~= rust_child(*child, kind).children);
        assert(binding_views(bindings@) =~= rust_child(*child, kind).bindings);
    } else if child.is_kind("struct_item") || child.is_kind("enum_item") {
        bind_name(child, BindingKind::Class, &mut bindings);
        assert(binding_views(bindings@) =~= rust_child(*child, kind).bindings);
    } else if child.is_kind("impl_item") {
        let name = match child.child_by_field_name("type") {
            Some(t) => Some(t.text.clone()),
            None => None,
        };
        let inner = build_rust_scope(child, ScopeKind::Impl, name);
        push_scope(&mut children, inner);
        assert(scope_models(children@) =~= rust_child(*child, kind).children);
    } else if child.is_kind("let_declaration") {
        bind_pattern(child, &mut bindings);
        assert(binding_views(bindings@) =~= rust_child(*child, kind).bindings);
    } else if child.is_kind("for_expression") {
        bind_pattern(child, &mut bindings);
        assert(binding_views(bindings@) =~= rust_child(*child, kind).bindings);
        match child.position_of_field("body") {
            Some(at) => {
                let scope = build_rust_scope(&child.children[at], ScopeKind::Loop, None);
                keep_scope(&mut children, scope);
            },
            None => {},
        }
        assert(scope_models(children@) =~= rust_child(*child, kind).children);
    } else if child.is_kind("block") {
        let scope = build_rust_scope(child, ScopeKind::Block, None);
        keep_scope(&mut children, scope);
        assert(scope_models(children@) =~= rust_child(*child, kind).children);
    } else if child.is_kind("use_declaration") {
        extract_rust_use(child, &mut bindings);
        assert(binding_views(bindings@) =~= rust_child(*child, kind).bindings);
    } else if child.children.len() > 0 {
        let nested = build_rust_scope(child, kind, None);
        let ghost nested_model = scope_model(nested);
        let Scope { kind: _, name: _, start_line: _, end_line: _, bindings: b, children: c } = nested;
        assert(scope_models(c@) =~= nested_model.children);
        return (b, c);
    }
    (bindings, children)
}

/// Whether `scope` is the module scope of the file at `path` with the given
/// content: what is built from the tree that parsing the content gives,
/// with the grammar that the extension selects; one plain scope where no
/// grammar is selected or the parser gives no tree.
pub open spec fn is_scope_of(scope: ScopeModel, path: Seq<char>, content: Seq<char>) -> bool {
    match grammar_of_path(path) {
        Some(grammar) => match parsed(grammar, content) {
            Some(_) => exists|tree: SyntaxNode| #[trigger]
                is_parse_of(tree, grammar, content) && Some(scope) == scope_of_tree(grammar, tree),
            None => scope == plain_scope(content),
        },
        None => scope == plain_scope(content),
    }
}

/// Finds the scopes of Python and Rust source.
pub struct ScopeAnalyzer {}

impl ScopeAnalyzer {
    /// An analyzer for Python and Rust.
    pub fn new() -> (r: ScopeAnalyzer) {
        ScopeAnalyzer {  }
    }

    /// The scopes of a file, by the grammar that its extension selects:
    /// the scopes that are built from the tree that parsing the content
    /// gives. For a file of another extension, and where the parser gives
    /// no tree, the result is one scope for the module, from the first line
    /// of the content to its last.
    pub fn analyze(&mut self, path: &str, content: &str) -> (r: ScopeResult)
        ensures
            r.file_path@ == path@,
            is_scope_of(scope_model(r.root), path@, content@),
    {
        let root = match grammar_for_path(path) {
            Some(Grammar::Python) => match parse_source(Grammar::Python, content) {
                Some(tree) => {
                    let scope = build_python_scope(&tree, ScopeKind::Module, None);
                    assert(is_parse_of(tree, Grammar::Python, content@) && Some(scope_model(scope))
                        == scope_of_tree(Grammar::Python, tree));
                    scope
                },
                None => module_scope(content),
            },
            Some(Grammar::Rust) => match parse_source(Grammar::Rust, content) {
                Some(tree) => {
                    let scope = build_rust_scope(&tree, ScopeKind::Module, None);
                    assert(is_parse_of(tree, Grammar::Rust, content@) && Some(scope_model(scope))
                        == scope_of_tree(Grammar::Rust, tree));
                    scope
                },
                None => module_scope(content),
            },
            _ => module_scope(content),
        };
        ScopeResult { root, file_path: path.to_owned() }
    }
}

} // verus!
