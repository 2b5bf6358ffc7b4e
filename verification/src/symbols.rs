//! Symbols and call sites of Python and Rust source files.

use crate::paths::{base_name, extension, extension_of, file_name};
use crate::syntax::{is_parse_of, opt_text, parse_source, parsed, Grammar, SyntaxNode};
use crate::text::{
    chars_of, join_range, last_piece, last_segment, lines, lines_of, string_of, text_is,
    join_of,
};
use vstd::prelude::*;

verus! {

/// What a symbol is.
#[derive(Debug, Clone, Copy, PartialEq, Eq, Structural)]
pub enum SymbolKind {
    Function,
    Class,
    Method,
}

impl SymbolKind {
    /// The word for the kind.
    pub open spec fn word(&self) -> Seq<char> {
        match self {
            SymbolKind::Function => "function"@,
            SymbolKind::Class => "class"@,
            SymbolKind::Method => "method"@,
        }
    }

    /// The word for the kind: `function`, `class` or `method`.
    pub fn as_str(&self) -> (r: &'static str)
        ensures
            r@ == self.word(),
    {
        match self {
            SymbolKind::Function => "function",
            SymbolKind::Class => "class",
            SymbolKind::Method => "method",
        }
    }
}

/// A named entity of a source file, with the lines it spans.
#[derive(Debug, Clone)]
pub struct Symbol {
    pub name: String,
    pub kind: SymbolKind,
    /// The first line; lines count from 1.
    pub start_line: u32,
    /// The last line.
    pub end_line: u32,
    /// The class or implementation that holds the symbol, if any.
    pub parent: Option<String>,
}

/// What a symbol holds: the model of `Symbol`.
pub struct SymbolView {
    pub name: Seq<char>,
    pub kind: SymbolKind,
    pub start_line: u32,
    pub end_line: u32,
    pub parent: Option<Seq<char>>,
}

impl View for Symbol {
    type V = SymbolView;

    open spec fn view(&self) -> SymbolView {
        SymbolView {
            name: self.name@,
            kind: self.kind,
            start_line: self.start_line,
            end_line: self.end_line,
            parent: opt_text(self.parent),
        }
    }
}

/// The models of the symbols of `v`.
pub open spec fn symbol_views(v: Seq<Symbol>) -> Seq<SymbolView> {
    v.map_values(|s: Symbol| s@)
}

/// A call site: the name that is called and the row of the call, counted
/// from 0.
pub type CallSite = (String, u32);

/// The models of the call sites of `v`.
pub open spec fn call_views(v: Seq<(String, u32)>) -> Seq<(Seq<char>, u32)> {
    v.map_values(|c: (String, u32)| (c.0@, c.1))
}

/// The symbol that `node` defines under the name `name`.
pub open spec fn symbol_at(
    node: SyntaxNode,
    name: Seq<char>,
    kind: SymbolKind,
    parent: Option<Seq<char>>,
) -> SymbolView {
    SymbolView { name, kind, start_line: node.start_line, end_line: node.end_line, parent }
}

/// Function or method: a function is a method where something holds it.
pub open spec fn callable_kind(parent: Option<Seq<char>>) -> SymbolKind {
    if parent is Some {
        SymbolKind::Method
    } else {
        SymbolKind::Function
    }
}

/// Whether `node` is a Python function definition.
pub open spec fn is_python_function(node: SyntaxNode) -> bool {
    node.kind@ == "function_definition"@ || node.kind@ == "async_function_definition"@
}

/// Whether `node` is a Python class definition.
pub open spec fn is_python_class(node: SyntaxNode) -> bool {
    node.kind@ == "class_definition"@
}

/// The symbol that a Python node defines by itself: a function or class
/// with a name.
pub open spec fn python_own(node: SyntaxNode, parent: Option<Seq<char>>) -> Seq<SymbolView> {
    if !node.has_field("name"@) {
        Seq::empty()
    } else if is_python_class(node) {
        seq![symbol_at(node, node.field_node("name"@).text@, SymbolKind::Class, parent)]
    } else if is_python_function(node) {
        seq![symbol_at(node, node.field_node("name"@).text@, callable_kind(parent), parent)]
    } else {
        Seq::empty()
    }
}

/// The symbols of a Python subtree in document order, where `parent` names
/// the class that holds the subtree. What a class holds has the class for
/// its parent; a class without a name is passed over with all it holds.
pub open spec fn python_symbols_of(node: SyntaxNode, parent: Option<Seq<char>>) -> Seq<SymbolView>
    decreases node, node.children.len() + 1,
{
    if is_python_class(node) {
        if node.has_field("name"@) {
            python_own(node, parent) + python_symbols_below(
                node,
                0,
                Some(node.field_node("name"@).text@),
            )
        } else {
            Seq::empty()
        }
    } else {
        python_own(node, parent) + python_symbols_below(node, 0, parent)
    }
}

/// The symbols of the children of a Python node from child `from` on.
pub open spec fn python_symbols_below(node: SyntaxNode, from: int, parent: Option<Seq<char>>) -> Seq<
    SymbolView,
>
    decreases node, node.children.len() - from,
{
    if from < 0 || from >= node.children.len() {
        Seq::empty()
    } else {
        python_symbols_of(node.children[from], parent) + python_symbols_below(
            node,
            from + 1,
            parent,
        )
    }
}

/// Whether `node` is a Rust type definition: a struct, an enum or a trait.
pub open spec fn is_rust_type(node: SyntaxNode) -> bool {
    node.kind@ == "struct_item"@ || node.kind@ == "enum_item"@ || node.kind@ == "trait_item"@
}

/// The symbol that a Rust node defines by itself: a function or type with a
/// name.
pub open spec fn rust_own(node: SyntaxNode, parent: Option<Seq<char>>) -> Seq<SymbolView> {
    if !node.has_field("name"@) {
        Seq::empty()
    } else if node.kind@ == "function_item"@ {
        seq![symbol_at(node, node.field_node("name"@).text@, callable_kind(parent), parent)]
    } else if is_rust_type(node) {
        seq![symbol_at(node, node.field_node("name"@).text@, SymbolKind::Class, parent)]
    } else {
        Seq::empty()
    }
}

/// The symbols of a Rust subtree in document order, where `parent` names the
/// implementation that holds the subtree. What an implementation holds has
/// the implemented type for its parent; an implementation without a type is
/// passed over with all it holds.
pub open spec fn rust_symbols_of(node: SyntaxNode, parent: Option<Seq<char>>) -> Seq<SymbolView>
    decreases node, node.children.len() + 1,
{
    if node.kind@ == "impl_item"@ {
        if node.has_field("type"@) {
            rust_symbols_below(node, 0, Some(node.field_node("type"@).text@))
        } else {
            Seq::empty()
        }
    } else {
        rust_own(node, parent) + rust_symbols_below(node, 0, parent)
    }
}

/// The symbols of the children of a Rust node from child `from` on.
pub open spec fn rust_symbols_below(node: SyntaxNode, from: int, parent: Option<Seq<char>>) -> Seq<
    SymbolView,
>
    decreases node, node.children.len() - from,
{
    if from < 0 || from >= node.children.len() {
        Seq::empty()
    } else {
        rust_symbols_of(node.children[from], parent) + rust_symbols_below(node, from + 1, parent)
    }
}

/// The row of a node, counted from 0.
pub open spec fn row_of(node: SyntaxNode) -> u32 {
    if node.start_line >= 1 {
        (node.start_line - 1) as u32
    } else {
        0
    }
}

/// The name that a Python call names: what follows the last `.` of the
/// called expression.
pub open spec fn python_callee(text: Seq<char>) -> Seq<char> {
    last_piece(text, seq!['.'])
}

/// The name that a Rust call names: what follows the last `::` of the
/// called expression and, in that, the last `.`.
pub open spec fn rust_callee(text: Seq<char>) -> Seq<char> {
    last_piece(last_piece(text, seq![':', ':']), seq!['.'])
}

/// The call that a Python node makes by itself.
pub open spec fn python_own_call(node: SyntaxNode) -> Seq<(Seq<char>, u32)> {
    if node.kind@ == "call"@ && node.has_field("function"@) {
        seq![(python_callee(node.field_node("function"@).text@), row_of(node))]
    } else {
        Seq::empty()
    }
}

/// The calls of a Python subtree in document order.
pub open spec fn python_calls_of(node: SyntaxNode) -> Seq<(Seq<char>, u32)>
    decreases node, node.children.len() + 1,
{
    python_own_call(node) + python_calls_below(node, 0)
}

/// The calls of the children of a Python node from child `from` on.
pub open spec fn python_calls_below(node: SyntaxNode, from: int) -> Seq<(Seq<char>, u32)>
    decreases node, node.children.len() - from,
{
    if from < 0 || from >= node.children.len() {
        Seq::empty()
    } else {
        python_calls_of(node.children[from]) + python_calls_below(node, from + 1)
    }
}

/// The call that a Rust node makes by itself.
pub open spec fn rust_own_call(node: SyntaxNode) -> Seq<(Seq<char>, u32)> {
    if node.kind@ == "call_expression"@ && node.has_field("function"@) {
        seq![(rust_callee(node.field_node("function"@).text@), row_of(node))]
    } else {
        Seq::empty()
    }
}

/// The calls of a Rust subtree in document order.
pub open spec fn rust_calls_of(node: SyntaxNode) -> Seq<(Seq<char>, u32)>
    decreases node, node.children.len() + 1,
{
    rust_own_call(node) + rust_calls_below(node, 0)
}

/// The calls of the children of a Rust node from child `from` on.
pub open spec fn rust_calls_below(node: SyntaxNode, from: int) -> Seq<(Seq<char>, u32)>
    decreases node, node.children.len() - from,
{
    if from < 0 || from >= node.children.len() {
        Seq::empty()
    } else {
        rust_calls_of(node.children[from]) + rust_calls_below(node, from + 1)
    }
}

/// A copy of an optional string.
fn copy_opt(o: &Option<String>) -> (r: Option<String>)
    ensures
        r == *o,
{
    match o {
        Some(s) => Some(s.clone()),
        None => None,
    }
}

/// The symbol that `node` defines under the name `name`.
fn make_symbol(node: &SyntaxNode, name: &String, kind: SymbolKind, parent: &Option<String>) -> (r:
    Symbol)
    ensures
        r@ == symbol_at(*node, name@, kind, opt_text(*parent)),
{
    Symbol {
        name: name.clone(),
        kind,
        start_line: node.start_line,
        end_line: node.end_line,
        parent: copy_opt(parent),
    }
}

/// Function or method.
fn kind_of_callable(parent: &Option<String>) -> (k: SymbolKind)
    ensures
        k == callable_kind(opt_text(*parent)),
{
    match parent {
        Some(_) => SymbolKind::Method,
        None => SymbolKind::Function,
    }
}

/// Adds the symbols of a Python subtree to `out`.
fn collect_python_symbols(node: &SyntaxNode, parent: &Option<String>, out: &mut Vec<Symbol>)
    ensures
        symbol_views(final(out)@) == symbol_views(old(out)@) + python_symbols_of(
            *node,
            opt_text(*parent),
        ),
    decreases node, node.children.len() + 1,
{
    let ghost start = symbol_views(out@);
    let ghost pv = opt_text(*parent);
    let is_class = node.is_kind("class_definition");
    let is_function = node.is_kind("function_definition") || node.is_kind(
        "async_function_definition",
    );
    let name = node.child_by_field_name("name");
    if is_class {
        match name {
            Some(name_node) => {
                out.push(make_symbol(node, &name_node.text, SymbolKind::Class, parent));
                assert(symbol_views(out@) =~= start + python_own(*node, pv));
                let inner = Some(name_node.text.clone());
                collect_python_below(node, 0, &inner, out);
                assert(symbol_views(out@) =~= start + python_symbols_of(*node, pv));
            },
            None => {
                assert(symbol_views(out@) =~= start + python_symbols_of(*node, pv));
            },
        }
    } else {
        if is_function {
            match name {
                Some(name_node) => {
                    out.push(make_symbol(node, &name_node.text, kind_of_callable(parent), parent));
                },
                None => {},
            }
        }
        assert(symbol_views(out@) =~= start + python_own(*node, pv));
        collect_python_below(node, 0, parent, out);
        assert(symbol_views(out@) =~= start + python_symbols_of(*node, pv));
    }
}

/// Adds the symbols of the children of a Python node from `from` on to `out`.
fn collect_python_below(
    node: &SyntaxNode,
    from: usize,
    parent: &Option<String>,
    out: &mut Vec<Symbol>,
)
    ensures
        symbol_views(final(out)@) == symbol_views(old(out)@) + python_symbols_below(
            *node,
            from as int,
            opt_text(*parent),
        ),
    decreases node, node.children.len() - from,
{
    let ghost start = symbol_views(out@);
    let ghost pv = opt_text(*parent);
    if from < node.children.len() {
        collect_python_symbols(&node.children[from], parent, out);
        let ghost mid = symbol_views(out@);
        collect_python_below(node, from + 1, parent, out);
        assert(symbol_views(out@) =~= start + python_symbols_below(*node, from as int, pv)) by {
            assert(mid == start + python_symbols_of(node.children[from as int], pv));
            assert(symbol_views(out@) == mid + python_symbols_below(*node, from + 1, pv));
        }
    } else {
        assert(symbol_views(out@) =~= start + python_symbols_below(*node, from as int, pv));
    }
}

/// The symbols of a Python syntax tree, in document order: functions and
/// classes that have a name. A function that a class holds is a method, and
/// names the class as its parent.
pub fn python_symbols(tree: &SyntaxNode) -> (r: Vec<Symbol>)
    ensures
        symbol_views(r@) == python_symbols_of(*tree, None),
{
    let mut out: Vec<Symbol> = Vec::new();
    let none: Option<String> = None;
    assert(symbol_views(out@) =~= Seq::<SymbolView>::empty());
    collect_python_symbols(tree, &none, &mut out);
    assert(symbol_views(out@) =~= python_symbols_of(*tree, None));
    out
}

/// Adds the symbols of a Rust subtree to `out`.
fn collect_rust_symbols(node: &SyntaxNode, parent: &Option<String>, out: &mut Vec<Symbol>)
    ensures
        symbol_views(final(out)@) == symbol_views(old(out)@) + rust_symbols_of(
            *node,
            opt_text(*parent),
        ),
    decreases node, node.children.len() + 1,
{
    let ghost start = symbol_views(out@);
    let ghost pv = opt_text(*parent);
    if node.is_kind("impl_item") {
        match node.child_by_field_name("type") {
            Some(type_node) => {
                let inner = Some(type_node.text.clone());
                collect_rust_below(node, 0, &inner, out);
                assert(symbol_views(out@) =~= start + rust_symbols_of(*node, pv));
            },
            None => {
                assert(symbol_views(out@) =~= start + rust_symbols_of(*node, pv));
            },
        }
    } else {
        let is_function = node.is_kind("function_item");
        let is_type = node.is_kind("struct_item") || node.is_kind("enum_item") || node.is_kind(
            "trait_item",
        );
        if is_function || is_type {
            match node.child_by_field_name("name") {
                Some(name_node) => {
                    let kind = if is_function {
                        kind_of_callable(parent)
                    } else {
                        SymbolKind::Class
                    };
                    out.push(make_symbol(node, &name_node.text, kind, parent));
                },
                None => {},
            }
        }
        assert(symbol_views(out@) =~= start + rust_own(*node, pv));
        collect_rust_below(node, 0, parent, out);
        assert(symbol_views(out@) =~= start + rust_symbols_of(*node, pv));
    }
}

/// Adds the symbols of the children of a Rust node from `from` on to `out`.
fn collect_rust_below(node: &SyntaxNode, from: usize, parent: &Option<String>, out: &mut Vec<Symbol>)
    ensures
        symbol_views(final(out)@) == symbol_views(old(out)@) + rust_symbols_below(
            *node,
            from as int,
            opt_text(*parent),
        ),
    decreases node, node.children.len() - from,
{
    let ghost start = symbol_views(out@);
    let ghost pv = opt_text(*parent);
    if from < node.children.len() {
        collect_rust_symbols(&node.children[from], parent, out);
        let ghost mid = symbol_views(out@);
        collect_rust_below(node, from + 1, parent, out);
        assert(symbol_views(out@) =~= start + rust_symbols_below(*node, from as int, pv)) by {
            assert(mid == start + rust_symbols_of(node.children[from as int], pv));
            assert(symbol_views(out@) == mid + rust_symbols_below(*node, from + 1, pv));
        }
    } else {
        assert(symbol_views(out@) =~= start + rust_symbols_below(*node, from as int, pv));
    }
}

/// The symbols of a Rust syntax tree, in document order: functions, structs,
/// enums and traits that have a name. A function that an implementation
/// holds is a method, and names the implemented type as its parent.
pub fn rust_symbols(tree: &SyntaxNode) -> (r: Vec<Symbol>)
    ensures
        symbol_views(r@) == rust_symbols_of(*tree, None),
{
    let mut out: Vec<Symbol> = Vec::new();
    let none: Option<String> = None;
    assert(symbol_views(out@) =~= Seq::<SymbolView>::empty());
    collect_rust_symbols(tree, &none, &mut out);
    assert(symbol_views(out@) =~= rust_symbols_of(*tree, None));
    out
}

/// The row of a node, counted from 0.
fn node_row(node: &SyntaxNode) -> (r: u32)
    ensures
        r == row_of(*node),
{
    if node.start_line >= 1 {
        node.start_line - 1
    } else {
        0
    }
}

/// The name that a Python call names.
fn callee_python(text: &String) -> (r: String)
    ensures
        r@ == python_callee(text@),
{
    let chars = chars_of(text.as_str());
    let mut dot: Vec<char> = Vec::new();
    dot.push('.');
    assert(dot@ =~= seq!['.']);
    let name = last_segment(&chars, &dot);
    string_of(&name)
}

/// The name that a Rust call names.
fn callee_rust(text: &String) -> (r: String)
    ensures
        r@ == rust_callee(text@),
{
    let chars = chars_of(text.as_str());
    let mut colons: Vec<char> = Vec::new();
    colons.push(':');
    colons.push(':');
    assert(colons@ =~= seq![':', ':']);
    let mut dot: Vec<char> = Vec::new();
    dot.push('.');
    assert(dot@ =~= seq!['.']);
    let path_end = last_segment(&chars, &colons);
    let name = last_segment(&path_end, &dot);
    string_of(&name)
}

/// Adds the calls of a Python subtree to `out`.
fn collect_python_calls(node: &SyntaxNode, out: &mut Vec<(String, u32)>)
    ensures
        call_views(final(out)@) == call_views(old(out)@) + python_calls_of(*node),
    decreases node, node.children.len() + 1,
{
    let ghost start = call_views(out@);
    if node.is_kind("call") {
        match node.child_by_field_name("function") {
            Some(f) => {
                out.push((callee_python(&f.text), node_row(node)));
            },
            None => {},
        }
    }
    assert(call_views(out@) =~= start + python_own_call(*node));
    collect_python_calls_below(node, 0, out);
    assert(call_views(out@) =~= start + python_calls_of(*node));
}

/// Adds the calls of the children of a Python node from `from` on to `out`.
fn collect_python_calls_below(node: &SyntaxNode, from: usize, out: &mut Vec<(String, u32)>)
    ensures
        call_views(final(out)@) == call_views(old(out)@) + python_calls_below(*node, from as int),
    decreases node, node.children.len() - from,
{
    let ghost start = call_views(out@);
    if from < node.children.len() {
        collect_python_calls(&node.children[from], out);
        let ghost mid = call_views(out@);
        collect_python_calls_below(node, from + 1, out);
        assert(call_views(out@) =~= start + python_calls_below(*node, from as int)) by {
            assert(mid == start + python_calls_of(node.children[from as int]));
            assert(call_views(out@) == mid + python_calls_below(*node, from + 1));
        }
    } else {
        assert(call_views(out@) =~= start + python_calls_below(*node, from as int));
    }
}

/// The calls of a Python syntax tree, in document order: for each call the
/// last name of the called expression, and the row of the call.
pub fn python_calls(tree: &SyntaxNode) -> (r: Vec<(String, u32)>)
    ensures
        call_views(r@) == python_calls_of(*tree),
{
    let mut out: Vec<(String, u32)> = Vec::new();
    assert(call_views(out@) =~= Seq::<(Seq<char>, u32)>::empty());
    collect_python_calls(tree, &mut out);
    assert(call_views(out@) =~= python_calls_of(*tree));
    out
}

/// Adds the calls of a Rust subtree to `out`.
fn collect_rust_calls(node: &SyntaxNode, out: &mut Vec<(String, u32)>)
    ensures
        call_views(final(out)@) == call_views(old(out)@) + rust_calls_of(*node),
    decreases node, node.children.len() + 1,
{
    let ghost start = call_views(out@);
    if node.is_kind("call_expression") {
        match node.child_by_field_name("function") {
            Some(f) => {
                out.push((callee_rust(&f.text), node_row(node)));
            },
            None => {},
        }
    }
    assert(call_views(out@) =~= start + rust_own_call(*node));
    collect_rust_calls_below(node, 0, out);
    assert(call_views(out@) =~= start + rust_calls_of(*node));
}

/// Adds the calls of the children of a Rust node from `from` on to `out`.
fn collect_rust_calls_below(node: &SyntaxNode, from: usize, out: &mut Vec<(String, u32)>)
    ensures
        call_views(final(out)@) == call_views(old(out)@) + rust_calls_below(*node, from as int),
    decreases node, node.children.len() - from,
{
    let ghost start = call_views(out@);
    if from < node.children.len() {
        collect_rust_calls(&node.children[from], out);
        let ghost mid = call_views(out@);
        collect_rust_calls_below(node, from + 1, out);
        assert(call_views(out@) =~= start + rust_calls_below(*node, from as int)) by {
            assert(mid == start + rust_calls_of(node.children[from as int]));
            assert(call_views(out@) == mid + rust_calls_below(*node, from + 1));
        }
    } else {
        assert(call_views(out@) =~= start + rust_calls_below(*node, from as int));
    }
}

/// The calls of a Rust syntax tree, in document order: for each call the
/// last name of the called path, and the row of the call.
pub fn rust_calls(tree: &SyntaxNode) -> (r: Vec<(String, u32)>)
    ensures
        call_views(r@) == rust_calls_of(*tree),
{
    let mut out: Vec<(String, u32)> = Vec::new();
    assert(call_views(out@) =~= Seq::<(Seq<char>, u32)>::empty());
    collect_rust_calls(tree, &mut out);
    assert(call_views(out@) =~= rust_calls_of(*tree));
    out
}

/// The position of the first symbol from `from` on that is called `name`,
/// or the number of symbols if none is.
pub open spec fn symbol_position(symbols: Seq<SymbolView>, from: int, name: Seq<char>) -> int
    decreases symbols.len() - from,
{
    if from < 0 || from >= symbols.len() {
        symbols.len() as int
    } else if symbols[from].name == name {
        from
    } else {
        symbol_position(symbols, from + 1, name)
    }
}

/// The first of the symbols that is called `name`, if there is one.
pub open spec fn found_symbol(symbols: Seq<SymbolView>, name: Seq<char>) -> Option<SymbolView> {
    let at = symbol_position(symbols, 0, name);
    if at < symbols.len() {
        Some(symbols[at])
    } else {
        None
    }
}

/// The model of an optional symbol.
pub open spec fn opt_symbol(o: Option<Symbol>) -> Option<SymbolView> {
    match o {
        Some(s) => Some(s@),
        None => None,
    }
}

/// The first of `symbols` that is called `name`.
pub fn first_named(symbols: &Vec<Symbol>, name: &str) -> (r: Option<Symbol>)
    ensures
        opt_symbol(r) == found_symbol(symbol_views(symbols@), name@),
{
    let ghost views = symbol_views(symbols@);
    let mut i: usize = 0;
    while i < symbols.len()
        invariant
            i <= symbols.len(),
            views == symbol_views(symbols@),
            symbol_position(views, 0, name@) == symbol_position(views, i as int, name@),
        decreases symbols.len() - i,
    {
        assert(views[i as int] == symbols@[i as int]@);
        if text_is(symbols[i].name.as_str(), name) {
            let s = &symbols[i];
            assert(symbol_position(views, 0, name@) == i);
            return Some(
                Symbol {
                    name: s.name.clone(),
                    kind: s.kind,
                    start_line: s.start_line,
                    end_line: s.end_line,
                    parent: copy_opt(&s.parent),
                },
            );
        }
        i += 1;
    }
    None
}

/// The lines `start_line` to `end_line` of `content`, joined by line feeds;
/// lines count from 1, and lines that `content` does not have are left out.
pub open spec fn source_of_lines(content: Seq<char>, start_line: u32, end_line: u32) -> Seq<char> {
    let all = lines_of(content);
    let end = if end_line <= all.len() {
        end_line as int
    } else {
        all.len() as int
    };
    let first = if start_line >= 1 {
        start_line - 1
    } else {
        0
    };
    let start = if first <= end {
        first
    } else {
        end
    };
    join_of(all.subrange(start, end), seq!['\n'])
}

/// The lines `start_line` to `end_line` of `content`, joined by line feeds.
pub fn lines_between(content: &str, start_line: u32, end_line: u32) -> (r: String)
    ensures
        r@ == source_of_lines(content@, start_line, end_line),
{
    let chars = chars_of(content);
    let all = lines(&chars);
    let end: usize = if (end_line as usize) <= all.len() {
        end_line as usize
    } else {
        all.len()
    };
    let first: usize = if start_line >= 1 {
        (start_line - 1) as usize
    } else {
        0
    };
    let start: usize = if first <= end {
        first
    } else {
        end
    };
    let mut feed: Vec<char> = Vec::new();
    feed.push('\n');
    assert(feed@ =~= seq!['\n']);
    let joined = join_range(&all, start, end, &feed);
    string_of(&joined)
}

/// The grammar for a file of the given path: Python for the extension `py`,
/// Rust for `rs`, none for any other.
pub open spec fn grammar_of_path(path: Seq<char>) -> Option<Grammar> {
    let ext = extension_of(base_name(path));
    if ext == Some("py"@) {
        Some(Grammar::Python)
    } else if ext == Some("rs"@) {
        Some(Grammar::Rust)
    } else {
        None
    }
}

/// The grammar for a file of the given path.
pub fn grammar_for_path(path: &str) -> (r: Option<Grammar>)
    ensures
        r == grammar_of_path(path@),
{
    let chars = chars_of(path);
    let name = file_name(&chars);
    match extension(&name) {
        Some(ext) => {
            let py = chars_of("py");
            let rs = chars_of("rs");
            if crate::text::same(&ext, &py) {
                Some(Grammar::Python)
            } else if crate::text::same(&ext, &rs) {
                Some(Grammar::Rust)
            } else {
                None
            }
        },
        None => None,
    }
}

/// The symbols that a tree of the given grammar holds; trees of grammars
/// other than Python and Rust hold none.
pub open spec fn symbols_of_tree(grammar: Grammar, tree: SyntaxNode) -> Seq<SymbolView> {
    match grammar {
        Grammar::Python => python_symbols_of(tree, None),
        Grammar::Rust => rust_symbols_of(tree, None),
        _ => Seq::empty(),
    }
}

/// The symbols of a syntax tree of the given grammar.
pub fn tree_symbols(grammar: Grammar, tree: &SyntaxNode) -> (r: Vec<Symbol>)
    ensures
        symbol_views(r@) == symbols_of_tree(grammar, *tree),
{
    match grammar {
        Grammar::Python => python_symbols(tree),
        Grammar::Rust => rust_symbols(tree),
        _ => {
            let r: Vec<Symbol> = Vec::new();
            assert(symbol_views(r@) =~= Seq::<SymbolView>::empty());
            r
        },
    }
}

/// Whether `symbols` are the symbols of the file at `path` with the given
/// content: those of the tree that parsing the content gives, with the
/// grammar that the extension selects; none where no grammar is selected or
/// the parser gives no tree.
pub open spec fn are_symbols_of(symbols: Seq<SymbolView>, path: Seq<char>, content: Seq<char>) -> bool {
    match grammar_of_path(path) {
        Some(grammar) => match parsed(grammar, content) {
            Some(_) => exists|tree: SyntaxNode| #[trigger]
                is_parse_of(tree, grammar, content) && symbols == symbols_of_tree(grammar, tree),
            None => symbols.len() == 0,
        },
        None => symbols.len() == 0,
    }
}

/// The calls of a syntax tree of the given grammar.
pub open spec fn calls_of_tree(grammar: Grammar, tree: SyntaxNode) -> Seq<(Seq<char>, u32)> {
    match grammar {
        Grammar::Python => python_calls_of(tree),
        Grammar::Rust => rust_calls_of(tree),
        _ => Seq::empty(),
    }
}

/// Whether `calls` are the calls of `source` read with `grammar`: those of
/// the tree that parsing the source gives; none where the parser gives no
/// tree.
pub open spec fn are_calls_of(calls: Seq<(Seq<char>, u32)>, grammar: Grammar, source: Seq<char>) -> bool {
    match parsed(grammar, source) {
        Some(_) => exists|tree: SyntaxNode| #[trigger]
            is_parse_of(tree, grammar, source) && calls == calls_of_tree(grammar, tree),
        None => calls.len() == 0,
    }
}

/// The source lines of a symbol that was found, joined by line feeds; none
/// where none was found.
pub open spec fn source_of_symbol(content: Seq<char>, found: Option<SymbolView>) -> Option<
    Seq<char>,
> {
    match found {
        Some(symbol) => Some(source_of_lines(content, symbol.start_line, symbol.end_line)),
        None => None,
    }
}

/// Finds the symbols and calls of Python and Rust source.
pub struct SymbolParser {}

impl SymbolParser {
    /// A parser for Python and Rust.
    pub fn new() -> (r: SymbolParser) {
        SymbolParser {  }
    }

    /// The symbols of a file, by the grammar that its extension selects:
    /// what `tree_symbols` finds in the tree that parsing the content
    /// gives. Files of other extensions, and files that the parser gives no
    /// tree for, have none.
    pub fn parse_file(&mut self, path: &str, content: &str) -> (r: Vec<Symbol>)
        ensures
            are_symbols_of(symbol_views(r@), path@, content@),
    {
        match grammar_for_path(path) {
            Some(grammar) => match parse_source(grammar, content) {
                Some(tree) => {
                    let r = tree_symbols(grammar, &tree);
                    assert(is_parse_of(tree, grammar, content@) && symbol_views(r@)
                        == symbols_of_tree(grammar, tree));
                    r
                },
                None => Vec::new(),
            },
            None => Vec::new(),
        }
    }

    /// The first symbol of the file that is called `name`: the first of
    /// that name among the symbols of the file. `None` where the file has
    /// no symbol of that name.
    pub fn find_symbol(&mut self, path: &str, content: &str, name: &str) -> (r: Option<Symbol>)
        ensures
            r is Some ==> r->0.name@ == name@,
            grammar_of_path(path@) is None ==> r is None,
            exists|symbols: Seq<SymbolView>| #[trigger]
                are_symbols_of(symbols, path@, content@) && opt_symbol(r) == found_symbol(
                    symbols,
                    name@,
                ),
    {
        let symbols = self.parse_file(path, content);
        let r = first_named(&symbols, name);
        proof {
            if r is Some {
                lemma_symbol_position_named(symbol_views(symbols@), 0, name@);
            }
            assert(are_symbols_of(symbol_views(symbols@), path@, content@));
        }
        r
    }

    /// The source lines of the first symbol of the file that is called
    /// `name`, joined by line feeds: the lines from the first line of the
    /// symbol to its last. `None` where the file has no symbol of that
    /// name.
    pub fn extract_symbol_source(&mut self, path: &str, content: &str, name: &str) -> (r: Option<
        String,
    >)
        ensures
            grammar_of_path(path@) is None ==> r is None,
            exists|symbols: Seq<SymbolView>| #[trigger]
                are_symbols_of(symbols, path@, content@) && opt_text(r) == source_of_symbol(
                    content@,
                    found_symbol(symbols, name@),
                ),
    {
        match self.find_symbol(path, content, name) {
            Some(symbol) => {
                let source = lines_between(content, symbol.start_line, symbol.end_line);
                proof {
                    let symbols = choose|symbols: Seq<SymbolView>| #[trigger]
                        are_symbols_of(symbols, path@, content@) && opt_symbol(Some(symbol))
                            == found_symbol(symbols, name@);
                    assert(are_symbols_of(symbols, path@, content@) && opt_text(Some(source))
                        == source_of_symbol(content@, found_symbol(symbols, name@)));
                }
                Some(source)
            },
            None => {
                proof {
                    let symbols = choose|symbols: Seq<SymbolView>| #[trigger]
                        are_symbols_of(symbols, path@, content@) && opt_symbol(None)
                            == found_symbol(symbols, name@);
                    assert(are_symbols_of(symbols, path@, content@) && opt_text(None)
                        == source_of_symbol(content@, found_symbol(symbols, name@)));
                }
                None
            },
        }
    }

    /// The calls in a piece of source: each with the name that is called
    /// and the row of the call, counted from 0. The source is read as
    /// Python; if that shows no call, as Rust.
    pub fn find_calls_in_source(&mut self, source: &str) -> (r: Vec<(String, u32)>)
        ensures
            exists|python: Seq<(Seq<char>, u32)>| #[trigger]
                are_calls_of(python, Grammar::Python, source@) && if python.len() > 0 {
                    call_views(r@) == python
                } else {
                    are_calls_of(call_views(r@), Grammar::Rust, source@)
                },
    {
        let python = match parse_source(Grammar::Python, source) {
            Some(tree) => {
                let calls = python_calls(&tree);
                assert(is_parse_of(tree, Grammar::Python, source@) && call_views(calls@)
                    == calls_of_tree(Grammar::Python, tree));
                calls
            },
            None => Vec::new(),
        };
        assert(are_calls_of(call_views(python@), Grammar::Python, source@));
        if python.len() > 0 {
            return python;
        }
        match parse_source(Grammar::Rust, source) {
            Some(tree) => {
                let calls = rust_calls(&tree);
                assert(is_parse_of(tree, Grammar::Rust, source@) && call_views(calls@)
                    == calls_of_tree(Grammar::Rust, tree));
                assert(are_calls_of(call_views(calls@), Grammar::Rust, source@));
                calls
            },
            None => {
                let calls: Vec<(String, u32)> = Vec::new();
                assert(are_calls_of(call_views(calls@), Grammar::Rust, source@));
                calls
            },
        }
    }
}

/// Where the search for a name ends inside the symbols, it ends on a symbol
/// of that name.
pub proof fn lemma_symbol_position_named(symbols: Seq<SymbolView>, from: int, name: Seq<char>)
    requires
        0 <= from,
        symbol_position(symbols, from, name) < symbols.len(),
    ensures
        from <= symbol_position(symbols, from, name),
        symbols[symbol_position(symbols, from, name)].name == name,
    decreases symbols.len() - from,
{
    if from < symbols.len() && symbols[from].name != name {
        lemma_symbol_position_named(symbols, from + 1, name);
    }
}

} // verus!
