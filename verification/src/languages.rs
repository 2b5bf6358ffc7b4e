//! Language support: what each language's syntax nodes mean, and the engine
//! that turns a syntax tree into symbols, imports, exports and calls by
//! asking the language alone.

use crate::syntax::{opt_text, Grammar, SyntaxNode};
use crate::text::{chars_of, last_piece, last_segment, string_of, text_is};
use vstd::prelude::*;

pub mod cpp;
pub mod css;
pub mod ecmascript;
pub mod go;
pub mod go_mod;
pub mod html;
pub mod java;
pub mod javascript;
pub mod json;
pub mod markdown;
pub mod python;
pub mod registry;
pub mod rust;
pub mod scala;
pub mod toml;
pub mod typescript;
pub mod vue;
pub mod yaml;

verus! {

/// Who may use a symbol.
#[derive(Debug, Clone, Copy, PartialEq, Eq, Structural)]
pub enum Visibility {
    Public,
    Private,
    Protected,
    Internal,
}

/// How a language tells what is visible from outside a file.
#[derive(Debug, Clone, Copy, PartialEq, Eq, Structural)]
pub enum VisibilityMechanism {
    /// Export statements.
    ExplicitExport,
    /// Modifiers such as `public` and `private`.
    AccessModifier,
    /// The spelling of the name.
    NamingConvention,
    /// Declarations in header files.
    HeaderBased,
    /// The language has no such notion.
    NotApplicable,
}

/// What a symbol is.
#[derive(Debug, Clone, Copy, PartialEq, Eq, Structural)]
pub enum SymbolKind {
    Function,
    Method,
    Class,
    Struct,
    Interface,
    Enum,
    Type,
    Variable,
    Constant,
    Module,
    Trait,
    Heading,
}

impl SymbolKind {
    /// The word for the kind.
    pub open spec fn word(&self) -> Seq<char> {
        match self {
            SymbolKind::Function => "function"@,
            SymbolKind::Method => "method"@,
            SymbolKind::Class => "class"@,
            SymbolKind::Struct => "struct"@,
            SymbolKind::Interface => "interface"@,
            SymbolKind::Enum => "enum"@,
            SymbolKind::Type => "type"@,
            SymbolKind::Variable => "variable"@,
            SymbolKind::Constant => "constant"@,
            SymbolKind::Module => "module"@,
            SymbolKind::Trait => "trait"@,
            SymbolKind::Heading => "heading"@,
        }
    }

    /// The word for the kind, in lowercase.
    pub fn as_str(&self) -> (r: &'static str)
        ensures
            r@ == self.word(),
    {
        match self {
            SymbolKind::Function => "function",
            SymbolKind::Method => "method",
            SymbolKind::Class => "class",
            SymbolKind::Struct => "struct",
            SymbolKind::Interface => "interface",
            SymbolKind::Enum => "enum",
            SymbolKind::Type => "type",
            SymbolKind::Variable => "variable",
            SymbolKind::Constant => "constant",
            SymbolKind::Module => "module",
            SymbolKind::Trait => "trait",
            SymbolKind::Heading => "heading",
        }
    }
}

/// The kind that a word in lowercase stands for.
pub open spec fn kind_of_word(word: Seq<char>) -> Option<SymbolKind> {
    if word == "function"@ {
        Some(SymbolKind::Function)
    } else if word == "method"@ {
        Some(SymbolKind::Method)
    } else if word == "class"@ {
        Some(SymbolKind::Class)
    } else if word == "struct"@ {
        Some(SymbolKind::Struct)
    } else if word == "interface"@ {
        Some(SymbolKind::Interface)
    } else if word == "enum"@ {
        Some(SymbolKind::Enum)
    } else if word == "type"@ {
        Some(SymbolKind::Type)
    } else if word == "variable"@ {
        Some(SymbolKind::Variable)
    } else if word == "constant"@ {
        Some(SymbolKind::Constant)
    } else if word == "module"@ {
        Some(SymbolKind::Module)
    } else if word == "trait"@ {
        Some(SymbolKind::Trait)
    } else if word == "heading"@ {
        Some(SymbolKind::Heading)
    } else {
        None
    }
}

impl SymbolKind {
    /// The kind that `word` stands for; `None` for a word that is the word
    /// of no kind.
    pub fn from_word(word: &str) -> (r: Option<SymbolKind>)
        ensures
            r == kind_of_word(word@),
    {
        if text_is(word, "function") {
            Some(SymbolKind::Function)
        } else if text_is(word, "method") {
            Some(SymbolKind::Method)
        } else if text_is(word, "class") {
            Some(SymbolKind::Class)
        } else if text_is(word, "struct") {
            Some(SymbolKind::Struct)
        } else if text_is(word, "interface") {
            Some(SymbolKind::Interface)
        } else if text_is(word, "enum") {
            Some(SymbolKind::Enum)
        } else if text_is(word, "type") {
            Some(SymbolKind::Type)
        } else if text_is(word, "variable") {
            Some(SymbolKind::Variable)
        } else if text_is(word, "constant") {
            Some(SymbolKind::Constant)
        } else if text_is(word, "module") {
            Some(SymbolKind::Module)
        } else if text_is(word, "trait") {
            Some(SymbolKind::Trait)
        } else if text_is(word, "heading") {
            Some(SymbolKind::Heading)
        } else {
            None
        }
    }
}

/// A named entity of a source file, with what it holds.
#[derive(Debug)]
pub struct Symbol {
    pub name: String,
    pub kind: SymbolKind,
    /// The declaration as it is shown to a reader.
    pub signature: String,
    pub docstring: Option<String>,
    /// The first line; lines count from 1.
    pub start_line: usize,
    /// The last line.
    pub end_line: usize,
    pub visibility: Visibility,
    /// The symbols that this one holds, such as the methods of a class.
    pub children: Vec<Symbol>,
}

/// What a symbol holds: the model of `Symbol`.
pub struct SymbolModel {
    pub name: Seq<char>,
    pub kind: SymbolKind,
    pub signature: Seq<char>,
    pub docstring: Option<Seq<char>>,
    pub start_line: usize,
    pub end_line: usize,
    pub visibility: Visibility,
    pub children: Seq<SymbolModel>,
}

/// The model of a symbol.
pub open spec fn model_of(s: Symbol) -> SymbolModel
    decreases s,
{
    SymbolModel {
        name: s.name@,
        kind: s.kind,
        signature: s.signature@,
        docstring: opt_text(s.docstring),
        start_line: s.start_line,
        end_line: s.end_line,
        visibility: s.visibility,
        children: Seq::new(
            s.children.len() as nat,
            |i: int|
                if 0 <= i < s.children.len() {
                    model_of(s.children[i])
                } else {
                    arbitrary()
                },
        ),
    }
}

/// The models of the symbols of `v`.
pub open spec fn models_of(v: Seq<Symbol>) -> Seq<SymbolModel> {
    Seq::new(v.len(), |i: int| model_of(v[i]))
}

/// The model of an optional symbol.
pub open spec fn opt_model(o: Option<Symbol>) -> Option<SymbolModel> {
    match o {
        Some(s) => Some(model_of(s)),
        None => None,
    }
}

/// An import of a source file.
#[derive(Debug, Clone)]
pub struct Import {
    pub module: String,
    /// The names that are imported from the module.
    pub names: Vec<String>,
    pub alias: Option<String>,
    pub is_wildcard: bool,
    pub is_relative: bool,
    pub line: usize,
}

/// What an import holds: the model of `Import`.
pub struct ImportModel {
    pub module: Seq<char>,
    pub names: Seq<Seq<char>>,
    pub alias: Option<Seq<char>>,
    pub is_wildcard: bool,
    pub is_relative: bool,
    pub line: usize,
}

impl View for Import {
    type V = ImportModel;

    open spec fn view(&self) -> ImportModel {
        ImportModel {
            module: self.module@,
            names: crate::text::texts(self.names@),
            alias: opt_text(self.alias),
            is_wildcard: self.is_wildcard,
            is_relative: self.is_relative,
            line: self.line,
        }
    }
}

/// The models of the imports of `v`.
pub open spec fn import_views(v: Seq<Import>) -> Seq<ImportModel> {
    v.map_values(|i: Import| i@)
}

/// A symbol that a source file shows to other files.
#[derive(Debug, Clone)]
pub struct Export {
    pub name: String,
    pub kind: SymbolKind,
    pub line: usize,
}

/// What an export holds: the model of `Export`.
pub struct ExportModel {
    pub name: Seq<char>,
    pub kind: SymbolKind,
    pub line: usize,
}

impl View for Export {
    type V = ExportModel;

    open spec fn view(&self) -> ExportModel {
        ExportModel { name: self.name@, kind: self.kind, line: self.line }
    }
}

/// The models of the exports of `v`.
pub open spec fn export_views(v: Seq<Export>) -> Seq<ExportModel> {
    v.map_values(|e: Export| e@)
}

/// A call that a source file makes.
#[derive(Debug, Clone)]
pub struct Call {
    /// The function or method that makes the call, if one does.
    pub caller: Option<String>,
    /// The name that is called.
    pub callee: String,
    /// The line of the call; lines count from 1.
    pub line: usize,
}

/// What a call holds: the model of `Call`.
pub struct CallModel {
    pub caller: Option<Seq<char>>,
    pub callee: Seq<char>,
    pub line: usize,
}

impl View for Call {
    type V = CallModel;

    open spec fn view(&self) -> CallModel {
        CallModel { caller: opt_text(self.caller), callee: self.callee@, line: self.line }
    }
}

/// The models of the calls of `v`.
pub open spec fn call_models(v: Seq<Call>) -> Seq<CallModel> {
    v.map_values(|c: Call| c@)
}

/// The texts of a list of words.
pub open spec fn words(v: Seq<&'static str>) -> Seq<Seq<char>> {
    v.map_values(|s: &'static str| s@)
}

/// What a language tells of its syntax.
pub trait LanguageSupport {
    /// The kinds of nodes that define functions.
    spec fn function_kind_list(&self) -> Seq<Seq<char>>;

    /// The kinds of nodes that hold other symbols.
    spec fn container_kind_list(&self) -> Seq<Seq<char>>;

    /// The kinds of nodes that define types.
    spec fn type_kind_list(&self) -> Seq<Seq<char>>;

    /// The kinds of nodes that import.
    spec fn import_kind_list(&self) -> Seq<Seq<char>>;

    /// The kinds of nodes that may show a symbol to other files.
    spec fn public_symbol_kind_list(&self) -> Seq<Seq<char>>;

    /// The function that `node` defines, if it defines one with a name.
    spec fn function_at(&self, node: SyntaxNode, in_container: bool) -> Option<SymbolModel>;

    /// The container that `node` defines, if it defines one with a name.
    spec fn container_at(&self, node: SyntaxNode) -> Option<SymbolModel>;

    /// The type that `node` defines, if it defines one with a name.
    spec fn type_at(&self, node: SyntaxNode) -> Option<SymbolModel>;

    /// The imports that `node` makes.
    spec fn imports_at(&self, node: SyntaxNode) -> Seq<ImportModel>;

    /// The symbols that `node` shows to other files.
    spec fn exports_at(&self, node: SyntaxNode) -> Seq<ExportModel>;

    /// Who may use what `node` defines.
    spec fn visibility_at(&self, node: SyntaxNode) -> Visibility;

    /// The name of the language.
    fn name(&self) -> &'static str;

    /// The file extensions of the language, without the dot.
    fn extensions(&self) -> Vec<&'static str>;

    /// The name of the grammar.
    fn grammar_name(&self) -> &'static str;

    /// The grammar that parses the language, where this library has one.
    fn grammar(&self) -> Option<Grammar>;

    /// The key under which packages of the language are indexed; empty
    /// where the language has none.
    fn lang_key(&self) -> &'static str;

    /// The kinds of nodes that hold other symbols.
    fn container_kinds(&self) -> (r: Vec<&'static str>)
        ensures
            words(r@) == self.container_kind_list(),
    ;

    /// The kinds of nodes that define functions.
    fn function_kinds(&self) -> (r: Vec<&'static str>)
        ensures
            words(r@) == self.function_kind_list(),
    ;

    /// The kinds of nodes that define types.
    fn type_kinds(&self) -> (r: Vec<&'static str>)
        ensures
            words(r@) == self.type_kind_list(),
    ;

    /// The kinds of nodes that import.
    fn import_kinds(&self) -> (r: Vec<&'static str>)
        ensures
            words(r@) == self.import_kind_list(),
    ;

    /// The kinds of nodes that may show a symbol to other files.
    fn public_symbol_kinds(&self) -> (r: Vec<&'static str>)
        ensures
            words(r@) == self.public_symbol_kind_list(),
    ;

    /// How the language tells what is visible.
    fn visibility_mechanism(&self) -> VisibilityMechanism;

    /// The kinds of nodes that open a scope.
    fn scope_creating_kinds(&self) -> Vec<&'static str>;

    /// The kinds of nodes that steer control flow.
    fn control_flow_kinds(&self) -> Vec<&'static str>;

    /// The kinds of nodes that add to the complexity of a function.
    fn complexity_nodes(&self) -> Vec<&'static str>;

    /// The kinds of nodes that add to the depth of nesting.
    fn nesting_nodes(&self) -> Vec<&'static str>;

    /// The function that `node` defines; `None` where it defines none with
    /// a name. The symbol holds no children yet.
    fn extract_function(&self, node: &SyntaxNode, in_container: bool) -> (r: Option<Symbol>)
        ensures
            opt_model(r) == self.function_at(*node, in_container),
            r is Some ==> r->0.children@.len() == 0,
    ;

    /// The container that `node` defines; `None` where it defines none with
    /// a name. The symbol holds no children yet.
    fn extract_container(&self, node: &SyntaxNode) -> (r: Option<Symbol>)
        ensures
            opt_model(r) == self.container_at(*node),
            r is Some ==> r->0.children@.len() == 0,
    ;

    /// The type that `node` defines; `None` where it defines none with a
    /// name.
    fn extract_type(&self, node: &SyntaxNode) -> (r: Option<Symbol>)
        ensures
            opt_model(r) == self.type_at(*node),
            r is Some ==> r->0.children@.len() == 0,
    ;

    /// The imports that `node` makes.
    fn extract_imports(&self, node: &SyntaxNode) -> (r: Vec<Import>)
        ensures
            import_views(r@) == self.imports_at(*node),
    ;

    /// The symbols that `node` shows to other files.
    fn extract_public_symbols(&self, node: &SyntaxNode) -> (r: Vec<Export>)
        ensures
            export_views(r@) == self.exports_at(*node),
    ;

    /// Who may use what `node` defines.
    fn get_visibility(&self, node: &SyntaxNode) -> (r: Visibility)
        ensures
            r == self.visibility_at(*node),
    ;

    /// Whether what `node` defines may be used from anywhere.
    fn is_public(&self, node: &SyntaxNode) -> (r: bool)
        ensures
            r == (self.visibility_at(*node) == Visibility::Public),
    ;
}

/// The text of the child that names `node`, if there is one.
pub open spec fn name_of(node: SyntaxNode) -> Option<Seq<char>> {
    node.field_text("name"@)
}

/// The text of the child that names `node`, if there is one.
pub fn node_name(node: &SyntaxNode) -> (r: Option<&String>)
    ensures
        r is Some == name_of(*node) is Some,
        r is Some ==> r->0@ == name_of(*node)->0,
{
    match node.child_by_field_name("name") {
        Some(n) => Some(&n.text),
        None => None,
    }
}

/// The text of the parameters of `node`, or `()` where it shows none.
pub open spec fn params_of(node: SyntaxNode) -> Seq<char> {
    match node.field_text("parameters"@) {
        Some(t) => t,
        None => "()"@,
    }
}

/// The text of the parameters of `node`, or `()`.
pub fn node_params(node: &SyntaxNode) -> (r: Vec<char>)
    ensures
        r@ == params_of(*node),
{
    match node.child_by_field_name("parameters") {
        Some(p) => chars_of(p.text.as_str()),
        None => chars_of("()"),
    }
}

/// A symbol without children and without a docstring.
pub open spec fn plain_symbol(
    node: SyntaxNode,
    name: Seq<char>,
    kind: SymbolKind,
    signature: Seq<char>,
    visibility: Visibility,
) -> SymbolModel {
    SymbolModel {
        name,
        kind,
        signature,
        docstring: None,
        start_line: node.start_line as usize,
        end_line: node.end_line as usize,
        visibility,
        children: Seq::empty(),
    }
}

/// A symbol without children and without a docstring.
pub fn make_symbol(
    node: &SyntaxNode,
    name: &Vec<char>,
    kind: SymbolKind,
    signature: &Vec<char>,
    visibility: Visibility,
) -> (r: Symbol)
    ensures
        model_of(r) == plain_symbol(*node, name@, kind, signature@, visibility),
        r.children@.len() == 0,
{
    let r = Symbol {
        name: string_of(name),
        kind,
        signature: string_of(signature),
        docstring: None,
        start_line: node.start_line as usize,
        end_line: node.end_line as usize,
        visibility,
        children: Vec::new(),
    };
    assert(model_of(r).children =~= Seq::<SymbolModel>::empty());
    r
}

/// The text of a word followed by `rest`.
pub fn prefixed(word: &str, rest: &Vec<char>) -> (r: Vec<char>)
    ensures
        r@ == word@ + rest@,
{
    let w = chars_of(word);
    crate::text::concat(&w, rest)
}

/// Function or method: a function is a method where a container holds it.
pub open spec fn callable_kind(in_container: bool) -> SymbolKind {
    if in_container {
        SymbolKind::Method
    } else {
        SymbolKind::Function
    }
}

/// Function or method.
pub fn kind_of_callable(in_container: bool) -> (k: SymbolKind)
    ensures
        k == callable_kind(in_container),
{
    if in_container {
        SymbolKind::Method
    } else {
        SymbolKind::Function
    }
}

/// Tests whether `kind` is one of `list`.
pub fn list_has(list: &Vec<&'static str>, kind: &str) -> (r: bool)
    ensures
        r == words(list@).contains(kind@),
{
    let mut i: usize = 0;
    while i < list.len()
        invariant
            i <= list.len(),
            forall|k: int| 0 <= k < i ==> words(list@)[k] != kind@,
        decreases list.len() - i,
    {
        assert(words(list@)[i as int] == list@[i as int]@);
        if text_is(list[i], kind) {
            return true;
        }
        i += 1;
    }
    false
}

/// `m` with `children` for its children.
pub open spec fn with_children(m: SymbolModel, children: Seq<SymbolModel>) -> SymbolModel {
    SymbolModel { children, ..m }
}

/// The symbols of a subtree in document order, each with the symbols it
/// holds. A node of a function kind, a container kind or a type kind, tried
/// in this order, gives the symbol that the language finds there; the
/// symbols below a function or a container become its children, and those
/// below a container are held by a container. Below a node that gives no
/// symbol, the search goes on.
pub open spec fn symbols_at<L: LanguageSupport>(lang: &L, node: SyntaxNode, in_container: bool) -> Seq<
    SymbolModel,
>
    decreases node, node.children.len() + 1,
{
    if lang.function_kind_list().contains(node.kind@) && lang.function_at(node, in_container)
        is Some {
        seq![
            with_children(
                lang.function_at(node, in_container)->0,
                symbols_below(lang, node, 0, false),
            ),
        ]
    } else if lang.container_kind_list().contains(node.kind@) && lang.container_at(node) is Some {
        seq![with_children(lang.container_at(node)->0, symbols_below(lang, node, 0, true))]
    } else if lang.type_kind_list().contains(node.kind@) && lang.type_at(node) is Some {
        seq![lang.type_at(node)->0]
    } else {
        symbols_below(lang, node, 0, in_container)
    }
}

/// The symbols of the children of a node from child `from` on.
pub open spec fn symbols_below<L: LanguageSupport>(
    lang: &L,
    node: SyntaxNode,
    from: int,
    in_container: bool,
) -> Seq<SymbolModel>
    decreases node, node.children.len() - from,
{
    if from < 0 || from >= node.children.len() {
        Seq::empty()
    } else {
        symbols_at(lang, node.children[from], in_container) + symbols_below(
            lang,
            node,
            from + 1,
            in_container,
        )
    }
}

/// The three lists of kinds that steer the search for symbols.
pub struct KindLists {
    pub functions: Vec<&'static str>,
    pub containers: Vec<&'static str>,
    pub types: Vec<&'static str>,
}

impl KindLists {
    /// Whether the lists are those of `lang`.
    pub open spec fn of<L: LanguageSupport>(&self, lang: &L) -> bool {
        &&& words(self.functions@) == lang.function_kind_list()
        &&& words(self.containers@) == lang.container_kind_list()
        &&& words(self.types@) == lang.type_kind_list()
    }
}

/// Puts `children` into a symbol that has none.
fn adopt(sym: Symbol, children: Vec<Symbol>) -> (r: Symbol)
    requires
        sym.children@.len() == 0,
    ensures
        model_of(r) == with_children(model_of(sym), models_of(children@)),
{
    let r = Symbol {
        name: sym.name,
        kind: sym.kind,
        signature: sym.signature,
        docstring: sym.docstring,
        start_line: sym.start_line,
        end_line: sym.end_line,
        visibility: sym.visibility,
        children,
    };
    assert(model_of(r).children =~= models_of(children@));
    r
}

/// Adds the symbols of a subtree to `out`.
fn collect_symbols<L: LanguageSupport>(
    lang: &L,
    lists: &KindLists,
    node: &SyntaxNode,
    in_container: bool,
    out: &mut Vec<Symbol>,
)
    requires
        lists.of(lang),
    ensures
        models_of(final(out)@) == models_of(old(out)@) + symbols_at(lang, *node, in_container),
    decreases node, node.children.len() + 1,
{
    let ghost start = models_of(out@);
    if list_has(&lists.functions, node.kind.as_str()) {
        match lang.extract_function(node, in_container) {
            Some(sym) => {
                let mut kids: Vec<Symbol> = Vec::new();
                assert(models_of(kids@) =~= Seq::<SymbolModel>::empty());
                collect_below(lang, lists, node, 0, false, &mut kids);
                assert(models_of(kids@) =~= symbols_below(lang, *node, 0, false));
                let whole = adopt(sym, kids);
                let ghost before = out@;
                out.push(whole);
                assert(models_of(out@) =~= models_of(before).push(model_of(whole)));
                assert(models_of(out@) =~= start + symbols_at(lang, *node, in_container));
                return ;
            },
            None => {},
        }
    }
    if list_has(&lists.containers, node.kind.as_str()) {
        match lang.extract_container(node) {
            Some(sym) => {
                let mut kids: Vec<Symbol> = Vec::new();
                assert(models_of(kids@) =~= Seq::<SymbolModel>::empty());
                collect_below(lang, lists, node, 0, true, &mut kids);
                assert(models_of(kids@) =~= symbols_below(lang, *node, 0, true));
                let whole = adopt(sym, kids);
                let ghost before = out@;
                out.push(whole);
                assert(models_of(out@) =~= models_of(before).push(model_of(whole)));
                assert(models_of(out@) =~= start + symbols_at(lang, *node, in_container));
                return ;
            },
            None => {},
        }
    }
    if list_has(&lists.types, node.kind.as_str()) {
        match lang.extract_type(node) {
            Some(sym) => {
                let ghost before = out@;
                out.push(sym);
                assert(models_of(out@) =~= models_of(before).push(model_of(sym)));
                assert(models_of(out@) =~= start + symbols_at(lang, *node, in_container));
                return ;
            },
            None => {},
        }
    }
    collect_below(lang, lists, node, 0, in_container, out);
}

/// Adds the symbols of the children of a node from `from` on to `out`.
fn collect_below<L: LanguageSupport>(
    lang: &L,
    lists: &KindLists,
    node: &SyntaxNode,
    from: usize,
    in_container: bool,
    out: &mut Vec<Symbol>,
)
    requires
        lists.of(lang),
    ensures
        models_of(final(out)@) == models_of(old(out)@) + symbols_below(
            lang,
            *node,
            from as int,
            in_container,
        ),
    decreases node, node.children.len() - from,
{
    let ghost start = models_of(out@);
    if from < node.children.len() {
        collect_symbols(lang, lists, &node.children[from], in_container, out);
        let ghost mid = models_of(out@);
        collect_below(lang, lists, node, from + 1, in_container, out);
        assert(models_of(out@) =~= start + symbols_below(lang, *node, from as int, in_container))
            by {
            assert(mid == start + symbols_at(lang, node.children[from as int], in_container));
            assert(models_of(out@) == mid + symbols_below(lang, *node, from + 1, in_container));
        }
    } else {
        assert(models_of(out@) =~= start + symbols_below(lang, *node, from as int, in_container));
    }
}

/// The symbols of a syntax tree, as `lang` reads it: in document order,
/// each with the symbols it holds.
pub fn extract_symbols<L: LanguageSupport>(lang: &L, tree: &SyntaxNode) -> (r: Vec<Symbol>)
    ensures
        models_of(r@) == symbols_at(lang, *tree, false),
{
    let lists = KindLists {
        functions: lang.function_kinds(),
        containers: lang.container_kinds(),
        types: lang.type_kinds(),
    };
    let mut out: Vec<Symbol> = Vec::new();
    assert(models_of(out@) =~= Seq::<SymbolModel>::empty());
    collect_symbols(lang, &lists, tree, false, &mut out);
    assert(models_of(out@) =~= symbols_at(lang, *tree, false));
    out
}

/// The imports of a subtree in document order: those that the language
/// finds at the nodes of an import kind; below such a node none is sought.
pub open spec fn imports_in<L: LanguageSupport>(lang: &L, node: SyntaxNode) -> Seq<ImportModel>
    decreases node, node.children.len() + 1,
{
    if lang.import_kind_list().contains(node.kind@) {
        lang.imports_at(node)
    } else {
        imports_below(lang, node, 0)
    }
}

/// The imports of the children of a node from child `from` on.
pub open spec fn imports_below<L: LanguageSupport>(lang: &L, node: SyntaxNode, from: int) -> Seq<
    ImportModel,
>
    decreases node, node.children.len() - from,
{
    if from < 0 || from >= node.children.len() {
        Seq::empty()
    } else {
        imports_in(lang, node.children[from]) + imports_below(lang, node, from + 1)
    }
}

/// Moves the imports of `more` behind those of `out`.
fn append_imports(out: &mut Vec<Import>, more: Vec<Import>)
    ensures
        import_views(final(out)@) == import_views(old(out)@) + import_views(more@),
{
    let ghost start = import_views(out@);
    let mut more = more;
    let ghost all = more@;
    out.append(&mut more);
    assert(import_views(out@) =~= start + import_views(all));
}

/// Adds the imports of a subtree to `out`.
fn collect_imports<L: LanguageSupport>(
    lang: &L,
    kinds: &Vec<&'static str>,
    node: &SyntaxNode,
    out: &mut Vec<Import>,
)
    requires
        words(kinds@) == lang.import_kind_list(),
    ensures
        import_views(final(out)@) == import_views(old(out)@) + imports_in(lang, *node),
    decreases node, node.children.len() + 1,
{
    if list_has(kinds, node.kind.as_str()) {
        let found = lang.extract_imports(node);
        append_imports(out, found);
    } else {
        collect_imports_below(lang, kinds, node, 0, out);
    }
}

/// Adds the imports of the children of a node from `from` on to `out`.
fn collect_imports_below<L: LanguageSupport>(
    lang: &L,
    kinds: &Vec<&'static str>,
    node: &SyntaxNode,
    from: usize,
    out: &mut Vec<Import>,
)
    requires
        words(kinds@) == lang.import_kind_list(),
    ensures
        import_views(final(out)@) == import_views(old(out)@) + imports_below(
            lang,
            *node,
            from as int,
        ),
    decreases node, node.children.len() - from,
{
    let ghost start = import_views(out@);
    if from < node.children.len() {
        collect_imports(lang, kinds, &node.children[from], out);
        let ghost mid = import_views(out@);
        collect_imports_below(lang, kinds, node, from + 1, out);
        assert(import_views(out@) =~= start + imports_below(lang, *node, from as int)) by {
            assert(mid == start + imports_in(lang, node.children[from as int]));
            assert(import_views(out@) == mid + imports_below(lang, *node, from + 1));
        }
    } else {
        assert(import_views(out@) =~= start + imports_below(lang, *node, from as int));
    }
}

/// The imports of a syntax tree, as `lang` reads it, in document order.
pub fn extract_all_imports<L: LanguageSupport>(lang: &L, tree: &SyntaxNode) -> (r: Vec<Import>)
    ensures
        import_views(r@) == imports_in(lang, *tree),
{
    let kinds = lang.import_kinds();
    let mut out: Vec<Import> = Vec::new();
    assert(import_views(out@) =~= Seq::<ImportModel>::empty());
    collect_imports(lang, &kinds, tree, &mut out);
    assert(import_views(out@) =~= imports_in(lang, *tree));
    out
}

/// The exports of a subtree in document order: those that the language
/// finds at the nodes of a public-symbol kind, and those below every node.
pub open spec fn exports_in<L: LanguageSupport>(lang: &L, node: SyntaxNode) -> Seq<ExportModel>
    decreases node, node.children.len() + 1,
{
    if lang.public_symbol_kind_list().contains(node.kind@) {
        lang.exports_at(node) + exports_below(lang, node, 0)
    } else {
        exports_below(lang, node, 0)
    }
}

/// The exports of the children of a node from child `from` on.
pub open spec fn exports_below<L: LanguageSupport>(lang: &L, node: SyntaxNode, from: int) -> Seq<
    ExportModel,
>
    decreases node, node.children.len() - from,
{
    if from < 0 || from >= node.children.len() {
        Seq::empty()
    } else {
        exports_in(lang, node.children[from]) + exports_below(lang, node, from + 1)
    }
}

/// Moves the exports of `more` behind those of `out`.
fn append_exports(out: &mut Vec<Export>, more: Vec<Export>)
    ensures
        export_views(final(out)@) == export_views(old(out)@) + export_views(more@),
{
    let ghost start = export_views(out@);
    let mut more = more;
    let ghost all = more@;
    out.append(&mut more);
    assert(export_views(out@) =~= start + export_views(all));
}

/// Adds the exports of a subtree to `out`.
fn collect_exports<L: LanguageSupport>(
    lang: &L,
    kinds: &Vec<&'static str>,
    node: &SyntaxNode,
    out: &mut Vec<Export>,
)
    requires
        words(kinds@) == lang.public_symbol_kind_list(),
    ensures
        export_views(final(out)@) == export_views(old(out)@) + exports_in(lang, *node),
    decreases node, node.children.len() + 1,
{
    let ghost start = export_views(out@);
    if list_has(kinds, node.kind.as_str()) {
        let found = lang.extract_public_symbols(node);
        append_exports(out, found);
    }
    let ghost mid = export_views(out@);
    collect_exports_below(lang, kinds, node, 0, out);
    assert(export_views(out@) =~= start + exports_in(lang, *node)) by {
        assert(export_views(out@) == mid + exports_below(lang, *node, 0));
    }
}

/// Adds the exports of the children of a node from `from` on to `out`.
fn collect_exports_below<L: LanguageSupport>(
    lang: &L,
    kinds: &Vec<&'static str>,
    node: &SyntaxNode,
    from: usize,
    out: &mut Vec<Export>,
)
    requires
        words(kinds@) == lang.public_symbol_kind_list(),
    ensures
        export_views(final(out)@) == export_views(old(out)@) + exports_below(
            lang,
            *node,
            from as int,
        ),
    decreases node, node.children.len() - from,
{
    let ghost start = export_views(out@);
    if from < node.children.len() {
        collect_exports(lang, kinds, &node.children[from], out);
        let ghost mid = export_views(out@);
        collect_exports_below(lang, kinds, node, from + 1, out);
        assert(export_views(out@) =~= start + exports_below(lang, *node, from as int)) by {
            assert(mid == start + exports_in(lang, node.children[from as int]));
            assert(export_views(out@) == mid + exports_below(lang, *node, from + 1));
        }
    } else {
        assert(export_views(out@) =~= start + exports_below(lang, *node, from as int));
    }
}

/// The exports of a syntax tree, as `lang` reads it, in document order.
pub fn extract_all_exports<L: LanguageSupport>(lang: &L, tree: &SyntaxNode) -> (r: Vec<Export>)
    ensures
        export_views(r@) == exports_in(lang, *tree),
{
    let kinds = lang.public_symbol_kinds();
    let mut out: Vec<Export> = Vec::new();
    assert(export_views(out@) =~= Seq::<ExportModel>::empty());
    collect_exports(lang, &kinds, tree, &mut out);
    assert(export_views(out@) =~= exports_in(lang, *tree));
    out
}

/// Whether a node of this kind is a call.
pub open spec fn is_call_kind(kind: Seq<char>) -> bool {
    kind == "call"@ || kind == "call_expression"@ || kind == "method_invocation"@
}

/// The text of the expression that a call node calls: its child `function`
/// or, without one, its child `name`.
pub open spec fn called_text(node: SyntaxNode) -> Option<Seq<char>> {
    if node.has_field("function"@) {
        Some(node.field_node("function"@).text@)
    } else {
        node.field_text("name"@)
    }
}

/// The name that a called expression names: what follows its last `::`
/// and, in that, its last `.`.
pub open spec fn callee_of(text: Seq<char>) -> Seq<char> {
    last_piece(last_piece(text, seq![':', ':']), seq!['.'])
}

/// The call that `node` makes by itself, where `caller` is the function
/// around it.
pub open spec fn own_call(node: SyntaxNode, caller: Option<Seq<char>>) -> Seq<CallModel> {
    if is_call_kind(node.kind@) && called_text(node) is Some {
        seq![
            CallModel {
                caller,
                callee: callee_of(called_text(node)->0),
                line: node.start_line as usize,
            },
        ]
    } else {
        Seq::empty()
    }
}

/// The function around the children of `node`: `node` itself where it
/// defines a function with a name, else the function around `node`.
pub open spec fn caller_below<L: LanguageSupport>(
    lang: &L,
    node: SyntaxNode,
    caller: Option<Seq<char>>,
) -> Option<Seq<char>> {
    if lang.function_kind_list().contains(node.kind@) && lang.function_at(node, false) is Some {
        Some(lang.function_at(node, false)->0.name)
    } else {
        caller
    }
}

/// The calls of a subtree in document order, each with the innermost
/// function around it.
pub open spec fn calls_in<L: LanguageSupport>(lang: &L, node: SyntaxNode, caller: Option<Seq<char>>) -> Seq<
    CallModel,
>
    decreases node, node.children.len() + 1,
{
    own_call(node, caller) + calls_below(lang, node, 0, caller_below(lang, node, caller))
}

/// The calls of the children of a node from child `from` on.
pub open spec fn calls_below<L: LanguageSupport>(
    lang: &L,
    node: SyntaxNode,
    from: int,
    caller: Option<Seq<char>>,
) -> Seq<CallModel>
    decreases node, node.children.len() - from,
{
    if from < 0 || from >= node.children.len() {
        Seq::empty()
    } else {
        calls_in(lang, node.children[from], caller) + calls_below(lang, node, from + 1, caller)
    }
}

/// The name that a called expression names.
pub fn callee_name(text: &str) -> (r: String)
    ensures
        r@ == callee_of(text@),
{
    let chars = chars_of(text);
    let mut colons: Vec<char> = Vec::new();
    colons.push(':');
    colons.push(':');
    assert(colons@ =~= seq![':', ':']);
    let mut dot: Vec<char> = Vec::new();
    dot.push('.');
    assert(dot@ =~= seq!['.']);
    let path_end = last_segment(&chars, &colons);
    let name = last_segment(&path_end, &dot);
    string_of(&name)
}

/// A copy of an optional string.
pub fn copy_opt(o: &Option<String>) -> (r: Option<String>)
    ensures
        r == *o,
{
    match o {
        Some(s) => Some(s.clone()),
        None => None,
    }
}

/// Adds the calls of a subtree to `out`.
fn collect_calls<L: LanguageSupport>(
    lang: &L,
    functions: &Vec<&'static str>,
    node: &SyntaxNode,
    caller: &Option<String>,
    out: &mut Vec<Call>,
)
    requires
        words(functions@) == lang.function_kind_list(),
    ensures
        call_models(final(out)@) == call_models(old(out)@) + calls_in(
            lang,
            *node,
            opt_text(*caller),
        ),
    decreases node, node.children.len() + 1,
{
    let ghost start = call_models(out@);
    let ghost cv = opt_text(*caller);
    let is_call = node.is_kind("call") || node.is_kind("call_expression") || node.is_kind(
        "method_invocation",
    );
    if is_call {
        let called = match node.child_by_field_name("function") {
            Some(f) => Some(f),
            None => node.child_by_field_name("name"),
        };
        match called {
            Some(f) => {
                out.push(
                    Call {
                        caller: copy_opt(caller),
                        callee: callee_name(f.text.as_str()),
                        line: node.start_line as usize,
                    },
                );
            },
            None => {},
        }
    }
    assert(call_models(out@) =~= start + own_call(*node, cv));
    let ghost mid = call_models(out@);
    let inner: Option<String> = if list_has(functions, node.kind.as_str()) {
        match lang.extract_function(node, false) {
            Some(sym) => Some(sym.name),
            None => copy_opt(caller),
        }
    } else {
        copy_opt(caller)
    };
    assert(opt_text(inner) == caller_below(lang, *node, cv));
    collect_calls_below(lang, functions, node, 0, &inner, out);
    assert(call_models(out@) =~= start + calls_in(lang, *node, cv)) by {
        assert(call_models(out@) == mid + calls_below(lang, *node, 0, opt_text(inner)));
    }
}

/// Adds the calls of the children of a node from `from` on to `out`.
fn collect_calls_below<L: LanguageSupport>(
    lang: &L,
    functions: &Vec<&'static str>,
    node: &SyntaxNode,
    from: usize,
    caller: &Option<String>,
    out: &mut Vec<Call>,
)
    requires
        words(functions@) == lang.function_kind_list(),
    ensures
        call_models(final(out)@) == call_models(old(out)@) + calls_below(
            lang,
            *node,
            from as int,
            opt_text(*caller),
        ),
    decreases node, node.children.len() - from,
{
    let ghost start = call_models(out@);
    let ghost cv = opt_text(*caller);
    if from < node.children.len() {
        collect_calls(lang, functions, &node.children[from], caller, out);
        let ghost mid = call_models(out@);
        collect_calls_below(lang, functions, node, from + 1, caller, out);
        assert(call_models(out@) =~= start + calls_below(lang, *node, from as int, cv)) by {
            assert(mid == start + calls_in(lang, node.children[from as int], cv));
            assert(call_models(out@) == mid + calls_below(lang, *node, from + 1, cv));
        }
    } else {
        assert(call_models(out@) =~= start + calls_below(lang, *node, from as int, cv));
    }
}

/// The calls of a syntax tree, as `lang` reads it, in document order: for
/// each call node the name that it calls, its line, and the innermost
/// function around it.
pub fn extract_calls<L: LanguageSupport>(lang: &L, tree: &SyntaxNode) -> (r: Vec<Call>)
    ensures
        call_models(r@) == calls_in(lang, *tree, None),
{
    let functions = lang.function_kinds();
    let mut out: Vec<Call> = Vec::new();
    let none: Option<String> = None;
    assert(call_models(out@) =~= Seq::<CallModel>::empty());
    collect_calls(lang, &functions, tree, &none, &mut out);
    assert(call_models(out@) =~= calls_in(lang, *tree, None));
    out
}


/// The position of the first node from `from` on whose kind is one of
/// `kinds`, or the number of nodes if there is none.
pub open spec fn first_of_kinds(nodes: Seq<SyntaxNode>, from: int, kinds: Seq<Seq<char>>) -> int
    decreases nodes.len() - from,
{
    if from < 0 || from >= nodes.len() {
        nodes.len() as int
    } else if kinds.contains(nodes[from].kind@) {
        from
    } else {
        first_of_kinds(nodes, from + 1, kinds)
    }
}

/// The position of the last of the first `n` nodes whose kind is one of
/// `kinds`, or -1 if there is none.
pub open spec fn last_of_kinds(nodes: Seq<SyntaxNode>, n: int, kinds: Seq<Seq<char>>) -> int
    decreases n,
{
    if n <= 0 {
        -1
    } else if kinds.contains(nodes[n - 1].kind@) {
        n - 1
    } else {
        last_of_kinds(nodes, n - 1, kinds)
    }
}

/// The first child of `node` whose kind is one of `kinds`.
pub fn first_child_of_kinds<'a>(node: &'a SyntaxNode, kinds: &Vec<&'static str>) -> (r: Option<
    &'a SyntaxNode,
>)
    ensures
        r is Some == (first_of_kinds(node.children@, 0, words(kinds@)) < node.children.len()),
        r is Some ==> *r->0 == node.children[first_of_kinds(node.children@, 0, words(kinds@))],
{
    let mut i: usize = 0;
    while i < node.children.len()
        invariant
            i <= node.children.len(),
            first_of_kinds(node.children@, 0, words(kinds@)) == first_of_kinds(
                node.children@,
                i as int,
                words(kinds@),
            ),
        decreases node.children.len() - i,
    {
        if list_has(kinds, node.children[i].kind.as_str()) {
            return Some(&node.children[i]);
        }
        i += 1;
    }
    None
}

/// The last child of `node` whose kind is one of `kinds`.
pub fn last_child_of_kinds<'a>(node: &'a SyntaxNode, kinds: &Vec<&'static str>) -> (r: Option<
    &'a SyntaxNode,
>)
    ensures
        r is Some == (last_of_kinds(node.children@, node.children.len() as int, words(kinds@))
            >= 0),
        r is Some ==> *r->0 == node.children[last_of_kinds(
            node.children@,
            node.children.len() as int,
            words(kinds@),
        )],
        last_of_kinds(node.children@, node.children.len() as int, words(kinds@))
            < node.children.len(),
{
    let mut i: usize = node.children.len();
    while i > 0
        invariant
            i <= node.children.len(),
            last_of_kinds(node.children@, node.children.len() as int, words(kinds@))
                == last_of_kinds(node.children@, i as int, words(kinds@)),
        decreases i,
    {
        if list_has(kinds, node.children[i - 1].kind.as_str()) {
            return Some(&node.children[i - 1]);
        }
        i -= 1;
    }
    None
}

/// An import without names.
pub open spec fn import_of(
    module: Seq<char>,
    names: Seq<Seq<char>>,
    alias: Option<Seq<char>>,
    is_wildcard: bool,
    is_relative: bool,
    line: usize,
) -> ImportModel {
    ImportModel { module, names, alias, is_wildcard, is_relative, line }
}

/// Makes an import.
pub fn make_import(
    module: &Vec<char>,
    names: Vec<String>,
    alias: Option<String>,
    is_wildcard: bool,
    is_relative: bool,
    line: usize,
) -> (r: Import)
    ensures
        r@ == import_of(
            module@,
            crate::text::texts(names@),
            opt_text(alias),
            is_wildcard,
            is_relative,
            line,
        ),
{
    Import { module: string_of(module), names, alias, is_wildcard, is_relative, line }
}

/// Makes an export.
pub fn make_export(name: &Vec<char>, kind: SymbolKind, line: usize) -> (r: Export)
    ensures
        r@ == (ExportModel { name: name@, kind, line }),
{
    Export { name: string_of(name), kind, line }
}

} // verus!
