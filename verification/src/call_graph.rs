//! The call graph of a project: for each source file its symbols, calls and
//! imports, and the queries over them.

use crate::languages::registry::{language_of_path, support_for_path, Extraction, ExtractionModel};
use crate::languages::{
    call_models, copy_opt, import_views, model_of, models_of, Call, CallModel, Import,
    ImportModel, Symbol, SymbolKind, SymbolModel,
};
use crate::ordering::{arranged, as_ints, key_views, sort_indices, sorted_indices, Key, SortKey};
use crate::path_resolve::{score, score_of};
use crate::syntax::{is_parse_of, opt_text, parse_source, parsed, SyntaxNode};
use crate::text::{chars_of, clamp, text_is};
use vstd::prelude::*;

verus! {

/// A symbol as the call graph stores it: without what it holds, but with
/// the name of the symbol that holds it.
#[derive(Debug, Clone)]
pub struct StoredSymbol {
    pub name: String,
    pub kind: SymbolKind,
    pub start_line: usize,
    pub end_line: usize,
    pub parent: Option<String>,
}

/// What a stored symbol holds: the model of `StoredSymbol`.
pub struct SymbolRow {
    pub name: Seq<char>,
    pub kind: SymbolKind,
    pub start_line: usize,
    pub end_line: usize,
    pub parent: Option<Seq<char>>,
}

impl View for StoredSymbol {
    type V = SymbolRow;

    open spec fn view(&self) -> SymbolRow {
        SymbolRow {
            name: self.name@,
            kind: self.kind,
            start_line: self.start_line,
            end_line: self.end_line,
            parent: opt_text(self.parent),
        }
    }
}

/// The models of the stored symbols of `v`.
pub open spec fn symbol_rows(v: Seq<StoredSymbol>) -> Seq<SymbolRow> {
    v.map_values(|s: StoredSymbol| s@)
}

/// What the call graph knows of one source file.
#[derive(Debug)]
pub struct FileFacts {
    pub path: String,
    /// The modification time of the file when it was read.
    pub mtime: i64,
    pub symbols: Vec<StoredSymbol>,
    pub calls: Vec<Call>,
    pub imports: Vec<Import>,
}

/// What the call graph knows of one source file: the model of `FileFacts`.
pub struct FactsModel {
    pub path: Seq<char>,
    pub mtime: i64,
    pub symbols: Seq<SymbolRow>,
    pub calls: Seq<CallModel>,
    pub imports: Seq<ImportModel>,
}

impl View for FileFacts {
    type V = FactsModel;

    open spec fn view(&self) -> FactsModel {
        FactsModel {
            path: self.path@,
            mtime: self.mtime,
            symbols: symbol_rows(self.symbols@),
            calls: call_models(self.calls@),
            imports: import_views(self.imports@),
        }
    }
}

/// The models of the facts of `v`.
pub open spec fn facts_views(v: Seq<FileFacts>) -> Seq<FactsModel> {
    v.map_values(|f: FileFacts| f@)
}

/// A source file to read.
#[derive(Debug, Clone)]
pub struct SourceFile {
    pub path: String,
    pub mtime: i64,
    pub content: String,
}

/// A place that calls a symbol.
#[derive(Debug, Clone)]
pub struct Caller {
    pub file: String,
    /// The function or method that makes the call, if one does.
    pub symbol: Option<String>,
    pub line: usize,
}

/// What a caller holds: the model of `Caller`.
pub struct CallerModel {
    pub file: Seq<char>,
    pub symbol: Option<Seq<char>>,
    pub line: usize,
}

impl View for Caller {
    type V = CallerModel;

    open spec fn view(&self) -> CallerModel {
        CallerModel { file: self.file@, symbol: opt_text(self.symbol), line: self.line }
    }
}

/// The models of the callers of `v`.
pub open spec fn caller_views(v: Seq<Caller>) -> Seq<CallerModel> {
    v.map_values(|c: Caller| c@)
}

/// A symbol that a query found.
#[derive(Debug, Clone)]
pub struct SymbolMatch {
    pub name: String,
    pub kind: SymbolKind,
    pub file: String,
    pub start_line: usize,
    pub end_line: usize,
    pub parent: Option<String>,
    /// How well the name matches: the largest score for the name itself.
    pub score: u32,
}

/// What a found symbol holds: the model of `SymbolMatch`.
pub struct SymbolMatchModel {
    pub name: Seq<char>,
    pub kind: SymbolKind,
    pub file: Seq<char>,
    pub start_line: usize,
    pub end_line: usize,
    pub parent: Option<Seq<char>>,
    pub score: u32,
}

impl View for SymbolMatch {
    type V = SymbolMatchModel;

    open spec fn view(&self) -> SymbolMatchModel {
        SymbolMatchModel {
            name: self.name@,
            kind: self.kind,
            file: self.file@,
            start_line: self.start_line,
            end_line: self.end_line,
            parent: opt_text(self.parent),
            score: self.score,
        }
    }
}

/// The models of the found symbols of `v`.
pub open spec fn symbol_match_views(v: Seq<SymbolMatch>) -> Seq<SymbolMatchModel> {
    v.map_values(|m: SymbolMatch| m@)
}

/// Why a query gave no answer.
#[derive(Debug, Clone, Copy, PartialEq, Eq, Structural)]
pub enum QueryError {
    /// The call graph holds no file yet: it has to be built first.
    EmptyIndex,
}

/// The rows of a symbol and of all that it holds, in document order; what
/// a symbol holds names it as its parent.
pub open spec fn rows_of_symbol(m: SymbolModel, parent: Option<Seq<char>>) -> Seq<SymbolRow>
    decreases m, 0nat,
{
    seq![
        SymbolRow {
            name: m.name,
            kind: m.kind,
            start_line: m.start_line,
            end_line: m.end_line,
            parent,
        },
    ] + rows_of_symbols(m.children, m.children.len() as int, Some(m.name))
}

/// The rows of the first `n` symbols and of all that they hold.
pub open spec fn rows_of_symbols(ms: Seq<SymbolModel>, n: int, parent: Option<Seq<char>>) -> Seq<
    SymbolRow,
>
    decreases ms, n,
{
    if n <= 0 || n > ms.len() {
        Seq::empty()
    } else {
        rows_of_symbols(ms, n - 1, parent) + rows_of_symbol(ms[n - 1], parent)
    }
}

/// Adds the rows of a symbol and of all that it holds to `out`.
fn flatten_symbol(sym: &Symbol, parent: &Option<String>, out: &mut Vec<StoredSymbol>)
    ensures
        symbol_rows(final(out)@) == symbol_rows(old(out)@) + rows_of_symbol(
            model_of(*sym),
            opt_text(*parent),
        ),
    decreases sym,
{
    let ghost start = symbol_rows(out@);
    let ghost m = model_of(*sym);
    let row = StoredSymbol {
        name: sym.name.clone(),
        kind: sym.kind,
        start_line: sym.start_line,
        end_line: sym.end_line,
        parent: copy_opt(parent),
    };
    out.push(row);
    assert(symbol_rows(out@) =~= start.push(row@));
    let inner = Some(sym.name.clone());
    let ghost mid = symbol_rows(out@);
    let mut i: usize = 0;
    assert(mid =~= mid + rows_of_symbols(m.children, 0, Some(m.name)));
    while i < sym.children.len()
        invariant
            i <= sym.children.len(),
            m == model_of(*sym),
            m.children.len() == sym.children.len(),
            opt_text(inner) == Some(m.name),
            symbol_rows(out@) == mid + rows_of_symbols(m.children, i as int, Some(m.name)),
        decreases sym.children.len() - i,
    {
        flatten_symbol(&sym.children[i], &inner, out);
        assert(m.children[i as int] == model_of(sym.children[i as int]));
        assert(symbol_rows(out@) =~= mid + rows_of_symbols(m.children, i + 1, Some(m.name)));
        i += 1;
    }
    assert(symbol_rows(out@) =~= start + rows_of_symbol(m, opt_text(*parent)));
}

/// The rows of symbols and of all that they hold, in document order.
pub fn flatten_symbols(symbols: &Vec<Symbol>) -> (r: Vec<StoredSymbol>)
    ensures
        symbol_rows(r@) == rows_of_symbols(models_of(symbols@), symbols.len() as int, None),
{
    let mut out: Vec<StoredSymbol> = Vec::new();
    let none: Option<String> = None;
    let ghost ms = models_of(symbols@);
    let mut i: usize = 0;
    assert(symbol_rows(out@) =~= rows_of_symbols(ms, 0, None));
    while i < symbols.len()
        invariant
            i <= symbols.len(),
            ms == models_of(symbols@),
            none is None,
            symbol_rows(out@) == rows_of_symbols(ms, i as int, None),
        decreases symbols.len() - i,
    {
        flatten_symbol(&symbols[i], &none, &mut out);
        assert(ms[i as int] == model_of(symbols@[i as int]));
        i += 1;
    }
    out
}

/// What the call graph stores for a file with the given extraction.
pub open spec fn facts_of(path: Seq<char>, mtime: i64, extraction: ExtractionModel) -> FactsModel {
    FactsModel {
        path,
        mtime,
        symbols: rows_of_symbols(extraction.symbols, extraction.symbols.len() as int, None),
        calls: extraction.calls,
        imports: extraction.imports,
    }
}

/// The position of the first entry from `from` on for the file `path`, or
/// the number of entries if there is none.
pub open spec fn entry_position(entries: Seq<FactsModel>, from: int, path: Seq<char>) -> int
    decreases entries.len() - from,
{
    if from < 0 || from >= entries.len() {
        entries.len() as int
    } else if entries[from].path == path {
        from
    } else {
        entry_position(entries, from + 1, path)
    }
}

/// What is stored for the file `path`, if anything.
pub open spec fn entry_of(entries: Seq<FactsModel>, path: Seq<char>) -> Option<FactsModel> {
    let at = entry_position(entries, 0, path);
    if at < entries.len() {
        Some(entries[at])
    } else {
        None
    }
}

/// Those of the first `n` entries that are not for the file `path`.
pub open spec fn entries_without(entries: Seq<FactsModel>, n: int, path: Seq<char>) -> Seq<
    FactsModel,
>
    decreases n,
{
    if n <= 0 {
        Seq::empty()
    } else {
        let rest = entries_without(entries, n - 1, path);
        if entries[n - 1].path != path {
            rest.push(entries[n - 1])
        } else {
            rest
        }
    }
}

/// Whether no two entries are for one file.
pub open spec fn one_entry_each(entries: Seq<FactsModel>) -> bool {
    forall|i: int, j: int|
        0 <= i < j < entries.len() ==> (#[trigger] entries[i]).path != (#[trigger] entries[j]).path
}

/// Whether a file with the modification time `mtime` has to be read again:
/// nothing is stored for it, or what is stored is older.
pub open spec fn is_stale(entries: Seq<FactsModel>, path: Seq<char>, mtime: i64) -> bool {
    match entry_of(entries, path) {
        Some(e) => e.mtime < mtime,
        None => true,
    }
}

/// The number of symbols in the first `n` entries.
pub open spec fn total_symbols(entries: Seq<FactsModel>, n: int) -> nat
    decreases n,
{
    if n <= 0 {
        0
    } else {
        total_symbols(entries, n - 1) + entries[n - 1].symbols.len()
    }
}

/// The number of calls in the first `n` entries.
pub open spec fn total_calls(entries: Seq<FactsModel>, n: int) -> nat
    decreases n,
{
    if n <= 0 {
        0
    } else {
        total_calls(entries, n - 1) + entries[n - 1].calls.len()
    }
}

/// The number of imports in the first `n` entries.
pub open spec fn total_imports(entries: Seq<FactsModel>, n: int) -> nat
    decreases n,
{
    if n <= 0 {
        0
    } else {
        total_imports(entries, n - 1) + entries[n - 1].imports.len()
    }
}

/// The calls of `name` in one file, in document order.
pub open spec fn callers_in(file: FactsModel, n: int, name: Seq<char>) -> Seq<CallerModel>
    decreases n,
{
    if n <= 0 {
        Seq::empty()
    } else {
        let rest = callers_in(file, n - 1, name);
        let call = file.calls[n - 1];
        if call.callee == name {
            rest.push(CallerModel { file: file.path, symbol: call.caller, line: call.line })
        } else {
            rest
        }
    }
}

/// The calls of `name` in the first `n` files, file by file.
pub open spec fn callers_among(entries: Seq<FactsModel>, n: int, name: Seq<char>) -> Seq<
    CallerModel,
>
    decreases n,
{
    if n <= 0 {
        Seq::empty()
    } else {
        callers_among(entries, n - 1, name) + callers_in(
            entries[n - 1],
            entries[n - 1].calls.len() as int,
            name,
        )
    }
}

/// The keys that order callers by file, then by line.
pub open spec fn caller_keys(callers: Seq<CallerModel>) -> Seq<Key> {
    Seq::new(
        callers.len(),
        |i: int| (Key { rank: 0, text: callers[i].file, tie: callers[i].line as u64 }),
    )
}

/// The callers of `name`, ordered by file and then by line; callers of one
/// file and line keep the order in which they are stored.
pub open spec fn callers_of(entries: Seq<FactsModel>, name: Seq<char>) -> Seq<CallerModel> {
    let found = callers_among(entries, entries.len() as int, name);
    arranged(found, sorted_indices(caller_keys(found)))
}

/// The score of a symbol name for a query: the largest score for the name
/// itself; for any other name what the fuzzy matcher gives, if the query
/// is fuzzy.
pub open spec fn name_score(query: Seq<char>, name: Seq<char>, fuzzy: bool) -> Option<u32> {
    if name == query {
        Some(u32::MAX)
    } else if fuzzy {
        score_of(query, name)
    } else {
        None
    }
}

/// Whether a symbol is of the kind that a query asks for.
pub open spec fn kind_fits(kind: SymbolKind, wanted: Option<SymbolKind>) -> bool {
    match wanted {
        Some(k) => kind == k,
        None => true,
    }
}

/// The symbols of one file that a query finds, in document order.
pub open spec fn matches_in(
    file: FactsModel,
    n: int,
    query: Seq<char>,
    wanted: Option<SymbolKind>,
    fuzzy: bool,
) -> Seq<SymbolMatchModel>
    decreases n,
{
    if n <= 0 {
        Seq::empty()
    } else {
        let rest = matches_in(file, n - 1, query, wanted, fuzzy);
        let s = file.symbols[n - 1];
        if kind_fits(s.kind, wanted) && name_score(query, s.name, fuzzy) is Some {
            rest.push(
                SymbolMatchModel {
                    name: s.name,
                    kind: s.kind,
                    file: file.path,
                    start_line: s.start_line,
                    end_line: s.end_line,
                    parent: s.parent,
                    score: name_score(query, s.name, fuzzy)->0,
                },
            )
        } else {
            rest
        }
    }
}

/// The symbols of the first `n` files that a query finds, file by file.
pub open spec fn matches_among(
    entries: Seq<FactsModel>,
    n: int,
    query: Seq<char>,
    wanted: Option<SymbolKind>,
    fuzzy: bool,
) -> Seq<SymbolMatchModel>
    decreases n,
{
    if n <= 0 {
        Seq::empty()
    } else {
        matches_among(entries, n - 1, query, wanted, fuzzy) + matches_in(
            entries[n - 1],
            entries[n - 1].symbols.len() as int,
            query,
            wanted,
            fuzzy,
        )
    }
}

/// The keys that order found symbols by falling score, then by file.
pub open spec fn match_keys(found: Seq<SymbolMatchModel>) -> Seq<Key> {
    Seq::new(
        found.len(),
        |i: int| (Key { rank: (u32::MAX - found[i].score) as u64, text: found[i].file, tie: 0 }),
    )
}

/// What a query for symbols returns: the symbols found, ordered by falling
/// score and then by file, and cut after the first `limit`.
pub open spec fn symbols_found(
    entries: Seq<FactsModel>,
    query: Seq<char>,
    wanted: Option<SymbolKind>,
    fuzzy: bool,
    limit: usize,
) -> Seq<SymbolMatchModel> {
    let found = matches_among(entries, entries.len() as int, query, wanted, fuzzy);
    let sorted = arranged(found, sorted_indices(match_keys(found)));
    if sorted.len() > limit {
        sorted.take(limit as int)
    } else {
        sorted
    }
}

/// A copy of stored facts.
fn copy_facts(f: &FileFacts) -> (r: FileFacts)
    ensures
        r@ == f@,
{
    let mut symbols: Vec<StoredSymbol> = Vec::new();
    let mut i: usize = 0;
    while i < f.symbols.len()
        invariant
            i <= f.symbols.len(),
            symbols.len() == i,
            forall|k: int| 0 <= k < i ==> (#[trigger] symbols@[k])@ == f.symbols@[k]@,
        decreases f.symbols.len() - i,
    {
        let s = &f.symbols[i];
        symbols.push(
            StoredSymbol {
                name: s.name.clone(),
                kind: s.kind,
                start_line: s.start_line,
                end_line: s.end_line,
                parent: copy_opt(&s.parent),
            },
        );
        i += 1;
    }
    assert(symbol_rows(symbols@) =~= symbol_rows(f.symbols@));
    let mut calls: Vec<Call> = Vec::new();
    let mut i: usize = 0;
    while i < f.calls.len()
        invariant
            i <= f.calls.len(),
            calls.len() == i,
            forall|k: int| 0 <= k < i ==> (#[trigger] calls@[k])@ == f.calls@[k]@,
        decreases f.calls.len() - i,
    {
        let c = &f.calls[i];
        calls.push(Call { caller: copy_opt(&c.caller), callee: c.callee.clone(), line: c.line });
        i += 1;
    }
    assert(call_models(calls@) =~= call_models(f.calls@));
    let mut imports: Vec<Import> = Vec::new();
    let mut i: usize = 0;
    while i < f.imports.len()
        invariant
            i <= f.imports.len(),
            imports.len() == i,
            forall|k: int| 0 <= k < i ==> (#[trigger] imports@[k])@ == f.imports@[k]@,
        decreases f.imports.len() - i,
    {
        let m = &f.imports[i];
        let mut names: Vec<String> = Vec::new();
        let mut k: usize = 0;
        while k < m.names.len()
            invariant
                k <= m.names.len(),
                names.len() == k,
                forall|j: int| 0 <= j < k ==> (#[trigger] names@[j])@ == m.names@[j]@,
            decreases m.names.len() - k,
        {
            names.push(m.names[k].clone());
            k += 1;
        }
        assert(crate::text::texts(names@) =~= crate::text::texts(m.names@));
        imports.push(
            Import {
                module: m.module.clone(),
                names,
                alias: copy_opt(&m.alias),
                is_wildcard: m.is_wildcard,
                is_relative: m.is_relative,
                line: m.line,
            },
        );
        i += 1;
    }
    assert(import_views(imports@) =~= import_views(f.imports@));
    FileFacts { path: f.path.clone(), mtime: f.mtime, symbols, calls, imports }
}

/// Whether the file at `path` with the given content can be read: a
/// language has its extension, this library has a grammar for the language,
/// and the parser gives a tree for the content.
pub open spec fn can_be_read(path: Seq<char>, content: Seq<char>) -> bool {
    &&& language_of_path(path) is Some
    &&& language_of_path(path)->0.grammar_of() is Some
    &&& parsed(language_of_path(path)->0.grammar_of()->0, content) is Some
}

/// Whether `e` is what the language of the file at `path` finds in the
/// tree that parsing `content` gives.
pub open spec fn is_extraction_of(e: ExtractionModel, path: Seq<char>, content: Seq<char>) -> bool {
    &&& can_be_read(path, content)
    &&& exists|tree: SyntaxNode| #[trigger]
        is_parse_of(tree, language_of_path(path)->0.grammar_of()->0, content) && e
            == language_of_path(path)->0.extraction_of(tree)
}

/// What a file holds, as its language reads it: the language that the
/// extension of `path` selects parses `content` and extracts from the
/// tree. `None` where no language has the extension, where this library
/// has no grammar for the language, or where the parser gives no tree.
pub fn extract_file(path: &str, content: &str) -> (r: Option<Extraction>)
    ensures
        match r {
            Some(e) => is_extraction_of(e@, path@, content@),
            None => !can_be_read(path@, content@),
        },
{
    match support_for_path(path) {
        Some(language) => match language.grammar() {
            Some(grammar) => match parse_source(grammar, content) {
                Some(tree) => {
                    let r = language.extract(&tree);
                    assert(is_parse_of(tree, grammar, content@) && r@ == language.extraction_of(
                        tree,
                    ));
                    Some(r)
                },
                None => None,
            },
            None => None,
        },
        None => None,
    }
}

/// The call graph of one project.
pub struct CallGraph {
    files: Vec<FileFacts>,
}

impl CallGraph {
    /// What is stored, file by file, in the order in which the files were
    /// last read.
    pub closed spec fn entries(&self) -> Seq<FactsModel> {
        facts_views(self.files@)
    }

    /// The invariant of the call graph: each file has one entry.
    pub open spec fn valid(&self) -> bool {
        one_entry_each(self.entries())
    }

    /// A call graph that holds nothing.
    pub fn new() -> (r: CallGraph)
        ensures
            r.valid(),
            r.entries().len() == 0,
    {
        let r = CallGraph { files: Vec::new() };
        assert(r.entries() =~= Seq::<FactsModel>::empty());
        r
    }

    /// A call graph over facts that were stored earlier; `None` where two
    /// of them are for one file.
    pub fn from_facts(files: Vec<FileFacts>) -> (r: Option<CallGraph>)
        ensures
            r is Some == one_entry_each(facts_views(files@)),
            r is Some ==> r->0.valid() && r->0.entries() == facts_views(files@),
    {
        let ghost entries = facts_views(files@);
        let mut j: usize = 0;
        while j < files.len()
            invariant
                j <= files.len(),
                entries == facts_views(files@),
                forall|a: int, b: int|
                    0 <= a < b < j ==> (#[trigger] entries[a]).path != (#[trigger] entries[b]).path,
            decreases files.len() - j,
        {
            let mut i: usize = 0;
            while i < j
                invariant
                    i <= j < files.len(),
                    entries == facts_views(files@),
                    forall|a: int| 0 <= a < i ==> (#[trigger] entries[a]).path != entries[j as int].path,
                decreases j - i,
            {
                assert(entries[i as int] == files@[i as int]@);
                assert(entries[j as int] == files@[j as int]@);
                if text_is(files[i].path.as_str(), files[j].path.as_str()) {
                    return None;
                }
                i += 1;
            }
            j += 1;
        }
        Some(CallGraph { files })
    }

    /// The facts of the file at position `i` of the store.
    pub fn facts_at(&self, i: usize) -> (r: &FileFacts)
        requires
            i < self.entries().len(),
        ensures
            r@ == self.entries()[i as int],
    {
        &self.files[i]
    }

    /// Whether the call graph holds no file: it was never built, or built
    /// from nothing.
    pub fn is_empty(&self) -> (r: bool)
        ensures
            r == (self.entries().len() == 0),
    {
        self.files.len() == 0
    }

    /// The position of the entry for `path`, or the number of entries.
    fn position_of(&self, path: &str) -> (at: usize)
        ensures
            at == entry_position(self.entries(), 0, path@),
            at <= self.entries().len(),
    {
        let mut i: usize = 0;
        while i < self.files.len()
            invariant
                i <= self.files.len(),
                entry_position(self.entries(), 0, path@) == entry_position(
                    self.entries(),
                    i as int,
                    path@,
                ),
            decreases self.files.len() - i,
        {
            assert(self.entries()[i as int] == self.files@[i as int]@);
            if text_is(self.files[i].path.as_str(), path) {
                return i;
            }
            i += 1;
        }
        i
    }

    /// Whether the file `path`, last modified at `mtime`, has to be read
    /// again: nothing is stored for it, or what is stored is older.
    pub fn needs_update(&self, path: &str, mtime: i64) -> (r: bool)
        ensures
            r == is_stale(self.entries(), path@, mtime),
    {
        let at = self.position_of(path);
        if at < self.files.len() {
            assert(self.entries()[at as int] == self.files@[at as int]@);
            self.files[at].mtime < mtime
        } else {
            true
        }
    }

    /// Stores what `extraction` holds as the facts of the file `path`, in
    /// place of whatever was stored for it. The facts of other files stay
    /// as they are. Returns the numbers of symbols, calls and imports that
    /// were stored.
    pub fn replace_file(&mut self, path: &str, mtime: i64, extraction: Extraction) -> (r: (
        usize,
        usize,
        usize,
    ))
        requires
            old(self).valid(),
        ensures
            final(self).valid(),
            final(self).entries() == entries_without(
                old(self).entries(),
                old(self).entries().len() as int,
                path@,
            ).push(facts_of(path@, mtime, extraction@)),
            r.0 == facts_of(path@, mtime, extraction@).symbols.len(),
            r.1 == extraction@.calls.len(),
            r.2 == extraction@.imports.len(),
    {
        let ghost before = self.entries();
        let mut kept: Vec<FileFacts> = Vec::new();
        let mut i: usize = 0;
        assert(facts_views(kept@) =~= entries_without(before, 0, path@));
        while i < self.files.len()
            invariant
                i <= self.files.len(),
                before == self.entries(),
                facts_views(kept@) == entries_without(before, i as int, path@),
            decreases self.files.len() - i,
        {
            assert(before[i as int] == self.files@[i as int]@);
            if !text_is(self.files[i].path.as_str(), path) {
                let ghost so_far = facts_views(kept@);
                let copy = copy_facts(&self.files[i]);
                kept.push(copy);
                assert(facts_views(kept@) =~= so_far.push(copy@));
            }
            i += 1;
        }
        let symbols = flatten_symbols(&extraction.symbols);
        let counts = (symbols.len(), extraction.calls.len(), extraction.imports.len());
        let facts = FileFacts {
            path: path.to_owned(),
            mtime,
            symbols,
            calls: extraction.calls,
            imports: extraction.imports,
        };
        assert(facts@ == facts_of(path@, mtime, extraction@));
        let ghost so_far = facts_views(kept@);
        kept.push(facts);
        assert(facts_views(kept@) =~= so_far.push(facts@));
        proof {
            lemma_replace_keeps_valid(
                before,
                before.len() as int,
                path@,
                facts_of(path@, mtime, extraction@),
            );
        }
        self.files = kept;
        counts
    }

    /// Drops everything that is stored.
    pub fn clear(&mut self)
        ensures
            final(self).valid(),
            final(self).entries().len() == 0,
    {
        self.files = Vec::new();
        assert(self.entries() =~= Seq::<FactsModel>::empty());
    }

    /// Builds the call graph anew from `files`: drops what is stored, then
    /// reads every file that a language of this library can parse. Returns
    /// the numbers of symbols, calls and imports that were stored. Every
    /// entry of the result was read from one of `files`: it holds what the
    /// language of the file finds in the tree that parsing its content
    /// gives. Every file that can be read has such an entry: with nothing
    /// stored before, each file has to be read. The files are taken in one
    /// after the other, so that of two files with one path the later
    /// replaces the earlier; the numbers returned count what was read from
    /// every file, also what a later file replaced.
    pub fn refresh_call_graph(&mut self, files: &Vec<SourceFile>) -> (r: (usize, usize, usize))
        requires
            old(self).valid(),
        ensures
            final(self).valid(),
            forall|k: int|
                0 <= k < final(self).entries().len() ==> is_read_among(
                    files@,
                    files.len() as int,
                    #[trigger] final(self).entries()[k],
                ),
            source_paths_differ(files@) ==> r == (
                clamp(total_symbols(final(self).entries(), final(self).entries().len() as int)),
                clamp(total_calls(final(self).entries(), final(self).entries().len() as int)),
                clamp(total_imports(final(self).entries(), final(self).entries().len() as int)),
            ),
            stale_files_are_read(
                Seq::<FactsModel>::empty(),
                final(self).entries(),
                files@,
                files.len() as int,
            ),
            exists|read: Seq<Option<FactsModel>>| #[trigger]
                is_reading(Seq::<FactsModel>::empty(), files@, read, true) && final(self).entries()
                    == replayed(Seq::<FactsModel>::empty(), read, files.len() as int) && r
                    == clamped(read_counts(read, files.len() as int)),
    {
        self.clear();
        let ghost nothing = Seq::<FactsModel>::empty();
        let ghost mut read: Seq<Option<FactsModel>> = Seq::empty();
        let mut symbols: usize = 0;
        let mut calls: usize = 0;
        let mut imports: usize = 0;
        let mut i: usize = 0;
        while i < files.len()
            invariant
                i <= files.len(),
                self.valid(),
                forall|k: int|
                    0 <= k < self.entries().len() ==> is_read_among(
                        files@,
                        i as int,
                        #[trigger] self.entries()[k],
                    ),
                source_paths_differ(files@) ==> symbols == clamp(
                    total_symbols(self.entries(), self.entries().len() as int),
                ) && calls == clamp(total_calls(self.entries(), self.entries().len() as int))
                    && imports == clamp(
                    total_imports(self.entries(), self.entries().len() as int),
                ),
                nothing == Seq::<FactsModel>::empty(),
                stale_files_are_read(nothing, self.entries(), files@, i as int),
                read.len() == i,
                forall|k: int|
                    0 <= k < i ==> #[trigger] is_read_step(nothing, files@, read, k, true),
                self.entries() == replayed(nothing, read, i as int),
                (symbols, calls, imports) == clamped(read_counts(read, i as int)),
            decreases files.len() - i,
        {
            let file = &files[i];
            let ghost before = self.entries();
            match extract_file(file.path.as_str(), file.content.as_str()) {
                Some(extraction) => {
                    let ghost added = facts_of(file.path@, file.mtime, extraction@);
                    let (s, c, m) = self.replace_file(file.path.as_str(), file.mtime, extraction);
                    symbols = symbols.saturating_add(s);
                    calls = calls.saturating_add(c);
                    imports = imports.saturating_add(m);
                    proof {
                        assert(is_read_from(files@[i as int], added));
                        let kept = entries_without(before, before.len() as int, file.path@);
                        let from = lemma_kept_entries(before, before.len() as int, file.path@);
                        assert forall|k: int| 0 <= k < self.entries().len() implies is_read_among(
                            files@,
                            i + 1,
                            #[trigger] self.entries()[k],
                        ) by {
                            if k < kept.len() {
                                assert(self.entries()[k] == before[from[k]]);
                                lemma_read_among_more(files@, i as int, before[from[k]]);
                            }
                        }
                        if source_paths_differ(files@) {
                            assert forall|k: int| 0 <= k < before.len() implies (
                            #[trigger] before[k]).path != file.path@ by {
                                lemma_read_path(files@, i as int, before[k]);
                            }
                            lemma_nothing_to_drop(before, before.len() as int, file.path@);
                            lemma_totals_push(before, added);
                        }
                        lemma_step_replaced(nothing, before, files@, i as int, added);
                        lemma_replayed_same(nothing, read.push(Some(added)), read, i as int);
                        lemma_reading_goes_on(nothing, files@, read, Some(added), true);
                        read = read.push(Some(added));
                    }
                },
                None => {
                    proof {
                        lemma_step_unchanged(nothing, before, files@, i as int);
                        lemma_replayed_same(nothing, read.push(None), read, i as int);
                        lemma_reading_goes_on(nothing, files@, read, None, true);
                        read = read.push(None);
                    }
                    assert forall|k: int| 0 <= k < self.entries().len() implies is_read_among(
                        files@,
                        i + 1,
                        #[trigger] self.entries()[k],
                    ) by {
                        lemma_read_among_more(files@, i as int, self.entries()[k]);
                    }
                },
            }
            i += 1;
        }
        assert(is_reading(nothing, files@, read, true));
        (symbols, calls, imports)
    }

    /// Brings the call graph up to date with `files`: reads again each file
    /// for which nothing is stored or what is stored is older than the
    /// file, and leaves the facts of every other file as they are. After
    /// it, each file that had to be read again and can be read has an entry
    /// that was read from the files. The files are taken in one after the
    /// other, each against what the store holds by then. Returns the
    /// numbers of symbols, calls and imports that were read, file by file.
    pub fn incremental_call_graph_refresh(&mut self, files: &Vec<SourceFile>) -> (r: (
        usize,
        usize,
        usize,
    ))
        requires
            old(self).valid(),
        ensures
            final(self).valid(),
            forall|path: Seq<char>|
                is_fresh(old(self).entries(), files@, files.len() as int, path) ==> entry_of(
                    final(self).entries(),
                    path,
                ) == entry_of(old(self).entries(), path),
            forall|k: int|
                0 <= k < final(self).entries().len() ==> is_entry_of(
                    old(self).entries(),
                    #[trigger] final(self).entries()[k],
                ) || is_read_among(files@, files.len() as int, final(self).entries()[k]),
            stale_files_are_read(
                old(self).entries(),
                final(self).entries(),
                files@,
                files.len() as int,
            ),
            source_paths_differ(files@) ==> ({
                let read = new_counts(
                    old(self).entries(),
                    final(self).entries(),
                    final(self).entries().len() as int,
                );
                r == (clamp(read.0), clamp(read.1), clamp(read.2))
            }),
            exists|read: Seq<Option<FactsModel>>| #[trigger]
                is_reading(old(self).entries(), files@, read, false) && final(self).entries()
                    == replayed(old(self).entries(), read, files.len() as int) && r == clamped(
                    read_counts(read, files.len() as int),
                ),
    {
        let ghost start = self.entries();
        let ghost mut read: Seq<Option<FactsModel>> = Seq::empty();
        let mut symbols: usize = 0;
        let mut calls: usize = 0;
        let mut imports: usize = 0;
        let mut i: usize = 0;
        proof {
            lemma_no_new_counts(start, start, start.len() as int);
        }
        while i < files.len()
            invariant
                i <= files.len(),
                self.valid(),
                forall|path: Seq<char>|
                    is_fresh(start, files@, files.len() as int, path) ==> entry_of(
                        self.entries(),
                        path,
                    ) == entry_of(start, path),
                forall|k: int|
                    0 <= k < self.entries().len() ==> is_entry_of(
                        start,
                        #[trigger] self.entries()[k],
                    ) || is_read_among(files@, i as int, self.entries()[k]),
                one_entry_each(start),
                stale_files_are_read(start, self.entries(), files@, i as int),
                others_untouched(start, self.entries(), files@, i as int),
                source_paths_differ(files@) ==> ({
                    let fresh = new_counts(start, self.entries(), self.entries().len() as int);
                    symbols == clamp(fresh.0) && calls == clamp(fresh.1) && imports == clamp(
                        fresh.2,
                    )
                }),
                read.len() == i,
                forall|k: int|
                    0 <= k < i ==> #[trigger] is_read_step(start, files@, read, k, false),
                self.entries() == replayed(start, read, i as int),
                (symbols, calls, imports) == clamped(read_counts(read, i as int)),
            decreases files.len() - i,
        {
            let file = &files[i];
            let ghost known = self.entries();
            proof {
                assert forall|k: int| 0 <= k < known.len() implies is_entry_of(
                    start,
                    #[trigger] known[k],
                ) || is_read_among(files@, i + 1, known[k]) by {
                    if !is_entry_of(start, known[k]) {
                        lemma_read_among_more(files@, i as int, known[k]);
                    }
                }
            }
            if self.needs_update(file.path.as_str(), file.mtime) {
                match extract_file(file.path.as_str(), file.content.as_str()) {
                    Some(extraction) => {
                        let ghost before = self.entries();
                        let ghost added = facts_of(file.path@, file.mtime, extraction@);
                        let (s, c, m) = self.replace_file(
                            file.path.as_str(),
                            file.mtime,
                            extraction,
                        );
                        symbols = symbols.saturating_add(s);
                        calls = calls.saturating_add(c);
                        imports = imports.saturating_add(m);
                        proof {
                            assert(is_read_from(files@[i as int], added));
                            let kept = entries_without(before, before.len() as int, file.path@);
                            let from = lemma_kept_entries(
                                before,
                                before.len() as int,
                                file.path@,
                            );
                            assert forall|k: int| 0 <= k < self.entries().len() implies is_entry_of(
                                start,
                                #[trigger] self.entries()[k],
                            ) || is_read_among(files@, i + 1, self.entries()[k]) by {
                                if k < kept.len() {
                                    assert(self.entries()[k] == before[from[k]]);
                                }
                            }
                            assert forall|path: Seq<char>|
                                is_fresh(start, files@, files.len() as int, path) implies entry_of(
                                self.entries(),
                                path,
                            ) == entry_of(start, path) by {
                                assert(entry_of(before, path) == entry_of(start, path));
                                if path == file.path@ {
                                    lemma_fresh_is_not_stale(
                                        start,
                                        files@,
                                        files.len() as int,
                                        path,
                                        i as int,
                                    );
                                } else {
                                    lemma_replace_keeps_others(before, file.path@, added, path);
                                }
                            }
                            lemma_step_replaced(start, before, files@, i as int, added);
                            assert forall|path: Seq<char>|
                                (forall|j: int|
                                    0 <= j < i + 1 ==> (#[trigger] files@[j]).path@
                                        != path) implies #[trigger] entry_of(self.entries(), path)
                                == entry_of(start, path) by {
                                assert(files@[i as int].path@ != path);
                                assert(forall|j: int|
                                    0 <= j < i ==> (#[trigger] files@[j]).path@ != path);
                                assert(entry_of(before, path) == entry_of(start, path));
                                lemma_replace_keeps_others(before, file.path@, added, path);
                            }
                            if source_paths_differ(files@) {
                                assert(forall|j: int|
                                    0 <= j < i ==> (#[trigger] files@[j]).path@ != file.path@);
                                assert(entry_of(before, file.path@) == entry_of(start, file.path@));
                                if is_entry_of(start, added) {
                                    lemma_entry_known(start, added);
                                    assert(false);
                                }
                                assert forall|k: int|
                                    0 <= k < before.len() && (#[trigger] before[k]).path
                                        == added.path implies is_entry_of(start, before[k]) by {
                                    if !is_entry_of(start, before[k]) {
                                        lemma_read_path(files@, i as int, before[k]);
                                    }
                                }
                                lemma_new_counts_replaced(start, before, added);
                            }
                            lemma_replayed_same(start, read.push(Some(added)), read, i as int);
                            lemma_reading_goes_on(start, files@, read, Some(added), false);
                            read = read.push(Some(added));
                        }
                    },
                    None => {
                        proof {
                            lemma_step_unchanged(start, known, files@, i as int);
                            lemma_replayed_same(start, read.push(None), read, i as int);
                            lemma_reading_goes_on(start, files@, read, None, false);
                            read = read.push(None);
                        }
                    },
                }
            } else {
                proof {
                    lemma_step_unchanged(start, known, files@, i as int);
                    lemma_replayed_same(start, read.push(None), read, i as int);
                    lemma_reading_goes_on(start, files@, read, None, false);
                    read = read.push(None);
                }
            }
            i += 1;
        }
        assert(is_reading(start, files@, read, false));
        (symbols, calls, imports)
    }

    /// The places that call `symbol`, ordered by file and then by line.
    /// Fails with `EmptyIndex` exactly if the call graph holds no file.
    pub fn find_callers(&self, symbol: &str) -> (r: Result<Vec<Caller>, QueryError>)
        ensures
            self.entries().len() == 0 ==> r == Err::<Vec<Caller>, QueryError>(
                QueryError::EmptyIndex,
            ),
            self.entries().len() > 0 ==> r is Ok && caller_views(r->Ok_0@) == callers_of(
                self.entries(),
                symbol@,
            ),
    {
        if self.files.len() == 0 {
            return Err(QueryError::EmptyIndex);
        }
        let ghost entries = self.entries();
        let mut found: Vec<Caller> = Vec::new();
        let mut keys: Vec<SortKey> = Vec::new();
        let mut i: usize = 0;
        assert(caller_views(found@) =~= callers_among(entries, 0, symbol@));
        while i < self.files.len()
            invariant
                i <= self.files.len(),
                entries == self.entries(),
                keys.len() == found.len(),
                caller_views(found@) == callers_among(entries, i as int, symbol@),
                forall|k: int|
                    0 <= k < keys.len() ==> (#[trigger] keys@[k])@ == caller_keys(
                        caller_views(found@),
                    )[k],
            decreases self.files.len() - i,
        {
            let file = &self.files[i];
            assert(entries[i as int] == file@);
            let ghost base = caller_views(found@);
            let mut k: usize = 0;
            assert(caller_views(found@) =~= base + callers_in(file@, 0, symbol@));
            while k < file.calls.len()
                invariant
                    k <= file.calls.len(),
                    keys.len() == found.len(),
                    caller_views(found@) == base + callers_in(file@, k as int, symbol@),
                    forall|j: int|
                        0 <= j < keys.len() ==> (#[trigger] keys@[j])@ == caller_keys(
                            caller_views(found@),
                        )[j],
                decreases file.calls.len() - k,
            {
                let call = &file.calls[k];
                assert(file@.calls[k as int] == call@);
                if text_is(call.callee.as_str(), symbol) {
                    let ghost so_far = caller_views(found@);
                    let ghost old_keys = keys@;
                    let caller = Caller {
                        file: file.path.clone(),
                        symbol: copy_opt(&call.caller),
                        line: call.line,
                    };
                    let key = SortKey {
                        rank: 0,
                        text: chars_of(file.path.as_str()),
                        tie: call.line as u64,
                    };
                    found.push(caller);
                    keys.push(key);
                    assert(caller_views(found@) =~= so_far.push(caller@));
                    assert forall|j: int| 0 <= j < keys.len() implies (#[trigger] keys@[j])@
                        == caller_keys(caller_views(found@))[j] by {
                        if j < old_keys.len() {
                            assert(old_keys[j]@ == caller_keys(so_far)[j]);
                        }
                    }
                }
                k += 1;
            }
            i += 1;
        }
        assert(key_views(keys@) =~= caller_keys(caller_views(found@)));
        let order = sort_indices(&keys);
        let ghost views = caller_views(found@);
        let mut out: Vec<Caller> = Vec::new();
        let mut k: usize = 0;
        while k < order.len()
            invariant
                k <= order.len(),
                out.len() == k,
                order.len() == found.len(),
                views == caller_views(found@),
                forall|i: int| 0 <= i < order.len() ==> 0 <= #[trigger] order@[i] < found.len(),
                forall|j: int|
                    0 <= j < k ==> (#[trigger] out@[j])@ == views[as_ints(order@)[j]],
            decreases order.len() - k,
        {
            let c = &found[order[k]];
            assert(as_ints(order@)[k as int] == order@[k as int] as int);
            assert(views[order@[k as int] as int] == c@);
            out.push(Caller { file: c.file.clone(), symbol: copy_opt(&c.symbol), line: c.line });
            k += 1;
        }
        assert(caller_views(out@) =~= arranged(views, as_ints(order@)));
        Ok(out)
    }

    /// The symbols whose name matches `name`: the name itself, or with
    /// `fuzzy` any name that the fuzzy matcher accepts. With `kind`, only
    /// symbols of that kind. The result is ordered by falling score and
    /// then by file, and holds at most `limit` symbols. Fails with
    /// `EmptyIndex` exactly if the call graph holds no file.
    pub fn find_symbols(&self, name: &str, kind: Option<SymbolKind>, fuzzy: bool, limit: usize) -> (r:
        Result<Vec<SymbolMatch>, QueryError>)
        ensures
            self.entries().len() == 0 ==> r == Err::<Vec<SymbolMatch>, QueryError>(
                QueryError::EmptyIndex,
            ),
            self.entries().len() > 0 ==> r is Ok && symbol_match_views(r->Ok_0@) == symbols_found(
                self.entries(),
                name@,
                kind,
                fuzzy,
                limit,
            ),
    {
        if self.files.len() == 0 {
            return Err(QueryError::EmptyIndex);
        }
        let ghost entries = self.entries();
        let mut found: Vec<SymbolMatch> = Vec::new();
        let mut keys: Vec<SortKey> = Vec::new();
        let mut i: usize = 0;
        assert(symbol_match_views(found@) =~= matches_among(entries, 0, name@, kind, fuzzy));
        while i < self.files.len()
            invariant
                i <= self.files.len(),
                entries == self.entries(),
                keys.len() == found.len(),
                symbol_match_views(found@) == matches_among(entries, i as int, name@, kind, fuzzy),
                forall|k: int|
                    0 <= k < keys.len() ==> (#[trigger] keys@[k])@ == match_keys(
                        symbol_match_views(found@),
                    )[k],
            decreases self.files.len() - i,
        {
            let file = &self.files[i];
            assert(entries[i as int] == file@);
            let ghost base = symbol_match_views(found@);
            let mut k: usize = 0;
            assert(symbol_match_views(found@) =~= base + matches_in(file@, 0, name@, kind, fuzzy));
            while k < file.symbols.len()
                invariant
                    k <= file.symbols.len(),
                    keys.len() == found.len(),
                    symbol_match_views(found@) == base + matches_in(
                        file@,
                        k as int,
                        name@,
                        kind,
                        fuzzy,
                    ),
                    forall|j: int|
                        0 <= j < keys.len() ==> (#[trigger] keys@[j])@ == match_keys(
                            symbol_match_views(found@),
                        )[j],
                decreases file.symbols.len() - k,
            {
                let s = &file.symbols[k];
                assert(file@.symbols[k as int] == s@);
                let fits = match kind {
                    Some(wanted) => s.kind == wanted,
                    None => true,
                };
                if fits {
                    let scored: Option<u32> = if text_is(s.name.as_str(), name) {
                        Some(u32::MAX)
                    } else if fuzzy {
                        score(name, s.name.as_str())
                    } else {
                        None
                    };
                    match scored {
                        Some(score) => {
                            let ghost so_far = symbol_match_views(found@);
                            let ghost old_keys = keys@;
                            let m = SymbolMatch {
                                name: s.name.clone(),
                                kind: s.kind,
                                file: file.path.clone(),
                                start_line: s.start_line,
                                end_line: s.end_line,
                                parent: copy_opt(&s.parent),
                                score,
                            };
                            let key = SortKey {
                                rank: (u32::MAX - score) as u64,
                                text: chars_of(file.path.as_str()),
                                tie: 0,
                            };
                            found.push(m);
                            keys.push(key);
                            assert(symbol_match_views(found@) =~= so_far.push(m@));
                            assert forall|j: int| 0 <= j < keys.len() implies (
                            #[trigger] keys@[j])@ == match_keys(symbol_match_views(found@))[j] by {
                                if j < old_keys.len() {
                                    assert(old_keys[j]@ == match_keys(so_far)[j]);
                                }
                            }
                        },
                        None => {},
                    }
                }
                k += 1;
            }
            i += 1;
        }
        assert(key_views(keys@) =~= match_keys(symbol_match_views(found@)));
        let order = sort_indices(&keys);
        let ghost views = symbol_match_views(found@);
        let ghost sorted = arranged(views, as_ints(order@));
        let count: usize = if order.len() > limit {
            limit
        } else {
            order.len()
        };
        let mut out: Vec<SymbolMatch> = Vec::new();
        let mut k: usize = 0;
        while k < count
            invariant
                k <= count <= order.len(),
                out.len() == k,
                order.len() == found.len(),
                views == symbol_match_views(found@),
                sorted == arranged(views, as_ints(order@)),
                forall|i: int| 0 <= i < order.len() ==> 0 <= #[trigger] order@[i] < found.len(),
                forall|j: int| 0 <= j < k ==> (#[trigger] out@[j])@ == sorted[j],
            decreases count - k,
        {
            let m = &found[order[k]];
            assert(as_ints(order@)[k as int] == order@[k as int] as int);
            assert(views[order@[k as int] as int] == m@);
            out.push(
                SymbolMatch {
                    name: m.name.clone(),
                    kind: m.kind,
                    file: m.file.clone(),
                    start_line: m.start_line,
                    end_line: m.end_line,
                    parent: copy_opt(&m.parent),
                    score: m.score,
                },
            );
            k += 1;
        }
        assert(symbol_match_views(out@) =~= if sorted.len() > limit {
            sorted.take(limit as int)
        } else {
            sorted
        });
        Ok(out)
    }

    /// The numbers of symbols, calls and imports that are stored; a number
    /// that passes the largest `usize` is given as that.
    pub fn call_graph_stats(&self) -> (r: (usize, usize, usize))
        ensures
            r.0 == clamp(total_symbols(self.entries(), self.entries().len() as int)),
            r.1 == clamp(total_calls(self.entries(), self.entries().len() as int)),
            r.2 == clamp(total_imports(self.entries(), self.entries().len() as int)),
    {
        let ghost entries = self.entries();
        let mut symbols: usize = 0;
        let mut calls: usize = 0;
        let mut imports: usize = 0;
        let mut i: usize = 0;
        while i < self.files.len()
            invariant
                i <= self.files.len(),
                entries == self.entries(),
                symbols == clamp(total_symbols(entries, i as int)),
                calls == clamp(total_calls(entries, i as int)),
                imports == clamp(total_imports(entries, i as int)),
            decreases self.files.len() - i,
        {
            assert(entries[i as int] == self.files@[i as int]@);
            assert(symbol_rows(self.files@[i as int].symbols@).len()
                == self.files@[i as int].symbols.len());
            assert(call_models(self.files@[i as int].calls@).len()
                == self.files@[i as int].calls.len());
            assert(import_views(self.files@[i as int].imports@).len()
                == self.files@[i as int].imports.len());
            symbols = symbols.saturating_add(self.files[i].symbols.len());
            calls = calls.saturating_add(self.files[i].calls.len());
            imports = imports.saturating_add(self.files[i].imports.len());
            i += 1;
        }
        (symbols, calls, imports)
    }

    /// The number of files that the call graph holds.
    pub fn file_count(&self) -> (n: usize)
        ensures
            n == self.entries().len(),
    {
        self.files.len()
    }
}

/// Whether `e` is what the language of `file` finds in the tree that
/// parsing its content gives, stored for the file with its modification
/// time.
pub open spec fn is_read_from(file: SourceFile, e: FactsModel) -> bool {
    &&& can_be_read(file.path@, file.content@)
    &&& exists|tree: SyntaxNode| #[trigger]
        is_parse_of(tree, language_of_path(file.path@)->0.grammar_of()->0, file.content@) && e
            == facts_of(
            file.path@,
            file.mtime,
            language_of_path(file.path@)->0.extraction_of(tree),
        )
}

/// Whether `e` was read from one of the first `n` files.
pub open spec fn is_read_among(files: Seq<SourceFile>, n: int, e: FactsModel) -> bool {
    exists|i: int| 0 <= i < n && is_read_from(#[trigger] files[i], e)
}

/// Whether `e` is one of `entries`.
pub open spec fn is_entry_of(entries: Seq<FactsModel>, e: FactsModel) -> bool {
    exists|i: int| 0 <= i < entries.len() && #[trigger] entries[i] == e
}

/// Whether what is stored for `path` is no older than any of the first `n`
/// files that have this path.
pub open spec fn is_fresh(entries: Seq<FactsModel>, files: Seq<SourceFile>, n: int, path: Seq<char>) -> bool {
    forall|i: int| 0 <= i < n && (#[trigger] files[i]).path@ == path ==> !is_stale(entries, path, files[i].mtime)
}

/// Whether no two of the files have one path.
pub open spec fn source_paths_differ(files: Seq<SourceFile>) -> bool {
    forall|i: int, j: int|
        0 <= i < j < files.len() ==> (#[trigger] files[i]).path@ != (#[trigger] files[j]).path@
}

/// Whether something is stored for the file `path` that was read from one
/// of the first `n` files.
pub open spec fn holds_read_entry(
    entries: Seq<FactsModel>,
    files: Seq<SourceFile>,
    n: int,
    path: Seq<char>,
) -> bool {
    entry_of(entries, path) is Some && is_read_among(files, n, entry_of(entries, path)->0)
}

/// Whether each of the first `n` files that had to be read again when the
/// store held `start`, and that can be read, now has an entry that was read
/// from one of these files.
pub open spec fn stale_files_are_read(
    start: Seq<FactsModel>,
    entries: Seq<FactsModel>,
    files: Seq<SourceFile>,
    n: int,
) -> bool {
    forall|i: int|
        0 <= i < n && is_stale(start, (#[trigger] files[i]).path@, files[i].mtime) && can_be_read(
            files[i].path@,
            files[i].content@,
        ) ==> holds_read_entry(entries, files, n, files[i].path@)
}

/// The search for the entry of a file ends on the first entry for the
/// file, or behind the last entry.
pub proof fn lemma_position_found(entries: Seq<FactsModel>, from: int, path: Seq<char>)
    requires
        0 <= from <= entries.len(),
    ensures
        from <= entry_position(entries, from, path) <= entries.len(),
        entry_position(entries, from, path) < entries.len() ==> entries[entry_position(
            entries,
            from,
            path,
        )].path == path,
        forall|k: int|
            from <= k < entry_position(entries, from, path) ==> (#[trigger] entries[k]).path
                != path,
    decreases entries.len() - from,
{
    if from < entries.len() && entries[from].path != path {
        lemma_position_found(entries, from + 1, path);
    }
}

/// In a store with one entry for each file, an entry is what is stored for
/// its file.
pub proof fn lemma_entry_known(entries: Seq<FactsModel>, e: FactsModel)
    requires
        one_entry_each(entries),
        is_entry_of(entries, e),
    ensures
        entry_of(entries, e.path) == Some(e),
{
    let j = choose|j: int| 0 <= j < entries.len() && #[trigger] entries[j] == e;
    lemma_position_found(entries, 0, e.path);
    let at = entry_position(entries, 0, e.path);
    if at > j {
        assert(entries[j].path != e.path);
    }
    if at < j {
        assert(entries[at].path != entries[j].path);
    }
}

/// After the entry of a file is replaced, the new entry is what is stored
/// for the file.
pub proof fn lemma_replaced_entry(entries: Seq<FactsModel>, added: FactsModel, path: Seq<char>)
    requires
        added.path == path,
    ensures
        entry_of(entries_without(entries, entries.len() as int, path).push(added), path) == Some(
            added,
        ),
{
    let kept = entries_without(entries, entries.len() as int, path);
    let from = lemma_kept_entries(entries, entries.len() as int, path);
    lemma_position_found(kept, 0, path);
    let at = entry_position(kept, 0, path);
    if at < kept.len() {
        assert(entries[from[at]] == kept[at]);
    }
    lemma_entry_of_push(kept, added, path);
}

/// A file that is not read leaves the stale files read: either the store
/// holds something for it that is no older, which was then read from an
/// earlier file, or it cannot be read.
pub proof fn lemma_step_unchanged(
    start: Seq<FactsModel>,
    entries: Seq<FactsModel>,
    files: Seq<SourceFile>,
    i: int,
)
    requires
        0 <= i < files.len(),
        one_entry_each(start),
        stale_files_are_read(start, entries, files, i),
        forall|k: int|
            0 <= k < entries.len() ==> is_entry_of(start, #[trigger] entries[k]) || is_read_among(
                files,
                i,
                entries[k],
            ),
        !is_stale(entries, files[i].path@, files[i].mtime) || !can_be_read(
            files[i].path@,
            files[i].content@,
        ),
    ensures
        stale_files_are_read(start, entries, files, i + 1),
{
    assert forall|j: int|
        0 <= j < i + 1 && is_stale(start, (#[trigger] files[j]).path@, files[j].mtime)
            && can_be_read(files[j].path@, files[j].content@) implies holds_read_entry(
        entries,
        files,
        i + 1,
        files[j].path@,
    ) by {
        let path = files[j].path@;
        if j < i {
            assert(holds_read_entry(entries, files, i, path));
            lemma_read_among_more(files, i, entry_of(entries, path)->0);
        } else {
            lemma_position_found(entries, 0, path);
            let at = entry_position(entries, 0, path);
            let e = entries[at];
            assert(entry_of(entries, path) == Some(e));
            if is_entry_of(start, e) {
                lemma_entry_known(start, e);
                assert(false);
            }
            lemma_read_among_more(files, i, e);
        }
    }
}

/// A file that is read leaves the stale files read: its new entry was read
/// from it, and what is stored for every other file stays.
pub proof fn lemma_step_replaced(
    start: Seq<FactsModel>,
    before: Seq<FactsModel>,
    files: Seq<SourceFile>,
    i: int,
    added: FactsModel,
)
    requires
        0 <= i < files.len(),
        stale_files_are_read(start, before, files, i),
        is_read_from(files[i], added),
        added.path == files[i].path@,
    ensures
        stale_files_are_read(
            start,
            entries_without(before, before.len() as int, files[i].path@).push(added),
            files,
            i + 1,
        ),
{
    let replaced = files[i].path@;
    let after = entries_without(before, before.len() as int, replaced).push(added);
    assert forall|j: int|
        0 <= j < i + 1 && is_stale(start, (#[trigger] files[j]).path@, files[j].mtime)
            && can_be_read(files[j].path@, files[j].content@) implies holds_read_entry(
        after,
        files,
        i + 1,
        files[j].path@,
    ) by {
        let path = files[j].path@;
        if path == replaced {
            lemma_replaced_entry(before, added, replaced);
            assert(is_read_from(files[i], added));
        } else {
            lemma_replace_keeps_others(before, replaced, added, path);
            assert(holds_read_entry(before, files, i, path));
            lemma_read_among_more(files, i, entry_of(before, path)->0);
        }
    }
}

/// The numbers of symbols, calls and imports in those of the first `n`
/// entries that `start` does not hold.
pub open spec fn new_counts(start: Seq<FactsModel>, entries: Seq<FactsModel>, n: int) -> (
    nat,
    nat,
    nat,
)
    decreases n,
{
    if n <= 0 {
        (0nat, 0nat, 0nat)
    } else {
        let rest = new_counts(start, entries, n - 1);
        let e = entries[n - 1];
        if is_entry_of(start, e) {
            rest
        } else {
            (rest.0 + e.symbols.len(), rest.1 + e.calls.len(), rest.2 + e.imports.len())
        }
    }
}

/// Whether what is stored for every file that is not among the first `n`
/// files is what `start` held for it.
pub open spec fn others_untouched(
    start: Seq<FactsModel>,
    entries: Seq<FactsModel>,
    files: Seq<SourceFile>,
    n: int,
) -> bool {
    forall|path: Seq<char>|
        (forall|j: int| 0 <= j < n ==> (#[trigger] files[j]).path@ != path) ==> #[trigger] entry_of(
            entries,
            path,
        ) == entry_of(start, path)
}

/// A store that holds only what `start` held has no new counts.
pub proof fn lemma_no_new_counts(start: Seq<FactsModel>, entries: Seq<FactsModel>, n: int)
    requires
        0 <= n <= entries.len(),
        forall|k: int| 0 <= k < n ==> is_entry_of(start, #[trigger] entries[k]),
    ensures
        new_counts(start, entries, n) == (0nat, 0nat, 0nat),
    decreases n,
{
    if n > 0 {
        lemma_no_new_counts(start, entries, n - 1);
    }
}

/// The new counts of a store depend on its entries alone.
pub proof fn lemma_new_counts_same(
    start: Seq<FactsModel>,
    a: Seq<FactsModel>,
    b: Seq<FactsModel>,
    n: int,
)
    requires
        0 <= n <= a.len(),
        n <= b.len(),
        forall|k: int| 0 <= k < n ==> a[k] == b[k],
    ensures
        new_counts(start, a, n) == new_counts(start, b, n),
    decreases n,
{
    if n > 0 {
        lemma_new_counts_same(start, a, b, n - 1);
    }
}

/// Dropping entries that `start` held leaves the new counts as they are.
pub proof fn lemma_new_counts_without(
    start: Seq<FactsModel>,
    entries: Seq<FactsModel>,
    n: int,
    path: Seq<char>,
)
    requires
        0 <= n <= entries.len(),
        forall|k: int|
            0 <= k < n && (#[trigger] entries[k]).path == path ==> is_entry_of(start, entries[k]),
    ensures
        new_counts(
            start,
            entries_without(entries, n, path),
            entries_without(entries, n, path).len() as int,
        ) == new_counts(start, entries, n),
    decreases n,
{
    if n > 0 {
        lemma_new_counts_without(start, entries, n - 1, path);
        let rest = entries_without(entries, n - 1, path);
        if entries[n - 1].path != path {
            lemma_new_counts_same(start, rest.push(entries[n - 1]), rest, rest.len() as int);
        }
    }
}

/// What the new counts are after a file that `start` did not hold as it is
/// now was read: what they were, and what the new entry holds.
pub proof fn lemma_new_counts_replaced(
    start: Seq<FactsModel>,
    before: Seq<FactsModel>,
    added: FactsModel,
)
    requires
        !is_entry_of(start, added),
        forall|k: int|
            0 <= k < before.len() && (#[trigger] before[k]).path == added.path ==> is_entry_of(
                start,
                before[k],
            ),
    ensures
        ({
            let after = entries_without(before, before.len() as int, added.path).push(added);
            let was = new_counts(start, before, before.len() as int);
            new_counts(start, after, after.len() as int) == (
                was.0 + added.symbols.len(),
                was.1 + added.calls.len(),
                was.2 + added.imports.len(),
            )
        }),
{
    let kept = entries_without(before, before.len() as int, added.path);
    lemma_new_counts_without(start, before, before.len() as int, added.path);
    lemma_new_counts_same(start, kept.push(added), kept, kept.len() as int);
}

/// What the store holds after the first `n` of `read` were taken in one
/// after the other, starting from `start`: what was read from a file
/// replaces what was stored for it, and a file that was not read leaves
/// the store as it is.
pub open spec fn replayed(start: Seq<FactsModel>, read: Seq<Option<FactsModel>>, n: int) -> Seq<
    FactsModel,
>
    decreases n,
{
    if n <= 0 {
        start
    } else {
        let before = replayed(start, read, n - 1);
        match read[n - 1] {
            Some(e) => entries_without(before, before.len() as int, e.path).push(e),
            None => before,
        }
    }
}

/// The numbers of symbols, calls and imports in the first `n` of `read`.
pub open spec fn read_counts(read: Seq<Option<FactsModel>>, n: int) -> (nat, nat, nat)
    decreases n,
{
    if n <= 0 {
        (0nat, 0nat, 0nat)
    } else {
        let rest = read_counts(read, n - 1);
        match read[n - 1] {
            Some(e) => (rest.0 + e.symbols.len(), rest.1 + e.calls.len(), rest.2 + e.imports.len()),
            None => rest,
        }
    }
}

/// Whether `read[k]` is what reading the file `k` gives when the files are
/// taken in one after the other: a file is due if `always` holds, or if
/// what the store holds, once the files before it are taken in, is stale
/// for it. A file that is due and can be read is read; no other file is.
pub open spec fn is_read_step(
    start: Seq<FactsModel>,
    files: Seq<SourceFile>,
    read: Seq<Option<FactsModel>>,
    k: int,
    always: bool,
) -> bool {
    let due = always || is_stale(replayed(start, read, k), files[k].path@, files[k].mtime);
    match read[k] {
        Some(e) => due && is_read_from(files[k], e),
        None => !due || !can_be_read(files[k].path@, files[k].content@),
    }
}

/// Whether `read` is what reading `files` gives, file by file.
pub open spec fn is_reading(
    start: Seq<FactsModel>,
    files: Seq<SourceFile>,
    read: Seq<Option<FactsModel>>,
    always: bool,
) -> bool {
    &&& read.len() == files.len()
    &&& forall|k: int| 0 <= k < files.len() ==> #[trigger] is_read_step(start, files, read, k, always)
}

/// The counts as they are returned: each no greater than the machine counts.
pub open spec fn clamped(counts: (nat, nat, nat)) -> (usize, usize, usize) {
    (clamp(counts.0), clamp(counts.1), clamp(counts.2))
}

/// What was taken in from the first `n` files depends on what was read
/// from them alone.
pub proof fn lemma_replayed_same(
    start: Seq<FactsModel>,
    a: Seq<Option<FactsModel>>,
    b: Seq<Option<FactsModel>>,
    n: int,
)
    requires
        0 <= n <= a.len(),
        n <= b.len(),
        forall|k: int| 0 <= k < n ==> a[k] == b[k],
    ensures
        replayed(start, a, n) == replayed(start, b, n),
        read_counts(a, n) == read_counts(b, n),
    decreases n,
{
    if n > 0 {
        lemma_replayed_same(start, a, b, n - 1);
    }
}

/// One more file: what holds of the files before it holds on, and the
/// store and the counts after it are what the step gives.
pub proof fn lemma_reading_goes_on(
    start: Seq<FactsModel>,
    files: Seq<SourceFile>,
    read: Seq<Option<FactsModel>>,
    next: Option<FactsModel>,
    always: bool,
)
    requires
        read.len() < files.len(),
        forall|k: int| 0 <= k < read.len() ==> #[trigger] is_read_step(start, files, read, k, always),
        is_read_step(start, files, read.push(next), read.len() as int, always),
    ensures
        forall|k: int|
            0 <= k < read.len() + 1 ==> #[trigger] is_read_step(
                start,
                files,
                read.push(next),
                k,
                always,
            ),
        replayed(start, read.push(next), read.len() as int) == replayed(
            start,
            read,
            read.len() as int,
        ),
        read_counts(read.push(next), read.len() as int) == read_counts(read, read.len() as int),
{
    let more = read.push(next);
    assert forall|k: int| 0 <= k < read.len() + 1 implies #[trigger] is_read_step(
        start,
        files,
        more,
        k,
        always,
    ) by {
        if k < read.len() {
            lemma_replayed_same(start, more, read, k);
            assert(is_read_step(start, files, read, k, always));
            assert(more[k] == read[k]);
        }
    }
    lemma_replayed_same(start, more, read, read.len() as int);
}

/// What was read from one of the first `n` files is stored under the path
/// of one of them.
pub proof fn lemma_read_path(files: Seq<SourceFile>, n: int, e: FactsModel)
    requires
        is_read_among(files, n, e),
    ensures
        exists|i: int| 0 <= i < n && (#[trigger] files[i]).path@ == e.path,
{
    let i = choose|i: int| 0 <= i < n && is_read_from(#[trigger] files[i], e);
    assert(files[i].path@ == e.path);
}

/// Where no entry is for a file, replacing the file drops nothing.
pub proof fn lemma_nothing_to_drop(entries: Seq<FactsModel>, n: int, path: Seq<char>)
    requires
        0 <= n <= entries.len(),
        forall|k: int| 0 <= k < n ==> (#[trigger] entries[k]).path != path,
    ensures
        entries_without(entries, n, path) == entries.take(n),
    decreases n,
{
    if n > 0 {
        lemma_nothing_to_drop(entries, n - 1, path);
        assert(entries.take(n) =~= entries.take(n - 1).push(entries[n - 1]));
    } else {
        assert(entries.take(0) =~= Seq::<FactsModel>::empty());
    }
}

/// The totals of a store depend on its entries alone.
pub proof fn lemma_totals_same(a: Seq<FactsModel>, b: Seq<FactsModel>, n: int)
    requires
        0 <= n <= a.len(),
        n <= b.len(),
        forall|k: int| 0 <= k < n ==> a[k] == b[k],
    ensures
        total_symbols(a, n) == total_symbols(b, n),
        total_calls(a, n) == total_calls(b, n),
        total_imports(a, n) == total_imports(b, n),
    decreases n,
{
    if n > 0 {
        lemma_totals_same(a, b, n - 1);
    }
}

/// With one more entry the totals grow by what the entry holds.
pub proof fn lemma_totals_push(entries: Seq<FactsModel>, added: FactsModel)
    ensures
        total_symbols(entries.take(entries.len() as int).push(added), entries.len() as int + 1)
            == total_symbols(entries, entries.len() as int) + added.symbols.len(),
        total_calls(entries.take(entries.len() as int).push(added), entries.len() as int + 1)
            == total_calls(entries, entries.len() as int) + added.calls.len(),
        total_imports(entries.take(entries.len() as int).push(added), entries.len() as int + 1)
            == total_imports(entries, entries.len() as int) + added.imports.len(),
{
    let more = entries.take(entries.len() as int).push(added);
    lemma_totals_same(more, entries, entries.len() as int);
}

/// What was read from one of the first `n` files was read from one of the
/// first `n + 1`.
pub proof fn lemma_read_among_more(files: Seq<SourceFile>, n: int, e: FactsModel)
    requires
        is_read_among(files, n, e),
    ensures
        is_read_among(files, n + 1, e),
{
    let i = choose|i: int| 0 <= i < n && is_read_from(#[trigger] files[i], e);
    assert(is_read_from(files[i], e));
}

/// A file for which what is stored is fresh is not read again.
pub proof fn lemma_fresh_is_not_stale(
    entries: Seq<FactsModel>,
    files: Seq<SourceFile>,
    n: int,
    path: Seq<char>,
    i: int,
)
    requires
        is_fresh(entries, files, n, path),
        0 <= i < n,
        files[i].path@ == path,
    ensures
        !is_stale(entries, path, files[i].mtime),
{
}

/// Each entry that is kept when a file is replaced stood in the store
/// before, at a position that grows with its new one, and is for another
/// file.
pub proof fn lemma_kept_entries(entries: Seq<FactsModel>, n: int, path: Seq<char>) -> (from: Seq<int>)
    requires
        0 <= n <= entries.len(),
    ensures
        from.len() == entries_without(entries, n, path).len(),
        forall|k: int|
            0 <= k < from.len() ==> 0 <= #[trigger] from[k] < n && entries[from[k]]
                == entries_without(entries, n, path)[k] && entries[from[k]].path != path,
        forall|k: int, l: int| 0 <= k < l < from.len() ==> from[k] < from[l],
    decreases n,
{
    if n <= 0 {
        Seq::empty()
    } else {
        let rest = lemma_kept_entries(entries, n - 1, path);
        if entries[n - 1].path != path {
            rest.push(n - 1)
        } else {
            rest
        }
    }
}

/// Replacing the entry of a file leaves each file with one entry.
pub proof fn lemma_replace_keeps_valid(
    entries: Seq<FactsModel>,
    n: int,
    path: Seq<char>,
    added: FactsModel,
)
    requires
        one_entry_each(entries),
        n == entries.len(),
        added.path == path,
    ensures
        one_entry_each(entries_without(entries, n, path).push(added)),
{
    let kept = entries_without(entries, n, path);
    let from = lemma_kept_entries(entries, n, path);
    let all = kept.push(added);
    assert forall|i: int, j: int| 0 <= i < j < all.len() implies (#[trigger] all[i]).path != (
    #[trigger] all[j]).path by {
        if j < kept.len() {
            assert(all[i] == entries[from[i]]);
            assert(all[j] == entries[from[j]]);
        } else {
            assert(all[i] == entries[from[i]]);
        }
    }
}

/// The search for the entry of a file among the kept entries finds what it
/// found among all entries, if the file is not the one that was replaced.
pub proof fn lemma_position_in_kept(
    entries: Seq<FactsModel>,
    n: int,
    replaced: Seq<char>,
    path: Seq<char>,
)
    requires
        0 <= n <= entries.len(),
        path != replaced,
    ensures
        entry_of(entries_without(entries, n, replaced), path) == entry_of(entries.take(n), path),
    decreases n,
{
    if n > 0 {
        lemma_position_in_kept(entries, n - 1, replaced, path);
        let shorter = entries_without(entries, n - 1, replaced);
        assert(entries.take(n).drop_last() =~= entries.take(n - 1));
        lemma_entry_of_push(entries.take(n - 1), entries[n - 1], path);
        assert(entries.take(n) =~= entries.take(n - 1).push(entries[n - 1]));
        if entries[n - 1].path != replaced {
            lemma_entry_of_push(shorter, entries[n - 1], path);
        }
    } else {
        assert(entries.take(0) =~= Seq::<FactsModel>::empty());
    }
}

/// What is stored for a file after one more entry: what was stored for it
/// before, if anything; else the new entry, if it is for the file.
pub proof fn lemma_entry_of_push(entries: Seq<FactsModel>, added: FactsModel, path: Seq<char>)
    ensures
        entry_of(entries.push(added), path) == if entry_of(entries, path) is Some {
            entry_of(entries, path)
        } else if added.path == path {
            Some(added)
        } else {
            None
        },
{
    lemma_position_push(entries, added, path, 0);
}

/// The search from `from` on after one more entry.
pub proof fn lemma_position_push(entries: Seq<FactsModel>, added: FactsModel, path: Seq<char>, from: int)
    requires
        0 <= from <= entries.len(),
    ensures
        entry_position(entries, from, path) < entries.len() ==> entry_position(
            entries.push(added),
            from,
            path,
        ) == entry_position(entries, from, path),
        entry_position(entries, from, path) >= entries.len() ==> entry_position(
            entries.push(added),
            from,
            path,
        ) == if added.path == path {
            entries.len() as int
        } else {
            (entries.len() + 1) as int
        },
        from <= entry_position(entries, from, path) <= entries.len(),
    decreases entries.len() - from,
{
    let more = entries.push(added);
    if from < entries.len() {
        assert(more[from] == entries[from]);
        if entries[from].path != path {
            lemma_position_push(entries, added, path, from + 1);
        }
    } else {
        assert(more[from] == added);
        assert(entry_position(more, from + 1, path) == more.len());
    }
}

/// Replacing the entry of one file leaves what is stored for every other
/// file as it is.
pub proof fn lemma_replace_keeps_others(
    entries: Seq<FactsModel>,
    replaced: Seq<char>,
    added: FactsModel,
    path: Seq<char>,
)
    requires
        added.path == replaced,
        path != replaced,
    ensures
        entry_of(entries_without(entries, entries.len() as int, replaced).push(added), path)
            == entry_of(entries, path),
{
    lemma_position_in_kept(entries, entries.len() as int, replaced, path);
    assert(entries.take(entries.len() as int) =~= entries);
    lemma_entry_of_push(entries_without(entries, entries.len() as int, replaced), added, path);
}


/// The callers found in one file hold each of its calls of the name.
pub proof fn lemma_callers_in_holds(file: FactsModel, n: int, k: int)
    requires
        0 <= k < n <= file.calls.len(),
    ensures
        callers_in(file, n, file.calls[k].callee).contains(
            CallerModel { file: file.path, symbol: file.calls[k].caller, line: file.calls[k].line },
        ),
    decreases n,
{
    let name = file.calls[k].callee;
    let wanted = CallerModel {
        file: file.path,
        symbol: file.calls[k].caller,
        line: file.calls[k].line,
    };
    let all = callers_in(file, n, name);
    if k == n - 1 {
        assert(all[all.len() - 1] == wanted);
    } else {
        lemma_callers_in_holds(file, n - 1, k);
        let rest = callers_in(file, n - 1, name);
        let at = choose|at: int| 0 <= at < rest.len() && rest[at] == wanted;
        assert(all[at] == wanted);
    }
}

/// The callers found among the files hold each call of the name in each
/// of the files.
pub proof fn lemma_callers_among_holds(entries: Seq<FactsModel>, n: int, at: int, k: int)
    requires
        0 <= at < n <= entries.len(),
        0 <= k < entries[at].calls.len(),
    ensures
        callers_among(entries, n, entries[at].calls[k].callee).contains(
            CallerModel {
                file: entries[at].path,
                symbol: entries[at].calls[k].caller,
                line: entries[at].calls[k].line,
            },
        ),
    decreases n,
{
    let name = entries[at].calls[k].callee;
    let wanted = CallerModel {
        file: entries[at].path,
        symbol: entries[at].calls[k].caller,
        line: entries[at].calls[k].line,
    };
    let before = callers_among(entries, n - 1, name);
    let here = callers_in(entries[n - 1], entries[n - 1].calls.len() as int, name);
    let all = callers_among(entries, n, name);
    if at == n - 1 {
        lemma_callers_in_holds(entries[at], entries[at].calls.len() as int, k);
        let i = choose|i: int| 0 <= i < here.len() && here[i] == wanted;
        assert(all[before.len() + i] == wanted);
    } else {
        lemma_callers_among_holds(entries, n - 1, at, k);
        let i = choose|i: int| 0 <= i < before.len() && before[i] == wanted;
        assert(all[i] == wanted);
    }
}

/// A call that is stored is found: where a file of the call graph holds a
/// call of a name, the callers of that name hold the file, the function
/// that makes the call and the line of the call.
pub proof fn lemma_stored_call_is_found(entries: Seq<FactsModel>, at: int, k: int)
    requires
        0 <= at < entries.len(),
        0 <= k < entries[at].calls.len(),
    ensures
        callers_of(entries, entries[at].calls[k].callee).contains(
            CallerModel {
                file: entries[at].path,
                symbol: entries[at].calls[k].caller,
                line: entries[at].calls[k].line,
            },
        ),
{
    let name = entries[at].calls[k].callee;
    let wanted = CallerModel {
        file: entries[at].path,
        symbol: entries[at].calls[k].caller,
        line: entries[at].calls[k].line,
    };
    let found = callers_among(entries, entries.len() as int, name);
    lemma_callers_among_holds(entries, entries.len() as int, at, k);
    let i = choose|i: int| 0 <= i < found.len() && found[i] == wanted;
    crate::ordering::lemma_arranged_holds_each(found, caller_keys(found), i);
}

/// A file that is read is found: after the facts of a file with a call
/// have replaced what was stored for it, the callers of the called name
/// hold the file with the line of the call.
pub proof fn lemma_call_round_trip(
    before: Seq<FactsModel>,
    path: Seq<char>,
    mtime: i64,
    extraction: ExtractionModel,
    k: int,
)
    requires
        0 <= k < extraction.calls.len(),
    ensures
        callers_of(
            entries_without(before, before.len() as int, path).push(
                facts_of(path, mtime, extraction),
            ),
            extraction.calls[k].callee,
        ).contains(
            CallerModel {
                file: path,
                symbol: extraction.calls[k].caller,
                line: extraction.calls[k].line,
            },
        ),
{
    let after = entries_without(before, before.len() as int, path).push(
        facts_of(path, mtime, extraction),
    );
    lemma_stored_call_is_found(after, after.len() - 1, k);
}


/// Callers come by file and then by line: of two callers in the answer to
/// a query, the earlier is of a file that comes no later in dictionary
/// order, and, in one file, of a line that is no greater.
pub proof fn lemma_callers_are_ordered(entries: Seq<FactsModel>, name: Seq<char>, a: int, b: int)
    requires
        0 <= a < b < callers_of(entries, name).len(),
    ensures
        crate::ordering::text_le(callers_of(entries, name)[a].file, callers_of(entries, name)[b].file),
        callers_of(entries, name)[a].file == callers_of(entries, name)[b].file ==> callers_of(
            entries,
            name,
        )[a].line <= callers_of(entries, name)[b].line,
{
    let found = callers_among(entries, entries.len() as int, name);
    let keys = caller_keys(found);
    crate::ordering::lemma_sorted_prefix_is_stable(keys, keys.len() as int);
    let order = sorted_indices(keys);
    assert(crate::ordering::key_le(keys[order[a]], keys[order[b]]));
    crate::ordering::lemma_text_le_total(found[order[a]].file, found[order[a]].file);
}

/// Found symbols come by falling score: of two symbols in the answer to a
/// query, the earlier has no smaller a score, and with one score is of a
/// file that comes no later in dictionary order. The answer holds no more
/// symbols than the limit.
pub proof fn lemma_symbols_are_ordered(
    entries: Seq<FactsModel>,
    query: Seq<char>,
    wanted: Option<SymbolKind>,
    fuzzy: bool,
    limit: usize,
    a: int,
    b: int,
)
    requires
        0 <= a < b < symbols_found(entries, query, wanted, fuzzy, limit).len(),
    ensures
        symbols_found(entries, query, wanted, fuzzy, limit).len() <= limit,
        symbols_found(entries, query, wanted, fuzzy, limit)[a].score >= symbols_found(
            entries,
            query,
            wanted,
            fuzzy,
            limit,
        )[b].score,
        symbols_found(entries, query, wanted, fuzzy, limit)[a].score == symbols_found(
            entries,
            query,
            wanted,
            fuzzy,
            limit,
        )[b].score ==> crate::ordering::text_le(
            symbols_found(entries, query, wanted, fuzzy, limit)[a].file,
            symbols_found(entries, query, wanted, fuzzy, limit)[b].file,
        ),
{
    let found = matches_among(entries, entries.len() as int, query, wanted, fuzzy);
    let keys = match_keys(found);
    crate::ordering::lemma_sorted_prefix_is_stable(keys, keys.len() as int);
    let order = sorted_indices(keys);
    assert(crate::ordering::key_le(keys[order[a]], keys[order[b]]));
    crate::ordering::lemma_text_le_total(found[order[a]].file, found[order[a]].file);
}

} // verus!
