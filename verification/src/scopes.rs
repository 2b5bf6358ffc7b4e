//! Scopes and the names they bind: what is visible at a line of a source
//! file, and where a name was defined.

use crate::text::{chars_of, concat, decimal, decimal_of, join, join_of, rows, string_of, text_is};
use vstd::prelude::*;

verus! {

/// What opens a scope.
#[derive(Debug, Clone, Copy, PartialEq, Eq, Structural)]
pub enum ScopeKind {
    Module,
    Function,
    Class,
    Method,
    Lambda,
    Comprehension,
    Loop,
    With,
    Try,
    Block,
    Impl,
}

impl ScopeKind {
    /// The word for the kind.
    pub open spec fn word(&self) -> Seq<char> {
        match self {
            ScopeKind::Module => "module"@,
            ScopeKind::Function => "function"@,
            ScopeKind::Class => "class"@,
            ScopeKind::Method => "method"@,
            ScopeKind::Lambda => "lambda"@,
            ScopeKind::Comprehension => "comprehension"@,
            ScopeKind::Loop => "loop"@,
            ScopeKind::With => "with"@,
            ScopeKind::Try => "try"@,
            ScopeKind::Block => "block"@,
            ScopeKind::Impl => "impl"@,
        }
    }

    /// The word for the kind, in lowercase.
    pub fn as_str(&self) -> (r: &'static str)
        ensures
            r@ == self.word(),
    {
        match self {
            ScopeKind::Module => "module",
            ScopeKind::Function => "function",
            ScopeKind::Class => "class",
            ScopeKind::Method => "method",
            ScopeKind::Lambda => "lambda",
            ScopeKind::Comprehension => "comprehension",
            ScopeKind::Loop => "loop",
            ScopeKind::With => "with",
            ScopeKind::Try => "try",
            ScopeKind::Block => "block",
            ScopeKind::Impl => "impl",
        }
    }
}

/// How a name came to be bound.
#[derive(Debug, Clone, Copy, PartialEq, Eq, Structural)]
pub enum BindingKind {
    Variable,
    Parameter,
    Function,
    Class,
    Import,
    ForLoop,
    WithItem,
    ExceptHandler,
}

impl BindingKind {
    /// The word for the kind.
    pub open spec fn word(&self) -> Seq<char> {
        match self {
            BindingKind::Variable => "variable"@,
            BindingKind::Parameter => "parameter"@,
            BindingKind::Function => "function"@,
            BindingKind::Class => "class"@,
            BindingKind::Import => "import"@,
            BindingKind::ForLoop => "for"@,
            BindingKind::WithItem => "with"@,
            BindingKind::ExceptHandler => "except"@,
        }
    }

    /// The word for the kind, in lowercase.
    pub fn as_str(&self) -> (r: &'static str)
        ensures
            r@ == self.word(),
    {
        match self {
            BindingKind::Variable => "variable",
            BindingKind::Parameter => "parameter",
            BindingKind::Function => "function",
            BindingKind::Class => "class",
            BindingKind::Import => "import",
            BindingKind::ForLoop => "for",
            BindingKind::WithItem => "with",
            BindingKind::ExceptHandler => "except",
        }
    }
}

/// A name that a scope binds.
#[derive(Debug, Clone)]
pub struct Binding {
    pub name: String,
    pub kind: BindingKind,
    /// The line of the binding; lines count from 1.
    pub line: usize,
    pub column: usize,
}

/// What a binding holds: the model of `Binding`.
pub struct BindingModel {
    pub name: Seq<char>,
    pub kind: BindingKind,
    pub line: usize,
    pub column: usize,
}

impl View for Binding {
    type V = BindingModel;

    open spec fn view(&self) -> BindingModel {
        BindingModel { name: self.name@, kind: self.kind, line: self.line, column: self.column }
    }
}

/// The models of the bindings of `v`.
pub open spec fn binding_views(v: Seq<Binding>) -> Seq<BindingModel> {
    v.map_values(|b: Binding| b@)
}

/// The models of the bindings that `v` refers to.
pub open spec fn binding_ref_views(v: Seq<&Binding>) -> Seq<BindingModel> {
    v.map_values(|b: &Binding| b@)
}

/// A scope of a source file, with the scopes inside it.
#[derive(Debug)]
pub struct Scope {
    pub kind: ScopeKind,
    pub name: Option<String>,
    pub start_line: usize,
    pub end_line: usize,
    pub bindings: Vec<Binding>,
    pub children: Vec<Scope>,
}

/// The scopes of a source file.
#[derive(Debug)]
pub struct ScopeResult {
    pub root: Scope,
    pub file_path: String,
}

/// Those of the first `n` bindings that stand on `line` or before it.
pub open spec fn bound_before(bindings: Seq<Binding>, n: int, line: usize) -> Seq<BindingModel>
    decreases n,
{
    if n <= 0 {
        Seq::empty()
    } else {
        let rest = bound_before(bindings, n - 1, line);
        if bindings[n - 1].line <= line {
            rest.push(bindings[n - 1]@)
        } else {
            rest
        }
    }
}

/// The bindings that are visible at `line` in a scope: none where the line
/// lies outside the scope; else the bindings of the scope on that line or
/// before it, then those of the scopes inside it.
pub open spec fn visible_in(scope: Scope, line: usize) -> Seq<BindingModel>
    decreases scope, scope.children.len() + 1,
{
    if line < scope.start_line || line > scope.end_line {
        Seq::empty()
    } else {
        bound_before(scope.bindings@, scope.bindings.len() as int, line) + visible_below(
            scope,
            0,
            line,
        )
    }
}

/// The bindings that are visible at `line` in the scopes inside a scope,
/// from the scope `from` on.
pub open spec fn visible_below(scope: Scope, from: int, line: usize) -> Seq<BindingModel>
    decreases scope, scope.children.len() - from,
{
    if from < 0 || from >= scope.children.len() {
        Seq::empty()
    } else {
        visible_in(scope.children[from], line) + visible_below(scope, from + 1, line)
    }
}

/// The position of the last of the first `n` bindings that is called
/// `name`, or -1.
pub open spec fn last_named(bindings: Seq<BindingModel>, n: int, name: Seq<char>) -> int
    decreases n,
{
    if n <= 0 {
        -1
    } else if bindings[n - 1].name == name {
        n - 1
    } else {
        last_named(bindings, n - 1, name)
    }
}

/// The first line of the display of a scope: the indentation, the word for
/// its kind, its name or `<anonymous>`, and its lines.
pub open spec fn scope_header(scope: Scope, prefix: Seq<char>) -> Seq<char> {
    prefix + scope.kind.word() + " "@ + match scope.name {
        Some(n) => n@,
        None => "<anonymous>"@,
    } + " (lines "@ + decimal_of(scope.start_line as nat) + "-"@ + decimal_of(
        scope.end_line as nat,
    ) + ")"@
}

/// The line of the display for a binding: the indentation, two spaces, the
/// word for its kind, its name, and its line.
pub open spec fn binding_line(b: Binding, prefix: Seq<char>) -> Seq<char> {
    prefix + "  "@ + b.kind.word() + " "@ + b.name@ + " (line "@ + decimal_of(b.line as nat)
        + ")"@
}

/// The lines of the display for the first `n` bindings.
pub open spec fn binding_lines(bindings: Seq<Binding>, n: int, prefix: Seq<char>) -> Seq<Seq<char>>
    decreases n,
{
    if n <= 0 {
        Seq::empty()
    } else {
        binding_lines(bindings, n - 1, prefix).push(binding_line(bindings[n - 1], prefix))
    }
}

/// The lines of the display of a scope: its header, its bindings, and the
/// scopes inside it, each indented by two spaces more.
pub open spec fn scope_lines(scope: Scope, prefix: Seq<char>) -> Seq<Seq<char>>
    decreases scope, scope.children.len() + 1,
{
    seq![scope_header(scope, prefix)] + binding_lines(
        scope.bindings@,
        scope.bindings.len() as int,
        prefix,
    ) + scope_lines_below(scope, 0, prefix + "  "@)
}

/// The lines of the display of the scopes inside a scope, from the scope
/// `from` on.
pub open spec fn scope_lines_below(scope: Scope, from: int, prefix: Seq<char>) -> Seq<Seq<char>>
    decreases scope, scope.children.len() - from,
{
    if from < 0 || from >= scope.children.len() {
        Seq::empty()
    } else {
        scope_lines(scope.children[from], prefix) + scope_lines_below(scope, from + 1, prefix)
    }
}

/// The display of the scopes of a file: a title with the path, an empty
/// line, and the lines of the outermost scope, joined by line feeds.
pub open spec fn display_of(result: ScopeResult) -> Seq<char> {
    join_of(
        seq!["# Scopes in "@ + result.file_path@, Seq::empty()] + scope_lines(
            result.root,
            Seq::empty(),
        ),
        seq!['\n'],
    )
}

impl ScopeResult {
    /// The bindings that are visible at `line`, outermost scope first.
    pub fn bindings_at_line(&self, line: usize) -> (r: Vec<&Binding>)
        ensures
            binding_ref_views(r@) == visible_in(self.root, line),
    {
        let mut result: Vec<&Binding> = Vec::new();
        assert(binding_ref_views(result@) =~= Seq::<BindingModel>::empty());
        self.collect_bindings_at(&self.root, line, &mut result);
        assert(binding_ref_views(result@) =~= visible_in(self.root, line));
        result
    }

    /// Adds the bindings that are visible at `line` in `scope` to `result`.
    pub fn collect_bindings_at<'a>(&'a self, scope: &'a Scope, line: usize, result: &mut Vec<&'a Binding>)
        ensures
            binding_ref_views(final(result)@) == binding_ref_views(old(result)@) + visible_in(
                *scope,
                line,
            ),
        decreases scope, scope.children.len() + 1,
    {
        let ghost start = binding_ref_views(result@);
        if line < scope.start_line || line > scope.end_line {
            assert(binding_ref_views(result@) =~= start + visible_in(*scope, line));
            return ;
        }
        let mut i: usize = 0;
        assert(binding_ref_views(result@) =~= start + bound_before(scope.bindings@, 0, line));
        while i < scope.bindings.len()
            invariant
                i <= scope.bindings.len(),
                binding_ref_views(result@) == start + bound_before(
                    scope.bindings@,
                    i as int,
                    line,
                ),
            decreases scope.bindings.len() - i,
        {
            let binding = &scope.bindings[i];
            if binding.line <= line {
                let ghost so_far = binding_ref_views(result@);
                result.push(binding);
                assert(binding_ref_views(result@) =~= so_far.push(binding@));
            }
            assert(binding_ref_views(result@) =~= start + bound_before(
                scope.bindings@,
                i + 1,
                line,
            ));
            i += 1;
        }
        let ghost mid = binding_ref_views(result@);
        self.collect_below(scope, 0, line, result);
        assert(binding_ref_views(result@) =~= start + visible_in(*scope, line)) by {
            assert(binding_ref_views(result@) == mid + visible_below(*scope, 0, line));
        }
    }

    /// Adds the bindings that are visible at `line` in the scopes inside
    /// `scope`, from the scope `from` on, to `result`.
    fn collect_below<'a>(&'a self, scope: &'a Scope, from: usize, line: usize, result: &mut Vec<&'a Binding>)
        ensures
            binding_ref_views(final(result)@) == binding_ref_views(old(result)@) + visible_below(
                *scope,
                from as int,
                line,
            ),
        decreases scope, scope.children.len() - from,
    {
        let ghost start = binding_ref_views(result@);
        if from < scope.children.len() {
            self.collect_bindings_at(&scope.children[from], line, result);
            let ghost mid = binding_ref_views(result@);
            self.collect_below(scope, from + 1, line, result);
            assert(binding_ref_views(result@) =~= start + visible_below(*scope, from as int, line))
                by {
                assert(mid == start + visible_in(scope.children[from as int], line));
                assert(binding_ref_views(result@) == mid + visible_below(*scope, from + 1, line));
            }
        } else {
            assert(binding_ref_views(result@) =~= start + visible_below(*scope, from as int, line));
        }
    }

    /// Where `name` is defined as seen from `line`: the last of the
    /// bindings visible there that is called `name`, which hides those
    /// before it.
    pub fn find_definition(&self, name: &str, line: usize) -> (r: Option<&Binding>)
        ensures
            ({
                let visible = visible_in(self.root, line);
                let at = last_named(visible, visible.len() as int, name@);
                &&& r is Some == (at >= 0)
                &&& r is Some ==> r->0@ == visible[at]
            }),
    {
        let bindings = self.bindings_at_line(line);
        let ghost visible = binding_ref_views(bindings@);
        let mut i: usize = bindings.len();
        while i > 0
            invariant
                i <= bindings.len(),
                visible == binding_ref_views(bindings@),
                visible == visible_in(self.root, line),
                visible.len() == bindings.len(),
                last_named(visible, visible.len() as int, name@) == last_named(
                    visible,
                    i as int,
                    name@,
                ),
            decreases i,
        {
            assert(visible[i - 1] == bindings@[i - 1]@);
            if text_is(bindings[i - 1].name.as_str(), name) {
                return Some(bindings[i - 1]);
            }
            i -= 1;
        }
        None
    }

    /// The scopes of the file as text for a reader.
    pub fn format(&self) -> (r: String)
        ensures
            r@ == display_of(*self),
    {
        let mut lines: Vec<Vec<char>> = Vec::new();
        lines.push(concat(&chars_of("# Scopes in "), &chars_of(self.file_path.as_str())));
        lines.push(Vec::new());
        assert(rows(lines@) =~= seq!["# Scopes in "@ + self.file_path@, Seq::empty()]);
        let prefix: Vec<char> = Vec::new();
        assert(prefix@ =~= Seq::<char>::empty());
        self.format_scope(&self.root, &prefix, &mut lines);
        let mut feed: Vec<char> = Vec::new();
        feed.push('\n');
        assert(feed@ =~= seq!['\n']);
        string_of(&join(&lines, &feed))
    }

    /// Adds the lines of the display of `scope` to `lines`, each behind
    /// `prefix`.
    pub fn format_scope(&self, scope: &Scope, prefix: &Vec<char>, lines: &mut Vec<Vec<char>>)
        ensures
            rows(final(lines)@) == rows(old(lines)@) + scope_lines(*scope, prefix@),
        decreases scope, scope.children.len() + 1,
    {
        let ghost start = rows(lines@);
        let name: Vec<char> = match &scope.name {
            Some(n) => chars_of(n.as_str()),
            None => chars_of("<anonymous>"),
        };
        let a = concat(prefix, &chars_of(scope.kind.as_str()));
        let b = concat(&a, &chars_of(" "));
        let c = concat(&b, &name);
        let d = concat(&c, &chars_of(" (lines "));
        let e = concat(&d, &decimal(scope.start_line as u64));
        let f = concat(&e, &chars_of("-"));
        let g = concat(&f, &decimal(scope.end_line as u64));
        let header = concat(&g, &chars_of(")"));
        assert(header@ == scope_header(*scope, prefix@));
        lines.push(header);
        assert(rows(lines@) =~= start.push(scope_header(*scope, prefix@)));
        let ghost after_header = rows(lines@);
        let mut i: usize = 0;
        assert(rows(lines@) =~= after_header + binding_lines(scope.bindings@, 0, prefix@));
        while i < scope.bindings.len()
            invariant
                i <= scope.bindings.len(),
                rows(lines@) == after_header + binding_lines(scope.bindings@, i as int, prefix@),
            decreases scope.bindings.len() - i,
        {
            let binding = &scope.bindings[i];
            let a = concat(prefix, &chars_of("  "));
            let b = concat(&a, &chars_of(binding.kind.as_str()));
            let c = concat(&b, &chars_of(" "));
            let d = concat(&c, &chars_of(binding.name.as_str()));
            let e = concat(&d, &chars_of(" (line "));
            let f = concat(&e, &decimal(binding.line as u64));
            let line = concat(&f, &chars_of(")"));
            assert(line@ == binding_line(*binding, prefix@));
            let ghost so_far = rows(lines@);
            lines.push(line);
            assert(rows(lines@) =~= so_far.push(line@));
            assert(rows(lines@) =~= after_header + binding_lines(
                scope.bindings@,
                i + 1,
                prefix@,
            ));
            i += 1;
        }
        let ghost mid = rows(lines@);
        let deeper = concat(prefix, &chars_of("  "));
        self.format_below(scope, 0, &deeper, lines);
        assert(rows(lines@) =~= start + scope_lines(*scope, prefix@)) by {
            assert(rows(lines@) == mid + scope_lines_below(*scope, 0, prefix@ + "  "@));
        }
    }

    /// Adds the lines of the display of the scopes inside `scope`, from
    /// the scope `from` on, to `lines`.
    fn format_below(&self, scope: &Scope, from: usize, prefix: &Vec<char>, lines: &mut Vec<Vec<char>>)
        ensures
            rows(final(lines)@) == rows(old(lines)@) + scope_lines_below(
                *scope,
                from as int,
                prefix@,
            ),
        decreases scope, scope.children.len() - from,
    {
        let ghost start = rows(lines@);
        if from < scope.children.len() {
            self.format_scope(&scope.children[from], prefix, lines);
            let ghost mid = rows(lines@);
            self.format_below(scope, from + 1, prefix, lines);
            assert(rows(lines@) =~= start + scope_lines_below(*scope, from as int, prefix@)) by {
                assert(mid == start + scope_lines(scope.children[from as int], prefix@));
                assert(rows(lines@) == mid + scope_lines_below(*scope, from + 1, prefix@));
            }
        } else {
            assert(rows(lines@) =~= start + scope_lines_below(*scope, from as int, prefix@));
        }
    }
}

} // verus!
