//! Go modules: what a `go.mod` file declares, and the imports that stay
//! inside the module.

use crate::paths::{join_path, joined};
use crate::text::{
    chars_of, has_prefix, lines, lines_of, rows, slice_of, starts_with, string_of,
    strip_all_prefix, strip_char_start, trim, trim_start_char, trim_start_matches, trimmed,
};
use vstd::prelude::*;

verus! {

/// What a `go.mod` file declares.
#[derive(Debug, Clone)]
pub struct GoModule {
    /// The path of the module, such as `github.com/user/project`.
    pub path: String,
    /// The version of Go that the module asks for, such as `1.21`.
    pub go_version: Option<String>,
}

/// What has been read of a `go.mod` file.
pub struct ModuleState {
    pub path: Option<Seq<char>>,
    pub go_version: Option<Seq<char>>,
}

/// What follows `word` on a line that begins with it, without white space
/// around it.
pub open spec fn value_after(line: Seq<char>, word: Seq<char>) -> Seq<char> {
    trimmed(strip_all_prefix(line, word))
}

/// What is known after one more line: a line that begins with `module `
/// names the module, one that begins with `go ` the version of Go. White
/// space around the line does not count.
pub open spec fn module_step(state: ModuleState, line: Seq<char>) -> ModuleState {
    let line = trimmed(line);
    ModuleState {
        path: if has_prefix(line, "module "@) {
            Some(value_after(line, "module "@))
        } else {
            state.path
        },
        go_version: if has_prefix(line, "go "@) {
            Some(value_after(line, "go "@))
        } else {
            state.go_version
        },
    }
}

/// What is known after the first `n` lines.
pub open spec fn module_after(lines: Seq<Seq<char>>, n: int) -> ModuleState
    decreases n,
{
    if n <= 0 {
        ModuleState { path: None, go_version: None }
    } else {
        module_step(module_after(lines, n - 1), lines[n - 1])
    }
}

/// What a `go.mod` file with the given content declares, where it names a
/// module: the last module path and the last version of Go that it names.
pub open spec fn module_of(content: Seq<char>) -> Option<ModuleState> {
    let state = module_after(lines_of(content), lines_of(content).len() as int);
    if state.path is Some {
        Some(state)
    } else {
        None
    }
}

/// What follows `word` on a line, without white space around it.
fn read_value(line: &Vec<char>, word: &str) -> (r: Vec<char>)
    ensures
        r@ == value_after(line@, word@),
{
    let w = chars_of(word);
    trim(&trim_start_matches(line, &w))
}

/// Reads the content of a `go.mod` file. `None` where it names no module.
pub fn parse_go_mod_content(content: &str) -> (r: Option<GoModule>)
    ensures
        r is Some == module_of(content@) is Some,
        r is Some ==> r->0.path@ == module_of(content@)->0.path->0 && crate::syntax::opt_text(
            r->0.go_version,
        ) == module_of(content@)->0.go_version,
{
    let all = lines(&chars_of(content));
    let module_word = chars_of("module ");
    let go_word = chars_of("go ");
    let mut path: Option<Vec<char>> = None;
    let mut go_version: Option<Vec<char>> = None;
    let mut i: usize = 0;
    while i < all.len()
        invariant
            i <= all.len(),
            rows(all@) == lines_of(content@),
            module_word@ == "module "@,
            go_word@ == "go "@,
            path is Some == module_after(rows(all@), i as int).path is Some,
            path is Some ==> path->0@ == module_after(rows(all@), i as int).path->0,
            go_version is Some == module_after(rows(all@), i as int).go_version is Some,
            go_version is Some ==> go_version->0@ == module_after(
                rows(all@),
                i as int,
            ).go_version->0,
        decreases all.len() - i,
    {
        assert(rows(all@)[i as int] == all@[i as int]@);
        let line = trim(&all[i]);
        if starts_with(&line, &module_word) {
            path = Some(read_value(&line, "module "));
        }
        if starts_with(&line, &go_word) {
            go_version = Some(read_value(&line, "go "));
        }
        i += 1;
    }
    match path {
        Some(p) => Some(
            GoModule {
                path: string_of(&p),
                go_version: match go_version {
                    Some(v) => Some(string_of(&v)),
                    None => None,
                },
            },
        ),
        None => None,
    }
}

/// Where an import of the module lies below the root of the module: the
/// root itself for the module path, else the root joined with what follows
/// the module path, without the slashes in front. `None` for an import
/// path that does not begin with the module path.
pub open spec fn local_import_of(
    import_path: Seq<char>,
    own_path: Seq<char>,
    project_root: Seq<char>,
) -> Option<Seq<char>> {
    if !has_prefix(import_path, own_path) {
        None
    } else {
        let rel = strip_char_start(import_path.skip(own_path.len() as int), '/');
        if rel.len() == 0 {
            Some(project_root)
        } else {
            Some(joined(project_root, rel))
        }
    }
}

/// The directory of an import that lies inside the module, computed from
/// the paths alone: whether it exists is for the caller to find out.
/// `None` for an import from elsewhere.
pub fn resolve_go_import(import_path: &str, module: &GoModule, project_root: &str) -> (r: Option<
    String,
>)
    ensures
        crate::syntax::opt_text(r) == local_import_of(
            import_path@,
            module.path@,
            project_root@,
        ),
{
    let import = chars_of(import_path);
    let prefix = chars_of(module.path.as_str());
    if !starts_with(&import, &prefix) {
        return None;
    }
    let rest = slice_of(&import, prefix.len(), import.len());
    assert(rest@ =~= import@.skip(prefix.len() as int));
    let rel = trim_start_char(&rest, '/');
    if rel.len() == 0 {
        Some(project_root.to_owned())
    } else {
        let root = chars_of(project_root);
        Some(string_of(&join_path(&root, &rel)))
    }
}

/// The places where the `go.mod` of a file may lie, nearest first: in the
/// directory `start` and in each directory above it.
pub open spec fn go_mod_places(start: Seq<char>) -> Seq<Seq<char>>
    decreases start.len(),
{
    if crate::paths::last_index_of(start, '/') < 0 || crate::paths::parent_of(start).len()
        >= start.len() {
        seq![joined(start, "go.mod"@)]
    } else {
        seq![joined(start, "go.mod"@)] + go_mod_places(crate::paths::parent_of(start))
    }
}

/// The places where the `go.mod` for the directory `start` may lie,
/// nearest first. The first that exists is the one that counts.
pub fn find_go_mod(start: &str) -> (r: Vec<String>)
    ensures
        crate::text::texts(r@) == go_mod_places(start@),
{
    let name = chars_of("go.mod");
    let mut out: Vec<String> = Vec::new();
    let mut dir = chars_of(start);
    loop
        invariant
            name@ == "go.mod"@,
            crate::text::texts(out@) + go_mod_places(dir@) == go_mod_places(start@),
        decreases dir.len(),
    {
        let ghost before = crate::text::texts(out@);
        let place = string_of(&join_path(&dir, &name));
        out.push(place);
        assert(crate::text::texts(out@) =~= before.push(joined(dir@, "go.mod"@)));
        let (_, found) = crate::paths::find_last(&dir, '/');
        if !found {
            assert(crate::text::texts(out@) =~= before + go_mod_places(dir@));
            return out;
        }
        let up = crate::paths::parent(&dir);
        assert(before + (seq![joined(dir@, "go.mod"@)] + go_mod_places(up@)) =~= before.push(
            joined(dir@, "go.mod"@),
        ) + go_mod_places(up@));
        dir = up;
    }
}

} // verus!
