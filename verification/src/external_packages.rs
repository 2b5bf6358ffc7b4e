//! Where the packages that a project imports lie outside the project: in
//! the standard library of the language, or in the place where its package
//! manager keeps them.
//!
//! The file system is known through a list of entries, each a path that
//! exists and whether it is a directory. A path that no entry names does
//! not exist as far as these functions are concerned.

use crate::file_index::IndexedFile;
use crate::packages::ResolvedPackage;
use crate::paths::{base_name, file_name, join_path, joined, parent, parent_of};
use crate::text::{
    chars_of, concat, contains_char, has_char, has_prefix, join_of, join_range, lines, lines_of,
    rows, same, split, split_on, split_whitespace, starts_with, string_of, strip_all_prefix,
    trim, trim_start_matches, trimmed, words_of,
};
use vstd::prelude::*;

verus! {

/// What a resolved package holds: the model of `ResolvedPackage`.
pub struct ResolvedModel {
    pub path: Seq<char>,
    pub name: Seq<char>,
    pub is_namespace: bool,
}

/// The model of a resolved package.
pub open spec fn resolved_view(p: ResolvedPackage) -> ResolvedModel {
    ResolvedModel { path: p.path@, name: p.name@, is_namespace: p.is_namespace }
}

/// The model of an optional resolved package.
pub open spec fn opt_resolved(o: Option<ResolvedPackage>) -> Option<ResolvedModel> {
    match o {
        Some(p) => Some(resolved_view(p)),
        None => None,
    }
}

/// Whether `path` is a directory that exists.
pub open spec fn dir_exists(entries: Seq<IndexedFile>, path: Seq<char>) -> bool {
    exists|i: int| 0 <= i < entries.len() && (#[trigger] entries[i]).path@ == path && entries[i].is_dir
}

/// Whether `path` is a file that exists.
pub open spec fn file_exists(entries: Seq<IndexedFile>, path: Seq<char>) -> bool {
    exists|i: int|
        0 <= i < entries.len() && (#[trigger] entries[i]).path@ == path && !entries[i].is_dir
}

/// Tests whether `path` is a directory that exists.
pub fn is_dir(entries: &Vec<IndexedFile>, path: &Vec<char>) -> (r: bool)
    ensures
        r == dir_exists(entries@, path@),
{
    let mut i: usize = 0;
    while i < entries.len()
        invariant
            i <= entries.len(),
            forall|k: int|
                0 <= k < i ==> !((#[trigger] entries@[k]).path@ == path@ && entries@[k].is_dir),
        decreases entries.len() - i,
    {
        if entries[i].is_dir && same(&chars_of(entries[i].path.as_str()), path) {
            return true;
        }
        i += 1;
    }
    false
}

/// Tests whether `path` is a file that exists.
pub fn is_file(entries: &Vec<IndexedFile>, path: &Vec<char>) -> (r: bool)
    ensures
        r == file_exists(entries@, path@),
{
    let mut i: usize = 0;
    while i < entries.len()
        invariant
            i <= entries.len(),
            forall|k: int|
                0 <= k < i ==> !((#[trigger] entries@[k]).path@ == path@ && !entries@[k].is_dir),
        decreases entries.len() - i,
    {
        if !entries[i].is_dir && same(&chars_of(entries[i].path.as_str()), path) {
            return true;
        }
        i += 1;
    }
    false
}

/// The cache directory that all projects share: `moss` below the cache
/// directory that the environment names, or below `.cache` in the home
/// directory; none where the environment names neither.
pub open spec fn cache_dir_of(
    xdg_cache_home: Option<Seq<char>>,
    home: Option<Seq<char>>,
    user_profile: Option<Seq<char>>,
) -> Option<Seq<char>> {
    match xdg_cache_home {
        Some(x) => Some(joined(x, "moss"@)),
        None => match home {
            Some(h) => Some(joined(joined(h, ".cache"@), "moss"@)),
            None => match user_profile {
                Some(u) => Some(joined(joined(u, ".cache"@), "moss"@)),
                None => None,
            },
        },
    }
}

/// The text of an optional text.
pub open spec fn opt_str(o: Option<&str>) -> Option<Seq<char>> {
    match o {
        Some(s) => Some(s@),
        None => None,
    }
}

/// `moss` below `.cache` in the directory `home`.
fn cache_below(home: &str) -> (r: String)
    ensures
        r@ == joined(joined(home@, ".cache"@), "moss"@),
{
    let base = join_path(&chars_of(home), &chars_of(".cache"));
    string_of(&join_path(&base, &chars_of("moss")))
}

/// The cache directory that all projects share, by what the environment
/// holds for `XDG_CACHE_HOME`, `HOME` and `USERPROFILE`.
pub fn get_global_cache_dir(
    xdg_cache_home: Option<&str>,
    home: Option<&str>,
    user_profile: Option<&str>,
) -> (r: Option<String>)
    ensures
        crate::syntax::opt_text(r) == cache_dir_of(
            opt_str(xdg_cache_home),
            opt_str(home),
            opt_str(user_profile),
        ),
{
    match xdg_cache_home {
        Some(x) => Some(string_of(&join_path(&chars_of(x), &chars_of("moss")))),
        None => match home {
            Some(h) => Some(cache_below(h)),
            None => match user_profile {
                Some(u) => Some(cache_below(u)),
                None => None,
            },
        },
    }
}

/// The file of the package index: `packages.db` in the shared cache
/// directory.
pub fn get_global_packages_db(cache_dir: Option<&str>) -> (r: Option<String>)
    ensures
        crate::syntax::opt_text(r) == match cache_dir {
            Some(c) => Some(joined(c@, "packages.db"@)),
            None => None,
        },
{
    match cache_dir {
        Some(c) => Some(string_of(&join_path(&chars_of(c), &chars_of("packages.db")))),
        None => None,
    }
}

/// `base` with the parts `from..` of `parts` below it, one below the other.
pub open spec fn below(base: Seq<char>, parts: Seq<Seq<char>>, from: int, n: int) -> Seq<char>
    decreases n - from,
{
    if n <= from {
        base
    } else {
        joined(below(base, parts, from, n - 1), parts[n - 1])
    }
}

/// Where a Python module lies below `base`. A module of one name is the
/// directory of that name, a namespace package if it holds no
/// `__init__.py`, or else the file of that name with `.py`. A module of
/// several names lies below the directory of the first: the directory of
/// the remaining names, or else the file of those names with `.py`.
pub open spec fn python_module_of(
    import_name: Seq<char>,
    base: Seq<char>,
    entries: Seq<IndexedFile>,
) -> Option<ResolvedModel> {
    let parts = split_on(import_name, '.');
    let pkg_dir = joined(base, parts[0]);
    if dir_exists(entries, pkg_dir) {
        if parts.len() == 1 {
            Some(
                ResolvedModel {
                    path: pkg_dir,
                    name: import_name,
                    is_namespace: !file_exists(entries, joined(pkg_dir, "__init__.py"@)),
                },
            )
        } else {
            let path = below(pkg_dir, parts, 1, parts.len() as int);
            if dir_exists(entries, path) {
                Some(
                    ResolvedModel {
                        path,
                        name: import_name,
                        is_namespace: !file_exists(entries, joined(path, "__init__.py"@)),
                    },
                )
            } else if file_exists(entries, path + ".py"@) {
                Some(ResolvedModel { path: path + ".py"@, name: import_name, is_namespace: false })
            } else {
                None
            }
        }
    } else if file_exists(entries, joined(base, parts[0] + ".py"@)) {
        Some(
            ResolvedModel {
                path: joined(base, parts[0] + ".py"@),
                name: import_name,
                is_namespace: false,
            },
        )
    } else {
        None
    }
}

/// Makes a resolved package.
pub fn resolved(path: &Vec<char>, name: &str, is_namespace: bool) -> (r: ResolvedPackage)
    ensures
        resolved_view(r) == (ResolvedModel { path: path@, name: name@, is_namespace }),
{
    ResolvedPackage { path: string_of(path), name: name.to_owned(), is_namespace }
}

/// Finds a Python module below `base`.
fn resolve_python_module(import_name: &str, base: &str, entries: &Vec<IndexedFile>) -> (r: Option<
    ResolvedPackage,
>)
    ensures
        opt_resolved(r) == python_module_of(import_name@, base@, entries@),
{
    let parts = split(&chars_of(import_name), '.');
    assert(rows(parts@)[0] == parts@[0]@);
    let base = chars_of(base);
    let init = chars_of("__init__.py");
    let py = chars_of(".py");
    let pkg_dir = join_path(&base, &parts[0]);
    if is_dir(entries, &pkg_dir) {
        if parts.len() == 1 {
            let has_init = is_file(entries, &join_path(&pkg_dir, &init));
            Some(resolved(&pkg_dir, import_name, !has_init))
        } else {
            let mut path = pkg_dir;
            let mut i: usize = 1;
            let ghost start = path@;
            while i < parts.len()
                invariant
                    1 <= i <= parts.len(),
                    path@ == below(start, rows(parts@), 1, i as int),
                decreases parts.len() - i,
            {
                assert(rows(parts@)[i as int] == parts@[i as int]@);
                path = join_path(&path, &parts[i]);
                i += 1;
            }
            if is_dir(entries, &path) {
                let has_init = is_file(entries, &join_path(&path, &init));
                Some(resolved(&path, import_name, !has_init))
            } else {
                let py_file = concat(&path, &py);
                if is_file(entries, &py_file) {
                    Some(resolved(&py_file, import_name, false))
                } else {
                    None
                }
            }
        }
    } else {
        let py_file = join_path(&base, &concat(&parts[0], &py));
        if is_file(entries, &py_file) {
            Some(resolved(&py_file, import_name, false))
        } else {
            None
        }
    }
}

/// Whether `module_name` names a module of the Python standard library in
/// `stdlib_path`: its first name is a directory there, or a file with
/// `.py`.
pub fn is_python_stdlib_module(module_name: &str, stdlib_path: &str, entries: &Vec<IndexedFile>) -> (r:
    bool)
    ensures
        r == (dir_exists(entries@, joined(stdlib_path@, split_on(module_name@, '.')[0]))
            || file_exists(
            entries@,
            joined(stdlib_path@, split_on(module_name@, '.')[0] + ".py"@),
        )),
{
    let parts = split(&chars_of(module_name), '.');
    assert(rows(parts@)[0] == parts@[0]@);
    let base = chars_of(stdlib_path);
    if is_dir(entries, &join_path(&base, &parts[0])) {
        return true;
    }
    is_file(entries, &join_path(&base, &concat(&parts[0], &chars_of(".py"))))
}

/// Where a module of the Python standard library lies in `stdlib_path`.
pub fn resolve_python_stdlib_import(
    import_name: &str,
    stdlib_path: &str,
    entries: &Vec<IndexedFile>,
) -> (r: Option<ResolvedPackage>)
    ensures
        opt_resolved(r) == python_module_of(import_name@, stdlib_path@, entries@),
{
    resolve_python_module(import_name, stdlib_path, entries)
}

/// Where an installed Python package lies in `site_packages`: a package
/// by its directory, a module by its file, a submodule below its package.
pub fn resolve_python_import(import_name: &str, site_packages: &str, entries: &Vec<IndexedFile>) -> (r:
    Option<ResolvedPackage>)
    ensures
        opt_resolved(r) == python_module_of(import_name@, site_packages@, entries@),
{
    resolve_python_module(import_name, site_packages, entries)
}

/// Whether the entry at `path` is a Python directory below `lib_dir` that
/// holds `site-packages`.
pub open spec fn holds_site_packages(
    entries: Seq<IndexedFile>,
    lib_dir: Seq<char>,
    path: Seq<char>,
) -> bool {
    &&& parent_of(path) == lib_dir
    &&& has_prefix(base_name(path), "python"@)
    &&& dir_exists(entries, joined(path, "site-packages"@))
}

/// The position of the first entry from `from` on that is a Python
/// directory below `lib_dir` with `site-packages` in it, or the number of
/// entries.
pub open spec fn python_dir_position(entries: Seq<IndexedFile>, lib_dir: Seq<char>, from: int) -> int
    decreases entries.len() - from,
{
    if from < 0 || from >= entries.len() {
        entries.len() as int
    } else if holds_site_packages(entries, lib_dir, entries[from].path@) {
        from
    } else {
        python_dir_position(entries, lib_dir, from + 1)
    }
}

/// The `site-packages` of a virtual environment: below the first entry in
/// its `lib` whose name begins with `python` and that holds one; else its
/// `Lib/site-packages`, if that is a directory.
pub open spec fn site_packages_in(venv: Seq<char>, entries: Seq<IndexedFile>) -> Option<Seq<char>> {
    let lib_dir = joined(venv, "lib"@);
    let at = python_dir_position(entries, lib_dir, 0);
    let other = joined(joined(venv, "Lib"@), "site-packages"@);
    if dir_exists(entries, lib_dir) && at < entries.len() {
        Some(joined(entries[at].path@, "site-packages"@))
    } else if dir_exists(entries, other) {
        Some(other)
    } else {
        None
    }
}

/// The `site-packages` of a virtual environment.
pub fn find_site_packages_in_venv(venv: &Vec<char>, entries: &Vec<IndexedFile>) -> (r: Option<
    Vec<char>,
>)
    ensures
        r is Some == site_packages_in(venv@, entries@) is Some,
        r is Some ==> r->0@ == site_packages_in(venv@, entries@)->0,
{
    let lib_dir = join_path(venv, &chars_of("lib"));
    let site = chars_of("site-packages");
    let python = chars_of("python");
    if is_dir(entries, &lib_dir) {
        let mut i: usize = 0;
        while i < entries.len()
            invariant
                i <= entries.len(),
                site@ == "site-packages"@,
                python@ == "python"@,
                dir_exists(entries@, lib_dir@),
                lib_dir@ == joined(venv@, "lib"@),
                python_dir_position(entries@, lib_dir@, 0) == python_dir_position(
                    entries@,
                    lib_dir@,
                    i as int,
                ),
            decreases entries.len() - i,
        {
            let path = chars_of(entries[i].path.as_str());
            if same(&parent(&path), &lib_dir) && starts_with(&file_name(&path), &python) {
                let candidate = join_path(&path, &site);
                if is_dir(entries, &candidate) {
                    return Some(candidate);
                }
            }
            i += 1;
        }
    }
    let other = join_path(&join_path(venv, &chars_of("Lib")), &site);
    if is_dir(entries, &other) {
        Some(other)
    } else {
        None
    }
}

/// The `site-packages` of the virtual environment called `name` in `dir`,
/// if `dir` holds one.
pub open spec fn site_packages_at(dir: Seq<char>, name: Seq<char>, entries: Seq<IndexedFile>) -> Option<
    Seq<char>,
> {
    if dir_exists(entries, joined(dir, name)) {
        site_packages_in(joined(dir, name), entries)
    } else {
        None
    }
}

/// The `site-packages` of the first `.venv` in the directories above `dir`
/// that has one, nearest first.
pub open spec fn site_packages_above(dir: Seq<char>, entries: Seq<IndexedFile>) -> Option<Seq<char>>
    decreases dir.len(),
{
    if crate::paths::last_index_of(dir, '/') < 0 || parent_of(dir).len() >= dir.len() {
        None
    } else if site_packages_at(parent_of(dir), ".venv"@, entries) is Some {
        site_packages_at(parent_of(dir), ".venv"@, entries)
    } else {
        site_packages_above(parent_of(dir), entries)
    }
}

/// The `site-packages` of a project: that of the `.venv` in its root, else
/// of the `venv` there, else of the nearest `.venv` above the root.
pub open spec fn site_packages_of(project_root: Seq<char>, entries: Seq<IndexedFile>) -> Option<
    Seq<char>,
> {
    if site_packages_at(project_root, ".venv"@, entries) is Some {
        site_packages_at(project_root, ".venv"@, entries)
    } else if site_packages_at(project_root, "venv"@, entries) is Some {
        site_packages_at(project_root, "venv"@, entries)
    } else {
        site_packages_above(project_root, entries)
    }
}

/// The `site-packages` of the virtual environment `name` in `dir`.
fn site_packages_here(dir: &Vec<char>, name: &str, entries: &Vec<IndexedFile>) -> (r: Option<
    Vec<char>,
>)
    ensures
        r is Some == site_packages_at(dir@, name@, entries@) is Some,
        r is Some ==> r->0@ == site_packages_at(dir@, name@, entries@)->0,
{
    let venv = join_path(dir, &chars_of(name));
    if is_dir(entries, &venv) {
        find_site_packages_in_venv(&venv, entries)
    } else {
        None
    }
}

/// The directory where the packages of a Python project are installed.
pub fn find_python_site_packages(project_root: &str, entries: &Vec<IndexedFile>) -> (r: Option<
    String,
>)
    ensures
        crate::syntax::opt_text(r) == site_packages_of(project_root@, entries@),
{
    let root = chars_of(project_root);
    match site_packages_here(&root, ".venv", entries) {
        Some(found) => {
            return Some(string_of(&found));
        },
        None => {},
    }
    match site_packages_here(&root, "venv", entries) {
        Some(found) => {
            return Some(string_of(&found));
        },
        None => {},
    }
    let mut dir = root;
    loop
        invariant
            site_packages_at(project_root@, ".venv"@, entries@) is None,
            site_packages_at(project_root@, "venv"@, entries@) is None,
            site_packages_above(dir@, entries@) == site_packages_above(project_root@, entries@),
        decreases dir.len(),
    {
        let (_, found) = crate::paths::find_last(&dir, '/');
        if !found {
            return None;
        }
        let up = parent(&dir);
        match site_packages_here(&up, ".venv", entries) {
            Some(found) => {
                return Some(string_of(&found));
            },
            None => {},
        }
        dir = up;
    }
}

/// Whether a Go import is of the standard library: its first part, up to
/// the first slash, holds no dot.
pub open spec fn go_stdlib_import(import_path: Seq<char>) -> bool {
    !has_char(split_on(import_path, '/')[0], '.')
}

/// Whether a Go import is of the standard library.
pub fn is_go_stdlib_import(import_path: &str) -> (r: bool)
    ensures
        r == go_stdlib_import(import_path@),
{
    let parts = split(&chars_of(import_path), '/');
    assert(rows(parts@)[0] == parts@[0]@);
    !contains_char(&parts[0], '.')
}

/// Where a package of the Go standard library lies in `stdlib_path`: in
/// the directory of its import path, for an import of the standard library
/// whose directory exists.
pub fn resolve_go_stdlib_import(import_path: &str, stdlib_path: &str, entries: &Vec<IndexedFile>) -> (r:
    Option<ResolvedPackage>)
    ensures
        opt_resolved(r) == if go_stdlib_import(import_path@) && dir_exists(
            entries@,
            joined(stdlib_path@, import_path@),
        ) {
            Some(
                ResolvedModel {
                    path: joined(stdlib_path@, import_path@),
                    name: import_path@,
                    is_namespace: false,
                },
            )
        } else {
            None
        },
{
    if !is_go_stdlib_import(import_path) {
        return None;
    }
    let pkg_dir = join_path(&chars_of(stdlib_path), &chars_of(import_path));
    if is_dir(entries, &pkg_dir) {
        Some(resolved(&pkg_dir, import_path, false))
    } else {
        None
    }
}


/// Where the version `path` of a module lies with `remainder` below it:
/// the path itself where nothing remains.
pub open spec fn with_remainder(path: Seq<char>, remainder: Seq<char>) -> Seq<char> {
    if remainder.len() == 0 {
        path
    } else {
        joined(path, remainder)
    }
}

/// Whether the entry at `path` is a version of the module `module_name` in
/// the directory `dir`, with a directory for `remainder` below it: its
/// name is the module name, `@` and a version.
pub open spec fn is_module_version(
    entries: Seq<IndexedFile>,
    dir: Seq<char>,
    module_name: Seq<char>,
    remainder: Seq<char>,
    path: Seq<char>,
) -> bool {
    &&& parent_of(path) == dir
    &&& has_prefix(base_name(path), module_name + seq!['@'])
    &&& dir_exists(entries, with_remainder(path, remainder))
}

/// The position of the first entry from `from` on that is such a version,
/// or the number of entries.
pub open spec fn version_position(
    entries: Seq<IndexedFile>,
    dir: Seq<char>,
    module_name: Seq<char>,
    remainder: Seq<char>,
    from: int,
) -> int
    decreases entries.len() - from,
{
    if from < 0 || from >= entries.len() {
        entries.len() as int
    } else if is_module_version(entries, dir, module_name, remainder, entries[from].path@) {
        from
    } else {
        version_position(entries, dir, module_name, remainder, from + 1)
    }
}

/// Where the import lies if its first `i` parts name the module: below the
/// first version of that module in the cache that holds a directory for
/// the remaining parts.
pub open spec fn go_import_at(
    parts: Seq<Seq<char>>,
    i: int,
    mod_cache: Seq<char>,
    entries: Seq<IndexedFile>,
) -> Option<Seq<char>> {
    let module_dir = joined(mod_cache, join_of(parts.subrange(0, i), seq!['/']));
    let dir = parent_of(module_dir);
    let remainder = join_of(parts.subrange(i, parts.len() as int), seq!['/']);
    let at = version_position(entries, dir, base_name(module_dir), remainder, 0);
    if dir_exists(entries, dir) && at < entries.len() {
        Some(with_remainder(entries[at].path@, remainder))
    } else {
        None
    }
}

/// Where the import lies if its first `i` parts or fewer, but at least
/// two, name the module; the longest module name is tried first.
pub open spec fn go_import_down(
    parts: Seq<Seq<char>>,
    i: int,
    mod_cache: Seq<char>,
    entries: Seq<IndexedFile>,
) -> Option<Seq<char>>
    decreases i,
{
    if i < 2 || i > parts.len() {
        None
    } else if go_import_at(parts, i, mod_cache, entries) is Some {
        go_import_at(parts, i, mod_cache, entries)
    } else {
        go_import_down(parts, i - 1, mod_cache, entries)
    }
}

/// Where an imported Go package lies in the module cache; none for an
/// import of the standard library.
pub open spec fn go_import_of(
    import_path: Seq<char>,
    mod_cache: Seq<char>,
    entries: Seq<IndexedFile>,
) -> Option<ResolvedModel> {
    let parts = split_on(import_path, '/');
    if go_stdlib_import(import_path) {
        None
    } else {
        match go_import_down(parts, parts.len() as int, mod_cache, entries) {
            Some(path) => Some(ResolvedModel { path, name: import_path, is_namespace: false }),
            None => None,
        }
    }
}

/// Where an imported Go package lies in the module cache `mod_cache`. An
/// import such as `github.com/user/repo/pkg` lies in
/// `github.com/user/repo@version/pkg`, for the longest module name and the
/// first version that fit.
pub fn resolve_go_import(import_path: &str, mod_cache: &str, entries: &Vec<IndexedFile>) -> (r:
    Option<ResolvedPackage>)
    ensures
        opt_resolved(r) == go_import_of(import_path@, mod_cache@, entries@),
{
    if is_go_stdlib_import(import_path) {
        return None;
    }
    let parts = split(&chars_of(import_path), '/');
    let cache = chars_of(mod_cache);
    let mut slash: Vec<char> = Vec::new();
    slash.push('/');
    assert(slash@ =~= seq!['/']);
    let mut at_sign: Vec<char> = Vec::new();
    at_sign.push('@');
    assert(at_sign@ =~= seq!['@']);
    let ghost texts = rows(parts@);
    let mut i: usize = parts.len();
    while i >= 2
        invariant
            i <= parts.len(),
            texts == rows(parts@),
            texts == split_on(import_path@, '/'),
            cache@ == mod_cache@,
            slash@ == seq!['/'],
            at_sign@ == seq!['@'],
            !go_stdlib_import(import_path@),
            go_import_down(texts, parts.len() as int, mod_cache@, entries@) == go_import_down(
                texts,
                i as int,
                mod_cache@,
                entries@,
            ),
        decreases i,
    {
        let module_dir = join_path(&cache, &join_range(&parts, 0, i, &slash));
        let dir = parent(&module_dir);
        let remainder = join_range(&parts, i, parts.len(), &slash);
        let wanted = concat(&file_name(&module_dir), &at_sign);
        if is_dir(entries, &dir) {
            let mut k: usize = 0;
            while k < entries.len()
                invariant
                    k <= entries.len(),
                    version_position(entries@, dir@, base_name(module_dir@), remainder@, 0)
                        == version_position(
                        entries@,
                        dir@,
                        base_name(module_dir@),
                        remainder@,
                        k as int,
                    ),
                    wanted@ == base_name(module_dir@) + seq!['@'],
                    dir_exists(entries@, dir@),
                    module_dir@ == joined(
                        mod_cache@,
                        join_of(texts.subrange(0, i as int), seq!['/']),
                    ),
                    dir@ == parent_of(module_dir@),
                    remainder@ == join_of(texts.subrange(i as int, texts.len() as int), seq!['/']),
                    2 <= i <= parts.len(),
                    texts.len() == parts.len(),
                    texts == split_on(import_path@, '/'),
                    !go_stdlib_import(import_path@),
                    go_import_down(texts, parts.len() as int, mod_cache@, entries@)
                        == go_import_down(texts, i as int, mod_cache@, entries@),
                decreases entries.len() - k,
            {
                let path = chars_of(entries[k].path.as_str());
                if same(&parent(&path), &dir) && starts_with(&file_name(&path), &wanted) {
                    let full = if remainder.len() == 0 {
                        path
                    } else {
                        join_path(&path, &remainder)
                    };
                    if is_dir(entries, &full) {
                        return Some(resolved(&full, import_path, false));
                    }
                }
                k += 1;
            }
        }
        i -= 1;
    }
    None
}

/// Where an installed Node package lies: in the directory of its name
/// below `node_modules`, if that exists.
pub fn resolve_node_import(import_name: &str, node_modules: &str, entries: &Vec<IndexedFile>) -> (r:
    Option<ResolvedPackage>)
    ensures
        opt_resolved(r) == if dir_exists(entries@, joined(node_modules@, import_name@)) {
            Some(
                ResolvedModel {
                    path: joined(node_modules@, import_name@),
                    name: import_name@,
                    is_namespace: false,
                },
            )
        } else {
            None
        },
{
    let dir = join_path(&chars_of(node_modules), &chars_of(import_name));
    if is_dir(entries, &dir) {
        Some(resolved(&dir, import_name, false))
    } else {
        None
    }
}


/// Whether something exists at `path`, a file or a directory.
pub open spec fn path_exists(entries: Seq<IndexedFile>, path: Seq<char>) -> bool {
    dir_exists(entries, path) || file_exists(entries, path)
}

/// The Python interpreter of a project: that of its `.venv`, else that of
/// its `venv`, else `python3`.
pub fn python_interpreter(project_root: &str, entries: &Vec<IndexedFile>) -> (r: String)
    ensures
        r@ == if path_exists(entries@, joined(project_root@, ".venv/bin/python"@)) {
            joined(project_root@, ".venv/bin/python"@)
        } else if path_exists(entries@, joined(project_root@, "venv/bin/python"@)) {
            joined(project_root@, "venv/bin/python"@)
        } else {
            "python3"@
        },
{
    let root = chars_of(project_root);
    let first = join_path(&root, &chars_of(".venv/bin/python"));
    if is_dir(entries, &first) || is_file(entries, &first) {
        return string_of(&first);
    }
    let second = join_path(&root, &chars_of("venv/bin/python"));
    if is_dir(entries, &second) || is_file(entries, &second) {
        return string_of(&second);
    }
    "python3".to_owned()
}

/// The version of Python that the interpreter printed: its output without
/// the white space around it.
pub fn get_python_version(output: &str) -> (r: String)
    ensures
        r@ == trimmed(output@),
{
    string_of(&trim(&chars_of(output)))
}

/// The version that a word such as `go1.21.0` names: the first two of the
/// numbers behind `go`, with a dot between them. None for a word that
/// does not begin with `go`, holds nothing else, or has fewer than two
/// numbers.
pub open spec fn go_version_of_word(word: Seq<char>) -> Option<Seq<char>> {
    let parts = split_on(strip_all_prefix(word, "go"@), '.');
    if has_prefix(word, "go"@) && word.len() > 2 && parts.len() >= 2 {
        Some(parts[0] + "."@ + parts[1])
    } else {
        None
    }
}

/// The version that the first of the words from `from` on names that
/// names one.
pub open spec fn go_version_among(words: Seq<Seq<char>>, from: int) -> Option<Seq<char>>
    decreases words.len() - from,
{
    if from < 0 || from >= words.len() {
        None
    } else if go_version_of_word(words[from]) is Some {
        go_version_of_word(words[from])
    } else {
        go_version_among(words, from + 1)
    }
}

/// The version of Go that `go version` printed: in
/// `go version go1.21.0 linux/amd64` it is `1.21`.
pub fn get_go_version(output: &str) -> (r: Option<String>)
    ensures
        crate::syntax::opt_text(r) == go_version_among(words_of(output@), 0),
{
    let words = split_whitespace(&chars_of(output));
    let go = chars_of("go");
    let dot = chars_of(".");
    let mut i: usize = 0;
    while i < words.len()
        invariant
            i <= words.len(),
            rows(words@) == words_of(output@),
            go@ == "go"@,
            dot@ == "."@,
            go_version_among(rows(words@), 0) == go_version_among(rows(words@), i as int),
        decreases words.len() - i,
    {
        let word = &words[i];
        assert(rows(words@)[i as int] == word@);
        if starts_with(word, &go) && word.len() > 2 {
            let parts = split(&trim_start_matches(word, &go), '.');
            if parts.len() >= 2 {
                assert(rows(parts@)[0] == parts@[0]@);
                assert(rows(parts@)[1] == parts@[1]@);
                let version = concat(&concat(&parts[0], &dot), &parts[1]);
                return Some(string_of(&version));
            }
        }
        i += 1;
    }
    None
}

/// Where the standard library of Python lies, told by the two lines that
/// the interpreter printed, its prefix and its version: in
/// `lib/python` and the version below the prefix, or else in `Lib` below
/// it, whichever is a directory.
pub open spec fn python_stdlib_of(output: Seq<char>, entries: Seq<IndexedFile>) -> Option<Seq<char>> {
    let lines = lines_of(output);
    if lines.len() < 2 {
        None
    } else {
        let prefix = trimmed(lines[0]);
        let unix = joined(joined(prefix, "lib"@), "python"@ + trimmed(lines[1]));
        let windows = joined(prefix, "Lib"@);
        if dir_exists(entries, unix) {
            Some(unix)
        } else if dir_exists(entries, windows) {
            Some(windows)
        } else {
            None
        }
    }
}

/// Where the standard library of Python lies.
pub fn find_python_stdlib(output: &str, entries: &Vec<IndexedFile>) -> (r: Option<String>)
    ensures
        crate::syntax::opt_text(r) == python_stdlib_of(output@, entries@),
{
    let all = lines(&chars_of(output));
    if all.len() < 2 {
        return None;
    }
    assert(rows(all@)[0] == all@[0]@);
    assert(rows(all@)[1] == all@[1]@);
    let prefix = trim(&all[0]);
    let version = trim(&all[1]);
    let unix = join_path(
        &join_path(&prefix, &chars_of("lib")),
        &concat(&chars_of("python"), &version),
    );
    if is_dir(entries, &unix) {
        return Some(string_of(&unix));
    }
    let windows = join_path(&prefix, &chars_of("Lib"));
    if is_dir(entries, &windows) {
        return Some(string_of(&windows));
    }
    None
}

/// The `src` below a root of Go, if it is a directory.
pub open spec fn go_src_of(goroot: Seq<char>, entries: Seq<IndexedFile>) -> Option<Seq<char>> {
    if dir_exists(entries, joined(goroot, "src"@)) {
        Some(joined(goroot, "src"@))
    } else {
        None
    }
}

/// The first of the usual places of the Go sources that is a directory.
pub open spec fn usual_go_src(entries: Seq<IndexedFile>) -> Option<Seq<char>> {
    if dir_exists(entries, "/usr/local/go/src"@) {
        Some("/usr/local/go/src"@)
    } else if dir_exists(entries, "/usr/lib/go/src"@) {
        Some("/usr/lib/go/src"@)
    } else if dir_exists(entries, "/opt/go/src"@) {
        Some("/opt/go/src"@)
    } else {
        None
    }
}

/// Where the standard library of Go lies: below the root that the
/// environment names, else below the root that `go env GOROOT` printed,
/// else in one of the usual places.
pub open spec fn go_stdlib_of(
    goroot: Option<Seq<char>>,
    printed: Option<Seq<char>>,
    entries: Seq<IndexedFile>,
) -> Option<Seq<char>> {
    let named = match goroot {
        Some(g) => go_src_of(g, entries),
        None => None,
    };
    let asked = match printed {
        Some(p) => go_src_of(trimmed(p), entries),
        None => None,
    };
    if named is Some {
        named
    } else if asked is Some {
        asked
    } else {
        usual_go_src(entries)
    }
}

/// The `src` below a root of Go, if it is a directory.
fn go_src(goroot: &Vec<char>, entries: &Vec<IndexedFile>) -> (r: Option<String>)
    ensures
        crate::syntax::opt_text(r) == go_src_of(goroot@, entries@),
{
    let src = join_path(goroot, &chars_of("src"));
    if is_dir(entries, &src) {
        Some(string_of(&src))
    } else {
        None
    }
}

/// The place itself, if it is a directory.
fn existing_dir(place: &str, entries: &Vec<IndexedFile>) -> (r: Option<String>)
    ensures
        r is Some == dir_exists(entries@, place@),
        r is Some ==> r->0@ == place@,
{
    if is_dir(entries, &chars_of(place)) {
        Some(place.to_owned())
    } else {
        None
    }
}

/// Where the standard library of Go lies, by the root that the
/// environment names in `GOROOT` and by what `go env GOROOT` printed.
pub fn find_go_stdlib(goroot: Option<&str>, printed: Option<&str>, entries: &Vec<IndexedFile>) -> (r:
    Option<String>)
    ensures
        crate::syntax::opt_text(r) == go_stdlib_of(opt_str(goroot), opt_str(printed), entries@),
{
    match goroot {
        Some(g) => match go_src(&chars_of(g), entries) {
            Some(src) => {
                return Some(src);
            },
            None => {},
        },
        None => {},
    }
    match printed {
        Some(p) => match go_src(&trim(&chars_of(p)), entries) {
            Some(src) => {
                return Some(src);
            },
            None => {},
        },
        None => {},
    }
    match existing_dir("/usr/local/go/src", entries) {
        Some(src) => {
            return Some(src);
        },
        None => {},
    }
    match existing_dir("/usr/lib/go/src", entries) {
        Some(src) => {
            return Some(src);
        },
        None => {},
    }
    existing_dir("/opt/go/src", entries)
}

/// The module cache below a home directory, if it is a directory.
pub open spec fn mod_cache_below(home: Seq<char>, entries: Seq<IndexedFile>) -> Option<Seq<char>> {
    let cache = joined(joined(joined(home, "go"@), "pkg"@), "mod"@);
    if dir_exists(entries, cache) {
        Some(cache)
    } else {
        None
    }
}

/// Where the module cache of Go lies: where the environment says, else
/// in `go/pkg/mod` below the home directory.
pub open spec fn go_mod_cache_of(
    gomodcache: Option<Seq<char>>,
    home: Option<Seq<char>>,
    user_profile: Option<Seq<char>>,
    entries: Seq<IndexedFile>,
) -> Option<Seq<char>> {
    let named = match gomodcache {
        Some(c) => if dir_exists(entries, c) {
            Some(c)
        } else {
            None
        },
        None => None,
    };
    let at_home = match home {
        Some(h) => mod_cache_below(h, entries),
        None => None,
    };
    let at_profile = match user_profile {
        Some(u) => mod_cache_below(u, entries),
        None => None,
    };
    if named is Some {
        named
    } else if at_home is Some {
        at_home
    } else {
        at_profile
    }
}

/// The module cache below a home directory.
fn mod_cache_in(home: &str, entries: &Vec<IndexedFile>) -> (r: Option<String>)
    ensures
        crate::syntax::opt_text(r) == mod_cache_below(home@, entries@),
{
    let a = join_path(&chars_of(home), &chars_of("go"));
    let b = join_path(&a, &chars_of("pkg"));
    let cache = join_path(&b, &chars_of("mod"));
    if is_dir(entries, &cache) {
        Some(string_of(&cache))
    } else {
        None
    }
}

/// Where the module cache of Go lies, by what the environment holds for
/// `GOMODCACHE`, `HOME` and `USERPROFILE`.
pub fn find_go_mod_cache(
    gomodcache: Option<&str>,
    home: Option<&str>,
    user_profile: Option<&str>,
    entries: &Vec<IndexedFile>,
) -> (r: Option<String>)
    ensures
        crate::syntax::opt_text(r) == go_mod_cache_of(
            opt_str(gomodcache),
            opt_str(home),
            opt_str(user_profile),
            entries@,
        ),
{
    match gomodcache {
        Some(c) => match existing_dir(c, entries) {
            Some(cache) => {
                return Some(cache);
            },
            None => {},
        },
        None => {},
    }
    match home {
        Some(h) => match mod_cache_in(h, entries) {
            Some(cache) => {
                return Some(cache);
            },
            None => {},
        },
        None => {},
    }
    match user_profile {
        Some(u) => mod_cache_in(u, entries),
        None => None,
    }
}

} // verus!
