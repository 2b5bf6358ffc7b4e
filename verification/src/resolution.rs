//! Resolution of imports to the packages outside a project, by the
//! language of the importing file.

use crate::external_packages::{
    dir_exists, find_python_site_packages, go_import_of, go_stdlib_import, is_go_stdlib_import,
    is_python_stdlib_module, opt_resolved, python_module_of, resolve_go_import,
    resolve_go_stdlib_import, resolve_node_import, resolve_python_import,
    resolve_python_stdlib_import, site_packages_of, ResolvedModel,
};
use crate::file_index::IndexedFile;
use crate::languages::go::Go;
use crate::languages::javascript::JavaScript;
use crate::languages::python::Python;
use crate::languages::typescript::TypeScript;
use crate::packages::ResolvedPackage;
use crate::paths::{base_name, extension, extension_of, file_name, joined};
use crate::syntax::opt_text;
use crate::text::{chars_of, has_prefix, same, split_on, starts_with};
use vstd::prelude::*;

verus! {

/// What is known of the machine: where the languages keep their libraries
/// and packages, which versions they have, and what exists in the file
/// system.
#[derive(Debug, Clone)]
pub struct Environment {
    pub python_stdlib: Option<String>,
    pub python_version: Option<String>,
    pub go_stdlib: Option<String>,
    pub go_mod_cache: Option<String>,
    pub go_version: Option<String>,
    pub node_modules: Option<String>,
    pub node_version: Option<String>,
    /// The paths that are known to exist.
    pub entries: Vec<IndexedFile>,
}

/// A copy of an optional string.
fn copy_opt(o: &Option<String>) -> (r: Option<String>)
    ensures
        r == *o,
{
    match o {
        Some(s) => Some(s.clone()),
        None => None,
    }
}

/// A language that can find the packages that its files import.
pub trait ImportResolver {
    /// Where the package that `import_name` names lies, if it can be told.
    spec fn import_of(&self, import_name: Seq<char>, project_root: Seq<char>, env: Environment) -> Option<
        ResolvedModel,
    >;

    /// Whether `import_name` names a part of the standard library.
    spec fn stdlib_import(&self, import_name: Seq<char>, env: Environment) -> bool;

    /// Where the package that `import_name` names lies. `None` where it
    /// cannot be told, or the import stays inside the project.
    fn resolve_import(&self, import_name: &str, project_root: &str, env: &Environment) -> (r: Option<
        ResolvedPackage,
    >)
        ensures
            opt_resolved(r) == self.import_of(import_name@, project_root@, *env),
    ;

    /// Whether `import_name` names a part of the standard library.
    fn is_stdlib_import(&self, import_name: &str, project_root: &str, env: &Environment) -> (r: bool)
        ensures
            r == self.stdlib_import(import_name@, *env),
    ;

    /// The version of the language or its runtime, if it is known.
    fn get_version(&self, env: &Environment) -> Option<String>;

    /// Where the packages of the language are installed, if it is known.
    fn find_package_cache(&self, project_root: &str, env: &Environment) -> Option<String>;
}

/// Where a Python import lies: in the standard library, if that is known
/// and holds it; else in the site packages of the project.
pub open spec fn python_import_of(
    import_name: Seq<char>,
    project_root: Seq<char>,
    env: Environment,
) -> Option<ResolvedModel> {
    let in_stdlib = match env.python_stdlib {
        Some(stdlib) => python_module_of(import_name, stdlib@, env.entries@),
        None => None,
    };
    if in_stdlib is Some {
        in_stdlib
    } else {
        match site_packages_of(project_root, env.entries@) {
            Some(site) => python_module_of(import_name, site, env.entries@),
            None => None,
        }
    }
}

impl ImportResolver for Python {
    open spec fn import_of(&self, import_name: Seq<char>, project_root: Seq<char>, env: Environment) -> Option<
        ResolvedModel,
    > {
        python_import_of(import_name, project_root, env)
    }

    open spec fn stdlib_import(&self, import_name: Seq<char>, env: Environment) -> bool {
        match env.python_stdlib {
            Some(stdlib) => dir_exists(
                env.entries@,
                joined(stdlib@, split_on(import_name, '.')[0]),
            ) || crate::external_packages::file_exists(
                env.entries@,
                joined(stdlib@, split_on(import_name, '.')[0] + ".py"@),
            ),
            None => false,
        }
    }

    fn resolve_import(&self, import_name: &str, project_root: &str, env: &Environment) -> (r: Option<
        ResolvedPackage,
    >) {
        match &env.python_stdlib {
            Some(stdlib) => {
                match resolve_python_stdlib_import(import_name, stdlib.as_str(), &env.entries) {
                    Some(pkg) => {
                        return Some(pkg);
                    },
                    None => {},
                }
            },
            None => {},
        }
        match find_python_site_packages(project_root, &env.entries) {
            Some(site) => resolve_python_import(import_name, site.as_str(), &env.entries),
            None => None,
        }
    }

    fn is_stdlib_import(&self, import_name: &str, project_root: &str, env: &Environment) -> (r: bool) {
        match &env.python_stdlib {
            Some(stdlib) => is_python_stdlib_module(import_name, stdlib.as_str(), &env.entries),
            None => false,
        }
    }

    fn get_version(&self, env: &Environment) -> (r: Option<String>)
        ensures
            r == env.python_version,
    {
        copy_opt(&env.python_version)
    }

    fn find_package_cache(&self, project_root: &str, env: &Environment) -> (r: Option<String>)
        ensures
            opt_text(r) == site_packages_of(project_root@, env.entries@),
    {
        find_python_site_packages(project_root, &env.entries)
    }
}

/// Where a package of the Go standard library lies, if the library is
/// known and holds it.
pub open spec fn go_stdlib_package(import_name: Seq<char>, env: Environment) -> Option<ResolvedModel> {
    match env.go_stdlib {
        Some(stdlib) => if go_stdlib_import(import_name) && dir_exists(
            env.entries@,
            joined(stdlib@, import_name),
        ) {
            Some(
                ResolvedModel {
                    path: joined(stdlib@, import_name),
                    name: import_name,
                    is_namespace: false,
                },
            )
        } else {
            None
        },
        None => None,
    }
}

/// Where a Go import lies: in the standard library, if that is known and
/// holds it; else in the module cache, if that is known.
pub open spec fn go_package_of(import_name: Seq<char>, env: Environment) -> Option<ResolvedModel> {
    if go_stdlib_package(import_name, env) is Some {
        go_stdlib_package(import_name, env)
    } else {
        match env.go_mod_cache {
            Some(cache) => go_import_of(import_name, cache@, env.entries@),
            None => None,
        }
    }
}

impl ImportResolver for Go {
    open spec fn import_of(&self, import_name: Seq<char>, project_root: Seq<char>, env: Environment) -> Option<
        ResolvedModel,
    > {
        go_package_of(import_name, env)
    }

    open spec fn stdlib_import(&self, import_name: Seq<char>, env: Environment) -> bool {
        go_stdlib_import(import_name)
    }

    fn resolve_import(&self, import_name: &str, project_root: &str, env: &Environment) -> (r: Option<
        ResolvedPackage,
    >) {
        if is_go_stdlib_import(import_name) {
            match &env.go_stdlib {
                Some(stdlib) => {
                    match resolve_go_stdlib_import(import_name, stdlib.as_str(), &env.entries) {
                        Some(pkg) => {
                            return Some(pkg);
                        },
                        None => {},
                    }
                },
                None => {},
            }
        }
        match &env.go_mod_cache {
            Some(cache) => resolve_go_import(import_name, cache.as_str(), &env.entries),
            None => None,
        }
    }

    fn is_stdlib_import(&self, import_name: &str, project_root: &str, env: &Environment) -> (r: bool) {
        is_go_stdlib_import(import_name)
    }

    fn get_version(&self, env: &Environment) -> (r: Option<String>)
        ensures
            r == env.go_version,
    {
        copy_opt(&env.go_version)
    }

    fn find_package_cache(&self, project_root: &str, env: &Environment) -> (r: Option<String>)
        ensures
            r == env.go_mod_cache,
    {
        copy_opt(&env.go_mod_cache)
    }
}

/// Where a Node import lies: in `node_modules`, if that is known and the
/// import is not relative to the importing file.
pub open spec fn node_package_of(import_name: Seq<char>, env: Environment) -> Option<ResolvedModel> {
    if has_prefix(import_name, "."@) || has_prefix(import_name, "/"@) {
        None
    } else {
        match env.node_modules {
            Some(modules) => if dir_exists(env.entries@, joined(modules@, import_name)) {
                Some(
                    ResolvedModel {
                        path: joined(modules@, import_name),
                        name: import_name,
                        is_namespace: false,
                    },
                )
            } else {
                None
            },
            None => None,
        }
    }
}

/// Finds a Node import.
pub fn resolve_node_package(import_name: &str, env: &Environment) -> (r: Option<ResolvedPackage>)
    ensures
        opt_resolved(r) == node_package_of(import_name@, *env),
{
    let name = chars_of(import_name);
    if starts_with(&name, &chars_of(".")) || starts_with(&name, &chars_of("/")) {
        return None;
    }
    match &env.node_modules {
        Some(modules) => resolve_node_import(import_name, modules.as_str(), &env.entries),
        None => None,
    }
}

impl ImportResolver for JavaScript {
    open spec fn import_of(&self, import_name: Seq<char>, project_root: Seq<char>, env: Environment) -> Option<
        ResolvedModel,
    > {
        node_package_of(import_name, env)
    }

    open spec fn stdlib_import(&self, import_name: Seq<char>, env: Environment) -> bool {
        false
    }

    fn resolve_import(&self, import_name: &str, project_root: &str, env: &Environment) -> (r: Option<
        ResolvedPackage,
    >) {
        resolve_node_package(import_name, env)
    }

    fn is_stdlib_import(&self, import_name: &str, project_root: &str, env: &Environment) -> (r: bool) {
        false
    }

    fn get_version(&self, env: &Environment) -> (r: Option<String>)
        ensures
            r == env.node_version,
    {
        copy_opt(&env.node_version)
    }

    fn find_package_cache(&self, project_root: &str, env: &Environment) -> (r: Option<String>)
        ensures
            r == env.node_modules,
    {
        copy_opt(&env.node_modules)
    }
}

impl ImportResolver for TypeScript {
    open spec fn import_of(&self, import_name: Seq<char>, project_root: Seq<char>, env: Environment) -> Option<
        ResolvedModel,
    > {
        node_package_of(import_name, env)
    }

    open spec fn stdlib_import(&self, import_name: Seq<char>, env: Environment) -> bool {
        false
    }

    fn resolve_import(&self, import_name: &str, project_root: &str, env: &Environment) -> (r: Option<
        ResolvedPackage,
    >) {
        resolve_node_package(import_name, env)
    }

    fn is_stdlib_import(&self, import_name: &str, project_root: &str, env: &Environment) -> (r: bool) {
        false
    }

    fn get_version(&self, env: &Environment) -> (r: Option<String>)
        ensures
            r == env.node_version,
    {
        copy_opt(&env.node_version)
    }

    fn find_package_cache(&self, project_root: &str, env: &Environment) -> (r: Option<String>)
        ensures
            r == env.node_modules,
    {
        copy_opt(&env.node_modules)
    }
}

/// The languages that resolve imports.
#[derive(Debug, Clone, Copy, PartialEq, Eq, Structural)]
pub enum Resolver {
    Python,
    Go,
    JavaScript,
    TypeScript,
}

/// The resolver for files with the extension `ext`, which is taken as it
/// is written.
pub open spec fn resolver_of_extension(ext: Seq<char>) -> Option<Resolver> {
    if ext == "py"@ || ext == "pyi"@ || ext == "pyw"@ {
        Some(Resolver::Python)
    } else if ext == "go"@ {
        Some(Resolver::Go)
    } else if ext == "js"@ || ext == "mjs"@ || ext == "cjs"@ || ext == "jsx"@ {
        Some(Resolver::JavaScript)
    } else if ext == "ts"@ || ext == "mts"@ || ext == "cts"@ || ext == "tsx"@ {
        Some(Resolver::TypeScript)
    } else {
        None
    }
}

/// The resolver for the file at `path`, by the extension of its name.
pub open spec fn resolver_of_path(path: Seq<char>) -> Option<Resolver> {
    match extension_of(base_name(path)) {
        Some(ext) => resolver_of_extension(ext),
        None => None,
    }
}

/// Tests whether `ext` is the word `word`.
fn is_word(ext: &Vec<char>, word: &str) -> (r: bool)
    ensures
        r == (ext@ == word@),
{
    let w = chars_of(word);
    same(ext, &w)
}

/// The resolver for the file at `path`.
pub fn resolver_for_path(path: &str) -> (r: Option<Resolver>)
    ensures
        r == resolver_of_path(path@),
{
    let name = file_name(&chars_of(path));
    match extension(&name) {
        Some(ext) => {
            if is_word(&ext, "py") || is_word(&ext, "pyi") || is_word(&ext, "pyw") {
                Some(Resolver::Python)
            } else if is_word(&ext, "go") {
                Some(Resolver::Go)
            } else if is_word(&ext, "js") || is_word(&ext, "mjs") || is_word(&ext, "cjs")
                || is_word(&ext, "jsx") {
                Some(Resolver::JavaScript)
            } else if is_word(&ext, "ts") || is_word(&ext, "mts") || is_word(&ext, "cts")
                || is_word(&ext, "tsx") {
                Some(Resolver::TypeScript)
            } else {
                None
            }
        },
        None => None,
    }
}

/// Where an import of the file at `file_path` lies, as the language of the
/// file finds it; none for a file of a language that resolves no imports.
pub open spec fn import_resolved(
    file_path: Seq<char>,
    import_name: Seq<char>,
    project_root: Seq<char>,
    env: Environment,
) -> Option<ResolvedModel> {
    match resolver_of_path(file_path) {
        Some(Resolver::Python) => python_import_of(import_name, project_root, env),
        Some(Resolver::Go) => go_package_of(import_name, env),
        Some(Resolver::JavaScript) => node_package_of(import_name, env),
        Some(Resolver::TypeScript) => node_package_of(import_name, env),
        None => None,
    }
}

/// Where the package lies that the file at `file_path` imports as
/// `import_name`.
pub fn resolve_import(file_path: &str, import_name: &str, project_root: &str, env: &Environment) -> (r:
    Option<ResolvedPackage>)
    ensures
        opt_resolved(r) == import_resolved(file_path@, import_name@, project_root@, *env),
{
    match resolver_for_path(file_path) {
        Some(Resolver::Python) => Python.resolve_import(import_name, project_root, env),
        Some(Resolver::Go) => Go.resolve_import(import_name, project_root, env),
        Some(Resolver::JavaScript) => JavaScript.resolve_import(import_name, project_root, env),
        Some(Resolver::TypeScript) => TypeScript.resolve_import(import_name, project_root, env),
        None => None,
    }
}

/// Whether the file at `file_path` imports a part of the standard library
/// of its language as `import_name`. Only Python and Go tell.
pub fn is_stdlib_import(file_path: &str, import_name: &str, project_root: &str, env: &Environment) -> (r:
    bool)
    ensures
        r == match resolver_of_path(file_path@) {
            Some(Resolver::Python) => Python.stdlib_import(import_name@, *env),
            Some(Resolver::Go) => go_stdlib_import(import_name@),
            _ => false,
        },
{
    match resolver_for_path(file_path) {
        Some(Resolver::Python) => Python.is_stdlib_import(import_name, project_root, env),
        Some(Resolver::Go) => Go.is_stdlib_import(import_name, project_root, env),
        _ => false,
    }
}

/// The version of the language of the file at `file_path`, or of its
/// runtime, if it is known.
pub fn get_language_version(file_path: &str, env: &Environment) -> (r: Option<String>)
    ensures
        r == match resolver_of_path(file_path@) {
            Some(Resolver::Python) => env.python_version,
            Some(Resolver::Go) => env.go_version,
            Some(Resolver::JavaScript) => env.node_version,
            Some(Resolver::TypeScript) => env.node_version,
            None => None,
        },
{
    match resolver_for_path(file_path) {
        Some(Resolver::Python) => Python.get_version(env),
        Some(Resolver::Go) => Go.get_version(env),
        Some(Resolver::JavaScript) => JavaScript.get_version(env),
        Some(Resolver::TypeScript) => TypeScript.get_version(env),
        None => None,
    }
}

} // verus!
