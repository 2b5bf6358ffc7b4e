//! Filling the package index: the symbols of a package's entry file are
//! stored under the package, each with all that it holds.

use crate::call_graph::{can_be_read, extract_file, is_extraction_of};
use crate::languages::registry::ExtractionModel;
use crate::languages::{model_of, models_of, Symbol, SymbolModel};
use crate::packages::{
    has_package, max_package_id, max_symbol_id, package_matches, PackageIndex, PackageRecord,
    StoreError, SymbolRecord,
};
use crate::text::clamp;
use crate::version::Version;
use vstd::prelude::*;

verus! {

/// A symbol and all that it holds, in document order.
pub open spec fn flat_symbol(m: SymbolModel) -> Seq<SymbolModel>
    decreases m, 0nat,
{
    seq![m] + flat_symbols(m.children, m.children.len() as int)
}

/// The first `n` symbols and all that they hold, in document order.
pub open spec fn flat_symbols(ms: Seq<SymbolModel>, n: int) -> Seq<SymbolModel>
    decreases ms, n,
{
    if n <= 0 || n > ms.len() {
        Seq::empty()
    } else {
        flat_symbols(ms, n - 1) + flat_symbol(ms[n - 1])
    }
}

/// The line that is stored for a symbol: its first line, or the largest
/// line that the index can hold.
pub open spec fn stored_line(start_line: usize) -> u32 {
    if start_line > u32::MAX {
        u32::MAX
    } else {
        start_line as u32
    }
}

/// Whether `rec` is the record of the symbol `m` under the package
/// `package_id`, with the identifier `id`.
pub open spec fn record_is(rec: SymbolRecord, id: int, package_id: i64, m: SymbolModel) -> bool {
    &&& rec.id == id
    &&& rec.package_id == package_id
    &&& rec.name@ == m.name
    &&& rec.kind@ == m.kind.word()
    &&& rec.signature@ == m.signature
    &&& rec.line == stored_line(m.start_line)
}

/// Whether `after` is `before` with one record for each of `rows` behind
/// it, in order, with the identifiers that follow `top`.
pub open spec fn inserted(
    before: Seq<SymbolRecord>,
    after: Seq<SymbolRecord>,
    package_id: i64,
    rows: Seq<SymbolModel>,
    top: int,
) -> bool {
    &&& after.len() == before.len() + rows.len()
    &&& after.take(before.len() as int) == before
    &&& forall|k: int|
        0 <= k < rows.len() ==> record_is(
            #[trigger] after[before.len() + k],
            top + 1 + k,
            package_id,
            rows[k],
        )
}

/// What holds of the index while the symbols of a package are stored: it
/// is valid, its packages are those from the start, and, if the package
/// exists and the identifiers have not run out, the rows so far are stored.
pub open spec fn progress(
    start: PackageIndex,
    now: PackageIndex,
    package_id: i64,
    rows: Seq<SymbolModel>,
) -> bool {
    let top = max_symbol_id(start.symbols(), start.symbols().len() as int);
    &&& now.valid()
    &&& now.packages() == start.packages()
    &&& !has_package(start.packages(), package_id) ==> now.symbols() == start.symbols()
    &&& has_package(start.packages(), package_id) && top + rows.len() <= i64::MAX ==> inserted(
        start.symbols(),
        now.symbols(),
        package_id,
        rows,
        top,
    ) && max_symbol_id(now.symbols(), now.symbols().len() as int) == top + rows.len()
}

/// The largest identifier after one more record with the next identifier.
proof fn lemma_max_after_insert(before: Seq<SymbolRecord>, after: Seq<SymbolRecord>)
    requires
        after.len() == before.len() + 1,
        after.drop_last() == before,
        after.last().id == max_symbol_id(before, before.len() as int) + 1,
    ensures
        max_symbol_id(after, after.len() as int) == max_symbol_id(before, before.len() as int)
            + 1,
{
    lemma_max_same_prefix(after, before, before.len() as int);
}

/// The largest identifier among the first `n` rows depends on them alone.
proof fn lemma_max_same_prefix(a: Seq<SymbolRecord>, b: Seq<SymbolRecord>, n: int)
    requires
        0 <= n <= a.len(),
        n <= b.len(),
        forall|i: int| 0 <= i < n ==> a[i] == b[i],
    ensures
        max_symbol_id(a, n) == max_symbol_id(b, n),
    decreases n,
{
    if n > 0 {
        lemma_max_same_prefix(a, b, n - 1);
    }
}

/// Stores a symbol and all that it holds under the package.
fn insert_tree(index: &mut PackageIndex, package_id: i64, sym: &Symbol, Ghost(start): Ghost<
    PackageIndex,
>, Ghost(rows): Ghost<Seq<SymbolModel>>) -> (count: usize)
    requires
        progress(start, *old(index), package_id, rows),
    ensures
        progress(start, *final(index), package_id, rows + flat_symbol(model_of(*sym))),
        count == clamp(flat_symbol(model_of(*sym)).len()),
    decreases sym,
{
    let ghost m = model_of(*sym);
    let ghost before = index.symbols();
    let ghost top = max_symbol_id(start.symbols(), start.symbols().len() as int);
    let line: u32 = if sym.start_line > 0xFFFF_FFFF {
        0xFFFF_FFFF
    } else {
        sym.start_line as u32
    };
    let r = index.insert_symbol(
        package_id,
        sym.name.as_str(),
        sym.kind.as_str(),
        sym.signature.as_str(),
        line,
    );
    proof {
        let rows1 = rows + seq![m];
        if has_package(start.packages(), package_id) && top + rows1.len() <= i64::MAX {
            assert(r is Ok);
            let after = index.symbols();
            lemma_max_after_insert(before, after);
            assert(after.take(start.symbols().len() as int) =~= start.symbols()) by {
                assert(before.take(start.symbols().len() as int) == start.symbols());
                assert forall|i: int| 0 <= i < start.symbols().len() implies after[i]
                    == start.symbols()[i] by {
                    assert(after.drop_last()[i] == before[i]);
                    assert(before.take(start.symbols().len() as int)[i] == before[i]);
                }
            }
            assert forall|k: int| 0 <= k < rows1.len() implies record_is(
                #[trigger] after[start.symbols().len() + k],
                top + 1 + k,
                package_id,
                rows1[k],
            ) by {
                if k < rows.len() {
                    assert(after.drop_last()[start.symbols().len() + k] == before[start.symbols().len()
                        + k]);
                }
            }
        }
        assert(progress(start, *index, package_id, rows1));
    }
    let below = insert_list(
        index,
        package_id,
        &sym.children,
        Ghost(start),
        Ghost(rows + seq![m]),
    );
    proof {
        assert(m.children =~= models_of(sym.children@));
        assert(rows + seq![m] + flat_symbols(m.children, m.children.len() as int) =~= rows
            + flat_symbol(m));
    }
    below.saturating_add(1)
}

/// Stores symbols and all that they hold under the package.
fn insert_list(index: &mut PackageIndex, package_id: i64, symbols: &Vec<Symbol>, Ghost(start): Ghost<
    PackageIndex,
>, Ghost(rows): Ghost<Seq<SymbolModel>>) -> (count: usize)
    requires
        progress(start, *old(index), package_id, rows),
    ensures
        progress(
            start,
            *final(index),
            package_id,
            rows + flat_symbols(models_of(symbols@), symbols.len() as int),
        ),
        count == clamp(flat_symbols(models_of(symbols@), symbols.len() as int).len()),
    decreases symbols,
{
    let ghost ms = models_of(symbols@);
    let mut count: usize = 0;
    let mut i: usize = 0;
    assert(rows + flat_symbols(ms, 0) =~= rows);
    while i < symbols.len()
        invariant
            i <= symbols.len(),
            ms == models_of(symbols@),
            progress(start, *index, package_id, rows + flat_symbols(ms, i as int)),
            count == clamp(flat_symbols(ms, i as int).len()),
        decreases symbols.len() - i,
    {
        assert(ms[i as int] == model_of(symbols@[i as int]));
        let n = insert_tree(
            index,
            package_id,
            &symbols[i],
            Ghost(start),
            Ghost(rows + flat_symbols(ms, i as int)),
        );
        assert(rows + flat_symbols(ms, i as int) + flat_symbol(ms[i as int]) =~= rows
            + flat_symbols(ms, i + 1));
        count = count.saturating_add(n);
        i += 1;
    }
    count
}

/// The number of rows of a symbol and all that it holds, as far as 64
/// bits count.
fn count_tree(sym: &Symbol) -> (count: u64)
    ensures
        count == capped(flat_symbol(model_of(*sym)).len()),
    decreases sym,
{
    let below = count_list(&sym.children);
    proof {
        let m = model_of(*sym);
        assert(m.children =~= models_of(sym.children@));
    }
    below.saturating_add(1)
}

/// The number of rows of the symbols and all that they hold, as far as 64
/// bits count.
fn count_list(symbols: &Vec<Symbol>) -> (count: u64)
    ensures
        count == capped(flat_symbols(models_of(symbols@), symbols.len() as int).len()),
    decreases symbols,
{
    let ghost ms = models_of(symbols@);
    let mut count: u64 = 0;
    let mut i: usize = 0;
    while i < symbols.len()
        invariant
            i <= symbols.len(),
            ms == models_of(symbols@),
            count == capped(flat_symbols(ms, i as int).len()),
        decreases symbols.len() - i,
    {
        assert(ms[i as int] == model_of(symbols@[i as int]));
        let n = count_tree(&symbols[i]);
        count = count.saturating_add(n);
        i += 1;
    }
    count
}

/// A number as far as 64 bits count.
pub open spec fn capped(n: nat) -> u64 {
    if n > u64::MAX {
        u64::MAX
    } else {
        n as u64
    }
}

/// Whether `count` symbols can be stored under the package: the error with
/// which the index refuses them, if it does. It refuses all of them where
/// it does not hold the package, and where the identifiers would run out.
pub open spec fn refusal(
    packages: Seq<PackageRecord>,
    symbols: Seq<SymbolRecord>,
    package_id: i64,
    count: nat,
) -> Option<StoreError> {
    if !has_package(packages, package_id) {
        Some(StoreError::UnknownPackage)
    } else if max_symbol_id(symbols, symbols.len() as int) + count > i64::MAX {
        Some(StoreError::Full)
    } else {
        None
    }
}

/// What holds after the symbols `rows` were to be stored under a package:
/// where the index refuses them, the error comes back and the symbols are
/// as before; else the number of rows comes back and each row is stored,
/// in order, with the identifiers that follow the largest in use.
pub open spec fn symbols_attached(
    packages: Seq<PackageRecord>,
    before: Seq<SymbolRecord>,
    after: Seq<SymbolRecord>,
    package_id: i64,
    rows: Seq<SymbolModel>,
    r: Result<usize, StoreError>,
) -> bool {
    match refusal(packages, before, package_id, rows.len()) {
        Some(e) => r == Err::<usize, StoreError>(e) && after == before,
        None => r == Ok::<usize, StoreError>(clamp(rows.len())) && inserted(
            before,
            after,
            package_id,
            rows,
            max_symbol_id(before, before.len() as int),
        ),
    }
}

/// Stores the symbols under the package `pkg_id`, each with all that it
/// holds, in document order, and returns how many there are. Each record
/// holds the name, the word for the kind, the signature and the first line
/// of its symbol, and the next free identifier. Fails with
/// `UnknownPackage` where the index does not hold the package, else with
/// `Full` where the identifiers do not suffice for all the symbols; a
/// failure stores nothing.
pub fn count_and_insert_symbols(index: &mut PackageIndex, pkg_id: i64, symbols: &Vec<Symbol>) -> (r:
    Result<usize, StoreError>)
    requires
        old(index).valid(),
    ensures
        final(index).valid(),
        final(index).packages() == old(index).packages(),
        symbols_attached(
            old(index).packages(),
            old(index).symbols(),
            final(index).symbols(),
            pkg_id,
            flat_symbols(models_of(symbols@), symbols.len() as int),
            r,
        ),
{
    let ghost start = *index;
    let ghost none = Seq::<SymbolModel>::empty();
    let ghost rows = flat_symbols(models_of(symbols@), symbols.len() as int);
    if !index.holds_package(pkg_id) {
        return Err(StoreError::UnknownPackage);
    }
    let wanted = count_list(symbols);
    if wanted > index.free_symbol_ids() {
        return Err(StoreError::Full);
    }
    proof {
        assert(index.symbols().take(index.symbols().len() as int) =~= index.symbols());
    }
    let count = insert_list(index, pkg_id, symbols, Ghost(start), Ghost(none));
    proof {
        assert(none + rows =~= rows);
    }
    Ok(count)
}

/// Whether `rows` are the symbols of the entry file of a package, each
/// with all that it holds: those that the language of the file finds in
/// the tree that parsing its content gives; none for a file that cannot be
/// read.
pub open spec fn are_entry_rows(rows: Seq<SymbolModel>, entry_path: Seq<char>, content: Seq<char>) -> bool {
    if can_be_read(entry_path, content) {
        exists|found: ExtractionModel| #[trigger]
            is_extraction_of(found, entry_path, content) && rows == flat_symbols(
                found.symbols,
                found.symbols.len() as int,
            )
    } else {
        rows.len() == 0
    }
}

/// The symbols of the entry file of a package; none for a file that cannot
/// be read.
fn entry_symbols(entry_path: &str, content: &str) -> (r: Vec<Symbol>)
    ensures
        are_entry_rows(
            flat_symbols(models_of(r@), r.len() as int),
            entry_path@,
            content@,
        ),
{
    match extract_file(entry_path, content) {
        Some(extraction) => {
            proof {
                let found = extraction@;
                assert(found.symbols == models_of(extraction.symbols@));
                assert(is_extraction_of(found, entry_path@, content@));
            }
            extraction.symbols
        },
        None => Vec::new(),
    }
}

/// Stores the symbols of the entry file of a package under the package
/// `pkg_id`: the file is read as the language of its extension reads it,
/// and what `count_and_insert_symbols` does with the symbols of its tree
/// is done. Returns the number of symbols found, 0 for a file that cannot
/// be read; fails as `count_and_insert_symbols` does, and then stores
/// nothing.
pub fn index_package_symbols(index: &mut PackageIndex, pkg_id: i64, entry_path: &str, content: &str) -> (r:
    Result<usize, StoreError>)
    requires
        old(index).valid(),
    ensures
        final(index).valid(),
        final(index).packages() == old(index).packages(),
        exists|rows: Seq<SymbolModel>| #[trigger]
            are_entry_rows(rows, entry_path@, content@) && symbols_attached(
                old(index).packages(),
                old(index).symbols(),
                final(index).symbols(),
                pkg_id,
                rows,
                r,
            ),
{
    let symbols = entry_symbols(entry_path, content);
    let ghost rows = flat_symbols(models_of(symbols@), symbols.len() as int);
    let r = count_and_insert_symbols(index, pkg_id, &symbols);
    assert(are_entry_rows(rows, entry_path@, content@));
    r
}

/// Whether the index holds a package `name` of the language `lang_key`.
pub open spec fn is_known(packages: Seq<PackageRecord>, lang_key: Seq<char>, name: Seq<char>) -> bool {
    exists|i: int|
        0 <= i < packages.len() && package_matches(#[trigger] packages[i], lang_key, name, None)
}

/// What holds after a package with the symbols `rows` was to be taken into
/// the index. A package that the index knew is passed over. Where no
/// identifier is left for the package, or the identifiers do not suffice
/// for its symbols, `Full` comes back. In both cases the index is as it
/// was. Else the package is stored behind the others with the next
/// identifier, and its symbols behind the other symbols; the identifier and
/// the number of symbols come back.
pub open spec fn package_taken_in(
    packages: Seq<PackageRecord>,
    symbols: Seq<SymbolRecord>,
    new_packages: Seq<PackageRecord>,
    new_symbols: Seq<SymbolRecord>,
    lang_key: Seq<char>,
    name: Seq<char>,
    path: Seq<char>,
    min_version: Version,
    max_version: Option<Version>,
    rows: Seq<SymbolModel>,
    r: Result<Option<(i64, usize)>, StoreError>,
) -> bool {
    let top_package = max_package_id(packages, packages.len() as int);
    let top_symbol = max_symbol_id(symbols, symbols.len() as int);
    if is_known(packages, lang_key, name) {
        r == Ok::<Option<(i64, usize)>, StoreError>(None) && new_packages == packages
            && new_symbols == symbols
    } else if top_package >= i64::MAX || top_symbol + rows.len() > i64::MAX {
        r == Err::<Option<(i64, usize)>, StoreError>(StoreError::Full) && new_packages == packages
            && new_symbols == symbols
    } else {
        let rec = new_packages.last();
        &&& r == Ok::<Option<(i64, usize)>, StoreError>(
            Some(((top_package + 1) as i64, clamp(rows.len()))),
        )
        &&& new_packages.len() == packages.len() + 1
        &&& new_packages.drop_last() == packages
        &&& rec.id == top_package + 1
        &&& rec.language@ == lang_key
        &&& rec.name@ == name
        &&& rec.path@ == path
        &&& rec.min() == min_version
        &&& rec.max() == max_version
        &&& inserted(symbols, new_symbols, rec.id, rows, top_symbol)
    }
}

/// Takes a package that was discovered into the index, unless the index
/// holds a package of that language and name already: the package is
/// stored, and the symbols of its entry file under it. Returns the
/// identifier of the package and the number of its symbols; `None`, with
/// the index as it was, where the package was known before. Fails with
/// `Full`, with the index as it was, where no identifier is left for the
/// package or the identifiers do not suffice for its symbols.
pub fn index_discovered_package(
    index: &mut PackageIndex,
    lang_key: &str,
    name: &str,
    path: &str,
    min_version: Version,
    max_version: Option<Version>,
    entry_path: &str,
    content: &str,
) -> (r: Result<Option<(i64, usize)>, StoreError>)
    requires
        old(index).valid(),
    ensures
        final(index).valid(),
        exists|rows: Seq<SymbolModel>| #[trigger]
            are_entry_rows(rows, entry_path@, content@) && package_taken_in(
                old(index).packages(),
                old(index).symbols(),
                final(index).packages(),
                final(index).symbols(),
                lang_key@,
                name@,
                path@,
                min_version,
                max_version,
                rows,
                r,
            ),
{
    let symbols = entry_symbols(entry_path, content);
    let ghost rows = flat_symbols(models_of(symbols@), symbols.len() as int);
    assert(are_entry_rows(rows, entry_path@, content@));
    match index.is_indexed(lang_key, name) {
        Ok(true) => {
            return Ok(None);
        },
        _ => {},
    }
    let wanted = count_list(&symbols);
    if wanted > index.free_symbol_ids() {
        return Err(StoreError::Full);
    }
    let ghost before = *index;
    match index.insert_package(lang_key, name, path, min_version, max_version) {
        Ok(id) => {
            proof {
                assert(index.packages().last().id == id);
                assert(has_package(index.packages(), id));
            }
            match count_and_insert_symbols(index, id, &symbols) {
                Ok(count) => Ok(Some((id, count))),
                Err(e) => Err(e),
            }
        },
        Err(e) => Err(e),
    }
}

/// The versions that the packages of a source serve: from the version
/// of the language on the machine, or from 0.0 where that is not known; up
/// to that version where the source belongs to one version of the
/// language, else without an upper bound.
pub fn version_bounds(version: Option<Version>, version_specific: bool) -> (r: (
    Version,
    Option<Version>,
))
    ensures
        r.0 == match version {
            Some(v) => v,
            None => (Version { major: 0, minor: 0 }),
        },
        r.1 == if version_specific {
            version
        } else {
            None
        },
{
    let min_version = match version {
        Some(v) => v,
        None => Version { major: 0, minor: 0 },
    };
    let max_version = if version_specific {
        version
    } else {
        None
    };
    (min_version, max_version)
}

} // verus!
