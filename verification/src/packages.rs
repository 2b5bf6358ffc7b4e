//! The index of external packages: records of resolved packages, each with
//! the range of language versions it serves, and the symbols they export.

use crate::ordering::{arranged, as_ints, key_views, sort_indices, sorted_indices, Key, SortKey};
use crate::text::text_is;
use crate::version::{version_in_range, Version};
use vstd::prelude::*;

verus! {

/// Where an external package was found.
#[derive(Debug, Clone)]
pub struct ResolvedPackage {
    /// Path to the package source.
    pub path: String,
    /// Package name as imported.
    pub name: String,
    /// Whether this is a namespace package (a directory without an init file).
    pub is_namespace: bool,
}

/// A package of the index.
#[derive(Debug, Clone)]
pub struct PackageRecord {
    pub id: i64,
    pub language: String,
    pub name: String,
    pub path: String,
    pub min_major: u32,
    pub min_minor: u32,
    pub max_major: Option<u32>,
    pub max_minor: Option<u32>,
}

/// A symbol that a package exports.
#[derive(Debug, Clone)]
pub struct SymbolRecord {
    pub id: i64,
    pub package_id: i64,
    pub name: String,
    pub kind: String,
    pub signature: String,
    pub line: u32,
}

/// Why the index refused an insertion.
#[derive(Debug, Clone, Copy, PartialEq, Eq, Structural)]
pub enum StoreError {
    /// A symbol names a package that the index does not hold.
    UnknownPackage,
    /// No identifier is left for a new row.
    Full,
}

impl PackageRecord {
    /// The lower bound of the versions that the package serves.
    pub open spec fn min(&self) -> Version {
        Version { major: self.min_major, minor: self.min_minor }
    }

    /// The upper bound of the versions that the package serves, if it has
    /// one: both parts must be present.
    pub open spec fn max(&self) -> Option<Version> {
        match (self.max_major, self.max_minor) {
            (Some(major), Some(minor)) => Some(Version { major, minor }),
            _ => None,
        }
    }

    /// The lower bound of the version range.
    pub fn min_version(&self) -> (v: Version)
        ensures
            v == self.min(),
    {
        Version { major: self.min_major, minor: self.min_minor }
    }

    /// The upper bound of the version range; `None` where the range is open.
    pub fn max_version(&self) -> (v: Option<Version>)
        ensures
            v == self.max(),
    {
        match (self.max_major, self.max_minor) {
            (Some(major), Some(minor)) => Some(Version { major, minor }),
            _ => None,
        }
    }

    /// An equal record.
    pub fn duplicate(&self) -> (r: PackageRecord)
        ensures
            r == *self,
    {
        PackageRecord {
            id: self.id,
            language: self.language.clone(),
            name: self.name.clone(),
            path: self.path.clone(),
            min_major: self.min_major,
            min_minor: self.min_minor,
            max_major: self.max_major,
            max_minor: self.max_minor,
        }
    }
}

impl SymbolRecord {
    /// An equal record.
    pub fn duplicate(&self) -> (r: SymbolRecord)
        ensures
            r == *self,
    {
        SymbolRecord {
            id: self.id,
            package_id: self.package_id,
            name: self.name.clone(),
            kind: self.kind.clone(),
            signature: self.signature.clone(),
            line: self.line,
        }
    }
}

/// Whether `rec` is a package `name` of `language` that serves `version`;
/// without a version every such package does.
pub open spec fn package_matches(
    rec: PackageRecord,
    language: Seq<char>,
    name: Seq<char>,
    version: Option<Version>,
) -> bool {
    &&& rec.language@ == language
    &&& rec.name@ == name
    &&& match version {
        Some(v) => version_in_range(v, rec.min(), rec.max()),
        None => true,
    }
}

/// The position of the first package from `from` on that matches, or the
/// number of packages if none does.
pub open spec fn first_match(
    packages: Seq<PackageRecord>,
    from: int,
    language: Seq<char>,
    name: Seq<char>,
    version: Option<Version>,
) -> int
    decreases packages.len() - from,
{
    if from < 0 || from >= packages.len() {
        packages.len() as int
    } else if package_matches(packages[from], language, name, version) {
        from
    } else {
        first_match(packages, from + 1, language, name, version)
    }
}

/// The largest identifier among the first `n` packages; 0 if there is none.
pub open spec fn max_package_id(packages: Seq<PackageRecord>, n: int) -> int
    decreases n,
{
    if n <= 0 {
        0
    } else {
        let rest = max_package_id(packages, n - 1);
        if packages[n - 1].id > rest {
            packages[n - 1].id as int
        } else {
            rest
        }
    }
}

/// The largest identifier among the first `n` symbols; 0 if there is none.
pub open spec fn max_symbol_id(symbols: Seq<SymbolRecord>, n: int) -> int
    decreases n,
{
    if n <= 0 {
        0
    } else {
        let rest = max_symbol_id(symbols, n - 1);
        if symbols[n - 1].id > rest {
            symbols[n - 1].id as int
        } else {
            rest
        }
    }
}

/// Those of the first `n` symbols that belong to `package_id`, in order.
pub open spec fn symbols_of_package(symbols: Seq<SymbolRecord>, n: int, package_id: i64) -> Seq<
    SymbolRecord,
>
    decreases n,
{
    if n <= 0 {
        Seq::empty()
    } else {
        let rest = symbols_of_package(symbols, n - 1, package_id);
        if symbols[n - 1].package_id == package_id {
            rest.push(symbols[n - 1])
        } else {
            rest
        }
    }
}

/// Those of the first `n` symbols that do not belong to `package_id`, in order.
pub open spec fn symbols_without_package(
    symbols: Seq<SymbolRecord>,
    n: int,
    package_id: i64,
) -> Seq<SymbolRecord>
    decreases n,
{
    if n <= 0 {
        Seq::empty()
    } else {
        let rest = symbols_without_package(symbols, n - 1, package_id);
        if symbols[n - 1].package_id != package_id {
            rest.push(symbols[n - 1])
        } else {
            rest
        }
    }
}

/// Those of the first `n` packages whose identifier is not `package_id`, in order.
pub open spec fn packages_without(packages: Seq<PackageRecord>, n: int, package_id: i64) -> Seq<
    PackageRecord,
>
    decreases n,
{
    if n <= 0 {
        Seq::empty()
    } else {
        let rest = packages_without(packages, n - 1, package_id);
        if packages[n - 1].id != package_id {
            rest.push(packages[n - 1])
        } else {
            rest
        }
    }
}

/// Whether some package has the identifier `id`.
pub open spec fn has_package(packages: Seq<PackageRecord>, id: i64) -> bool {
    exists|i: int| 0 <= i < packages.len() && #[trigger] packages[i].id == id
}

/// The position of the package with identifier `id` among those from `from`
/// on, or the number of packages if there is none.
pub open spec fn package_position(packages: Seq<PackageRecord>, from: int, id: i64) -> int
    decreases packages.len() - from,
{
    if from < 0 || from >= packages.len() {
        packages.len() as int
    } else if packages[from].id == id {
        from
    } else {
        package_position(packages, from + 1, id)
    }
}

/// Whether the symbol `sym` is called `name`, and belongs to a package of
/// `language` that serves `version`.
pub open spec fn symbol_matches(
    packages: Seq<PackageRecord>,
    sym: SymbolRecord,
    language: Seq<char>,
    name: Seq<char>,
    version: Option<Version>,
) -> bool {
    let at = package_position(packages, 0, sym.package_id);
    &&& sym.name@ == name
    &&& at < packages.len()
    &&& packages[at].language@ == language
    &&& match version {
        Some(v) => version_in_range(v, packages[at].min(), packages[at].max()),
        None => true,
    }
}

/// The matching symbols among the first `n`, each with its package, in the
/// order of the symbols.
pub open spec fn symbols_found(
    packages: Seq<PackageRecord>,
    symbols: Seq<SymbolRecord>,
    n: int,
    language: Seq<char>,
    name: Seq<char>,
    version: Option<Version>,
) -> Seq<(PackageRecord, SymbolRecord)>
    decreases n,
{
    if n <= 0 {
        Seq::empty()
    } else {
        let rest = symbols_found(packages, symbols, n - 1, language, name, version);
        if symbol_matches(packages, symbols[n - 1], language, name, version) {
            rest.push((packages[package_position(packages, 0, symbols[n - 1].package_id)], symbols[n - 1]))
        } else {
            rest
        }
    }
}

/// The keys by which the symbols of a package are ordered: their lines.
pub open spec fn line_keys(symbols: Seq<SymbolRecord>) -> Seq<Key> {
    Seq::new(
        symbols.len(),
        |i: int| (Key { rank: symbols[i].line as u64, text: Seq::empty(), tie: 0 }),
    )
}

/// Whether the rows can stand in an index together: identifiers are
/// positive and name one row each, and every symbol belongs to one of the
/// packages.
pub open spec fn rows_valid(packages: Seq<PackageRecord>, symbols: Seq<SymbolRecord>) -> bool {
    &&& forall|i: int| 0 <= i < packages.len() ==> #[trigger] packages[i].id >= 1
    &&& forall|i: int, j: int|
        0 <= i < j < packages.len() ==> #[trigger] packages[i].id != #[trigger] packages[j].id
    &&& forall|i: int| 0 <= i < symbols.len() ==> #[trigger] symbols[i].id >= 1
    &&& forall|i: int, j: int|
        0 <= i < j < symbols.len() ==> #[trigger] symbols[i].id != #[trigger] symbols[j].id
    &&& forall|i: int|
        0 <= i < symbols.len() ==> has_package(packages, #[trigger] symbols[i].package_id)
}

/// The index of external packages, shared by all projects.
pub struct PackageIndex {
    packages: Vec<PackageRecord>,
    symbols: Vec<SymbolRecord>,
}

impl PackageIndex {
    /// The packages, in the order of their insertion.
    pub closed spec fn packages(&self) -> Seq<PackageRecord> {
        self.packages@
    }

    /// The symbols, in the order of their insertion.
    pub closed spec fn symbols(&self) -> Seq<SymbolRecord> {
        self.symbols@
    }

    /// The invariant of the index: its rows are valid together.
    pub open spec fn valid(&self) -> bool {
        rows_valid(self.packages(), self.symbols())
    }

    /// An empty index that lives in memory only.
    pub fn open_in_memory() -> (r: Result<PackageIndex, StoreError>)
        ensures
            r is Ok,
            r->Ok_0.valid(),
            r->Ok_0.packages().len() == 0,
            r->Ok_0.symbols().len() == 0,
    {
        Ok(PackageIndex { packages: Vec::new(), symbols: Vec::new() })
    }

    /// An index over rows that were stored earlier; `None` where the rows
    /// break the invariant of the index.
    pub fn open(packages: Vec<PackageRecord>, symbols: Vec<SymbolRecord>) -> (r: Option<
        PackageIndex,
    >)
        ensures
            r is Some <==> rows_valid(packages@, symbols@),
            r is Some ==> r->0.packages() == packages@ && r->0.symbols() == symbols@,
    {
        let index = PackageIndex { packages, symbols };
        if index.check() {
            Some(index)
        } else {
            None
        }
    }

    /// Tests the invariant of the index.
    fn check(&self) -> (r: bool)
        ensures
            r == self.valid(),
    {
        let mut i: usize = 0;
        while i < self.packages.len()
            invariant
                i <= self.packages.len(),
                forall|a: int| 0 <= a < i ==> #[trigger] self.packages()[a].id >= 1,
                forall|a: int, b: int|
                    0 <= a < b < i ==> #[trigger] self.packages()[a].id
                        != #[trigger] self.packages()[b].id,
            decreases self.packages.len() - i,
        {
            if self.packages[i].id < 1 {
                return false;
            }
            let mut j: usize = 0;
            while j < i
                invariant
                    j <= i < self.packages.len(),
                    forall|a: int| 0 <= a < j ==> #[trigger] self.packages()[a].id
                        != self.packages()[i as int].id,
                decreases i - j,
            {
                if self.packages[j].id == self.packages[i].id {
                    return false;
                }
                j += 1;
            }
            i += 1;
        }
        let mut i: usize = 0;
        while i < self.symbols.len()
            invariant
                i <= self.symbols.len(),
                forall|a: int| 0 <= a < i ==> #[trigger] self.symbols()[a].id >= 1,
                forall|a: int, b: int|
                    0 <= a < b < i ==> #[trigger] self.symbols()[a].id
                        != #[trigger] self.symbols()[b].id,
                forall|a: int|
                    0 <= a < i ==> has_package(
                        self.packages(),
                        #[trigger] self.symbols()[a].package_id,
                    ),
            decreases self.symbols.len() - i,
        {
            if self.symbols[i].id < 1 {
                return false;
            }
            if !self.holds_package(self.symbols[i].package_id) {
                return false;
            }
            let mut j: usize = 0;
            while j < i
                invariant
                    j <= i < self.symbols.len(),
                    forall|a: int| 0 <= a < j ==> #[trigger] self.symbols()[a].id
                        != self.symbols()[i as int].id,
                decreases i - j,
            {
                if self.symbols[j].id == self.symbols[i].id {
                    return false;
                }
                j += 1;
            }
            i += 1;
        }
        true
    }

    /// Tests whether a package has the identifier `id`.
    pub fn holds_package(&self, id: i64) -> (r: bool)
        ensures
            r == has_package(self.packages(), id),
    {
        let mut i: usize = 0;
        while i < self.packages.len()
            invariant
                i <= self.packages.len(),
                forall|a: int| 0 <= a < i ==> #[trigger] self.packages()[a].id != id,
            decreases self.packages.len() - i,
        {
            if self.packages[i].id == id {
                return true;
            }
            i += 1;
        }
        false
    }

    /// Drops every package and every symbol.
    pub fn clear(&mut self) -> (r: Result<(), StoreError>)
        ensures
            r is Ok,
            final(self).valid(),
            final(self).packages().len() == 0,
            final(self).symbols().len() == 0,
    {
        self.packages = Vec::new();
        self.symbols = Vec::new();
        Ok(())
    }

    /// The number of packages.
    pub fn package_count(&self) -> (n: usize)
        ensures
            n == self.packages().len(),
    {
        self.packages.len()
    }

    /// The number of symbols.
    pub fn symbol_count(&self) -> (n: usize)
        ensures
            n == self.symbols().len(),
    {
        self.symbols.len()
    }

    /// The package at position `i` of the insertion order.
    pub fn package_at(&self, i: usize) -> (r: &PackageRecord)
        requires
            i < self.packages().len(),
        ensures
            *r == self.packages()[i as int],
    {
        &self.packages[i]
    }

    /// The symbol at position `i` of the insertion order.
    pub fn symbol_at(&self, i: usize) -> (r: &SymbolRecord)
        requires
            i < self.symbols().len(),
        ensures
            *r == self.symbols()[i as int],
    {
        &self.symbols[i]
    }

    /// Adds a package and returns its identifier: one more than the largest
    /// identifier in use. Fails with `Full`, and changes nothing, where that
    /// would pass the largest `i64`.
    pub fn insert_package(
        &mut self,
        language: &str,
        name: &str,
        path: &str,
        min_version: Version,
        max_version: Option<Version>,
    ) -> (r: Result<i64, StoreError>)
        requires
            old(self).valid(),
        ensures
            final(self).valid(),
            final(self).symbols() == old(self).symbols(),
            max_package_id(old(self).packages(), old(self).packages().len() as int) < i64::MAX
                ==> r == Ok::<i64, StoreError>(
                (max_package_id(old(self).packages(), old(self).packages().len() as int)
                    + 1) as i64,
            ),
            max_package_id(old(self).packages(), old(self).packages().len() as int) >= i64::MAX
                ==> r == Err::<i64, StoreError>(StoreError::Full),
            r is Err ==> final(self).packages() == old(self).packages(),
            r is Ok ==> {
                let rec = final(self).packages().last();
                &&& final(self).packages().len() == old(self).packages().len() + 1
                &&& final(self).packages().drop_last() == old(self).packages()
                &&& rec.id == r->Ok_0
                &&& rec.language@ == language@
                &&& rec.name@ == name@
                &&& rec.path@ == path@
                &&& rec.min() == min_version
                &&& rec.max() == max_version
            },
    {
        let top = self.top_package_id();
        if top == i64::MAX {
            return Err(StoreError::Full);
        }
        let id: i64 = top + 1;
        let rec = PackageRecord {
            id,
            language: language.to_owned(),
            name: name.to_owned(),
            path: path.to_owned(),
            min_major: min_version.major,
            min_minor: min_version.minor,
            max_major: match max_version {
                Some(v) => Some(v.major),
                None => None,
            },
            max_minor: match max_version {
                Some(v) => Some(v.minor),
                None => None,
            },
        };
        let ghost before = self.packages@;
        self.packages.push(rec);
        proof {
            assert(self.packages@.drop_last() =~= before);
            assert forall|i: int, j: int| 0 <= i < j < self.packages().len() implies #[trigger] self.packages()[i].id
                != #[trigger] self.packages()[j].id by {
                if j == before.len() {
                    lemma_max_package_id_bounds(before, before.len() as int, i);
                }
            }
            assert forall|i: int| 0 <= i < self.symbols().len() implies has_package(
                self.packages(),
                #[trigger] self.symbols()[i].package_id,
            ) by {
                let pid = self.symbols()[i].package_id;
                assert(has_package(before, pid));
                let k = choose|k: int| 0 <= k < before.len() && #[trigger] before[k].id == pid;
                assert(self.packages()[k].id == pid);
            }
        }
        Ok(id)
    }

    /// The largest package identifier in use; 0 if there is no package.
    fn top_package_id(&self) -> (top: i64)
        requires
            self.valid(),
        ensures
            top == max_package_id(self.packages(), self.packages().len() as int),
            top >= 0,
    {
        let mut top: i64 = 0;
        let mut i: usize = 0;
        while i < self.packages.len()
            invariant
                i <= self.packages.len(),
                top == max_package_id(self.packages(), i as int),
                top >= 0,
            decreases self.packages.len() - i,
        {
            if self.packages[i].id > top {
                top = self.packages[i].id;
            }
            i += 1;
        }
        top
    }

    /// The number of symbol identifiers that are left: those above the
    /// largest in use.
    pub fn free_symbol_ids(&self) -> (n: u64)
        requires
            self.valid(),
        ensures
            n == i64::MAX - max_symbol_id(self.symbols(), self.symbols().len() as int),
    {
        let top = self.top_symbol_id();
        (0x7FFF_FFFF_FFFF_FFFFi64 - top) as u64
    }

    /// The largest symbol identifier in use; 0 if there is no symbol.
    fn top_symbol_id(&self) -> (top: i64)
        requires
            self.valid(),
        ensures
            top == max_symbol_id(self.symbols(), self.symbols().len() as int),
            top >= 0,
    {
        let mut top: i64 = 0;
        let mut i: usize = 0;
        while i < self.symbols.len()
            invariant
                i <= self.symbols.len(),
                top == max_symbol_id(self.symbols(), i as int),
                top >= 0,
            decreases self.symbols.len() - i,
        {
            if self.symbols[i].id > top {
                top = self.symbols[i].id;
            }
            i += 1;
        }
        top
    }

    /// Attaches a symbol to the package `package_id` and returns the
    /// symbol's identifier: one more than the largest in use. Fails with
    /// `UnknownPackage` where the index holds no such package, else with
    /// `Full` where no identifier is left; a failure changes nothing.
    pub fn insert_symbol(
        &mut self,
        package_id: i64,
        name: &str,
        kind: &str,
        signature: &str,
        line: u32,
    ) -> (r: Result<i64, StoreError>)
        requires
            old(self).valid(),
        ensures
            final(self).valid(),
            final(self).packages() == old(self).packages(),
            !has_package(old(self).packages(), package_id) ==> r == Err::<i64, StoreError>(
                StoreError::UnknownPackage,
            ),
            has_package(old(self).packages(), package_id) && max_symbol_id(
                old(self).symbols(),
                old(self).symbols().len() as int,
            ) >= i64::MAX ==> r == Err::<i64, StoreError>(StoreError::Full),
            has_package(old(self).packages(), package_id) && max_symbol_id(
                old(self).symbols(),
                old(self).symbols().len() as int,
            ) < i64::MAX ==> r == Ok::<i64, StoreError>(
                (max_symbol_id(old(self).symbols(), old(self).symbols().len() as int) + 1) as i64,
            ),
            r is Err ==> final(self).symbols() == old(self).symbols(),
            r is Ok ==> {
                let rec = final(self).symbols().last();
                &&& final(self).symbols().len() == old(self).symbols().len() + 1
                &&& final(self).symbols().drop_last() == old(self).symbols()
                &&& rec.id == r->Ok_0
                &&& rec.package_id == package_id
                &&& rec.name@ == name@
                &&& rec.kind@ == kind@
                &&& rec.signature@ == signature@
                &&& rec.line == line
            },
    {
        if !self.holds_package(package_id) {
            return Err(StoreError::UnknownPackage);
        }
        let top = self.top_symbol_id();
        if top == i64::MAX {
            return Err(StoreError::Full);
        }
        let id: i64 = top + 1;
        let rec = SymbolRecord {
            id,
            package_id,
            name: name.to_owned(),
            kind: kind.to_owned(),
            signature: signature.to_owned(),
            line,
        };
        let ghost before = self.symbols@;
        self.symbols.push(rec);
        proof {
            assert(self.symbols@.drop_last() =~= before);
            assert forall|i: int, j: int| 0 <= i < j < self.symbols().len() implies #[trigger] self.symbols()[i].id
                != #[trigger] self.symbols()[j].id by {
                if j == before.len() {
                    lemma_max_symbol_id_bounds(before, before.len() as int, i);
                }
            }
        }
        Ok(id)
    }

    /// The first package `name` of `language`, in the order of insertion,
    /// whose version range holds `version`; without a version, the first
    /// package `name` of `language`.
    pub fn find_package(&self, language: &str, name: &str, version: Option<Version>) -> (r: Result<
        Option<PackageRecord>,
        StoreError,
    >)
        ensures
            r is Ok,
            ({
                let at = first_match(self.packages(), 0, language@, name@, version);
                if at < self.packages().len() {
                    r->Ok_0 == Some(self.packages()[at])
                } else {
                    r->Ok_0 is None
                }
            }),
    {
        let mut i: usize = 0;
        while i < self.packages.len()
            invariant
                i <= self.packages.len(),
                first_match(self.packages(), 0, language@, name@, version) == first_match(
                    self.packages(),
                    i as int,
                    language@,
                    name@,
                    version,
                ),
            decreases self.packages.len() - i,
        {
            let rec = &self.packages[i];
            if text_is(rec.language.as_str(), language) && text_is(rec.name.as_str(), name) {
                let fits = match version {
                    Some(v) => v.in_range(rec.min_version(), rec.max_version()),
                    None => true,
                };
                if fits {
                    return Ok(Some(rec.duplicate()));
                }
            }
            i += 1;
        }
        Ok(None)
    }

    /// The symbols of the package `package_id`, ordered by line; symbols of
    /// one line keep the order of their insertion.
    pub fn get_symbols(&self, package_id: i64) -> (r: Result<Vec<SymbolRecord>, StoreError>)
        ensures
            r is Ok,
            ({
                let own = symbols_of_package(
                    self.symbols(),
                    self.symbols().len() as int,
                    package_id,
                );
                r->Ok_0@ == arranged(own, sorted_indices(line_keys(own)))
            }),
    {
        let mut own: Vec<SymbolRecord> = Vec::new();
        let mut keys: Vec<SortKey> = Vec::new();
        let mut i: usize = 0;
        while i < self.symbols.len()
            invariant
                i <= self.symbols.len(),
                own@ == symbols_of_package(self.symbols(), i as int, package_id),
                keys.len() == own.len(),
                key_views(keys@) == line_keys(own@),
            decreases self.symbols.len() - i,
        {
            if self.symbols[i].package_id == package_id {
                let ghost own_before = own@;
                let ghost keys_before = keys@;
                own.push(self.symbols[i].duplicate());
                let key = SortKey { rank: self.symbols[i].line as u64, text: Vec::new(), tie: 0 };
                assert(key@.text =~= Seq::<char>::empty());
                keys.push(key);
                assert forall|k: int| 0 <= k < own@.len() implies key_views(keys@)[k]
                    == line_keys(own@)[k] by {
                    if k < own_before.len() {
                        assert(key_views(keys_before)[k] == line_keys(own_before)[k]);
                    }
                }
                assert(key_views(keys@) =~= line_keys(own@));
            }
            i += 1;
        }
        let order = sort_indices(&keys);
        let mut out: Vec<SymbolRecord> = Vec::new();
        let mut k: usize = 0;
        while k < order.len()
            invariant
                k <= order.len(),
                order.len() == own.len(),
                forall|i: int| 0 <= i < order.len() ==> 0 <= #[trigger] order@[i] < own.len(),
                out@ == arranged(own@, as_ints(order@).take(k as int)),
            decreases order.len() - k,
        {
            out.push(own[order[k]].duplicate());
            assert(out@ =~= arranged(own@, as_ints(order@).take(k + 1)));
            k += 1;
        }
        assert(as_ints(order@).take(order.len() as int) =~= as_ints(order@));
        Ok(out)
    }

    /// The symbols called `symbol_name` in packages of `language`, each with
    /// its package, in the order in which the symbols were inserted; with a
    /// version, only those of packages whose range holds it.
    pub fn find_symbol(&self, language: &str, symbol_name: &str, version: Option<Version>) -> (r:
        Result<Vec<(PackageRecord, SymbolRecord)>, StoreError>)
        ensures
            r is Ok,
            r->Ok_0@ == symbols_found(
                self.packages(),
                self.symbols(),
                self.symbols().len() as int,
                language@,
                symbol_name@,
                version,
            ),
    {
        let mut out: Vec<(PackageRecord, SymbolRecord)> = Vec::new();
        let mut i: usize = 0;
        while i < self.symbols.len()
            invariant
                i <= self.symbols.len(),
                out@ == symbols_found(
                    self.packages(),
                    self.symbols(),
                    i as int,
                    language@,
                    symbol_name@,
                    version,
                ),
            decreases self.symbols.len() - i,
        {
            let sym = &self.symbols[i];
            if text_is(sym.name.as_str(), symbol_name) {
                let at = self.position_of(sym.package_id);
                if at < self.packages.len() {
                    let pkg = &self.packages[at];
                    if text_is(pkg.language.as_str(), language) {
                        let fits = match version {
                            Some(v) => v.in_range(pkg.min_version(), pkg.max_version()),
                            None => true,
                        };
                        if fits {
                            out.push((pkg.duplicate(), sym.duplicate()));
                        }
                    }
                }
            }
            i += 1;
        }
        Ok(out)
    }

    /// The position of the package with identifier `id`, or the number of
    /// packages if there is none.
    fn position_of(&self, id: i64) -> (at: usize)
        ensures
            at == package_position(self.packages(), 0, id),
            at <= self.packages().len(),
    {
        let mut i: usize = 0;
        while i < self.packages.len()
            invariant
                i <= self.packages.len(),
                package_position(self.packages(), 0, id) == package_position(
                    self.packages(),
                    i as int,
                    id,
                ),
            decreases self.packages.len() - i,
        {
            if self.packages[i].id == id {
                return i;
            }
            i += 1;
        }
        i
    }

    /// Whether the index holds a package `name` of `language`.
    pub fn is_indexed(&self, language: &str, name: &str) -> (r: Result<bool, StoreError>)
        ensures
            r is Ok,
            r->Ok_0 == exists|i: int|
                0 <= i < self.packages().len() && package_matches(
                    #[trigger] self.packages()[i],
                    language@,
                    name@,
                    None,
                ),
    {
        let mut i: usize = 0;
        while i < self.packages.len()
            invariant
                i <= self.packages.len(),
                forall|a: int|
                    0 <= a < i ==> !package_matches(
                        #[trigger] self.packages()[a],
                        language@,
                        name@,
                        None,
                    ),
            decreases self.packages.len() - i,
        {
            if text_is(self.packages[i].language.as_str(), language) && text_is(
                self.packages[i].name.as_str(),
                name,
            ) {
                return Ok(true);
            }
            i += 1;
        }
        Ok(false)
    }

    /// Removes the package `package_id`, and first every symbol that
    /// belongs to it. Other rows keep their order.
    pub fn delete_package(&mut self, package_id: i64) -> (r: Result<(), StoreError>)
        requires
            old(self).valid(),
        ensures
            r is Ok,
            final(self).valid(),
            final(self).symbols() == symbols_without_package(
                old(self).symbols(),
                old(self).symbols().len() as int,
                package_id,
            ),
            final(self).packages() == packages_without(
                old(self).packages(),
                old(self).packages().len() as int,
                package_id,
            ),
            symbols_of_package(
                final(self).symbols(),
                final(self).symbols().len() as int,
                package_id,
            ).len() == 0,
    {
        let mut symbols: Vec<SymbolRecord> = Vec::new();
        let mut i: usize = 0;
        while i < self.symbols.len()
            invariant
                i <= self.symbols.len(),
                symbols@ == symbols_without_package(self.symbols(), i as int, package_id),
            decreases self.symbols.len() - i,
        {
            if self.symbols[i].package_id != package_id {
                symbols.push(self.symbols[i].duplicate());
            }
            i += 1;
        }
        let mut packages: Vec<PackageRecord> = Vec::new();
        let mut j: usize = 0;
        while j < self.packages.len()
            invariant
                j <= self.packages.len(),
                packages@ == packages_without(self.packages(), j as int, package_id),
            decreases self.packages.len() - j,
        {
            if self.packages[j].id != package_id {
                packages.push(self.packages[j].duplicate());
            }
            j += 1;
        }
        proof {
            lemma_delete_keeps_valid(self.packages(), self.symbols(), package_id);
            lemma_no_symbols_left(self.symbols(), self.symbols().len() as int, package_id);
        }
        self.symbols = symbols;
        self.packages = packages;
        Ok(())
    }
}

/// No identifier among the first `n` packages exceeds their largest.
pub proof fn lemma_max_package_id_bounds(packages: Seq<PackageRecord>, n: int, i: int)
    requires
        0 <= i < n <= packages.len(),
    ensures
        packages[i].id <= max_package_id(packages, n),
    decreases n,
{
    if i < n - 1 {
        lemma_max_package_id_bounds(packages, n - 1, i);
    }
}

/// No identifier among the first `n` symbols exceeds their largest.
pub proof fn lemma_max_symbol_id_bounds(symbols: Seq<SymbolRecord>, n: int, i: int)
    requires
        0 <= i < n <= symbols.len(),
    ensures
        symbols[i].id <= max_symbol_id(symbols, n),
    decreases n,
{
    if i < n - 1 {
        lemma_max_symbol_id_bounds(symbols, n - 1, i);
    }
}

/// Every row that is kept when a package leaves stood in the index before,
/// at a position that grows with its new one.
pub proof fn lemma_kept_symbols(symbols: Seq<SymbolRecord>, n: int, package_id: i64) -> (from: Seq<
    int,
>)
    requires
        0 <= n <= symbols.len(),
    ensures
        from.len() == symbols_without_package(symbols, n, package_id).len(),
        forall|k: int|
            0 <= k < from.len() ==> 0 <= #[trigger] from[k] < n && symbols[from[k]]
                == symbols_without_package(symbols, n, package_id)[k] && symbols[from[k]].package_id
                != package_id,
        forall|k: int, l: int| 0 <= k < l < from.len() ==> from[k] < from[l],
    decreases n,
{
    if n <= 0 {
        Seq::empty()
    } else {
        let rest = lemma_kept_symbols(symbols, n - 1, package_id);
        if symbols[n - 1].package_id != package_id {
            rest.push(n - 1)
        } else {
            rest
        }
    }
}

/// Every package that is kept when one leaves stood in the index before, at
/// a position that grows with its new one; and every package but the one
/// that leaves is kept.
pub proof fn lemma_kept_packages(packages: Seq<PackageRecord>, n: int, package_id: i64) -> (from:
    Seq<int>)
    requires
        0 <= n <= packages.len(),
    ensures
        from.len() == packages_without(packages, n, package_id).len(),
        forall|k: int|
            0 <= k < from.len() ==> 0 <= #[trigger] from[k] < n && packages[from[k]]
                == packages_without(packages, n, package_id)[k],
        forall|k: int, l: int| 0 <= k < l < from.len() ==> from[k] < from[l],
        forall|i: int|
            0 <= i < n && packages[i].id != package_id ==> exists|k: int|
                0 <= k < from.len() && #[trigger] from[k] == i,
    decreases n,
{
    if n <= 0 {
        Seq::empty()
    } else {
        let rest = lemma_kept_packages(packages, n - 1, package_id);
        let from = if packages[n - 1].id != package_id {
            rest.push(n - 1)
        } else {
            rest
        };
        assert forall|i: int| 0 <= i < n && packages[i].id != package_id implies exists|k: int|
            0 <= k < from.len() && #[trigger] from[k] == i by {
            if i < n - 1 {
                let k = choose|k: int| 0 <= k < rest.len() && #[trigger] rest[k] == i;
                assert(from[k] == i);
            } else {
                assert(from[from.len() - 1] == i);
            }
        }
        from
    }
}

/// Removing a package with its symbols leaves valid rows.
pub proof fn lemma_delete_keeps_valid(
    old_packages: Seq<PackageRecord>,
    old_symbols: Seq<SymbolRecord>,
    package_id: i64,
)
    requires
        rows_valid(old_packages, old_symbols),
    ensures
        rows_valid(
            packages_without(old_packages, old_packages.len() as int, package_id),
            symbols_without_package(old_symbols, old_symbols.len() as int, package_id),
        ),
{
    let symbols = symbols_without_package(old_symbols, old_symbols.len() as int, package_id);
    let packages = packages_without(old_packages, old_packages.len() as int, package_id);
    let sfrom = lemma_kept_symbols(old_symbols, old_symbols.len() as int, package_id);
    let pfrom = lemma_kept_packages(old_packages, old_packages.len() as int, package_id);
    assert forall|i: int| 0 <= i < packages.len() implies #[trigger] packages[i].id >= 1 by {
        assert(old_packages[pfrom[i]].id >= 1);
    }
    assert forall|i: int, j: int| 0 <= i < j < packages.len() implies #[trigger] packages[i].id
        != #[trigger] packages[j].id by {
        assert(old_packages[pfrom[i]].id != old_packages[pfrom[j]].id);
    }
    assert forall|i: int| 0 <= i < symbols.len() implies #[trigger] symbols[i].id >= 1 by {
        assert(old_symbols[sfrom[i]].id >= 1);
    }
    assert forall|i: int, j: int| 0 <= i < j < symbols.len() implies #[trigger] symbols[i].id
        != #[trigger] symbols[j].id by {
        assert(old_symbols[sfrom[i]].id != old_symbols[sfrom[j]].id);
    }
    assert forall|i: int| 0 <= i < symbols.len() implies has_package(
        packages,
        #[trigger] symbols[i].package_id,
    ) by {
        let pid = old_symbols[sfrom[i]].package_id;
        assert(has_package(old_packages, pid));
        let a = choose|a: int| 0 <= a < old_packages.len() && #[trigger] old_packages[a].id == pid;
        let k = choose|k: int| 0 <= k < pfrom.len() && #[trigger] pfrom[k] == a;
        assert(packages[k].id == pid);
    }
}

/// Among the rows that are kept when a package leaves, none belongs to it.
pub proof fn lemma_no_symbols_left(symbols: Seq<SymbolRecord>, n: int, package_id: i64)
    requires
        0 <= n <= symbols.len(),
    ensures
        symbols_of_package(
            symbols_without_package(symbols, n, package_id),
            symbols_without_package(symbols, n, package_id).len() as int,
            package_id,
        ).len() == 0,
    decreases n,
{
    if n > 0 {
        lemma_no_symbols_left(symbols, n - 1, package_id);
        let rest = symbols_without_package(symbols, n - 1, package_id);
        if symbols[n - 1].package_id != package_id {
            let all = rest.push(symbols[n - 1]);
            lemma_symbols_of_prefix(all, rest, rest.len() as int, package_id);
        }
    }
}

/// The symbols of a package among the first `n` rows depend on those rows alone.
pub proof fn lemma_symbols_of_prefix(
    a: Seq<SymbolRecord>,
    b: Seq<SymbolRecord>,
    n: int,
    package_id: i64,
)
    requires
        0 <= n <= a.len(),
        n <= b.len(),
        forall|i: int| 0 <= i < n ==> a[i] == b[i],
    ensures
        symbols_of_package(a, n, package_id) == symbols_of_package(b, n, package_id),
    decreases n,
{
    if n > 0 {
        lemma_symbols_of_prefix(a, b, n - 1, package_id);
    }
}


/// Deleting a package deletes its symbols with it: in the symbols that are
/// left none belongs to the package, so that a query for the symbols of
/// the package returns none.
pub proof fn lemma_cascade_delete(symbols: Seq<SymbolRecord>, package_id: i64)
    ensures
        ({
            let left = symbols_without_package(symbols, symbols.len() as int, package_id);
            let own = symbols_of_package(left, left.len() as int, package_id);
            &&& own.len() == 0
            &&& arranged(own, sorted_indices(line_keys(own))).len() == 0
            &&& forall|i: int| 0 <= i < left.len() ==> (#[trigger] left[i]).package_id != package_id
        }),
{
    lemma_no_symbols_left(symbols, symbols.len() as int, package_id);
    let left = symbols_without_package(symbols, symbols.len() as int, package_id);
    let own = symbols_of_package(left, left.len() as int, package_id);
    assert(line_keys(own).len() == 0);
    assert(sorted_indices(line_keys(own)) =~= Seq::<int>::empty());
    let from = lemma_kept_symbols(symbols, symbols.len() as int, package_id);
    assert forall|i: int| 0 <= i < left.len() implies (#[trigger] left[i]).package_id
        != package_id by {
        assert(symbols[from[i]] == left[i]);
    }
}


/// The symbols of a package come by line: of two symbols in the answer, the
/// earlier stands on a line that is no greater; and the answer holds each
/// symbol of the package.
pub proof fn lemma_symbols_by_line(symbols: Seq<SymbolRecord>, package_id: i64, a: int, b: int)
    requires
        0 <= a < b < symbols_of_package(symbols, symbols.len() as int, package_id).len(),
    ensures
        ({
            let own = symbols_of_package(symbols, symbols.len() as int, package_id);
            let answer = arranged(own, sorted_indices(line_keys(own)));
            &&& answer.len() == own.len()
            &&& answer[a].line <= answer[b].line
            &&& answer.contains(own[a])
        }),
{
    let own = symbols_of_package(symbols, symbols.len() as int, package_id);
    let keys = line_keys(own);
    crate::ordering::lemma_sorted_prefix_is_stable(keys, keys.len() as int);
    let order = sorted_indices(keys);
    assert(crate::ordering::key_le(keys[order[a]], keys[order[b]]));
    crate::ordering::lemma_arranged_holds_each(own, keys, a);
}

} // verus!
