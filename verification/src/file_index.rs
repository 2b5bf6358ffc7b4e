//! The file inventory: the paths of a project with their modification
//! times, replaced as a whole by each refresh.

use crate::paths::{
    base_name, last_index_of, lemma_last_index_bounds, lemma_last_index_holds, stem_of,
};
use crate::text::{
    chars_of, clamp, concat, contains, ends_with, has_infix, has_prefix, has_suffix, occurs_at,
    same, starts_with,
};
use vstd::prelude::*;

verus! {

/// The schema version that this library writes.
pub const SCHEMA_VERSION: i64 = 1;

/// One path of the inventory.
#[derive(Debug, Clone)]
pub struct IndexedFile {
    /// The path, relative to the project root, with `/` between its parts.
    pub path: String,
    pub is_dir: bool,
    /// Modification time in seconds since the epoch.
    pub mtime: i64,
}

impl IndexedFile {
    /// An equal entry.
    pub fn duplicate(&self) -> (r: IndexedFile)
        ensures
            r == *self,
    {
        IndexedFile { path: self.path.clone(), is_dir: self.is_dir, mtime: self.mtime }
    }
}

/// Why a refresh was refused.
#[derive(Debug, Clone, Copy, PartialEq, Eq, Structural)]
pub enum IndexError {
    /// The walk named one path twice.
    DuplicatePath,
}

/// Whether no two of the entries share a path.
pub open spec fn paths_unique(files: Seq<IndexedFile>) -> bool {
    forall|i: int, j: int|
        0 <= i < j < files.len() ==> (#[trigger] files[i]).path@ != (#[trigger] files[j]).path@
}

/// Those of the first `n` entries whose path is not empty, in order.
pub open spec fn named_entries(entries: Seq<IndexedFile>, n: int) -> Seq<IndexedFile>
    decreases n,
{
    if n <= 0 {
        Seq::empty()
    } else {
        let rest = named_entries(entries, n - 1);
        if entries[n - 1].path@.len() > 0 {
            rest.push(entries[n - 1])
        } else {
            rest
        }
    }
}

/// What a refresh stores for a walk: its entries with a path.
pub open spec fn walked(entries: Seq<IndexedFile>) -> Seq<IndexedFile> {
    named_entries(entries, entries.len() as int)
}

/// What the inventory holds after a refresh with the walk `entries`: the
/// walk's entries if their paths differ, else what it held before.
pub open spec fn refreshed(before: Seq<IndexedFile>, entries: Seq<IndexedFile>) -> Seq<
    IndexedFile,
> {
    if paths_unique(walked(entries)) {
        walked(entries)
    } else {
        before
    }
}

/// Whether `path` is `name` or ends with `/` and `name`.
pub open spec fn name_matches(path: Seq<char>, name: Seq<char>) -> bool {
    path == name || has_suffix(path, seq!['/'] + name)
}

/// Whether a part of `path` begins with `stem`: the path begins with it,
/// or holds `/` and then `stem`.
pub open spec fn stem_matches(path: Seq<char>, stem: Seq<char>) -> bool {
    has_prefix(path, stem) || has_infix(path, seq!['/'] + stem)
}

/// A file is found by its stem, at any depth: the path of a file matches
/// the name of the file without its extension.
pub proof fn lemma_stem_is_found(path: Seq<char>)
    ensures
        stem_matches(path, stem_of(base_name(path))),
{
    let slash = last_index_of(path, '/');
    let name = base_name(path);
    let stem = stem_of(name);
    lemma_last_index_bounds(path, '/');
    lemma_last_index_bounds(name, '.');
    assert(name.subrange(0, stem.len() as int) =~= stem);
    if slash < 0 {
        assert(name =~= path);
    } else {
        lemma_last_index_holds(path, '/');
        assert(path.subrange(slash, slash + 1 + stem.len()) =~= seq!['/'] + stem);
        assert(occurs_at(path, slash, seq!['/'] + stem));
    }
}

/// What matches a stem holds the stem.
pub proof fn lemma_match_holds_stem(path: Seq<char>, stem: Seq<char>)
    requires
        stem_matches(path, stem),
    ensures
        has_infix(path, stem),
{
    if has_prefix(path, stem) {
        assert(occurs_at(path, 0, stem));
    } else {
        let at = choose|at: int| occurs_at(path, at, seq!['/'] + stem);
        let part = seq!['/'] + stem;
        assert(path.subrange(at + 1, at + 1 + stem.len()) =~= part.subrange(1, part.len() as int));
        assert(part.subrange(1, part.len() as int) =~= stem);
        assert(occurs_at(path, at + 1, stem));
    }
}

/// Those of the first `n` entries whose path matches `name`, in order.
pub open spec fn files_named(files: Seq<IndexedFile>, n: int, name: Seq<char>) -> Seq<IndexedFile>
    decreases n,
{
    if n <= 0 {
        Seq::empty()
    } else {
        let rest = files_named(files, n - 1, name);
        if name_matches(files[n - 1].path@, name) {
            rest.push(files[n - 1])
        } else {
            rest
        }
    }
}

/// Those of the first `n` entries whose path matches `stem`, in order.
pub open spec fn files_with_stem(files: Seq<IndexedFile>, n: int, stem: Seq<char>) -> Seq<
    IndexedFile,
>
    decreases n,
{
    if n <= 0 {
        Seq::empty()
    } else {
        let rest = files_with_stem(files, n - 1, stem);
        if stem_matches(files[n - 1].path@, stem) {
            rest.push(files[n - 1])
        } else {
            rest
        }
    }
}

/// Whether one of the modification times is later than `last_indexed`.
pub open spec fn any_later(mtimes: Seq<i64>, last_indexed: i64) -> bool {
    exists|i: int| 0 <= i < mtimes.len() && #[trigger] mtimes[i] > last_indexed
}

/// The directories whose modification times tell whether the inventory is
/// stale. The project root is left out: it changes too often.
pub fn watched_dirs() -> (r: Vec<&'static str>)
    ensures
        r@.len() == 3,
        r@[0]@ == "src"@,
        r@[1]@ == "lib"@,
        r@[2]@ == "crates"@,
{
    let mut r: Vec<&'static str> = Vec::new();
    r.push("src");
    r.push("lib");
    r.push("crates");
    r
}

/// The inventory of one project.
pub struct FileIndex {
    files: Vec<IndexedFile>,
    last_indexed: i64,
}

impl FileIndex {
    /// The entries, in the order of the walk that stored them.
    pub closed spec fn files(&self) -> Seq<IndexedFile> {
        self.files@
    }

    /// When the inventory was last refreshed, in seconds since the epoch; 0
    /// if it never was.
    pub closed spec fn last_indexed(&self) -> i64 {
        self.last_indexed
    }

    /// The invariant of the inventory: no path stands in it twice.
    pub open spec fn valid(&self) -> bool {
        paths_unique(self.files())
    }

    /// An inventory over what was stored earlier under `schema_version`.
    /// Entries of another schema version are dropped, and so are entries
    /// that share a path; the time of the last refresh is kept.
    pub fn open(schema_version: i64, last_indexed: i64, files: Vec<IndexedFile>) -> (r: FileIndex)
        ensures
            r.valid(),
            r.last_indexed() == last_indexed,
            r.files() == if schema_version == SCHEMA_VERSION && paths_unique(files@) {
                files@
            } else {
                Seq::empty()
            },
    {
        if schema_version == SCHEMA_VERSION && all_paths_differ(&files) {
            FileIndex { files, last_indexed }
        } else {
            FileIndex { files: Vec::new(), last_indexed }
        }
    }

    /// Whether the inventory is empty, was never refreshed, or is older than
    /// one of `dir_mtimes`, the modification times of the watched
    /// directories that exist.
    pub fn needs_refresh(&self, dir_mtimes: &Vec<i64>) -> (r: bool)
        ensures
            r == (self.files().len() == 0 || self.last_indexed() == 0 || any_later(
                dir_mtimes@,
                self.last_indexed(),
            )),
    {
        if self.files.len() == 0 {
            return true;
        }
        if self.last_indexed == 0 {
            return true;
        }
        let mut i: usize = 0;
        while i < dir_mtimes.len()
            invariant
                i <= dir_mtimes.len(),
                forall|k: int| 0 <= k < i ==> dir_mtimes@[k] <= self.last_indexed(),
            decreases dir_mtimes.len() - i,
        {
            if dir_mtimes[i] > self.last_indexed {
                return true;
            }
            i += 1;
        }
        false
    }

    /// Replaces the inventory by the entries of a walk, leaving out entries
    /// without a path, and records `now` as the time of the refresh. Returns
    /// the number of entries stored. Where the walk names a path twice the
    /// refresh fails and the inventory stays as it was.
    pub fn refresh(&mut self, entries: Vec<IndexedFile>, now: i64) -> (r: Result<usize, IndexError>)
        requires
            old(self).valid(),
        ensures
            final(self).valid(),
            final(self).files() == refreshed(old(self).files(), entries@),
            paths_unique(walked(entries@)) ==> r == Ok::<usize, IndexError>(
                walked(entries@).len() as usize,
            ) && final(self).last_indexed() == now,
            !paths_unique(walked(entries@)) ==> r == Err::<usize, IndexError>(
                IndexError::DuplicatePath,
            ) && final(self).last_indexed() == old(self).last_indexed(),
    {
        let mut kept: Vec<IndexedFile> = Vec::new();
        let mut i: usize = 0;
        while i < entries.len()
            invariant
                i <= entries.len(),
                kept@ == named_entries(entries@, i as int),
                kept.len() <= i,
            decreases entries.len() - i,
        {
            if entries[i].path.as_str().unicode_len() > 0 {
                kept.push(entries[i].duplicate());
            }
            i += 1;
        }
        if !all_paths_differ(&kept) {
            return Err(IndexError::DuplicatePath);
        }
        let count = kept.len();
        self.files = kept;
        self.last_indexed = now;
        Ok(count)
    }

    /// Every entry, in the order of the walk.
    pub fn all_files(&self) -> (r: Result<Vec<IndexedFile>, IndexError>)
        ensures
            r is Ok,
            r->Ok_0@ == self.files(),
    {
        let mut out: Vec<IndexedFile> = Vec::new();
        let mut i: usize = 0;
        while i < self.files.len()
            invariant
                i <= self.files.len(),
                out@ == self.files().take(i as int),
            decreases self.files.len() - i,
        {
            out.push(self.files[i].duplicate());
            assert(self.files().take(i + 1) =~= self.files().take(i as int).push(
                self.files()[i as int],
            ));
            i += 1;
        }
        assert(self.files().take(self.files.len() as int) =~= self.files());
        Ok(out)
    }

    /// The entries whose path is `name` or ends with `/` and `name`.
    pub fn find_by_name(&self, name: &str) -> (r: Result<Vec<IndexedFile>, IndexError>)
        ensures
            r is Ok,
            r->Ok_0@ == files_named(self.files(), self.files().len() as int, name@),
    {
        let wanted = chars_of(name);
        let mut slash: Vec<char> = Vec::new();
        slash.push('/');
        let tail = concat(&slash, &wanted);
        assert(tail@ =~= seq!['/'] + name@);
        let mut out: Vec<IndexedFile> = Vec::new();
        let mut i: usize = 0;
        while i < self.files.len()
            invariant
                i <= self.files.len(),
                wanted@ == name@,
                tail@ == seq!['/'] + name@,
                out@ == files_named(self.files(), i as int, name@),
            decreases self.files.len() - i,
        {
            let path = chars_of(self.files[i].path.as_str());
            if same(&path, &wanted) || ends_with(&path, &tail) {
                out.push(self.files[i].duplicate());
            }
            i += 1;
        }
        Ok(out)
    }

    /// The entries with a part of the path that begins with `stem`: the
    /// path begins with it, or holds `/` and then `stem`. A file is found
    /// by its name without the extension, whatever its extension and at any
    /// depth.
    pub fn find_by_stem(&self, stem: &str) -> (r: Result<Vec<IndexedFile>, IndexError>)
        ensures
            r is Ok,
            r->Ok_0@ == files_with_stem(self.files(), self.files().len() as int, stem@),
    {
        let wanted = chars_of(stem);
        let mut slash: Vec<char> = Vec::new();
        slash.push('/');
        let part = concat(&slash, &wanted);
        assert(part@ =~= seq!['/'] + stem@);
        let mut out: Vec<IndexedFile> = Vec::new();
        let mut i: usize = 0;
        while i < self.files.len()
            invariant
                i <= self.files.len(),
                wanted@ == stem@,
                part@ == seq!['/'] + stem@,
                out@ == files_with_stem(self.files(), i as int, stem@),
            decreases self.files.len() - i,
        {
            let path = chars_of(self.files[i].path.as_str());
            if starts_with(&path, &wanted) || contains(&path, &part) {
                out.push(self.files[i].duplicate());
            }
            i += 1;
        }
        Ok(out)
    }

    /// The number of entries.
    pub fn count(&self) -> (r: Result<usize, IndexError>)
        ensures
            r == Ok::<usize, IndexError>(self.files().len() as usize),
    {
        Ok(self.files.len())
    }

    /// The time of the last refresh; 0 if there was none.
    pub fn last_refresh(&self) -> (r: i64)
        ensures
            r == self.last_indexed(),
    {
        self.last_indexed
    }
}

/// Tests whether no two of the entries share a path.
pub fn all_paths_differ(files: &Vec<IndexedFile>) -> (r: bool)
    ensures
        r == paths_unique(files@),
{
    let mut j: usize = 0;
    while j < files.len()
        invariant
            j <= files.len(),
            forall|a: int, b: int|
                0 <= a < b < j ==> (#[trigger] files@[a]).path@ != (#[trigger] files@[b]).path@,
        decreases files.len() - j,
    {
        let pj = chars_of(files[j].path.as_str());
        let mut i: usize = 0;
        while i < j
            invariant
                i <= j < files.len(),
                pj@ == files@[j as int].path@,
                forall|a: int| 0 <= a < i ==> (#[trigger] files@[a]).path@ != files@[j as int].path@,
            decreases j - i,
        {
            let pi = chars_of(files[i].path.as_str());
            if same(&pi, &pj) {
                return false;
            }
            i += 1;
        }
        j += 1;
    }
    true
}

/// A refresh depends on the walk alone: whatever the inventory held, a walk
/// with paths that differ leaves it holding that walk's entries, so that a
/// second refresh with the same walk changes nothing.
pub proof fn lemma_refresh_idempotent(before: Seq<IndexedFile>, entries: Seq<IndexedFile>)
    requires
        paths_unique(before),
    ensures
        refreshed(refreshed(before, entries), entries) == refreshed(before, entries),
        paths_unique(refreshed(before, entries)),
        paths_unique(walked(entries)) ==> refreshed(before, entries) == walked(entries),
{
}


/// The largest number of bytes at the start of a file that are looked at
/// to tell whether it is binary.
pub const BINARY_PROBE_LEN: usize = 8192;

/// Whether one of the first `n` bytes is zero.
pub open spec fn has_zero(bytes: Seq<u8>, n: int) -> bool {
    exists|i: int| 0 <= i < n && i < bytes.len() && bytes[i] == 0
}

/// Whether a file is binary, told by its content: one of its first
/// `BINARY_PROBE_LEN` bytes is zero.
pub fn is_binary_file(content: &Vec<u8>) -> (r: bool)
    ensures
        r == has_zero(content@, BINARY_PROBE_LEN as int),
{
    let mut i: usize = 0;
    while i < content.len() && i < BINARY_PROBE_LEN
        invariant
            i <= content.len(),
            i <= BINARY_PROBE_LEN,
            forall|k: int| 0 <= k < i ==> content@[k] != 0,
        decreases content.len() - i,
    {
        if content[i] == 0 {
            return true;
        }
        i += 1;
    }
    false
}

/// The position of the first entry from `from` on with the path `path`, or
/// the number of entries.
pub open spec fn path_position(files: Seq<IndexedFile>, from: int, path: Seq<char>) -> int
    decreases files.len() - from,
{
    if from < 0 || from >= files.len() {
        files.len() as int
    } else if files[from].path@ == path {
        from
    } else {
        path_position(files, from + 1, path)
    }
}

/// Whether `entry` stands in `files` as it is: with its path, its kind and
/// its modification time.
pub open spec fn is_known(files: Seq<IndexedFile>, entry: IndexedFile) -> bool {
    let at = path_position(files, 0, entry.path@);
    at < files.len() && files[at].is_dir == entry.is_dir && files[at].mtime == entry.mtime
}

/// The number of the first `n` entries of `entries` that do not stand in
/// `files` as they are.
pub open spec fn unknown_among(entries: Seq<IndexedFile>, n: int, files: Seq<IndexedFile>) -> nat
    decreases n,
{
    if n <= 0 {
        0
    } else {
        unknown_among(entries, n - 1, files) + if is_known(files, entries[n - 1]) {
            0nat
        } else {
            1nat
        }
    }
}

/// The number of the first `n` entries of `entries` whose path no entry of
/// `files` has.
pub open spec fn missing_among(entries: Seq<IndexedFile>, n: int, files: Seq<IndexedFile>) -> nat
    decreases n,
{
    if n <= 0 {
        0
    } else {
        missing_among(entries, n - 1, files) + if path_position(files, 0, entries[n - 1].path@)
            < files.len() {
            0nat
        } else {
            1nat
        }
    }
}

/// How much a walk differs from what is stored: the entries of the walk
/// that are new or changed, and the stored entries that the walk has no
/// more.
pub open spec fn changes_between(stored: Seq<IndexedFile>, walk: Seq<IndexedFile>) -> nat {
    unknown_among(walk, walk.len() as int, stored) + missing_among(
        stored,
        stored.len() as int,
        walk,
    )
}

/// The position of the entry with the path `path`, or the number of
/// entries.
fn position_in(files: &Vec<IndexedFile>, path: &String) -> (at: usize)
    ensures
        at == path_position(files@, 0, path@),
        at <= files.len(),
{
    let wanted = chars_of(path.as_str());
    let mut i: usize = 0;
    while i < files.len()
        invariant
            i <= files.len(),
            wanted@ == path@,
            path_position(files@, 0, path@) == path_position(files@, i as int, path@),
        decreases files.len() - i,
    {
        if same(&chars_of(files[i].path.as_str()), &wanted) {
            return i;
        }
        i += 1;
    }
    i
}

impl FileIndex {
    /// Brings the inventory to what a walk found, as a refresh does, and
    /// returns how much had changed: the number of entries that are new or
    /// different, and of stored entries that are gone. Where the walk
    /// names a path twice nothing changes.
    pub fn incremental_refresh(&mut self, entries: Vec<IndexedFile>, now: i64) -> (r: Result<
        usize,
        IndexError,
    >)
        requires
            old(self).valid(),
        ensures
            final(self).valid(),
            final(self).files() == refreshed(old(self).files(), entries@),
            paths_unique(walked(entries@)) ==> r is Ok && r->Ok_0 == clamp(
                changes_between(old(self).files(), walked(entries@)),
            ) && final(self).last_indexed() == now,
            !paths_unique(walked(entries@)) ==> r == Err::<usize, IndexError>(
                IndexError::DuplicatePath,
            ) && final(self).last_indexed() == old(self).last_indexed(),
    {
        let mut kept: Vec<IndexedFile> = Vec::new();
        let mut i: usize = 0;
        while i < entries.len()
            invariant
                i <= entries.len(),
                kept@ == named_entries(entries@, i as int),
                kept.len() <= i,
            decreases entries.len() - i,
        {
            if entries[i].path.as_str().unicode_len() > 0 {
                kept.push(entries[i].duplicate());
            }
            i += 1;
        }
        if !all_paths_differ(&kept) {
            return Err(IndexError::DuplicatePath);
        }
        let mut changed: usize = 0;
        let mut k: usize = 0;
        while k < kept.len()
            invariant
                k <= kept.len(),
                changed == unknown_among(kept@, k as int, self.files()),
                changed <= k,
            decreases kept.len() - k,
        {
            let at = position_in(&self.files, &kept[k].path);
            let known = at < self.files.len() && self.files[at].is_dir == kept[k].is_dir
                && self.files[at].mtime == kept[k].mtime;
            if !known {
                changed += 1;
            }
            k += 1;
        }
        let mut gone: usize = 0;
        let mut j: usize = 0;
        while j < self.files.len()
            invariant
                j <= self.files.len(),
                gone == missing_among(self.files(), j as int, kept@),
                gone <= j,
            decreases self.files.len() - j,
        {
            if position_in(&kept, &self.files[j].path) >= kept.len() {
                gone += 1;
            }
            j += 1;
        }
        let total = changed.saturating_add(gone);
        self.files = kept;
        self.last_indexed = now;
        Ok(total)
    }
}

} // verus!
