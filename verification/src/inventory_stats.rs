//! Figures about an inventory: how many files and directories it holds,
//! which files lie below a prefix, and how many files each extension has.

use crate::file_index::IndexedFile;
use crate::ordering::{arranged, as_ints, key_views, sort_indices, sorted_indices, Key, SortKey};
use crate::paths::{base_name, extension, extension_of, file_name};
use crate::languages::registry::{has_language_support, language_of_path, LanguageId};
use crate::text::{
    chars_of, clamp, concat, decimal, decimal_of, has_prefix, starts_with, string_of, text_is,
    texts,
};
use vstd::prelude::*;

verus! {

/// The number of files among the first `n` entries.
pub open spec fn files_in(entries: Seq<IndexedFile>, n: int) -> nat
    decreases n,
{
    if n <= 0 {
        0
    } else {
        files_in(entries, n - 1) + if entries[n - 1].is_dir {
            0nat
        } else {
            1nat
        }
    }
}

/// The numbers of files and of directories in an inventory.
pub fn count_entries(entries: &Vec<IndexedFile>) -> (r: (usize, usize))
    ensures
        r.0 == files_in(entries@, entries.len() as int),
        r.0 + r.1 == entries.len(),
{
    let mut files: usize = 0;
    let mut dirs: usize = 0;
    let mut i: usize = 0;
    while i < entries.len()
        invariant
            i <= entries.len(),
            files == files_in(entries@, i as int),
            files + dirs == i,
        decreases entries.len() - i,
    {
        if entries[i].is_dir {
            dirs += 1;
        } else {
            files += 1;
        }
        i += 1;
    }
    (files, dirs)
}

/// The paths of the files among the first `n` entries that begin with
/// `prefix`, in order.
pub open spec fn files_below(entries: Seq<IndexedFile>, n: int, prefix: Seq<char>) -> Seq<Seq<char>>
    decreases n,
{
    if n <= 0 {
        Seq::empty()
    } else {
        let rest = files_below(entries, n - 1, prefix);
        if !entries[n - 1].is_dir && has_prefix(entries[n - 1].path@, prefix) {
            rest.push(entries[n - 1].path@)
        } else {
            rest
        }
    }
}

/// The first `limit` of a sequence, or all of it.
pub open spec fn at_most<T>(s: Seq<T>, limit: usize) -> Seq<T> {
    if s.len() > limit {
        s.take(limit as int)
    } else {
        s
    }
}

/// The paths of the files that begin with `prefix`, at most `limit` of
/// them, in the order of the inventory.
pub fn list_files(entries: &Vec<IndexedFile>, prefix: &str, limit: usize) -> (r: Vec<String>)
    ensures
        texts(r@) == at_most(files_below(entries@, entries.len() as int, prefix@), limit),
{
    let wanted = chars_of(prefix);
    let mut out: Vec<String> = Vec::new();
    let mut i: usize = 0;
    assert(texts(out@) =~= at_most(files_below(entries@, 0, prefix@), limit));
    while i < entries.len()
        invariant
            i <= entries.len(),
            wanted@ == prefix@,
            out.len() <= limit,
            texts(out@) == at_most(files_below(entries@, i as int, prefix@), limit),
        decreases entries.len() - i,
    {
        let ghost before = files_below(entries@, i as int, prefix@);
        if !entries[i].is_dir && starts_with(&chars_of(entries[i].path.as_str()), &wanted) {
            if out.len() < limit {
                let ghost so_far = texts(out@);
                out.push(entries[i].path.clone());
                assert(texts(out@) =~= so_far.push(entries@[i as int].path@));
                assert(so_far == before);
                assert(texts(out@) =~= at_most(before.push(entries@[i as int].path@), limit));
            } else {
                proof {
                    assert(texts(out@).len() == out.len());
                    assert(before.push(entries@[i as int].path@).take(limit as int)
                        =~= before.take(limit as int));
                    if before.len() == limit {
                        assert(before.take(limit as int) =~= before);
                    }
                }
            }
        }
        i += 1;
    }
    out
}

/// Under what a file is counted: its extension, or a note that it has
/// none, which tells binary files apart.
pub open spec fn label_of(path: Seq<char>, is_binary: bool) -> Seq<char> {
    match extension_of(base_name(path)) {
        Some(ext) => ext,
        None => if is_binary {
            "(binary)"@
        } else {
            "(no ext)"@
        },
    }
}

/// Under what a file is counted.
pub fn extension_label(path: &str, is_binary: bool) -> (r: String)
    ensures
        r@ == label_of(path@, is_binary),
{
    let name = file_name(&chars_of(path));
    match extension(&name) {
        Some(ext) => string_of(&ext),
        None => if is_binary {
            "(binary)".to_owned()
        } else {
            "(no ext)".to_owned()
        },
    }
}

/// The position of the first count from `from` on for `label`, or the
/// number of counts.
pub open spec fn label_position(counts: Seq<(Seq<char>, usize)>, from: int, label: Seq<char>) -> int
    decreases counts.len() - from,
{
    if from < 0 || from >= counts.len() {
        counts.len() as int
    } else if counts[from].0 == label {
        from
    } else {
        label_position(counts, from + 1, label)
    }
}

/// The counts after the first `n` labels: one for each label, in the order
/// in which the labels first came; a count that passes the largest `usize`
/// stays at that.
pub open spec fn tallied(labels: Seq<Seq<char>>, n: int) -> Seq<(Seq<char>, usize)>
    decreases n,
{
    if n <= 0 {
        Seq::empty()
    } else {
        let before = tallied(labels, n - 1);
        let at = label_position(before, 0, labels[n - 1]);
        if 0 <= at < before.len() {
            before.update(at, (labels[n - 1], clamp((before[at].1 + 1) as nat)))
        } else {
            before.push((labels[n - 1], 1usize))
        }
    }
}

/// The keys that order counts from the largest to the smallest.
pub open spec fn count_keys(counts: Seq<(Seq<char>, usize)>) -> Seq<Key> {
    Seq::new(
        counts.len(),
        |i: int| (Key { rank: (usize::MAX - counts[i].1) as u64, text: Seq::empty(), tie: 0 }),
    )
}

/// The labels and counts of `v` as texts.
pub open spec fn count_views(v: Seq<(String, usize)>) -> Seq<(Seq<char>, usize)> {
    v.map_values(|c: (String, usize)| (c.0@, c.1))
}

/// The position of the count for `label`, or the number of counts.
fn position_of_label(counts: &Vec<(String, usize)>, label: &String) -> (at: usize)
    ensures
        at == label_position(count_views(counts@), 0, label@),
        at <= counts.len(),
{
    let ghost views = count_views(counts@);
    let mut at: usize = 0;
    while at < counts.len()
        invariant
            at <= counts.len(),
            views == count_views(counts@),
            label_position(views, 0, label@) == label_position(views, at as int, label@),
        decreases counts.len() - at,
    {
        assert(views[at as int] == (counts@[at as int].0@, counts@[at as int].1));
        if text_is(counts[at].0.as_str(), label.as_str()) {
            return at;
        }
        at += 1;
    }
    at
}

/// How many files each label has, from the largest count to the smallest;
/// labels with one count come in the order in which they first occur.
pub fn extension_counts(labels: &Vec<String>) -> (r: Vec<(String, usize)>)
    ensures
        count_views(r@) == arranged(
            tallied(texts(labels@), labels.len() as int),
            sorted_indices(count_keys(tallied(texts(labels@), labels.len() as int))),
        ),
{
    let mut counts: Vec<(String, usize)> = Vec::new();
    let mut i: usize = 0;
    assert(count_views(counts@) =~= tallied(texts(labels@), 0));
    while i < labels.len()
        invariant
            i <= labels.len(),
            count_views(counts@) == tallied(texts(labels@), i as int),
        decreases labels.len() - i,
    {
        let ghost before = count_views(counts@);
        assert(texts(labels@)[i as int] == labels@[i as int]@);
        let at = position_of_label(&counts, &labels[i]);
        if at < counts.len() {
            assert(before[at as int] == (counts@[at as int].0@, counts@[at as int].1));
            let n = counts[at].1.saturating_add(1);
            counts.remove(at);
            counts.insert(at, (labels[i].clone(), n));
            assert(count_views(counts@) =~= before.update(at as int, (labels@[i as int]@, n)));
        } else {
            counts.push((labels[i].clone(), 1));
            assert(count_views(counts@) =~= before.push((labels@[i as int]@, 1usize)));
        }
        i += 1;
    }
    let ghost views = count_views(counts@);
    let mut keys: Vec<SortKey> = Vec::new();
    let mut k: usize = 0;
    while k < counts.len()
        invariant
            k <= counts.len(),
            keys.len() == k,
            views == count_views(counts@),
            forall|j: int| 0 <= j < k ==> (#[trigger] keys@[j])@ == count_keys(views)[j],
        decreases counts.len() - k,
    {
        assert(views[k as int] == (counts@[k as int].0@, counts@[k as int].1));
        let key = SortKey { rank: (usize::MAX - counts[k].1) as u64, text: Vec::new(), tie: 0 };
        assert(key@.text =~= Seq::<char>::empty());
        keys.push(key);
        k += 1;
    }
    assert(key_views(keys@) =~= count_keys(views));
    let order = sort_indices(&keys);
    let mut out: Vec<(String, usize)> = Vec::new();
    let mut k: usize = 0;
    while k < order.len()
        invariant
            k <= order.len(),
            out.len() == k,
            order.len() == counts.len(),
            views == count_views(counts@),
            forall|i: int| 0 <= i < order.len() ==> 0 <= #[trigger] order@[i] < counts.len(),
            forall|j: int|
                0 <= j < k ==> ((#[trigger] out@[j]).0@, out@[j].1) == views[as_ints(order@)[j]],
        decreases order.len() - k,
    {
        let c = &counts[order[k]];
        assert(as_ints(order@)[k as int] == order@[k as int] as int);
        assert(views[order@[k as int] as int] == (c.0@, c.1));
        out.push((c.0.clone(), c.1));
        k += 1;
    }
    assert(count_views(out@) =~= arranged(views, as_ints(order@)));
    out
}

/// How many matches of a search are shown: `limit`, but 500 where the
/// query begins with a dot and the limit is the usual 20.
pub fn search_limit(query: &str, limit: usize) -> (r: usize)
    ensures
        r == if has_prefix(query@, "."@) && limit == 20 {
            500usize
        } else {
            limit
        },
{
    if starts_with(&chars_of(query), &chars_of(".")) && limit == 20 {
        500
    } else {
        limit
    }
}

/// Whether the file at `path` is of a language whose files can hold
/// symbols.
pub open spec fn holds_symbols(path: Seq<char>) -> bool {
    match language_of_path(path) {
        Some(LanguageId::Html) => false,
        Some(LanguageId::Css) => false,
        Some(_) => true,
        None => false,
    }
}

/// The paths of the files among the first `n` entries that can hold
/// symbols, in the order of the inventory.
pub open spec fn symbol_files(entries: Seq<IndexedFile>, n: int) -> Seq<Seq<char>>
    decreases n,
{
    if n <= 0 {
        Seq::empty()
    } else if !entries[n - 1].is_dir && holds_symbols(entries[n - 1].path@) {
        symbol_files(entries, n - 1).push(entries[n - 1].path@)
    } else {
        symbol_files(entries, n - 1)
    }
}

/// The paths of the files of an inventory that can hold symbols: where a
/// symbol is looked for when no file is named.
pub fn files_with_symbols(entries: &Vec<IndexedFile>) -> (r: Vec<String>)
    ensures
        texts(r@) == symbol_files(entries@, entries.len() as int),
{
    let mut out: Vec<String> = Vec::new();
    let mut i: usize = 0;
    assert(texts(out@) =~= symbol_files(entries@, 0));
    while i < entries.len()
        invariant
            i <= entries.len(),
            texts(out@) == symbol_files(entries@, i as int),
        decreases entries.len() - i,
    {
        if !entries[i].is_dir && has_language_support(entries[i].path.as_str()) {
            let ghost so_far = texts(out@);
            out.push(entries[i].path.clone());
            assert(texts(out@) =~= so_far.push(entries@[i as int].path@));
        }
        i += 1;
    }
    out
}

/// The width to which a line's number is filled up with spaces.
pub const LINE_NUMBER_WIDTH: usize = 4;

/// The spaces that fill a text of `len` characters up to `width`.
pub open spec fn padding_of(len: nat, width: nat) -> Seq<char>
    decreases width,
{
    if width <= len {
        Seq::empty()
    } else {
        padding_of(len, (width - 1) as nat).push(' ')
    }
}

/// A line as it is shown with its number: the number, filled up with
/// spaces before it to four characters, one space and the line.
pub open spec fn numbered_of(number: nat, line: Seq<char>) -> Seq<char> {
    padding_of(decimal_of(number).len(), LINE_NUMBER_WIDTH as nat) + decimal_of(number) + seq![' ']
        + line
}

/// A line as it is shown with its number.
pub fn numbered_line(number: usize, line: &str) -> (r: String)
    ensures
        r@ == numbered_of(number as nat, line@),
{
    let digits = decimal(number as u64);
    let mut out: Vec<char> = Vec::new();
    let mut width: usize = digits.len();
    assert(out@ =~= padding_of(digits.len() as nat, width as nat));
    while width < LINE_NUMBER_WIDTH
        invariant
            digits.len() <= width,
            width <= LINE_NUMBER_WIDTH || width == digits.len(),
            out@ == padding_of(digits.len() as nat, width as nat),
        decreases LINE_NUMBER_WIDTH - width,
    {
        out.push(' ');
        width += 1;
    }
    proof {
        if digits.len() >= LINE_NUMBER_WIDTH {
            assert(padding_of(digits.len() as nat, LINE_NUMBER_WIDTH as nat) =~= Seq::<char>::empty());
        }
    }
    let with_digits = concat(&out, &digits);
    let mut spaced = with_digits;
    spaced.push(' ');
    let all = concat(&spaced, &chars_of(line));
    assert(all@ =~= numbered_of(number as nat, line@));
    string_of(&all)
}

} // verus!
