//! Relative paths as text, with `/` between their parts.

use crate::text::{concat, join, join_of, rows, same, slice_of, split, split_on};
use vstd::prelude::*;

verus! {

/// The position of the last `c` in `s`, or -1 if there is none.
pub open spec fn last_index_of(s: Seq<char>, c: char) -> int
    decreases s.len(),
{
    if s.len() == 0 {
        -1
    } else if s.last() == c {
        s.len() - 1
    } else {
        last_index_of(s.drop_last(), c)
    }
}

/// The last part of a path: what follows its last `/`, or all of it.
pub open spec fn base_name(path: Seq<char>) -> Seq<char> {
    path.skip(last_index_of(path, '/') + 1)
}

/// A file name without its extension: what stands before its last `.`,
/// unless the name has no `.` or only one that it begins with.
pub open spec fn stem_of(name: Seq<char>) -> Seq<char> {
    let dot = last_index_of(name, '.');
    if dot <= 0 {
        name
    } else {
        name.take(dot)
    }
}

/// The extension of a file name: what follows its last `.`, unless the name
/// has no `.` or only one that it begins with.
pub open spec fn extension_of(name: Seq<char>) -> Option<Seq<char>> {
    let dot = last_index_of(name, '.');
    if dot <= 0 {
        None
    } else {
        Some(name.skip(dot + 1))
    }
}

/// The path of `rel` below the directory `base`.
pub open spec fn joined(base: Seq<char>, rel: Seq<char>) -> Seq<char> {
    if base.len() == 0 {
        rel
    } else if base.last() == '/' {
        base + rel
    } else {
        base + seq!['/'] + rel
    }
}

/// The directory that holds `path`: what stands before its last `/`;
/// nothing where it has none.
pub open spec fn parent_of(path: Seq<char>) -> Seq<char> {
    let slash = last_index_of(path, '/');
    if slash < 0 {
        Seq::empty()
    } else {
        path.take(slash)
    }
}

/// Finds the last `c` in `s`: its position and `true`, or `false`.
pub fn find_last(s: &Vec<char>, c: char) -> (r: (usize, bool))
    ensures
        r.1 == (last_index_of(s@, c) >= 0),
        r.1 ==> r.0 == last_index_of(s@, c) && r.0 < s.len(),
        !r.1 ==> last_index_of(s@, c) == -1,
{
    let mut i: usize = s.len();
    assert(s@.take(s.len() as int) =~= s@);
    while i > 0
        invariant
            i <= s.len(),
            last_index_of(s@, c) == last_index_of(s@.take(i as int), c),
        decreases i,
    {
        if s[i - 1] == c {
            return (i - 1, true);
        }
        assert(s@.take(i as int).drop_last() =~= s@.take(i - 1));
        i -= 1;
    }
    (0, false)
}

/// The last part of a path.
pub fn file_name(path: &Vec<char>) -> (r: Vec<char>)
    ensures
        r@ == base_name(path@),
{
    let (at, found) = find_last(path, '/');
    let r = if found {
        slice_of(path, at + 1, path.len())
    } else {
        slice_of(path, 0, path.len())
    };
    assert(r@ =~= path@.skip(last_index_of(path@, '/') + 1));
    r
}

/// A file name without its extension.
pub fn file_stem(name: &Vec<char>) -> (r: Vec<char>)
    ensures
        r@ == stem_of(name@),
{
    let (at, found) = find_last(name, '.');
    if found && at > 0 {
        let r = slice_of(name, 0, at);
        assert(r@ =~= name@.take(at as int));
        r
    } else {
        let r = slice_of(name, 0, name.len());
        assert(r@ =~= name@);
        r
    }
}

/// The extension of a file name, if it has one.
pub fn extension(name: &Vec<char>) -> (r: Option<Vec<char>>)
    ensures
        r is Some == extension_of(name@) is Some,
        r is Some ==> r->0@ == extension_of(name@)->0,
{
    let (at, found) = find_last(name, '.');
    if found && at > 0 {
        let r = slice_of(name, at + 1, name.len());
        assert(r@ =~= name@.skip(at + 1));
        Some(r)
    } else {
        None
    }
}

/// The path of `rel` below the directory `base`.
pub fn join_path(base: &Vec<char>, rel: &Vec<char>) -> (r: Vec<char>)
    ensures
        r@ == joined(base@, rel@),
{
    if base.len() == 0 {
        let r = slice_of(rel, 0, rel.len());
        assert(r@ =~= rel@);
        r
    } else if base[base.len() - 1] == '/' {
        concat(base, rel)
    } else {
        let mut slash: Vec<char> = Vec::new();
        slash.push('/');
        let with_slash = concat(base, &slash);
        assert(with_slash@ =~= base@ + seq!['/']);
        concat(&with_slash, rel)
    }
}

/// The directory that holds `path`.
pub fn parent(path: &Vec<char>) -> (r: Vec<char>)
    ensures
        r@ == parent_of(path@),
{
    let (at, found) = find_last(path, '/');
    if found {
        let r = slice_of(path, 0, at);
        assert(r@ =~= path@.take(at as int));
        r
    } else {
        let r: Vec<char> = Vec::new();
        assert(r@ =~= Seq::<char>::empty());
        r
    }
}


/// `path` with `ext` for the extension of its last part: what stood
/// behind the last dot of the part is replaced, or the extension is added.
/// A path without a last part stays as it is.
pub open spec fn with_extension_of(path: Seq<char>, ext: Seq<char>) -> Seq<char> {
    let name = base_name(path);
    if name.len() == 0 {
        path
    } else {
        path.take(path.len() - name.len()) + stem_of(name) + seq!['.'] + ext
    }
}

/// `path` with `ext` for the extension of its last part.
pub fn with_extension(path: &Vec<char>, ext: &Vec<char>) -> (r: Vec<char>)
    ensures
        r@ == with_extension_of(path@, ext@),
{
    let name = file_name(path);
    if name.len() == 0 {
        let r = slice_of(path, 0, path.len());
        assert(r@ =~= path@);
        return r;
    }
    assert(name.len() <= path.len()) by {
        assert(name@ == path@.skip(last_index_of(path@, '/') + 1));
        lemma_last_index_bounds(path@, '/');
    }
    let head = slice_of(path, 0, path.len() - name.len());
    assert(head@ =~= path@.take(path.len() - name.len()));
    let stem = file_stem(&name);
    let mut dot: Vec<char> = Vec::new();
    dot.push('.');
    assert(dot@ =~= seq!['.']);
    concat(&concat(&concat(&head, &stem), &dot), ext)
}

/// The last position of a character lies inside the text, or is -1.
pub proof fn lemma_last_index_bounds(s: Seq<char>, c: char)
    ensures
        -1 <= last_index_of(s, c) < s.len(),
    decreases s.len(),
{
    if s.len() > 0 && s.last() != c {
        lemma_last_index_bounds(s.drop_last(), c);
    }
}

/// Where a character is found last, it stands.
pub proof fn lemma_last_index_holds(s: Seq<char>, c: char)
    ensures
        last_index_of(s, c) >= 0 ==> s[last_index_of(s, c)] == c,
    decreases s.len(),
{
    if s.len() > 0 && s.last() != c {
        lemma_last_index_holds(s.drop_last(), c);
        lemma_last_index_bounds(s.drop_last(), c);
        let at = last_index_of(s.drop_last(), c);
        if at >= 0 {
            assert(s.drop_last()[at] == s[at]);
        }
    }
}

/// The parts of a path that are left once the first `n` of `parts` are
/// read: an empty part and `.` are passed over, and `..` takes back the
/// part before it, unless there is none or it is `..` itself.
pub open spec fn normal_parts(parts: Seq<Seq<char>>, n: int) -> Seq<Seq<char>>
    decreases n,
{
    if n <= 0 {
        Seq::empty()
    } else {
        let kept = normal_parts(parts, n - 1);
        let part = parts[n - 1];
        if part.len() == 0 || part == seq!['.'] {
            kept
        } else if part == seq!['.', '.'] {
            if kept.len() > 0 && kept.last() != seq!['.', '.'] {
                kept.drop_last()
            } else {
                kept.push(part)
            }
        } else {
            kept.push(part)
        }
    }
}

/// A path without the parts that name no directory of their own: without
/// `.` and empty parts, and without each `..` together with the part that
/// it leaves. A path that begins with `/` still does.
pub open spec fn normalized(path: Seq<char>) -> Seq<char> {
    let parts = split_on(path, '/');
    let body = join_of(normal_parts(parts, parts.len() as int), seq!['/']);
    if path.len() > 0 && path[0] == '/' {
        seq!['/'] + body
    } else {
        body
    }
}

/// Brings a path into its normal form.
pub fn normalize(path: &Vec<char>) -> (r: Vec<char>)
    ensures
        r@ == normalized(path@),
{
    let parts = split(path, '/');
    let mut one: Vec<char> = Vec::new();
    one.push('.');
    assert(one@ =~= seq!['.']);
    let mut two: Vec<char> = Vec::new();
    two.push('.');
    two.push('.');
    assert(two@ =~= seq!['.', '.']);
    let mut kept: Vec<Vec<char>> = Vec::new();
    let mut i: usize = 0;
    assert(rows(kept@) =~= normal_parts(rows(parts@), 0));
    while i < parts.len()
        invariant
            i <= parts.len(),
            one@ == seq!['.'],
            two@ == seq!['.', '.'],
            rows(kept@) == normal_parts(rows(parts@), i as int),
        decreases parts.len() - i,
    {
        let part = &parts[i];
        assert(rows(parts@)[i as int] == part@);
        let ghost before = rows(kept@);
        if part.len() == 0 || same(part, &one) {
        } else if same(part, &two) {
            let n = kept.len();
            let takes_back = if n > 0 {
                assert(before[n - 1] == kept@[n - 1]@);
                !same(&kept[n - 1], &two)
            } else {
                false
            };
            if takes_back {
                kept.pop();
                assert(rows(kept@) =~= before.drop_last());
            } else {
                kept.push(slice_of(part, 0, part.len()));
                assert(kept@[kept.len() - 1]@ =~= part@);
                assert(rows(kept@) =~= before.push(part@));
            }
        } else {
            kept.push(slice_of(part, 0, part.len()));
            assert(kept@[kept.len() - 1]@ =~= part@);
            assert(rows(kept@) =~= before.push(part@));
        }
        i += 1;
    }
    let mut slash: Vec<char> = Vec::new();
    slash.push('/');
    assert(slash@ =~= seq!['/']);
    let body = join(&kept, &slash);
    if path.len() > 0 && path[0] == '/' {
        concat(&slash, &body)
    } else {
        body
    }
}

} // verus!
