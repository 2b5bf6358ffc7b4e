//! A directory tree for display: the paths of a project as nested entries,
//! drawn with one line for each.

use crate::file_index::IndexedFile;
use crate::ordering::{
    as_ints, key_views, sort_indices, sorted_indices, text_before_or_equal, text_le, Key,
    SortKey,
};
use crate::paths::{base_name, file_name};
use crate::text::{
    chars_of, concat, lower, lowercase_of, rows, same, split, split_on, string_of, texts,
};
use vstd::prelude::*;

verus! {

/// The directories that do not count against the depth limit: they give a
/// project its structure and say little by themselves.
pub fn default_boilerplate_dirs() -> (r: Vec<String>)
    ensures
        texts(r@) == seq![
            "src"@,
            "lib"@,
            "pkg"@,
            "packages"@,
            "crates"@,
            "internal"@,
            "cmd"@,
        ],
{
    let mut r: Vec<String> = Vec::new();
    r.push("src".to_owned());
    r.push("lib".to_owned());
    r.push("pkg".to_owned());
    r.push("packages".to_owned());
    r.push("crates".to_owned());
    r.push("internal".to_owned());
    r.push("cmd".to_owned());
    assert(texts(r@) =~= seq![
        "src"@,
        "lib"@,
        "pkg"@,
        "packages"@,
        "crates"@,
        "internal"@,
        "cmd"@,
    ]);
    r
}

/// How a tree is made.
#[derive(Debug, Clone)]
pub struct TreeOptions {
    /// The depth below which nothing is shown; `None` for no limit.
    pub max_depth: Option<usize>,
    /// Whether a chain of directories with one directory each is shown on
    /// one line.
    pub collapse_single: bool,
    /// The names of the directories that do not count against the depth.
    pub boilerplate_dirs: Vec<String>,
}

impl Default for TreeOptions {
    /// No depth limit, chains on one line, and the usual structural
    /// directories.
    fn default() -> (r: TreeOptions)
        ensures
            r.max_depth is None,
            r.collapse_single,
            texts(r.boilerplate_dirs@) == seq![
                "src"@,
                "lib"@,
                "pkg"@,
                "packages"@,
                "crates"@,
                "internal"@,
                "cmd"@,
            ],
    {
        TreeOptions {
            max_depth: None,
            collapse_single: true,
            boilerplate_dirs: default_boilerplate_dirs(),
        }
    }
}

/// A tree that was made.
#[derive(Debug, Clone)]
pub struct TreeResult {
    pub root_name: String,
    /// The lines of the drawing; the first is the name of the root.
    pub lines: Vec<String>,
    pub file_count: usize,
    pub dir_count: usize,
}

/// An entry of the tree, with the entries below it in the order of their
/// names.
#[derive(Debug)]
pub struct TreeNode {
    pub children: Vec<(String, TreeNode)>,
    pub is_dir: bool,
}

/// What an entry holds: the model of `TreeNode`.
pub struct TreeModel {
    pub children: Seq<(Seq<char>, TreeModel)>,
    pub is_dir: bool,
}

/// The model of an entry.
pub open spec fn tree_model(node: TreeNode) -> TreeModel
    decreases node,
{
    TreeModel {
        children: Seq::new(
            node.children.len() as nat,
            |i: int|
                if 0 <= i < node.children.len() {
                    (node.children[i].0@, tree_model(node.children[i].1))
                } else {
                    arbitrary()
                },
        ),
        is_dir: node.is_dir,
    }
}

/// An entry that holds nothing and is no directory.
pub open spec fn empty_entry() -> TreeModel {
    TreeModel { children: Seq::empty(), is_dir: false }
}

/// The position of the first child from `from` on that is called `name`,
/// or the number of children.
pub open spec fn child_position(children: Seq<(Seq<char>, TreeModel)>, from: int, name: Seq<char>) -> int
    decreases children.len() - from,
{
    if from < 0 || from >= children.len() {
        children.len() as int
    } else if children[from].0 == name {
        from
    } else {
        child_position(children, from + 1, name)
    }
}

/// The position of the first child from `from` on whose name comes after
/// `name`, or the number of children: where a child of that name goes.
pub open spec fn place_for(children: Seq<(Seq<char>, TreeModel)>, from: int, name: Seq<char>) -> int
    decreases children.len() - from,
{
    if from < 0 || from >= children.len() {
        children.len() as int
    } else if !text_le(children[from].0, name) {
        from
    } else {
        place_for(children, from + 1, name)
    }
}

/// An entry after the path `parts[from..]` is put below it. Each part is a
/// child of the part before it; the last part is a directory or not as
/// `is_dir` says, every other part is a directory. With a depth limit, a
/// part at or below the limit is left out with all that follows it, unless
/// it is a boilerplate directory; the depth grows with each part that is
/// none.
pub open spec fn with_path(
    m: TreeModel,
    parts: Seq<Seq<char>>,
    from: int,
    is_dir: bool,
    max_depth: Option<usize>,
    boilerplate: Seq<Seq<char>>,
    depth: int,
) -> TreeModel
    decreases parts.len() - from,
{
    if from < 0 || from >= parts.len() {
        m
    } else {
        let name = parts[from];
        if max_depth is Some && depth >= max_depth->0 && !boilerplate.contains(name) {
            m
        } else {
            let at = child_position(m.children, 0, name);
            let before = if at < m.children.len() {
                m.children[at].1
            } else {
                empty_entry()
            };
            let child = if from == parts.len() - 1 {
                TreeModel { is_dir, ..before }
            } else {
                with_path(
                    TreeModel { is_dir: true, ..before },
                    parts,
                    from + 1,
                    is_dir,
                    max_depth,
                    boilerplate,
                    if boilerplate.contains(name) {
                        depth
                    } else {
                        depth + 1
                    },
                )
            };
            TreeModel {
                children: if at < m.children.len() {
                    m.children.update(at, (name, child))
                } else {
                    m.children.insert(place_for(m.children, 0, name), (name, child))
                },
                ..m
            }
        }
    }
}

/// Tests whether `name` is one of `names`.
pub fn is_listed(names: &Vec<String>, name: &Vec<char>) -> (r: bool)
    ensures
        r == texts(names@).contains(name@),
{
    let mut i: usize = 0;
    while i < names.len()
        invariant
            i <= names.len(),
            forall|k: int| 0 <= k < i ==> texts(names@)[k] != name@,
        decreases names.len() - i,
    {
        assert(texts(names@)[i as int] == names@[i as int]@);
        if same(&chars_of(names[i].as_str()), name) {
            return true;
        }
        i += 1;
    }
    false
}

impl TreeNode {
    /// An entry that holds nothing.
    pub fn new(is_dir: bool) -> (r: TreeNode)
        ensures
            tree_model(r) == (TreeModel { children: Seq::empty(), is_dir }),
    {
        let r = TreeNode { children: Vec::new(), is_dir };
        assert(tree_model(r).children =~= Seq::<(Seq<char>, TreeModel)>::empty());
        r
    }

    /// The position of the child called `name`, or the number of children.
    fn position_of(&self, name: &Vec<char>) -> (at: usize)
        ensures
            at == child_position(tree_model(*self).children, 0, name@),
            at <= self.children.len(),
    {
        let ghost children = tree_model(*self).children;
        let mut i: usize = 0;
        while i < self.children.len()
            invariant
                i <= self.children.len(),
                children == tree_model(*self).children,
                child_position(children, 0, name@) == child_position(children, i as int, name@),
            decreases self.children.len() - i,
        {
            assert(children[i as int].0 == self.children@[i as int].0@);
            if same(&chars_of(self.children[i].0.as_str()), name) {
                return i;
            }
            i += 1;
        }
        i
    }

    /// Where a child called `name` goes among the children.
    fn place_of(&self, name: &Vec<char>) -> (at: usize)
        ensures
            at == place_for(tree_model(*self).children, 0, name@),
            at <= self.children.len(),
    {
        let ghost children = tree_model(*self).children;
        let mut i: usize = 0;
        while i < self.children.len()
            invariant
                i <= self.children.len(),
                children == tree_model(*self).children,
                place_for(children, 0, name@) == place_for(children, i as int, name@),
            decreases self.children.len() - i,
        {
            assert(children[i as int].0 == self.children@[i as int].0@);
            if !text_before_or_equal(&chars_of(self.children[i].0.as_str()), name) {
                return i;
            }
            i += 1;
        }
        i
    }

    /// Puts the path `parts[from..]` below the entry. The last part is a
    /// directory or not as `is_dir` says; the parts before it are
    /// directories. With `max_depth`, what lies at or below that depth is
    /// left out, where the directories of `boilerplate_dirs` do not count.
    pub fn add_path(
        self,
        parts: &Vec<Vec<char>>,
        from: usize,
        is_dir: bool,
        max_depth: Option<usize>,
        boilerplate_dirs: &Vec<String>,
        effective_depth: usize,
    ) -> (r: TreeNode)
        requires
            from <= parts.len(),
            effective_depth + (parts.len() - from) <= usize::MAX,
        ensures
            tree_model(r) == with_path(
                tree_model(self),
                rows(parts@),
                from as int,
                is_dir,
                max_depth,
                texts(boilerplate_dirs@),
                effective_depth as int,
            ),
        decreases parts.len() - from,
    {
        if from >= parts.len() {
            return self;
        }
        let name = &parts[from];
        assert(rows(parts@)[from as int] == name@);
        let is_boilerplate = is_listed(boilerplate_dirs, name);
        match max_depth {
            Some(max) => {
                if effective_depth >= max && !is_boilerplate {
                    return self;
                }
            },
            None => {},
        }
        let ghost m = tree_model(self);
        let at = self.position_of(name);
        let place = self.place_of(name);
        let found = at < self.children.len();
        let mut node = self;
        let before: TreeNode = if found {
            let (_, child) = node.children.remove(at);
            child
        } else {
            TreeNode::new(false)
        };
        assert(tree_model(before) == if found {
            m.children[at as int].1
        } else {
            empty_entry()
        }) by {
            if !found {
                assert(tree_model(before).children =~= empty_entry().children);
            }
        }
        let child: TreeNode = if from == parts.len() - 1 {
            let c = TreeNode { children: before.children, is_dir };
            assert(tree_model(c).children =~= tree_model(before).children);
            c
        } else {
            let next_depth = if is_boilerplate {
                effective_depth
            } else {
                effective_depth + 1
            };
            let c = TreeNode { children: before.children, is_dir: true };
            assert(tree_model(c).children =~= tree_model(before).children);
            c.add_path(parts, from + 1, is_dir, max_depth, boilerplate_dirs, next_depth)
        };
        let ghost child_model = tree_model(child);
        let ghost rest = tree_model(node).children;
        let position = if found {
            at
        } else {
            place
        };
        node.children.insert(position, (string_of(name), child));
        proof {
            let now = tree_model(node).children;
            if found {
                assert(rest =~= m.children.remove(at as int));
                assert(now =~= m.children.update(at as int, (name@, child_model)));
            } else {
                assert(rest =~= m.children);
                assert(now =~= m.children.insert(place as int, (name@, child_model)));
            }
        }
        node
    }
}

/// Where a chain of directories with one directory each ends: the
/// directory at the end, and the names along the chain joined by slashes.
pub open spec fn chain_end(m: TreeModel, name: Seq<char>) -> (Seq<char>, TreeModel)
    decreases m,
{
    if m.children.len() == 1 && m.children[0].1.is_dir {
        chain_end(m.children[0].1, name + "/"@ + m.children[0].0)
    } else {
        (name, m)
    }
}

/// Follows a chain of directories with one directory each from `node`,
/// which is called `name`, to its end.
pub fn collect_single_chain<'a>(node: &'a TreeNode, name: &Vec<char>) -> (r: (Vec<char>, &'a TreeNode))
    ensures
        (r.0@, tree_model(*r.1)) == chain_end(tree_model(*node), name@),
        *r.1 == *node || decreases_to!(*node => *r.1),
    decreases node,
{
    if node.children.len() == 1 && node.children[0].1.is_dir {
        assert(tree_model(*node).children[0] == (
            node.children@[0].0@,
            tree_model(node.children@[0].1),
        ));
        let longer = concat(
            &concat(name, &chars_of("/")),
            &chars_of(node.children[0].0.as_str()),
        );
        collect_single_chain(&node.children[0].1, &longer)
    } else {
        assert(tree_model(*node).children.len() == node.children.len());
        if node.children.len() == 1 {
            assert(tree_model(*node).children[0] == (
                node.children@[0].0@,
                tree_model(node.children@[0].1),
            ));
        }
        let same_name = crate::text::slice_of(name, 0, name.len());
        assert(same_name@ =~= name@);
        (same_name, node)
    }
}

/// The keys that order the entries of a directory: directories first, then
/// by name in lowercase.
pub open spec fn entry_keys(children: Seq<(Seq<char>, TreeModel)>) -> Seq<Key> {
    Seq::new(
        children.len(),
        |i: int|
            (Key {
                rank: if children[i].1.is_dir {
                    0
                } else {
                    1
                },
                text: lowercase_of(children[i].0),
                tie: 0,
            }),
    )
}

/// What stands before the name of an entry: a corner for the last entry of
/// its directory, a branch for any other.
pub open spec fn connector(is_last: bool) -> Seq<char> {
    if is_last {
        "\u{2514}\u{2500}\u{2500} "@
    } else {
        "\u{251c}\u{2500}\u{2500} "@
    }
}

/// What is put before the lines below an entry: spaces below the last
/// entry of its directory, a bar below any other.
pub open spec fn extension(is_last: bool) -> Seq<char> {
    if is_last {
        "    "@
    } else {
        "\u{2502}   "@
    }
}

/// The lines for one entry called `display`: with collapsing, a directory
/// that holds one directory only shares its line with it; else the line of
/// the entry, and below it the lines of what it holds.
pub open spec fn entry_lines(
    m: TreeModel,
    display: Seq<char>,
    is_last: bool,
    prefix: Seq<char>,
    collapse: bool,
) -> Seq<Seq<char>>
    decreases m, 2nat, 0nat,
{
    if collapse && m.is_dir && m.children.len() == 1 && m.children[0].1.is_dir {
        entry_lines(m.children[0].1, display + "/"@ + m.children[0].0, is_last, prefix, collapse)
    } else {
        seq![prefix + connector(is_last) + display] + if m.is_dir && m.children.len() > 0 {
            tree_lines(m, prefix + extension(is_last), collapse)
        } else {
            Seq::empty()
        }
    }
}

/// The lines for what a directory holds: its entries, directories first
/// and then by name in lowercase.
pub open spec fn tree_lines(m: TreeModel, prefix: Seq<char>, collapse: bool) -> Seq<Seq<char>>
    decreases m, 1nat, 0nat,
{
    lines_from(m, sorted_indices(entry_keys(m.children)), 0, prefix, collapse)
}

/// The lines for the entries of a directory from position `k` of the
/// order on.
pub open spec fn lines_from(
    m: TreeModel,
    order: Seq<int>,
    k: int,
    prefix: Seq<char>,
    collapse: bool,
) -> Seq<Seq<char>>
    decreases m, 0nat, order.len() - k,
{
    if k < 0 || k >= order.len() {
        Seq::empty()
    } else if 0 <= order[k] < m.children.len() {
        entry_lines(
            m.children[order[k]].1,
            m.children[order[k]].0,
            k == order.len() - 1,
            prefix,
            collapse,
        ) + lines_from(m, order, k + 1, prefix, collapse)
    } else {
        lines_from(m, order, k + 1, prefix, collapse)
    }
}

/// A directory at the start of a chain shares its line with the end of the
/// chain.
pub proof fn lemma_entry_lines_of_chain(
    m: TreeModel,
    display: Seq<char>,
    is_last: bool,
    prefix: Seq<char>,
)
    requires
        m.is_dir,
    ensures
        ({
            let end = chain_end(m, display);
            &&& end.1.is_dir
            &&& entry_lines(m, display, is_last, prefix, true) == seq![
                prefix + connector(is_last) + end.0,
            ] + if end.1.children.len() > 0 {
                tree_lines(end.1, prefix + extension(is_last), true)
            } else {
                Seq::empty()
            }
        }),
    decreases m,
{
    if m.children.len() == 1 && m.children[0].1.is_dir {
        lemma_entry_lines_of_chain(
            m.children[0].1,
            display + "/"@ + m.children[0].0,
            is_last,
            prefix,
        );
    }
}

/// Adds the lines for what `node` holds to `lines`, each behind `prefix`:
/// directories first, then by name in lowercase. With `collapse`, a chain
/// of directories with one directory each is one line.
pub fn render_tree(node: &TreeNode, prefix: &Vec<char>, lines: &mut Vec<Vec<char>>, collapse: bool)
    ensures
        rows(final(lines)@) == rows(old(lines)@) + tree_lines(tree_model(*node), prefix@, collapse),
    decreases node, 1nat,
{
    let ghost m = tree_model(*node);
    let ghost start = rows(lines@);
    let mut keys: Vec<SortKey> = Vec::new();
    let mut i: usize = 0;
    while i < node.children.len()
        invariant
            i <= node.children.len(),
            keys.len() == i,
            m == tree_model(*node),
            forall|k: int| 0 <= k < i ==> (#[trigger] keys@[k])@ == entry_keys(m.children)[k],
        decreases node.children.len() - i,
    {
        assert(m.children[i as int] == (
            node.children@[i as int].0@,
            tree_model(node.children@[i as int].1),
        ));
        let key = SortKey {
            rank: if node.children[i].1.is_dir {
                0
            } else {
                1
            },
            text: lower(&chars_of(node.children[i].0.as_str())),
            tie: 0,
        };
        keys.push(key);
        i += 1;
    }
    assert(key_views(keys@) =~= entry_keys(m.children));
    let order = sort_indices(&keys);
    let ghost ord = as_ints(order@);
    let count = order.len();
    let mut k: usize = 0;
    assert(rows(lines@) + lines_from(m, ord, count as int, prefix@, collapse) =~= rows(lines@));
    // the lines are added from the first entry on; what is still to come is known
    while k < count
        invariant
            k <= count,
            count == order.len(),
            order.len() == node.children.len(),
            m == tree_model(*node),
            ord == as_ints(order@),
            ord == sorted_indices(entry_keys(m.children)),
            forall|i: int| 0 <= i < order.len() ==> 0 <= #[trigger] order@[i] < node.children.len(),
            rows(lines@) + lines_from(m, ord, k as int, prefix@, collapse) == start + lines_from(
                m,
                ord,
                0,
                prefix@,
                collapse,
            ),
        decreases count - k,
    {
        let at = order[k];
        assert(ord[k as int] == at as int);
        let child = &node.children[at].1;
        let name = chars_of(node.children[at].0.as_str());
        assert(m.children[at as int] == (name@, tree_model(*child)));
        let is_last = k == count - 1;
        let ghost before = rows(lines@);
        render_entry(child, &name, is_last, prefix, lines, collapse);
        assert(before + (entry_lines(tree_model(*child), name@, is_last, prefix@, collapse)
            + lines_from(m, ord, k + 1, prefix@, collapse)) =~= before + entry_lines(
            tree_model(*child),
            name@,
            is_last,
            prefix@,
            collapse,
        ) + lines_from(m, ord, k + 1, prefix@, collapse));
        k += 1;
    }
    assert(rows(lines@) + lines_from(m, ord, count as int, prefix@, collapse) =~= rows(lines@));
}

/// Adds the lines for the entry `node`, shown as `display`, to `lines`.
fn render_entry(
    node: &TreeNode,
    display: &Vec<char>,
    is_last: bool,
    prefix: &Vec<char>,
    lines: &mut Vec<Vec<char>>,
    collapse: bool,
)
    ensures
        rows(final(lines)@) == rows(old(lines)@) + entry_lines(
            tree_model(*node),
            display@,
            is_last,
            prefix@,
            collapse,
        ),
    decreases node, 2nat,
{
    let ghost m = tree_model(*node);
    let ghost start = rows(lines@);
    let (shown, end): (Vec<char>, &TreeNode) = if collapse && node.is_dir {
        proof {
            lemma_entry_lines_of_chain(m, display@, is_last, prefix@);
        }
        collect_single_chain(node, display)
    } else {
        let same_name = crate::text::slice_of(display, 0, display.len());
        assert(same_name@ =~= display@);
        (same_name, node)
    };
    let mark = if is_last {
        "\u{2514}\u{2500}\u{2500} "
    } else {
        "\u{251c}\u{2500}\u{2500} "
    };
    let line = concat(&concat(prefix, &chars_of(mark)), &shown);
    lines.push(line);
    assert(rows(lines@) =~= start.push(prefix@ + connector(is_last) + shown@));
    assert(tree_model(*end).children.len() == end.children.len());
    if end.is_dir && end.children.len() > 0 {
        let more = if is_last {
            "    "
        } else {
            "\u{2502}   "
        };
        let deeper = concat(prefix, &chars_of(more));
        render_tree(end, &deeper, lines, collapse);
    }
    assert(rows(lines@) =~= start + entry_lines(m, display@, is_last, prefix@, collapse)) by {
        if !(collapse && node.is_dir) {
            assert(!(collapse && m.is_dir && m.children.len() == 1 && m.children[0].1.is_dir));
        }
    }
}

/// The parts of a relative path: its pieces between slashes that are not
/// empty.
pub open spec fn path_parts(pieces: Seq<Seq<char>>, n: int) -> Seq<Seq<char>>
    decreases n,
{
    if n <= 0 {
        Seq::empty()
    } else {
        let rest = path_parts(pieces, n - 1);
        if pieces[n - 1].len() > 0 {
            rest.push(pieces[n - 1])
        } else {
            rest
        }
    }
}

/// The parts of a relative path.
pub fn parts_of(path: &Vec<char>) -> (r: Vec<Vec<char>>)
    ensures
        rows(r@) == path_parts(split_on(path@, '/'), split_on(path@, '/').len() as int),
{
    let pieces = split(path, '/');
    let mut out: Vec<Vec<char>> = Vec::new();
    let mut i: usize = 0;
    assert(rows(out@) =~= path_parts(rows(pieces@), 0));
    while i < pieces.len()
        invariant
            i <= pieces.len(),
            rows(out@) == path_parts(rows(pieces@), i as int),
        decreases pieces.len() - i,
    {
        assert(rows(pieces@)[i as int] == pieces@[i as int]@);
        if pieces[i].len() > 0 {
            let ghost so_far = rows(out@);
            let piece = crate::text::slice_of(&pieces[i], 0, pieces[i].len());
            assert(piece@ =~= pieces@[i as int]@);
            out.push(piece);
            assert(rows(out@) =~= so_far.push(piece@));
        }
        i += 1;
    }
    out
}

/// The tree after the first `n` entries have been put into it: an entry
/// whose path has parts is put below the root, by its parts.
pub open spec fn tree_after(entries: Seq<IndexedFile>, n: int, options: TreeOptions) -> TreeModel
    decreases n,
{
    if n <= 0 {
        TreeModel { children: Seq::empty(), is_dir: true }
    } else {
        let before = tree_after(entries, n - 1, options);
        let pieces = split_on(entries[n - 1].path@, '/');
        let parts = path_parts(pieces, pieces.len() as int);
        if parts.len() > 0 {
            with_path(
                before,
                parts,
                0,
                entries[n - 1].is_dir,
                options.max_depth,
                texts(options.boilerplate_dirs@),
                0,
            )
        } else {
            before
        }
    }
}

/// The number of directories among the first `n` entries whose path has
/// parts.
pub open spec fn dirs_among(entries: Seq<IndexedFile>, n: int) -> nat
    decreases n,
{
    if n <= 0 {
        0
    } else {
        let pieces = split_on(entries[n - 1].path@, '/');
        dirs_among(entries, n - 1) + if path_parts(pieces, pieces.len() as int).len() > 0
            && entries[n - 1].is_dir {
            1nat
        } else {
            0nat
        }
    }
}

/// The number of files among the first `n` entries whose path has parts.
pub open spec fn files_among(entries: Seq<IndexedFile>, n: int) -> nat
    decreases n,
{
    if n <= 0 {
        0
    } else {
        let pieces = split_on(entries[n - 1].path@, '/');
        files_among(entries, n - 1) + if path_parts(pieces, pieces.len() as int).len() > 0
            && !entries[n - 1].is_dir {
            1nat
        } else {
            0nat
        }
    }
}

/// The name under which a root is shown: the last part of its path, or a
/// dot where the path has none.
pub open spec fn root_name_of(root: Seq<char>) -> Seq<char> {
    if base_name(root).len() > 0 {
        base_name(root)
    } else {
        "."@
    }
}

/// Draws the tree of the entries of a project, whose paths are relative to
/// `root`. The first line is the name of the root; the lines below it show
/// the entries, directories first. Every entry with a path counts as a
/// file or a directory, also where the depth limit keeps it out of the
/// drawing.
pub fn generate_tree(root: &str, entries: &Vec<IndexedFile>, options: &TreeOptions) -> (r: TreeResult)
    ensures
        r.root_name@ == root_name_of(root@),
        texts(r.lines@) == seq![root_name_of(root@)] + tree_lines(
            tree_after(entries@, entries.len() as int, *options),
            Seq::empty(),
            options.collapse_single,
        ),
        r.file_count == files_among(entries@, entries.len() as int),
        r.dir_count == dirs_among(entries@, entries.len() as int),
{
    let name = file_name(&chars_of(root));
    let root_name = if name.len() > 0 {
        name
    } else {
        chars_of(".")
    };
    let mut tree = TreeNode::new(true);
    let mut file_count: usize = 0;
    let mut dir_count: usize = 0;
    let mut i: usize = 0;
    while i < entries.len()
        invariant
            i <= entries.len(),
            tree_model(tree) == tree_after(entries@, i as int, *options),
            file_count == files_among(entries@, i as int),
            dir_count == dirs_among(entries@, i as int),
            file_count + dir_count <= i,
        decreases entries.len() - i,
    {
        let path = chars_of(entries[i].path.as_str());
        let parts = parts_of(&path);
        if parts.len() > 0 {
            tree = tree.add_path(
                &parts,
                0,
                entries[i].is_dir,
                options.max_depth,
                &options.boilerplate_dirs,
                0,
            );
            if entries[i].is_dir {
                dir_count += 1;
            } else {
                file_count += 1;
            }
        }
        i += 1;
    }
    let mut lines: Vec<Vec<char>> = Vec::new();
    lines.push(crate::text::slice_of(&root_name, 0, root_name.len()));
    assert(lines@[0]@ =~= root_name@);
    assert(rows(lines@) =~= seq![root_name@]);
    let prefix: Vec<char> = Vec::new();
    assert(prefix@ =~= Seq::<char>::empty());
    render_tree(&tree, &prefix, &mut lines, options.collapse_single);
    TreeResult {
        root_name: string_of(&root_name),
        lines: crate::text::strings_of(&lines),
        file_count,
        dir_count,
    }
}

} // verus!
