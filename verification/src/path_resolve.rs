//! Resolution of a query to paths of the inventory: exact matches first,
//! then names and stems, then fuzzy scores.

use crate::file_index::IndexedFile;
use crate::ordering::{arranged, as_ints, key_views, sort_indices, sorted_indices, Key, SortKey};
use crate::paths::{base_name, file_name, file_stem, stem_of};
use crate::text::{
    chars_of, contains_char, has_char, lower, lowercase_of, rows, same, split, split_on,
    string_of, text_is, texts,
};
use nucleo_matcher::pattern::{CaseMatching, Normalization, Pattern};
use nucleo_matcher::{Config, Matcher, Utf32Str};
use vstd::prelude::*;

verus! {

/// The largest number of fuzzy matches that a query returns.
pub const MAX_FUZZY_MATCHES: usize = 10;

/// A path that matches a query.
#[derive(Debug, Clone)]
pub struct PathMatch {
    pub path: String,
    /// `"directory"` or `"file"`.
    pub kind: String,
    pub score: u32,
}

/// What a match holds: the model of `PathMatch`.
pub struct MatchView {
    pub path: Seq<char>,
    pub kind: Seq<char>,
    pub score: u32,
}

impl View for PathMatch {
    type V = MatchView;

    open spec fn view(&self) -> MatchView {
        MatchView { path: self.path@, kind: self.kind@, score: self.score }
    }
}

/// The models of the matches of `v`.
pub open spec fn match_views(v: Seq<PathMatch>) -> Seq<MatchView> {
    v.map_values(|m: PathMatch| m@)
}

/// The score that the fuzzy matcher gives `candidate` for `query`, or `None`
/// where it finds no match.
pub uninterp spec fn fuzzy_score(query: Seq<char>, candidate: Seq<char>) -> Option<u32>;

/// The longest query that is handed to the fuzzy matcher. The matcher adds
/// up the score of one word of the query in 16 bits without a check: at
/// most 36 for the first character of the word and 26 for each further one
/// with its default configuration, which stays below 16 bits for a word of
/// this length. The scores of the words are added in 32 bits, which a query
/// of this length cannot fill either.
pub const MAX_QUERY_LEN: usize = 2048;

/// Whether the fuzzy matcher is asked about the two texts: the query is
/// no longer than `MAX_QUERY_LEN`, and the candidate has no more
/// characters than 32 bits count.
pub open spec fn can_score(query: Seq<char>, candidate: Seq<char>) -> bool {
    query.len() <= MAX_QUERY_LEN && candidate.len() <= u32::MAX
}

/// The score of `candidate` for `query`: what the fuzzy matcher gives,
/// where it is asked; none for texts that are too long for it.
pub open spec fn score_of(query: Seq<char>, candidate: Seq<char>) -> Option<u32> {
    if can_score(query, candidate) {
        fuzzy_score(query, candidate)
    } else {
        None
    }
}

/// The score of `candidate` for `query`.
pub fn score(query: &str, candidate: &str) -> (r: Option<u32>)
    ensures
        r == score_of(query@, candidate@),
{
    if query.unicode_len() <= MAX_QUERY_LEN && candidate.unicode_len() <= 0xFFFF_FFFF {
        fuzzy_match(query, candidate)
    } else {
        None
    }
}

/// Scores `candidate` against `query`.
///
/// Trusted: parses `query` with `nucleo_matcher::pattern::Pattern::parse`
/// (case ignored, smart normalization) and calls `Pattern::score` on the
/// candidate with a matcher of the default configuration. The score is a
/// function of the two texts; the contract names it and says nothing else.
/// The matcher refuses candidates of more characters than 32 bits count,
/// and adds the score of a word of the query in 16 bits without a check;
/// texts beyond these limits are kept away.
#[verifier::external_body]
fn fuzzy_match(query: &str, candidate: &str) -> (r: Option<u32>)
    requires
        can_score(query@, candidate@),
    ensures
        r == fuzzy_score(query@, candidate@),
{
    let mut matcher = Matcher::new(Config::DEFAULT);
    let pattern = Pattern::parse(query, CaseMatching::Ignore, Normalization::Smart);
    let mut buf = Vec::new();
    pattern.score(Utf32Str::new(candidate, &mut buf), &mut matcher)
}

/// The word for what an entry is.
pub open spec fn kind_text(is_dir: bool) -> Seq<char> {
    if is_dir {
        "directory"@
    } else {
        "file"@
    }
}

/// The match for `entry` with the given score.
pub open spec fn match_for(entry: IndexedFile, score: u32) -> MatchView {
    MatchView { path: entry.path@, kind: kind_text(entry.is_dir), score }
}

/// The part of a query that names a file: what stands before its first `:`.
pub open spec fn file_part(query: Seq<char>) -> Seq<char> {
    if has_char(query, ':') {
        split_on(query, ':')[0]
    } else {
        query
    }
}

/// The position of the first entry from `from` on whose path is `query` and
/// not empty, or the number of entries if there is none.
pub open spec fn exact_position(entries: Seq<IndexedFile>, from: int, query: Seq<char>) -> int
    decreases entries.len() - from,
{
    if from < 0 || from >= entries.len() {
        entries.len() as int
    } else if entries[from].path@.len() > 0 && entries[from].path@ == query {
        from
    } else {
        exact_position(entries, from + 1, query)
    }
}

/// Whether the name of `path`, or the name without its extension, is
/// `query_lower` once put in lowercase.
pub open spec fn name_or_stem_is(path: Seq<char>, query_lower: Seq<char>) -> bool {
    lowercase_of(base_name(path)) == query_lower || lowercase_of(stem_of(base_name(path)))
        == query_lower
}

/// The matches by name or stem among the first `n` entries, in order, each
/// with the second largest score.
pub open spec fn name_matches_among(entries: Seq<IndexedFile>, n: int, query_lower: Seq<char>) -> Seq<
    MatchView,
>
    decreases n,
{
    if n <= 0 {
        Seq::empty()
    } else {
        let rest = name_matches_among(entries, n - 1, query_lower);
        let e = entries[n - 1];
        if e.path@.len() > 0 && name_or_stem_is(e.path@, query_lower) {
            rest.push(match_for(e, (u32::MAX - 1) as u32))
        } else {
            rest
        }
    }
}

/// The fuzzy matches among the first `n` entries, in order, each with its
/// score.
pub open spec fn fuzzy_matches_among(entries: Seq<IndexedFile>, n: int, query: Seq<char>) -> Seq<
    MatchView,
>
    decreases n,
{
    if n <= 0 {
        Seq::empty()
    } else {
        let rest = fuzzy_matches_among(entries, n - 1, query);
        let e = entries[n - 1];
        if e.path@.len() > 0 && score_of(query, e.path@) is Some {
            rest.push(match_for(e, score_of(query, e.path@)->0))
        } else {
            rest
        }
    }
}

/// The keys that put matches in the order of falling scores.
pub open spec fn score_keys(matches: Seq<MatchView>) -> Seq<Key> {
    Seq::new(
        matches.len(),
        |i: int| (Key { rank: (u32::MAX - matches[i].score) as u64, text: Seq::empty(), tie: 0 }),
    )
}

/// The best matches: ordered by falling score, matches of one score in their
/// own order, and cut after the first `MAX_FUZZY_MATCHES`.
pub open spec fn ranked(matches: Seq<MatchView>) -> Seq<MatchView> {
    let sorted = arranged(matches, sorted_indices(score_keys(matches)));
    if sorted.len() > MAX_FUZZY_MATCHES {
        sorted.take(MAX_FUZZY_MATCHES as int)
    } else {
        sorted
    }
}

/// What a query without `:` resolves to.
pub open spec fn resolved_plain(query: Seq<char>, entries: Seq<IndexedFile>) -> Seq<MatchView> {
    let at = exact_position(entries, 0, query);
    let by_name = name_matches_among(entries, entries.len() as int, lowercase_of(query));
    if at < entries.len() {
        seq![match_for(entries[at], u32::MAX)]
    } else if by_name.len() > 0 {
        by_name
    } else {
        ranked(fuzzy_matches_among(entries, entries.len() as int, query))
    }
}

/// What a query resolves to.
pub open spec fn resolved(query: Seq<char>, entries: Seq<IndexedFile>) -> Seq<MatchView> {
    resolved_plain(file_part(query), entries)
}

/// The match for an entry.
fn make_match(entry: &IndexedFile, score: u32) -> (m: PathMatch)
    ensures
        m@ == match_for(*entry, score),
{
    let kind = if entry.is_dir {
        "directory"
    } else {
        "file"
    };
    PathMatch { path: entry.path.clone(), kind: kind.to_owned(), score }
}

/// An equal match.
fn copy_match(m: &PathMatch) -> (r: PathMatch)
    ensures
        r@ == m@,
{
    PathMatch { path: m.path.clone(), kind: m.kind.clone(), score: m.score }
}

/// Orders matches by falling score, keeping the order of matches with one
/// score, and keeps the first `MAX_FUZZY_MATCHES`.
pub fn rank_matches(matches: Vec<PathMatch>) -> (r: Vec<PathMatch>)
    ensures
        match_views(r@) == ranked(match_views(matches@)),
{
    let ghost views = match_views(matches@);
    let mut keys: Vec<SortKey> = Vec::new();
    let mut i: usize = 0;
    while i < matches.len()
        invariant
            i <= matches.len(),
            keys.len() == i,
            views == match_views(matches@),
            forall|k: int| 0 <= k < i ==> (#[trigger] keys@[k])@ == score_keys(views)[k],
        decreases matches.len() - i,
    {
        let key = SortKey { rank: (u32::MAX - matches[i].score) as u64, text: Vec::new(), tie: 0 };
        assert(key@.text =~= Seq::<char>::empty());
        keys.push(key);
        i += 1;
    }
    assert(key_views(keys@) =~= score_keys(views));
    let order = sort_indices(&keys);
    let limit: usize = if order.len() > MAX_FUZZY_MATCHES {
        MAX_FUZZY_MATCHES
    } else {
        order.len()
    };
    let ghost sorted = arranged(views, sorted_indices(score_keys(views)));
    let mut out: Vec<PathMatch> = Vec::new();
    let mut k: usize = 0;
    while k < limit
        invariant
            k <= limit <= order.len(),
            out.len() == k,
            order.len() == matches.len(),
            views == match_views(matches@),
            as_ints(order@) == sorted_indices(score_keys(views)),
            sorted == arranged(views, sorted_indices(score_keys(views))),
            forall|i: int| 0 <= i < order.len() ==> 0 <= #[trigger] order@[i] < matches.len(),
            match_views(out@) == sorted.take(k as int),
        decreases limit - k,
    {
        let ghost before = out@;
        out.push(copy_match(&matches[order[k]]));
        assert(match_views(out@) =~= sorted.take(k + 1)) by {
            assert(as_ints(order@)[k as int] == order@[k as int] as int);
            assert forall|j: int| 0 <= j < k implies match_views(out@)[j] == sorted.take(k + 1)[j] by {
                assert(match_views(before)[j] == sorted.take(k as int)[j]);
            }
        }
        k += 1;
    }
    assert(sorted.take(sorted.len() as int) =~= sorted);
    out
}

/// Resolves a query that holds no `:`.
pub fn resolve_plain(query: &Vec<char>, entries: &Vec<IndexedFile>) -> (r: Vec<PathMatch>)
    ensures
        match_views(r@) == resolved_plain(query@, entries@),
{
    let mut i: usize = 0;
    while i < entries.len()
        invariant
            i <= entries.len(),
            exact_position(entries@, 0, query@) == exact_position(entries@, i as int, query@),
        decreases entries.len() - i,
    {
        let path = chars_of(entries[i].path.as_str());
        if path.len() > 0 && same(&path, query) {
            let mut out: Vec<PathMatch> = Vec::new();
            out.push(make_match(&entries[i], u32::MAX));
            assert(match_views(out@) =~= seq![match_for(entries@[i as int], u32::MAX)]);
            return out;
        }
        i += 1;
    }
    let query_lower = lower(query);
    let mut by_name: Vec<PathMatch> = Vec::new();
    let mut i: usize = 0;
    assert(match_views(by_name@) =~= name_matches_among(entries@, 0, query_lower@));
    while i < entries.len()
        invariant
            i <= entries.len(),
            query_lower@ == lowercase_of(query@),
            match_views(by_name@) == name_matches_among(entries@, i as int, query_lower@),
        decreases entries.len() - i,
    {
        let path = chars_of(entries[i].path.as_str());
        if path.len() > 0 {
            let name = file_name(&path);
            let stem = file_stem(&name);
            let name_lower = lower(&name);
            let stem_lower = lower(&stem);
            if same(&name_lower, &query_lower) || same(&stem_lower, &query_lower) {
                let ghost before = by_name@;
                by_name.push(make_match(&entries[i], u32::MAX - 1));
                assert(match_views(by_name@) =~= match_views(before).push(
                    match_for(entries@[i as int], (u32::MAX - 1) as u32),
                ));
            }
        }
        i += 1;
    }
    if by_name.len() > 0 {
        return by_name;
    }
    let query_text = string_of(query);
    let mut fuzzy: Vec<PathMatch> = Vec::new();
    let mut i: usize = 0;
    assert(match_views(fuzzy@) =~= fuzzy_matches_among(entries@, 0, query@));
    while i < entries.len()
        invariant
            i <= entries.len(),
            query_text@ == query@,
            match_views(fuzzy@) == fuzzy_matches_among(entries@, i as int, query@),
        decreases entries.len() - i,
    {
        if entries[i].path.as_str().unicode_len() > 0 {
            match score(query_text.as_str(), entries[i].path.as_str()) {
                Some(score) => {
                    let ghost before = fuzzy@;
                    fuzzy.push(make_match(&entries[i], score));
                    assert(match_views(fuzzy@) =~= match_views(before).push(
                        match_for(entries@[i as int], score),
                    ));
                },
                None => {},
            }
        }
        i += 1;
    }
    rank_matches(fuzzy)
}

/// Resolves a query to the entries it may mean.
///
/// Of a query that holds `:` only the part before the first `:` counts. An
/// entry whose path is that text is the only match, with the largest score.
/// Else the entries whose name, or name without extension, is the text
/// whatever the case of letters, with the second largest score. Else the
/// entries that the fuzzy matcher accepts, in the order of falling scores,
/// at most `MAX_FUZZY_MATCHES` of them. Entries without a path never match.
pub fn resolve(query: &str, entries: &Vec<IndexedFile>) -> (r: Vec<PathMatch>)
    ensures
        match_views(r@) == resolved(query@, entries@),
{
    let q = chars_of(query);
    if contains_char(&q, ':') {
        let parts = split(&q, ':');
        assert(rows(parts@)[0] == parts@[0]@);
        resolve_plain(&parts[0], entries)
    } else {
        resolve_plain(&q, entries)
    }
}

/// An exact match comes first: a query without `:` that is the path of an
/// entry resolves to that path alone, with the largest score there is.
pub proof fn lemma_exact_match_alone(query: Seq<char>, entries: Seq<IndexedFile>, at: int)
    requires
        !has_char(query, ':'),
        0 <= at < entries.len(),
        entries[at].path@ == query,
        query.len() > 0,
    ensures
        resolved(query, entries).len() == 1,
        resolved(query, entries)[0].path == query,
        resolved(query, entries)[0].score == u32::MAX,
{
    lemma_exact_position_found(entries, 0, query, at);
}

/// The first exact match stands at or before any entry whose path is the query.
pub proof fn lemma_exact_position_found(
    entries: Seq<IndexedFile>,
    from: int,
    query: Seq<char>,
    at: int,
)
    requires
        0 <= from <= at < entries.len(),
        entries[at].path@ == query,
        query.len() > 0,
    ensures
        from <= exact_position(entries, from, query) <= at,
        entries[exact_position(entries, from, query)].path@ == query,
    decreases at - from,
{
    if from < at && !(entries[from].path@.len() > 0 && entries[from].path@ == query) {
        lemma_exact_position_found(entries, from + 1, query, at);
    }
}


/// The best matches fall by score and are few: of two matches that were
/// ranked, the earlier has no smaller a score, and no more than
/// `MAX_FUZZY_MATCHES` are kept; every match that is kept is one of those
/// that were ranked.
pub proof fn lemma_ranked_falls(matches: Seq<MatchView>, a: int, b: int)
    requires
        0 <= a < b < ranked(matches).len(),
    ensures
        ranked(matches).len() <= MAX_FUZZY_MATCHES,
        ranked(matches).len() <= matches.len(),
        ranked(matches)[a].score >= ranked(matches)[b].score,
        matches.contains(ranked(matches)[a]),
{
    let keys = score_keys(matches);
    crate::ordering::lemma_sorted_prefix_is_stable(keys, keys.len() as int);
    let order = sorted_indices(keys);
    assert(crate::ordering::key_le(keys[order[a]], keys[order[b]]));
    assert(matches[order[a]] == ranked(matches)[a]);
}

/// The paths of those among the first `n` matches that are files, in the
/// order of the matches.
pub open spec fn file_paths_of(matches: Seq<MatchView>, n: int) -> Seq<Seq<char>>
    decreases n,
{
    if n <= 0 {
        Seq::empty()
    } else if matches[n - 1].kind == "file"@ {
        file_paths_of(matches, n - 1).push(matches[n - 1].path)
    } else {
        file_paths_of(matches, n - 1)
    }
}

/// The paths of the matches that are files, in the order of the matches.
pub fn file_paths(matches: &Vec<PathMatch>) -> (r: Vec<String>)
    ensures
        texts(r@) == file_paths_of(match_views(matches@), matches.len() as int),
{
    let mut out: Vec<String> = Vec::new();
    let mut i: usize = 0;
    assert(texts(out@) =~= file_paths_of(match_views(matches@), 0));
    while i < matches.len()
        invariant
            i <= matches.len(),
            texts(out@) == file_paths_of(match_views(matches@), i as int),
        decreases matches.len() - i,
    {
        assert(match_views(matches@)[i as int] == matches@[i as int]@);
        if text_is(matches[i].kind.as_str(), "file") {
            let ghost so_far = texts(out@);
            out.push(matches[i].path.clone());
            assert(texts(out@) =~= so_far.push(matches@[i as int].path@));
        }
        i += 1;
    }
    out
}

/// The place of the first match that is a file, if there is one.
pub fn first_file(matches: &Vec<PathMatch>) -> (r: Option<usize>)
    ensures
        match r {
            Some(at) => at < matches.len() && matches@[at as int].kind@ == "file"@
                && forall|k: int| 0 <= k < at ==> (#[trigger] matches@[k]).kind@ != "file"@,
            None => forall|k: int|
                0 <= k < matches.len() ==> (#[trigger] matches@[k]).kind@ != "file"@,
        },
{
    let mut i: usize = 0;
    while i < matches.len()
        invariant
            i <= matches.len(),
            forall|k: int| 0 <= k < i ==> (#[trigger] matches@[k]).kind@ != "file"@,
        decreases matches.len() - i,
    {
        if text_is(matches[i].kind.as_str(), "file") {
            return Some(i);
        }
        i += 1;
    }
    None
}

} // verus!
