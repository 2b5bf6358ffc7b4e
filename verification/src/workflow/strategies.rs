//! Strategies for the execution of a workflow: what context to keep, what
//! results to cache, when to try again, and when a transition is taken.

use crate::text::{
    chars_of, concat, contains, has_infix, has_prefix, join, join_of, lower, lowercase_of, rows,
    slice_of, starts_with, string_of, text_is, trim, trimmed,
};
use vstd::prelude::*;

verus! {

/// How a workflow keeps its context.
pub trait ContextStrategy {
    /// The items of the context, oldest first, each a key and a value.
    spec fn items(&self) -> Seq<(Seq<char>, Seq<char>)>;

    /// Adds an item to the context.
    fn add(&mut self, key: &str, value: &str);

    /// The context as one text, for a prompt: one line for each item, the
    /// key, a colon and a space, and the value.
    fn get_context(&self) -> (r: String)
        ensures
            r@ == context_text(self.items()),
    ;
}

/// The lines of a context: for each of the first `n` items the key, a
/// colon and a space, and the value.
pub open spec fn context_lines(items: Seq<(Seq<char>, Seq<char>)>, n: int) -> Seq<Seq<char>>
    decreases n,
{
    if n <= 0 {
        Seq::empty()
    } else {
        context_lines(items, n - 1).push(items[n - 1].0 + ": "@ + items[n - 1].1)
    }
}

/// A context as one text: its lines, joined by line feeds.
pub open spec fn context_text(items: Seq<(Seq<char>, Seq<char>)>) -> Seq<char> {
    join_of(context_lines(items, items.len() as int), seq!['\n'])
}

/// The keys and values of `v` as texts.
pub open spec fn pairs_of(v: Seq<(String, String)>) -> Seq<(Seq<char>, Seq<char>)> {
    v.map_values(|p: (String, String)| (p.0@, p.1@))
}

/// A context that keeps the last items, up to a largest number.
pub struct FlatContext {
    items: Vec<(String, String)>,
    max_items: usize,
}

impl FlatContext {
    /// The largest number of items that the context keeps.
    pub closed spec fn limit(&self) -> usize {
        self.max_items
    }

    /// The items that the context holds.
    pub closed spec fn held(&self) -> Seq<(Seq<char>, Seq<char>)> {
        pairs_of(self.items@)
    }

    /// An empty context that keeps at most `max_items` items.
    pub fn new(max_items: usize) -> (r: FlatContext)
        ensures
            r.limit() == max_items,
            r.held().len() == 0,
    {
        let r = FlatContext { items: Vec::new(), max_items };
        assert(r.held() =~= Seq::<(Seq<char>, Seq<char>)>::empty());
        r
    }

    /// An empty context with the same limit, for a nested execution.
    pub fn child(&self) -> (r: FlatContext)
        ensures
            r.limit() == self.limit(),
            r.held().len() == 0,
    {
        FlatContext::new(self.max_items)
    }

    /// The number of items that the context holds.
    pub fn len(&self) -> (n: usize)
        ensures
            n == self.held().len(),
    {
        self.items.len()
    }
}

/// What a flat context holds after one more item: the item is added at the
/// end, and the oldest item leaves if the context holds more than its
/// limit then.
pub open spec fn after_add(
    items: Seq<(Seq<char>, Seq<char>)>,
    limit: usize,
    key: Seq<char>,
    value: Seq<char>,
) -> Seq<(Seq<char>, Seq<char>)> {
    let all = items.push((key, value));
    if all.len() > limit {
        all.drop_first()
    } else {
        all
    }
}

impl ContextStrategy for FlatContext {
    open spec fn items(&self) -> Seq<(Seq<char>, Seq<char>)> {
        self.held()
    }

    /// Adds an item; the oldest item leaves if the context is over its
    /// limit then.
    fn add(&mut self, key: &str, value: &str)
        ensures
            final(self).held() == after_add(old(self).held(), old(self).limit(), key@, value@),
            final(self).limit() == old(self).limit(),
    {
        let ghost before = self.held();
        self.items.push((key.to_owned(), value.to_owned()));
        assert(self.held() =~= before.push((key@, value@)));
        if self.items.len() > self.max_items {
            let ghost all = self.held();
            self.items.remove(0);
            assert(self.held() =~= all.drop_first());
        }
    }

    fn get_context(&self) -> (r: String) {
        let mut lines: Vec<Vec<char>> = Vec::new();
        let mut i: usize = 0;
        assert(rows(lines@) =~= context_lines(self.held(), 0));
        while i < self.items.len()
            invariant
                i <= self.items.len(),
                rows(lines@) == context_lines(self.held(), i as int),
            decreases self.items.len() - i,
        {
            let ghost so_far = rows(lines@);
            let key = chars_of(self.items[i].0.as_str());
            let value = chars_of(self.items[i].1.as_str());
            let line = concat(&concat(&key, &chars_of(": ")), &value);
            assert(self.held()[i as int] == (self.items@[i as int].0@, self.items@[i as int].1@));
            lines.push(line);
            assert(rows(lines@) =~= so_far.push(line@));
            i += 1;
        }
        let mut feed: Vec<char> = Vec::new();
        feed.push('\n');
        assert(feed@ =~= seq!['\n']);
        string_of(&join(&lines, &feed))
    }
}

/// How a workflow caches the results of its actions.
pub trait CacheStrategy {
    /// What the cache holds for an action, if anything.
    spec fn cached(&self, action: Seq<char>) -> Option<Seq<char>>;

    /// The cached result of an action.
    fn get(&self, action: &str) -> (r: Option<String>)
        ensures
            crate::syntax::opt_text(r) == self.cached(action@),
    ;

    /// Caches a result for an action.
    fn set(&mut self, action: &str, result: &str);

    /// Empties the cache.
    fn clear(&mut self)
        ensures
            forall|action: Seq<char>| final(self).cached(action) is None,
    ;
}

/// A cache that keeps nothing.
pub struct NoCache;

impl CacheStrategy for NoCache {
    open spec fn cached(&self, action: Seq<char>) -> Option<Seq<char>> {
        None
    }

    fn get(&self, action: &str) -> (r: Option<String>) {
        None
    }

    fn set(&mut self, action: &str, result: &str) {
    }

    fn clear(&mut self) {
    }
}

/// The position of the first entry from `from` on for `action`, or the
/// number of entries.
pub open spec fn cache_position(
    entries: Seq<(Seq<char>, Seq<char>)>,
    from: int,
    action: Seq<char>,
) -> int
    decreases entries.len() - from,
{
    if from < 0 || from >= entries.len() {
        entries.len() as int
    } else if entries[from].0 == action {
        from
    } else {
        cache_position(entries, from + 1, action)
    }
}

/// What a result is cached as: a result of more than `preview_length`
/// characters is cut to that many, and marked as truncated.
pub open spec fn preview_of(result: Seq<char>, preview_length: Option<usize>) -> Seq<char> {
    match preview_length {
        Some(len) => if result.len() > len {
            result.take(len as int) + "...(truncated)"@
        } else {
            result
        },
        None => result,
    }
}

/// A cache in memory, which may cut long results.
pub struct InMemoryCache {
    entries: Vec<(String, String)>,
    preview_length: Option<usize>,
}

impl InMemoryCache {
    /// The actions and their results, in the order in which the actions
    /// were first cached.
    pub closed spec fn held(&self) -> Seq<(Seq<char>, Seq<char>)> {
        pairs_of(self.entries@)
    }

    /// The length after which results are cut, if any.
    pub closed spec fn preview(&self) -> Option<usize> {
        self.preview_length
    }

    /// An empty cache. With `preview_length`, results of more characters
    /// are cut to that many.
    pub fn new(preview_length: Option<usize>) -> (r: InMemoryCache)
        ensures
            r.preview() == preview_length,
            r.held().len() == 0,
    {
        let r = InMemoryCache { entries: Vec::new(), preview_length };
        assert(r.held() =~= Seq::<(Seq<char>, Seq<char>)>::empty());
        r
    }

    /// The position of the entry for `action`, or the number of entries.
    fn position_of(&self, action: &str) -> (at: usize)
        ensures
            at == cache_position(self.held(), 0, action@),
            at <= self.held().len(),
    {
        let mut i: usize = 0;
        while i < self.entries.len()
            invariant
                i <= self.entries.len(),
                cache_position(self.held(), 0, action@) == cache_position(
                    self.held(),
                    i as int,
                    action@,
                ),
            decreases self.entries.len() - i,
        {
            assert(self.held()[i as int] == (self.entries@[i as int].0@, self.entries@[i as int].1@));
            if text_is(self.entries[i].0.as_str(), action) {
                return i;
            }
            i += 1;
        }
        i
    }
}

/// What a cache in memory holds after a result is set: the entry for the
/// action holds the new result, or a new entry is added at the end.
pub open spec fn after_set(
    entries: Seq<(Seq<char>, Seq<char>)>,
    action: Seq<char>,
    value: Seq<char>,
) -> Seq<(Seq<char>, Seq<char>)> {
    let at = cache_position(entries, 0, action);
    if at < entries.len() {
        entries.update(at, (action, value))
    } else {
        entries.push((action, value))
    }
}

impl CacheStrategy for InMemoryCache {
    open spec fn cached(&self, action: Seq<char>) -> Option<Seq<char>> {
        let at = cache_position(self.held(), 0, action);
        if at < self.held().len() {
            Some(self.held()[at].1)
        } else {
            None
        }
    }

    fn get(&self, action: &str) -> (r: Option<String>) {
        let at = self.position_of(action);
        if at < self.entries.len() {
            assert(self.held()[at as int] == (
                self.entries@[at as int].0@,
                self.entries@[at as int].1@,
            ));
            Some(self.entries[at].1.clone())
        } else {
            None
        }
    }

    /// Caches a result for an action, cut to the preview length if it is
    /// longer; a result cached before for the action is replaced.
    fn set(&mut self, action: &str, result: &str)
        ensures
            final(self).held() == after_set(
                old(self).held(),
                action@,
                preview_of(result@, old(self).preview()),
            ),
            final(self).preview() == old(self).preview(),
    {
        let text = chars_of(result);
        let value: Vec<char> = match self.preview_length {
            Some(len) => {
                if text.len() > len {
                    let head = slice_of(&text, 0, len);
                    assert(head@ =~= text@.take(len as int));
                    concat(&head, &chars_of("...(truncated)"))
                } else {
                    text
                }
            },
            None => text,
        };
        let at = self.position_of(action);
        let ghost before = self.held();
        if at < self.entries.len() {
            self.entries.remove(at);
            self.entries.insert(at, (action.to_owned(), string_of(&value)));
            assert(self.held() =~= before.update(at as int, (action@, value@)));
        } else {
            self.entries.push((action.to_owned(), string_of(&value)));
            assert(self.held() =~= before.push((action@, value@)));
        }
    }

    fn clear(&mut self) {
        self.entries = Vec::new();
        assert(self.held() =~= Seq::<(Seq<char>, Seq<char>)>::empty());
    }
}

/// When a workflow tries a failed action again.
pub trait RetryStrategy {
    /// The delay before the attempt after `attempt` attempts, in
    /// milliseconds; `None` where no further attempt is made.
    spec fn delay_before(&self, attempt: usize) -> Option<u64>;

    /// The delay before the next attempt, in milliseconds; `None` where
    /// no further attempt is to be made.
    fn next_delay(&mut self, attempt: usize) -> (r: Option<u64>)
        ensures
            r == old(self).delay_before(attempt),
    ;

    /// Forgets the attempts made so far.
    fn reset(&mut self);
}

/// Never tries again.
pub struct NoRetry;

impl RetryStrategy for NoRetry {
    open spec fn delay_before(&self, attempt: usize) -> Option<u64> {
        None
    }

    fn next_delay(&mut self, attempt: usize) -> (r: Option<u64>) {
        None
    }

    fn reset(&mut self) {
    }
}

/// Tries again after a fixed delay, up to a number of attempts.
pub struct FixedRetry {
    max_attempts: usize,
    delay_millis: u64,
}

impl FixedRetry {
    /// The number of attempts after which no further one is made.
    pub closed spec fn attempts(&self) -> usize {
        self.max_attempts
    }

    /// The delay between attempts, in milliseconds.
    pub closed spec fn delay(&self) -> u64 {
        self.delay_millis
    }

    /// A strategy that makes up to `max_attempts` attempts, `delay_millis`
    /// milliseconds apart.
    pub fn new(max_attempts: usize, delay_millis: u64) -> (r: FixedRetry)
        ensures
            r.attempts() == max_attempts,
            r.delay() == delay_millis,
    {
        FixedRetry { max_attempts, delay_millis }
    }
}

impl RetryStrategy for FixedRetry {
    open spec fn delay_before(&self, attempt: usize) -> Option<u64> {
        if attempt < self.attempts() {
            Some(self.delay())
        } else {
            None
        }
    }

    fn next_delay(&mut self, attempt: usize) -> (r: Option<u64>)
        ensures
            final(self).attempts() == old(self).attempts(),
            final(self).delay() == old(self).delay(),
    {
        if attempt < self.max_attempts {
            Some(self.delay_millis)
        } else {
            None
        }
    }

    fn reset(&mut self) {
    }
}

/// Whether a transition with the given condition is taken after an action
/// with the given result. `has_errors` holds if the result, in lowercase,
/// speaks of an error, a failure or something failed; `success` if it
/// speaks neither of an error nor of something failed; `empty` if it
/// holds white space only; `contains:` and a text if the result holds that
/// text. No other condition holds.
pub open spec fn condition_holds(condition: Seq<char>, result: Seq<char>) -> bool {
    let low = lowercase_of(result);
    if condition == "has_errors"@ {
        has_infix(low, "error"@) || has_infix(low, "failed"@) || has_infix(low, "failure"@)
    } else if condition == "success"@ {
        !has_infix(low, "error"@) && !has_infix(low, "failed"@)
    } else if condition == "empty"@ {
        trimmed(result).len() == 0
    } else if has_prefix(condition, "contains:"@) {
        has_infix(result, condition.skip("contains:"@.len() as int))
    } else {
        false
    }
}

/// Tests the condition of a transition against the result of an action.
/// The context plays no part.
pub fn evaluate_condition(condition: &str, _context: &str, result: &str) -> (r: bool)
    ensures
        r == condition_holds(condition@, result@),
{
    let text = chars_of(result);
    if text_is(condition, "has_errors") {
        let low = lower(&text);
        contains(&low, &chars_of("error")) || contains(&low, &chars_of("failed")) || contains(
            &low,
            &chars_of("failure"),
        )
    } else if text_is(condition, "success") {
        let low = lower(&text);
        !contains(&low, &chars_of("error")) && !contains(&low, &chars_of("failed"))
    } else if text_is(condition, "empty") {
        trim(&text).len() == 0
    } else {
        let cond = chars_of(condition);
        let word = chars_of("contains:");
        if starts_with(&cond, &word) {
            let needle = slice_of(&cond, word.len(), cond.len());
            assert(needle@ =~= condition@.skip("contains:"@.len() as int));
            contains(&text, &needle)
        } else {
            false
        }
    }
}

} // verus!
