use moss::workflow::llm::{build_llm_strategy, LlmStrategy, NoLlm};
use moss::workflow::strategies::{
    evaluate_condition, CacheStrategy, ContextStrategy, FixedRetry, FlatContext, InMemoryCache,
    NoCache, NoRetry, RetryStrategy,
};

#[test]
fn test_no_llm() {
    let llm = NoLlm;
    assert!(llm.complete("test").is_err());
}

#[test]
fn test_flat_context() {
    let mut ctx = FlatContext::new(3);
    ctx.add("a", "1");
    ctx.add("b", "2");
    ctx.add("c", "3");
    ctx.add("d", "4");

    let result = ctx.get_context();
    assert!(!result.contains("a: 1")); // Should be evicted
    assert!(result.contains("b: 2"));
    assert!(result.contains("d: 4"));
}

#[test]
fn test_in_memory_cache() {
    let mut cache = InMemoryCache::new(Some(10));
    cache.set("action1", "short");
    cache.set("action2", "this is a very long result");

    assert_eq!(cache.get("action1"), Some("short".to_string()));
    assert!(cache.get("action2").unwrap().contains("truncated"));
}

#[test]
fn test_evaluate_condition() {
    assert!(evaluate_condition("has_errors", "", "Error: something failed"));
    assert!(!evaluate_condition("has_errors", "", "All good"));
    assert!(evaluate_condition("success", "", "Completed successfully"));
    assert!(evaluate_condition("contains:TODO", "", "Found TODO in code"));
}

#[test]
fn test_build_llm_strategy_without_provider() {
    let strategy = build_llm_strategy(None, None);
    assert!(strategy.complete("test").is_err());
}

#[test]
fn build_llm_strategy_with_a_provider_refuses_too() {
    let strategy = build_llm_strategy(Some("local"), Some("small"));
    assert!(strategy.complete_with_system("s", "test").is_err());
}

#[test]
fn no_llm_says_why() {
    let llm = NoLlm;
    assert_eq!(llm.complete("x"), Err("LLM not configured for this workflow".to_string()));
    assert_eq!(
        llm.complete_with_system("s", "x"),
        Err("LLM not configured for this workflow".to_string())
    );
}

#[test]
fn flat_context_text_is_exact() {
    let mut ctx = FlatContext::new(2);
    assert_eq!(ctx.get_context(), "");
    ctx.add("a", "1");
    assert_eq!(ctx.get_context(), "a: 1");
    ctx.add("b", "2");
    ctx.add("c", "3");
    assert_eq!(ctx.get_context(), "b: 2\nc: 3");
    assert_eq!(ctx.len(), 2);
    assert_eq!(ctx.child().len(), 0);
}

#[test]
fn cache_truncates_exactly_and_replaces() {
    let mut cache = InMemoryCache::new(Some(4));
    cache.set("a", "abcdefgh");
    assert_eq!(cache.get("a"), Some("abcd...(truncated)".to_string()));
    cache.set("a", "abcd");
    assert_eq!(cache.get("a"), Some("abcd".to_string()));
    assert_eq!(cache.get("b"), None);
    cache.clear();
    assert_eq!(cache.get("a"), None);
    let mut whole = InMemoryCache::new(None);
    whole.set("a", "abcdefgh");
    assert_eq!(whole.get("a"), Some("abcdefgh".to_string()));
    let mut none = NoCache;
    none.set("a", "b");
    assert_eq!(none.get("a"), None);
}

#[test]
fn retry_strategies() {
    let mut never = NoRetry;
    assert_eq!(never.next_delay(0), None);
    let mut fixed = FixedRetry::new(2, 1500);
    assert_eq!(fixed.next_delay(0), Some(1500));
    assert_eq!(fixed.next_delay(1), Some(1500));
    assert_eq!(fixed.next_delay(2), None);
    fixed.reset();
    assert_eq!(fixed.next_delay(0), Some(1500));
}

#[test]
fn conditions_in_full() {
    assert!(evaluate_condition("has_errors", "", "a FAILURE here"));
    assert!(!evaluate_condition("success", "", "it Failed"));
    assert!(!evaluate_condition("success", "", "ERROR"));
    assert!(evaluate_condition("empty", "", "  \n\t "));
    assert!(!evaluate_condition("empty", "", " x "));
    assert!(!evaluate_condition("contains:TODO", "", "nothing to do"));
    assert!(evaluate_condition("contains:", "", "anything"));
    assert!(!evaluate_condition("unknown", "", "error"));
}
