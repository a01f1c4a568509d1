use vstd::prelude::*;

verus! {

/// Whether a cache entry written at `cached_at` is still fresh at `now`
/// (both in seconds since the epoch): its age does not exceed `ttl_secs`.
/// An entry from the future (the clock went back) is stale.
pub open spec fn cache_fresh(now: u64, cached_at: u64, ttl_secs: u64) -> bool {
    cached_at <= now && now - cached_at <= ttl_secs
}

/// Decides whether a cached value may be used without refetching.
pub fn is_cache_fresh(now: u64, cached_at: u64, ttl_secs: u64) -> (r: bool)
    ensures
        r == cache_fresh(now, cached_at, ttl_secs),
{
    cached_at <= now && now - cached_at <= ttl_secs
}

/// An entry is fresh when just written, stays fresh under a longer lifetime,
/// and is never fresh when written after `now`.
pub proof fn law_freshness(now: u64, cached_at: u64, ttl: u64, longer_ttl: u64)
    requires
        ttl <= longer_ttl,
    ensures
        cache_fresh(now, now, ttl),
        cached_at > now ==> !cache_fresh(now, cached_at, ttl),
        cache_fresh(now, cached_at, ttl) ==> cache_fresh(now, cached_at, longer_ttl),
{
}

/// What was just learned while getting the usage figures.
pub enum UsageEvent {
    /// Whether the cache held a fresh entry.
    FreshCache(bool),
    /// Whether an OAuth token was found.
    Token(bool),
    /// Whether the API answered with figures.
    Fetched(bool),
}

/// What to do next while getting the usage figures.
pub enum UsageStep {
    /// Use the fresh cached figures.
    UseCache,
    /// Look for an OAuth token.
    FindToken,
    /// Ask the API.
    Fetch,
    /// Use the fetched figures and write them to the cache.
    UseFetchedAndCache,
    /// Fall back to the cache, however old.
    UseStaleCache,
    /// Show no usage lines.
    NoUsage,
}

/// The next step of getting usage figures: a fresh cache wins; without it a
/// token is needed (none: no usage, not even a stale cache); with a token
/// the API is asked, and its figures are cached, or else a stale cache is used.
pub open spec fn usage_step(event: UsageEvent) -> UsageStep {
    match event {
        UsageEvent::FreshCache(true) => UsageStep::UseCache,
        UsageEvent::FreshCache(false) => UsageStep::FindToken,
        UsageEvent::Token(false) => UsageStep::NoUsage,
        UsageEvent::Token(true) => UsageStep::Fetch,
        UsageEvent::Fetched(true) => UsageStep::UseFetchedAndCache,
        UsageEvent::Fetched(false) => UsageStep::UseStaleCache,
    }
}

/// Decides the next step of getting usage figures: see `usage_step`.
pub fn next_usage_step(event: UsageEvent) -> (r: UsageStep)
    ensures
        r == usage_step(event),
{
    match event {
        UsageEvent::FreshCache(fresh) => if fresh {
            UsageStep::UseCache
        } else {
            UsageStep::FindToken
        },
        UsageEvent::Token(found) => if found {
            UsageStep::Fetch
        } else {
            UsageStep::NoUsage
        },
        UsageEvent::Fetched(ok) => if ok {
            UsageStep::UseFetchedAndCache
        } else {
            UsageStep::UseStaleCache
        },
    }
}

} // verus!
