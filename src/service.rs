//! The stale-while-revalidate controller: serve fresh rows as they are, serve
//! stale rows while a refresh runs in the background, and refresh before
//! answering only when there is nothing usable.
//!
//! The controller makes no calls itself. `get_github_repos` reads the cache and
//! says whether a refresh is due; whoever runs it performs the fetch and hands
//! the outcome to `refresh_github_cache` (in the background) or to
//! `finish_github_repos` (when the caller waits).
use vstd::prelude::*;

use crate::cache::{
    lists_active, metadata_recorded, upserted, valid_instant, GithubRepo, RepoCache,
};
use crate::dates::{calendar_date_of, calendar_date_text, rfc3339_of, rfc3339_text, shown_instant};
use crate::github::{FetchResult, GithubError};
use crate::text::{copy_opt_text, copy_texts};

verus! {

/// A repository as the site shows it, with its last push as a calendar date.
pub struct GithubRepoDisplay {
    pub name: String,
    pub description: Option<String>,
    pub html_url: String,
    pub language: Option<String>,
    pub stars: i32,
    pub forks: i32,
    pub topics: Vec<String>,
    pub updated_at: Option<String>,
}

/// What a read returns: the repositories, whether they are stale, and when the
/// cache was last refreshed, in RFC 3339 form.
pub struct GithubReposResult {
    pub repos: Vec<GithubRepoDisplay>,
    pub is_stale: bool,
    pub last_updated: Option<String>,
}

/// The three states of the cache at a read, checked in this order.
#[derive(PartialEq, Eq, Structural, Debug, Clone, Copy)]
pub enum CachePlan {
    /// Fresh rows: serve them, no upstream call.
    ServeFresh,
    /// Stale but usable rows: serve them and refresh in the background.
    ServeStale,
    /// Nothing usable: refresh, then serve.
    RefreshFirst,
}

/// The next step of a read.
pub enum GetStep {
    /// Answer now; when `refresh_in_background` is set, also launch a refresh
    /// whose outcome goes to `refresh_github_cache` and not to this caller.
    Serve { result: GithubReposResult, refresh_in_background: bool },
    /// Fetch first and hand the outcome to `finish_github_repos`.
    RefreshFirst,
}

/// Whether `d` presents the listed row `c`.
pub open spec fn presented(d: GithubRepoDisplay, c: crate::cache::GithubRepoDisplay) -> bool {
    &&& d.name == c.name
    &&& d.description == c.description
    &&& d.html_url == c.html_url
    &&& d.language == c.language
    &&& d.stars == c.stars
    &&& d.forks == c.forks
    &&& d.topics@ == c.topics@
    &&& shown_instant(c.updated_at, d.updated_at, |s: int| calendar_date_text(s))
}

/// Whether `d` presents the active rows of `rows` in ranking order.
pub open spec fn presents(d: Seq<GithubRepoDisplay>, rows: Seq<GithubRepo>) -> bool {
    exists|c: Seq<crate::cache::GithubRepoDisplay>|
        lists_active(c, rows) && d.len() == c.len() && forall|k: int|
            0 <= k < d.len() ==> presented(#[trigger] d[k], c[k])
}

/// What a read at `now` answers from `cache`: nothing usable calls for a
/// refresh first; otherwise the ranked rows are served, marked stale and with
/// a background refresh exactly when they are not fresh, and the last success
/// is given in RFC 3339 form.
pub open spec fn read_step(cache: RepoCache, now: i64, r: GetStep) -> bool {
    &&& (!cache.spec_fresh(now) && !cache.spec_has_data(now) <==> r is RefreshFirst)
    &&& match r {
        GetStep::Serve { result, refresh_in_background } => {
            &&& presents(result.repos@, cache.repos@)
            &&& result.is_stale == !cache.spec_fresh(now)
            &&& refresh_in_background == !cache.spec_fresh(now)
            &&& shown_instant(cache.metadata.last_successful_fetch, result.last_updated, |s: int| rfc3339_text(s))
        },
        GetStep::RefreshFirst => true,
    }
}

/// What applying a fetch outcome at `now` does to `before`, giving `after` and
/// answering `r`.
pub open spec fn refresh_step(
    before: RepoCache,
    after: RepoCache,
    outcome: Result<FetchResult, GithubError>,
    now: i64,
    r: Result<(), GithubError>,
) -> bool {
    &&& after.fresh_minutes == before.fresh_minutes
    &&& after.stale_minutes == before.stale_minutes
    &&& match outcome {
        Ok(fetched) => {
            &&& r is Ok
            &&& upserted(before, RepoCache { metadata: before.metadata, ..after }, fetched.repos@, now)
            &&& metadata_recorded(
                before.metadata,
                after.metadata,
                true,
                None,
                fetched.rate_limit_remaining,
                fetched.rate_limit_reset,
                now,
            )
        },
        Err(e) => {
            &&& r == Err::<(), GithubError>(e)
            &&& after.repos == before.repos
            &&& after.metadata.last_error_message is Some
            &&& e.described_by(after.metadata.last_error_message->0@)
            &&& metadata_recorded(
                before.metadata,
                after.metadata,
                false,
                after.metadata.last_error_message,
                None,
                None,
                now,
            )
        },
    }
}

/// What finishing a read that had to refresh first does: the refresh, then on
/// success the fresh rows, not stale, last updated `now`; on failure the error.
pub open spec fn finish_step(
    before: RepoCache,
    after: RepoCache,
    outcome: Result<FetchResult, GithubError>,
    now: i64,
    r: Result<GithubReposResult, GithubError>,
) -> bool {
    &&& refresh_step(
        before,
        after,
        outcome,
        now,
        match r {
            Ok(_) => Ok(()),
            Err(e) => Err(e),
        },
    )
    &&& match outcome {
        Ok(_) => {
            &&& r is Ok
            &&& presents(r->Ok_0.repos@, after.repos@)
            &&& !r->Ok_0.is_stale
            &&& shown_instant(Some(now), r->Ok_0.last_updated, |s: int| rfc3339_text(s))
        },
        Err(e) => r == Err::<GithubReposResult, GithubError>(e),
    }
}

/// Which state the cache is in, given whether it is fresh and whether it holds
/// usable data.
pub fn plan_for(fresh: bool, has_data: bool) -> (r: CachePlan)
    ensures
        fresh ==> r == CachePlan::ServeFresh,
        !fresh && has_data ==> r == CachePlan::ServeStale,
        !fresh && !has_data ==> r == CachePlan::RefreshFirst,
{
    if fresh {
        CachePlan::ServeFresh
    } else if has_data {
        CachePlan::ServeStale
    } else {
        CachePlan::RefreshFirst
    }
}

/// Listed rows in the shape the site shows, each last push as a calendar date.
pub fn convert_repos(repos: &Vec<crate::cache::GithubRepoDisplay>) -> (r: Vec<GithubRepoDisplay>)
    ensures
        r@.len() == repos@.len(),
        forall|k: int| 0 <= k < r@.len() ==> presented(#[trigger] r@[k], repos@[k]),
{
    let mut r: Vec<GithubRepoDisplay> = Vec::new();
    let mut k: usize = 0;
    while k < repos.len()
        invariant
            k <= repos@.len(),
            r@.len() == k,
            forall|m: int| 0 <= m < k ==> presented(#[trigger] r@[m], repos@[m]),
        decreases repos@.len() - k,
    {
        let c = &repos[k];
        r.push(
            GithubRepoDisplay {
                name: c.name.clone(),
                description: copy_opt_text(&c.description),
                html_url: c.html_url.clone(),
                language: copy_opt_text(&c.language),
                stars: c.stars,
                forks: c.forks,
                topics: copy_texts(&c.topics),
                updated_at: calendar_date_of(c.updated_at),
            },
        );
        k = k + 1;
    }
    r
}

/// The active rows of `cache`, ranked and in the shape the site shows.
fn presented_rows(cache: &RepoCache) -> (r: Vec<GithubRepoDisplay>)
    ensures
        presents(r@, cache.repos@),
{
    let listed = cache.get_cached_repos();
    let r = convert_repos(&listed);
    assert(lists_active(listed@, cache.repos@) && r@.len() == listed@.len() && forall|k: int|
        0 <= k < r@.len() ==> presented(#[trigger] r@[k], listed@[k]));
    r
}

/// The first step of a read at `now`. Fresh rows are served as they are;
/// stale but usable rows are served marked stale, with a background refresh
/// requested; with nothing usable the caller must refresh first. Serving needs
/// no upstream call: this step never waits for one.
pub fn get_github_repos(cache: &RepoCache, now: i64) -> (r: GetStep)
    requires
        cache.wf(),
    ensures
        read_step(*cache, now, r),
{
    let fresh = cache.is_cache_fresh(now);
    let has_data = cache.has_cached_data(now);
    match plan_for(fresh, has_data) {
        CachePlan::RefreshFirst => GetStep::RefreshFirst,
        plan => {
            let stale = plan == CachePlan::ServeStale;
            let result = GithubReposResult {
                repos: presented_rows(cache),
                is_stale: stale,
                last_updated: rfc3339_of(cache.metadata.last_successful_fetch),
            };
            GetStep::Serve { result, refresh_in_background: stale }
        },
    }
}

/// Applies the outcome of a fetch made at `now`. On success the repositories
/// are written and the success recorded with the rate-limit headers seen; on
/// failure only the attempt and the error's message are recorded, the rows and
/// the last rate-limit snapshot stay as they were, and the error is handed back.
pub fn refresh_github_cache(
    cache: &mut RepoCache,
    outcome: Result<FetchResult, GithubError>,
    now: i64,
) -> (r: Result<(), GithubError>)
    requires
        old(cache).wf(),
        valid_instant(now),
    ensures
        final(cache).wf(),
        refresh_step(*old(cache), *final(cache), outcome, now, r),
{
    match outcome {
        Ok(fetched) => {
            let FetchResult { repos, rate_limit_remaining, rate_limit_reset } = fetched;
            cache.upsert_repos(repos, now);
            cache.update_cache_metadata(true, None, rate_limit_remaining, rate_limit_reset, now);
            Ok(())
        },
        Err(e) => {
            let message = e.message();
            cache.update_cache_metadata(false, Some(message), None, None, now);
            Err(e)
        },
    }
}

/// The rest of a read that had to refresh first, given the fetch outcome at
/// `now`: on success the fresh rows, not stale, last updated `now`; on failure
/// the error, with no row written.
pub fn finish_github_repos(
    cache: &mut RepoCache,
    outcome: Result<FetchResult, GithubError>,
    now: i64,
) -> (r: Result<GithubReposResult, GithubError>)
    requires
        old(cache).wf(),
        valid_instant(now),
    ensures
        final(cache).wf(),
        finish_step(*old(cache), *final(cache), outcome, now, r),
{
    match refresh_github_cache(cache, outcome, now) {
        Ok(()) => Ok(
            GithubReposResult {
                repos: presented_rows(cache),
                is_stale: false,
                last_updated: rfc3339_of(Some(now)),
            },
        ),
        Err(e) => Err(e),
    }
}

} // verus!
