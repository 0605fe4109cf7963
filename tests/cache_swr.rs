use portfolio_cache::cache::{
    GithubApiRepo, RepoCache, CACHE_FRESH_MINUTES, CACHE_STALE_MINUTES, GITHUB_USERNAME,
};
use portfolio_cache::github::{
    judge_response, repos_url, without_forks, FetchResult, GithubError, ResponseVerdict,
};
use portfolio_cache::service::{
    finish_github_repos, get_github_repos, plan_for, refresh_github_cache, CachePlan, GetStep,
    GithubReposResult,
};

const T0: i64 = 1_704_067_200; // 2024-01-01T00:00:00Z
const MINUTE: i64 = 60;

fn api_repo(id: i64, name: &str, stars: i32, pushed_at: Option<i64>) -> GithubApiRepo {
    GithubApiRepo {
        id,
        name: name.to_string(),
        full_name: format!("{}/{}", GITHUB_USERNAME, name),
        description: Some(format!("About {}", name)),
        html_url: format!("https://github.com/{}/{}", GITHUB_USERNAME, name),
        language: Some("Rust".to_string()),
        stargazers_count: stars,
        forks_count: 1,
        open_issues_count: 0,
        topics: vec!["cache".to_string(), name.to_string()],
        created_at: Some(T0 - 1000),
        updated_at: Some(T0 - 500),
        pushed_at,
        fork: false,
    }
}

fn three() -> Vec<GithubApiRepo> {
    vec![
        api_repo(1, "alpha", 5, Some(T0 - 300)),
        api_repo(2, "beta", 10, Some(T0 - 200)),
        api_repo(3, "gamma", 5, Some(T0 - 100)),
    ]
}

fn fetched(repos: Vec<GithubApiRepo>) -> Result<FetchResult, GithubError> {
    Ok(FetchResult { repos, rate_limit_remaining: Some(59), rate_limit_reset: Some(T0 + 3600) })
}

fn new_cache() -> RepoCache {
    RepoCache::new(CACHE_FRESH_MINUTES, CACHE_STALE_MINUTES)
}

fn names(result: &GithubReposResult) -> Vec<String> {
    result.repos.iter().map(|r| r.name.clone()).collect()
}

fn active_count(cache: &RepoCache) -> usize {
    cache.repos.iter().filter(|r| r.is_active).count()
}

fn served(step: GetStep) -> (GithubReposResult, bool) {
    match step {
        GetStep::Serve { result, refresh_in_background } => (result, refresh_in_background),
        GetStep::RefreshFirst => panic!("expected rows to be served"),
    }
}

#[test]
fn scenario_empty_store_refreshes_before_answering() {
    let mut cache = new_cache();
    assert!(matches!(get_github_repos(&cache, T0), GetStep::RefreshFirst));
    let result = finish_github_repos(&mut cache, fetched(three()), T0).ok().unwrap();
    assert_eq!(result.repos.len(), 3);
    assert!(!result.is_stale);
    assert_eq!(result.last_updated.as_deref(), Some("2024-01-01T00:00:00+00:00"));
    assert_eq!(active_count(&cache), 3);
}

#[test]
fn scenario_fresh_store_is_served_without_refresh() {
    let mut cache = new_cache();
    cache.upsert_repos(three(), T0);
    cache.update_cache_metadata(true, None, Some(59), None, T0);
    let (result, refresh) = served(get_github_repos(&cache, T0 + 2 * MINUTE));
    assert!(!refresh);
    assert!(!result.is_stale);
    assert_eq!(names(&result), vec!["beta", "gamma", "alpha"]);
    assert_eq!(result.last_updated.as_deref(), Some("2024-01-01T00:00:00+00:00"));
}

#[test]
fn scenario_stale_store_is_served_then_refreshed_in_background() {
    let mut cache = new_cache();
    cache.upsert_repos(three(), T0);
    let later = T0 + 10 * MINUTE;
    let (result, refresh) = served(get_github_repos(&cache, later));
    assert!(refresh);
    assert!(result.is_stale);
    assert_eq!(result.repos.len(), 3);
    // The background refresh sees only two of the three repositories.
    let two = vec![api_repo(1, "alpha", 5, Some(T0)), api_repo(2, "beta", 10, Some(T0))];
    assert!(refresh_github_cache(&mut cache, fetched(two), later).is_ok());
    assert_eq!(cache.metadata.last_successful_fetch, Some(later));
    let (result, refresh) = served(get_github_repos(&cache, later + MINUTE));
    assert!(!refresh);
    assert!(!result.is_stale);
    assert_eq!(names(&result), vec!["beta", "alpha"]);
}

#[test]
fn scenario_expired_store_refreshes_before_answering() {
    let mut cache = new_cache();
    cache.upsert_repos(three(), T0);
    let later = T0 + 61 * MINUTE;
    assert!(!cache.has_cached_data(later));
    assert!(matches!(get_github_repos(&cache, later), GetStep::RefreshFirst));
    let result = finish_github_repos(&mut cache, fetched(three()), later).ok().unwrap();
    assert!(!result.is_stale);
    assert_eq!(result.repos.len(), 3);
    assert!(cache.is_cache_fresh(later));
}

#[test]
fn freshness_follows_the_windows_after_a_write() {
    let mut cache = new_cache();
    cache.upsert_repos(three(), T0);
    assert!(cache.is_cache_fresh(T0));
    assert!(cache.is_cache_fresh(T0 + 5 * MINUTE - 1));
    assert!(!cache.is_cache_fresh(T0 + 5 * MINUTE));
    assert!(cache.has_cached_data(T0 + 5 * MINUTE));
    assert!(cache.has_cached_data(T0 + 60 * MINUTE - 1));
    assert!(!cache.has_cached_data(T0 + 60 * MINUTE));
}

#[test]
fn omitted_repository_is_retired_and_returns_when_listed_again() {
    let mut cache = new_cache();
    cache.upsert_repos(three(), T0);
    cache.upsert_repos(vec![api_repo(1, "alpha", 5, None), api_repo(2, "beta", 10, None)], T0 + 1);
    let gamma = cache.repos.iter().find(|r| r.github_id == 3).unwrap();
    assert!(!gamma.is_active);
    assert_eq!(cache.repos.len(), 3);
    let listed: Vec<String> = cache.get_cached_repos().into_iter().map(|r| r.name).collect();
    assert_eq!(listed, vec!["beta", "alpha"]);
    cache.upsert_repos(vec![api_repo(3, "gamma-renamed", 7, Some(T0 + 2))], T0 + 2);
    let gamma = cache.repos.iter().find(|r| r.github_id == 3).unwrap();
    assert!(gamma.is_active);
    assert_eq!(gamma.name, "gamma-renamed");
    assert_eq!(gamma.cached_at, T0 + 2);
    assert_eq!(gamma.expires_at, T0 + 2 + 5 * MINUTE);
    let listed: Vec<String> = cache.get_cached_repos().into_iter().map(|r| r.name).collect();
    assert_eq!(listed, vec!["gamma-renamed"]);
}

#[test]
fn last_record_of_an_identifier_wins() {
    let mut cache = new_cache();
    cache.upsert_repos(vec![api_repo(9, "first", 1, None), api_repo(9, "second", 2, None)], T0);
    assert_eq!(cache.repos.len(), 1);
    assert_eq!(cache.repos[0].name, "second");
    assert_eq!(cache.repos[0].stargazers_count, 2);
}

#[test]
fn stale_serve_does_not_wait_for_the_client() {
    let mut cache = new_cache();
    cache.upsert_repos(three(), T0);
    let later = T0 + 30 * MINUTE;
    // The read answers from the store alone; the refresh is a separate step.
    let (result, refresh) = served(get_github_repos(&cache, later));
    assert!(refresh && result.is_stale && result.repos.len() == 3);
    assert_eq!(cache.metadata.last_fetch_attempt, None);
    let slow_outcome = fetched(three());
    assert!(refresh_github_cache(&mut cache, slow_outcome, later + 5).is_ok());
    assert_eq!(cache.metadata.last_fetch_attempt, Some(later + 5));
}

#[test]
fn empty_store_with_failing_client_fails_closed() {
    let mut cache = new_cache();
    assert!(matches!(get_github_repos(&cache, T0), GetStep::RefreshFirst));
    let outcome = Err(GithubError::Request("connection reset".to_string()));
    let result = finish_github_repos(&mut cache, outcome, T0);
    assert!(matches!(result, Err(GithubError::Request(_))));
    assert!(cache.repos.is_empty());
    assert_eq!(cache.metadata.fetch_error_count, 1);
    assert_eq!(
        cache.metadata.last_error_message.as_deref(),
        Some("HTTP request failed: connection reset")
    );
}

#[test]
fn failure_then_success_resets_metadata() {
    let mut cache = new_cache();
    let failure = Err(GithubError::ApiError { status: 502, message: "Bad Gateway".to_string() });
    assert!(refresh_github_cache(&mut cache, failure, T0).is_err());
    assert_eq!(cache.metadata.fetch_error_count, 1);
    assert_eq!(cache.metadata.last_error_message.as_deref(), Some("GitHub API error: 502 - Bad Gateway"));
    assert_eq!(cache.metadata.last_successful_fetch, None);
    assert!(refresh_github_cache(&mut cache, fetched(three()), T0 + 60).is_ok());
    assert_eq!(cache.metadata.fetch_error_count, 0);
    assert_eq!(cache.metadata.last_error_message, None);
    assert_eq!(cache.metadata.last_successful_fetch, Some(T0 + 60));
    assert_eq!(cache.metadata.last_fetch_attempt, Some(T0 + 60));
    assert_eq!(cache.metadata.rate_limit_remaining, Some(59));
    assert_eq!(cache.metadata.rate_limit_reset, Some(T0 + 3600));
}

#[test]
fn rate_limited_message_names_the_reset() {
    let e = GithubError::RateLimited(Some(T0));
    assert_eq!(e.message(), "Rate limited. Reset at: 2024-01-01T00:00:00+00:00");
    assert_eq!(GithubError::RateLimited(None).message(), "Rate limited. Reset at: None");
}

#[test]
fn listing_orders_by_stars_then_latest_push() {
    let mut cache = new_cache();
    cache.upsert_repos(
        vec![
            api_repo(1, "never-pushed", 3, None),
            api_repo(2, "old", 3, Some(T0 - 1000)),
            api_repo(3, "new", 3, Some(T0 - 10)),
            api_repo(4, "star", 40, None),
        ],
        T0,
    );
    let listed: Vec<String> = cache.get_cached_repos().into_iter().map(|r| r.name).collect();
    assert_eq!(listed, vec!["star", "new", "old", "never-pushed"]);
}

#[test]
fn display_dates_are_calendar_dates() {
    let mut cache = new_cache();
    cache.upsert_repos(vec![api_repo(1, "dated", 1, Some(1_710_505_800)), api_repo(2, "undated", 0, None)], T0);
    let (result, _) = served(get_github_repos(&cache, T0));
    assert_eq!(result.repos[0].updated_at.as_deref(), Some("Mar 15, 2024"));
    assert_eq!(result.repos[1].updated_at, None);
    assert_eq!(result.repos[0].topics, vec!["cache".to_string(), "dated".to_string()]);
    assert_eq!(result.repos[0].stars, 1);
    assert_eq!(result.repos[0].description.as_deref(), Some("About dated"));
    assert_eq!(result.last_updated, None);
}

#[test]
fn plan_follows_the_state_order() {
    assert_eq!(plan_for(true, true), CachePlan::ServeFresh);
    assert_eq!(plan_for(true, false), CachePlan::ServeFresh);
    assert_eq!(plan_for(false, true), CachePlan::ServeStale);
    assert_eq!(plan_for(false, false), CachePlan::RefreshFirst);
}

#[test]
fn responses_are_judged_by_status_and_quota() {
    assert_eq!(judge_response(403, Some(0), Some(T0)), ResponseVerdict::RateLimited(Some(T0)));
    assert_eq!(judge_response(403, Some(12), None), ResponseVerdict::Reject(403));
    assert_eq!(judge_response(403, None, None), ResponseVerdict::Reject(403));
    assert_eq!(judge_response(404, Some(0), None), ResponseVerdict::Reject(404));
    assert_eq!(judge_response(500, None, None), ResponseVerdict::Reject(500));
    assert_eq!(judge_response(200, Some(0), None), ResponseVerdict::Accept);
    assert_eq!(judge_response(299, None, None), ResponseVerdict::Accept);
    assert_eq!(judge_response(300, None, None), ResponseVerdict::Reject(300));
}

#[test]
fn forks_are_dropped_in_order() {
    let mut forked = api_repo(2, "forked", 1, None);
    forked.fork = true;
    let kept = without_forks(vec![api_repo(1, "a", 1, None), forked, api_repo(3, "c", 1, None)]);
    let ids: Vec<i64> = kept.iter().map(|r| r.id).collect();
    assert_eq!(ids, vec![1, 3]);
    assert!(without_forks(Vec::new()).is_empty());
}

#[test]
fn request_url_names_the_account() {
    assert_eq!(
        repos_url("noperoni"),
        "https://api.github.com/users/noperoni/repos?type=owner&sort=pushed&per_page=100"
    );
}

#[test]
fn metadata_copy_matches() {
    let mut cache = new_cache();
    cache.update_cache_metadata(false, Some("down".to_string()), None, None, T0);
    let m = cache.get_cache_metadata();
    assert_eq!(m.fetch_error_count, 1);
    assert_eq!(m.last_error_message.as_deref(), Some("down"));
    assert_eq!(m.last_fetch_attempt, Some(T0));
}

#[test]
fn empty_write_retires_every_row() {
    let mut cache = new_cache();
    cache.upsert_repos(three(), T0);
    cache.upsert_repos(Vec::new(), T0 + 1);
    assert_eq!(cache.repos.len(), 3);
    assert_eq!(active_count(&cache), 0);
    assert!(!cache.is_cache_fresh(T0 + 1));
    assert!(!cache.has_cached_data(T0 + 1));
    assert!(cache.get_cached_repos().is_empty());
}

#[test]
fn failure_keeps_the_rate_limit_snapshot() {
    let mut cache = new_cache();
    assert!(refresh_github_cache(&mut cache, fetched(three()), T0).is_ok());
    let failure = Err(GithubError::RateLimited(Some(T0 + 3600)));
    assert!(refresh_github_cache(&mut cache, failure, T0 + 60).is_err());
    assert_eq!(cache.metadata.rate_limit_remaining, Some(59));
    assert_eq!(cache.metadata.rate_limit_reset, Some(T0 + 3600));
    assert_eq!(cache.metadata.last_successful_fetch, Some(T0));
    assert_eq!(cache.metadata.last_fetch_attempt, Some(T0 + 60));
    assert_eq!(cache.metadata.fetch_error_count, 1);
    cache.update_cache_metadata(false, Some("again".to_string()), Some(0), Some(T0), T0 + 120);
    assert_eq!(cache.metadata.rate_limit_remaining, Some(59));
    assert_eq!(cache.metadata.rate_limit_reset, Some(T0 + 3600));
    assert_eq!(cache.metadata.fetch_error_count, 2);
}

#[test]
fn unwritable_reset_instant_reads_as_none() {
    assert_eq!(GithubError::RateLimited(Some(i64::MAX)).message(), "Rate limited. Reset at: None");
}
