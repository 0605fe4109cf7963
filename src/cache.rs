//! The persistent repository cache: one row per upstream repository, keyed by
//! its upstream identifier, plus a singleton metadata record.
//!
//! Instants are whole seconds since the Unix epoch.
use vstd::prelude::*;

use crate::text::{copy_opt_text, copy_texts};

verus! {

/// Minutes after a write during which rows are served without an upstream call.
pub const CACHE_FRESH_MINUTES: i64 = 5;

/// Minutes after a write after which rows no longer count as usable data.
pub const CACHE_STALE_MINUTES: i64 = 60;

/// The account whose repositories are cached.
pub const GITHUB_USERNAME: &'static str = "noperoni";

/// Largest magnitude of an instant that the calendar can represent, in seconds.
pub const MAX_INSTANT: i64 = 8_000_000_000_000;

/// Largest configurable window, in minutes.
pub const MAX_WINDOW_MINUTES: i64 = 1_000_000_000;

/// An instant that lies within the calendar's range.
pub open spec fn valid_instant(t: i64) -> bool {
    -MAX_INSTANT <= t <= MAX_INSTANT
}

/// A window length the cache accepts.
pub open spec fn valid_window(minutes: i64) -> bool {
    0 <= minutes <= MAX_WINDOW_MINUTES
}

/// One repository as the upstream listing reports it.
pub struct GithubApiRepo {
    pub id: i64,
    pub name: String,
    pub full_name: String,
    pub description: Option<String>,
    pub html_url: String,
    pub language: Option<String>,
    pub stargazers_count: i32,
    pub forks_count: i32,
    pub open_issues_count: i32,
    pub topics: Vec<String>,
    pub created_at: Option<i64>,
    pub updated_at: Option<i64>,
    pub pushed_at: Option<i64>,
    pub fork: bool,
}

/// One cached repository row.
pub struct GithubRepo {
    pub github_id: i64,
    pub name: String,
    pub full_name: String,
    pub description: Option<String>,
    pub html_url: String,
    pub language: Option<String>,
    pub stargazers_count: i32,
    pub forks_count: i32,
    pub open_issues_count: i32,
    pub topics: Vec<String>,
    pub github_created_at: Option<i64>,
    pub github_updated_at: Option<i64>,
    pub github_pushed_at: Option<i64>,
    pub cached_at: i64,
    pub expires_at: i64,
    pub is_active: bool,
}

/// The singleton record of how the last refreshes went.
pub struct GithubCacheMetadata {
    pub last_successful_fetch: Option<i64>,
    pub last_fetch_attempt: Option<i64>,
    pub fetch_error_count: i32,
    pub last_error_message: Option<String>,
    pub rate_limit_remaining: Option<i32>,
    pub rate_limit_reset: Option<i64>,
}

/// A cached repository as the site shows it, before dates are formatted.
pub struct GithubRepoDisplay {
    pub name: String,
    pub description: Option<String>,
    pub html_url: String,
    pub language: Option<String>,
    pub stars: i32,
    pub forks: i32,
    pub topics: Vec<String>,
    pub updated_at: Option<i64>,
}

/// The cache: its rows, its metadata and its two windows.
pub struct RepoCache {
    pub repos: Vec<GithubRepo>,
    pub metadata: GithubCacheMetadata,
    pub fresh_minutes: i64,
    pub stale_minutes: i64,
}

/// Whether the row at `i` carries identifier `id`.
pub open spec fn has_id_at(rows: Seq<GithubRepo>, i: int, id: i64) -> bool {
    0 <= i < rows.len() && rows[i].github_id == id
}

/// Whether some row carries identifier `id`.
pub open spec fn has_row(rows: Seq<GithubRepo>, id: i64) -> bool {
    exists|i: int| has_id_at(rows, i, id)
}

/// No two rows share an identifier.
pub open spec fn ids_unique(rows: Seq<GithubRepo>) -> bool {
    forall|i: int, j: int|
        0 <= i < rows.len() && 0 <= j < rows.len() && i != j ==> rows[i].github_id
            != rows[j].github_id
}

/// Some active row was written strictly after `cutoff`.
pub open spec fn active_since(rows: Seq<GithubRepo>, cutoff: int) -> bool {
    exists|i: int| 0 <= i < rows.len() && rows[i].is_active && rows[i].cached_at > cutoff
}

/// The instant `minutes` before `now`.
pub open spec fn minutes_before(now: i64, minutes: i64) -> int {
    now - minutes * 60
}


/// Whether `row` is `rec` written into the cache at `now`, fresh for `fresh_minutes`.
pub open spec fn written_from(row: GithubRepo, rec: GithubApiRepo, now: i64, fresh_minutes: i64) -> bool {
    &&& row.github_id == rec.id
    &&& row.name == rec.name
    &&& row.full_name == rec.full_name
    &&& row.description == rec.description
    &&& row.html_url == rec.html_url
    &&& row.language == rec.language
    &&& row.stargazers_count == rec.stargazers_count
    &&& row.forks_count == rec.forks_count
    &&& row.open_issues_count == rec.open_issues_count
    &&& row.topics@ == rec.topics@
    &&& row.github_created_at == rec.created_at
    &&& row.github_updated_at == rec.updated_at
    &&& row.github_pushed_at == rec.pushed_at
    &&& row.cached_at == now
    &&& row.expires_at == now + fresh_minutes * 60
    &&& row.is_active
}

/// Whether `row` is `prev` with its active flag cleared.
pub open spec fn retired_from(row: GithubRepo, prev: GithubRepo) -> bool {
    &&& row.github_id == prev.github_id
    &&& row.name == prev.name
    &&& row.full_name == prev.full_name
    &&& row.description == prev.description
    &&& row.html_url == prev.html_url
    &&& row.language == prev.language
    &&& row.stargazers_count == prev.stargazers_count
    &&& row.forks_count == prev.forks_count
    &&& row.open_issues_count == prev.open_issues_count
    &&& row.topics@ == prev.topics@
    &&& row.github_created_at == prev.github_created_at
    &&& row.github_updated_at == prev.github_updated_at
    &&& row.github_pushed_at == prev.github_pushed_at
    &&& row.cached_at == prev.cached_at
    &&& row.expires_at == prev.expires_at
    &&& !row.is_active
}

/// Index of the last record carrying `id`, or -1 when none does.
pub open spec fn last_index_of(recs: Seq<GithubApiRepo>, id: i64) -> int
    decreases recs.len(),
{
    if recs.len() == 0 {
        -1
    } else if recs.last().id == id {
        recs.len() - 1
    } else {
        last_index_of(recs.drop_last(), id)
    }
}

/// Whether some record carries `id`.
pub open spec fn listed(recs: Seq<GithubApiRepo>, id: i64) -> bool {
    last_index_of(recs, id) >= 0
}

/// The last record that carries `id` is where `last_index_of` points, and none
/// carries it when that is -1.
pub proof fn lemma_last_index_of(recs: Seq<GithubApiRepo>, id: i64)
    ensures
        -1 <= last_index_of(recs, id) < recs.len(),
        last_index_of(recs, id) >= 0 ==> recs[last_index_of(recs, id)].id == id,
        forall|k: int| last_index_of(recs, id) < k < recs.len() ==> recs[k].id != id,
    decreases recs.len(),
{
    if recs.len() > 0 && recs.last().id != id {
        lemma_last_index_of(recs.drop_last(), id);
        assert forall|k: int| last_index_of(recs, id) < k < recs.len() implies recs[k].id != id by {
            if k < recs.len() - 1 {
                assert(recs.drop_last()[k] == recs[k]);
            }
        }
    }
}

/// Extending a prefix by one record moves `last_index_of` only for that record's id.
proof fn lemma_last_index_of_step(recs: Seq<GithubApiRepo>, k: int, id: i64)
    requires
        0 <= k < recs.len(),
    ensures
        last_index_of(recs.subrange(0, k + 1), id) == if recs[k].id == id {
            k
        } else {
            last_index_of(recs.subrange(0, k), id)
        },
{
    assert(recs.subrange(0, k + 1).drop_last() =~= recs.subrange(0, k));
}

/// Push instants ordered latest first; a missing one comes after every known one.
pub open spec fn pushed_later(a: Option<i64>, b: Option<i64>) -> bool {
    match (a, b) {
        (Some(x), Some(y)) => x > y,
        (Some(_), None) => true,
        _ => false,
    }
}

/// Whether `a` is listed strictly before `b`: more stars, or as many stars and a
/// later push.
pub open spec fn ranks_before(a: GithubRepo, b: GithubRepo) -> bool {
    a.stargazers_count > b.stargazers_count || (a.stargazers_count == b.stargazers_count
        && pushed_later(a.github_pushed_at, b.github_pushed_at))
}

/// `idx` lists each active row of `rows` exactly once, by position, in ranking order.
pub open spec fn is_ranking(rows: Seq<GithubRepo>, idx: Seq<usize>) -> bool {
    &&& forall|k: int| 0 <= k < idx.len() ==> (#[trigger] idx[k]) < rows.len() && rows[idx[k] as int].is_active
    &&& forall|a: int, b: int| 0 <= a < b < idx.len() ==> idx[a] != idx[b]
    &&& forall|i: int| 0 <= i < rows.len() && (#[trigger] rows[i]).is_active ==> exists|k: int|
        0 <= k < idx.len() && idx[k] == i
    &&& forall|a: int, b: int|
        0 <= a < b < idx.len() ==> !ranks_before(rows[idx[b] as int], rows[idx[a] as int])
}

/// Whether `d` shows `row`.
pub open spec fn shows(d: GithubRepoDisplay, row: GithubRepo) -> bool {
    &&& d.name == row.name
    &&& d.description == row.description
    &&& d.html_url == row.html_url
    &&& d.language == row.language
    &&& d.stars == row.stargazers_count
    &&& d.forks == row.forks_count
    &&& d.topics@ == row.topics@
    &&& d.updated_at == row.github_pushed_at
}

/// Whether `d` lists the active rows of `rows` in ranking order.
pub open spec fn lists_active(d: Seq<GithubRepoDisplay>, rows: Seq<GithubRepo>) -> bool {
    exists|idx: Seq<usize>|
        is_ranking(rows, idx) && d.len() == idx.len() && forall|k: int|
            0 <= k < d.len() ==> shows(#[trigger] d[k], rows[idx[k] as int])
}

/// `after` is `before` once the records `recs` were written at `now`: the
/// metadata and windows stay; the identifiers are those of `before` and `recs`;
/// a listed identifier's row comes from its last record, active and stamped
/// `now`; any other row is its earlier self, retired.
pub open spec fn upserted(before: RepoCache, after: RepoCache, recs: Seq<GithubApiRepo>, now: i64) -> bool {
    &&& after.metadata == before.metadata
    &&& after.fresh_minutes == before.fresh_minutes
    &&& after.stale_minutes == before.stale_minutes
    &&& forall|id: i64| has_row(after.repos@, id) <==> has_row(before.repos@, id) || listed(recs, id)
    &&& forall|i: int|
        0 <= i < after.repos@.len() && #[trigger] listed(recs, after.repos@[i].github_id) ==> written_from(
            after.repos@[i],
            recs[last_index_of(recs, after.repos@[i].github_id)],
            now,
            after.fresh_minutes,
        )
    &&& forall|i: int|
        0 <= i < after.repos@.len() && !listed(recs, #[trigger] after.repos@[i].github_id) ==> exists|j: int|
            has_id_at(before.repos@, j, after.repos@[i].github_id) && retired_from(
                after.repos@[i],
                before.repos@[j],
            )
}

/// `after` is the metadata `before` once the outcome of an attempt at `now` was
/// recorded.
pub open spec fn metadata_recorded(
    before: GithubCacheMetadata,
    after: GithubCacheMetadata,
    success: bool,
    error_message: Option<String>,
    rate_limit_remaining: Option<i32>,
    rate_limit_reset: Option<i64>,
    now: i64,
) -> bool {
    &&& after.last_fetch_attempt == Some(now)
    &&& success ==> after.rate_limit_remaining == rate_limit_remaining
    &&& success ==> after.rate_limit_reset == rate_limit_reset
    &&& !success ==> after.rate_limit_remaining == before.rate_limit_remaining
    &&& !success ==> after.rate_limit_reset == before.rate_limit_reset
    &&& success ==> after.last_successful_fetch == Some(now)
    &&& success ==> after.fetch_error_count == 0
    &&& success ==> after.last_error_message is None
    &&& !success ==> after.last_successful_fetch == before.last_successful_fetch
    &&& !success ==> after.last_error_message == error_message
    &&& !success && before.fetch_error_count < i32::MAX ==> after.fetch_error_count
        == before.fetch_error_count + 1
    &&& !success && before.fetch_error_count == i32::MAX ==> after.fetch_error_count == i32::MAX
}

/// While writing records one by one: `row` comes from the last record of
/// `done` with its identifier, or, where none has it, is a row of `base` as is.
spec fn accounted(
    row: GithubRepo,
    done: Seq<GithubApiRepo>,
    base: Seq<GithubRepo>,
    now: i64,
    fresh_minutes: i64,
) -> bool {
    if listed(done, row.github_id) {
        written_from(row, done[last_index_of(done, row.github_id)], now, fresh_minutes)
    } else {
        exists|m: int| has_id_at(base, m, row.github_id) && row == base[m]
    }
}

/// Whether `a` is listed strictly before `b`.
fn ranks_before_exec(a: &GithubRepo, b: &GithubRepo) -> (r: bool)
    ensures
        r == ranks_before(*a, *b),
{
    if a.stargazers_count != b.stargazers_count {
        return a.stargazers_count > b.stargazers_count;
    }
    match (a.github_pushed_at, b.github_pushed_at) {
        (Some(x), Some(y)) => x > y,
        (Some(_), None) => true,
        _ => false,
    }
}

/// The display form of `row`.
fn display_of(row: &GithubRepo) -> (r: GithubRepoDisplay)
    ensures
        shows(r, *row),
{
    GithubRepoDisplay {
        name: row.name.clone(),
        description: copy_opt_text(&row.description),
        html_url: row.html_url.clone(),
        language: copy_opt_text(&row.language),
        stars: row.stargazers_count,
        forks: row.forks_count,
        topics: copy_texts(&row.topics),
        updated_at: row.github_pushed_at,
    }
}

/// The row that `rec` becomes when written at `now`.
fn row_from(rec: &GithubApiRepo, now: i64, fresh_minutes: i64) -> (r: GithubRepo)
    requires
        valid_instant(now),
        valid_window(fresh_minutes),
    ensures
        written_from(r, *rec, now, fresh_minutes),
{
    GithubRepo {
        github_id: rec.id,
        name: rec.name.clone(),
        full_name: rec.full_name.clone(),
        description: copy_opt_text(&rec.description),
        html_url: rec.html_url.clone(),
        language: copy_opt_text(&rec.language),
        stargazers_count: rec.stargazers_count,
        forks_count: rec.forks_count,
        open_issues_count: rec.open_issues_count,
        topics: copy_texts(&rec.topics),
        github_created_at: rec.created_at,
        github_updated_at: rec.updated_at,
        github_pushed_at: rec.pushed_at,
        cached_at: now,
        expires_at: now + fresh_minutes * 60,
        is_active: true,
    }
}

/// `prev` with its active flag cleared.
fn retire(prev: &GithubRepo) -> (r: GithubRepo)
    ensures
        retired_from(r, *prev),
{
    GithubRepo {
        github_id: prev.github_id,
        name: prev.name.clone(),
        full_name: prev.full_name.clone(),
        description: copy_opt_text(&prev.description),
        html_url: prev.html_url.clone(),
        language: copy_opt_text(&prev.language),
        stargazers_count: prev.stargazers_count,
        forks_count: prev.forks_count,
        open_issues_count: prev.open_issues_count,
        topics: copy_texts(&prev.topics),
        github_created_at: prev.github_created_at,
        github_updated_at: prev.github_updated_at,
        github_pushed_at: prev.github_pushed_at,
        cached_at: prev.cached_at,
        expires_at: prev.expires_at,
        is_active: false,
    }
}

/// Whether some record of `recs` carries `id`.
fn is_listed(recs: &Vec<GithubApiRepo>, id: i64) -> (r: bool)
    ensures
        r == listed(recs@, id),
{
    proof {
        lemma_last_index_of(recs@, id);
    }
    let mut k: usize = 0;
    while k < recs.len()
        invariant
            k <= recs@.len(),
            forall|j: int| 0 <= j < k ==> recs@[j].id != id,
        decreases recs@.len() - k,
    {
        if recs[k].id == id {
            proof {
                lemma_last_index_of(recs@, id);
            }
            return true;
        }
        k = k + 1;
    }
    false
}

/// The position of the row that carries `id`, if any.
fn find_row(rows: &Vec<GithubRepo>, id: i64) -> (r: Option<usize>)
    ensures
        r is Some ==> has_id_at(rows@, r->0 as int, id),
        r is None ==> !has_row(rows@, id),
{
    let mut i: usize = 0;
    while i < rows.len()
        invariant
            i <= rows@.len(),
            forall|j: int| 0 <= j < i ==> rows@[j].github_id != id,
        decreases rows@.len() - i,
    {
        if rows[i].github_id == id {
            return Some(i);
        }
        i = i + 1;
    }
    None
}

impl RepoCache {
    /// The cache's invariant: unique identifiers, valid instants, and valid
    /// windows with the fresh one no longer than the stale one.
    pub open spec fn wf(&self) -> bool {
        &&& ids_unique(self.repos@)
        &&& valid_window(self.fresh_minutes)
        &&& valid_window(self.stale_minutes)
        &&& self.fresh_minutes <= self.stale_minutes
        &&& forall|i: int| 0 <= i < self.repos@.len() ==> valid_instant(#[trigger] self.repos@[i].cached_at)
    }

    /// Rows are fresh at `now`.
    pub open spec fn spec_fresh(&self, now: i64) -> bool {
        active_since(self.repos@, minutes_before(now, self.fresh_minutes))
    }

    /// Rows are usable, fresh or stale, at `now`.
    pub open spec fn spec_has_data(&self, now: i64) -> bool {
        active_since(self.repos@, minutes_before(now, self.stale_minutes))
    }

    /// An empty cache with the given windows; its metadata records no fetch yet.
    pub fn new(fresh_minutes: i64, stale_minutes: i64) -> (r: RepoCache)
        requires
            valid_window(fresh_minutes),
            valid_window(stale_minutes),
            fresh_minutes <= stale_minutes,
        ensures
            r.wf(),
            r.repos@.len() == 0,
            r.fresh_minutes == fresh_minutes,
            r.stale_minutes == stale_minutes,
            r.metadata.last_successful_fetch is None,
            r.metadata.last_fetch_attempt is None,
            r.metadata.fetch_error_count == 0,
            r.metadata.last_error_message is None,
            r.metadata.rate_limit_remaining is None,
            r.metadata.rate_limit_reset is None,
    {
        RepoCache {
            repos: Vec::new(),
            metadata: GithubCacheMetadata {
                last_successful_fetch: None,
                last_fetch_attempt: None,
                fetch_error_count: 0,
                last_error_message: None,
                rate_limit_remaining: None,
                rate_limit_reset: None,
            },
            fresh_minutes,
            stale_minutes,
        }
    }

    /// Whether some active row was written after `now - minutes`.
    fn any_active_since(&self, now: i64, minutes: i64) -> (r: bool)
        requires
            valid_window(minutes),
        ensures
            r == active_since(self.repos@, minutes_before(now, minutes)),
    {
        let cutoff: i128 = now as i128 - (minutes as i128) * 60;
        let mut i: usize = 0;
        while i < self.repos.len()
            invariant
                i <= self.repos@.len(),
                cutoff == minutes_before(now, minutes),
                forall|k: int|
                    0 <= k < i ==> !(self.repos@[k].is_active && self.repos@[k].cached_at > cutoff),
            decreases self.repos@.len() - i,
        {
            let row = &self.repos[i];
            if row.is_active && row.cached_at as i128 > cutoff {
                return true;
            }
            i = i + 1;
        }
        false
    }

    /// Whether an active row was written within the fresh window of `now`.
    pub fn is_cache_fresh(&self, now: i64) -> (r: bool)
        requires
            self.wf(),
        ensures
            r == self.spec_fresh(now),
    {
        self.any_active_since(now, self.fresh_minutes)
    }

    /// Whether an active row was written within the stale window of `now`.
    pub fn has_cached_data(&self, now: i64) -> (r: bool)
        requires
            self.wf(),
        ensures
            r == self.spec_has_data(now),
    {
        self.any_active_since(now, self.stale_minutes)
    }

    /// Records the outcome of a refresh attempt made at `now`.
    ///
    /// A success stamps both instants, clears the error count and message, and
    /// stores the rate-limit snapshot. A failure stamps only the attempt, counts
    /// one more error (saturating) and stores the message; it leaves the last
    /// successful fetch and the rate-limit snapshot as they were.
    pub fn update_cache_metadata(
        &mut self,
        success: bool,
        error_message: Option<String>,
        rate_limit_remaining: Option<i32>,
        rate_limit_reset: Option<i64>,
        now: i64,
    )
        ensures
            final(self).repos == old(self).repos,
            final(self).fresh_minutes == old(self).fresh_minutes,
            final(self).stale_minutes == old(self).stale_minutes,
            metadata_recorded(
                old(self).metadata,
                final(self).metadata,
                success,
                error_message,
                rate_limit_remaining,
                rate_limit_reset,
                now,
            ),
    {
        if success {
            self.metadata.last_successful_fetch = Some(now);
            self.metadata.fetch_error_count = 0;
            self.metadata.last_error_message = None;
            self.metadata.rate_limit_remaining = rate_limit_remaining;
            self.metadata.rate_limit_reset = rate_limit_reset;
        } else {
            if self.metadata.fetch_error_count < i32::MAX {
                self.metadata.fetch_error_count = self.metadata.fetch_error_count + 1;
            }
            self.metadata.last_error_message = error_message;
        }
        self.metadata.last_fetch_attempt = Some(now);
    }

    /// Writes a refresh's records at `now`.
    ///
    /// Every row whose identifier no record carries is retired; every record is
    /// written as an active row, over the row with its identifier if there is one,
    /// and where several records carry one identifier the last of them wins.
    pub fn upsert_repos(&mut self, repos: Vec<GithubApiRepo>, now: i64)
        requires
            old(self).wf(),
            valid_instant(now),
        ensures
            final(self).wf(),
            upserted(*old(self), *final(self), repos@, now),
    {
        let ghost start = self.repos@;
        let n = self.repos.len();
        let mut i: usize = 0;
        while i < n
            invariant
                n == start.len(),
                self.repos@.len() == n,
                self.fresh_minutes == old(self).fresh_minutes,
                self.stale_minutes == old(self).stale_minutes,
                self.metadata == old(self).metadata,
                i <= n,
                forall|k: int| 0 <= k < n ==> (#[trigger] self.repos@[k]).github_id == start[k].github_id,
                forall|k: int| 0 <= k < n ==> self.repos@[k].cached_at == (#[trigger] start[k]).cached_at,
                forall|k: int| 0 <= k < i && listed(repos@, start[k].github_id) ==> #[trigger] self.repos@[k] == start[k],
                forall|k: int| 0 <= k < i && !listed(repos@, start[k].github_id) ==> retired_from(#[trigger] self.repos@[k], start[k]),
                forall|k: int| i <= k < n ==> #[trigger] self.repos@[k] == start[k],
            decreases n - i,
        {
            if !is_listed(&repos, self.repos[i].github_id) {
                let row = retire(&self.repos[i]);
                self.repos.set(i, row);
            }
            i = i + 1;
        }
        let ghost mid = self.repos@;
        assert(ids_unique(mid));
        assert forall|x: i64| has_row(mid, x) <==> has_row(start, x) by {
            if has_row(mid, x) {
                let w = choose|w: int| has_id_at(mid, w, x);
                assert(has_id_at(start, w, x));
            }
            if has_row(start, x) {
                let w = choose|w: int| has_id_at(start, w, x);
                assert(has_id_at(mid, w, x));
            }
        }
        let mut k: usize = 0;
        while k < repos.len()
            invariant
                k <= repos@.len(),
                valid_instant(now),
                valid_window(self.fresh_minutes),
                valid_window(self.stale_minutes),
                self.fresh_minutes == old(self).fresh_minutes,
                self.stale_minutes == old(self).stale_minutes,
                self.metadata == old(self).metadata,
                ids_unique(self.repos@),
                forall|j: int| 0 <= j < self.repos@.len() ==> valid_instant(#[trigger] self.repos@[j].cached_at),
                forall|id: i64|
                    has_row(self.repos@, id) <==> has_row(mid, id) || listed(repos@.subrange(0, k as int), id),
                forall|j: int|
                    0 <= j < self.repos@.len() ==> accounted(
                        #[trigger] self.repos@[j],
                        repos@.subrange(0, k as int),
                        mid,
                        now,
                        self.fresh_minutes,
                    ),
            decreases repos@.len() - k,
        {
            let ghost before = self.repos@;
            let id = repos[k].id;
            let row = row_from(&repos[k], now, self.fresh_minutes);
            let ghost at: int;
            match find_row(&self.repos, id) {
                Some(j) => {
                    self.repos.set(j, row);
                    proof {
                        at = j as int;
                        assert forall|i: int| 0 <= i < self.repos@.len() && i != at implies self.repos@[i]
                            == before[i] && before[i].github_id != id by {
                            assert(before[i].github_id != before[at].github_id);
                        }
                    }
                },
                None => {
                    self.repos.push(row);
                    proof {
                        at = before.len() as int;
                        assert forall|i: int| 0 <= i < self.repos@.len() && i != at implies self.repos@[i]
                            == before[i] && before[i].github_id != id by {
                            assert(!has_id_at(before, i, id));
                        }
                    }
                },
            }
            proof {
                let done = repos@.subrange(0, k as int);
                let done1 = repos@.subrange(0, k + 1);
                assert(self.repos@[at].github_id == id);
                assert forall|j: int| 0 <= j < self.repos@.len() implies accounted(
                    #[trigger] self.repos@[j],
                    done1,
                    mid,
                    now,
                    self.fresh_minutes,
                ) by {
                    let x = self.repos@[j].github_id;
                    lemma_last_index_of_step(repos@, k as int, x);
                    lemma_last_index_of(done, x);
                    if j != at {
                        assert(accounted(before[j], done, mid, now, self.fresh_minutes));
                        if listed(done, x) {
                            assert(done1[last_index_of(done, x)] == done[last_index_of(done, x)]);
                        }
                    }
                }
                assert forall|x: i64| has_row(self.repos@, x) <==> has_row(mid, x) || listed(done1, x) by {
                    lemma_last_index_of_step(repos@, k as int, x);
                    if x == id {
                        assert(has_id_at(self.repos@, at, x));
                    } else {
                        if has_row(before, x) {
                            let w = choose|w: int| has_id_at(before, w, x);
                            assert(has_id_at(self.repos@, w, x));
                        }
                        if has_row(self.repos@, x) {
                            let w = choose|w: int| has_id_at(self.repos@, w, x);
                            assert(has_id_at(before, w, x));
                        }
                    }
                }
                assert forall|a: int, b: int|
                    0 <= a < self.repos@.len() && 0 <= b < self.repos@.len() && a != b implies self.repos@[a].github_id
                    != self.repos@[b].github_id by {
                    if a != at && b != at {
                        assert(before[a].github_id != before[b].github_id);
                    }
                }
            }
            k = k + 1;
        }
        assert(repos@.subrange(0, repos@.len() as int) =~= repos@);
        assert forall|i: int| 0 <= i < self.repos@.len() implies #[trigger] listed(repos@, self.repos@[i].github_id) ==> written_from(
            self.repos@[i],
            repos@[last_index_of(repos@, self.repos@[i].github_id)],
            now,
            self.fresh_minutes,
        ) by {
            assert(accounted(self.repos@[i], repos@.subrange(0, repos@.len() as int), mid, now, self.fresh_minutes));
        }
        assert forall|i: int|
            0 <= i < self.repos@.len() && !listed(repos@, #[trigger] self.repos@[i].github_id)
                implies exists|j: int|
                has_id_at(old(self).repos@, j, self.repos@[i].github_id) && retired_from(
                    self.repos@[i],
                    old(self).repos@[j],
                ) by {
            assert(accounted(self.repos@[i], repos@.subrange(0, repos@.len() as int), mid, now, self.fresh_minutes));
            let m = choose|m: int| has_id_at(mid, m, self.repos@[i].github_id) && self.repos@[i] == mid[m];
            assert(has_id_at(old(self).repos@, m, self.repos@[i].github_id));
        }
    }

    /// Positions of the active rows, in ranking order.
    fn rank_active(&self) -> (r: Vec<usize>)
        ensures
            is_ranking(self.repos@, r@),
    {
        let rows = &self.repos;
        let mut r: Vec<usize> = Vec::new();
        let mut i: usize = 0;
        while i < rows.len()
            invariant
                i <= rows@.len(),
                forall|k: int| 0 <= k < r@.len() ==> (#[trigger] r@[k]) < i && rows@[r@[k] as int].is_active,
                forall|a: int, b: int| 0 <= a < b < r@.len() ==> r@[a] != r@[b],
                forall|j: int| 0 <= j < i && (#[trigger] rows@[j]).is_active ==> exists|k: int|
                    0 <= k < r@.len() && r@[k] == j,
                forall|a: int, b: int|
                    0 <= a < b < r@.len() ==> !ranks_before(rows@[r@[b] as int], rows@[r@[a] as int]),
            decreases rows@.len() - i,
        {
            if rows[i].is_active {
                let mut p: usize = 0;
                while p < r.len() && !ranks_before_exec(&rows[i], &rows[r[p]])
                    invariant
                        i < rows@.len(),
                        p <= r@.len(),
                        forall|k: int| 0 <= k < r@.len() ==> (#[trigger] r@[k]) < i,
                        forall|q: int| 0 <= q < p ==> !ranks_before(rows@[i as int], rows@[#[trigger] r@[q] as int]),
                    decreases r@.len() - p,
                {
                    p = p + 1;
                }
                let ghost prev = r@;
                let ghost x = rows@[i as int];
                proof {
                    assert forall|q: int| p <= q < prev.len() implies !ranks_before(rows@[prev[q] as int], x) by {
                        if p < prev.len() {
                            assert(ranks_before(x, rows@[prev[p as int] as int]));
                            if q > p {
                                assert(!ranks_before(rows@[prev[q] as int], rows@[prev[p as int] as int]));
                            }
                        }
                    }
                }
                r.insert(p, i);
                proof {
                    assert forall|j: int| 0 <= j <= i && (#[trigger] rows@[j]).is_active implies exists|k: int|
                        0 <= k < r@.len() && r@[k] == j by {
                        if j == i {
                            assert(r@[p as int] == j);
                        } else {
                            let k = choose|k: int| 0 <= k < prev.len() && prev[k] == j;
                            if k < p {
                                assert(r@[k] == j);
                            } else {
                                assert(r@[k + 1] == j);
                            }
                        }
                    }
                    assert forall|a: int, b: int| 0 <= a < b < r@.len() implies r@[a] != r@[b] by {
                        if a < p && b < p {
                        } else if a < p && b == p {
                            assert(prev[a] < i);
                        } else if a < p {
                            assert(r@[b] == prev[b - 1]);
                        } else if a == p {
                            assert(prev[b - 1] < i);
                        } else {
                            assert(r@[a] == prev[a - 1] && r@[b] == prev[b - 1]);
                        }
                    }
                    assert forall|a: int, b: int| 0 <= a < b < r@.len() implies !ranks_before(
                        rows@[r@[b] as int],
                        rows@[r@[a] as int],
                    ) by {
                        if a < p && b < p {
                        } else if a < p && b == p {
                        } else if a < p {
                            assert(r@[b] == prev[b - 1]);
                        } else if a == p {
                            assert(r@[b] == prev[b - 1]);
                        } else {
                            assert(r@[a] == prev[a - 1] && r@[b] == prev[b - 1]);
                        }
                    }
                }
            }
            i = i + 1;
        }
        r
    }

    /// The active rows in display form: most stars first, then latest push
    /// first, with rows never pushed last.
    pub fn get_cached_repos(&self) -> (r: Vec<GithubRepoDisplay>)
        ensures
            lists_active(r@, self.repos@),
    {
        let idx = self.rank_active();
        let mut r: Vec<GithubRepoDisplay> = Vec::new();
        let mut k: usize = 0;
        while k < idx.len()
            invariant
                k <= idx@.len(),
                is_ranking(self.repos@, idx@),
                r@.len() == k,
                forall|m: int| 0 <= m < k ==> shows(#[trigger] r@[m], self.repos@[idx@[m] as int]),
            decreases idx@.len() - k,
        {
            assert(idx@[k as int] < self.repos@.len());
            let d = display_of(&self.repos[idx[k]]);
            r.push(d);
            k = k + 1;
        }
        r
    }

    /// A copy of the metadata record.
    pub fn get_cache_metadata(&self) -> (r: GithubCacheMetadata)
        ensures
            r == self.metadata,
    {
        GithubCacheMetadata {
            last_successful_fetch: self.metadata.last_successful_fetch,
            last_fetch_attempt: self.metadata.last_fetch_attempt,
            fetch_error_count: self.metadata.fetch_error_count,
            last_error_message: copy_opt_text(&self.metadata.last_error_message),
            rate_limit_remaining: self.metadata.rate_limit_remaining,
            rate_limit_reset: self.metadata.rate_limit_reset,
        }
    }
}

} // verus!
