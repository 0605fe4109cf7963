//! Laws of the repository cache, stated over the contracts of its operations.
use vstd::prelude::*;

use crate::cache::{
    active_since, has_id_at, has_row, is_ranking, last_index_of, lemma_last_index_of, listed,
    metadata_recorded, minutes_before, retired_from, upserted, written_from, GithubApiRepo,
    GithubCacheMetadata, RepoCache,
};
use crate::github::{FetchResult, GithubError};
use crate::service::{finish_step, presents, read_step, refresh_step, GetStep, GithubReposResult};

verus! {

/// After a write, every active row is one of the records just written.
proof fn lemma_active_rows_are_written(before: RepoCache, after: RepoCache, recs: Seq<GithubApiRepo>, now: i64, i: int)
    requires
        upserted(before, after, recs, now),
        0 <= i < after.repos@.len(),
        after.repos@[i].is_active,
    ensures
        listed(recs, after.repos@[i].github_id),
        after.repos@[i].cached_at == now,
{
    if !listed(recs, after.repos@[i].github_id) {
        let j = choose|j: int|
            has_id_at(before.repos@, j, after.repos@[i].github_id) && retired_from(after.repos@[i], before.repos@[j]);
    }
}

/// A record's identifier has a row, active and stamped `now`, after the write.
proof fn lemma_written_row(
    before: RepoCache,
    after: RepoCache,
    recs: Seq<GithubApiRepo>,
    now: i64,
    k: int,
) -> (i: int)
    requires
        upserted(before, after, recs, now),
        0 <= k < recs.len(),
    ensures
        0 <= i < after.repos@.len(),
        after.repos@[i].github_id == recs[k].id,
        after.repos@[i].is_active,
        after.repos@[i].cached_at == now,
        written_from(after.repos@[i], recs[last_index_of(recs, recs[k].id)], now, after.fresh_minutes),
{
    let id = recs[k].id;
    lemma_last_index_of(recs, id);
    assert(listed(recs, id));
    assert(has_row(after.repos@, id));
    let w = choose|w: int| has_id_at(after.repos@, w, id);
    assert(listed(recs, after.repos@[w].github_id));
    w
}

/// Freshness after a write: once a non-empty list of records is written at
/// `now`, the cache is fresh at a later instant exactly while the fresh window
/// has not elapsed, and holds usable data exactly while the stale window has
/// not.
pub proof fn lemma_freshness_after_upsert(
    before: RepoCache,
    after: RepoCache,
    recs: Seq<GithubApiRepo>,
    now: i64,
    t: i64,
)
    requires
        upserted(before, after, recs, now),
        recs.len() > 0,
        now <= t,
    ensures
        after.spec_fresh(t) <==> t < now + after.fresh_minutes * 60,
        after.spec_has_data(t) <==> t < now + after.stale_minutes * 60,
{
    let w = lemma_written_row(before, after, recs, now, 0);
    assert forall|c: int| active_since(after.repos@, c) <==> now > c by {
        if active_since(after.repos@, c) {
            let i = choose|i: int| 0 <= i < after.repos@.len() && after.repos@[i].is_active && after.repos@[i].cached_at > c;
            lemma_active_rows_are_written(before, after, recs, now, i);
        }
        if now > c {
            assert(after.repos@[w].is_active && after.repos@[w].cached_at > c);
        }
    }
    assert(active_since(after.repos@, minutes_before(t, after.fresh_minutes)) <==> now > minutes_before(t, after.fresh_minutes));
    assert(active_since(after.repos@, minutes_before(t, after.stale_minutes)) <==> now > minutes_before(t, after.stale_minutes));
}

/// Fresh rows are usable rows: whenever the cache is fresh it holds data.
pub proof fn lemma_fresh_implies_data(cache: RepoCache, now: i64)
    requires
        cache.wf(),
        cache.spec_fresh(now),
    ensures
        cache.spec_has_data(now),
{
    let i = choose|i: int|
        0 <= i < cache.repos@.len() && cache.repos@[i].is_active && cache.repos@[i].cached_at > minutes_before(
            now,
            cache.fresh_minutes,
        );
    assert(cache.repos@[i].cached_at > minutes_before(now, cache.stale_minutes));
}

/// Soft deletion: a write whose records omit identifier `x` leaves every row of
/// `x` inactive, so no listing of active rows includes it; a later write whose
/// records carry `x` makes its row active again, with the last such record's
/// content.
pub proof fn lemma_soft_delete_on_omission(
    first: RepoCache,
    second: RepoCache,
    third: RepoCache,
    omitting: Seq<GithubApiRepo>,
    including: Seq<GithubApiRepo>,
    t1: i64,
    t2: i64,
    x: i64,
)
    requires
        has_row(first.repos@, x),
        upserted(first, second, omitting, t1),
        !listed(omitting, x),
        upserted(second, third, including, t2),
        listed(including, x),
    ensures
        has_row(second.repos@, x),
        forall|i: int| has_id_at(second.repos@, i, x) ==> !second.repos@[i].is_active,
        forall|idx: Seq<usize>, k: int|
            is_ranking(second.repos@, idx) && 0 <= k < idx.len() ==> second.repos@[idx[k] as int].github_id != x,
        exists|i: int|
            has_id_at(third.repos@, i, x) && third.repos@[i].is_active && written_from(
                third.repos@[i],
                including[last_index_of(including, x)],
                t2,
                third.fresh_minutes,
            ),
{
    assert forall|i: int| has_id_at(second.repos@, i, x) implies !second.repos@[i].is_active by {
        assert(!listed(omitting, second.repos@[i].github_id));
        let j = choose|j: int|
            has_id_at(first.repos@, j, x) && retired_from(second.repos@[i], first.repos@[j]);
    }
    assert forall|idx: Seq<usize>, k: int| is_ranking(second.repos@, idx) && 0 <= k < idx.len() implies second.repos@[idx[k] as int].github_id != x by {
        if second.repos@[idx[k] as int].github_id == x {
            assert(has_id_at(second.repos@, idx[k] as int, x));
        }
    }
    assert(has_row(third.repos@, x));
    let i = choose|i: int| has_id_at(third.repos@, i, x);
    assert(listed(including, third.repos@[i].github_id));
}

/// Metadata after a failed attempt and then a successful one: no error is
/// counted or kept, and both instants are those of the successful attempt.
pub proof fn lemma_metadata_after_recovery(
    m0: GithubCacheMetadata,
    m1: GithubCacheMetadata,
    m2: GithubCacheMetadata,
    error_message: Option<String>,
    remaining1: Option<i32>,
    reset1: Option<i64>,
    remaining2: Option<i32>,
    reset2: Option<i64>,
    failed_at: i64,
    succeeded_at: i64,
)
    requires
        metadata_recorded(m0, m1, false, error_message, remaining1, reset1, failed_at),
        metadata_recorded(m1, m2, true, None, remaining2, reset2, succeeded_at),
    ensures
        m2.fetch_error_count == 0,
        m2.last_error_message is None,
        m2.last_successful_fetch == Some(succeeded_at),
        m2.last_fetch_attempt == Some(succeeded_at),
{
}

/// Serving stale rows does not wait for the upstream: a read in the stale
/// state answers at once with the cache's rows, marked stale, and asks for a
/// background refresh; that refresh, whatever its outcome and whenever it
/// completes, shows in the metadata as an attempt at its own instant, and a
/// successful one as the last success.
pub proof fn lemma_stale_read_serves_without_upstream(
    cache: RepoCache,
    now: i64,
    step: GetStep,
    after: RepoCache,
    outcome: Result<FetchResult, GithubError>,
    later: i64,
    r: Result<(), GithubError>,
)
    requires
        !cache.spec_fresh(now),
        cache.spec_has_data(now),
        read_step(cache, now, step),
        refresh_step(cache, after, outcome, later, r),
    ensures
        match step {
            GetStep::Serve { result, refresh_in_background } => {
                &&& result.is_stale
                &&& refresh_in_background
                &&& presents(result.repos@, cache.repos@)
            },
            GetStep::RefreshFirst => false,
        },
        after.metadata.last_fetch_attempt == Some(later),
        outcome is Ok ==> after.metadata.last_successful_fetch == Some(later),
{
}

/// Failing closed: with no rows at all and a failing fetch, a read asks to
/// refresh first, the refresh hands the error back, and no row is written.
pub proof fn lemma_fail_closed_on_empty(
    cache: RepoCache,
    now: i64,
    step: GetStep,
    after: RepoCache,
    e: GithubError,
    r: Result<GithubReposResult, GithubError>,
)
    requires
        cache.repos@.len() == 0,
        read_step(cache, now, step),
        finish_step(cache, after, Err(e), now, r),
    ensures
        step is RefreshFirst,
        r == Err::<GithubReposResult, GithubError>(e),
        after.repos@.len() == 0,
{
}

/// A listed identifier is current after a write, whatever its row was before
/// (absent, active or retired): its row is active, stamped `now`, fresh until
/// the fresh window ends, and holds the content of the last record carrying it;
/// when a single record carries it, that record.
pub proof fn lemma_listed_row_is_current(
    before: RepoCache,
    after: RepoCache,
    recs: Seq<GithubApiRepo>,
    now: i64,
    k: int,
)
    requires
        upserted(before, after, recs, now),
        0 <= k < recs.len(),
    ensures
        exists|i: int|
            has_id_at(after.repos@, i, recs[k].id) && after.repos@[i].is_active && after.repos@[i].cached_at == now
                && after.repos@[i].expires_at == now + after.fresh_minutes * 60 && written_from(
                after.repos@[i],
                recs[last_index_of(recs, recs[k].id)],
                now,
                after.fresh_minutes,
            ),
        (forall|m: int| 0 <= m < recs.len() && m != k ==> recs[m].id != recs[k].id) ==> last_index_of(
            recs,
            recs[k].id,
        ) == k,
{
    let i = lemma_written_row(before, after, recs, now, k);
    assert(has_id_at(after.repos@, i, recs[k].id));
    lemma_last_index_of(recs, recs[k].id);
}

/// A read after a successful refresh: once a non-empty list was written at
/// `later`, a read at any instant before the fresh window ends serves the
/// cache's rows, not stale and with no further refresh, and the active rows
/// are exactly those whose identifiers the list carried.
pub proof fn lemma_read_after_refresh(
    before: RepoCache,
    after: RepoCache,
    fetched: FetchResult,
    later: i64,
    r: Result<(), GithubError>,
    t: i64,
    step: GetStep,
)
    requires
        refresh_step(before, after, Ok(fetched), later, r),
        fetched.repos@.len() > 0,
        later <= t < later + after.fresh_minutes * 60,
        read_step(after, t, step),
    ensures
        match step {
            GetStep::Serve { result, refresh_in_background } => {
                &&& !result.is_stale
                &&& !refresh_in_background
                &&& presents(result.repos@, after.repos@)
            },
            GetStep::RefreshFirst => false,
        },
        forall|i: int|
            0 <= i < after.repos@.len() ==> (after.repos@[i].is_active <==> listed(
                fetched.repos@,
                #[trigger] after.repos@[i].github_id,
            )),
{
    let mid = RepoCache { metadata: before.metadata, ..after };
    lemma_freshness_after_upsert(before, mid, fetched.repos@, later, t);
    assert(mid.spec_fresh(t) == after.spec_fresh(t));
    assert forall|i: int| 0 <= i < after.repos@.len() implies (after.repos@[i].is_active <==> listed(
        fetched.repos@,
        #[trigger] after.repos@[i].github_id,
    )) by {
        if after.repos@[i].is_active {
            lemma_active_rows_are_written(before, mid, fetched.repos@, later, i);
        }
    }
}

} // verus!
