//! What the repository-listing client decides: the request it makes, how it
//! reads a response's status and rate-limit headers, and which repositories
//! it keeps.
use vstd::prelude::*;

use crate::cache::GithubApiRepo;
use crate::dates::{rfc3339_of, rfc3339_text};

verus! {

/// Base address of the upstream API.
pub const GITHUB_API_URL: &'static str = "https://api.github.com";

/// Why a fetch failed.
pub enum GithubError {
    /// The transport failed, or the body could not be read; holds the cause.
    Request(String),
    /// The quota is spent; holds the instant it resets, when known.
    RateLimited(Option<i64>),
    /// Any other unsuccessful status, with the response body.
    ApiError { status: u16, message: String },
}

/// A successful fetch: the repositories kept and the rate-limit headers seen.
pub struct FetchResult {
    pub repos: Vec<GithubApiRepo>,
    pub rate_limit_remaining: Option<i32>,
    pub rate_limit_reset: Option<i64>,
}

/// What a response's status and rate-limit headers call for.
#[derive(PartialEq, Eq, Structural, Debug, Clone, Copy)]
pub enum ResponseVerdict {
    /// Read the body as the repository list.
    Accept,
    /// Fail as rate limited, reset at the instant given when known.
    RateLimited(Option<i64>),
    /// Fail with this status and the response body.
    Reject(u16),
}

/// Whether a status is in the success class.
pub open spec fn is_success(status: u16) -> bool {
    200 <= status <= 299
}

/// Whether a response says the quota is spent.
pub open spec fn quota_spent(status: u16, remaining: Option<i32>) -> bool {
    status == 403 && remaining == Some(0i32)
}

/// Judges a response by its status and rate-limit headers: a forbidden status
/// with no quota left means rate limited; any other status outside the success
/// class is rejected; the rest is accepted.
pub fn judge_response(status: u16, remaining: Option<i32>, reset: Option<i64>) -> (r: ResponseVerdict)
    ensures
        quota_spent(status, remaining) ==> r == ResponseVerdict::RateLimited(reset),
        !quota_spent(status, remaining) && !is_success(status) ==> r == ResponseVerdict::Reject(status),
        !quota_spent(status, remaining) && is_success(status) ==> r == ResponseVerdict::Accept,
{
    if status == 403 {
        if let Some(0) = remaining {
            return ResponseVerdict::RateLimited(reset);
        }
    }
    if !(200 <= status && status <= 299) {
        return ResponseVerdict::Reject(status);
    }
    ResponseVerdict::Accept
}

/// Whether a listed repository is the account's own, not a fork.
pub open spec fn is_original(r: GithubApiRepo) -> bool {
    !r.fork
}

/// The repositories that are not forks, in their order.
pub fn without_forks(repos: Vec<GithubApiRepo>) -> (r: Vec<GithubApiRepo>)
    ensures
        r@ == repos@.filter(|x: GithubApiRepo| is_original(x)),
{
    broadcast use Seq::lemma_filter_push;

    let n: usize = repos.len();
    let ghost all = repos@;
    let mut rest = repos;
    let mut r: Vec<GithubApiRepo> = Vec::new();
    let mut k: usize = 0;
    assert(all.subrange(0, 0) =~= Seq::<GithubApiRepo>::empty());
    proof {
        reveal(Seq::filter);
    }
    while rest.len() > 0
        invariant
            k + rest@.len() == all.len(),
            all.len() == n,
            rest@ == all.subrange(k as int, all.len() as int),
            r@ == all.subrange(0, k as int).filter(|x: GithubApiRepo| is_original(x)),
        decreases rest@.len(),
    {
        let x = rest.remove(0);
        assert(all.subrange(0, k + 1) =~= all.subrange(0, k as int).push(x));
        proof {
            all.subrange(0, k as int).lemma_filter_push(x, |x: GithubApiRepo| is_original(x));
        }
        if !x.fork {
            r.push(x);
        }
        k = k + 1;
        assert(rest@ =~= all.subrange(k as int, all.len() as int));
    }
    assert(all.subrange(0, all.len() as int) =~= all);
    r
}

/// The listing request for `username`: owned repositories, most recently
/// pushed first, up to a hundred.
pub fn repos_url(username: &str) -> (r: String)
    ensures
        r@ == GITHUB_API_URL@ + "/users/"@ + username@ + "/repos?type=owner&sort=pushed&per_page=100"@,
{
    let mut r = String::from_str(GITHUB_API_URL);
    r.append("/users/");
    r.append(username);
    r.append("/repos?type=owner&sort=pushed&per_page=100");
    r
}

/// The decimal digit of `d`.
pub open spec fn digit_char(d: nat) -> char {
    if d == 0 { '0' }
    else if d == 1 { '1' }
    else if d == 2 { '2' }
    else if d == 3 { '3' }
    else if d == 4 { '4' }
    else if d == 5 { '5' }
    else if d == 6 { '6' }
    else if d == 7 { '7' }
    else if d == 8 { '8' }
    else { '9' }
}

/// `n` in decimal, without leading zeros.
pub open spec fn decimal_text(n: nat) -> Seq<char>
    decreases n,
{
    if n < 10 {
        seq![digit_char(n)]
    } else {
        decimal_text(n / 10).push(digit_char(n % 10))
    }
}

/// The digit `d` as a one-character text.
fn digit_str(d: u32) -> (r: &'static str)
    requires
        d < 10,
    ensures
        r@ == seq![digit_char(d as nat)],
{
    proof {
        reveal_strlit("0");
        reveal_strlit("1");
        reveal_strlit("2");
        reveal_strlit("3");
        reveal_strlit("4");
        reveal_strlit("5");
        reveal_strlit("6");
        reveal_strlit("7");
        reveal_strlit("8");
        reveal_strlit("9");
    }
    let r = if d == 0 { "0" }
    else if d == 1 { "1" }
    else if d == 2 { "2" }
    else if d == 3 { "3" }
    else if d == 4 { "4" }
    else if d == 5 { "5" }
    else if d == 6 { "6" }
    else if d == 7 { "7" }
    else if d == 8 { "8" }
    else { "9" };
    assert(r@ =~= seq![digit_char(d as nat)]);
    r
}

/// Appends `n` in decimal to `out`.
fn append_decimal(out: &mut String, n: u32)
    ensures
        final(out)@ == old(out)@ + decimal_text(n as nat),
    decreases n,
{
    if n >= 10 {
        append_decimal(out, n / 10);
    }
    out.append(digit_str(n % 10));
    assert(old(out)@ + decimal_text(n as nat) =~= if n >= 10 {
        old(out)@ + decimal_text((n / 10) as nat) + seq![digit_char((n % 10) as nat)]
    } else {
        old(out)@ + seq![digit_char((n % 10) as nat)]
    });
}

impl GithubError {
    /// The text recorded for this error.
    pub open spec fn spec_message(&self) -> Seq<char> {
        match self {
            GithubError::Request(cause) => "HTTP request failed: "@ + cause@,
            GithubError::RateLimited(None) => "Rate limited. Reset at: None"@,
            GithubError::RateLimited(Some(t)) => "Rate limited. Reset at: "@ + rfc3339_text(*t as int),
            GithubError::ApiError { status, message } => "GitHub API error: "@ + decimal_text(
                *status as nat,
            ) + " - "@ + message@,
        }
    }

    /// Whether `text` is the text recorded for this error: its `spec_message`,
    /// except that a reset instant the calendar cannot write reads as "None".
    pub open spec fn described_by(&self, text: Seq<char>) -> bool {
        match self {
            GithubError::RateLimited(Some(t)) => if crate::cache::valid_instant(*t) {
                text == self.spec_message()
            } else {
                text == self.spec_message() || text == "Rate limited. Reset at: None"@
            },
            _ => text == self.spec_message(),
        }
    }

    /// The text recorded for this error.
    pub fn message(&self) -> (r: String)
        ensures
            self.described_by(r@),
    {
        match self {
            GithubError::Request(cause) => {
                let r = String::from_str("HTTP request failed: ");
                r.concat(cause.as_str())
            },
            GithubError::RateLimited(reset) => {
                let mut r = String::from_str("Rate limited. Reset at: ");
                match rfc3339_of(*reset) {
                    Some(text) => r.append(text.as_str()),
                    None => r.append("None"),
                }
                proof {
                    reveal_strlit("Rate limited. Reset at: ");
                    reveal_strlit("None");
                    reveal_strlit("Rate limited. Reset at: None");
                }
                assert(reset is None ==> r@ =~= "Rate limited. Reset at: None"@);
                r
            },
            GithubError::ApiError { status, message } => {
                let mut r = String::from_str("GitHub API error: ");
                append_decimal(&mut r, *status as u32);
                r.append(" - ");
                r.append(message.as_str());
                r
            },
        }
    }
}

} // verus!
