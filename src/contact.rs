//! The contact form's rules: which submissions are accepted, how often one
//! sender may submit, and how a sender is identified without keeping an address.
use vstd::prelude::*;
use vstd::utf8::encode_utf8;

use crate::cache::valid_instant;
use crate::text::{has_char, trim_of, trimmed};
use crate::github::digit_char;

verus! {

/// Minutes of the window in which a sender's attempts are counted.
pub const RATE_LIMIT_WINDOW_MINUTES: i64 = 60;

/// Attempts a sender may make within one window.
pub const RATE_LIMIT_MAX_ATTEMPTS: i32 = 3;

/// Hours after which a sender's record is no longer needed.
pub const RATE_LIMIT_RETENTION_HOURS: i64 = 24;

/// Longest accepted name, email address, message and subject, in bytes.
pub const MAX_NAME_BYTES: usize = 255;
pub const MAX_EMAIL_BYTES: usize = 255;
pub const MAX_MESSAGE_BYTES: usize = 5000;
pub const MAX_SUBJECT_BYTES: usize = 500;

/// Message keys of the answers.
pub const KEY_SUCCESS: &'static str = "contact_success";
pub const KEY_ERROR_NAME: &'static str = "contact_error_name";
pub const KEY_ERROR_EMAIL: &'static str = "contact_error_email";
pub const KEY_ERROR_MESSAGE: &'static str = "contact_error_message";
pub const KEY_ERROR_SUBJECT: &'static str = "contact_error_subject";
pub const KEY_ERROR_RATE_LIMIT: &'static str = "contact_error_rate_limit";

/// Where a stored submission stands.
#[derive(PartialEq, Eq, Structural, Debug, Clone, Copy)]
pub enum ContactStatus {
    Pending,
    Read,
    Replied,
    Spam,
}

impl Default for ContactStatus {
    fn default() -> (r: ContactStatus)
        ensures
            r == ContactStatus::Pending,
    {
        ContactStatus::Pending
    }
}

/// A submission to store.
pub struct NewContactSubmission {
    pub name: String,
    pub email: String,
    pub subject: Option<String>,
    pub message: String,
    pub honeypot_filled: bool,
    pub ip_hash: Option<String>,
    pub user_agent: Option<String>,
}

/// A page view to store, without anything that identifies the visitor.
pub struct NewPageView {
    pub path: String,
    pub title: Option<String>,
    pub session_hash: Option<String>,
    pub referrer: Option<String>,
    pub referrer_domain: Option<String>,
    pub device_type: Option<String>,
    pub browser_family: Option<String>,
    pub os_family: Option<String>,
    pub country_code: Option<String>,
}

/// The form as a visitor filled it in; `website` is a field hidden from people.
pub struct ContactFormInput {
    pub name: String,
    pub email: String,
    pub subject: String,
    pub message: String,
    pub website: String,
}

/// The answer to a submission: whether it went through, and the key of the
/// message to show.
pub struct ContactResult {
    pub success: bool,
    pub message_key: String,
}

/// A sender's attempts in the current window.
pub struct ContactRateLimit {
    pub ip_hash: String,
    pub attempt_count: i32,
    pub window_start: i64,
    pub last_attempt: i64,
}

/// What a submission calls for.
pub enum ContactCheck {
    /// The hidden field is filled: store the submission flagged, answer success.
    Trap(NewContactSubmission),
    /// A field is invalid: answer failure with this message key.
    Invalid(&'static str),
    /// The fields are valid: check the sender's rate limit, then store this.
    Valid(NewContactSubmission),
}

/// Length of a text in UTF-8 bytes.
pub open spec fn byte_len(t: Seq<char>) -> int {
    encode_utf8(t).len() as int
}

pub open spec fn valid_name(t: Seq<char>) -> bool {
    t.len() > 0 && byte_len(t) <= MAX_NAME_BYTES
}

pub open spec fn valid_email(t: Seq<char>) -> bool {
    &&& t.len() > 0
    &&& t.contains('@')
    &&& byte_len(t) <= MAX_EMAIL_BYTES
    &&& !t.contains('\n')
    &&& !t.contains('\r')
}

pub open spec fn valid_message(t: Seq<char>) -> bool {
    t.len() > 0 && byte_len(t) <= MAX_MESSAGE_BYTES
}

pub open spec fn valid_subject(t: Seq<char>) -> bool {
    byte_len(t) <= MAX_SUBJECT_BYTES
}

/// An optional text that is absent when empty.
pub open spec fn unless_empty(t: Seq<char>, o: Option<String>) -> bool {
    if t.len() == 0 {
        o is None
    } else {
        o is Some && o->0@ == t
    }
}

/// Whether `s` stores the given fields as they are.
pub open spec fn stores(
    s: NewContactSubmission,
    name: Seq<char>,
    email: Seq<char>,
    subject: Seq<char>,
    message: Seq<char>,
    honeypot: bool,
    ip_hash: Seq<char>,
    user_agent: Option<String>,
) -> bool {
    &&& s.name@ == name
    &&& s.email@ == email
    &&& unless_empty(subject, s.subject)
    &&& s.message@ == message
    &&& s.honeypot_filled == honeypot
    &&& s.ip_hash is Some && s.ip_hash->0@ == ip_hash
    &&& s.user_agent == user_agent
}

/// Length of `s` in UTF-8 bytes.
fn byte_count(s: &str) -> (r: usize)
    ensures
        r == byte_len(s@),
{
    s.as_bytes().len()
}

/// An owned copy of a text.
fn owned(s: &str) -> (r: String)
    ensures
        r@ == s@,
{
    String::from_str(s)
}

/// A text that is absent when empty.
fn text_unless_empty(s: &str) -> (r: Option<String>)
    ensures
        unless_empty(s@, r),
{
    if s.is_empty() {
        None
    } else {
        Some(owned(s))
    }
}

/// Checks a submission. A filled hidden field wins over everything: the
/// submission is kept as entered and flagged. Otherwise the trimmed name,
/// email address, message and subject are checked in that order, and the
/// first invalid one names the answer; when all are valid the trimmed fields
/// are kept, with an empty subject left out.
pub fn check_contact(input: &ContactFormInput, ip_hash: String, user_agent: Option<String>) -> (r:
    ContactCheck)
    ensures
        input.website@.len() > 0 ==> r is Trap && stores(
            r->Trap_0,
            input.name@,
            input.email@,
            input.subject@,
            input.message@,
            true,
            ip_hash@,
            user_agent,
        ),
        input.website@.len() == 0 ==> {
            let name = trim_of(input.name@);
            let email = trim_of(input.email@);
            let message = trim_of(input.message@);
            let subject = trim_of(input.subject@);
            &&& !valid_name(name) ==> r is Invalid && r->Invalid_0@ == KEY_ERROR_NAME@
            &&& valid_name(name) && !valid_email(email) ==> r is Invalid && r->Invalid_0@
                == KEY_ERROR_EMAIL@
            &&& valid_name(name) && valid_email(email) && !valid_message(message) ==> r is Invalid
                && r->Invalid_0@ == KEY_ERROR_MESSAGE@
            &&& valid_name(name) && valid_email(email) && valid_message(message) && !valid_subject(
                subject,
            ) ==> r is Invalid && r->Invalid_0@ == KEY_ERROR_SUBJECT@
            &&& valid_name(name) && valid_email(email) && valid_message(message) && valid_subject(
                subject,
            ) ==> r is Valid && stores(
                r->Valid_0,
                name,
                email,
                subject,
                message,
                false,
                ip_hash@,
                user_agent,
            )
        },
{
    if !input.website.as_str().is_empty() {
        return ContactCheck::Trap(
            NewContactSubmission {
                name: owned(input.name.as_str()),
                email: owned(input.email.as_str()),
                subject: text_unless_empty(input.subject.as_str()),
                message: owned(input.message.as_str()),
                honeypot_filled: true,
                ip_hash: Some(ip_hash),
                user_agent,
            },
        );
    }
    let name = trimmed(input.name.as_str());
    if name.is_empty() || byte_count(name) > MAX_NAME_BYTES {
        return ContactCheck::Invalid(KEY_ERROR_NAME);
    }
    let email = trimmed(input.email.as_str());
    if email.is_empty() || !has_char(email, '@') || byte_count(email) > MAX_EMAIL_BYTES || has_char(email, '\n')
        || has_char(email, '\r') {
        return ContactCheck::Invalid(KEY_ERROR_EMAIL);
    }
    let message = trimmed(input.message.as_str());
    if message.is_empty() || byte_count(message) > MAX_MESSAGE_BYTES {
        return ContactCheck::Invalid(KEY_ERROR_MESSAGE);
    }
    let subject = trimmed(input.subject.as_str());
    if byte_count(subject) > MAX_SUBJECT_BYTES {
        return ContactCheck::Invalid(KEY_ERROR_SUBJECT);
    }
    ContactCheck::Valid(
        NewContactSubmission {
            name: owned(name),
            email: owned(email),
            subject: text_unless_empty(subject),
            message: owned(message),
            honeypot_filled: false,
            ip_hash: Some(ip_hash),
            user_agent,
        },
    )
}

impl ContactResult {
    /// A successful answer.
    pub fn success() -> (r: ContactResult)
        ensures
            r.success,
            r.message_key@ == KEY_SUCCESS@,
    {
        ContactResult { success: true, message_key: owned(KEY_SUCCESS) }
    }

    /// A failed answer with message key `key`.
    pub fn failure(key: &str) -> (r: ContactResult)
        ensures
            !r.success,
            r.message_key@ == key@,
    {
        ContactResult { success: false, message_key: owned(key) }
    }
}

/// The instant `minutes` before `now`.
pub open spec fn window_cutoff(now: i64) -> int {
    now - RATE_LIMIT_WINDOW_MINUTES * 60
}

/// Decides whether the sender `ip_hash`, with its record `existing`, may submit
/// at `now`, and gives the record to keep. With no record, or with a window
/// that began before the last hour, a new window starts with one attempt.
/// Within the window, a sender with the full number of attempts is refused and
/// only the last attempt is stamped; otherwise the attempt is counted.
pub fn check_rate_limit(existing: Option<ContactRateLimit>, ip_hash: &str, now: i64) -> (r: (
    bool,
    ContactRateLimit,
))
    requires
        valid_instant(now),
    ensures
        r.1.last_attempt == now,
        match existing {
            None => r.0 && r.1.attempt_count == 1 && r.1.window_start == now && r.1.ip_hash@ == ip_hash@,
            Some(rec) => if rec.window_start < window_cutoff(now) {
                r.0 && r.1.attempt_count == 1 && r.1.window_start == now && r.1.ip_hash@ == rec.ip_hash@
            } else if rec.attempt_count >= RATE_LIMIT_MAX_ATTEMPTS {
                !r.0 && r.1.attempt_count == rec.attempt_count && r.1.window_start == rec.window_start
                    && r.1.ip_hash@ == rec.ip_hash@
            } else {
                r.0 && r.1.attempt_count == rec.attempt_count + 1 && r.1.window_start == rec.window_start
                    && r.1.ip_hash@ == rec.ip_hash@
            },
        },
{
    match existing {
        None => (
            true,
            ContactRateLimit { ip_hash: owned(ip_hash), attempt_count: 1, window_start: now, last_attempt: now },
        ),
        Some(rec) => {
            let cutoff = now - RATE_LIMIT_WINDOW_MINUTES * 60;
            if rec.window_start < cutoff {
                (
                    true,
                    ContactRateLimit {
                        ip_hash: rec.ip_hash,
                        attempt_count: 1,
                        window_start: now,
                        last_attempt: now,
                    },
                )
            } else if rec.attempt_count >= RATE_LIMIT_MAX_ATTEMPTS {
                (
                    false,
                    ContactRateLimit {
                        ip_hash: rec.ip_hash,
                        attempt_count: rec.attempt_count,
                        window_start: rec.window_start,
                        last_attempt: now,
                    },
                )
            } else {
                (
                    true,
                    ContactRateLimit {
                        ip_hash: rec.ip_hash,
                        attempt_count: rec.attempt_count + 1,
                        window_start: rec.window_start,
                        last_attempt: now,
                    },
                )
            }
        },
    }
}

/// Whether a record is still needed at `now`.
pub open spec fn retained(rec: ContactRateLimit, now: i64) -> bool {
    rec.window_start >= now - RATE_LIMIT_RETENTION_HOURS * 3600
}

/// Drops the records whose window began more than a day before `now`, keeping
/// the others in order, and returns how many were dropped.
pub fn cleanup_rate_limits(records: &mut Vec<ContactRateLimit>, now: i64) -> (r: u64)
    requires
        valid_instant(now),
    ensures
        final(records)@ == old(records)@.filter(|x: ContactRateLimit| retained(x, now)),
        r == old(records)@.len() - final(records)@.len(),
{
    broadcast use Seq::lemma_filter_push;

    let cutoff = now - RATE_LIMIT_RETENTION_HOURS * 3600;
    let n: usize = records.len();
    let ghost all = records@;
    let mut kept: Vec<ContactRateLimit> = Vec::new();
    let mut k: usize = 0;
    assert(all.subrange(0, 0) =~= Seq::<ContactRateLimit>::empty());
    proof {
        reveal(Seq::filter);
    }
    while records.len() > 0
        invariant
            all.len() == n,
            k + records@.len() == n,
            records@ == all.subrange(k as int, n as int),
            kept@ == all.subrange(0, k as int).filter(|x: ContactRateLimit| retained(x, now)),
            kept@.len() <= k,
            cutoff == now - RATE_LIMIT_RETENTION_HOURS * 3600,
        decreases records@.len(),
    {
        let x = records.remove(0);
        assert(all.subrange(0, k + 1) =~= all.subrange(0, k as int).push(x));
        proof {
            all.subrange(0, k as int).lemma_filter_push(x, |x: ContactRateLimit| retained(x, now));
        }
        if x.window_start >= cutoff {
            kept.push(x);
        }
        k = k + 1;
        assert(records@ =~= all.subrange(k as int, n as int));
    }
    assert(all.subrange(0, n as int) =~= all);
    let dropped = (n - kept.len()) as u64;
    *records = kept;
    dropped
}

/// The address recorded when a request names none.
pub const UNKNOWN_IP: &'static str = "unknown";

/// The salt mixed into sender identifiers when none is configured.
pub const DEFAULT_CONTACT_SALT: &'static str = "portfolio-contact-salt-2025";

/// The text before the first comma of `h`, or all of `h` when it has none.
pub open spec fn first_field(h: Seq<char>) -> Seq<char>
    decreases h.len(),
{
    if h.len() == 0 {
        h
    } else if h[0] == ',' {
        Seq::empty()
    } else {
        seq![h[0]] + first_field(h.drop_first())
    }
}

/// The first field ends at the first comma.
proof fn lemma_first_field(h: Seq<char>, p: int)
    requires
        0 <= p <= h.len(),
        forall|k: int| 0 <= k < p ==> h[k] != ',',
        p == h.len() || h[p] == ',',
    ensures
        first_field(h) == h.subrange(0, p),
    decreases h.len(),
{
    if h.len() == 0 {
        assert(h.subrange(0, p) =~= h);
    } else if p == 0 {
        assert(h.subrange(0, p) =~= Seq::<char>::empty());
    } else {
        lemma_first_field(h.drop_first(), p - 1);
        assert(h.subrange(0, p) =~= seq![h[0]] + h.drop_first().subrange(0, p - 1));
    }
}

/// The sender's address: the first entry of the forwarding header, trimmed,
/// or "unknown" when the request has no such header.
pub fn client_ip(forwarded_for: Option<&str>) -> (r: String)
    ensures
        match forwarded_for {
            Some(h) => r@ == trim_of(first_field(h@)),
            None => r@ == UNKNOWN_IP@,
        },
{
    match forwarded_for {
        None => owned(UNKNOWN_IP),
        Some(h) => {
            let n = h.unicode_len();
            let mut p: usize = 0;
            while p < n && h.get_char(p) != ','
                invariant
                    n == h@.len(),
                    p <= n,
                    forall|k: int| 0 <= k < p ==> h@[k] != ',',
                decreases n - p,
            {
                p = p + 1;
            }
            proof {
                lemma_first_field(h@, p as int);
            }
            let field = h.substring_char(0, p);
            owned(trimmed(field))
        },
    }
}

/// The SHA-256 digest of `data`.
pub uninterp spec fn sha256_of(data: Seq<u8>) -> Seq<u8>;

/// Relies on sha2's `Sha256::digest`: the digest depends on the bytes alone and
/// is 32 bytes long.
#[verifier::external_body]
fn sha256_digest(data: &[u8]) -> (r: Vec<u8>)
    ensures
        r@ == sha256_of(data@),
        r@.len() == 32,
{
    <sha2::Sha256 as sha2::Digest>::digest(data).to_vec()
}

/// The lower-case hexadecimal digit of `d`.
pub open spec fn hex_char(d: nat) -> char {
    if d < 10 {
        digit_char(d)
    } else if d == 10 { 'a' }
    else if d == 11 { 'b' }
    else if d == 12 { 'c' }
    else if d == 13 { 'd' }
    else if d == 14 { 'e' }
    else { 'f' }
}

/// `bytes` in lower-case hexadecimal, two digits each.
pub open spec fn hex_text(bytes: Seq<u8>) -> Seq<char>
    decreases bytes.len(),
{
    if bytes.len() == 0 {
        Seq::empty()
    } else {
        hex_text(bytes.drop_last()) + seq![
            hex_char((bytes.last() / 16) as nat),
            hex_char((bytes.last() % 16) as nat),
        ]
    }
}

/// The hexadecimal digit `d` as a one-character text.
fn hex_str(d: u8) -> (r: &'static str)
    requires
        d < 16,
    ensures
        r@ == seq![hex_char(d as nat)],
{
    proof {
        reveal_strlit("0");
        reveal_strlit("1");
        reveal_strlit("2");
        reveal_strlit("3");
        reveal_strlit("4");
        reveal_strlit("5");
        reveal_strlit("6");
        reveal_strlit("7");
        reveal_strlit("8");
        reveal_strlit("9");
        reveal_strlit("a");
        reveal_strlit("b");
        reveal_strlit("c");
        reveal_strlit("d");
        reveal_strlit("e");
        reveal_strlit("f");
    }
    let r = if d == 0 { "0" }
    else if d == 1 { "1" }
    else if d == 2 { "2" }
    else if d == 3 { "3" }
    else if d == 4 { "4" }
    else if d == 5 { "5" }
    else if d == 6 { "6" }
    else if d == 7 { "7" }
    else if d == 8 { "8" }
    else if d == 9 { "9" }
    else if d == 10 { "a" }
    else if d == 11 { "b" }
    else if d == 12 { "c" }
    else if d == 13 { "d" }
    else if d == 14 { "e" }
    else { "f" };
    assert(r@ =~= seq![hex_char(d as nat)]);
    r
}

/// `bytes` in lower-case hexadecimal.
pub fn to_hex(bytes: &[u8]) -> (r: String)
    ensures
        r@ == hex_text(bytes@),
{
    let mut r = String::new();
    let mut i: usize = 0;
    while i < bytes.len()
        invariant
            i <= bytes@.len(),
            r@ == hex_text(bytes@.subrange(0, i as int)),
        decreases bytes@.len() - i,
    {
        let b = bytes[i];
        let ghost before = r@;
        r.append(hex_str(b / 16));
        r.append(hex_str(b % 16));
        assert(bytes@.subrange(0, i + 1).drop_last() =~= bytes@.subrange(0, i as int));
        assert(r@ =~= before + seq![hex_char((b / 16) as nat), hex_char((b % 16) as nat)]);
        i = i + 1;
    }
    assert(bytes@.subrange(0, bytes@.len() as int) =~= bytes@);
    r
}

/// The identifier kept for a sender in place of its address: the SHA-256 digest
/// of the address's bytes followed by the salt's, in lower-case hexadecimal.
pub fn hash_ip(ip: &str, salt: &str) -> (r: String)
    ensures
        r@ == hex_text(sha256_of(encode_utf8(ip@) + encode_utf8(salt@))),
{
    let a = ip.as_bytes();
    let b = salt.as_bytes();
    let mut data: Vec<u8> = Vec::new();
    let mut i: usize = 0;
    while i < a.len()
        invariant
            i <= a@.len(),
            data@ == a@.subrange(0, i as int),
        decreases a@.len() - i,
    {
        data.push(a[i]);
        i = i + 1;
    }
    let mut j: usize = 0;
    while j < b.len()
        invariant
            j <= b@.len(),
            data@ == a@ + b@.subrange(0, j as int),
        decreases b@.len() - j,
    {
        data.push(b[j]);
        assert(a@ + b@.subrange(0, j + 1) =~= (a@ + b@.subrange(0, j as int)).push(b@[j as int]));
        j = j + 1;
    }
    assert(a@.subrange(0, a@.len() as int) =~= a@);
    assert(b@.subrange(0, b@.len() as int) =~= b@);
    let digest = sha256_digest(data.as_slice());
    to_hex(digest.as_slice())
}

/// Texts of the notification email.
pub const SUBJECT_PREFIX: &'static str = "[Portfolio Contact] ";
pub const DEFAULT_SUBJECT: &'static str = "New message from portfolio";
pub const NO_SUBJECT: &'static str = "(no subject)";
pub const BODY_HEAD: &'static str = "New contact form submission from your portfolio:\n\nFrom: ";
pub const BODY_SUBJECT: &'static str = ">\nSubject: ";
pub const BODY_MESSAGE: &'static str = "\n\nMessage:\n";
pub const BODY_TAIL: &'static str = "\n\n---\nThis email was sent from the contact form at kovacs.pilgrim.ovh\n";

/// The subject line of the notification for a submission with `subject`.
pub fn notification_subject(subject: Option<&str>) -> (r: String)
    ensures
        r@ == SUBJECT_PREFIX@ + match subject {
            Some(s) => s@,
            None => DEFAULT_SUBJECT@,
        },
{
    let mut r = owned(SUBJECT_PREFIX);
    match subject {
        Some(s) => r.append(s),
        None => r.append(DEFAULT_SUBJECT),
    }
    r
}

/// The body of the notification for a submission.
pub fn notification_body(name: &str, email: &str, subject: Option<&str>, message: &str) -> (r: String)
    ensures
        r@ == BODY_HEAD@ + name@ + " <"@ + email@ + BODY_SUBJECT@ + match subject {
            Some(s) => s@,
            None => NO_SUBJECT@,
        } + BODY_MESSAGE@ + message@ + BODY_TAIL@,
{
    let mut r = owned(BODY_HEAD);
    r.append(name);
    r.append(" <");
    r.append(email);
    r.append(BODY_SUBJECT);
    match subject {
        Some(s) => r.append(s),
        None => r.append(NO_SUBJECT),
    }
    r.append(BODY_MESSAGE);
    r.append(message);
    r.append(BODY_TAIL);
    r
}

/// Port used when none is configured.
pub const DEFAULT_SMTP_PORT: u16 = 587;
pub const DEFAULT_FROM_ADDRESS: &'static str = "noreply@pilgrim.ovh";
pub const DEFAULT_TO_ADDRESS: &'static str = "kovacs@pilgrim.ovh";

/// How notifications are sent.
pub struct EmailConfig {
    pub smtp_host: String,
    pub smtp_port: u16,
    pub smtp_user: String,
    pub smtp_password: String,
    pub from_address: String,
    pub to_address: String,
}

impl EmailConfig {
    /// The configuration from the settings given: none without a host, a user
    /// and a password; the default port and addresses where those are not set.
    pub fn from_settings(
        smtp_host: Option<String>,
        smtp_port: Option<u16>,
        smtp_user: Option<String>,
        smtp_password: Option<String>,
        from_address: Option<String>,
        to_address: Option<String>,
    ) -> (r: Option<EmailConfig>)
        ensures
            r is Some <==> smtp_host is Some && smtp_user is Some && smtp_password is Some,
            r is Some ==> {
                let c = r->0;
                &&& c.smtp_host == smtp_host->0
                &&& c.smtp_user == smtp_user->0
                &&& c.smtp_password == smtp_password->0
                &&& c.smtp_port == match smtp_port {
                    Some(p) => p,
                    None => DEFAULT_SMTP_PORT,
                }
                &&& c.from_address@ == match from_address {
                    Some(a) => a@,
                    None => DEFAULT_FROM_ADDRESS@,
                }
                &&& c.to_address@ == match to_address {
                    Some(a) => a@,
                    None => DEFAULT_TO_ADDRESS@,
                }
            },
    {
        match (smtp_host, smtp_user, smtp_password) {
            (Some(smtp_host), Some(smtp_user), Some(smtp_password)) => Some(
                EmailConfig {
                    smtp_host,
                    smtp_port: match smtp_port {
                        Some(p) => p,
                        None => DEFAULT_SMTP_PORT,
                    },
                    smtp_user,
                    smtp_password,
                    from_address: match from_address {
                        Some(a) => a,
                        None => owned(DEFAULT_FROM_ADDRESS),
                    },
                    to_address: match to_address {
                        Some(a) => a,
                        None => owned(DEFAULT_TO_ADDRESS),
                    },
                },
            ),
            _ => None,
        }
    }
}

} // verus!
