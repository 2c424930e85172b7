//! Settings read at startup, held as plain values; reading the environment
//! is the caller's work.
use vstd::prelude::*;
use vstd::string::*;
use crate::text::{chars_of, string_of_range, trim_range, trimmed};

verus! {

/// The pieces of `s` between commas, in order (one piece when there is no
/// comma).
pub open spec fn split_commas(s: Seq<char>) -> Seq<Seq<char>>
    decreases s.len(),
{
    if s.len() == 0 {
        seq![Seq::<char>::empty()]
    } else {
        let p = split_commas(s.drop_last());
        if s.last() == ',' {
            p.push(Seq::<char>::empty())
        } else {
            p.update(p.len() - 1, p.last().push(s.last()))
        }
    }
}

proof fn lemma_split_nonempty(s: Seq<char>)
    ensures
        split_commas(s).len() >= 1,
    decreases s.len(),
{
    if s.len() > 0 {
        lemma_split_nonempty(s.drop_last());
    }
}

/// Database connection settings.
#[derive(Debug)]
pub struct CassandraConfig {
    pub hosts: Vec<String>,
    pub keyspace: String,
}

/// The contact points of a comma-separated host list, each trimmed.
pub fn parse_hosts(list: &str) -> (r: Vec<String>)
    ensures
        r@.len() == split_commas(list@).len(),
        forall|i: int| 0 <= i < r@.len() ==> #[trigger] r@[i]@ == trimmed(split_commas(list@)[i]),
{
    let c = chars_of(list);
    let mut out: Vec<String> = Vec::new();
    let mut start: usize = 0;
    let mut i: usize = 0;
    proof {
        assert(c@.take(0) =~= Seq::<char>::empty());
    }
    while i < c.len()
        invariant
            start <= i <= c.len(),
            c@ == list@,
            split_commas(c@.take(i as int)).len() == out@.len() + 1,
            forall|k: int|
                0 <= k < out@.len() ==> #[trigger] out@[k]@ == trimmed(
                    split_commas(c@.take(i as int))[k],
                ),
            split_commas(c@.take(i as int)).last() == c@.subrange(start as int, i as int),
        decreases c.len() - i,
    {
        proof {
            assert(c@.take(i + 1).drop_last() =~= c@.take(i as int));
            assert(c@.take(i + 1).last() == c@[i as int]);
            lemma_split_nonempty(c@.take(i as int));
        }
        if c[i] == ',' {
            let (a, b) = trim_range(&c, start, i);
            out.push(string_of_range(&c, a, b));
            start = i + 1;
            proof {
                assert(c@.subrange(start as int, i + 1) =~= Seq::<char>::empty());
            }
        } else {
            proof {
                assert(c@.subrange(start as int, i + 1) =~= c@.subrange(start as int, i as int).push(
                    c@[i as int],
                ));
            }
        }
        i = i + 1;
    }
    proof {
        assert(c@.take(i as int) =~= c@);
    }
    let (a, b) = trim_range(&c, start, i);
    out.push(string_of_range(&c, a, b));
    out
}

/// `s` begins with `p`.
pub open spec fn has_prefix(s: Seq<char>, p: Seq<char>) -> bool {
    p.len() <= s.len() && s.take(p.len() as int) == p
}

fn starts_with(s: &Vec<char>, p: &str) -> (r: bool)
    ensures
        r == has_prefix(s@, p@),
{
    let pc = chars_of(p);
    if pc.len() > s.len() {
        return false;
    }
    let mut i: usize = 0;
    while i < pc.len()
        invariant
            i <= pc.len() <= s.len(),
            pc@ == p@,
            forall|k: int| 0 <= k < i ==> s@[k] == pc@[k],
        decreases pc.len() - i,
    {
        if s[i] != pc[i] {
            assert(s@.take(pc.len() as int)[i as int] != pc@[i as int]);
            return false;
        }
        i = i + 1;
    }
    assert(s@.take(pc.len() as int) =~= pc@);
    true
}

/// The base URL of the search service: a bare `host:port` gets `http://`.
pub fn search_base_url(host: &str) -> (r: String)
    ensures
        r@ == if has_prefix(host@, "http://"@) || has_prefix(host@, "https://"@) {
            host@
        } else {
            "http://"@ + host@
        },
{
    let c = chars_of(host);
    if starts_with(&c, "http://") || starts_with(&c, "https://") {
        String::from_str(host)
    } else {
        String::from_str("http://").concat(host)
    }
}

/// Object store settings; bodies longer than `compress_min_size` bytes are
/// gzip-compressed when `compress_content` is set.
#[derive(Debug)]
pub struct S3Config {
    pub endpoint: String,
    pub region: String,
    pub bucket: String,
    pub access_key: String,
    pub secret_key: String,
    pub compress_content: bool,
    pub compress_min_size: usize,
}

/// Outgoing mail settings.
#[derive(Debug)]
pub struct EmailConfig {
    pub smtp_host: String,
    pub smtp_port: u16,
    pub smtp_username: String,
    pub smtp_password: String,
    pub smtp_tls: bool,
    pub from_email: String,
    pub from_name: String,
    pub app_base_url: String,
    pub magic_link_expiry_minutes: u64,
    pub invitation_expiry_days: u64,
}

/// Lifetimes of sessions, sign-in links and invitations.
#[derive(Debug)]
pub struct AuthConfig {
    pub session_max_age_days: u64,
    pub magic_link_expiry_minutes: u64,
    pub invitation_expiry_days: u64,
}

impl AuthConfig {
    /// A year of session, a quarter hour of sign-in link, a week of
    /// invitation.
    pub fn defaults() -> (r: Self)
        ensures
            r.session_max_age_days == 365,
            r.magic_link_expiry_minutes == 15,
            r.invitation_expiry_days == 7,
    {
        AuthConfig { session_max_age_days: 365, magic_link_expiry_minutes: 15, invitation_expiry_days: 7 }
    }
}

/// Why an authenticated request was refused.
#[derive(Debug)]
pub enum AuthError {
    MissingSession,
    InvalidSession,
    InsufficientPermissions,
    InternalError(String),
}

impl AuthError {
    /// HTTP status of the refusal.
    pub fn status_code(&self) -> (r: u16)
        ensures
            r == match *self {
                AuthError::MissingSession | AuthError::InvalidSession => 401u16,
                AuthError::InsufficientPermissions => 403u16,
                AuthError::InternalError(_) => 500u16,
            },
    {
        match self {
            AuthError::MissingSession | AuthError::InvalidSession => 401,
            AuthError::InsufficientPermissions => 403,
            AuthError::InternalError(_) => 500,
        }
    }

    /// Message shown to the client; internal details are not disclosed.
    pub fn message(&self) -> (r: &'static str)
        ensures
            r@ == match *self {
                AuthError::MissingSession => "Authentication required"@,
                AuthError::InvalidSession => "Invalid or expired session"@,
                AuthError::InsufficientPermissions => "Insufficient permissions"@,
                AuthError::InternalError(_) => "Internal server error"@,
            },
    {
        match self {
            AuthError::MissingSession => "Authentication required",
            AuthError::InvalidSession => "Invalid or expired session",
            AuthError::InsufficientPermissions => "Insufficient permissions",
            AuthError::InternalError(_) => "Internal server error",
        }
    }
}

} // verus!
