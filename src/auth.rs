//! Account models shared with the authentication subsystem: user status,
//! organisation roles and their permissions, sign-in tokens, and the
//! redaction of e-mail addresses in logs.
use vstd::prelude::*;
use vstd::string::*;
use crate::text::{chars_of, find_ci, first_ci, str_eq, string_of_range};

verus! {

/// Status of a user account.
#[derive(Debug, Clone, Copy, PartialEq, Eq, Structural)]
pub enum UserStatus {
    Active,
    Suspended,
    Deleted,
}

impl UserStatus {
    pub open spec fn name(self) -> Seq<char> {
        match self {
            UserStatus::Active => "active"@,
            UserStatus::Suspended => "suspended"@,
            UserStatus::Deleted => "deleted"@,
        }
    }

    pub fn as_str(&self) -> (r: &'static str)
        ensures
            r@ == self.name(),
    {
        match self {
            UserStatus::Active => "active",
            UserStatus::Suspended => "suspended",
            UserStatus::Deleted => "deleted",
        }
    }

    /// The status a stored word names; `None` for any other word.
    pub fn parse(s: &str) -> (r: Option<Self>)
        ensures
            match r {
                Some(st) => st.name() == s@,
                None => forall|st: UserStatus| st.name() != s@,
            },
    {
        if str_eq(s, "active") {
            Some(UserStatus::Active)
        } else if str_eq(s, "suspended") {
            Some(UserStatus::Suspended)
        } else if str_eq(s, "deleted") {
            Some(UserStatus::Deleted)
        } else {
            None
        }
    }
}

/// Role of a user within an organisation.
#[derive(Debug, Clone, Copy, PartialEq, Eq, Structural)]
pub enum UserRole {
    /// Can delete the organisation, transfer ownership, manage everything.
    Owner,
    /// Can manage members and settings, and invite users.
    Admin,
    /// Can search and view data.
    Member,
}

impl UserRole {
    pub open spec fn name(self) -> Seq<char> {
        match self {
            UserRole::Owner => "owner"@,
            UserRole::Admin => "admin"@,
            UserRole::Member => "member"@,
        }
    }

    /// Owners and admins manage the organisation.
    pub open spec fn manages(self) -> bool {
        self == UserRole::Owner || self == UserRole::Admin
    }

    pub fn as_str(&self) -> (r: &'static str)
        ensures
            r@ == self.name(),
    {
        match self {
            UserRole::Owner => "owner",
            UserRole::Admin => "admin",
            UserRole::Member => "member",
        }
    }

    pub fn parse(s: &str) -> (r: Option<Self>)
        ensures
            match r {
                Some(role) => role.name() == s@,
                None => forall|role: UserRole| role.name() != s@,
            },
    {
        if str_eq(s, "owner") {
            Some(UserRole::Owner)
        } else if str_eq(s, "admin") {
            Some(UserRole::Admin)
        } else if str_eq(s, "member") {
            Some(UserRole::Member)
        } else {
            None
        }
    }

    pub fn can_invite(&self) -> (r: bool)
        ensures
            r == self.manages(),
    {
        match self {
            UserRole::Owner | UserRole::Admin => true,
            UserRole::Member => false,
        }
    }

    pub fn can_manage_settings(&self) -> (r: bool)
        ensures
            r == self.manages(),
    {
        match self {
            UserRole::Owner | UserRole::Admin => true,
            UserRole::Member => false,
        }
    }

    pub fn can_remove_members(&self) -> (r: bool)
        ensures
            r == self.manages(),
    {
        match self {
            UserRole::Owner | UserRole::Admin => true,
            UserRole::Member => false,
        }
    }
}

/// Reading back the stored word of a status or role gives it back.
pub proof fn lemma_names_round_trip(a: UserStatus, b: UserStatus, c: UserRole, d: UserRole)
    ensures
        a.name() == b.name() ==> a == b,
        c.name() == d.name() ==> c == d,
{
    reveal_strlit("active");
    reveal_strlit("suspended");
    reveal_strlit("deleted");
    reveal_strlit("owner");
    reveal_strlit("admin");
    reveal_strlit("member");
    assert("active"@.len() == 6 && "suspended"@.len() == 9 && "deleted"@.len() == 7);
    assert("owner"@.len() == 5 && "admin"@.len() == 5 && "member"@.len() == 6);
    assert("owner"@[0] != "admin"@[0]);
}

/// Relies on `std::time::SystemTime::now`, read as whole milliseconds since
/// the Unix epoch; `None` when the clock reads before 1970 or too far ahead
/// for an `i64`.
#[verifier::external_body]
pub(crate) fn now_millis() -> (r: Option<i64>)
    ensures
        r matches Some(t) ==> t >= 0,
{
    let since = std::time::SystemTime::now().duration_since(std::time::UNIX_EPOCH).ok()?;
    i64::try_from(since.as_millis()).ok()
}

/// A sign-in token as stored (its hash, not the token itself).
#[derive(Debug)]
pub struct MagicLinkToken {
    pub token: String,
    pub email: String,
    pub tenant_id: Option<String>,
    pub redirect_url: Option<String>,
    pub created_at: i64,
    pub expires_at: i64,
    pub used: bool,
}

impl MagicLinkToken {
    pub fn is_expired_at(&self, now_ms: i64) -> (r: bool)
        ensures
            r == (self.expires_at < now_ms),
    {
        self.expires_at < now_ms
    }

    /// Whether the token has expired by the clock now; a clock that cannot
    /// be read counts the token as expired.
    pub fn is_expired(&self) -> (r: bool)
        ensures
            self.expires_at < 0 ==> r,
    {
        match now_millis() {
            Some(now) => self.is_expired_at(now),
            None => true,
        }
    }

    /// A token can be used once, before it expires.
    pub fn is_valid_at(&self, now_ms: i64) -> (r: bool)
        ensures
            r == (!self.used && now_ms <= self.expires_at),
    {
        !self.used && !self.is_expired_at(now_ms)
    }

    /// Whether the token is unused and unexpired by the clock now. A used
    /// token is never valid, nor is any token when the clock cannot be read
    /// or reads before 1970.
    pub fn is_valid(&self) -> (r: bool)
        ensures
            r ==> !self.used && 0 <= self.expires_at,
    {
        match now_millis() {
            Some(now) => now >= 0 && self.is_valid_at(now),
            None => false,
        }
    }
}

/// An address with its local part hidden: the first character of the local
/// part, `***`, and the domain; `***@***` for text without `@`.
pub open spec fn anonymized(email: Seq<char>) -> Seq<char> {
    match first_ci(email, "@"@, 0) {
        None => "***@***"@,
        Some(i) => if i == 0 {
            "***@"@ + email.skip(1)
        } else {
            email.take(1) + "***@"@ + email.skip(i + 1)
        },
    }
}

/// Redacts an e-mail address for logs.
pub fn anonymize_email(email: &str) -> (r: String)
    ensures
        r@ == anonymized(email@),
{
    let c = chars_of(email);
    let at = chars_of("@");
    proof {
        reveal_strlit("@");
    }
    match find_ci(&c, &at, 0) {
        None => String::from_str("***@***"),
        Some(i) => {
            proof {
                assert(at@.len() == 1);
                assert(crate::text::matches_at(c@, at@, i as int));
                assert(i + 1 <= c.len());
            }
            let domain = string_of_range(&c, i + 1, c.len());
            if i == 0 {
                String::from_str("***@").concat(domain.as_str())
            } else {
                let first = string_of_range(&c, 0, 1);
                first.concat("***@").concat(domain.as_str())
            }
        },
    }
}

} // verus!
