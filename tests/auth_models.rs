use lala_agent::auth::{anonymize_email, MagicLinkToken, UserRole, UserStatus};
use lala_agent::config::{AuthConfig, AuthError};
use lala_agent::api::SESSION_COOKIE_NAME;

#[test]
fn test_user_status_roundtrip() {
    assert_eq!(
        UserStatus::parse(UserStatus::Active.as_str()),
        Some(UserStatus::Active)
    );
    assert_eq!(
        UserStatus::parse(UserStatus::Suspended.as_str()),
        Some(UserStatus::Suspended)
    );
    assert_eq!(
        UserStatus::parse(UserStatus::Deleted.as_str()),
        Some(UserStatus::Deleted)
    );
}

#[test]
fn test_user_status_invalid() {
    assert_eq!(UserStatus::parse("invalid"), None);
}

#[test]
fn test_user_role_roundtrip() {
    assert_eq!(
        UserRole::parse(UserRole::Owner.as_str()),
        Some(UserRole::Owner)
    );
    assert_eq!(
        UserRole::parse(UserRole::Admin.as_str()),
        Some(UserRole::Admin)
    );
    assert_eq!(
        UserRole::parse(UserRole::Member.as_str()),
        Some(UserRole::Member)
    );
}

#[test]
fn test_user_role_invalid() {
    assert_eq!(UserRole::parse("superadmin"), None);
}

#[test]
fn test_role_permissions() {
    assert!(UserRole::Owner.can_invite());
    assert!(UserRole::Owner.can_manage_settings());
    assert!(UserRole::Owner.can_remove_members());

    assert!(UserRole::Admin.can_invite());
    assert!(UserRole::Admin.can_manage_settings());
    assert!(UserRole::Admin.can_remove_members());

    assert!(!UserRole::Member.can_invite());
    assert!(!UserRole::Member.can_manage_settings());
    assert!(!UserRole::Member.can_remove_members());
}

#[test]
fn test_user_status_parse_valid() {
    assert_eq!(UserStatus::parse("active"), Some(UserStatus::Active));
    assert_eq!(UserStatus::parse("suspended"), Some(UserStatus::Suspended));
    assert_eq!(UserStatus::parse("deleted"), Some(UserStatus::Deleted));
}

#[test]
fn test_user_status_parse_invalid() {
    assert_eq!(UserStatus::parse("unknown"), None);
    assert_eq!(UserStatus::parse(""), None);
}

#[test]
fn test_user_status_as_str_roundtrip() {
    for status in [
        UserStatus::Active,
        UserStatus::Suspended,
        UserStatus::Deleted,
    ] {
        let s = status.as_str();
        assert_eq!(UserStatus::parse(s), Some(status));
    }
}

#[test]
fn test_user_role_parse_valid() {
    assert_eq!(UserRole::parse("owner"), Some(UserRole::Owner));
    assert_eq!(UserRole::parse("admin"), Some(UserRole::Admin));
    assert_eq!(UserRole::parse("member"), Some(UserRole::Member));
}

#[test]
fn test_user_role_parse_invalid() {
    assert_eq!(UserRole::parse("superuser"), None);
    assert_eq!(UserRole::parse(""), None);
}

#[test]
fn test_user_role_as_str_roundtrip() {
    for role in [UserRole::Owner, UserRole::Admin, UserRole::Member] {
        let s = role.as_str();
        assert_eq!(UserRole::parse(s), Some(role));
    }
}

#[test]
fn test_role_permissions_owner() {
    let role = UserRole::Owner;
    assert!(role.can_invite());
    assert!(role.can_manage_settings());
    assert!(role.can_remove_members());
}

#[test]
fn test_role_permissions_admin() {
    let role = UserRole::Admin;
    assert!(role.can_invite());
    assert!(role.can_manage_settings());
    assert!(role.can_remove_members());
}

#[test]
fn test_role_permissions_member() {
    let role = UserRole::Member;
    assert!(!role.can_invite());
    assert!(!role.can_manage_settings());
    assert!(!role.can_remove_members());
}

#[test]
fn test_magic_link_validity() {
    let future_timestamp = chrono::Utc::now().timestamp_millis() + 3600000;

    let valid_token = MagicLinkToken {
        token: "test".to_string(),
        email: "test@example.com".to_string(),
        tenant_id: None,
        redirect_url: None,
        created_at: 0,
        expires_at: future_timestamp,
        used: false,
    };
    assert!(valid_token.is_valid());

    let used_token = MagicLinkToken {
        token: "test".to_string(),
        email: "test@example.com".to_string(),
        tenant_id: None,
        redirect_url: None,
        created_at: 0,
        expires_at: future_timestamp,
        used: true,
    };
    assert!(!used_token.is_valid());

    let expired_token = MagicLinkToken {
        token: "test".to_string(),
        email: "test@example.com".to_string(),
        tenant_id: None,
        redirect_url: None,
        created_at: 0,
        expires_at: 0,
        used: false,
    };
    assert!(!expired_token.is_valid());
}

#[test]
fn magic_link_validity_at_fixed_times() {
    let token = MagicLinkToken {
        token: "t".to_string(),
        email: "a@b.c".to_string(),
        tenant_id: None,
        redirect_url: None,
        created_at: 0,
        expires_at: 1000,
        used: false,
    };
    assert!(token.is_valid_at(1000));
    assert!(!token.is_valid_at(1001));
    assert!(token.is_expired_at(1001));
    assert!(!token.is_expired_at(999));
}

#[test]
fn test_anonymize_email() {
    assert_eq!(anonymize_email("alice@example.com"), "a***@example.com");
    assert_eq!(anonymize_email("bob@test.org"), "b***@test.org");
}

#[test]
fn test_anonymize_email_single_char() {
    assert_eq!(anonymize_email("x@example.com"), "x***@example.com");
}

#[test]
fn test_anonymize_email_empty_local() {
    assert_eq!(anonymize_email("@example.com"), "***@example.com");
}

#[test]
fn test_anonymize_email_no_at() {
    assert_eq!(anonymize_email("notanemail"), "***@***");
}

#[test]
fn anonymize_email_splits_at_first_at_sign() {
    assert_eq!(anonymize_email("éa@b@c"), "é***@b@c");
}

#[test]
fn test_session_cookie_name() {
    assert_eq!(SESSION_COOKIE_NAME, "lala_session");
}

#[test]
fn test_auth_error_status_codes() {
    assert_eq!(AuthError::MissingSession.status_code(), 401);
    assert_eq!(AuthError::InvalidSession.status_code(), 401);
    assert_eq!(AuthError::InsufficientPermissions.status_code(), 403);
    assert_eq!(AuthError::InternalError("test".to_string()).status_code(), 500);
}

#[test]
fn auth_config_defaults() {
    let config = AuthConfig::defaults();
    assert_eq!(config.session_max_age_days, 365);
    assert_eq!(config.magic_link_expiry_minutes, 15);
    assert_eq!(config.invitation_expiry_days, 7);
}

#[test]
fn token_expired_before_1970_is_expired_by_the_clock() {
    let token = MagicLinkToken {
        token: "t".to_string(),
        email: "a@b.c".to_string(),
        tenant_id: None,
        redirect_url: None,
        created_at: 0,
        expires_at: -1,
        used: false,
    };
    assert!(token.is_expired());
    assert!(!token.is_valid());
}
