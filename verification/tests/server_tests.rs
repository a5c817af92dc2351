//! Tests of the server's checks: profile text, bans, tokens and passwords.

use taptime::access::{
    ban_message, client_ip, expiry_accepted, ip_matches_target, prefix_mask_v4, prefix_mask_v6, AccessConfig, BanTarget,
    Cidr, IpAddress,
};
use taptime::error::Error;
use taptime::password::{check_admin_login, hash_password, verify_password, AdminLoginError, PasswordError};
use taptime::profile::{
    clean_optional_text, is_valid_email, normalize_profile, normalize_reason, uid_bytes_from_proto, ProfileError,
};
use taptime::text::{same_text, trim};
use taptime::token::{
    admin_claims, bearer_token, check_admin_claims, user_claims, user_id_of_claims, AuthInterceptor,
    AuthorizationHeader, TokenError,
};

#[test]
fn clean_optional_text_trims_and_clears_empty_values() {
    assert_eq!(clean_optional_text(Some("  Acme  ".into())), Some("Acme".into()));
    assert_eq!(clean_optional_text(Some("   ".into())), None);
    assert_eq!(clean_optional_text(None), None);
}

#[test]
fn normalize_profile_trims_fields_and_requires_valid_identity() {
    let profile =
        normalize_profile("  Jane  ".into(), "  jane@example.com  ".into(), Some("  Acme  ".into())).unwrap();
    assert_eq!(profile.name, "Jane");
    assert_eq!(profile.email, "jane@example.com");
    assert_eq!(profile.organization, Some("Acme".into()));

    assert!(normalize_profile("".into(), "jane@example.com".into(), None).is_err());
    assert!(normalize_profile("Jane".into(), "not-email".into(), None).is_err());
    assert!(normalize_profile("Jane".into(), "jane@localhost".into(), None).is_err());
    assert!(normalize_profile("Jane".into(), "jane @example.com".into(), None).is_err());
}

#[test]
fn uid_bytes_from_proto_accepts_supported_lengths() {
    assert_eq!(uid_bytes_from_proto(Some(vec![0xA1, 0xB2, 0xC3, 0xD4])).unwrap(), Some(vec![0xA1, 0xB2, 0xC3, 0xD4]));
    assert!(uid_bytes_from_proto(Some(vec![1, 2, 3])).is_err());
    assert_eq!(uid_bytes_from_proto(None).unwrap(), None);
}

#[test]
fn profile_errors_say_what_is_wrong() {
    assert_eq!(normalize_profile("  ".into(), "a@b.c".into(), None).unwrap_err(), ProfileError::MissingIdentity);
    assert_eq!(normalize_profile("Jo".into(), " ".into(), None).unwrap_err(), ProfileError::MissingIdentity);
    assert_eq!(normalize_profile("Jo".into(), "a@@b.c".into(), None).unwrap_err(), ProfileError::InvalidEmail);
    assert!(matches!(uid_bytes_from_proto(Some(vec![0; 5])), Err(Error::InvalidUidLength(5))));
}

#[test]
fn email_shapes() {
    assert!(is_valid_email("a@b.c"));
    assert!(is_valid_email("first.last@sub.example.org"));
    assert!(!is_valid_email("@b.c"));
    assert!(!is_valid_email("a@"));
    assert!(!is_valid_email("a@.bc"));
    assert!(!is_valid_email("a@bc."));
    assert!(!is_valid_email("a@b@c.d"));
    assert!(!is_valid_email("a@b.c\t"));
    assert!(!is_valid_email("abc"));
}

#[test]
fn ban_reasons_and_messages_are_trimmed() {
    assert_eq!(normalize_reason("  abuse \n".into()), "abuse");
    assert_eq!(ban_message("IP address banned", "  spam  "), "IP address banned: spam");
    assert_eq!(ban_message("Account banned", "   "), "Account banned");
}

#[test]
fn cidr_matching_handles_single_ips_and_networks() {
    let ip = IpAddress::V4(0x0A00_002A);
    let net = Cidr::from_parts(IpAddress::V4(0x0A00_0000), 24).unwrap();
    assert!(ip_matches_target(ip, BanTarget::Network(net)));
    assert!(ip_matches_target(ip, BanTarget::Address(IpAddress::V4(0x0A00_002A))));
    let other = Cidr::from_parts(IpAddress::V4(0x0A00_0100), 24).unwrap();
    assert!(!ip_matches_target(ip, BanTarget::Network(other)));
    assert!(!ip_matches_target(ip, BanTarget::Unreadable));
    assert!(!ip_matches_target(IpAddress::V6(0x2A), BanTarget::Network(net)));
    assert!(Cidr::from_parts(IpAddress::V4(0), 33).is_none());
    assert!(Cidr::from_parts(IpAddress::V6(0), 128).is_some());
}

#[test]
fn prefix_masks_keep_the_leading_bits() {
    assert_eq!(prefix_mask_v4(0), 0);
    assert_eq!(prefix_mask_v4(24), 0xFFFF_FF00);
    assert_eq!(prefix_mask_v4(32), 0xFFFF_FFFF);
    assert_eq!(prefix_mask_v6(0), 0);
    assert_eq!(prefix_mask_v6(64), 0xFFFF_FFFF_FFFF_FFFF_0000_0000_0000_0000);
    assert_eq!(prefix_mask_v6(128), u128::MAX);
}

#[test]
fn admin_token_roundtrip_and_user_token_rejected_for_admin() {
    let now = 1_700_000_000i64;
    let admin = admin_claims(now, now + 8 * 3600);
    assert!(admin.exp > admin.iat);
    assert!(check_admin_claims(&admin).is_ok());

    let id = uuid::Uuid::new_v4().as_u128();
    let user = user_claims(id, now);
    assert_eq!(check_admin_claims(&user), Err(TokenError::NotAdmin));
    assert_eq!(user_id_of_claims(&user), Ok(id));
    assert_eq!(user.exp - user.iat, 30 * 24 * 3600);
    assert_eq!(user.sub, uuid::Uuid::from_u128(id).to_string());
    assert_eq!(user_id_of_claims(&admin), Err(TokenError::InvalidSubject));
}

#[test]
fn bearer_headers() {
    assert_eq!(bearer_token(&AuthorizationHeader::Text("Bearer abc.def".into())), Ok("abc.def".to_string()));
    assert_eq!(bearer_token(&AuthorizationHeader::Text("Basic abc".into())), Err(TokenError::ExpectedBearer));
    assert_eq!(bearer_token(&AuthorizationHeader::Text("Bearer".into())), Err(TokenError::ExpectedBearer));
    assert_eq!(bearer_token(&AuthorizationHeader::Missing), Err(TokenError::MissingHeader));
    assert_eq!(bearer_token(&AuthorizationHeader::Unreadable), Err(TokenError::InvalidHeaderEncoding));
    let interceptor = AuthInterceptor::new("s3cret".to_string());
    assert_eq!(interceptor.jwt_secret(), "s3cret");
}

#[test]
fn password_hash_verifies_only_its_password() {
    let hash = hash_password("correct horse").unwrap();
    assert!(hash.starts_with("$argon2"));
    assert_eq!(verify_password("correct horse", &hash), Ok(()));
    assert_eq!(verify_password("wrong horse", &hash), Err(PasswordError::Mismatch));
    assert_eq!(verify_password("correct horse", "not a hash"), Err(PasswordError::MalformedHash));
    assert_eq!(hash_password(""), Err(PasswordError::Empty));
}

#[test]
fn trimming_is_stable() {
    let once = trim("\u{2003} \tname \n");
    assert_eq!(once, "name");
    assert_eq!(trim(&once), once);
    assert_eq!(trim("   "), "");
    assert!(same_text("abc", "abc"));
    assert!(!same_text("abc", "abd"));
}

#[test]
fn administrator_login() {
    let hash = hash_password("admin pw").unwrap();
    assert_eq!(check_admin_login(Some(hash.clone()), "admin pw"), Ok(()));
    assert_eq!(check_admin_login(Some(hash.clone()), "guess"), Err(AdminLoginError::Mismatch));
    assert_eq!(check_admin_login(Some(format!("  {}\n", hash)), "admin pw"), Ok(()));
    assert_eq!(check_admin_login(Some("plain text".to_string()), "admin pw"), Err(AdminLoginError::MalformedHash));
    assert_eq!(check_admin_login(None, "admin pw"), Err(AdminLoginError::Disabled));
    assert_eq!(check_admin_login(Some("   ".to_string()), "admin pw"), Err(AdminLoginError::Disabled));
    assert_eq!(check_admin_login(Some(String::new()), "admin pw"), Err(AdminLoginError::Disabled));
}

#[test]
fn client_ip_prefers_forwarded_only_when_trusted() {
    let forwarded = Some(IpAddress::V4(0x0A00_0001));
    let peer = Some(IpAddress::V6(1));
    let trusted = AccessConfig { trust_proxy_headers: true };
    let direct = AccessConfig { trust_proxy_headers: false };
    assert_eq!(client_ip(trusted, forwarded, peer), forwarded);
    assert_eq!(client_ip(trusted, None, peer), peer);
    assert_eq!(client_ip(direct, forwarded, peer), peer);
    assert_eq!(client_ip(direct, forwarded, None), None);
}

#[test]
fn ban_expiry_must_be_in_the_future() {
    let now = (1_700_000_000, 500);
    assert!(expiry_accepted(None, now));
    assert!(expiry_accepted(Some((1_700_000_001, 0)), now));
    assert!(expiry_accepted(Some((1_700_000_000, 501)), now));
    assert!(!expiry_accepted(Some((1_700_000_000, 500)), now));
    assert!(!expiry_accepted(Some((1_699_999_999, 999_999_999)), now));
}

#[test]
fn user_token_subject_is_hyphenated_lower_hex() {
    let user = user_claims(0xa1a2a3a4b1b2c1c2d1d2d3d4d5d6d7d8, 0);
    assert_eq!(user.sub, "a1a2a3a4-b1b2-c1c2-d1d2-d3d4d5d6d7d8");
    assert_eq!(user_claims(0, 0).sub, "00000000-0000-0000-0000-000000000000");
}
