use jsonwebtoken::{decode, Algorithm, DecodingKey, Validation};
use telemetry_core::{
    add_account, claims_for, credential_verdict, generate_token, login_at, login_logic, register_logic,
    AccountStore, AuthConfig, AuthError, AuthRequest, Role, TOKEN_LIFETIME_SECS,
};

const SECRET: &[u8] = b"test-signing-secret";

fn config() -> AuthConfig {
    AuthConfig { default_role: "operator".to_string(), hash_cost: 4, secret: SECRET.to_vec() }
}

fn roles() -> Vec<Role> {
    vec![
        Role { id: 1, role_name: "operator".to_string() },
        Role { id: 2, role_name: "admin".to_string() },
    ]
}

fn request(username: &str, password: &str) -> AuthRequest {
    AuthRequest {
        username: username.to_string(),
        password: password.to_string(),
        full_name: Some("Alice Smith".to_string()),
        email: Some("alice@example.com".to_string()),
        phone_number: None,
        organization: Some("NOC".to_string()),
    }
}

fn claims(token: &str) -> serde_json::Value {
    decode::<serde_json::Value>(token, &DecodingKey::from_secret(SECRET), &Validation::new(Algorithm::HS256))
        .unwrap()
        .claims
}

fn now() -> i64 {
    chrono::Utc::now().timestamp()
}

#[test]
fn register_creates_profile_account_and_token() {
    let mut s = AccountStore::new(roles());
    let before = now();
    let t = register_logic(&mut s, &config(), &request("alice", "pw1")).unwrap();
    assert_eq!(s.users.len(), 1);
    assert_eq!(s.user_infos.len(), 1);
    assert_eq!(s.users[0].username, "alice");
    assert_eq!(s.users[0].role_id, Some(1));
    assert_eq!(s.users[0].user_info_id, Some(1));
    assert_ne!(s.users[0].password_hash, "pw1");
    assert_eq!(s.user_infos[0].full_name, "Alice Smith");
    assert_eq!(s.user_infos[0].organization, Some("NOC".to_string()));
    let c = claims(&t.token);
    assert_eq!(c["sub"], "alice");
    assert_eq!(c["role"], "operator");
    let exp = c["exp"].as_i64().unwrap();
    assert!(exp >= before + 86400 && exp <= now() + 86400);
}

#[test]
fn registering_twice_is_a_conflict_without_new_profile() {
    let mut s = AccountStore::new(roles());
    register_logic(&mut s, &config(), &request("alice", "pw1")).unwrap();
    let r = register_logic(&mut s, &config(), &request("alice", "other"));
    assert!(matches!(r, Err(AuthError::UserExists)));
    assert_eq!(s.users.len(), 1);
    assert_eq!(s.user_infos.len(), 1);
}

#[test]
fn register_without_default_role_fails() {
    let mut s = AccountStore::new(vec![Role { id: 2, role_name: "admin".to_string() }]);
    let r = register_logic(&mut s, &config(), &request("bob", "pw"));
    assert!(matches!(r, Err(AuthError::RoleNotFound)));
    assert!(s.user_infos.is_empty());
}

#[test]
fn register_requires_full_name_and_email() {
    let mut s = AccountStore::new(roles());
    let mut no_name = request("bob", "pw");
    no_name.full_name = None;
    assert!(matches!(register_logic(&mut s, &config(), &no_name), Err(AuthError::MissingFullName)));
    let mut no_email = request("bob", "pw");
    no_email.email = None;
    assert!(matches!(register_logic(&mut s, &config(), &no_email), Err(AuthError::MissingEmail)));
    assert!(s.users.is_empty());
    assert!(s.user_infos.is_empty());
}

#[test]
fn register_with_invalid_cost_fails_to_hash() {
    let mut s = AccountStore::new(roles());
    let mut c = config();
    c.hash_cost = 3;
    let r = register_logic(&mut s, &c, &request("bob", "pw"));
    assert!(matches!(r, Err(AuthError::HashFailed)));
    assert!(s.users.is_empty());
    assert!(s.user_infos.is_empty());
}

#[test]
fn wrong_password_and_unknown_user_fail_alike() {
    let mut s = AccountStore::new(roles());
    register_logic(&mut s, &config(), &request("alice", "right")).unwrap();
    let wrong = login_logic(&s, &config(), &request("alice", "wrong"));
    let unknown = login_logic(&s, &config(), &request("nobody", "right"));
    assert!(matches!(wrong, Err(AuthError::InvalidCredentials)));
    assert!(matches!(unknown, Err(AuthError::InvalidCredentials)));
}

#[test]
fn login_token_carries_current_role_and_day_expiry() {
    let mut s = AccountStore::new(roles());
    register_logic(&mut s, &config(), &request("alice", "right")).unwrap();
    s.users[0].role_id = Some(2);
    let before = now();
    let t = login_logic(&s, &config(), &request("alice", "right")).unwrap();
    let c = claims(&t.token);
    assert_eq!(c["sub"], "alice");
    assert_eq!(c["role"], "admin");
    let exp = c["exp"].as_i64().unwrap();
    assert!(exp >= before + 86400 && exp <= now() + 86400);
}

#[test]
fn login_at_fixes_expiry_from_given_time() {
    let mut s = AccountStore::new(roles());
    register_logic(&mut s, &config(), &request("alice", "right")).unwrap();
    let issued = now();
    let t = login_at(&s, &config(), &request("alice", "right"), issued).unwrap();
    assert_eq!(claims(&t.token)["exp"].as_i64().unwrap(), issued + 86400);
}

#[test]
fn malformed_stored_verifier_fails_verification() {
    let mut s = AccountStore::new(roles());
    register_logic(&mut s, &config(), &request("alice", "right")).unwrap();
    s.users[0].password_hash = "not-a-bcrypt-hash".to_string();
    let r = login_logic(&s, &config(), &request("alice", "right"));
    assert!(matches!(r, Err(AuthError::VerifyFailed)));
}

#[test]
fn claims_expire_a_day_after_issue() {
    let c = claims_for(&"alice".to_string(), &"operator".to_string(), 1_700_000_000).unwrap();
    assert_eq!(c.sub, "alice");
    assert_eq!(c.role, "operator");
    assert_eq!(c.exp, 1_700_086_400);
    assert_eq!(TOKEN_LIFETIME_SECS, 86400);
    assert!(claims_for(&"a".to_string(), &"b".to_string(), i64::MAX).is_none());
    assert_eq!(claims_for(&"a".to_string(), &"b".to_string(), -86400).unwrap().exp, 0);
}

#[test]
fn generated_token_is_signed_with_the_secret() {
    let issued = now();
    let t = generate_token(&"carol".to_string(), &"operator".to_string(), issued, &SECRET.to_vec()).unwrap();
    assert_eq!(t.split('.').count(), 3);
    let c = claims(&t);
    assert_eq!(c["sub"], "carol");
    assert_eq!(c["exp"].as_i64().unwrap(), issued + 86400);
    let other = decode::<serde_json::Value>(
        &t,
        &DecodingKey::from_secret(b"another-secret"),
        &Validation::new(Algorithm::HS256),
    );
    assert!(other.is_err());
    assert!(matches!(
        generate_token(&"c".to_string(), &"r".to_string(), i64::MAX, &SECRET.to_vec()),
        Err(AuthError::TokenFailed)
    ));
}

#[test]
fn verdicts_map_to_errors() {
    assert_eq!(credential_verdict(Some(true)), None);
    assert_eq!(credential_verdict(Some(false)), Some(AuthError::InvalidCredentials));
    assert_eq!(credential_verdict(None), Some(AuthError::VerifyFailed));
}

#[test]
fn user_details_join_role() {
    let mut s = AccountStore::new(roles());
    register_logic(&mut s, &config(), &request("alice", "right")).unwrap();
    let (hash, role) = s.get_user_details(&"alice".to_string()).unwrap();
    assert!(hash.starts_with("$2"));
    assert_eq!(role, "operator");
    assert_eq!(s.get_user_details(&"bob".to_string()), None);
    assert_eq!(s.get_role_id(&"admin".to_string()), Some(2));
    assert_eq!(s.get_role_id(&"guest".to_string()), None);
}

#[test]
fn add_account_writes_rows_and_issues_token() {
    let mut s = AccountStore::new(roles());
    let issued = now();
    let t = add_account(&mut s, &config(), &request("dave", "pw"), 1, "stored-verifier".to_string(), issued).unwrap();
    assert_eq!(s.users.len(), 1);
    assert_eq!(s.users[0].password_hash, "stored-verifier");
    assert_eq!(s.users[0].created_at, issued);
    assert_eq!(s.users[0].user_info_id, Some(1));
    assert_eq!(s.user_infos[0].email, "alice@example.com");
    let c = claims(&t.token);
    assert_eq!(c["sub"], "dave");
    assert_eq!(c["role"], "operator");
    assert_eq!(c["exp"].as_i64().unwrap(), issued + 86400);
}

#[test]
fn registered_account_logs_in_with_its_password() {
    let mut s = AccountStore::new(roles());
    register_logic(&mut s, &config(), &request("erin", "secret-pw")).unwrap();
    assert!(bcrypt::verify("secret-pw", &s.users[0].password_hash).unwrap());
    let t = login_logic(&s, &config(), &request("erin", "secret-pw")).unwrap();
    let c = claims(&t.token);
    assert_eq!(c["sub"], "erin");
    assert_eq!(c["role"], "operator");
}
