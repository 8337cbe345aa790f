use tempo::auth::{
    auth_resource, find_local_user, hash_password, ldap_user_fields, login_step, try_local_login, update_or_create, AttrMap, AuthError,
    HashPasswordAlgorithm, LdapAction, LdapEntry, LdapEvent, LdapSettings, LdapState, LoginStep, SettingsUser, UserFields, UserUpdate,
    ldap_start, ldap_step, refresh_username, token_claims,
};
use tempo::documents::{AuthRelation, ResourceType, Token};
use tempo::entity::{AuthProvider, User};
use tempo::jsonapi::{Related, Relation};

fn fields(first: Option<&str>, last: Option<&str>) -> UserFields {
    UserFields { username: "ann".to_string(), first_name: first.map(|s| s.to_string()), last_name: last.map(|s| s.to_string()) }
}

#[test]
fn local_users_are_found_by_name() {
    let users = vec![
        SettingsUser { username: "bob".to_string(), password: "h1".to_string(), first_name: None, last_name: None },
        SettingsUser { username: "ann".to_string(), password: "h2".to_string(), first_name: None, last_name: None },
    ];
    assert_eq!(find_local_user(&users, "ann"), Some(1));
    assert_eq!(find_local_user(&users, "eve"), None);
}

#[test]
fn ldap_entries_need_a_user_name() {
    let map = AttrMap { username: "uid".to_string(), first_name: "givenName".to_string(), last_name: "sn".to_string() };
    let attrs = vec![
        ("uid".to_string(), vec!["ann".to_string(), "other".to_string()]),
        ("sn".to_string(), vec!["Smith".to_string()]),
        ("givenName".to_string(), vec![]),
    ];
    let user = ldap_user_fields(&attrs, &map).ok().unwrap();
    assert_eq!(user.username, "ann");
    assert_eq!(user.first_name, None);
    assert_eq!(user.last_name.as_deref(), Some("Smith"));
    let attrs = vec![("uid".to_string(), vec![])];
    assert!(matches!(ldap_user_fields(&attrs, &map), Err(AuthError::LdapMissingFIeld)));
}

#[test]
fn stored_users_follow_their_names() {
    let stored = Some(User { username: "ann".to_string(), provider: AuthProvider::Local, first_name: Some("Ann".to_string()), last_name: None });
    assert!(matches!(update_or_create(&stored, AuthProvider::Local, fields(Some("Ann"), None)), UserUpdate::Keep));
    match update_or_create(&stored, AuthProvider::Local, fields(Some("Anna"), None)) {
        UserUpdate::Rename { first_name, last_name } => {
            assert_eq!(first_name.as_deref(), Some("Anna"));
            assert_eq!(last_name, None);
        },
        _ => panic!("expected a rename"),
    }
    match update_or_create(&None, AuthProvider::Ldap, fields(None, Some("Smith"))) {
        UserUpdate::Create(user) => {
            assert_eq!(user.username, "ann");
            assert_eq!(user.provider, AuthProvider::Ldap);
            assert_eq!(user.last_name.as_deref(), Some("Smith"));
        },
        _ => panic!("expected a new user"),
    }
}

#[test]
fn sign_in_resource_points_to_the_user() {
    let token = Token { value: "t".to_string(), expires_at: 100 };
    let r = auth_resource(token, None, "ann".to_string());
    assert_eq!(r.resource_type, ResourceType::Auth);
    assert_eq!(r.id, "ann");
    assert_eq!(r.attributes.token.value, "t");
    assert!(r.attributes.refresh.is_none());
    assert_eq!(r.relationships.len(), 1);
    assert_eq!(r.relationships[0].0, AuthRelation::User);
    match &r.relationships[0].1.data {
        Relation::Single(Related::String(ri)) => {
            assert_eq!(ri.id, "ann");
            assert_eq!(ri.resource_type, ResourceType::User);
        },
        _ => panic!("expected a single user reference"),
    }
}

const PBKDF2_SECRET: &str = "$pbkdf2-sha256$i=1000,l=32$c2FsdHNhbHRzYWx0$sVaWem31qy3rw+Ldi3plA/XzhMSNi9/XHnnD1Ytj05o";

fn settings_users() -> Vec<SettingsUser> {
    vec![
        SettingsUser { username: "bob".to_string(), password: "not a hash".to_string(), first_name: None, last_name: None },
        SettingsUser {
            username: "ann".to_string(),
            password: PBKDF2_SECRET.to_string(),
            first_name: Some("Ann".to_string()),
            last_name: Some("Smith".to_string()),
        },
        SettingsUser { username: "ann".to_string(), password: "ignored".to_string(), first_name: None, last_name: None },
    ]
}

#[test]
fn local_login_checks_the_stored_hash() {
    let users = settings_users();
    let fields = try_local_login(&users, "ann", "secret").ok().unwrap();
    assert_eq!(fields.username, "ann");
    assert_eq!(fields.first_name.as_deref(), Some("Ann"));
    assert_eq!(fields.last_name.as_deref(), Some("Smith"));
    match try_local_login(&users, "ann", "wrong") {
        Err(AuthError::InvalidPasswordHash(m)) => assert_eq!(m, "invalid password"),
        _ => panic!("a wrong password must be refused"),
    }
    assert!(matches!(try_local_login(&users, "bob", "secret"), Err(AuthError::InvalidPasswordHash(_))));
    assert!(matches!(try_local_login(&users, "eve", "secret"), Err(AuthError::NoMatchingUser)));
}

#[test]
fn login_goes_through_the_methods_in_order() {
    let users = settings_users();
    let both = vec![AuthProvider::Local, AuthProvider::Ldap];
    match login_step(&both, 0, &users, "ann", "secret") {
        LoginStep::SignedIn(AuthProvider::Local, f) => assert_eq!(f.username, "ann"),
        _ => panic!("the local user signs in"),
    }
    assert!(matches!(login_step(&both, 0, &users, "ann", "wrong"), LoginStep::AskLdap(1)));
    assert!(matches!(login_step(&both, 2, &users, "ann", "wrong"), LoginStep::NoCandidate));
    let ldap_first = vec![AuthProvider::Ldap, AuthProvider::Local];
    assert!(matches!(login_step(&ldap_first, 0, &users, "ann", "secret"), LoginStep::AskLdap(0)));
    assert!(matches!(login_step(&ldap_first, 1, &users, "ann", "secret"), LoginStep::SignedIn(AuthProvider::Local, _)));
    assert!(matches!(login_step(&vec![AuthProvider::Local], 0, &users, "eve", "secret"), LoginStep::NoCandidate));
}

#[test]
fn hashing_refuses_a_bad_salt() {
    assert!(hash_password(HashPasswordAlgorithm::Argon2, "secret", "abc").is_err());
    assert!(hash_password(HashPasswordAlgorithm::Pbkdf2, "secret", "not a salt!").is_err());
    assert!(hash_password(HashPasswordAlgorithm::Scrypt, "secret", "").is_err());
}

#[test]
fn argon2_hashes_read_back() {
    let hash = hash_password(HashPasswordAlgorithm::Argon2, "secret", "c2FsdHNhbHRzYWx0").ok().unwrap();
    assert!(hash.starts_with("$argon2id$v=19$"));
    assert!(hash.contains("$c2FsdHNhbHRzYWx0$"));
    let users = vec![SettingsUser { username: "ann".to_string(), password: hash, first_name: None, last_name: None }];
    assert!(try_local_login(&users, "ann", "secret").is_ok());
}

fn ldap_settings(filter: &str) -> LdapSettings {
    LdapSettings {
        uri: "ldap://directory".to_string(),
        admin_dn: "cn=admin".to_string(),
        admin_pw: "adminpw".to_string(),
        base_dn: "dc=example".to_string(),
        user_filter: filter.to_string(),
        attr_map: AttrMap { username: "uid".to_string(), first_name: "givenName".to_string(), last_name: "sn".to_string() },
    }
}

fn entry(dn: &str, uid: &str) -> LdapEntry {
    LdapEntry { dn: dn.to_string(), attrs: vec![("uid".to_string(), vec![uid.to_string()]), ("sn".to_string(), vec!["Smith".to_string()])] }
}

#[test]
fn ldap_sign_in_walks_through_the_directory() {
    let settings = ldap_settings("(uid={username})");
    let (state, action) = ldap_start(&settings);
    assert!(matches!(action, LdapAction::Connect(ref u) if u == "ldap://directory"));
    let (state, action) = ldap_step(&settings, "ann", "pw", state, LdapEvent::Done);
    assert!(matches!(action, LdapAction::Bind { ref dn, ref password } if dn == "cn=admin" && password == "adminpw"));
    let (state, action) = ldap_step(&settings, "ann", "pw", state, LdapEvent::Done);
    match action {
        LdapAction::Search { base, filter, attrs } => {
            assert_eq!(base, "dc=example");
            assert_eq!(filter, "(uid=ann)");
            assert_eq!(attrs, vec!["uid".to_string(), "givenName".to_string(), "sn".to_string()]);
        }
        _ => panic!("the user is looked up"),
    }
    let found = vec![entry("uid=ann,dc=example", "ann"), entry("uid=other,dc=example", "other")];
    let (state, action) = ldap_step(&settings, "ann", "pw", state, LdapEvent::Found(found));
    assert!(matches!(action, LdapAction::Bind { ref dn, ref password } if dn == "uid=ann,dc=example" && password == "pw"));
    let (state, action) = ldap_step(&settings, "ann", "pw", state, LdapEvent::Done);
    assert!(matches!(action, LdapAction::Unbind));
    let (_, action) = ldap_step(&settings, "ann", "pw", state, LdapEvent::Done);
    match action {
        LdapAction::Finish(Ok(fields)) => {
            assert_eq!(fields.username, "ann");
            assert_eq!(fields.first_name, None);
            assert_eq!(fields.last_name.as_deref(), Some("Smith"));
        }
        _ => panic!("the user signs in"),
    }
}

#[test]
fn ldap_sign_in_stops_on_failures() {
    let settings = ldap_settings("(uid={username})");
    let (_, action) = ldap_step(&settings, "ann", "pw", LdapState::BindingAdmin, LdapEvent::Failed("invalid credentials".to_string()));
    assert!(matches!(action, LdapAction::Finish(Err(AuthError::LdapError(ref m))) if m == "invalid credentials"));
    let (_, action) = ldap_step(&settings, "ann", "pw", LdapState::Searching, LdapEvent::Found(vec![]));
    assert!(matches!(action, LdapAction::Finish(Err(AuthError::LdapUserNotFound))));
    let bad = ldap_settings("(uid={user)");
    let (_, action) = ldap_step(&bad, "ann", "pw", LdapState::BindingAdmin, LdapEvent::Done);
    assert!(matches!(action, LdapAction::Finish(Err(AuthError::LdapFilterFormat(_)))));
    let nameless = LdapEntry { dn: "cn=x".to_string(), attrs: vec![] };
    let (_, action) = ldap_step(&settings, "ann", "pw", LdapState::Unbinding(nameless), LdapEvent::Done);
    assert!(matches!(action, LdapAction::Finish(Err(AuthError::LdapMissingFIeld))));
}

#[test]
fn tokens_expire_after_a_week_and_refresh_tokens_after_thirty_days() {
    let (token, refresh) = token_claims("ann", 1_000_000, 1_000_000);
    assert_eq!(token.username, "ann");
    assert_eq!(token.exp, 1_604_800);
    assert_eq!(token.sub, tempo::extract::ClaimsSubject::Token);
    assert_eq!(refresh.exp, 3_592_000);
    assert_eq!(refresh.sub, tempo::extract::ClaimsSubject::Refresh);
    assert_eq!(refresh_username(&refresh).ok().as_deref(), Some("ann"));
    match refresh_username(&token) {
        Err(tempo::api_error::Error::BadRequest(Some(m))) => assert_eq!(m, "Invalid refresh token"),
        _ => panic!("an access token does not refresh"),
    }
}

#[test]
fn each_token_expires_from_its_own_clock_reading() {
    let (token, refresh) = token_claims("ann", 1_000_000, 1_000_001);
    assert_eq!(token.exp, 1_604_800);
    assert_eq!(refresh.exp, 3_592_001);
}
