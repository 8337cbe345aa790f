//! Signing users in: finding the user to check the password of, reading a
//! user from an LDAP directory entry, keeping the stored user in step, and
//! describing a sign-in as a resource.
use vstd::prelude::*;
use crate::documents::{AuthAttributes, AuthRelation, Meta, ResourceType, Token};
use crate::names::Named;
use crate::api_error::Error;
use crate::extract::{Claims, ClaimsSubject};
use crate::entity::{AuthProvider, User};
use crate::jsonapi::{Relation, Relationship, Resource};
use crate::resources::{is_single, is_string_link, link_meta, string_link, Link};
use crate::text::{copy_opt_string, copy_string, opt_view, str_equals, to_owned_string};
use password_hash::PasswordHasher;

verus! {

/// The user name and password a client signs in with.
pub struct LoginData {
    pub username: String,
    pub password: String,
}

/// Why a sign-in failed; errors of other parts hold their message.
pub enum AuthError {
    Database(String),
    Settings(String),
    Jwt(String),
    NoCandidate,
    NoMatchingUser,
    InvalidPasswordHash(String),
    LdapFilterFormat(String),
    LdapError(String),
    LdapUserNotFound,
    LdapMissingFIeld,
}

/// What a sign-in learns of a user.
pub struct UserFields {
    pub username: String,
    pub first_name: Option<String>,
    pub last_name: Option<String>,
}

/// A user listed in the settings, with the hash of its password.
pub struct SettingsUser {
    pub username: String,
    pub password: String,
    pub first_name: Option<String>,
    pub last_name: Option<String>,
}

/// The position of the first listed user with the given name, if any.
pub fn find_local_user(users: &Vec<SettingsUser>, username: &str) -> (r: Option<usize>)
    ensures
        match r {
            Some(i) => i < users.len() && users@[i as int].username@ == username@ && forall|j: int|
                0 <= j < i ==> users@[j].username@ != username@,
            None => forall|j: int| 0 <= j < users.len() ==> users@[j].username@ != username@,
        },
{
    let mut i: usize = 0;
    while i < users.len()
        invariant
            i <= users.len(),
            forall|j: int| 0 <= j < i ==> users@[j].username@ != username@,
        decreases users.len() - i,
    {
        if str_equals(users[i].username.as_str(), username) {
            return Some(i);
        }
        i = i + 1;
    }
    None
}

/// Whether user `i` is the first listed with the given name.
pub open spec fn is_first_named(users: Seq<SettingsUser>, name: Seq<char>, i: int) -> bool {
    &&& 0 <= i < users.len()
    &&& users[i].username@ == name
    &&& forall|j: int| 0 <= j < i ==> users[j].username@ != name
}

/// The error message `PasswordHash::new` of the password-hash crate gives
/// for a stored hash it cannot read; `None` where it reads it.
pub uninterp spec fn phc_parse_error_of(hash: Seq<char>) -> Option<Seq<char>>;

/// Whether `PasswordHash::verify_password`, handed Argon2 (with its default
/// settings), PBKDF2 and scrypt, accepts the password for the stored hash.
pub uninterp spec fn password_accepted_of(hash: Seq<char>, password: Seq<char>) -> bool;

/// Checks a password against a stored hash in the PHC string format:
/// `PasswordHash::new` reads the hash (its error message where it cannot),
/// then `verify_password` tries Argon2, PBKDF2 and scrypt in turn. As the
/// crate's source shows, a refused password gives the message of
/// `Error::Password`, "invalid password".
#[verifier::external_body]
fn check_password(hash: &str, password: &str) -> (r: Result<(), String>)
    ensures
        match phc_parse_error_of(hash@) {
            Some(m) => r matches Err(e) && e@ == m,
            None => match r {
                Ok(_) => password_accepted_of(hash@, password@),
                Err(e) => !password_accepted_of(hash@, password@) && e@ == "invalid password"@,
            },
        },
{
    match password_hash::PasswordHash::new(hash) {
        Err(e) => Err(e.to_string()),
        Ok(parsed) => {
            let argon2 = argon2::Argon2::default();
            let verifiers: [&dyn password_hash::PasswordVerifier; 3] = [&argon2, &pbkdf2::Pbkdf2, &scrypt::Scrypt];
            match parsed.verify_password(&verifiers, password) {
                Ok(()) => Ok(()),
                Err(e) => Err(e.to_string()),
            }
        },
    }
}

/// What signing in as a listed user with a password gives: the user's
/// names where the password matches its stored hash; otherwise the error of
/// the hash, carrying the message of the unreadable hash or of the refused
/// password.
pub open spec fn local_login_result(user: SettingsUser, password: Seq<char>, r: Result<UserFields, AuthError>) -> bool {
    match phc_parse_error_of(user.password@) {
        Some(m) => r matches Err(AuthError::InvalidPasswordHash(e)) && e@ == m,
        None => if password_accepted_of(user.password@, password) {
            r matches Ok(f) && f.username@ == user.username@ && opt_view(f.first_name) == opt_view(user.first_name)
                && opt_view(f.last_name) == opt_view(user.last_name)
        } else {
            r matches Err(AuthError::InvalidPasswordHash(e)) && e@ == "invalid password"@
        },
    }
}

/// What signing in against the users of the settings gives: no matching
/// user where none has the name, else the outcome for the first user with
/// it.
pub open spec fn local_login(users: Seq<SettingsUser>, username: Seq<char>, password: Seq<char>, r: Result<UserFields, AuthError>) -> bool {
    &&& (forall|j: int| 0 <= j < users.len() ==> users[j].username@ != username) ==> (r is Err && r->Err_0 is NoMatchingUser)
    &&& forall|i: int| is_first_named(users, username, i) ==> local_login_result(users[i], password, r)
}

/// Whether signing in against the users of the settings succeeds.
pub open spec fn local_login_succeeds(users: Seq<SettingsUser>, username: Seq<char>, password: Seq<char>) -> bool {
    exists|i: int| #[trigger] is_first_named(users, username, i) && phc_parse_error_of(users[i].password@) is None
        && password_accepted_of(users[i].password@, password)
}

/// Signs in against the users listed in the settings: the first user with
/// the name, whose stored hash must accept the password.
pub fn try_local_login(users: &Vec<SettingsUser>, username: &str, password: &str) -> (r: Result<UserFields, AuthError>)
    ensures
        local_login(users@, username@, password@, r),
        r is Ok <==> local_login_succeeds(users@, username@, password@),
{
    let i = match find_local_user(users, username) {
        Some(i) => i,
        None => {
            return Err(AuthError::NoMatchingUser);
        },
    };
    assert(is_first_named(users@, username@, i as int));
    assert forall|k: int| is_first_named(users@, username@, k) implies k == i as int by {
        if k < i as int {
        } else if k > i as int {
            assert(users@[i as int].username@ != username@);
        }
    }
    let user = &users[i];
    match check_password(user.password.as_str(), password) {
        Ok(()) => Ok(
            UserFields {
                username: copy_string(&user.username),
                first_name: copy_opt_string(&user.first_name),
                last_name: copy_opt_string(&user.last_name),
            },
        ),
        Err(m) => Err(AuthError::InvalidPasswordHash(m)),
    }
}

/// What signing in does next, going through the sign-in methods in the
/// order of the settings.
pub enum LoginStep {
    /// Signed in against the users of the settings, with these names.
    SignedIn(AuthProvider, UserFields),
    /// The method at this position asks the LDAP directory; where that
    /// fails, signing in goes on from the next position.
    AskLdap(usize),
    /// No method signed the user in.
    NoCandidate,
}

/// The next step of signing in, from position `from` of the methods in
/// order of priority: a local method signs the user in where the password
/// matches, and is passed over where it does not; an LDAP method is handed
/// to the caller, who asks the directory.
pub fn login_step(priority: &Vec<AuthProvider>, from: usize, users: &Vec<SettingsUser>, username: &str, password: &str) -> (r: LoginStep)
    ensures
        r is NoCandidate <==> forall|j: int| from <= j < priority.len() ==> priority@[j] is Local
            && !local_login_succeeds(users@, username@, password@),
        r matches LoginStep::AskLdap(k) ==> {
            &&& from <= k < priority.len()
            &&& priority@[k as int] is Ldap
            &&& forall|j: int| from <= j < k ==> priority@[j] is Local && !local_login_succeeds(users@, username@, password@)
        },
        r matches LoginStep::SignedIn(m, f) ==> {
            &&& m is Local
            &&& from < priority.len()
            &&& priority@[from as int] is Local
            &&& local_login(users@, username@, password@, Ok(f))
        },
        (from < priority.len() && priority@[from as int] is Local && local_login_succeeds(users@, username@, password@)) ==> r is SignedIn,
{
    let mut k = from;
    while k < priority.len()
        invariant
            from <= k,
            forall|j: int| from <= j < k ==> priority@[j] is Local && !local_login_succeeds(users@, username@, password@),
        decreases priority.len() - k,
    {
        match priority[k] {
            AuthProvider::Ldap => {
                assert(priority@[k as int] is Ldap);
                return LoginStep::AskLdap(k);
            },
            AuthProvider::Local => {
                match try_local_login(users, username, password) {
                    Ok(fields) => {
                        assert(priority@[k as int] is Local);
                        assert(k == from);
                        return LoginStep::SignedIn(AuthProvider::Local, fields);
                    },
                    Err(_) => {},
                }
            },
        }
        k = k + 1;
    }
    LoginStep::NoCandidate
}

/// The names of the attributes that hold a user's name and names in an
/// LDAP directory.
pub struct AttrMap {
    pub username: String,
    pub first_name: String,
    pub last_name: String,
}

/// The values of the first attribute with the given name, if any.
pub open spec fn attr_values(attrs: Seq<(String, Vec<String>)>, name: Seq<char>) -> Option<Seq<String>>
    decreases attrs.len(),
{
    if attrs.len() == 0 {
        None
    } else if attrs[0].0@ == name {
        Some(attrs[0].1@)
    } else {
        attr_values(attrs.drop_first(), name)
    }
}

/// The first value of the named attribute, if it has one.
pub open spec fn first_attr(attrs: Seq<(String, Vec<String>)>, name: Seq<char>) -> Option<Seq<char>> {
    match attr_values(attrs, name) {
        Some(v) => if v.len() > 0 {
            Some(v[0]@)
        } else {
            None
        },
        None => None,
    }
}

fn first_attr_exec<'a>(attrs: &'a Vec<(String, Vec<String>)>, name: &str) -> (r: Option<&'a String>)
    ensures
        (match r {
            Some(s) => Some(s@),
            None => None::<Seq<char>>,
        }) == first_attr(attrs@, name@),
{
    let mut i: usize = 0;
    assert(attrs@.skip(0) =~= attrs@);
    while i < attrs.len()
        invariant
            i <= attrs.len(),
            attr_values(attrs@, name@) == attr_values(attrs@.skip(i as int), name@),
        decreases attrs.len() - i,
    {
        assert(attrs@.skip(i as int)[0] == attrs@[i as int]);
        if str_equals(attrs[i].0.as_str(), name) {
            let values = &attrs[i].1;
            if values.len() > 0 {
                return Some(&values[0]);
            } else {
                return None;
            }
        }
        assert(attrs@.skip(i as int).drop_first() =~= attrs@.skip(i as int + 1));
        i = i + 1;
    }
    None
}

/// The user's name and names an LDAP entry gives: `None` where it holds no
/// user name.
pub open spec fn ldap_user_fields_spec(attrs: Seq<(String, Vec<String>)>, map: AttrMap) -> Option<(Seq<char>, Option<Seq<char>>, Option<Seq<char>>)> {
    match first_attr(attrs, map.username@) {
        Some(u) => Some((u, first_attr(attrs, map.first_name@), first_attr(attrs, map.last_name@))),
        None => None,
    }
}

/// The user an LDAP directory entry describes: its name is required, its
/// first and last names are read where present.
pub fn ldap_user_fields(attrs: &Vec<(String, Vec<String>)>, map: &AttrMap) -> (r: Result<UserFields, AuthError>)
    ensures
        first_attr(attrs@, map.username@) is None <==> r is Err,
        r is Err ==> r->Err_0 is LdapMissingFIeld,
        r is Ok ==> {
            &&& Some(r->Ok_0.username@) == first_attr(attrs@, map.username@)
            &&& opt_view(r->Ok_0.first_name) == first_attr(attrs@, map.first_name@)
            &&& opt_view(r->Ok_0.last_name) == first_attr(attrs@, map.last_name@)
        },
{
    let username = match first_attr_exec(attrs, map.username.as_str()) {
        Some(u) => copy_string(u),
        None => {
            return Err(AuthError::LdapMissingFIeld);
        },
    };
    let first_name = match first_attr_exec(attrs, map.first_name.as_str()) {
        Some(v) => Some(copy_string(v)),
        None => None,
    };
    let last_name = match first_attr_exec(attrs, map.last_name.as_str()) {
        Some(v) => Some(copy_string(v)),
        None => None,
    };
    Ok(UserFields { username, first_name, last_name })
}

/// What is done with the stored user after a sign-in.
pub enum UserUpdate {
    /// The stored user is up to date.
    Keep,
    /// The stored user's names are replaced.
    Rename { first_name: Option<String>, last_name: Option<String> },
    /// There is no stored user; this one is stored.
    Create(User),
}

/// What is done with the stored user after a sign-in: its names are
/// replaced when they changed, and a new user is stored, with the method it
/// signed in with, when there is none.
pub fn update_or_create(existing: &Option<User>, provider: AuthProvider, fields: UserFields) -> (r: UserUpdate)
    ensures
        match existing {
            Some(u) => if opt_view(u.first_name) == opt_view(fields.first_name) && opt_view(u.last_name) == opt_view(fields.last_name) {
                r is Keep
            } else {
                r matches UserUpdate::Rename { first_name, last_name } && opt_view(first_name) == opt_view(fields.first_name)
                    && opt_view(last_name) == opt_view(fields.last_name)
            },
            None => r matches UserUpdate::Create(n) && n.username@ == fields.username@ && n.provider == provider
                && opt_view(n.first_name) == opt_view(fields.first_name) && opt_view(n.last_name) == opt_view(fields.last_name),
        },
{
    match existing {
        Some(u) => {
            if crate::dedup::opt_str_equals(&u.first_name, &fields.first_name) && crate::dedup::opt_str_equals(&u.last_name, &fields.last_name) {
                UserUpdate::Keep
            } else {
                UserUpdate::Rename { first_name: fields.first_name, last_name: fields.last_name }
            }
        },
        None => UserUpdate::Create(
            User {
                username: fields.username,
                provider,
                first_name: fields.first_name,
                last_name: fields.last_name,
            },
        ),
    }
}

/// A sign-in as a resource of the public API.
pub type AuthResource = Resource<ResourceType, String, AuthAttributes, AuthRelation, Meta>;

/// A sign-in as a resource: its tokens, and a relationship to the user who
/// signed in.
pub fn auth_resource(token: Token, refresh: Option<Token>, username: String) -> (r: AuthResource)
    ensures
        r.resource_type == ResourceType::Auth,
        r.id@ == username@,
        r.attributes.token == token,
        r.attributes.refresh == refresh,
        r.meta is None,
        r.relationships@.len() == 1,
        r.relationships@[0].0 == AuthRelation::User,
        is_single(r.relationships@[0].1, |l: Link| is_string_link(l, ResourceType::User, username@) && link_meta(l) is None),
{
    let mut relationships: Vec<(AuthRelation, Relationship<ResourceType, Meta>)> = Vec::new();
    relationships.push((AuthRelation::User, Relationship { data: Relation::Single(string_link(ResourceType::User, &username)) }));
    Resource {
        resource_type: ResourceType::Auth,
        id: copy_string(&username),
        attributes: AuthAttributes { token, refresh },
        relationships,
        meta: None,
    }
}

/// The text `strfmt::strfmt` makes of `template` with the one variable
/// `key` set to `value`: `None` where it reports an error.
pub uninterp spec fn formatted_with_of(template: Seq<char>, key: Seq<char>, value: Seq<char>) -> Option<Seq<char>>;

/// Whether a text holds no brace.
pub open spec fn has_no_braces(t: Seq<char>) -> bool {
    forall|i: int| 0 <= i < t.len() ==> t[i] != '{' && t[i] != '}'
}

/// `strfmt::strfmt` with a map of the one variable `key` to `value`: the
/// formatted text, or the crate's error message. Its result is named
/// `formatted_with_of`; as its source shows, a template without braces is
/// copied as it is.
#[verifier::external_body]
fn format_with(template: &str, key: &str, value: &str) -> (r: Result<String, String>)
    ensures
        match r {
            Ok(s) => formatted_with_of(template@, key@, value@) == Some(s@) && (has_no_braces(template@) ==> s@ == template@),
            Err(_) => formatted_with_of(template@, key@, value@) is None && !has_no_braces(template@),
        },
{
    let mut vars: std::collections::HashMap<String, String> = std::collections::HashMap::new();
    vars.insert(key.to_string(), value.to_string());
    match strfmt::strfmt(template, &vars) {
        Ok(s) => Ok(s),
        Err(e) => Err(e.to_string()),
    }
}

/// The LDAP filter that finds a user: the filter of the settings with the
/// variable `username` set to the user's name; an error carrying the
/// formatter's message where the filter does not format.
pub fn ldap_user_filter(template: &str, username: &str) -> (r: Result<String, AuthError>)
    ensures
        match formatted_with_of(template@, "username"@, username@) {
            Some(f) => r matches Ok(s) && s@ == f,
            None => r matches Err(AuthError::LdapFilterFormat(_)),
        },
{
    let key = "username";
    proof {
        reveal_strlit("username");
    }
    match format_with(template, key, username) {
        Ok(s) => Ok(s),
        Err(m) => Err(AuthError::LdapFilterFormat(m)),
    }
}

/// How the server reaches its LDAP directory: where it is, the account it
/// searches with, where and how it looks users up, and which attributes
/// hold their names.
pub struct LdapSettings {
    pub uri: String,
    pub admin_dn: String,
    pub admin_pw: String,
    pub base_dn: String,
    pub user_filter: String,
    pub attr_map: AttrMap,
}

/// An entry of the directory: its name and its attributes with their
/// values.
pub struct LdapEntry {
    pub dn: String,
    pub attrs: Vec<(String, Vec<String>)>,
}

/// Where signing in against the directory stands.
pub enum LdapState {
    /// Connecting to the directory.
    Connecting,
    /// Signing in with the searching account.
    BindingAdmin,
    /// Looking the user up.
    Searching,
    /// Signing in as the user found.
    BindingUser(LdapEntry),
    /// Leaving the directory, the user's password checked.
    Unbinding(LdapEntry),
}

/// What the directory answered the last request with.
pub enum LdapEvent {
    /// The request succeeded.
    Done,
    /// The request failed, with the directory's message.
    Failed(String),
    /// The search found these entries, in the order the directory gives.
    Found(Vec<LdapEntry>),
}

/// What to ask the directory next, or how signing in ended.
pub enum LdapAction {
    Connect(String),
    Bind { dn: String, password: String },
    Search { base: String, filter: String, attrs: Vec<String> },
    Unbind,
    Finish(Result<UserFields, AuthError>),
}

/// The first step of signing in against the directory: connecting to it.
pub fn ldap_start(settings: &LdapSettings) -> (r: (LdapState, LdapAction))
    ensures
        r.0 is Connecting,
        r.1 matches LdapAction::Connect(u) && u@ == settings.uri@,
{
    (LdapState::Connecting, LdapAction::Connect(copy_string(&settings.uri)))
}

/// Whether a step ends signing in with the directory's failure message.
pub open spec fn ends_in_ldap_error(r: (LdapState, LdapAction), m: Seq<char>) -> bool {
    r.1 matches LdapAction::Finish(Err(AuthError::LdapError(e))) && e@ == m
}

/// The next step of signing in as `username` with `password` against the
/// directory, from where it stands and what the directory answered: sign
/// in with the searching account, look the user up with the filter of the
/// settings and the three name attributes, sign in as the first entry
/// found, leave, and read the user's names from that entry. A failed
/// request ends with the directory's message; an answer that does not fit
/// the request is an error too.
pub fn ldap_step(settings: &LdapSettings, username: &str, password: &str, state: LdapState, event: LdapEvent) -> (r: (LdapState, LdapAction))
    ensures
        match event {
            LdapEvent::Failed(m) => ends_in_ldap_error(r, m@),
            LdapEvent::Done => match state {
                LdapState::Connecting => r.0 is BindingAdmin && (r.1 matches LdapAction::Bind { dn, password: pw }
                    && dn@ == settings.admin_dn@ && pw@ == settings.admin_pw@),
                LdapState::BindingAdmin => match formatted_with_of(settings.user_filter@, "username"@, username@) {
                    Some(f) => r.0 is Searching && (r.1 matches LdapAction::Search { base, filter, attrs }
                        && base@ == settings.base_dn@ && filter@ == f && attrs@.len() == 3
                        && attrs@[0]@ == settings.attr_map.username@ && attrs@[1]@ == settings.attr_map.first_name@
                        && attrs@[2]@ == settings.attr_map.last_name@),
                    None => r.1 matches LdapAction::Finish(Err(AuthError::LdapFilterFormat(_))),
                },
                LdapState::Searching => ends_in_ldap_error(r, "no search result"@),
                LdapState::BindingUser(e) => r.0 == LdapState::Unbinding(e) && r.1 is Unbind,
                LdapState::Unbinding(e) => r.1 matches LdapAction::Finish(f) && {
                    let expected = ldap_user_fields_spec(e.attrs@, settings.attr_map);
                    &&& f is Ok <==> expected is Some
                    &&& f matches Ok(u) ==> expected == Some((u.username@, opt_view(u.first_name), opt_view(u.last_name)))
                    &&& f matches Err(err) ==> err is LdapMissingFIeld
                },
            },
            LdapEvent::Found(entries) => match state {
                LdapState::Searching => if entries@.len() == 0 {
                    r.1 matches LdapAction::Finish(Err(AuthError::LdapUserNotFound))
                } else {
                    r.0 == LdapState::BindingUser(entries@[0]) && (r.1 matches LdapAction::Bind { dn, password: pw }
                        && dn@ == entries@[0].dn@ && pw@ == password@)
                },
                _ => ends_in_ldap_error(r, "unexpected search result"@),
            },
        },
{
    match event {
        LdapEvent::Failed(m) => (state, LdapAction::Finish(Err(AuthError::LdapError(m)))),
        LdapEvent::Done => match state {
            LdapState::Connecting => {
                let action = LdapAction::Bind { dn: copy_string(&settings.admin_dn), password: copy_string(&settings.admin_pw) };
                (LdapState::BindingAdmin, action)
            },
            LdapState::BindingAdmin => match ldap_user_filter(settings.user_filter.as_str(), username) {
                Ok(filter) => {
                    let mut attrs: Vec<String> = Vec::new();
                    attrs.push(copy_string(&settings.attr_map.username));
                    attrs.push(copy_string(&settings.attr_map.first_name));
                    attrs.push(copy_string(&settings.attr_map.last_name));
                    (LdapState::Searching, LdapAction::Search { base: copy_string(&settings.base_dn), filter, attrs })
                },
                Err(e) => (LdapState::BindingAdmin, LdapAction::Finish(Err(e))),
            },
            LdapState::Searching => {
                let m = to_owned_string("no search result");
                (LdapState::Searching, LdapAction::Finish(Err(AuthError::LdapError(m))))
            },
            LdapState::BindingUser(e) => (LdapState::Unbinding(e), LdapAction::Unbind),
            LdapState::Unbinding(e) => {
                let fields = ldap_user_fields(&e.attrs, &settings.attr_map);
                (LdapState::Unbinding(e), LdapAction::Finish(fields))
            },
        },
        LdapEvent::Found(entries) => match state {
            LdapState::Searching => {
                if entries.len() == 0 {
                    (LdapState::Searching, LdapAction::Finish(Err(AuthError::LdapUserNotFound)))
                } else {
                    let mut entries = entries;
                    let first = entries.remove(0);
                    let action = LdapAction::Bind { dn: copy_string(&first.dn), password: to_owned_string(password) };
                    (LdapState::BindingUser(first), action)
                }
            },
            _ => {
                let m = to_owned_string("unexpected search result");
                (state, LdapAction::Finish(Err(AuthError::LdapError(m))))
            },
        },
    }
}

/// The earliest moment the `time` crate can hold, in seconds since the Unix
/// epoch: the start of the year -9999.
pub open spec fn earliest_moment() -> int {
    -377705116800
}

/// The latest moment the `time` crate can hold, in seconds since the Unix
/// epoch: the end of the year 9999.
pub open spec fn latest_moment() -> int {
    253402300799
}

/// A week, in seconds.
pub open spec fn week() -> int {
    7int * 86400
}

/// Thirty days, in seconds.
pub open spec fn thirty_days() -> int {
    30int * 86400
}

/// The claims of the tokens a sign-in hands out: an access token that
/// expires a week after `token_now`, and a refresh token that expires
/// thirty days after `refresh_now` (the clock, in seconds since the Unix
/// epoch, read as each token is made).
pub fn token_claims(username: &str, token_now: i64, refresh_now: i64) -> (r: (Claims, Claims))
    requires
        earliest_moment() <= token_now,
        token_now + week() <= latest_moment(),
        earliest_moment() <= refresh_now,
        refresh_now + thirty_days() <= latest_moment(),
    ensures
        r.0.username@ == username@,
        r.0.exp == (token_now + week()) as usize,
        r.0.sub == ClaimsSubject::Token,
        r.1.username@ == username@,
        r.1.exp == (refresh_now + thirty_days()) as usize,
        r.1.sub == ClaimsSubject::Refresh,
{
    let token_expiry: i64 = token_now + 7 * 86400;
    let refresh_expiry: i64 = refresh_now + 30 * 86400;
    (
        Claims { username: to_owned_string(username), exp: token_expiry as usize, sub: ClaimsSubject::Token },
        Claims { username: to_owned_string(username), exp: refresh_expiry as usize, sub: ClaimsSubject::Refresh },
    )
}

/// Who asks for new tokens: the user of a refresh token; any other token
/// is a bad request.
pub fn refresh_username(claims: &Claims) -> (r: Result<String, Error>)
    ensures
        match claims.sub {
            ClaimsSubject::Refresh => r matches Ok(u) && u@ == claims.username@,
            ClaimsSubject::Token => r matches Err(Error::BadRequest(Some(m))) && m@ == "Invalid refresh token"@,
        },
{
    match claims.sub {
        ClaimsSubject::Refresh => Ok(copy_string(&claims.username)),
        ClaimsSubject::Token => Err(Error::BadRequest(Some(to_owned_string("Invalid refresh token")))),
    }
}

/// The algorithms a password can be hashed with, named as the command line names them.
#[derive(PartialEq, Eq, Structural, Clone, Copy, Debug)]
pub enum HashPasswordAlgorithm {
    Argon2,
    Pbkdf2,
    Scrypt,
}

impl Named for HashPasswordAlgorithm {
    open spec fn spec_name(self) -> Seq<char> {
        match self {
            HashPasswordAlgorithm::Argon2 => "argon2"@,
            HashPasswordAlgorithm::Pbkdf2 => "pbkdf2"@,
            HashPasswordAlgorithm::Scrypt => "scrypt"@,
        }
    }

    open spec fn spec_from_name(s: Seq<char>) -> Option<Self> {
        if s == "argon2"@ {
            Some(HashPasswordAlgorithm::Argon2)
        } else if s == "pbkdf2"@ {
            Some(HashPasswordAlgorithm::Pbkdf2)
        } else if s == "scrypt"@ {
            Some(HashPasswordAlgorithm::Scrypt)
        } else {
            None
        }
    }

    proof fn lemma_name_roundtrip(a: Self) {
        match a {
            HashPasswordAlgorithm::Argon2 => {
                reveal_strlit("argon2");
            },
            HashPasswordAlgorithm::Pbkdf2 => {
                reveal_strlit("pbkdf2");
                reveal_strlit("argon2");
                assert("argon2"@[0] != "pbkdf2"@[0]);
            },
            HashPasswordAlgorithm::Scrypt => {
                reveal_strlit("scrypt");
                reveal_strlit("argon2");
                assert("argon2"@[0] != "scrypt"@[0]);
                reveal_strlit("pbkdf2");
                assert("pbkdf2"@[0] != "scrypt"@[0]);
            },
        }
    }

    proof fn lemma_from_name_named(s: Seq<char>) {
    }

    proof fn lemma_name_plain(a: Self) {
        reveal_strlit("argon2");
        reveal_strlit("pbkdf2");
        reveal_strlit("scrypt");
    }

    fn name(&self) -> (r: &'static str) {
        match self {
            HashPasswordAlgorithm::Argon2 => "argon2",
            HashPasswordAlgorithm::Pbkdf2 => "pbkdf2",
            HashPasswordAlgorithm::Scrypt => "scrypt",
        }
    }

    fn from_name(s: &str) -> (r: Option<Self>) {
        if str_equals(s, "argon2") {
            Some(HashPasswordAlgorithm::Argon2)
        } else if str_equals(s, "pbkdf2") {
            Some(HashPasswordAlgorithm::Pbkdf2)
        } else if str_equals(s, "scrypt") {
            Some(HashPasswordAlgorithm::Scrypt)
        } else {
            None
        }
    }

    fn same(&self, other: &Self) -> (r: bool) {
        *self == *other
    }
}


/// The algorithm named by `s`, or the message that no algorithm has that
/// name.
pub open spec fn algorithm_spec(s: Seq<char>) -> Result<HashPasswordAlgorithm, Seq<char>> {
    match HashPasswordAlgorithm::spec_from_name(s) {
        Some(a) => Ok(a),
        None => Err("Invalid hashing algorithm: "@ + s),
    }
}

impl HashPasswordAlgorithm {
    /// The algorithm with the given name; an error naming the text where
    /// there is none.
    pub fn from_str(s: &str) -> (r: Result<HashPasswordAlgorithm, String>)
        ensures
            match algorithm_spec(s@) {
                Ok(a) => r == Ok::<HashPasswordAlgorithm, String>(a),
                Err(m) => r matches Err(e) && e@ == m,
            },
    {
        match HashPasswordAlgorithm::from_name(s) {
            Some(a) => Ok(a),
            None => {
                let mut m = crate::text::to_owned_string("Invalid hashing algorithm: ");
                m.append(s);
                Err(m)
            },
        }
    }

    /// The name the algorithm is shown with.
    pub fn to_string(&self) -> (r: String)
        ensures
            r@ == self.spec_name(),
    {
        crate::text::to_owned_string(self.name())
    }
}

/// Whether a character may stand in a salt: a letter, a digit, `/`, `+`,
/// `.` or `-`.
pub open spec fn is_salt_char(c: char) -> bool {
    ('a' <= c && c <= 'z') || ('A' <= c && c <= 'Z') || ('0' <= c && c <= '9') || c == '/' || c == '+' || c == '.' || c == '-'
}

/// Whether a text passes the salt checks of `SaltString::from_b64`: 4 to 64
/// characters, each one that may stand in a salt.
pub open spec fn is_salt_text(s: Seq<char>) -> bool {
    &&& 4 <= s.len() <= 64
    &&& forall|i: int| 0 <= i < s.len() ==> is_salt_char(#[trigger] s[i])
}

/// A hashing result as text: the hash, or the error message.
pub open spec fn hashed_view(r: Result<String, String>) -> Result<Seq<char>, Seq<char>> {
    match r {
        Ok(h) => Ok(h@),
        Err(e) => Err(e@),
    }
}

/// The PHC string `Argon2::default().hash_password` makes of a password
/// with the salt read by `SaltString::from_b64`, or the error message of
/// either.
pub uninterp spec fn argon2_hash_of(password: Seq<char>, salt: Seq<char>) -> Result<Seq<char>, Seq<char>>;

/// The PHC string `Pbkdf2.hash_password` makes of a password with the salt
/// read by `SaltString::from_b64`, or the error message of either.
pub uninterp spec fn pbkdf2_hash_of(password: Seq<char>, salt: Seq<char>) -> Result<Seq<char>, Seq<char>>;

/// The PHC string `Scrypt.hash_password` makes of a password with the salt
/// read by `SaltString::from_b64`, or the error message of either.
pub uninterp spec fn scrypt_hash_of(password: Seq<char>, salt: Seq<char>) -> Result<Seq<char>, Seq<char>>;

/// `SaltString::from_b64` on the salt, then `Argon2::default().hash_password`:
/// the hash as a PHC string, or the error message. As the crate's source
/// shows, a salt that fails the salt checks is an error.
#[verifier::external_body]
fn argon2_hash(password: &str, salt: &str) -> (r: Result<String, String>)
    ensures
        hashed_view(r) == argon2_hash_of(password@, salt@),
        !is_salt_text(salt@) ==> r is Err,
{
    match password_hash::SaltString::from_b64(salt) {
        Err(e) => Err(e.to_string()),
        Ok(salt_string) => match argon2::Argon2::default().hash_password(password.as_bytes(), &salt_string) {
            Ok(h) => Ok(h.to_string()),
            Err(e) => Err(e.to_string()),
        },
    }
}

/// `SaltString::from_b64` on the salt, then `Pbkdf2.hash_password`: the
/// hash as a PHC string, or the error message. As the crate's source shows,
/// a salt that fails the salt checks is an error.
#[verifier::external_body]
fn pbkdf2_hash(password: &str, salt: &str) -> (r: Result<String, String>)
    ensures
        hashed_view(r) == pbkdf2_hash_of(password@, salt@),
        !is_salt_text(salt@) ==> r is Err,
{
    match password_hash::SaltString::from_b64(salt) {
        Err(e) => Err(e.to_string()),
        Ok(salt_string) => match pbkdf2::Pbkdf2.hash_password(password.as_bytes(), &salt_string) {
            Ok(h) => Ok(h.to_string()),
            Err(e) => Err(e.to_string()),
        },
    }
}

/// `SaltString::from_b64` on the salt, then `Scrypt.hash_password`: the
/// hash as a PHC string, or the error message. As the crate's source shows,
/// a salt that fails the salt checks is an error.
#[verifier::external_body]
fn scrypt_hash(password: &str, salt: &str) -> (r: Result<String, String>)
    ensures
        hashed_view(r) == scrypt_hash_of(password@, salt@),
        !is_salt_text(salt@) ==> r is Err,
{
    match password_hash::SaltString::from_b64(salt) {
        Err(e) => Err(e.to_string()),
        Ok(salt_string) => match scrypt::Scrypt.hash_password(password.as_bytes(), &salt_string) {
            Ok(h) => Ok(h.to_string()),
            Err(e) => Err(e.to_string()),
        },
    }
}

/// The hash of a password, with the chosen algorithm and salt, in the PHC
/// string format that the users of the settings store; the error message
/// where the salt or the hashing is refused.
pub fn hash_password(algorithm: HashPasswordAlgorithm, password: &str, salt: &str) -> (r: Result<String, String>)
    ensures
        hashed_view(r) == match algorithm {
            HashPasswordAlgorithm::Argon2 => argon2_hash_of(password@, salt@),
            HashPasswordAlgorithm::Pbkdf2 => pbkdf2_hash_of(password@, salt@),
            HashPasswordAlgorithm::Scrypt => scrypt_hash_of(password@, salt@),
        },
        !is_salt_text(salt@) ==> r is Err,
{
    match algorithm {
        HashPasswordAlgorithm::Argon2 => argon2_hash(password, salt),
        HashPasswordAlgorithm::Pbkdf2 => pbkdf2_hash(password, salt),
        HashPasswordAlgorithm::Scrypt => scrypt_hash(password, salt),
    }
}

/// Reading back the name of an algorithm gives the algorithm.
pub proof fn lemma_algorithm_roundtrip(a: HashPasswordAlgorithm)
    ensures
        algorithm_spec(a.spec_name()) == Ok::<HashPasswordAlgorithm, Seq<char>>(a),
{
    HashPasswordAlgorithm::lemma_name_roundtrip(a);
}

} // verus!
