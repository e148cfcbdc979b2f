use vstd::prelude::*;

use crate::clock::now_seconds;
use crate::crypto::{bcrypt_verdict, encode_claims, hash_password, signed_token, verify_password};
use crate::models::{AuthRequest, Claims, Role, TokenResponse, User, UserInfo};
use crate::telemetry::{clone_text, MAX_ROWS};

verus! {

/// Name of the role given to a newly registered account.
pub const DEFAULT_ROLE: &'static str = "operator";

/// bcrypt work factor used unless configured otherwise.
pub const DEFAULT_HASH_COST: u32 = 12;

/// How long an issued token stays valid, in seconds.
pub const TOKEN_LIFETIME_SECS: i64 = 86400;

/// Why a registration or login failed.
#[derive(PartialEq, Eq, Structural, Clone, Copy, Debug)]
pub enum AuthError {
    /// The username is already registered.
    UserExists,
    /// The role catalog lacks the default role.
    RoleNotFound,
    /// Registration without a full name.
    MissingFullName,
    /// Registration without an email.
    MissingEmail,
    /// The password could not be hashed.
    HashFailed,
    /// A table has handed out every row id.
    StorageFull,
    /// Unknown username or wrong password; the two are not told apart.
    InvalidCredentials,
    /// The stored verifier could not be checked.
    VerifyFailed,
    /// The token could not be issued.
    TokenFailed,
}

/// Settings of the account service.
pub struct AuthConfig {
    /// Role name looked up for new accounts.
    pub default_role: String,
    /// bcrypt work factor.
    pub hash_cost: u32,
    /// Token signing secret.
    pub secret: Vec<u8>,
}

/// Accounts, profiles and the role catalog.
pub struct AccountStore {
    pub users: Vec<User>,
    pub user_infos: Vec<UserInfo>,
    pub roles: Vec<Role>,
}

pub open spec fn user_exists(users: Seq<User>, name: Seq<char>) -> bool {
    exists|k: int| 0 <= k < users.len() && users[k].username@ == name
}

/// The first role of the catalog with this name.
pub open spec fn role_by_name(roles: Seq<Role>, name: Seq<char>) -> Option<Role>
    decreases roles.len(),
{
    if roles.len() == 0 {
        None
    } else if roles[0].role_name@ == name {
        Some(roles[0])
    } else {
        role_by_name(roles.drop_first(), name)
    }
}

/// The first role of the catalog with this id.
pub open spec fn role_by_id(roles: Seq<Role>, id: i32) -> Option<Role>
    decreases roles.len(),
{
    if roles.len() == 0 {
        None
    } else if roles[0].id == id {
        Some(roles[0])
    } else {
        role_by_id(roles.drop_first(), id)
    }
}

/// The first account with this username.
pub open spec fn user_by_name(users: Seq<User>, name: Seq<char>) -> Option<User>
    decreases users.len(),
{
    if users.len() == 0 {
        None
    } else if users[0].username@ == name {
        Some(users[0])
    } else {
        user_by_name(users.drop_first(), name)
    }
}

/// Stored verifier and role name of an account; none where the account or
/// its role is missing.
pub open spec fn details_spec(s: AccountStore, name: Seq<char>) -> Option<(Seq<char>, Seq<char>)> {
    match user_by_name(s.users@, name) {
        Some(u) => match u.role_id {
            Some(rid) => match role_by_id(s.roles@, rid) {
                Some(r) => Some((u.password_hash@, r.role_name@)),
                None => None,
            },
            None => None,
        },
        None => None,
    }
}

/// The failure that registration meets before any hashing or writing, if any.
pub open spec fn register_check(s: AccountStore, c: AuthConfig, req: AuthRequest) -> Option<AuthError> {
    if user_exists(s.users@, req.username@) {
        Some(AuthError::UserExists)
    } else if role_by_name(s.roles@, c.default_role@) is None {
        Some(AuthError::RoleNotFound)
    } else if req.full_name is None {
        Some(AuthError::MissingFullName)
    } else if req.email is None {
        Some(AuthError::MissingEmail)
    } else if s.users.len() >= MAX_ROWS || s.user_infos.len() >= MAX_ROWS {
        Some(AuthError::StorageFull)
    } else {
        None
    }
}

/// `new` is `old` with one profile built from `req` and one account that
/// references it under `role_id`, appended.
pub open spec fn account_added(old: AccountStore, new: AccountStore, req: AuthRequest, role_id: i32) -> bool {
    let info_id = old.user_infos.len() + 1;
    &&& new.roles == old.roles
    &&& new.user_infos@ == old.user_infos@.push(
        UserInfo {
            id: info_id as i32,
            full_name: req.full_name->Some_0,
            email: req.email->Some_0,
            phone_number: req.phone_number,
            organization: req.organization,
        },
    )
    &&& new.users.len() == old.users.len() + 1
    &&& new.users@.subrange(0, old.users.len() as int) == old.users@
    &&& new.users@.last().id == old.users.len() + 1
    &&& new.users@.last().username == req.username
    &&& new.users@.last().role_id == Some(role_id)
    &&& new.users@.last().user_info_id == Some(info_id as i32)
}

/// Expiry of a token issued at `now`, where it can be represented.
pub open spec fn expiry_spec(now: int) -> Option<u64> {
    if 0 <= now + TOKEN_LIFETIME_SECS <= i64::MAX {
        Some((now + TOKEN_LIFETIME_SECS) as u64)
    } else {
        None
    }
}

/// The failure of a login before a token is issued, if any. An unknown
/// username and a wrong password give the same error.
pub open spec fn login_error(s: AccountStore, name: Seq<char>, password: Seq<char>) -> Option<AuthError> {
    match details_spec(s, name) {
        None => Some(AuthError::InvalidCredentials),
        Some((hash, _)) => verdict_spec(bcrypt_verdict(password, hash)),
    }
}

/// The failure that a password check's outcome calls for, if any.
pub open spec fn verdict_spec(verdict: Option<bool>) -> Option<AuthError> {
    match verdict {
        None => Some(AuthError::VerifyFailed),
        Some(false) => Some(AuthError::InvalidCredentials),
        Some(true) => None,
    }
}

/// The answer that issuing a token for `sub` with `role` at `now` owes: the
/// signed token where the expiry can be represented, `TokenFailed` otherwise.
pub open spec fn token_outcome(
    r: Result<TokenResponse, AuthError>,
    sub: Seq<char>,
    role: Seq<char>,
    now: i64,
    secret: Seq<u8>,
) -> bool {
    match expiry_spec(now as int) {
        Some(exp) => r is Ok && r->Ok_0.token@ == signed_token(sub, role, exp, secret),
        None => r == Err::<TokenResponse, AuthError>(AuthError::TokenFailed),
    }
}

/// What registration owes once its checks have passed: either the password
/// could not be hashed and nothing was written, or the profile and account
/// were added, the stored verifier verifies the password, and the answer is
/// the token for the default role issued at the account's creation time.
pub open spec fn registered(
    old: AccountStore,
    new: AccountStore,
    c: AuthConfig,
    req: AuthRequest,
    r: Result<TokenResponse, AuthError>,
) -> bool {
    ||| r == Err::<TokenResponse, AuthError>(AuthError::HashFailed) && new == old
    ||| {
        &&& account_added(old, new, req, role_by_name(old.roles@, c.default_role@)->Some_0.id)
        &&& bcrypt_verdict(req.password@, new.users@.last().password_hash@) == Some(true)
        &&& token_outcome(r, req.username@, c.default_role@, new.users@.last().created_at, c.secret@)
    }
}

/// What a login owes once the credentials have passed: the token for the
/// account's current role, expiring `TOKEN_LIFETIME_SECS` after `now`, or
/// `TokenFailed` where that expiry cannot be represented.
pub open spec fn logged_in(
    s: AccountStore,
    c: AuthConfig,
    req: AuthRequest,
    now: i64,
    r: Result<TokenResponse, AuthError>,
) -> bool {
    token_outcome(r, req.username@, details_spec(s, req.username@)->Some_0.1, now, c.secret@)
}

fn username_taken(users: &Vec<User>, name: &String) -> (r: bool)
    ensures
        r == user_exists(users@, name@),
{
    let mut i: usize = 0;
    while i < users.len()
        invariant
            i <= users.len(),
            forall|k: int| 0 <= k < i ==> users@[k].username@ != name@,
        decreases users.len() - i,
    {
        if users[i].username == *name {
            return true;
        }
        i += 1;
    }
    false
}

fn find_role_by_name(roles: &Vec<Role>, name: &String) -> (r: Option<usize>)
    ensures
        match r {
            Some(k) => k < roles.len() && role_by_name(roles@, name@) == Some(roles@[k as int]),
            None => role_by_name(roles@, name@) is None,
        },
{
    let mut i: usize = roles.len();
    let mut found: Option<usize> = None;
    while i > 0
        invariant
            i <= roles.len(),
            match found {
                Some(k) => i <= k < roles.len() && role_by_name(
                    roles@.subrange(i as int, roles.len() as int),
                    name@,
                ) == Some(roles@[k as int]),
                None => role_by_name(roles@.subrange(i as int, roles.len() as int), name@) is None,
            },
        decreases i,
    {
        i -= 1;
        assert(roles@.subrange(i as int, roles.len() as int).drop_first() =~= roles@.subrange(
            i + 1,
            roles.len() as int,
        ));
        if roles[i].role_name == *name {
            found = Some(i);
        }
    }
    assert(roles@.subrange(0, roles.len() as int) =~= roles@);
    found
}

fn find_role_by_id(roles: &Vec<Role>, id: i32) -> (r: Option<usize>)
    ensures
        match r {
            Some(k) => k < roles.len() && role_by_id(roles@, id) == Some(roles@[k as int]),
            None => role_by_id(roles@, id) is None,
        },
{
    let mut i: usize = roles.len();
    let mut found: Option<usize> = None;
    while i > 0
        invariant
            i <= roles.len(),
            match found {
                Some(k) => i <= k < roles.len() && role_by_id(
                    roles@.subrange(i as int, roles.len() as int),
                    id,
                ) == Some(roles@[k as int]),
                None => role_by_id(roles@.subrange(i as int, roles.len() as int), id) is None,
            },
        decreases i,
    {
        i -= 1;
        assert(roles@.subrange(i as int, roles.len() as int).drop_first() =~= roles@.subrange(
            i + 1,
            roles.len() as int,
        ));
        if roles[i].id == id {
            found = Some(i);
        }
    }
    assert(roles@.subrange(0, roles.len() as int) =~= roles@);
    found
}

fn find_user_by_name(users: &Vec<User>, name: &String) -> (r: Option<usize>)
    ensures
        match r {
            Some(k) => k < users.len() && user_by_name(users@, name@) == Some(users@[k as int]),
            None => user_by_name(users@, name@) is None,
        },
{
    let mut i: usize = users.len();
    let mut found: Option<usize> = None;
    while i > 0
        invariant
            i <= users.len(),
            match found {
                Some(k) => i <= k < users.len() && user_by_name(
                    users@.subrange(i as int, users.len() as int),
                    name@,
                ) == Some(users@[k as int]),
                None => user_by_name(users@.subrange(i as int, users.len() as int), name@) is None,
            },
        decreases i,
    {
        i -= 1;
        assert(users@.subrange(i as int, users.len() as int).drop_first() =~= users@.subrange(
            i + 1,
            users.len() as int,
        ));
        if users[i].username == *name {
            found = Some(i);
        }
    }
    assert(users@.subrange(0, users.len() as int) =~= users@);
    found
}

impl AccountStore {
    /// Ids follow positions and usernames are unique.
    pub open spec fn wf(&self) -> bool {
        &&& self.users.len() <= MAX_ROWS
        &&& self.user_infos.len() <= MAX_ROWS
        &&& forall|i: int| 0 <= i < self.users.len() ==> self.users@[i].id == i + 1
        &&& forall|i: int| 0 <= i < self.user_infos.len() ==> self.user_infos@[i].id == i + 1
        &&& forall|i: int, j: int|
            0 <= i < j < self.users.len() ==> self.users@[i].username@ != self.users@[j].username@
    }

    /// A store with the given role catalog and no accounts.
    pub fn new(roles: Vec<Role>) -> (r: Self)
        ensures
            r.wf(),
            r.roles == roles,
            r.users@.len() == 0,
            r.user_infos@.len() == 0,
    {
        AccountStore { users: Vec::new(), user_infos: Vec::new(), roles }
    }

    /// Stored verifier and role name of the account `name`.
    pub fn get_user_details(&self, name: &String) -> (r: Option<(String, String)>)
        ensures
            r is None <==> details_spec(*self, name@) is None,
            r is Some ==> details_spec(*self, name@) == Some((r->Some_0.0@, r->Some_0.1@)),
    {
        let k = match find_user_by_name(&self.users, name) {
            Some(k) => k,
            None => return None,
        };
        let rid = match self.users[k].role_id {
            Some(rid) => rid,
            None => return None,
        };
        match find_role_by_id(&self.roles, rid) {
            Some(j) => Some((self.users[k].password_hash.clone(), self.roles[j].role_name.clone())),
            None => None,
        }
    }

    /// Id of the first role of the catalog named `name`.
    pub fn get_role_id(&self, name: &String) -> (r: Option<i32>)
        ensures
            match role_by_name(self.roles@, name@) {
                Some(role) => r == Some(role.id),
                None => r is None,
            },
    {
        match find_role_by_name(&self.roles, name) {
            Some(k) => Some(self.roles[k].id),
            None => None,
        }
    }
}

/// The claims of a token for `username` with `role`, issued at `now`
/// (seconds since the Unix epoch); none where the expiry cannot be
/// represented.
pub fn claims_for(username: &String, role: &String, now: i64) -> (r: Option<Claims>)
    ensures
        match expiry_spec(now as int) {
            Some(exp) => r is Some && r->Some_0.sub == *username && r->Some_0.role == *role
                && r->Some_0.exp == exp,
            None => r is None,
        },
{
    if now < -TOKEN_LIFETIME_SECS || now > i64::MAX - TOKEN_LIFETIME_SECS {
        None
    } else {
        Some(Claims { sub: username.clone(), role: role.clone(), exp: (now + TOKEN_LIFETIME_SECS) as u64 })
    }
}

/// Signs a token for `username` with `role`, issued at `now`.
pub fn generate_token(username: &String, role: &String, now: i64, secret: &Vec<u8>) -> (r: Result<
    String,
    AuthError,
>)
    ensures
        match expiry_spec(now as int) {
            Some(exp) => r is Ok && r->Ok_0@ == signed_token(username@, role@, exp, secret@),
            None => r == Err::<String, AuthError>(AuthError::TokenFailed),
        },
{
    let claims = match claims_for(username, role, now) {
        Some(c) => c,
        None => return Err(AuthError::TokenFailed),
    };
    match encode_claims(&claims.sub, &claims.role, claims.exp, secret) {
        Some(t) => Ok(t),
        None => Err(AuthError::TokenFailed),
    }
}

/// The failure that the outcome of a password check calls for, if any.
pub fn credential_verdict(verdict: Option<bool>) -> (r: Option<AuthError>)
    ensures
        r == verdict_spec(verdict),
{
    match verdict {
        None => Some(AuthError::VerifyFailed),
        Some(false) => Some(AuthError::InvalidCredentials),
        Some(true) => None,
    }
}

/// Registers an account: refuses a taken username, a missing default role,
/// a missing full name or email, or full tables, and then writes nothing;
/// otherwise hashes the password, creates the profile and then the account
/// referencing it, and issues a token for the default role.
pub fn register_logic(store: &mut AccountStore, config: &AuthConfig, req: &AuthRequest) -> (r: Result<
    TokenResponse,
    AuthError,
>)
    requires
        old(store).wf(),
    ensures
        final(store).wf(),
        register_check(*old(store), *config, *req) is Some ==> r == Err::<
            TokenResponse,
            AuthError,
        >(register_check(*old(store), *config, *req)->Some_0) && *final(store) == *old(store),
        register_check(*old(store), *config, *req) is None ==> registered(
            *old(store),
            *final(store),
            *config,
            *req,
            r,
        ),
        register_check(*old(store), *config, *req) is None && !(4 <= config.hash_cost <= 31)
            ==> r == Err::<TokenResponse, AuthError>(AuthError::HashFailed),
{
    if username_taken(&store.users, &req.username) {
        return Err(AuthError::UserExists);
    }
    let role_id = match store.get_role_id(&config.default_role) {
        Some(id) => id,
        None => return Err(AuthError::RoleNotFound),
    };
    let full_name = match &req.full_name {
        Some(f) => f,
        None => return Err(AuthError::MissingFullName),
    };
    let email = match &req.email {
        Some(e) => e,
        None => return Err(AuthError::MissingEmail),
    };
    if store.users.len() >= MAX_ROWS || store.user_infos.len() >= MAX_ROWS {
        return Err(AuthError::StorageFull);
    }
    let hashed = match hash_password(&req.password, config.hash_cost) {
        Some(h) => h,
        None => return Err(AuthError::HashFailed),
    };
    let now = now_seconds();
    add_account(store, config, req, role_id, hashed, now)
}

/// Writes the profile of `req` and then its account, under `role_id`, with
/// the verifier `hashed`, created at `now`; answers with the token for the
/// default role issued at `now`.
pub fn add_account(
    store: &mut AccountStore,
    config: &AuthConfig,
    req: &AuthRequest,
    role_id: i32,
    hashed: String,
    now: i64,
) -> (r: Result<TokenResponse, AuthError>)
    requires
        old(store).wf(),
        !user_exists(old(store).users@, req.username@),
        req.full_name is Some,
        req.email is Some,
        old(store).users.len() < MAX_ROWS,
        old(store).user_infos.len() < MAX_ROWS,
    ensures
        final(store).wf(),
        account_added(*old(store), *final(store), *req, role_id),
        final(store).users@.last().password_hash == hashed,
        final(store).users@.last().created_at == now,
        token_outcome(r, req.username@, config.default_role@, now, config.secret@),
{
    let ghost old_store = *store;
    let full_name = match &req.full_name {
        Some(f) => f,
        None => return Err(AuthError::MissingFullName),
    };
    let email = match &req.email {
        Some(e) => e,
        None => return Err(AuthError::MissingEmail),
    };
    let info_id = (store.user_infos.len() + 1) as i32;
    store.user_infos.push(
        UserInfo {
            id: info_id,
            full_name: full_name.clone(),
            email: email.clone(),
            phone_number: clone_text(&req.phone_number),
            organization: clone_text(&req.organization),
        },
    );
    let user_id = (store.users.len() + 1) as i32;
    store.users.push(
        User {
            id: user_id,
            username: req.username.clone(),
            password_hash: hashed,
            role_id: Some(role_id),
            user_info_id: Some(info_id),
            created_at: now,
        },
    );
    assert(store.users@.subrange(0, old_store.users.len() as int) =~= old_store.users@);
    assert forall|i: int, j: int| 0 <= i < j < store.users.len() implies store.users@[i].username@
        != store.users@[j].username@ by {
        if j == old_store.users.len() {
            assert(old_store.users@[i].username@ != req.username@);
        }
    }
    let token = match generate_token(&req.username, &config.default_role, now, &config.secret) {
        Ok(t) => t,
        Err(e) => return Err(e),
    };
    Ok(TokenResponse { token })
}

/// Logs in at server time `now` (seconds since the Unix epoch): checks the
/// password against the stored verifier and issues a token for the
/// account's current role. An unknown username and a wrong password fail
/// alike.
pub fn login_at(store: &AccountStore, config: &AuthConfig, req: &AuthRequest, now: i64) -> (r: Result<
    TokenResponse,
    AuthError,
>)
    ensures
        login_error(*store, req.username@, req.password@) is Some ==> r == Err::<
            TokenResponse,
            AuthError,
        >(login_error(*store, req.username@, req.password@)->Some_0),
        login_error(*store, req.username@, req.password@) is None ==> logged_in(
            *store,
            *config,
            *req,
            now,
            r,
        ),
{
    let (hash, role) = match store.get_user_details(&req.username) {
        Some(d) => d,
        None => return Err(AuthError::InvalidCredentials),
    };
    match credential_verdict(verify_password(&req.password, &hash)) {
        Some(e) => return Err(e),
        None => {},
    }
    let token = match generate_token(&req.username, &role, now, &config.secret) {
        Ok(t) => t,
        Err(e) => return Err(e),
    };
    Ok(TokenResponse { token })
}

/// Logs in at the current server time.
pub fn login_logic(store: &AccountStore, config: &AuthConfig, req: &AuthRequest) -> (r: Result<
    TokenResponse,
    AuthError,
>)
    ensures
        login_error(*store, req.username@, req.password@) is Some ==> r == Err::<
            TokenResponse,
            AuthError,
        >(login_error(*store, req.username@, req.password@)->Some_0),
        login_error(*store, req.username@, req.password@) is None ==> exists|now: i64|
            logged_in(*store, *config, *req, now, r),
{
    let now = now_seconds();
    login_at(store, config, req, now)
}

/// Once a registration has added an account, registering the same username
/// again is refused as a conflict, before any profile is written.
pub proof fn lemma_second_registration_conflicts(
    old: AccountStore,
    new: AccountStore,
    c: AuthConfig,
    first: AuthRequest,
    second: AuthRequest,
    role_id: i32,
)
    requires
        account_added(old, new, first, role_id),
        second.username@ == first.username@,
    ensures
        register_check(new, c, second) == Some(AuthError::UserExists),
{
    assert(new.users@[new.users.len() - 1].username@ == second.username@);
}

proof fn lemma_user_by_name_last(s: Seq<User>, name: Seq<char>)
    requires
        s.len() > 0,
        s.last().username@ == name,
        forall|k: int| 0 <= k < s.len() - 1 ==> s[k].username@ != name,
    ensures
        user_by_name(s, name) == Some(s.last()),
    decreases s.len(),
{
    if s.len() > 1 {
        let t = s.drop_first();
        assert(t.last() == s.last());
        assert forall|k: int| 0 <= k < t.len() - 1 implies t[k].username@ != name by {
            assert(t[k] == s[k + 1]);
        }
        lemma_user_by_name_last(t, name);
    }
}

proof fn lemma_role_by_name_has_id(roles: Seq<Role>, name: Seq<char>)
    requires
        role_by_name(roles, name) is Some,
    ensures
        role_by_id(roles, role_by_name(roles, name)->Some_0.id) is Some,
    decreases roles.len(),
{
    let r = role_by_name(roles, name)->Some_0;
    if roles[0].id != r.id {
        lemma_role_by_name_has_id(roles.drop_first(), name);
    }
}

/// An account that registration added logs in with the password it was
/// registered with: the credentials pass, and the token carries the role
/// that the account's role id names.
pub proof fn lemma_registered_account_logs_in(
    old: AccountStore,
    new: AccountStore,
    c: AuthConfig,
    req: AuthRequest,
)
    requires
        register_check(old, c, req) is None,
        account_added(old, new, req, role_by_name(old.roles@, c.default_role@)->Some_0.id),
        bcrypt_verdict(req.password@, new.users@.last().password_hash@) == Some(true),
    ensures
        login_error(new, req.username@, req.password@) is None,
        details_spec(new, req.username@)->Some_0.1 == role_by_id(
            new.roles@,
            role_by_name(old.roles@, c.default_role@)->Some_0.id,
        )->Some_0.role_name@,
{
    assert forall|k: int| 0 <= k < new.users.len() - 1 implies new.users@[k].username@
        != req.username@ by {
        assert(new.users@.subrange(0, old.users.len() as int)[k] == old.users@[k]);
    }
    lemma_user_by_name_last(new.users@, req.username@);
    lemma_role_by_name_has_id(old.roles@, c.default_role@);
}

/// A wrong password for a known account fails exactly as an unknown
/// username does.
pub proof fn lemma_wrong_password_like_unknown_user(
    s: AccountStore,
    known: Seq<char>,
    wrong_password: Seq<char>,
    unknown: Seq<char>,
    password: Seq<char>,
)
    requires
        details_spec(s, known) is Some,
        bcrypt_verdict(wrong_password, details_spec(s, known)->Some_0.0) == Some(false),
        user_by_name(s.users@, unknown) is None,
    ensures
        login_error(s, known, wrong_password) == login_error(s, unknown, password),
        login_error(s, unknown, password) == Some(AuthError::InvalidCredentials),
{
}

} // verus!
