//! Principals, the authorization protocol, and the credential service.
//!
//! The service decides; the caller talks to the credential store. Each
//! operation that needs the store is split at that point: a first step says
//! what to ask the store, a second takes the store's answer and settles the
//! outcome and the cache.

use vstd::prelude::*;
use vstd::string::StringExecFns;

use chrono::NaiveDateTime;
use mongodb::bson::oid::ObjectId;

use crate::cache::{cached_record, entry_fresh, fresh_entries, ApiKeyCache};
use crate::errors::{AuthError, StoreError};
use crate::hasher::{hex_encode, is_lower_hex, key_digest, lemma_hex_chars, sha256};
use crate::models::ApiKey;
use crate::text::{has_prefix, strip_prefix};

verus! {

/// Relies on bson's `ObjectId::new`: a fresh identifier; its value depends on
/// the time and a process-wide counter, so nothing is promised of it.
pub assume_specification[ ObjectId::new ]() -> ObjectId;

/// Relies on chrono's `Utc::now`: the current time, which nothing here can
/// predict.
#[verifier::external_body]
fn utc_now() -> NaiveDateTime {
    chrono::Utc::now().naive_utc()
}

/// Relies on uuid's `Uuid::new_v4` in its simple form: 32 lowercase
/// hexadecimal digits of a random identifier.
#[verifier::external_body]
fn random_uuid_simple() -> (r: String)
    ensures
        r@.len() == 32,
        forall|i: int| 0 <= i < 32 ==> is_lower_hex(#[trigger] r@[i]),
{
    uuid::Uuid::new_v4().simple().to_string()
}

/// An authenticated caller: the credential its bearer token resolved to.
#[derive(Debug, Clone)]
pub struct User {
    pub api_key: ApiKey,
}

impl User {
    /// The credential's identifier.
    pub fn id(&self) -> (r: ObjectId)
        ensures
            r == self.api_key.oid,
    {
        self.api_key.oid
    }

    /// Whether the credential carries the admin capability.
    pub fn is_admin(&self) -> (r: bool)
        ensures
            r == self.api_key.is_admin,
    {
        self.api_key.is_admin
    }

    /// When the credential was created.
    pub fn created_at(&self) -> (r: NaiveDateTime)
        ensures
            r == self.api_key.created_at,
    {
        self.api_key.created_at
    }

    /// When the credential was last used, if ever.
    pub fn last_used_at(&self) -> (r: Option<NaiveDateTime>)
        ensures
            r == self.api_key.last_used_at,
    {
        self.api_key.last_used_at
    }

    /// Succeeds exactly when the caller holds the admin capability.
    pub fn require_admin(&self) -> (r: Result<(), AuthError>)
        ensures
            r == (if self.api_key.is_admin {
                Ok(())
            } else {
                Err(AuthError::InsufficientPermissions)
            }),
    {
        if self.is_admin() {
            Ok(())
        } else {
            Err(AuthError::InsufficientPermissions)
        }
    }

    /// The credential record behind this caller.
    pub fn as_api_key(&self) -> (r: &ApiKey)
        ensures
            *r == self.api_key,
    {
        &self.api_key
    }

    /// The principal admitted by a validation: its record on success, its
    /// error otherwise.
    pub fn from_validation(validated: Result<ApiKey, AuthError>) -> (r: Result<User, AuthError>)
        ensures
            r == (match validated {
                Ok(k) => Ok::<User, AuthError>(User { api_key: k }),
                Err(e) => Err(e),
            }),
    {
        match validated {
            Ok(k) => Ok(User { api_key: k }),
            Err(e) => Err(e),
        }
    }
}

/// A caller whose admin capability has been checked. It is made only by
/// [`AdminUser::from_user`], and everything available on [`User`] stays
/// available through it.
pub struct AdminUser(User);

impl AdminUser {
    #[verifier::type_invariant]
    spec fn holds_capability(self) -> bool {
        self.0.api_key.is_admin
    }

    /// The checked principal.
    pub closed spec fn principal(self) -> User {
        self.0
    }

    /// Promotes `user` when it holds the admin capability.
    pub fn from_user(user: User) -> (r: Result<AdminUser, AuthError>)
        ensures
            match r {
                Ok(a) => user.api_key.is_admin && a.principal() == user,
                Err(e) => !user.api_key.is_admin && e == AuthError::InsufficientPermissions,
            },
    {
        if user.is_admin() {
            Ok(AdminUser(user))
        } else {
            Err(AuthError::InsufficientPermissions)
        }
    }

    /// The checked principal, which holds the admin capability.
    pub fn user(&self) -> (r: &User)
        ensures
            *r == self.principal(),
            r.api_key.is_admin,
    {
        proof {
            use_type_invariant(self);
        }
        &self.0
    }
}

impl core::ops::Deref for AdminUser {
    type Target = User;

    fn deref(&self) -> &User {
        &self.0
    }
}

/// The token carried by an `Authorization` header value: what follows the
/// literal, case-sensitive prefix `Bearer `.
pub open spec fn bearer_token_of(h: Seq<char>) -> Option<Seq<char>> {
    if has_prefix(h, "Bearer "@) {
        Some(h.subrange("Bearer "@.len() as int, h.len() as int))
    } else {
        None
    }
}

/// The first transition of the protocol: from an optional header value to a
/// token, or to the failure that ends the request.
pub open spec fn token_outcome(header: Option<Seq<char>>) -> Result<Seq<char>, AuthError> {
    match header {
        None => Err(AuthError::MissingHeader),
        Some(h) => match bearer_token_of(h) {
            Some(t) => Ok(t),
            None => Err(AuthError::InvalidFormat),
        },
    }
}

/// The view of an optional header value.
pub open spec fn header_view(header: Option<&str>) -> Option<Seq<char>> {
    match header {
        Some(h) => Some(h@),
        None => None,
    }
}

/// What the store's answer to a lookup by digest means for validation.
pub open spec fn store_outcome(found: Result<Option<ApiKey>, StoreError>) -> Result<
    ApiKey,
    AuthError,
> {
    match found {
        Err(_) => Err(AuthError::Database),
        Ok(None) => Err(AuthError::InvalidKey),
        Ok(Some(k)) => Ok(k),
    }
}

/// The outcome of validating `key` against the cache `m` at `now`, where
/// `found` is what the store answers if it is asked.
pub open spec fn validation_outcome(
    m: Map<Seq<char>, (ApiKey, u64)>,
    key: Seq<char>,
    now: u64,
    found: Result<Option<ApiKey>, StoreError>,
) -> Result<ApiKey, AuthError> {
    match cached_record(m, key_digest(key), now) {
        Some(k) => Ok(k),
        None => store_outcome(found),
    }
}

/// The cache after a lookup by `key_hash` in the store answered `found`.
pub open spec fn after_lookup(
    m: Map<Seq<char>, (ApiKey, u64)>,
    key_hash: Seq<char>,
    now: u64,
    found: Result<Option<ApiKey>, StoreError>,
) -> Map<Seq<char>, (ApiKey, u64)> {
    match found {
        Ok(Some(k)) => m.insert(key_hash, (k, now)),
        _ => m,
    }
}

/// The cache after a validation of `key` at `now`.
pub open spec fn after_validation(
    m: Map<Seq<char>, (ApiKey, u64)>,
    key: Seq<char>,
    now: u64,
    found: Result<Option<ApiKey>, StoreError>,
) -> Map<Seq<char>, (ApiKey, u64)> {
    match cached_record(m, key_digest(key), now) {
        Some(_) => m,
        None => after_lookup(m, key_digest(key), now, found),
    }
}

/// The cache after `record` was written to the store, as of `now`.
pub open spec fn after_create(m: Map<Seq<char>, (ApiKey, u64)>, record: ApiKey, now: u64) -> Map<
    Seq<char>,
    (ApiKey, u64),
> {
    m.insert(record.key_hash@, (record, now))
}

/// The cache after the credential with digest `key_hash` was revoked.
pub open spec fn after_revoke(m: Map<Seq<char>, (ApiKey, u64)>, key_hash: Seq<char>) -> Map<
    Seq<char>,
    (ApiKey, u64),
> {
    m.remove(key_hash)
}

/// What the first step of a validation found.
pub enum CacheLookup {
    /// A fresh cached record; the store need not be asked.
    Hit(ApiKey),
    /// No fresh record: the store must be asked for this digest.
    Miss(String),
}

/// The admin credentials among `keys`, in order.
pub open spec fn admins(keys: Seq<ApiKey>) -> Seq<ApiKey> {
    keys.filter(|k: ApiKey| k.is_admin)
}

/// What the startup check decides.
pub enum BootstrapAction {
    /// An admin credential exists; nothing is written.
    AdminExists,
    /// No admin credential exists: one is to be created from this key.
    CreateAdmin(String),
    /// No admin credential exists and no bootstrap key was supplied; nothing
    /// is written.
    NoBootstrapKey,
}

/// Whether a startup decision writes to the store.
pub open spec fn bootstrap_writes(a: BootstrapAction) -> bool {
    a is CreateAdmin
}

/// The startup decision, from the store's count of admin credentials and the
/// bootstrap key, if one was supplied.
pub open spec fn bootstrap_decision(
    admin_count: Result<u64, StoreError>,
    bootstrap_key: Option<String>,
) -> Result<BootstrapAction, AuthError> {
    match admin_count {
        Err(_) => Err(AuthError::Database),
        Ok(n) => if n > 0 {
            Ok(BootstrapAction::AdminExists)
        } else {
            match bootstrap_key {
                Some(k) => Ok(BootstrapAction::CreateAdmin(k)),
                None => Ok(BootstrapAction::NoBootstrapKey),
            }
        },
    }
}

/// Issues, validates and revokes credentials, in front of a cache.
pub struct AuthService {
    cache: ApiKeyCache,
}

impl View for AuthService {
    type V = Map<Seq<char>, (ApiKey, u64)>;

    closed spec fn view(&self) -> Self::V {
        self.cache@
    }
}

impl AuthService {
    /// The service's internal consistency.
    pub closed spec fn wf(&self) -> bool {
        self.cache.wf()
    }

    /// A service with an empty cache.
    pub fn new() -> (r: Self)
        ensures
            r.wf(),
            r@ == Map::<Seq<char>, (ApiKey, u64)>::empty(),
    {
        AuthService { cache: ApiKeyCache::new() }
    }

    /// The digest under which a plaintext key is stored: 64 lowercase
    /// hexadecimal characters.
    pub fn hash_api_key(key: &str) -> (r: String)
        ensures
            r@ == key_digest(key@),
            r@.len() == 64,
            forall|i: int| 0 <= i < r@.len() ==> is_lower_hex(#[trigger] r@[i]),
    {
        let digest = sha256(key.as_bytes());
        let r = hex_encode(digest.as_slice());
        proof {
            lemma_hex_chars(digest@);
        }
        r
    }

    /// The token of an `Authorization` header value.
    pub fn extract_bearer_token(auth_header: &str) -> (r: Result<&str, AuthError>)
        ensures
            match r {
                Ok(t) => bearer_token_of(auth_header@) == Some(t@),
                Err(e) => bearer_token_of(auth_header@) is None && e == AuthError::InvalidFormat,
            },
    {
        match strip_prefix(auth_header, "Bearer ") {
            Some(t) => Ok(t),
            None => Err(AuthError::InvalidFormat),
        }
    }

    /// The token of a request, from its `Authorization` header if it has one.
    pub fn token_from_header(header: Option<&str>) -> (r: Result<&str, AuthError>)
        ensures
            match r {
                Ok(t) => token_outcome(header_view(header)) == Ok::<Seq<char>, AuthError>(t@),
                Err(e) => token_outcome(header_view(header)) == Err::<Seq<char>, AuthError>(e),
            },
    {
        match header {
            None => Err(AuthError::MissingHeader),
            Some(h) => Self::extract_bearer_token(h),
        }
    }

    /// First step of validation: a fresh cached record for `key`, or the
    /// digest to look up in the store.
    pub fn validate_api_key(&self, key: &str, now: u64) -> (r: CacheLookup)
        requires
            self.wf(),
        ensures
            match r {
                CacheLookup::Hit(k) => cached_record(self@, key_digest(key@), now) == Some(k),
                CacheLookup::Miss(h) => h@ == key_digest(key@) && cached_record(
                    self@,
                    key_digest(key@),
                    now,
                ) is None,
            },
    {
        let key_hash = Self::hash_api_key(key);
        match self.cache.get(key_hash.as_str(), now) {
            Some(k) => CacheLookup::Hit(k),
            None => CacheLookup::Miss(key_hash),
        }
    }

    /// Second step of validation: the store's answer for `key_hash` settles
    /// the outcome, and a record found there is cached as of `now`.
    pub fn complete_validation(
        &mut self,
        key_hash: String,
        found: Result<Option<ApiKey>, StoreError>,
        now: u64,
    ) -> (r: Result<ApiKey, AuthError>)
        requires
            old(self).wf(),
        ensures
            final(self).wf(),
            r == store_outcome(found),
            final(self)@ == after_lookup(old(self)@, key_hash@, now, found),
    {
        match found {
            Err(_) => Err(AuthError::Database),
            Ok(None) => Err(AuthError::InvalidKey),
            Ok(Some(k)) => {
                let cached = k.copied();
                self.cache.insert(key_hash, cached, now);
                Ok(k)
            },
        }
    }

    /// A new credential record for `key`, with the given identifier and
    /// creation time and no recorded use.
    pub fn api_key_record(key: &str, is_admin: bool, oid: ObjectId, created_at: NaiveDateTime) -> (r:
        ApiKey)
        ensures
            r.oid == oid,
            r.key_hash@ == key_digest(key@),
            r.is_admin == is_admin,
            r.created_at == created_at,
            r.last_used_at is None,
    {
        ApiKey { oid, key_hash: Self::hash_api_key(key), is_admin, created_at, last_used_at: None }
    }

    /// A new credential record for `key`, with a fresh identifier and the
    /// current time; it still has to be written to the store.
    pub fn prepare_api_key(key: &str, is_admin: bool) -> (r: ApiKey)
        ensures
            r.key_hash@ == key_digest(key@),
            r.is_admin == is_admin,
            r.last_used_at is None,
    {
        Self::api_key_record(key, is_admin, ObjectId::new(), utc_now())
    }

    /// Settles a creation once the store has answered the write of `record`:
    /// on success the record is cached as of `now` and returned.
    pub fn create_api_key(&mut self, record: ApiKey, stored: Result<(), StoreError>, now: u64) -> (r:
        Result<ApiKey, AuthError>)
        requires
            old(self).wf(),
        ensures
            final(self).wf(),
            match stored {
                Ok(()) => r == Ok::<ApiKey, AuthError>(record) && final(self)@ == after_create(
                    old(self)@,
                    record,
                    now,
                ),
                Err(_) => r == Err::<ApiKey, AuthError>(AuthError::Database) && final(self)@ == old(
                    self,
                )@,
            },
    {
        match stored {
            Ok(()) => {
                let cached = record.copied();
                self.cache.insert(record.key_hash.clone(), cached, now);
                Ok(record)
            },
            Err(_) => Err(AuthError::Database),
        }
    }

    /// Settles a revocation once the store has answered the delete by
    /// `key_hash`. The cache entry is purged whatever the store said, so a
    /// revoked key stops validating at once.
    pub fn revoke_api_key(&mut self, key_hash: &str, deleted: Result<(), StoreError>) -> (r: Result<
        (),
        AuthError,
    >)
        requires
            old(self).wf(),
        ensures
            final(self).wf(),
            final(self)@ == after_revoke(old(self)@, key_hash@),
            r == (match deleted {
                Ok(()) => Ok::<(), AuthError>(()),
                Err(_) => Err(AuthError::Database),
            }),
    {
        self.cache.remove(key_hash);
        match deleted {
            Ok(()) => Ok(()),
            Err(_) => Err(AuthError::Database),
        }
    }

    /// Drops the cached records that are no longer fresh at `now`.
    pub fn cleanup_cache(&mut self, now: u64)
        requires
            old(self).wf(),
        ensures
            final(self).wf(),
            final(self)@ == fresh_entries(old(self)@, now),
    {
        self.cache.cleanup_expired(now);
    }

    /// The records read from the store, or `Database` if any read failed.
    pub fn list_api_keys(results: &Vec<Result<ApiKey, StoreError>>) -> (r: Result<
        Vec<ApiKey>,
        AuthError,
    >)
        ensures
            match r {
                Ok(v) => v@.len() == results@.len() && forall|i: int|
                    0 <= i < v@.len() ==> results@[i] == Ok::<ApiKey, StoreError>(
                        #[trigger] v@[i],
                    ),
                Err(e) => e == AuthError::Database && exists|i: int|
                    0 <= i < results@.len() && #[trigger] results@[i] is Err,
            },
    {
        let mut keys: Vec<ApiKey> = Vec::new();
        let mut i: usize = 0;
        while i < results.len()
            invariant
                i <= results@.len(),
                keys@.len() == i,
                forall|j: int| 0 <= j < i ==> results@[j] == Ok::<ApiKey, StoreError>(#[trigger] keys@[j]),
            decreases results@.len() - i,
        {
            match &results[i] {
                Ok(k) => keys.push(k.copied()),
                Err(_) => return Err(AuthError::Database),
            }
            i = i + 1;
        }
        Ok(keys)
    }

    /// The outcome of recording a use of a credential in the store. Callers
    /// that admit a request treat a failure here as non-fatal.
    pub fn update_last_used(stored: Result<(), StoreError>) -> (r: Result<(), AuthError>)
        ensures
            r == (match stored {
                Ok(()) => Ok::<(), AuthError>(()),
                Err(_) => Err(AuthError::Database),
            }),
    {
        match stored {
            Ok(()) => Ok(()),
            Err(_) => Err(AuthError::Database),
        }
    }

    /// Decides whether startup must create an admin credential: only when the
    /// store counts none and a bootstrap key was supplied.
    pub fn ensure_admin_exists(
        admin_count: Result<u64, StoreError>,
        bootstrap_key: Option<String>,
    ) -> (r: Result<BootstrapAction, AuthError>)
        ensures
            r == bootstrap_decision(admin_count, bootstrap_key),
    {
        match admin_count {
            Err(_) => Err(AuthError::Database),
            Ok(n) => if n > 0 {
                Ok(BootstrapAction::AdminExists)
            } else {
                match bootstrap_key {
                    Some(k) => Ok(BootstrapAction::CreateAdmin(k)),
                    None => Ok(BootstrapAction::NoBootstrapKey),
                }
            },
        }
    }

    /// How many of `keys` carry the admin capability.
    pub fn count_admins(keys: &Vec<ApiKey>) -> (r: usize)
        ensures
            r == admins(keys@).len(),
    {
        let ghost pred = |k: ApiKey| k.is_admin;
        let mut n: usize = 0;
        let mut i: usize = 0;
        while i < keys.len()
            invariant
                i <= keys@.len(),
                pred == (|k: ApiKey| k.is_admin),
                n == keys@.subrange(0, i as int).filter(pred).len(),
            decreases keys@.len() - i,
        {
            proof {
                assert(keys@.subrange(0, i + 1) =~= keys@.subrange(0, i as int).push(keys@[i as int]));
                keys@.subrange(0, i as int).lemma_filter_push(keys@[i as int], pred);
                keys@.subrange(0, i as int).lemma_filter_len(pred);
            }
            if keys[i].is_admin {
                n = n + 1;
            }
            i = i + 1;
        }
        assert(keys@.subrange(0, keys@.len() as int) =~= keys@);
        n
    }

    /// The admin credentials among `keys`, in order.
    pub fn admin_keys(keys: &Vec<ApiKey>) -> (r: Vec<ApiKey>)
        ensures
            r@ == admins(keys@),
    {
        let ghost pred = |k: ApiKey| k.is_admin;
        let mut out: Vec<ApiKey> = Vec::new();
        let mut i: usize = 0;
        while i < keys.len()
            invariant
                i <= keys@.len(),
                pred == (|k: ApiKey| k.is_admin),
                out@ == keys@.subrange(0, i as int).filter(pred),
            decreases keys@.len() - i,
        {
            proof {
                assert(keys@.subrange(0, i + 1) =~= keys@.subrange(0, i as int).push(keys@[i as int]));
                keys@.subrange(0, i as int).lemma_filter_push(keys@[i as int], pred);
            }
            if keys[i].is_admin {
                out.push(keys[i].copied());
            }
            i = i + 1;
        }
        assert(keys@.subrange(0, keys@.len() as int) =~= keys@);
        out
    }

    /// A new random plaintext key: `ak_` followed by 32 lowercase hexadecimal
    /// digits.
    pub fn generate_api_key() -> (r: String)
        ensures
            r@.len() == 35,
            r@.subrange(0, 3) == "ak_"@,
            forall|i: int| 3 <= i < 35 ==> is_lower_hex(#[trigger] r@[i]),
    {
        let id = random_uuid_simple();
        let r = String::from_str("ak_").concat(id.as_str());
        proof {
            reveal_strlit("ak_");
            assert(r@.subrange(0, 3) =~= "ak_"@);
            assert forall|i: int| 3 <= i < 35 implies is_lower_hex(#[trigger] r@[i]) by {
                assert(r@[i] == id@[i - 3]);
            }
        }
        r
    }
}

/// A key created without the admin capability validates to the record that
/// was created, with the same identifier and no admin capability: from the
/// cache while the entry is fresh, and otherwise from the store that holds it.
pub proof fn lemma_create_then_validate(
    m: Map<Seq<char>, (ApiKey, u64)>,
    key: Seq<char>,
    record: ApiKey,
    created: u64,
    now: u64,
    found: Result<Option<ApiKey>, StoreError>,
)
    requires
        record.key_hash@ == key_digest(key),
        !record.is_admin,
        entry_fresh(created, now) || found == Ok::<Option<ApiKey>, StoreError>(Some(record)),
    ensures
        validation_outcome(after_create(m, record, created), key, now, found) == Ok::<
            ApiKey,
            AuthError,
        >(record),
{
}

/// Revocation is immediate: once a key is created, validated (and so
/// cached), and revoked, validating it again goes to the store, and a store
/// that no longer holds it makes the key `InvalidKey`.
pub proof fn lemma_revoke_then_validate(
    m: Map<Seq<char>, (ApiKey, u64)>,
    key: Seq<char>,
    record: ApiKey,
    created: u64,
    validated: u64,
    found_before: Result<Option<ApiKey>, StoreError>,
    now: u64,
)
    requires
        record.key_hash@ == key_digest(key),
    ensures
        ({
            let cached = after_validation(after_create(m, record, created), key, validated, found_before);
            let revoked = after_revoke(cached, key_digest(key));
            &&& cached_record(revoked, key_digest(key), now) is None
            &&& validation_outcome(revoked, key, now, Ok(None)) == Err::<ApiKey, AuthError>(
                AuthError::InvalidKey,
            )
        }),
{
}

/// Once an admin credential exists, the startup check writes nothing, each
/// time it runs and whatever bootstrap key it is given.
pub proof fn lemma_bootstrap_idempotent(
    admin_count: u64,
    first_key: Option<String>,
    second_key: Option<String>,
)
    requires
        admin_count >= 1,
    ensures
        bootstrap_decision(Ok(admin_count), first_key) matches Ok(a) && !bootstrap_writes(a),
        bootstrap_decision(Ok(admin_count), second_key) matches Ok(a) && !bootstrap_writes(a),
{
}

} // verus!
