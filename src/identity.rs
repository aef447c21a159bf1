use vstd::arithmetic::power::pow;
use vstd::prelude::*;

use crate::claims::{claims_json, Claims, ClaimsView};
use crate::error::AuthError;
use crate::hasher::{bcrypt_reads, hash_password, password_matches, verify_password};
use crate::middleware::{get_user_from_request, RequestContext};
use crate::text::{hex_digit, str_eq};
use crate::token::{encode, expiry_after, jwt_signed, now_timestamp, TOKEN_LIFETIME_SECS};

verus! {

#[verifier::external_type_specification]
#[verifier::external_body]
pub struct ExUuidError(uuid::Error);

/// The hexadecimal digit of `id` at position `k` (0 to 31), the most significant first.
pub open spec fn uuid_nibble(id: u128, k: int) -> u32 {
    ((id as int / pow(16, (31 - k) as nat)) % 16) as u32
}

/// How many hyphens the hyphenated UUID form holds before text position `p`.
pub open spec fn hyphens_before(p: int) -> int {
    if p < 8 {
        0
    } else if p < 13 {
        1
    } else if p < 18 {
        2
    } else if p < 23 {
        3
    } else {
        4
    }
}

/// The hyphenated lower-case text of the UUID whose 128-bit value is `id`: 32 hexadecimal
/// digits, most significant first, grouped 8-4-4-4-12.
pub open spec fn uuid_text(id: u128) -> Seq<char> {
    Seq::new(
        36,
        |p: int|
            if p == 8 || p == 13 || p == 18 || p == 23 {
                '-'
            } else {
                hex_digit(uuid_nibble(id, p - hyphens_before(p)))
            },
    )
}

/// The UUID value that `text` spells, in any form that the uuid crate reads.
pub uninterp spec fn uuid_parsed(text: Seq<char>) -> Option<u128>;

/// Relies on `uuid::Uuid::new_v4`: a random version-4 identifier, as its 128-bit value.
#[verifier::external_body]
fn new_identity_id() -> u128 {
    uuid::Uuid::new_v4().as_u128()
}

/// Relies on `Display` for `uuid::Uuid` after `Uuid::from_u128`, which writes the hyphenated
/// lower-case form of the value, its bytes big-endian.
#[verifier::external_body]
fn identity_id_text(id: u128) -> (r: String)
    ensures
        r@ == uuid_text(id),
{
    uuid::Uuid::from_u128(id).to_string()
}

/// Relies on `uuid::Uuid::parse_str`, which reads the hyphenated form that `Display` writes back
/// to the same value.
#[verifier::external_body]
fn parse_identity_id(text: &str) -> (r: Result<u128, uuid::Error>)
    ensures
        r is Ok <==> uuid_parsed(text@) is Some,
        r is Ok ==> r->Ok_0 == uuid_parsed(text@)->Some_0,
        forall|x: u128| #[trigger] uuid_text(x) == text@ ==> r is Ok && r->Ok_0 == x,
{
    uuid::Uuid::parse_str(text).map(|u| u.as_u128())
}

/// A stored identity.
#[derive(Debug, Clone)]
pub struct IdentityRecord {
    pub id: u128,
    pub email: String,
    pub password_hash: String,
    pub role: String,
    /// Seconds since the Unix epoch.
    pub created_at: i64,
    pub updated_at: i64,
}

/// The claims that a token issued for `rec`, expiring at `exp`, carries.
pub open spec fn claims_for(rec: IdentityRecord, exp: u64) -> ClaimsView {
    ClaimsView { sub: uuid_text(rec.id), email: rec.email@, role: rec.role@, exp }
}

/// No two of `records` share an email.
pub open spec fn emails_unique(records: Seq<IdentityRecord>) -> bool {
    forall|i: int, j: int|
        0 <= i < records.len() && 0 <= j < records.len() && i != j ==> #[trigger] records[i].email@
            != #[trigger] records[j].email@
}

/// Identity records with unique emails.
#[derive(Debug)]
pub struct IdentityStore {
    records: Vec<IdentityRecord>,
}

impl IdentityStore {
    pub closed spec fn records(&self) -> Seq<IdentityRecord> {
        self.records@
    }

    /// No two records share an email.
    pub open spec fn wf(&self) -> bool {
        emails_unique(self.records())
    }

    pub open spec fn has_email(&self, email: Seq<char>) -> bool {
        exists|i: int| 0 <= i < self.records().len() && #[trigger] self.records()[i].email@ == email
    }

    pub fn new() -> (r: IdentityStore)
        ensures
            r.wf(),
            r.records().len() == 0,
    {
        IdentityStore { records: Vec::new() }
    }

    pub fn len(&self) -> (r: usize)
        ensures
            r == self.records().len(),
    {
        self.records.len()
    }

    /// The record at position `i`, in order of insertion.
    pub fn get(&self, i: usize) -> (r: &IdentityRecord)
        requires
            i < self.records().len(),
        ensures
            *r == self.records()[i as int],
    {
        &self.records[i]
    }

    /// The position of the record with `email`, compared exactly.
    pub fn find_by_email(&self, email: &str) -> (r: Option<usize>)
        ensures
            match r {
                None => !self.has_email(email@),
                Some(i) => i < self.records().len() && self.records()[i as int].email@ == email@,
            },
    {
        let mut i: usize = 0;
        while i < self.records.len()
            invariant
                i <= self.records().len(),
                forall|k: int| 0 <= k < i ==> #[trigger] self.records()[k].email@ != email@,
            decreases self.records().len() - i,
        {
            if str_eq(self.records[i].email.as_str(), email) {
                return Some(i);
            }
            i = i + 1;
        }
        None
    }

    /// The position of the record with identifier `id`.
    pub fn find_by_id(&self, id: u128) -> (r: Option<usize>)
        ensures
            match r {
                None => forall|k: int| 0 <= k < self.records().len() ==> #[trigger] self.records()[k].id != id,
                Some(i) => i < self.records().len() && self.records()[i as int].id == id,
            },
    {
        let mut i: usize = 0;
        while i < self.records.len()
            invariant
                i <= self.records().len(),
                forall|k: int| 0 <= k < i ==> #[trigger] self.records()[k].id != id,
            decreases self.records().len() - i,
        {
            if self.records[i].id == id {
                return Some(i);
            }
            i = i + 1;
        }
        None
    }

    /// Adds `rec`; refused with `StoreError`, the store unchanged, where its email is taken.
    pub fn insert(&mut self, rec: IdentityRecord) -> (r: Result<(), AuthError>)
        requires
            old(self).wf(),
        ensures
            final(self).wf(),
            old(self).has_email(rec.email@) ==> r == Err::<(), AuthError>(AuthError::StoreError)
                && final(self).records() == old(self).records(),
            !old(self).has_email(rec.email@) ==> r is Ok && final(self).records() == old(
                self,
            ).records().push(rec),
    {
        match self.find_by_email(rec.email.as_str()) {
            Some(_) => Err(AuthError::StoreError),
            None => {
                self.records.push(rec);
                proof {
                    assert forall|i: int, j: int|
                        0 <= i < self.records().len() && 0 <= j < self.records().len() && i != j
                            implies #[trigger] self.records()[i].email@
                            != #[trigger] self.records()[j].email@ by {
                        if i < old(self).records().len() && j < old(self).records().len() {
                            assert(old(self).records()[i] == self.records()[i]);
                            assert(old(self).records()[j] == self.records()[j]);
                        } else if i < old(self).records().len() {
                            assert(old(self).records()[i] == self.records()[i]);
                        } else {
                            assert(old(self).records()[j] == self.records()[j]);
                        }
                    }
                }
                Ok(())
            },
        }
    }
}

/// Credentials of a login.
#[derive(Debug, Clone)]
pub struct LoginRequest {
    pub email: String,
    pub password: String,
}

/// A new identity to register.
#[derive(Debug, Clone)]
pub struct RegisterRequest {
    pub email: String,
    pub password: String,
    pub role: String,
}

/// The public face of an identity.
#[derive(Debug, Clone)]
pub struct UserInfo {
    pub id: u128,
    pub email: String,
    pub role: String,
}

/// A freshly issued token and the identity it was issued for.
#[derive(Debug, Clone)]
pub struct AuthResponse {
    pub token: String,
    pub user: UserInfo,
}

/// The identity that a request's claims resolve to.
#[derive(Debug, Clone)]
pub struct CurrentUserResponse {
    pub id: u128,
    pub email: String,
    pub role: String,
}

pub open spec fn info_of(u: UserInfo, rec: IdentityRecord) -> bool {
    u.id == rec.id && u.email@ == rec.email@ && u.role@ == rec.role@
}

/// A token for `rec` issued at `now`, valid for the token lifetime, with the identity's public face.
pub fn generate_jwt(rec: &IdentityRecord, now: i64, secret: &[u8]) -> (r: Result<AuthResponse, AuthError>)
    ensures
        r is Ok <==> 0 <= now + TOKEN_LIFETIME_SECS <= u64::MAX,
        match r {
            Ok(resp) => info_of(resp.user, *rec)
                && resp.token@ == jwt_signed(
                claims_json(claims_for(*rec, (now + TOKEN_LIFETIME_SECS) as u64)),
                secret@,
            ),
            Err(e) => e == AuthError::EncodingFailure,
        },
{
    let exp = match expiry_after(now) {
        None => {
            return Err(AuthError::EncodingFailure);
        },
        Some(e) => e,
    };
    let claims = Claims {
        sub: identity_id_text(rec.id),
        email: rec.email.clone(),
        role: rec.role.clone(),
        exp,
    };
    let token = match encode(&claims, secret) {
        Ok(t) => t,
        Err(e) => {
            return Err(e);
        },
    };
    Ok(
        AuthResponse {
            token,
            user: UserInfo { id: rec.id, email: rec.email.clone(), role: rec.role.clone() },
        },
    )
}

/// Registers a new identity whose password digest, identifier and creation instant are given,
/// and issues its first token. Refused with `DuplicateIdentity` where the email is taken; the
/// store changes only on success, by exactly the new record.
pub fn register_identity(
    store: &mut IdentityStore,
    email: &String,
    role: &String,
    password_hash: String,
    id: u128,
    now: i64,
    secret: &[u8],
) -> (r: Result<AuthResponse, AuthError>)
    requires
        old(store).wf(),
    ensures
        final(store).wf(),
        old(store).has_email(email@) ==> r == Err::<AuthResponse, AuthError>(
            AuthError::DuplicateIdentity,
        ),
        r is Err ==> final(store).records() == old(store).records(),
        !old(store).has_email(email@) && 0 <= now + TOKEN_LIFETIME_SECS <= u64::MAX ==> r is Ok,
        !old(store).has_email(email@) && !(0 <= now + TOKEN_LIFETIME_SECS <= u64::MAX) ==> r
            == Err::<AuthResponse, AuthError>(AuthError::EncodingFailure),
        r is Ok ==> {
            let rec = final(store).records().last();
            &&& final(store).records() == old(store).records().push(rec)
            &&& rec.id == id && rec.email@ == email@ && rec.role@ == role@
            &&& rec.password_hash@ == password_hash@
            &&& rec.created_at == now && rec.updated_at == now
            &&& info_of(r->Ok_0.user, rec)
            &&& r->Ok_0.token@ == jwt_signed(
                claims_json(claims_for(rec, (now + TOKEN_LIFETIME_SECS) as u64)),
                secret@,
            )
        },
{
    if store.find_by_email(email.as_str()).is_some() {
        return Err(AuthError::DuplicateIdentity);
    }
    let rec = IdentityRecord {
        id,
        email: email.clone(),
        password_hash,
        role: role.clone(),
        created_at: now,
        updated_at: now,
    };
    let resp = generate_jwt(&rec, now, secret)?;
    let ghost rec_v = rec;
    match store.insert(rec) {
        Ok(()) => {
            assert(final(store).records().last() == rec_v);
            Ok(resp)
        },
        Err(e) => Err(e),
    }
}

/// Registers `req`: hashes its password, gives the identity a fresh random identifier, stores
/// it and issues its first token. An email already present is refused with `DuplicateIdentity`
/// and no second record is made.
pub fn register(store: &mut IdentityStore, req: &RegisterRequest, secret: &[u8]) -> (r: Result<
    AuthResponse,
    AuthError,
>)
    requires
        old(store).wf(),
    ensures
        final(store).wf(),
        old(store).has_email(req.email@) ==> r == Err::<AuthResponse, AuthError>(
            AuthError::DuplicateIdentity,
        ),
        r is Err ==> final(store).records() == old(store).records(),
        !old(store).has_email(req.email@) ==> r is Ok || r == Err::<AuthResponse, AuthError>(
            AuthError::HashingFailure,
        ),
        r is Ok ==> {
            let rec = final(store).records().last();
            &&& final(store).records() == old(store).records().push(rec)
            &&& rec.email@ == req.email@ && rec.role@ == req.role@
            &&& password_matches(req.password@, rec.password_hash@) && bcrypt_reads(
                rec.password_hash@,
            )
            &&& rec.created_at >= 0 && rec.updated_at == rec.created_at
            &&& info_of(r->Ok_0.user, rec)
            &&& r->Ok_0.token@ == jwt_signed(
                claims_json(claims_for(rec, (rec.created_at + TOKEN_LIFETIME_SECS) as u64)),
                secret@,
            )
        },
{
    if store.find_by_email(req.email.as_str()).is_some() {
        return Err(AuthError::DuplicateIdentity);
    }
    let password_hash = hash_password(req.password.as_str())?;
    let id = new_identity_id();
    let now = now_timestamp();
    register_identity(store, &req.email, &req.role, password_hash, id, now, secret)
}

/// Logs in with `req`: an unknown email and a wrong password both give `InvalidCredentials`; a
/// match gives a fresh token whose claims name the stored identity.
pub fn login(store: &IdentityStore, req: &LoginRequest, secret: &[u8]) -> (r: Result<
    AuthResponse,
    AuthError,
>)
    requires
        store.wf(),
    ensures
        !store.has_email(req.email@) ==> r == Err::<AuthResponse, AuthError>(
            AuthError::InvalidCredentials,
        ),
        forall|i: int|
            0 <= i < store.records().len() && #[trigger] store.records()[i].email@ == req.email@
                ==> {
                let rec = store.records()[i];
                &&& !bcrypt_reads(rec.password_hash@) ==> r == Err::<AuthResponse, AuthError>(
                    AuthError::HashingFailure,
                )
                &&& bcrypt_reads(rec.password_hash@) && !password_matches(
                    req.password@,
                    rec.password_hash@,
                ) ==> r == Err::<AuthResponse, AuthError>(AuthError::InvalidCredentials)
                &&& password_matches(req.password@, rec.password_hash@) ==> r is Ok
                &&& r is Ok ==> password_matches(req.password@, rec.password_hash@) && info_of(
                    r->Ok_0.user,
                    rec,
                ) && exists|exp: u64|
                    exp >= TOKEN_LIFETIME_SECS && r->Ok_0.token@ == jwt_signed(
                        claims_json(#[trigger] claims_for(rec, exp)),
                        secret@,
                    )
            },
{
    let i = match store.find_by_email(req.email.as_str()) {
        None => {
            // Spend the time that checking a password would, so that an unknown email and a
            // wrong password cannot be told apart by timing.
            let _ = hash_password(req.password.as_str());
            return Err(AuthError::InvalidCredentials);
        },
        Some(i) => i,
    };
    let rec = store.get(i);
    let ok = verify_password(req.password.as_str(), rec.password_hash.as_str())?;
    if !ok {
        return Err(AuthError::InvalidCredentials);
    }
    let now = now_timestamp();
    let r = generate_jwt(rec, now, secret);
    proof {
        if r is Ok {
            let exp = (now + TOKEN_LIFETIME_SECS) as u64;
            assert(exp >= TOKEN_LIFETIME_SECS && r->Ok_0.token@ == jwt_signed(claims_json(claims_for(*rec, exp)), secret@));
        }
    }
    r
}

/// The record that a request's attached claims name: `MissingContext` without claims,
/// `MalformedSubject` where the subject is not a UUID, `IdentityNotFound` where no record has it.
pub fn get_current_user(store: &IdentityStore, ctx: &RequestContext) -> (r: Result<
    usize,
    AuthError,
>)
    ensures
        match ctx.claims {
            None => r == Err::<usize, AuthError>(AuthError::MissingContext),
            Some(c) => match uuid_parsed(c.sub@) {
                None => r == Err::<usize, AuthError>(AuthError::MalformedSubject),
                Some(id) => match r {
                    Ok(i) => i < store.records().len() && store.records()[i as int].id == id,
                    Err(e) => e == AuthError::IdentityNotFound && forall|k: int|
                        0 <= k < store.records().len() ==> #[trigger] store.records()[k].id != id,
                },
            },
        },
        forall|x: u128|
            ctx.claims is Some && #[trigger] uuid_text(x) == ctx.claims->Some_0.sub@ ==> match r {
                Ok(i) => i < store.records().len() && store.records()[i as int].id == x,
                Err(e) => e == AuthError::IdentityNotFound && forall|k: int|
                    0 <= k < store.records().len() ==> #[trigger] store.records()[k].id != x,
            },
{
    let claims = get_user_from_request(ctx)?;
    let id = match parse_identity_id(claims.sub.as_str()) {
        Ok(id) => id,
        Err(_) => {
            return Err(AuthError::MalformedSubject);
        },
    };
    match store.find_by_id(id) {
        Some(i) => Ok(i),
        None => Err(AuthError::IdentityNotFound),
    }
}

/// The current identity's public face, for the "who am I" endpoint.
pub fn current_user(store: &IdentityStore, ctx: &RequestContext) -> (r: Result<
    CurrentUserResponse,
    AuthError,
>)
    ensures
        match ctx.claims {
            None => r == Err::<CurrentUserResponse, AuthError>(AuthError::MissingContext),
            Some(c) => match uuid_parsed(c.sub@) {
                None => r == Err::<CurrentUserResponse, AuthError>(AuthError::MalformedSubject),
                Some(id) => match r {
                    Ok(u) => u.id == id && exists|k: int|
                        0 <= k < store.records().len() && #[trigger] store.records()[k].id == id
                            && u.email@ == store.records()[k].email@ && u.role@
                            == store.records()[k].role@,
                    Err(e) => e == AuthError::IdentityNotFound && forall|k: int|
                        0 <= k < store.records().len() ==> #[trigger] store.records()[k].id != id,
                },
            },
        },
        forall|x: u128|
            ctx.claims is Some && #[trigger] uuid_text(x) == ctx.claims->Some_0.sub@ ==> match r {
                Ok(u) => u.id == x && exists|k: int|
                    0 <= k < store.records().len() && #[trigger] store.records()[k].id == x
                        && u.email@ == store.records()[k].email@ && u.role@
                        == store.records()[k].role@,
                Err(e) => e == AuthError::IdentityNotFound && forall|k: int|
                    0 <= k < store.records().len() ==> #[trigger] store.records()[k].id != x,
            },
{
    let i = get_current_user(store, ctx)?;
    let rec = store.get(i);
    Ok(CurrentUserResponse { id: rec.id, email: rec.email.clone(), role: rec.role.clone() })
}

} // verus!
