use vstd::prelude::*;

use crate::claims::{claims_json, Claims, ClaimsView};
use crate::error::AuthError;
use crate::text::str_eq;
use crate::token::{claims_result_view, decode, decoded, jwt_signed, valid_at};

verus! {

/// The token that an `Authorization` header value carries: what follows `"Bearer "`.
pub open spec fn bearer_token(header: Seq<char>) -> Option<Seq<char>> {
    if header.len() >= 7 && header.subrange(0, 7) == "Bearer "@ {
        Some(header.subrange(7, header.len() as int))
    } else {
        None
    }
}

/// Whether a route that requires `required` admits claims with role `role`: roles are compared
/// exactly, case included.
pub open spec fn role_admits(required: Option<Seq<char>>, role: Seq<char>) -> bool {
    match required {
        None => true,
        Some(r) => r == role,
    }
}

pub open spec fn option_view(s: Option<String>) -> Option<Seq<char>> {
    match s {
        None => None,
        Some(x) => Some(x@),
    }
}

/// What the guard decides for a request with `header` as its `Authorization` value (`None` where
/// it has none) on a route that requires `required`.
pub open spec fn guard_decision(
    header: Option<Seq<char>>,
    secret: Seq<u8>,
    required: Option<Seq<char>>,
    now: i64,
) -> Result<ClaimsView, AuthError> {
    match header {
        None => Err(AuthError::MissingToken),
        Some(h) => match bearer_token(h) {
            None => Err(AuthError::MissingToken),
            Some(t) => match decoded(t, secret, now) {
                Err(e) => Err(e),
                Ok(c) => if role_admits(required, c.role) {
                    Ok(c)
                } else {
                    Err(AuthError::Forbidden)
                },
            },
        },
    }
}

/// Per-request context: the claims that the guard attached, if any.
#[derive(Debug, Clone)]
pub struct RequestContext {
    pub claims: Option<Claims>,
}

impl RequestContext {
    /// A context that the guard has not seen.
    pub fn empty() -> (r: RequestContext)
        ensures
            r.claims is None,
    {
        RequestContext { claims: None }
    }
}

/// The guard of a route group, with the role that the group requires, if any.
#[derive(Debug, Clone)]
pub struct AuthMiddleware {
    pub required_role: Option<String>,
}

impl AuthMiddleware {
    /// A guard that admits any valid token.
    pub fn new() -> (r: Self)
        ensures
            r.required_role is None,
    {
        Self { required_role: None }
    }

    /// A guard that admits valid tokens whose role is `role`.
    pub fn with_role(role: String) -> (r: Self)
        ensures
            option_view(r.required_role) == Some(role@),
    {
        Self { required_role: Some(role) }
    }

    /// The guard bound to the process's signing secret.
    pub fn new_transform(&self, secret: Vec<u8>) -> (r: AuthMiddlewareService)
        ensures
            option_view(r.required_role) == option_view(self.required_role),
            r.secret@ == secret@,
    {
        AuthMiddlewareService { required_role: self.required_role.clone(), secret }
    }
}

/// A guard ready to judge requests.
#[derive(Debug)]
pub struct AuthMiddlewareService {
    pub required_role: Option<String>,
    pub secret: Vec<u8>,
}

/// The token in an `Authorization` header value, or `None` where it lacks the `"Bearer "`
/// prefix.
pub fn extract_token_from_request(header: &str) -> (r: Option<String>)
    ensures
        option_view(r) == bearer_token(header@),
{
    proof {
        reveal_strlit("Bearer ");
    }
    let n = header.unicode_len();
    if n < 7 {
        return None;
    }
    let prefix = header.substring_char(0, 7);
    if prefix.unicode_len() == 7 && str_eq(prefix, "Bearer ") {
        let rest = header.substring_char(7, n);
        Some(rest.to_owned())
    } else {
        None
    }
}

/// Decodes the bearer token under `secret` at `now`; every failure reads as `InvalidToken`.
pub fn decode_jwt(token: &str, secret: &[u8], now: i64) -> (r: Result<Claims, AuthError>)
    ensures
        claims_result_view(r) == decoded(token@, secret@, now),
        r is Err ==> r->Err_0 == AuthError::InvalidToken,
        forall|c: ClaimsView| #[trigger]
            jwt_signed(claims_json(c), secret@) == token@ ==> claims_result_view(r) == valid_at(
                c,
                now,
            ),
{
    decode(token, secret, now)
}

/// Whether a route that requires `required` admits `claims`.
pub fn check_role(required: &Option<String>, claims: &Claims) -> (r: Result<(), AuthError>)
    ensures
        r is Ok <==> role_admits(option_view(*required), claims@.role),
        r is Err ==> r->Err_0 == AuthError::Forbidden,
{
    match required {
        None => Ok(()),
        Some(role) => {
            if str_eq(role.as_str(), claims.role.as_str()) {
                Ok(())
            } else {
                Err(AuthError::Forbidden)
            }
        },
    }
}

/// Where a request stands in the guard.
#[derive(Debug)]
pub enum GuardState {
    Unauthenticated,
    TokenExtracted { token: String },
    ClaimsAttached { ctx: RequestContext },
    Admitted { ctx: RequestContext },
    Rejected { error: AuthError },
}

/// A guard state as plain values.
pub ghost enum GuardStateView {
    Unauthenticated,
    TokenExtracted(Seq<char>),
    ClaimsAttached(Option<ClaimsView>),
    Admitted(Option<ClaimsView>),
    Rejected(AuthError),
}

pub open spec fn claims_option_view(c: Option<Claims>) -> Option<ClaimsView> {
    match c {
        None => None,
        Some(x) => Some(x@),
    }
}

impl View for GuardState {
    type V = GuardStateView;

    open spec fn view(&self) -> GuardStateView {
        match self {
            GuardState::Unauthenticated => GuardStateView::Unauthenticated,
            GuardState::TokenExtracted { token } => GuardStateView::TokenExtracted(token@),
            GuardState::ClaimsAttached { ctx } => GuardStateView::ClaimsAttached(
                claims_option_view(ctx.claims),
            ),
            GuardState::Admitted { ctx } => GuardStateView::Admitted(claims_option_view(ctx.claims)),
            GuardState::Rejected { error } => GuardStateView::Rejected(*error),
        }
    }
}

/// One move of the guard: extract the bearer token, decode it and attach its claims, check
/// the role. `Admitted` and `Rejected` are final.
pub open spec fn next_state(
    s: GuardStateView,
    header: Option<Seq<char>>,
    secret: Seq<u8>,
    required: Option<Seq<char>>,
    now: i64,
) -> GuardStateView {
    match s {
        GuardStateView::Unauthenticated => match header {
            None => GuardStateView::Rejected(AuthError::MissingToken),
            Some(h) => match bearer_token(h) {
                None => GuardStateView::Rejected(AuthError::MissingToken),
                Some(t) => GuardStateView::TokenExtracted(t),
            },
        },
        GuardStateView::TokenExtracted(t) => match decoded(t, secret, now) {
            Err(e) => GuardStateView::Rejected(e),
            Ok(c) => GuardStateView::ClaimsAttached(Some(c)),
        },
        GuardStateView::ClaimsAttached(c) => match c {
            None => GuardStateView::Rejected(AuthError::MissingContext),
            Some(c) => if role_admits(required, c.role) {
                GuardStateView::Admitted(Some(c))
            } else {
                GuardStateView::Rejected(AuthError::Forbidden)
            },
        },
        _ => s,
    }
}

pub open spec fn header_view(header: Option<&str>) -> Option<Seq<char>> {
    match header {
        None => None,
        Some(h) => Some(h@),
    }
}

impl AuthMiddlewareService {
    /// Moves a request whose `Authorization` value is `header` one state on, at instant `now`.
    pub fn step(&self, state: GuardState, header: Option<&str>, now: i64) -> (r: GuardState)
        ensures
            r@ == next_state(
                state@,
                header_view(header),
                self.secret@,
                option_view(self.required_role),
                now,
            ),
    {
        match state {
            GuardState::Unauthenticated => match header {
                None => GuardState::Rejected { error: AuthError::MissingToken },
                Some(h) => match extract_token_from_request(h) {
                    None => GuardState::Rejected { error: AuthError::MissingToken },
                    Some(token) => GuardState::TokenExtracted { token },
                },
            },
            GuardState::TokenExtracted { token } => {
                match decode_jwt(token.as_str(), self.secret.as_slice(), now) {
                    Err(error) => GuardState::Rejected { error },
                    Ok(claims) => {
                        let mut ctx = RequestContext::empty();
                        ctx.claims = Some(claims);
                        GuardState::ClaimsAttached { ctx }
                    },
                }
            },
            GuardState::ClaimsAttached { ctx } => {
                let verdict = match &ctx.claims {
                    None => Err(AuthError::MissingContext),
                    Some(c) => check_role(&self.required_role, c),
                };
                match verdict {
                    Ok(()) => GuardState::Admitted { ctx },
                    Err(error) => GuardState::Rejected { error },
                }
            },
            other => other,
        }
    }

    /// Judges a request whose `Authorization` value is `header` at instant `now`: runs the
    /// guard from `Unauthenticated` to a final state. Only an admitted request yields a
    /// context, holding the claims.
    pub fn call(&self, header: Option<&str>, now: i64) -> (r: Result<RequestContext, AuthError>)
        ensures
            match r {
                Ok(ctx) => ctx.claims is Some && guard_decision(
                    header_view(header),
                    self.secret@,
                    option_view(self.required_role),
                    now,
                ) == Ok::<ClaimsView, AuthError>(ctx.claims->Some_0@),
                Err(e) => guard_decision(
                    header_view(header),
                    self.secret@,
                    option_view(self.required_role),
                    now,
                ) == Err::<ClaimsView, AuthError>(e),
            },
    {
        let extracted = self.step(GuardState::Unauthenticated, header, now);
        let attached = self.step(extracted, header, now);
        let state = self.step(attached, header, now);
        match state {
            GuardState::Admitted { ctx } => Ok(ctx),
            GuardState::Rejected { error } => Err(error),
            _ => {
                // Three moves from `Unauthenticated` always reach a final state.
                assert(false);
                Err(AuthError::MissingContext)
            },
        }
    }
}

/// The claims that the guard attached to `ctx`; `MissingContext` where the route has no guard.
pub fn get_user_from_request(ctx: &RequestContext) -> (r: Result<Claims, AuthError>)
    ensures
        match ctx.claims {
            None => r == Err::<Claims, AuthError>(AuthError::MissingContext),
            Some(c) => r is Ok && r->Ok_0@ == c@,
        },
{
    match &ctx.claims {
        None => Err(AuthError::MissingContext),
        Some(c) => Ok(copy_claims(c)),
    }
}

/// A copy of `c`.
pub fn copy_claims(c: &Claims) -> (r: Claims)
    ensures
        r@ == c@,
{
    Claims { sub: c.sub.clone(), email: c.email.clone(), role: c.role.clone(), exp: c.exp }
}

/// A guard's decision depends on the role only where the route requires one: a valid token is
/// admitted on a route with no requirement and on one that requires its own role, and is
/// `Forbidden` on one that requires any other role.
pub proof fn lemma_role_guard(header: Option<Seq<char>>, secret: Seq<u8>, now: i64, role: Seq<char>)
    requires
        guard_decision(header, secret, None, now) is Ok,
    ensures
        guard_decision(header, secret, Some(role), now) == (if role == guard_decision(header, secret, None, now)->Ok_0.role {
            guard_decision(header, secret, None, now)
        } else {
            Err(AuthError::Forbidden)
        }),
{
}

} // verus!
