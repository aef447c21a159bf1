use vstd::prelude::*;

use crate::text::{decimal, push_decimal, push_str, string_from_chars};

verus! {

#[verifier::external_type_specification]
#[verifier::external_body]
pub struct ExJsonError(serde_json::Error);

/// The trusted payload of a token: who the bearer is, and until when.
#[derive(Debug, Clone)]
pub struct Claims {
    /// The identifier of the identity record.
    pub sub: String,
    pub email: String,
    pub role: String,
    /// Expiry, in seconds since the Unix epoch.
    pub exp: u64,
}

/// The claims as plain values.
pub ghost struct ClaimsView {
    pub sub: Seq<char>,
    pub email: Seq<char>,
    pub role: Seq<char>,
    pub exp: u64,
}

impl View for Claims {
    type V = ClaimsView;

    open spec fn view(&self) -> ClaimsView {
        ClaimsView { sub: self.sub@, email: self.email@, role: self.role@, exp: self.exp }
    }
}

/// The JSON string literal, quotes included, that serde_json writes for `s`.
pub uninterp spec fn json_quoted(s: Seq<char>) -> Seq<char>;

/// The claims that serde_json reads from the JSON text `t`: an object whose `sub`, `email` and
/// `role` members are strings and whose `exp` member is an integer in the `u64` range, other
/// members ignored; `None` for any other text.
pub uninterp spec fn json_claims(t: Seq<char>) -> Option<ClaimsView>;

/// Relies on `serde_json::to_string` for a `str`: it writes a JSON string literal and, writing
/// into memory, cannot fail.
#[verifier::external_body]
fn quote_json(s: &str) -> (r: Result<String, serde_json::Error>)
    ensures
        r is Ok,
        r is Ok ==> r->Ok_0@ == json_quoted(s@),
{
    serde_json::to_string(s)
}

/// Relies on `serde_json::from_str` into a `serde_json::Value`, the four members picked by name
/// with `as_str` and `as_u64`. The text that `Claims::to_json` writes is an object of exactly
/// those members, each string as serde_json quotes it, so it reads back to the same claims.
#[verifier::external_body]
fn read_claims_json(text: &str) -> (r: Option<Claims>)
    ensures
        r is Some <==> json_claims(text@) is Some,
        r is Some ==> r->Some_0@ == json_claims(text@)->Some_0,
        forall|c: ClaimsView| #[trigger] claims_json(c) == text@ ==> r is Some && r->Some_0@ == c,
{
    let v: serde_json::Value = serde_json::from_str(text).ok()?;
    Some(Claims {
        sub: v.get("sub")?.as_str()?.to_string(),
        email: v.get("email")?.as_str()?.to_string(),
        role: v.get("role")?.as_str()?.to_string(),
        exp: v.get("exp")?.as_u64()?,
    })
}

/// The JSON object that a token carries for `c`: fields in declaration order, no whitespace,
/// strings as serde_json writes them.
pub open spec fn claims_json(c: ClaimsView) -> Seq<char> {
    "{\"sub\":"@ + json_quoted(c.sub) + ",\"email\":"@ + json_quoted(c.email) + ",\"role\":"@
        + json_quoted(c.role) + ",\"exp\":"@ + decimal(c.exp as nat) + "}"@
}

fn push_quoted(out: &mut Vec<char>, s: &String)
    ensures
        final(out)@ == old(out)@ + json_quoted(s@),
{
    match quote_json(s.as_str()) {
        Ok(q) => push_str(out, q.as_str()),
        Err(_) => {
            assert(false);
        },
    }
}

impl Claims {
    /// The JSON text of these claims, as a token carries it.
    pub fn to_json(&self) -> (r: String)
        ensures
            r@ == claims_json(self@),
    {
        let mut out: Vec<char> = Vec::new();
        push_str(&mut out, "{\"sub\":");
        push_quoted(&mut out, &self.sub);
        push_str(&mut out, ",\"email\":");
        push_quoted(&mut out, &self.email);
        push_str(&mut out, ",\"role\":");
        push_quoted(&mut out, &self.role);
        push_str(&mut out, ",\"exp\":");
        push_decimal(&mut out, self.exp);
        push_str(&mut out, "}");
        assert(out@ =~= claims_json(self@));
        string_from_chars(&out)
    }

    /// Reads claims from JSON text: any object whose `sub`, `email` and `role` members are
    /// strings and whose `exp` member is a `u64`. What `to_json` wrote reads back unchanged.
    pub fn from_json(text: &str) -> (r: Option<Claims>)
        ensures
            r is Some <==> json_claims(text@) is Some,
            r is Some ==> r->Some_0@ == json_claims(text@)->Some_0,
            forall|c: ClaimsView| #[trigger] claims_json(c) == text@ ==> r is Some && r->Some_0@ == c,
    {
        read_claims_json(text)
    }
}

} // verus!
