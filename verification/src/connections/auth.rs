use vstd::prelude::*;

verus! {

/// The claims of a token to request: subject, role, the scope granted on the
/// live feed, the scope granted on the database, and the lifetime.
#[derive(Clone, Copy, Debug)]
pub struct JwtClaims {
    pub subject: &'static str,
    pub role: &'static str,
    pub websocket_scope: Option<&'static str>,
    pub database_scope: Option<&'static str>,
    pub lifetime: i64,
}

/// The claims of the token for the service `to`: an administrator token for
/// the database, a sender token for the live feed, none for anything else.
pub open spec fn claims_for(to: Seq<char>) -> Option<JwtClaims> {
    if to == "database"@ {
        Some(JwtClaims { subject: "temp", role: "admin", websocket_scope: None, database_scope: Some("admin"), lifetime: 5 })
    } else if to == "websocket"@ {
        Some(JwtClaims { subject: "temp", role: "sender", websocket_scope: Some("sender"), database_scope: None, lifetime: 5 })
    } else {
        None
    }
}

/// The claims of the token to request for the service `to`.
pub fn jwt_claims(to: &str) -> (claims: Option<JwtClaims>)
    ensures
        claims == claims_for(to@),
{
    if crate::domain::entities::symbol::str_equal(to, "database") {
        Some(JwtClaims { subject: "temp", role: "admin", websocket_scope: None, database_scope: Some("admin"), lifetime: 5 })
    } else if crate::domain::entities::symbol::str_equal(to, "websocket") {
        Some(JwtClaims { subject: "temp", role: "sender", websocket_scope: Some("sender"), database_scope: None, lifetime: 5 })
    } else {
        None
    }
}

} // verus!
