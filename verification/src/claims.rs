//! Decoded token claims, their extraction from the payload document, and the
//! audience / issuer / timing checks shared by both token kinds.

use vstd::prelude::*;

use crate::errors::AuthError;
use crate::identity::{opt_view, FirebaseUser, UserModel};
use crate::outside::{
    json_bool_field, json_bool_field_of, json_string_field, json_string_field_of, json_u64_field,
    json_u64_field_of,
};
use crate::strings::str_eq;

verus! {

/// Clock-skew tolerance, in seconds, applied on both sides.
pub const LEEWAY: u64 = 60;

/// Claims of a provider-issued ID token.
#[derive(Debug, Clone)]
pub struct IdTokenClaims {
    pub iss: String,
    pub aud: String,
    pub user_id: String,
    pub iat: u64,
    pub exp: u64,
    pub email: String,
    pub email_verified: bool,
    pub name: Option<String>,
    pub picture: Option<String>,
}

/// Ghost model of `IdTokenClaims`.
#[verifier::ext_equal]
pub struct IdClaimsModel {
    pub iss: Seq<char>,
    pub aud: Seq<char>,
    pub user_id: Seq<char>,
    pub iat: u64,
    pub exp: u64,
    pub email: Seq<char>,
    pub email_verified: bool,
    pub name: Option<Seq<char>>,
    pub picture: Option<Seq<char>>,
}

impl View for IdTokenClaims {
    type V = IdClaimsModel;

    open spec fn view(&self) -> IdClaimsModel {
        IdClaimsModel {
            iss: self.iss@,
            aud: self.aud@,
            user_id: self.user_id@,
            iat: self.iat,
            exp: self.exp,
            email: self.email@,
            email_verified: self.email_verified,
            name: opt_view(self.name),
            picture: opt_view(self.picture),
        }
    }
}

/// Claims of a service-account-signed custom token.
#[derive(Debug, Clone)]
pub struct CustomTokenClaims {
    pub iss: String,
    pub aud: String,
    pub uid: String,
    pub iat: u64,
    pub exp: u64,
}

/// Ghost model of `CustomTokenClaims`.
#[verifier::ext_equal]
pub struct CustomClaimsModel {
    pub iss: Seq<char>,
    pub aud: Seq<char>,
    pub uid: Seq<char>,
    pub iat: u64,
    pub exp: u64,
}

impl View for CustomTokenClaims {
    type V = CustomClaimsModel;

    open spec fn view(&self) -> CustomClaimsModel {
        CustomClaimsModel {
            iss: self.iss@,
            aud: self.aud@,
            uid: self.uid@,
            iat: self.iat,
            exp: self.exp,
        }
    }
}

/// The ID-token claims carried by the payload document `doc`, when every
/// required field is present with the right type.
pub open spec fn spec_id_claims(doc: Seq<u8>) -> Option<IdClaimsModel> {
    if json_string_field_of(doc, "iss"@) is Some && json_string_field_of(doc, "aud"@) is Some
        && json_string_field_of(doc, "user_id"@) is Some && json_u64_field_of(doc, "iat"@) is Some
        && json_u64_field_of(doc, "exp"@) is Some && json_string_field_of(doc, "email"@) is Some
        && json_bool_field_of(doc, "email_verified"@) is Some {
        Some(
            IdClaimsModel {
                iss: json_string_field_of(doc, "iss"@)->Some_0,
                aud: json_string_field_of(doc, "aud"@)->Some_0,
                user_id: json_string_field_of(doc, "user_id"@)->Some_0,
                iat: json_u64_field_of(doc, "iat"@)->Some_0,
                exp: json_u64_field_of(doc, "exp"@)->Some_0,
                email: json_string_field_of(doc, "email"@)->Some_0,
                email_verified: json_bool_field_of(doc, "email_verified"@)->Some_0,
                name: json_string_field_of(doc, "name"@),
                picture: json_string_field_of(doc, "picture"@),
            },
        )
    } else {
        None
    }
}

/// Extract ID-token claims from the payload document.
pub fn parse_id_claims(doc: &[u8]) -> (r: Option<IdTokenClaims>)
    ensures
        match r {
            Some(c) => spec_id_claims(doc@) == Some(c@),
            None => spec_id_claims(doc@) is None,
        },
{
    let iss = match json_string_field(doc, "iss") {
        Some(v) => v,
        None => {
            return None;
        },
    };
    let aud = match json_string_field(doc, "aud") {
        Some(v) => v,
        None => {
            return None;
        },
    };
    let user_id = match json_string_field(doc, "user_id") {
        Some(v) => v,
        None => {
            return None;
        },
    };
    let iat = match json_u64_field(doc, "iat") {
        Some(v) => v,
        None => {
            return None;
        },
    };
    let exp = match json_u64_field(doc, "exp") {
        Some(v) => v,
        None => {
            return None;
        },
    };
    let email = match json_string_field(doc, "email") {
        Some(v) => v,
        None => {
            return None;
        },
    };
    let email_verified = match json_bool_field(doc, "email_verified") {
        Some(v) => v,
        None => {
            return None;
        },
    };
    let name = json_string_field(doc, "name");
    let picture = json_string_field(doc, "picture");
    let c = IdTokenClaims { iss, aud, user_id, iat, exp, email, email_verified, name, picture };
    proof {
        assert(spec_id_claims(doc@) == Some(c@)) by {
            assert(c@ =~= spec_id_claims(doc@)->Some_0);
        }
    }
    Some(c)
}

/// The custom-token claims carried by the payload document `doc`.
pub open spec fn spec_custom_claims(doc: Seq<u8>) -> Option<CustomClaimsModel> {
    if json_string_field_of(doc, "iss"@) is Some && json_string_field_of(doc, "aud"@) is Some
        && json_string_field_of(doc, "uid"@) is Some && json_u64_field_of(doc, "iat"@) is Some
        && json_u64_field_of(doc, "exp"@) is Some {
        Some(
            CustomClaimsModel {
                iss: json_string_field_of(doc, "iss"@)->Some_0,
                aud: json_string_field_of(doc, "aud"@)->Some_0,
                uid: json_string_field_of(doc, "uid"@)->Some_0,
                iat: json_u64_field_of(doc, "iat"@)->Some_0,
                exp: json_u64_field_of(doc, "exp"@)->Some_0,
            },
        )
    } else {
        None
    }
}

/// Extract custom-token claims from the payload document.
pub fn parse_custom_claims(doc: &[u8]) -> (r: Option<CustomTokenClaims>)
    ensures
        match r {
            Some(c) => spec_custom_claims(doc@) == Some(c@),
            None => spec_custom_claims(doc@) is None,
        },
{
    let iss = match json_string_field(doc, "iss") {
        Some(v) => v,
        None => {
            return None;
        },
    };
    let aud = match json_string_field(doc, "aud") {
        Some(v) => v,
        None => {
            return None;
        },
    };
    let uid = match json_string_field(doc, "uid") {
        Some(v) => v,
        None => {
            return None;
        },
    };
    let iat = match json_u64_field(doc, "iat") {
        Some(v) => v,
        None => {
            return None;
        },
    };
    let exp = match json_u64_field(doc, "exp") {
        Some(v) => v,
        None => {
            return None;
        },
    };
    let c = CustomTokenClaims { iss, aud, uid, iat, exp };
    proof {
        assert(spec_custom_claims(doc@) == Some(c@)) by {
            assert(c@ =~= spec_custom_claims(doc@)->Some_0);
        }
    }
    Some(c)
}

/// Expiry is accepted up to the leeway past `now`.
pub open spec fn spec_not_expired(exp: u64, now: u64) -> bool {
    now <= exp + LEEWAY
}

/// Issued-at is accepted up to the leeway into the future.
pub open spec fn spec_iat_ok(iat: u64, now: u64) -> bool {
    iat <= now + LEEWAY
}

/// Outcome of checking claims against an accepted audience and issuer at time
/// `now`: audience first, then issuer, then expiry, then issued-at.
pub open spec fn spec_validate_policy(
    aud: Seq<char>,
    iss: Seq<char>,
    iat: u64,
    exp: u64,
    want_aud: Seq<char>,
    want_iss: Seq<char>,
    now: u64,
) -> Result<(), AuthError> {
    if aud != want_aud {
        Err(AuthError::ClaimMismatch)
    } else if iss != want_iss {
        Err(AuthError::ClaimMismatch)
    } else if !spec_not_expired(exp, now) {
        Err(AuthError::Expired)
    } else if !spec_iat_ok(iat, now) {
        Err(AuthError::ClaimMismatch)
    } else {
        Ok(())
    }
}

/// Check audience, issuer, expiry and issued-at against the policy.
pub fn validate_policy(
    aud: &str,
    iss: &str,
    iat: u64,
    exp: u64,
    want_aud: &str,
    want_iss: &str,
    now: u64,
) -> (r: Result<(), AuthError>)
    ensures
        r == spec_validate_policy(aud@, iss@, iat, exp, want_aud@, want_iss@, now),
{
    if !str_eq(aud, want_aud) {
        return Err(AuthError::ClaimMismatch);
    }
    if !str_eq(iss, want_iss) {
        return Err(AuthError::ClaimMismatch);
    }
    if now > LEEWAY && exp < now - LEEWAY {
        return Err(AuthError::Expired);
    }
    if iat > LEEWAY && iat - LEEWAY > now {
        return Err(AuthError::ClaimMismatch);
    }
    Ok(())
}

/// The identity asserted by verified ID-token claims.
pub open spec fn spec_id_identity(c: IdClaimsModel) -> UserModel {
    UserModel {
        uid: c.user_id,
        email: c.email,
        email_verified: c.email_verified,
        name: c.name,
        picture: c.picture,
    }
}

/// Map verified ID-token claims to the identity record.
pub fn id_claims_to_user(c: IdTokenClaims) -> (r: FirebaseUser)
    ensures
        r@ == spec_id_identity(c@),
{
    let r = FirebaseUser {
        uid: c.user_id,
        email: c.email,
        email_verified: c.email_verified,
        name: c.name,
        picture: c.picture,
    };
    proof {
        assert(r@ =~= spec_id_identity(c@));
    }
    r
}

/// The placeholder address synthesized for a custom-token identity.
pub open spec fn spec_custom_email(uid: Seq<char>) -> Seq<char> {
    uid + "@custom.token"@
}

/// The identity asserted by verified custom-token claims: custom tokens carry
/// no address, so one is synthesized from the uid, and it counts as verified.
pub open spec fn spec_custom_identity(c: CustomClaimsModel) -> UserModel {
    UserModel {
        uid: c.uid,
        email: spec_custom_email(c.uid),
        email_verified: true,
        name: None,
        picture: None,
    }
}

/// Map verified custom-token claims to the identity record.
pub fn custom_claims_to_user(c: CustomTokenClaims) -> (r: FirebaseUser)
    ensures
        r@ == spec_custom_identity(c@),
{
    let mut email = c.uid.clone();
    email.append("@custom.token");
    let r = FirebaseUser { uid: c.uid, email, email_verified: true, name: None, picture: None };
    proof {
        assert(r@ =~= spec_custom_identity(c@));
    }
    r
}

} // verus!
