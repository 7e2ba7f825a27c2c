//! The library's laws: properties of whole verification flows, stated over
//! the same spec functions the executable contracts use, and proved from
//! them. (That a refresh is all-or-nothing is stated beside the key cache:
//! see `keycache::lemma_refresh_atomic`.)

use vstd::prelude::*;

use crate::auth::{
    spec_attempt_outcome, spec_custom_start, spec_has_bearer_prefix, spec_resume_id,
    spec_verify_from_header, spec_verify_start, AttemptModel, FirebaseAuth, StepModel, TokenKind,
};
use crate::claims::{
    spec_custom_identity, spec_iat_ok, spec_not_expired, spec_validate_policy, CustomClaimsModel,
};
use crate::errors::AuthError;
use crate::identity::spec_dev_user;
use crate::jwt::spec_kid;
use crate::policy::{spec_custom_audience, spec_custom_issuer};

verus! {

/// Outside development mode, any header value that does not carry the
/// `Bearer ` prefix is rejected as malformed, whatever its remaining content
/// and whatever the verifier's caches hold.
pub proof fn lemma_non_bearer_rejected(a: FirebaseAuth, h: &str, now: u64)
    requires
        !a.is_dev,
        !spec_has_bearer_prefix(h@),
    ensures
        spec_verify_from_header(a, Some(h), now) == StepModel::Done(
            Err::<crate::identity::UserModel, AuthError>(AuthError::MalformedHeader),
        ),
{
}

/// In development mode the outcome is the fixed sentinel identity at once,
/// for every header value and every time; in particular the step is already
/// `Done`, so no key fetch — no network call — is ever asked for.
pub proof fn lemma_dev_mode_bypass(a: FirebaseAuth, header: Option<&str>, now: u64)
    requires
        a.is_dev,
    ensures
        spec_verify_from_header(a, header, now) == StepModel::Done(
            Ok::<crate::identity::UserModel, AuthError>(spec_dev_user()),
        ),
{
}

/// A key-cache hit never asks for a fetch: when the token's key id is in the
/// key set, the attempt's outcome is terminal.
pub proof fn lemma_cache_hit_no_refresh(
    keys: Map<Seq<char>, Seq<char>>,
    kind: TokenKind,
    project: Seq<char>,
    t: Seq<char>,
    now: u64,
    refreshed: bool,
    kid: Seq<char>,
)
    requires
        spec_kid(t) == Some(kid),
        keys.contains_key(kid),
    ensures
        spec_attempt_outcome(keys, kind, project, t, now, refreshed) != AttemptModel::NeedKeys,
{
}

/// A miss triggers exactly one refresh: before it the attempt asks for keys,
/// and after it the attempt is terminal whatever the refreshed set holds.
pub proof fn lemma_cache_miss_single_refresh(
    keys: Map<Seq<char>, Seq<char>>,
    kind: TokenKind,
    project: Seq<char>,
    t: Seq<char>,
    now: u64,
    kid: Seq<char>,
)
    requires
        spec_kid(t) == Some(kid),
        !keys.contains_key(kid),
    ensures
        spec_attempt_outcome(keys, kind, project, t, now, false) == AttemptModel::NeedKeys,
        forall|keys2: Map<Seq<char>, Seq<char>>|
            #[trigger] spec_attempt_outcome(keys2, kind, project, t, now, true)
                != AttemptModel::NeedKeys,
{
}

/// A well-formed token whose key id is absent from the ID key set asks for
/// the one ID-key fetch; when the freshly fetched set still lacks the key id,
/// the ID phase fails with `KeyNotFound` and the custom-token path is then
/// attempted, whatever that fetch returned.
pub proof fn lemma_unknown_key_falls_back(
    a: FirebaseAuth,
    t: Seq<char>,
    now: u64,
    kid: Seq<char>,
    fetched_ok: bool,
)
    requires
        spec_kid(t) == Some(kid),
        !a.id_keys@.contains_key(kid),
    ensures
        spec_verify_start(a, t, now) == StepModel::NeedFetch(TokenKind::Id, t),
        fetched_ok ==> spec_attempt_outcome(a.id_keys@, TokenKind::Id, a.project_id@, t, now, true)
            == AttemptModel::Denied(AuthError::KeyNotFound),
        spec_resume_id(a, t, now, fetched_ok) == spec_custom_start(
            a.custom_keys@,
            a.project_id@,
            t,
            now,
        ),
{
}

/// With a valid issuer and timing, the audience alone decides the custom
/// policy check: any other audience is a claim mismatch, and the fixed
/// Identity-Toolkit audience passes.
pub proof fn lemma_custom_audience_decides(c: CustomClaimsModel, project: Seq<char>, now: u64)
    requires
        c.iss == spec_custom_issuer(project),
        spec_not_expired(c.exp, now),
        spec_iat_ok(c.iat, now),
    ensures
        c.aud != spec_custom_audience() ==> spec_validate_policy(
            c.aud,
            c.iss,
            c.iat,
            c.exp,
            spec_custom_audience(),
            spec_custom_issuer(project),
            now,
        ) == Err::<(), AuthError>(AuthError::ClaimMismatch),
        c.aud == spec_custom_audience() ==> spec_validate_policy(
            c.aud,
            c.iss,
            c.iat,
            c.exp,
            spec_custom_audience(),
            spec_custom_issuer(project),
            now,
        ) == Ok::<(), AuthError>(()),
{
}

/// The identity a verified custom token yields: the token's uid, the
/// placeholder address synthesized from that uid, the address counted as
/// verified, and no name or picture.
pub proof fn lemma_custom_identity_shape(c: CustomClaimsModel)
    ensures
        spec_custom_identity(c).uid == c.uid,
        spec_custom_identity(c).email == c.uid + "@custom.token"@,
        spec_custom_identity(c).email_verified,
        spec_custom_identity(c).name is None,
        spec_custom_identity(c).picture is None,
{
}

/// The expiry boundary under the 60-second leeway: with audience and issuer
/// accepted and issued-at in order, a token 61 seconds past expiry is
/// rejected as expired, one 59 seconds past expiry still passes.
pub proof fn lemma_expiry_boundary(aud: Seq<char>, iss: Seq<char>, iat: u64, now: u64)
    requires
        now >= 61,
        spec_iat_ok(iat, now),
    ensures
        spec_validate_policy(aud, iss, iat, (now - 61) as u64, aud, iss, now) == Err::<
            (),
            AuthError,
        >(AuthError::Expired),
        spec_validate_policy(aud, iss, iat, (now - 59) as u64, aud, iss, now) == Ok::<
            (),
            AuthError,
        >(()),
{
}

} // verus!
