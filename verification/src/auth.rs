//! The token verifier: header handling, the two-phase verification attempt
//! (ID token first, custom token as fallback), and the refresh-on-miss key
//! protocol. Fetching itself is outside work: when a key is missing the
//! verifier hands back which endpoint to read, and the caller resumes it with
//! the fetched body.

use vstd::prelude::*;

use crate::claims::{
    custom_claims_to_user, id_claims_to_user, parse_custom_claims, parse_id_claims,
    spec_custom_claims, spec_custom_identity, spec_id_claims, spec_id_identity,
    spec_validate_policy, validate_policy,
};
use crate::config::Config;
use crate::errors::{AppError, AuthError};
use crate::identity::{spec_dev_user, FirebaseUser, UserModel};
use crate::jwt::{parse_kid, payload_doc, spec_kid, spec_payload_doc};
use crate::keycache::{spec_refresh_result, KeyCache};
use crate::outside::{key_pairs_of, rs256_valid_spec, rs256_verify};
use crate::policy::{
    custom_audience, custom_issuer, custom_keys_url, id_issuer, id_keys_url, spec_custom_audience,
    spec_custom_issuer, spec_custom_keys_url, spec_id_issuer, spec_id_keys_url,
};
use crate::strings::str_has_prefix;

verus! {

/// Which of the two token shapes (and so which key cache and policy) an
/// operation concerns.
#[derive(Clone, Copy, Debug, PartialEq, Eq, Structural)]
pub enum TokenKind {
    Id,
    Custom,
}

/// Outcome of one verification attempt against one key cache.
pub enum Attempt {
    /// The token verified; here is the identity it asserts.
    Granted(FirebaseUser),
    /// The token was rejected for this reason.
    Denied(AuthError),
    /// The key id is not cached and no refresh was done yet this attempt.
    NeedKeys,
}

/// Ghost model of an `Attempt`.
pub enum AttemptModel {
    Granted(UserModel),
    Denied(AuthError),
    NeedKeys,
}

impl View for Attempt {
    type V = AttemptModel;

    open spec fn view(&self) -> AttemptModel {
        match self {
            Attempt::Granted(u) => AttemptModel::Granted(u@),
            Attempt::Denied(e) => AttemptModel::Denied(*e),
            Attempt::NeedKeys => AttemptModel::NeedKeys,
        }
    }
}

/// What the caller of the verifier is to do next: the verification is done,
/// or the named key endpoint must be read and the verifier resumed with the
/// body.
pub enum Step {
    Done(Result<FirebaseUser, AuthError>),
    NeedFetch { kind: TokenKind, token: String },
}

/// Ghost model of a `Step`.
pub enum StepModel {
    Done(Result<UserModel, AuthError>),
    NeedFetch(TokenKind, Seq<char>),
}

impl View for Step {
    type V = StepModel;

    open spec fn view(&self) -> StepModel {
        match self {
            Step::Done(r) => StepModel::Done(
                match r {
                    Ok(u) => Ok(u@),
                    Err(e) => Err(*e),
                },
            ),
            Step::NeedFetch { kind, token } => StepModel::NeedFetch(*kind, token@),
        }
    }
}

/// The token verifier: the tenant's project id, the development-mode switch,
/// and one independent key cache per token kind.
pub struct FirebaseAuth {
    pub project_id: String,
    pub is_dev: bool,
    pub id_keys: KeyCache,
    pub custom_keys: KeyCache,
}

/// Outcome of verifying `t` of kind `kind` against the key set `keys` at time
/// `now`. `refreshed` says whether this attempt already refreshed the keys:
/// a missing key id asks for the one permitted refresh first, and is terminal
/// (`KeyNotFound`) after it.
pub open spec fn spec_attempt_outcome(
    keys: Map<Seq<char>, Seq<char>>,
    kind: TokenKind,
    project: Seq<char>,
    t: Seq<char>,
    now: u64,
    refreshed: bool,
) -> AttemptModel {
    match spec_kid(t) {
        None => AttemptModel::Denied(AuthError::MalformedToken),
        Some(kid) => if !keys.contains_key(kid) {
            if refreshed {
                AttemptModel::Denied(AuthError::KeyNotFound)
            } else {
                AttemptModel::NeedKeys
            }
        } else if !rs256_valid_spec(t, keys[kid]) {
            AttemptModel::Denied(AuthError::InvalidSignature)
        } else {
            match spec_payload_doc(t) {
                None => AttemptModel::Denied(AuthError::MalformedToken),
                Some(doc) => match kind {
                    TokenKind::Id => match spec_id_claims(doc) {
                        None => AttemptModel::Denied(AuthError::MalformedToken),
                        Some(c) => match spec_validate_policy(
                            c.aud,
                            c.iss,
                            c.iat,
                            c.exp,
                            project,
                            spec_id_issuer(project),
                            now,
                        ) {
                            Err(e) => AttemptModel::Denied(e),
                            Ok(()) => AttemptModel::Granted(spec_id_identity(c)),
                        },
                    },
                    TokenKind::Custom => match spec_custom_claims(doc) {
                        None => AttemptModel::Denied(AuthError::MalformedToken),
                        Some(c) => match spec_validate_policy(
                            c.aud,
                            c.iss,
                            c.iat,
                            c.exp,
                            spec_custom_audience(),
                            spec_custom_issuer(project),
                            now,
                        ) {
                            Err(e) => AttemptModel::Denied(e),
                            Ok(()) => AttemptModel::Granted(spec_custom_identity(c)),
                        },
                    },
                },
            }
        },
    }
}

/// One verification attempt of `token` against `keys` under the kind's
/// policy.
fn attempt(
    keys: &KeyCache,
    kind: TokenKind,
    project_id: &str,
    token: &str,
    now: u64,
    refreshed: bool,
) -> (r: Attempt)
    requires
        keys.wf(),
    ensures
        r@ == spec_attempt_outcome(keys@, kind, project_id@, token@, now, refreshed),
{
    let kid = match parse_kid(token) {
        Some(k) => k,
        None => {
            return Attempt::Denied(AuthError::MalformedToken);
        },
    };
    let pem = match keys.lookup(kid.as_str()) {
        Some(p) => p,
        None => {
            if refreshed {
                return Attempt::Denied(AuthError::KeyNotFound);
            } else {
                return Attempt::NeedKeys;
            }
        },
    };
    if !rs256_verify(token, pem.as_str()) {
        return Attempt::Denied(AuthError::InvalidSignature);
    }
    let doc = match payload_doc(token) {
        Some(d) => d,
        None => {
            return Attempt::Denied(AuthError::MalformedToken);
        },
    };
    match kind {
        TokenKind::Id => {
            let c = match parse_id_claims(doc.as_slice()) {
                Some(c) => c,
                None => {
                    return Attempt::Denied(AuthError::MalformedToken);
                },
            };
            let issuer = id_issuer(project_id);
            match validate_policy(
                c.aud.as_str(),
                c.iss.as_str(),
                c.iat,
                c.exp,
                project_id,
                issuer.as_str(),
                now,
            ) {
                Err(e) => Attempt::Denied(e),
                Ok(()) => Attempt::Granted(id_claims_to_user(c)),
            }
        },
        TokenKind::Custom => {
            let c = match parse_custom_claims(doc.as_slice()) {
                Some(c) => c,
                None => {
                    return Attempt::Denied(AuthError::MalformedToken);
                },
            };
            let audience = custom_audience();
            let issuer = custom_issuer(project_id);
            match validate_policy(
                c.aud.as_str(),
                c.iss.as_str(),
                c.iat,
                c.exp,
                audience.as_str(),
                issuer.as_str(),
                now,
            ) {
                Err(e) => Attempt::Denied(e),
                Ok(()) => Attempt::Granted(custom_claims_to_user(c)),
            }
        },
    }
}

/// The step the custom-token phase opens with: its attempt's outcome, where a
/// missing key asks for the custom-key fetch and a denial is final.
pub open spec fn spec_custom_start(
    custom_keys: Map<Seq<char>, Seq<char>>,
    project: Seq<char>,
    t: Seq<char>,
    now: u64,
) -> StepModel {
    match spec_attempt_outcome(custom_keys, TokenKind::Custom, project, t, now, false) {
        AttemptModel::Granted(u) => StepModel::Done(Ok(u)),
        AttemptModel::NeedKeys => StepModel::NeedFetch(TokenKind::Custom, t),
        AttemptModel::Denied(e) => StepModel::Done(Err(e)),
    }
}

/// The step verification of a bare token opens with: the ID-token attempt,
/// whose failure is swallowed and superseded by the custom-token phase.
pub open spec fn spec_verify_start(a: FirebaseAuth, t: Seq<char>, now: u64) -> StepModel {
    match spec_attempt_outcome(a.id_keys@, TokenKind::Id, a.project_id@, t, now, false) {
        AttemptModel::Granted(u) => StepModel::Done(Ok(u)),
        AttemptModel::NeedKeys => StepModel::NeedFetch(TokenKind::Id, t),
        AttemptModel::Denied(_) => spec_custom_start(a.custom_keys@, a.project_id@, t, now),
    }
}

/// True when `s` begins with the bearer scheme prefix `"Bearer "`.
pub open spec fn spec_has_bearer_prefix(s: Seq<char>) -> bool {
    s.len() >= 7 && s.subrange(0, 7) == "Bearer "@
}

/// The step verification opens with, given the raw `Authorization` header
/// value (or its absence) and the time: the development-mode bypass, then the
/// bearer-shape checks, then token verification proper.
pub open spec fn spec_verify_from_header(
    a: FirebaseAuth,
    header: Option<&str>,
    now: u64,
) -> StepModel {
    if a.is_dev {
        StepModel::Done(Ok(spec_dev_user()))
    } else {
        match header {
            None => StepModel::Done(Err(AuthError::MissingHeader)),
            Some(h) => if !spec_has_bearer_prefix(h@) {
                StepModel::Done(Err(AuthError::MalformedHeader))
            } else {
                spec_verify_start(a, h@.subrange(7, h@.len() as int), now)
            },
        }
    }
}

/// The key set a cache holds after one fetch whose outcome was `body`
/// (`None`: the endpoint could not be read).
pub open spec fn spec_fetch_refresh(
    pre: Map<Seq<char>, Seq<char>>,
    body: Option<&str>,
) -> Map<Seq<char>, Seq<char>> {
    match body {
        None => pre,
        Some(b) => spec_refresh_result(pre, b@),
    }
}

/// Whether a fetch outcome delivered a parsable key set.
pub open spec fn spec_fetch_ok(body: Option<&str>) -> bool {
    body matches Some(b) && key_pairs_of(b@) is Some
}

/// The step after resuming the ID phase with a fetch outcome, `a` being the
/// verifier with the ID keys already refreshed: a fetch failure or a denial
/// of the refreshed attempt falls through to the custom phase; only success
/// ends here.
pub open spec fn spec_resume_id(
    a: FirebaseAuth,
    t: Seq<char>,
    now: u64,
    fetched_ok: bool,
) -> StepModel {
    if fetched_ok {
        match spec_attempt_outcome(a.id_keys@, TokenKind::Id, a.project_id@, t, now, true) {
            AttemptModel::Granted(u) => StepModel::Done(Ok(u)),
            _ => spec_custom_start(a.custom_keys@, a.project_id@, t, now),
        }
    } else {
        spec_custom_start(a.custom_keys@, a.project_id@, t, now)
    }
}

/// The step after resuming the custom phase with a fetch outcome, `a` being
/// the verifier with the custom keys already refreshed: here every failure is
/// final.
pub open spec fn spec_resume_custom(
    a: FirebaseAuth,
    t: Seq<char>,
    now: u64,
    fetched_ok: bool,
) -> StepModel {
    if fetched_ok {
        match spec_attempt_outcome(a.custom_keys@, TokenKind::Custom, a.project_id@, t, now, true) {
            AttemptModel::Granted(u) => StepModel::Done(Ok(u)),
            AttemptModel::Denied(e) => StepModel::Done(Err(e)),
            AttemptModel::NeedKeys => StepModel::Done(Err(AuthError::KeyNotFound)),
        }
    } else {
        StepModel::Done(Err(AuthError::FetchError))
    }
}

impl FirebaseAuth {
    /// Both key caches are well-formed.
    pub open spec fn wf(&self) -> bool {
        self.id_keys.wf() && self.custom_keys.wf()
    }

    /// Build a verifier for the configured tenant, with both caches empty.
    /// Construction itself cannot fail.
    pub fn new(config: &Config) -> (r: Result<FirebaseAuth, AppError>)
        ensures
            r matches Ok(a) && {
                &&& a.wf()
                &&& a.project_id@ == config.firebase_project_id@
                &&& a.is_dev == config.is_dev
                &&& a.id_keys@ == Map::<Seq<char>, Seq<char>>::empty()
                &&& a.custom_keys@ == Map::<Seq<char>, Seq<char>>::empty()
            },
    {
        Ok(
            FirebaseAuth {
                project_id: config.firebase_project_id.clone(),
                is_dev: config.is_dev,
                id_keys: KeyCache::new(),
                custom_keys: KeyCache::new(),
            },
        )
    }

    /// The endpoint whose body `resume` expects for `kind`.
    pub fn key_url(&self, kind: TokenKind) -> (r: String)
        ensures
            r@ == match kind {
                TokenKind::Id => spec_id_keys_url(),
                TokenKind::Custom => spec_custom_keys_url(self.project_id@),
            },
    {
        match kind {
            TokenKind::Id => id_keys_url(),
            TokenKind::Custom => custom_keys_url(self.project_id.as_str()),
        }
    }

    /// Open the custom-token fallback phase.
    fn custom_step(&self, token: &str, now: u64) -> (r: Step)
        requires
            self.wf(),
        ensures
            r@ == spec_custom_start(self.custom_keys@, self.project_id@, token@, now),
    {
        match attempt(&self.custom_keys, TokenKind::Custom, self.project_id.as_str(), token, now, false) {
            Attempt::Granted(u) => Step::Done(Ok(u)),
            Attempt::Denied(e) => Step::Done(Err(e)),
            Attempt::NeedKeys => Step::NeedFetch {
                kind: TokenKind::Custom,
                token: String::from_str(token),
            },
        }
    }

    /// Verify a bare token: try it as an ID token, and on any failure fall
    /// back to trying it as a custom token; only the fallback's outcome is
    /// surfaced when both are attempted.
    pub fn verify(&self, token: &str, now: u64) -> (r: Step)
        requires
            self.wf(),
        ensures
            r@ == spec_verify_start(*self, token@, now),
    {
        match attempt(&self.id_keys, TokenKind::Id, self.project_id.as_str(), token, now, false) {
            Attempt::Granted(u) => Step::Done(Ok(u)),
            Attempt::NeedKeys => Step::NeedFetch {
                kind: TokenKind::Id,
                token: String::from_str(token),
            },
            Attempt::Denied(_) => self.custom_step(token, now),
        }
    }

    /// Verify the credential presented in an `Authorization` header value.
    /// In development mode every request gets the sentinel identity at once
    /// and nothing is fetched; otherwise the header must read
    /// `Bearer <token>` and the token is verified.
    pub fn verify_token(&self, header: Option<&str>, now: u64) -> (r: Step)
        requires
            self.wf(),
        ensures
            r@ == spec_verify_from_header(*self, header, now),
    {
        if self.is_dev {
            return Step::Done(Ok(FirebaseUser::dev_user()));
        }
        let h = match header {
            Some(h) => h,
            None => {
                return Step::Done(Err(AuthError::MissingHeader));
            },
        };
        proof {
            reveal_strlit("Bearer ");
        }
        if !str_has_prefix(h, "Bearer ") {
            return Step::Done(Err(AuthError::MalformedHeader));
        }
        let token = h.substring_char(7, h.unicode_len());
        self.verify(token, now)
    }

    /// Resume a verification that asked for a fetch: install the fetched body
    /// (or record that the endpoint could not be read) into the kind's cache
    /// and carry the two-phase attempt on. The other kind's cache is never
    /// touched.
    pub fn resume(&mut self, token: &str, now: u64, kind: TokenKind, body: Option<&str>) -> (r:
        Step)
        requires
            old(self).wf(),
        ensures
            final(self).wf(),
            final(self).project_id == old(self).project_id,
            final(self).is_dev == old(self).is_dev,
            kind == TokenKind::Id ==> {
                &&& final(self).custom_keys == old(self).custom_keys
                &&& final(self).id_keys@ == spec_fetch_refresh(old(self).id_keys@, body)
                &&& r@ == spec_resume_id(*final(self), token@, now, spec_fetch_ok(body))
            },
            kind == TokenKind::Custom ==> {
                &&& final(self).id_keys == old(self).id_keys
                &&& final(self).custom_keys@ == spec_fetch_refresh(old(self).custom_keys@, body)
                &&& r@ == spec_resume_custom(*final(self), token@, now, spec_fetch_ok(body))
            },
    {
        let fetched_ok: bool = match body {
            Some(b) => match kind {
                TokenKind::Id => self.id_keys.refresh_from_body(b),
                TokenKind::Custom => self.custom_keys.refresh_from_body(b),
            },
            None => false,
        };
        match kind {
            TokenKind::Id => {
                if fetched_ok {
                    match attempt(
                        &self.id_keys,
                        TokenKind::Id,
                        self.project_id.as_str(),
                        token,
                        now,
                        true,
                    ) {
                        Attempt::Granted(u) => {
                            return Step::Done(Ok(u));
                        },
                        _ => {},
                    }
                }
                self.custom_step(token, now)
            },
            TokenKind::Custom => {
                if !fetched_ok {
                    return Step::Done(Err(AuthError::FetchError));
                }
                match attempt(
                    &self.custom_keys,
                    TokenKind::Custom,
                    self.project_id.as_str(),
                    token,
                    now,
                    true,
                ) {
                    Attempt::Granted(u) => Step::Done(Ok(u)),
                    Attempt::Denied(e) => Step::Done(Err(e)),
                    Attempt::NeedKeys => Step::Done(Err(AuthError::KeyNotFound)),
                }
            },
        }
    }
}

} // verus!
