//! The per-token-kind verification policy: accepted audience and issuer
//! strings, and the key-metadata endpoints, all derived from the tenant's
//! project id.

use vstd::prelude::*;

verus! {

/// Accepted issuer of an ID token.
pub open spec fn spec_id_issuer(project: Seq<char>) -> Seq<char> {
    "https://securetoken.google.com/"@ + project
}

/// The service-account address a custom token must be issued by.
pub open spec fn spec_custom_issuer(project: Seq<char>) -> Seq<char> {
    project + "@appspot.gserviceaccount.com"@
}

/// The fixed Identity-Toolkit audience a custom token must name.
pub open spec fn spec_custom_audience() -> Seq<char> {
    "https://identitytoolkit.googleapis.com/google.identity.identitytoolkit.v1.IdentityToolkit"@
}

/// The well-known endpoint publishing the ID-token signing keys.
pub open spec fn spec_id_keys_url() -> Seq<char> {
    "https://www.googleapis.com/robot/v1/metadata/x509/securetoken@system.gserviceaccount.com"@
}

/// The per-tenant endpoint publishing the service account's signing keys.
pub open spec fn spec_custom_keys_url(project: Seq<char>) -> Seq<char> {
    "https://www.googleapis.com/robot/v1/metadata/x509/"@ + spec_custom_issuer(project)
}

pub fn id_issuer(project: &str) -> (r: String)
    ensures
        r@ == spec_id_issuer(project@),
{
    let mut s = String::from_str("https://securetoken.google.com/");
    s.append(project);
    s
}

pub fn custom_issuer(project: &str) -> (r: String)
    ensures
        r@ == spec_custom_issuer(project@),
{
    let mut s = String::from_str(project);
    s.append("@appspot.gserviceaccount.com");
    s
}

pub fn custom_audience() -> (r: String)
    ensures
        r@ == spec_custom_audience(),
{
    String::from_str(
        "https://identitytoolkit.googleapis.com/google.identity.identitytoolkit.v1.IdentityToolkit",
    )
}

pub fn id_keys_url() -> (r: String)
    ensures
        r@ == spec_id_keys_url(),
{
    String::from_str(
        "https://www.googleapis.com/robot/v1/metadata/x509/securetoken@system.gserviceaccount.com",
    )
}

pub fn custom_keys_url(project: &str) -> (r: String)
    ensures
        r@ == spec_custom_keys_url(project@),
{
    let mut s = String::from_str("https://www.googleapis.com/robot/v1/metadata/x509/");
    let issuer = custom_issuer(project);
    s.append(issuer.as_str());
    s
}

} // verus!
