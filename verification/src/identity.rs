//! The normalized result of a successful verification.

use vstd::prelude::*;

verus! {

/// Identity record produced by a successful token verification.
#[derive(Debug, Clone)]
pub struct FirebaseUser {
    pub uid: String,
    pub email: String,
    pub email_verified: bool,
    pub name: Option<String>,
    pub picture: Option<String>,
}

/// Ghost model of a `FirebaseUser`.
#[verifier::ext_equal]
pub struct UserModel {
    pub uid: Seq<char>,
    pub email: Seq<char>,
    pub email_verified: bool,
    pub name: Option<Seq<char>>,
    pub picture: Option<Seq<char>>,
}

pub open spec fn opt_view(o: Option<String>) -> Option<Seq<char>> {
    match o {
        Some(s) => Some(s@),
        None => None,
    }
}

impl View for FirebaseUser {
    type V = UserModel;

    open spec fn view(&self) -> UserModel {
        UserModel {
            uid: self.uid@,
            email: self.email@,
            email_verified: self.email_verified,
            name: opt_view(self.name),
            picture: opt_view(self.picture),
        }
    }
}

/// The fixed sentinel identity returned while the development-mode bypass is
/// switched on.
pub open spec fn spec_dev_user() -> UserModel {
    UserModel {
        uid: "dev-user"@,
        email: "dev@example.com"@,
        email_verified: true,
        name: Some("Dev User"@),
        picture: None,
    }
}

impl FirebaseUser {
    /// Construct the development-mode sentinel identity.
    pub fn dev_user() -> (r: FirebaseUser)
        ensures
            r@ == spec_dev_user(),
    {
        let r = FirebaseUser {
            uid: String::from_str("dev-user"),
            email: String::from_str("dev@example.com"),
            email_verified: true,
            name: Some(String::from_str("Dev User")),
            picture: None,
        };
        proof {
            assert(r@ =~= spec_dev_user());
        }
        r
    }
}

} // verus!
