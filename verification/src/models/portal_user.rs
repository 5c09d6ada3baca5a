use vstd::prelude::*;

verus! {

/// What a user of the portal may do.
#[derive(Clone, Copy, Debug, PartialEq, Eq, Structural)]
pub enum PortalUsersRoles {
    READER,
    EDITOR,
    ADMIN,
}

/// A user of the portal. `password` holds the hash of the password.
#[derive(Debug)]
pub struct PortalUser {
    pub id: u128,
    pub email: String,
    pub first_name: String,
    pub last_name: String,
    pub password: String,
    pub roles: Vec<PortalUsersRoles>,
}

/// The token that a sign-in hands out.
#[derive(Debug)]
pub struct SignInToken {
    pub jwt: String,
}

/// What a token says of its bearer: who it is, until when the token
/// holds (in seconds since the epoch), and what the bearer may do.
#[derive(Debug)]
pub struct JWTClaims {
    pub email: String,
    pub exp: u64,
    pub roles: Vec<PortalUsersRoles>,
}

} // verus!
