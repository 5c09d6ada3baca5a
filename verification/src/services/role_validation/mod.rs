use vstd::prelude::*;
use vstd::string::*;
use crate::models::portal_user::{JWTClaims, PortalUsersRoles};

verus! {

/// Whether one of the roles `held` is among the roles `wanted`.
pub open spec fn holds_any(held: Seq<PortalUsersRoles>, wanted: Seq<PortalUsersRoles>) -> bool {
    exists|i: int| 0 <= i < held.len() && wanted.contains(#[trigger] held[i])
}

/// The answer to a bearer who lacks the role that an operation asks for.
pub open spec fn not_enough_permissions() -> Seq<char> {
    "Not enough permissions"@
}

/// Decides whether the bearer of a token may perform an operation.
pub trait RoleService {
    /// Accepts the bearer if it holds `role`.
    fn validate_role(&self, claims: &JWTClaims, role: PortalUsersRoles) -> (checked: Result<
        (),
        String,
    >)
        ensures
            checked is Ok <==> claims.roles@.contains(role),
            checked matches Err(message) ==> message@ == not_enough_permissions(),
    ;

    /// Accepts the bearer if it is an administrator.
    fn validate_admin(&self, claims: &JWTClaims) -> (checked: Result<(), String>)
        ensures
            checked is Ok <==> claims.roles@.contains(PortalUsersRoles::ADMIN),
            checked matches Err(message) ==> message@ == not_enough_permissions(),
    ;

    /// Accepts the bearer if it is an editor.
    fn validate_editor(&self, claims: &JWTClaims) -> (checked: Result<(), String>)
        ensures
            checked is Ok <==> claims.roles@.contains(PortalUsersRoles::EDITOR),
            checked matches Err(message) ==> message@ == not_enough_permissions(),
    ;

    /// Accepts the bearer if it is a reader.
    fn validate_reader(&self, claims: &JWTClaims) -> (checked: Result<(), String>)
        ensures
            checked is Ok <==> claims.roles@.contains(PortalUsersRoles::READER),
            checked matches Err(message) ==> message@ == not_enough_permissions(),
    ;

    /// Accepts the bearer if it holds one of `roles`.
    fn validate_any(&self, claims: &JWTClaims, roles: Vec<PortalUsersRoles>) -> (checked: Result<
        (),
        String,
    >)
        ensures
            checked is Ok <==> holds_any(claims.roles@, roles@),
            checked matches Err(message) ==> message@ == not_enough_permissions(),
    ;
}

/// Whether `role` is among `roles`.
pub fn contains_role(roles: &Vec<PortalUsersRoles>, role: PortalUsersRoles) -> (found: bool)
    ensures
        found == roles@.contains(role),
{
    let mut i: usize = 0;
    while i < roles.len()
        invariant
            i <= roles.len(),
            forall|k: int| 0 <= k < i ==> roles@[k] != role,
        decreases roles.len() - i,
    {
        if roles[i] == role {
            return true;
        }
        i += 1;
    }
    false
}

/// The role checks of the portal.
#[derive(Clone, Copy, Debug)]
pub struct RoleValidation {}

impl Default for RoleValidation {
    fn default() -> (service: Self)
        ensures
            service == (RoleValidation {  }),
    {
        RoleValidation {  }
    }
}

impl RoleService for RoleValidation {
    fn validate_role(&self, claims: &JWTClaims, role: PortalUsersRoles) -> (checked: Result<
        (),
        String,
    >) {
        if !contains_role(&claims.roles, role) {
            return Err(String::from_str("Not enough permissions"));
        }
        Ok(())
    }

    fn validate_admin(&self, claims: &JWTClaims) -> (checked: Result<(), String>) {
        self.validate_role(claims, PortalUsersRoles::ADMIN)
    }

    fn validate_editor(&self, claims: &JWTClaims) -> (checked: Result<(), String>) {
        self.validate_role(claims, PortalUsersRoles::EDITOR)
    }

    fn validate_reader(&self, claims: &JWTClaims) -> (checked: Result<(), String>) {
        self.validate_role(claims, PortalUsersRoles::READER)
    }

    fn validate_any(&self, claims: &JWTClaims, roles: Vec<PortalUsersRoles>) -> (checked: Result<
        (),
        String,
    >) {
        let mut i: usize = 0;
        while i < claims.roles.len()
            invariant
                i <= claims.roles.len(),
                forall|k: int| 0 <= k < i ==> !roles@.contains(#[trigger] claims.roles@[k]),
            decreases claims.roles.len() - i,
        {
            if contains_role(&roles, claims.roles[i]) {
                return Ok(());
            }
            i += 1;
        }
        Err(String::from_str("Not enough permissions"))
    }
}

} // verus!
