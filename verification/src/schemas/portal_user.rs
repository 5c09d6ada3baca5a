use vstd::prelude::*;
use vstd::string::*;
use crate::text::{byte_len, byte_length};
use crate::models::portal_user::PortalUsersRoles;

verus! {

/// A request to create a user of the portal.
#[derive(Debug)]
pub struct PortalUserCreate {
    pub email: String,
    pub first_name: String,
    pub last_name: String,
    pub password: String,
    pub roles: Vec<PortalUsersRoles>,
}

impl PortalUserCreate {
    /// Why the request is refused: the first of its required texts that
    /// is empty, in the order email, first name, last name, password; or
    /// a password that takes no more than 4 bytes in UTF-8. `None` for a
    /// valid one.
    pub open spec fn rejection(&self) -> Option<Seq<char>> {
        if self.email@.len() == 0 {
            Some("'email' field is mandatory"@)
        } else if self.first_name@.len() == 0 {
            Some("'first_name' field is mandatory"@)
        } else if self.last_name@.len() == 0 {
            Some("'last_name' field is mandatory"@)
        } else if self.password@.len() == 0 {
            Some("'password' field is mandatory"@)
        } else if byte_length(self.password@) <= 4 {
            Some("'password' should be longer than 4 symbols"@)
        } else {
            None
        }
    }

    pub fn validate(&self) -> (checked: Result<(), String>)
        ensures
            match self.rejection() {
                Some(reason) => checked matches Err(message) && message@ == reason,
                None => checked is Ok,
            },
    {
        if self.email.as_str().is_empty() {
            return Err(String::from_str("'email' field is mandatory"));
        }
        if self.first_name.as_str().is_empty() {
            return Err(String::from_str("'first_name' field is mandatory"));
        }
        if self.last_name.as_str().is_empty() {
            return Err(String::from_str("'last_name' field is mandatory"));
        }
        if self.password.as_str().is_empty() {
            return Err(String::from_str("'password' field is mandatory"));
        }
        if byte_len(self.password.as_str()) <= 4 {
            return Err(String::from_str("'password' should be longer than 4 symbols"));
        }
        Ok(())
    }
}

/// A request to sign in to the portal.
#[derive(Debug)]
pub struct PortalUserSignin {
    pub email: String,
    pub password: String,
}

impl PortalUserSignin {
    /// Why the request is refused: its email is empty, or else its
    /// password is. `None` for a valid one.
    pub open spec fn rejection(&self) -> Option<Seq<char>> {
        if self.email@.len() == 0 {
            Some("'email' is mandatory field"@)
        } else if self.password@.len() == 0 {
            Some("'password' is mandatory field"@)
        } else {
            None
        }
    }

    pub fn validate(&self) -> (checked: Result<(), String>)
        ensures
            match self.rejection() {
                Some(reason) => checked matches Err(message) && message@ == reason,
                None => checked is Ok,
            },
    {
        if self.email.as_str().is_empty() {
            return Err(String::from_str("'email' is mandatory field"));
        }
        if self.password.as_str().is_empty() {
            return Err(String::from_str("'password' is mandatory field"));
        }
        Ok(())
    }
}

} // verus!
