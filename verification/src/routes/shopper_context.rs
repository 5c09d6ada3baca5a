use vstd::prelude::*;
use vstd::string::*;
use crate::route_utils::{
    commercyfy_fail, commercyfy_success, created_reply, fails_with, succeeds_with,
    CommercyfyResponse, CreatedEntryResponse, STATUS_BAD_REQUEST, STATUS_CREATED, STATUS_OK,
};
use crate::services::db::DbServiceResult;

verus! {

/// The account of a shopper as it is shown.
#[derive(Clone, Copy, Debug, PartialEq, Eq, Structural)]
pub struct Account {}

/// The body of the reply to the sign-in of a shopper.
#[derive(Clone, Copy, Debug, PartialEq, Eq, Structural)]
pub struct Signin {}

/// The basket of a shopper as it is shown.
#[derive(Clone, Copy, Debug, PartialEq, Eq, Structural)]
pub struct Basket {}

/// What a search for categories found.
#[derive(Clone, Copy, Debug, PartialEq, Eq, Structural)]
pub struct CategorySearch {}

/// What a search for products found.
#[derive(Clone, Copy, Debug, PartialEq, Eq, Structural)]
pub struct ProductSearch {}

pub fn get_account() -> (reply: CommercyfyResponse<Account>)
    ensures
        succeeds_with(reply, STATUS_OK, Account {  }),
{
    commercyfy_success(Account {  })
}

pub fn signin() -> (reply: CommercyfyResponse<Signin>)
    ensures
        succeeds_with(reply, STATUS_OK, Signin {  }),
{
    commercyfy_success(Signin {  })
}

pub fn get_basket() -> (reply: CommercyfyResponse<Basket>)
    ensures
        succeeds_with(reply, STATUS_OK, Basket {  }),
{
    commercyfy_success(Basket {  })
}

pub fn category_search() -> (reply: CommercyfyResponse<CategorySearch>)
    ensures
        succeeds_with(reply, STATUS_OK, CategorySearch {  }),
{
    commercyfy_success(CategorySearch {  })
}

pub fn product_search() -> (reply: CommercyfyResponse<ProductSearch>)
    ensures
        succeeds_with(reply, STATUS_OK, ProductSearch {  }),
{
    commercyfy_success(ProductSearch {  })
}

/// What a request for an account whose email is in use is told.
pub open spec fn account_exists() -> Seq<char> {
    "Account with that email already exists."@
}

/// Refuses a request to create an account whose email the store holds
/// already. A failure of the lookup does not stop the request.
pub fn account_taken<E>(existing: &DbServiceResult<Option<E>>) -> (reply: Option<
    CommercyfyResponse<CreatedEntryResponse>,
>)
    ensures
        reply is Some <==> (*existing matches Ok(Some(_))),
        reply matches Some(refused) ==> fails_with(refused, STATUS_BAD_REQUEST, account_exists()),
{
    match existing {
        Ok(Some(_)) => Some(
            commercyfy_fail(String::from_str("Account with that email already exists.")),
        ),
        _ => None,
    }
}

/// The password of a new account as it is stored, or the reply that ends
/// the request where the password could not be hashed.
pub fn hashed_or_fail(hashed: Result<String, String>) -> (stored: Result<
    String,
    CommercyfyResponse<CreatedEntryResponse>,
>)
    ensures
        match hashed {
            Ok(hash) => stored == Ok::<String, CommercyfyResponse<CreatedEntryResponse>>(hash),
            Err(reason) => stored matches Err(reply) && fails_with(
                reply,
                STATUS_BAD_REQUEST,
                reason@,
            ),
        },
{
    match hashed {
        Ok(hash) => Ok(hash),
        Err(reason) => Err(commercyfy_fail(reason)),
    }
}

/// The reply that ends the creation of an account: its identifier with
/// the status 201, or the failure of the store.
pub fn account_created_reply(created: DbServiceResult<u128>) -> (reply: CommercyfyResponse<
    CreatedEntryResponse,
>)
    ensures
        match created {
            Ok(id) => succeeds_with(reply, STATUS_CREATED, CreatedEntryResponse { id }),
            Err(reason) => fails_with(reply, STATUS_BAD_REQUEST, reason@),
        },
{
    created_reply(STATUS_CREATED, created)
}

} // verus!
