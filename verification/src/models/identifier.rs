use vstd::prelude::*;

verus! {

/// The text of an identifier: what the `uuid` crate writes for the
/// identifier whose 128 bits are `id`, in its hyphenated lowercase form.
pub uninterp spec fn identifier_text(id: u128) -> Seq<char>;

/// Calls `Uuid::from_u128` and the `to_string` that `uuid` gives through
/// `Display`. Nothing is proved of it: the contract names the result and
/// states its length, which the crate fixes at 36 (32 digits, 4 hyphens).
#[verifier::external_body]
pub(crate) fn write_identifier(id: u128) -> (text: String)
    ensures
        text@ == identifier_text(id),
        text@.len() == 36,
{
    uuid::Uuid::from_u128(id).to_string()
}

/// The text by which an entity is referred to in the value store.
pub fn entity_reference(id: u128) -> (extr_ref: String)
    ensures
        extr_ref@ == identifier_text(id),
        extr_ref@.len() == 36,
{
    write_identifier(id)
}

/// The identifier that stands for no entry: all of its bits are zero.
pub const NIL_IDENTIFIER: u128 = 0;

} // verus!
