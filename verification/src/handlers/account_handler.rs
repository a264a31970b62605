//! Account request handlers: decode the path identifier, invoke the
//! account service, and hand the result or the failure back for
//! rendering.

use vstd::prelude::*;
use crate::error::ApiError;
use crate::id::{ObjectId, hex_value, is_id_hex};
use crate::models::account::Account;
use crate::service::account_service::{AccountService, account_field_fault};
use crate::repository::account_repository::{email_taken, entry_of, has_id, index_of_id};

verus! {

/// Creates an account from a decoded request body.
pub fn create_account(service: &mut AccountService, account: Account) -> (r: Result<
    Account,
    ApiError,
>)
    requires
        old(service).inv(),
    ensures
        final(service).inv(),
        account_field_fault(account@) matches Some(m) ==> ({
            &&& r matches Err(e) && (e matches ApiError::BadRequest(msg) && msg@ == m)
            &&& final(service)@ == old(service)@
        }),
        account_field_fault(account@) is None && email_taken(old(service)@, account@.email)
            ==> ({
            &&& r matches Err(e) && (e matches ApiError::BadRequest(msg) && msg@
                == "Email already exists"@)
            &&& final(service)@ == old(service)@
        }),
        account_field_fault(account@) is None && !email_taken(old(service)@, account@.email)
            && old(service).can_assign_id() ==> ({
            &&& r matches Ok(a)
            &&& a@.id == Some(old(service).next_id_val())
            &&& a@.created_at == a@.updated_at
            &&& a@.wallet_address == account@.wallet_address
            &&& a@.email == account@.email
            &&& a@.account_name == account@.account_name
            &&& a@.project_ids == account@.project_ids
            &&& !has_id(old(service)@, old(service).next_id_val())
            &&& final(service)@ == old(service)@.push(a@)
        }),
{
    service.create_account(account)
}

/// Updates the account named by the path identifier from a decoded
/// request body; a malformed identifier is a client fault.
pub fn update_account(service: &mut AccountService, id: &str, account: Account) -> (r: Result<
    Account,
    ApiError,
>)
    requires
        old(service).inv(),
    ensures
        final(service).inv(),
        !is_id_hex(id@) ==> ({
            &&& r matches Err(e) && (e matches ApiError::BadRequest(m) && m@
                == "Invalid ID format"@)
            &&& final(service)@ == old(service)@
        }),
        is_id_hex(id@) ==> (account_field_fault(account@) matches Some(m) ==> ({
            &&& r matches Err(e) && (e matches ApiError::BadRequest(msg) && msg@ == m)
            &&& final(service)@ == old(service)@
        })),
        is_id_hex(id@) && account_field_fault(account@) is None && !has_id(
            old(service)@,
            hex_value(id@),
        ) ==> ({
            &&& r matches Err(e) && e is NotFound
            &&& final(service)@ == old(service)@
        }),
        is_id_hex(id@) && account_field_fault(account@) is None && has_id(
            old(service)@,
            hex_value(id@),
        ) ==> ({
            let j = index_of_id(old(service)@, hex_value(id@));
            &&& r matches Ok(a)
            &&& a@.id == Some(hex_value(id@))
            &&& a@.created_at == old(service)@[j].created_at
            &&& a@.wallet_address == account@.wallet_address
            &&& a@.email == account@.email
            &&& a@.account_name == account@.account_name
            &&& a@.project_ids == account@.project_ids
            &&& final(service)@ == old(service)@.update(j, a@)
        }),
{
    let object_id = match ObjectId::parse_str(id) {
        Ok(o) => o,
        Err(e) => {
            return Err(e);
        },
    };
    service.update_account(&object_id, account)
}

/// Deletes the account named by the path identifier; reports whether one
/// was removed. A malformed identifier is a client fault.
pub fn delete_account(service: &mut AccountService, id: &str) -> (r: Result<bool, ApiError>)
    requires
        old(service).inv(),
    ensures
        final(service).inv(),
        !is_id_hex(id@) ==> ({
            &&& r matches Err(e) && (e matches ApiError::BadRequest(m) && m@
                == "Invalid ID format"@)
            &&& final(service)@ == old(service)@
        }),
        is_id_hex(id@) ==> ({
            &&& r matches Ok(b) && b == has_id(old(service)@, hex_value(id@))
            &&& has_id(old(service)@, hex_value(id@)) ==> final(service)@ == old(service)@.remove(
                index_of_id(old(service)@, hex_value(id@)),
            )
            &&& !has_id(old(service)@, hex_value(id@)) ==> final(service)@ == old(service)@
        }),
{
    let object_id = match ObjectId::parse_str(id) {
        Ok(o) => o,
        Err(e) => {
            return Err(e);
        },
    };
    service.delete_account(&object_id)
}

/// Fetches the account named by the path identifier. A malformed
/// identifier is a client fault, never a store fault.
pub fn get_account(service: &AccountService, id: &str) -> (r: Result<Account, ApiError>)
    requires
        service.inv(),
    ensures
        !is_id_hex(id@) ==> (r matches Err(e) && (e matches ApiError::BadRequest(m) && m@
            == "Invalid ID format"@)),
        is_id_hex(id@) && has_id(service@, hex_value(id@)) ==> (r matches Ok(a) && a@ == entry_of(
            service@,
            hex_value(id@),
        )),
        is_id_hex(id@) && !has_id(service@, hex_value(id@)) ==> (r matches Err(e)
            && e is NotFound),
{
    let object_id = match ObjectId::parse_str(id) {
        Ok(o) => o,
        Err(e) => {
            return Err(e);
        },
    };
    service.get_account(&object_id)
}

/// Returns every stored account.
pub fn get_all_accounts(service: &AccountService) -> (r: Result<Vec<Account>, ApiError>)
    requires
        service.inv(),
    ensures
        r matches Ok(v) && v@.map_values(|a: Account| a@) == service@,
{
    service.get_all_accounts()
}

} // verus!
