//! The account service: field validation, email uniqueness and
//! timestamp bookkeeping in front of the account collection.

use vstd::prelude::*;
use crate::clock::now_millis;
use crate::error::ApiError;
use crate::id::ObjectId;
use crate::models::account::{Account, AccountV};
use crate::repository::account_repository::{
    AccountRepository, account_stored, account_merged, email_taken, entries_wf, entry_of, has_id,
    index_of_id, lemma_update_then_get,
};

verus! {

/// The field-validation verdict on an account: the rejection message
/// for the first empty required field, if any.
pub open spec fn account_field_fault(a: AccountV) -> Option<Seq<char>> {
    if a.email.len() == 0 {
        Some("Email cannot be empty"@)
    } else if a.wallet_address.len() == 0 {
        Some("Wallet address cannot be empty"@)
    } else {
        None
    }
}

/// The account as created: the caller's fields under a fresh identifier,
/// with both timestamps set to the creation time.
pub open spec fn account_created(a: AccountV, id: int, now: int) -> AccountV {
    AccountV { id: Some(id), created_at: now, updated_at: now, ..a }
}

/// The account as updated: the caller's fields under the stored
/// identifier, keeping the stored creation timestamp, with the update
/// timestamp set to the update time.
pub open spec fn account_updated(a: AccountV, id: int, created_at: int, now: int) -> AccountV {
    AccountV { id: Some(id), created_at, updated_at: now, ..a }
}

/// Checks the required account fields, returning the client fault for
/// the first empty one.
pub fn validate_account_fields(account: &Account) -> (r: Option<ApiError>)
    ensures
        match account_field_fault(account@) {
            Some(m) => r matches Some(e) && (e matches ApiError::BadRequest(msg) && msg@ == m),
            None => r is None,
        },
{
    if account.email.as_str().is_empty() {
        Some(ApiError::BadRequest(String::from_str("Email cannot be empty")))
    } else if account.wallet_address.as_str().is_empty() {
        Some(ApiError::BadRequest(String::from_str("Wallet address cannot be empty")))
    } else {
        None
    }
}

/// Whether any account in the list carries this email.
pub fn email_exists(accounts: &Vec<Account>, email: &String) -> (r: bool)
    ensures
        r == email_taken(accounts@.map_values(|a: Account| a@), email@),
{
    let ghost views = accounts@.map_values(|a: Account| a@);
    let mut i: usize = 0;
    while i < accounts.len()
        invariant
            0 <= i <= accounts.len(),
            views == accounts@.map_values(|a: Account| a@),
            forall|j: int| 0 <= j < i ==> (#[trigger] views[j]).email != email@,
        decreases accounts.len() - i,
    {
        if accounts[i].email == *email {
            proof {
                assert(views[i as int].email == email@);
            }
            return true;
        }
        proof {
            assert(views[i as int] == accounts@[i as int]@);
        }
        i += 1;
    }
    false
}

/// Validation and timestamping in front of the account collection.
pub struct AccountService {
    repository: AccountRepository,
}

impl View for AccountService {
    type V = Seq<AccountV>;

    closed spec fn view(&self) -> Seq<AccountV> {
        self.repository@
    }
}

impl AccountService {
    /// Invariant of the underlying collection.
    pub closed spec fn inv(&self) -> bool {
        self.repository.inv()
    }

    /// The next identifier value the collection will assign.
    pub closed spec fn next_id_val(&self) -> int {
        self.repository.next_id_val()
    }

    /// Whether the identifier space is not exhausted.
    pub open spec fn can_assign_id(&self) -> bool {
        self.next_id_val() < u64::MAX as int
    }

    /// Wraps a collection.
    pub fn new(repository: AccountRepository) -> (r: AccountService)
        requires
            repository.inv(),
        ensures
            r.inv(),
            r@ == repository@,
            r.next_id_val() == repository.next_id_val(),
    {
        AccountService { repository }
    }

    /// Validates the required fields and the email's uniqueness, stamps
    /// both timestamps with `now`, and stores the account under a fresh
    /// identifier.
    pub fn create_account_at(&mut self, account: Account, now: i64) -> (r: Result<
        Account,
        ApiError,
    >)
        requires
            old(self).inv(),
        ensures
            final(self).inv(),
            account_field_fault(account@) matches Some(m) ==> ({
                &&& r matches Err(e) && (e matches ApiError::BadRequest(msg) && msg@ == m)
                &&& final(self)@ == old(self)@
                &&& final(self).next_id_val() == old(self).next_id_val()
            }),
            account_field_fault(account@) is None && email_taken(old(self)@, account@.email)
                ==> ({
                &&& r matches Err(e) && (e matches ApiError::BadRequest(msg) && msg@
                    == "Email already exists"@)
                &&& final(self)@ == old(self)@
                &&& final(self).next_id_val() == old(self).next_id_val()
            }),
            account_field_fault(account@) is None && !email_taken(old(self)@, account@.email)
                && old(self).can_assign_id() ==> ({
                &&& r matches Ok(a)
                &&& a@ == account_created(account@, old(self).next_id_val(), now as int)
                &&& !has_id(old(self)@, old(self).next_id_val())
                &&& final(self)@ == old(self)@.push(a@)
                &&& final(self).next_id_val() == old(self).next_id_val() + 1
            }),
            account_field_fault(account@) is None && !email_taken(old(self)@, account@.email)
                && !old(self).can_assign_id() ==> ({
                &&& r matches Err(e) && e is Internal
                &&& final(self)@ == old(self)@
                &&& final(self).next_id_val() == old(self).next_id_val()
            }),
    {
        let mut account = account;
        account.created_at = now;
        account.updated_at = now;
        if let Some(e) = validate_account_fields(&account) {
            return Err(e);
        }
        match self.repository.get_all() {
            Ok(existing) => {
                if email_exists(&existing, &account.email) {
                    return Err(ApiError::BadRequest(String::from_str("Email already exists")));
                }
            },
            Err(_) => {},
        }
        let ghost stamped = account@;
        let r = self.repository.create(account);
        proof {
            if old(self).can_assign_id() {
                assert(account_stored(stamped, old(self).next_id_val()) =~= account_created(
                    account@,
                    old(self).next_id_val(),
                    now as int,
                ));
            }
        }
        r
    }

    /// Validates the required fields, stamps the update timestamp with
    /// `now`, and replaces the stored account, keeping its identifier
    /// and creation timestamp.
    pub fn update_account_at(&mut self, id: &ObjectId, account: Account, now: i64) -> (r: Result<
        Account,
        ApiError,
    >)
        requires
            old(self).inv(),
        ensures
            final(self).inv(),
            final(self).next_id_val() == old(self).next_id_val(),
            account_field_fault(account@) matches Some(m) ==> ({
                &&& r matches Err(e) && (e matches ApiError::BadRequest(msg) && msg@ == m)
                &&& final(self)@ == old(self)@
            }),
            account_field_fault(account@) is None && !has_id(old(self)@, id@) ==> ({
                &&& r matches Err(e) && e is NotFound
                &&& final(self)@ == old(self)@
            }),
            account_field_fault(account@) is None && has_id(old(self)@, id@) ==> ({
                let j = index_of_id(old(self)@, id@);
                &&& r matches Ok(a)
                &&& a@ == account_updated(account@, id@, old(self)@[j].created_at, now as int)
                &&& final(self)@ == old(self)@.update(j, a@)
            }),
    {
        let mut account = account;
        account.updated_at = now;
        if let Some(e) = validate_account_fields(&account) {
            return Err(e);
        }
        let ghost stamped = account@;
        let r = self.repository.update(id, account);
        proof {
            if has_id(old(self)@, id@) {
                let j = index_of_id(old(self)@, id@);
                assert(account_merged(stamped, id@, old(self)@[j].created_at) =~= account_updated(
                    account@,
                    id@,
                    old(self)@[j].created_at,
                    now as int,
                ));
            }
        }
        r
    }

    /// Removes the account matching `id`; reports whether one was
    /// removed.
    pub fn delete_account(&mut self, id: &ObjectId) -> (r: Result<bool, ApiError>)
        requires
            old(self).inv(),
        ensures
            final(self).inv(),
            final(self).next_id_val() == old(self).next_id_val(),
            r matches Ok(b) && b == has_id(old(self)@, id@),
            has_id(old(self)@, id@) ==> final(self)@ == old(self)@.remove(
                index_of_id(old(self)@, id@),
            ),
            !has_id(old(self)@, id@) ==> final(self)@ == old(self)@,
    {
        self.repository.delete(id)
    }

    /// Fetches the account matching `id`.
    pub fn get_account(&self, id: &ObjectId) -> (r: Result<Account, ApiError>)
        requires
            self.inv(),
        ensures
            has_id(self@, id@) ==> (r matches Ok(a) && a@ == entry_of(self@, id@)),
            !has_id(self@, id@) ==> (r matches Err(e) && e is NotFound),
    {
        self.repository.get_by_id(id)
    }

    /// Returns every stored account, in insertion order.
    pub fn get_all_accounts(&self) -> (r: Result<Vec<Account>, ApiError>)
        requires
            self.inv(),
        ensures
            r matches Ok(v) && v@.map_values(|a: Account| a@) == self@,
    {
        self.repository.get_all()
    }

    /// Stamps the account with the current time and creates it.
    pub fn create_account(&mut self, account: Account) -> (r: Result<Account, ApiError>)
        requires
            old(self).inv(),
        ensures
            final(self).inv(),
            account_field_fault(account@) matches Some(m) ==> ({
                &&& r matches Err(e) && (e matches ApiError::BadRequest(msg) && msg@ == m)
                &&& final(self)@ == old(self)@
                &&& final(self).next_id_val() == old(self).next_id_val()
            }),
            account_field_fault(account@) is None && email_taken(old(self)@, account@.email)
                ==> ({
                &&& r matches Err(e) && (e matches ApiError::BadRequest(msg) && msg@
                    == "Email already exists"@)
                &&& final(self)@ == old(self)@
                &&& final(self).next_id_val() == old(self).next_id_val()
            }),
            account_field_fault(account@) is None && !email_taken(old(self)@, account@.email)
                && old(self).can_assign_id() ==> ({
                &&& r matches Ok(a)
                &&& a@.id == Some(old(self).next_id_val())
                &&& a@.created_at == a@.updated_at
                &&& a@.wallet_address == account@.wallet_address
                &&& a@.email == account@.email
                &&& a@.account_name == account@.account_name
                &&& a@.project_ids == account@.project_ids
                &&& !has_id(old(self)@, old(self).next_id_val())
                &&& final(self)@ == old(self)@.push(a@)
                &&& final(self).next_id_val() == old(self).next_id_val() + 1
            }),
            account_field_fault(account@) is None && !email_taken(old(self)@, account@.email)
                && !old(self).can_assign_id() ==> ({
                &&& r matches Err(e) && e is Internal
                &&& final(self)@ == old(self)@
            }),
    {
        let now = now_millis();
        self.create_account_at(account, now)
    }

    /// Stamps the account with the current time and updates it.
    pub fn update_account(&mut self, id: &ObjectId, account: Account) -> (r: Result<
        Account,
        ApiError,
    >)
        requires
            old(self).inv(),
        ensures
            final(self).inv(),
            final(self).next_id_val() == old(self).next_id_val(),
            account_field_fault(account@) matches Some(m) ==> ({
                &&& r matches Err(e) && (e matches ApiError::BadRequest(msg) && msg@ == m)
                &&& final(self)@ == old(self)@
            }),
            account_field_fault(account@) is None && !has_id(old(self)@, id@) ==> ({
                &&& r matches Err(e) && e is NotFound
                &&& final(self)@ == old(self)@
            }),
            account_field_fault(account@) is None && has_id(old(self)@, id@) ==> ({
                let j = index_of_id(old(self)@, id@);
                &&& r matches Ok(a)
                &&& a@.id == Some(id@)
                &&& a@.created_at == old(self)@[j].created_at
                &&& a@.wallet_address == account@.wallet_address
                &&& a@.email == account@.email
                &&& a@.account_name == account@.account_name
                &&& a@.project_ids == account@.project_ids
                &&& final(self)@ == old(self)@.update(j, a@)
            }),
    {
        let now = now_millis();
        self.update_account_at(id, account, now)
    }
}

/// An updated account is read back exactly: every field equals the
/// incoming entity's, except the identifier and the creation timestamp,
/// which keep their stored values, and the update timestamp, which is
/// at least the stored one whenever the update time is.
pub proof fn lemma_update_round_trip(s: Seq<AccountV>, id: int, a: AccountV, now: int)
    requires
        entries_wf(s),
        has_id(s, id),
        now >= entry_of(s, id).updated_at,
    ensures
        ({
            let j = index_of_id(s, id);
            let m = account_updated(a, id, s[j].created_at, now);
            &&& entries_wf(s.update(j, m))
            &&& has_id(s.update(j, m), id)
            &&& entry_of(s.update(j, m), id) == m
            &&& m.id == entry_of(s, id).id
            &&& m.created_at == entry_of(s, id).created_at
            &&& m.updated_at >= entry_of(s, id).updated_at
            &&& m.wallet_address == a.wallet_address
            &&& m.email == a.email
            &&& m.account_name == a.account_name
            &&& m.project_ids == a.project_ids
        }),
{
    let j = index_of_id(s, id);
    let m = account_updated(a, id, s[j].created_at, now);
    lemma_update_then_get(s, j, m);
}

} // verus!
