//! The account entity.

use vstd::prelude::*;
use crate::id::ObjectId;

verus! {

/// An account record.
///
/// `id` is absent until the store assigns it at creation and is never
/// reassigned. `project_ids` holds weak references to projects; nothing
/// checks that they resolve. `created_at` is set once at creation;
/// `updated_at` is set on every create and update. Timestamps are
/// milliseconds since the epoch.
pub struct Account {
    pub id: Option<ObjectId>,
    pub wallet_address: String,
    pub email: String,
    pub account_name: String,
    pub project_ids: Vec<ObjectId>,
    pub created_at: i64,
    pub updated_at: i64,
}

/// The mathematical value of an account.
#[verifier::ext_equal]
pub ghost struct AccountV {
    pub id: Option<int>,
    pub wallet_address: Seq<char>,
    pub email: Seq<char>,
    pub account_name: Seq<char>,
    pub project_ids: Seq<int>,
    pub created_at: int,
    pub updated_at: int,
}

impl View for Account {
    type V = AccountV;

    open spec fn view(&self) -> AccountV {
        AccountV {
            id: match self.id {
                Some(o) => Some(o@),
                None => None,
            },
            wallet_address: self.wallet_address@,
            email: self.email@,
            account_name: self.account_name@,
            project_ids: self.project_ids@.map_values(|o: ObjectId| o@),
            created_at: self.created_at as int,
            updated_at: self.updated_at as int,
        }
    }
}

/// An elementwise copy of an identifier list.
fn copy_id_vec(v: &Vec<ObjectId>) -> (r: Vec<ObjectId>)
    ensures
        r@ == v@,
{
    let mut r: Vec<ObjectId> = Vec::new();
    let mut i: usize = 0;
    while i < v.len()
        invariant
            0 <= i <= v.len(),
            r@ == v@.subrange(0, i as int),
        decreases v.len() - i,
    {
        r.push(v[i]);
        proof {
            assert(r@ =~= v@.subrange(0, i + 1));
        }
        i += 1;
    }
    proof {
        assert(r@ =~= v@);
    }
    r
}

impl Clone for Account {
    /// A clone carries the same value in every field.
    fn clone(&self) -> (res: Account)
        ensures
            res@ == self@,
    {
        let res = Account {
            id: self.id,
            wallet_address: self.wallet_address.clone(),
            email: self.email.clone(),
            account_name: self.account_name.clone(),
            project_ids: copy_id_vec(&self.project_ids),
            created_at: self.created_at,
            updated_at: self.updated_at,
        };
        proof {
            assert(res@ =~= self@);
        }
        res
    }
}

} // verus!
