use vstd::prelude::*;

use crate::entities_helper::{RetreatUserModel, UserModel};
use crate::serializers::validation::{set_if_present, updated};

verus! {

/// Body of a request that adds a member of staff to a retreat.
#[derive(Debug)]
pub struct CreateRetreatUserSerializer {
    pub name: String,
    pub email: String,
    pub role: String,
}

/// Body of a request that changes the role of a member of staff. A role
/// that is left out stays as it is; it can be set to nothing.
#[derive(Debug)]
pub struct UpdateRetreatUserSerializer {
    pub role: Option<Option<String>>,
}

/// What is to be done with the account of a new member of staff.
#[derive(Debug)]
pub enum StaffAccount {
    /// An account with this address and name exists: it joins the staff.
    Existing { user_id: i64 },
    /// The address belongs to an account under another name, which is
    /// reported and not touched.
    NameConflict { name: String },
    /// No account has the address: one is to be created.
    Missing,
}

impl CreateRetreatUserSerializer {
    /// Judges the account that the store found under the submitted address.
    pub fn account(&self, found: Option<&UserModel>) -> (verdict: StaffAccount)
        ensures
            match found {
                None => verdict is Missing,
                Some(user) => if user.name@ == self.name@ {
                    verdict == (StaffAccount::Existing { user_id: user.user_id })
                } else {
                    verdict matches StaffAccount::NameConflict { name } && name@ == user.name@
                },
            },
    {
        match found {
            None => StaffAccount::Missing,
            Some(user) => if user.name == self.name {
                StaffAccount::Existing { user_id: user.user_id }
            } else {
                StaffAccount::NameConflict { name: user.name.clone() }
            },
        }
    }
}

impl UpdateRetreatUserSerializer {
    /// The record after the update: the role is replaced if the update
    /// holds one.
    pub fn apply_to(self, member: RetreatUserModel) -> (changed: RetreatUserModel)
        ensures
            changed == (RetreatUserModel { role: updated(member.role, self.role), ..member }),
    {
        let mut changed = member;
        set_if_present(&mut changed.role, self.role);
        changed
    }
}

} // verus!
