//! The two-step hand-over of a contract's administrator role, shared by all
//! contracts: the administrator names a successor, who then accepts.
use vstd::prelude::*;
use crate::types::Address;
use crate::error::Error;

verus! {

/// Who administers a contract, and who has been offered the role.
#[derive(Clone, Copy, Debug, PartialEq, Eq, Structural)]
pub struct AdminRole {
    pub admin: Option<Address>,
    pub pending_admin: Option<Address>,
}

impl AdminRole {
    /// The role of a contract that has not been initialized.
    pub fn new() -> (r: AdminRole)
        ensures
            r.admin is None,
            r.pending_admin is None,
    {
        AdminRole { admin: None, pending_admin: None }
    }

    /// Why `caller` may not act as administrator, if it may not.
    pub open spec fn admin_check(self, caller: Address) -> Option<Error> {
        match self.admin {
            None => Some(Error::NotInitialized),
            Some(a) => if a != caller { Some(Error::Unauthorized) } else { None },
        }
    }

    /// Checks that `caller` is the administrator: `NotInitialized` when there
    /// is none, `Unauthorized` when it is someone else.
    pub fn require_admin(&self, caller: Address) -> (r: Result<(), Error>)
        ensures
            r == (match self.admin_check(caller) {
                Some(e) => Err(e),
                None => Ok(()),
            }),
    {
        match self.admin {
            None => Err(Error::NotInitialized),
            Some(a) => if a != caller { Err(Error::Unauthorized) } else { Ok(()) },
        }
    }

    /// Why a proposal of a successor by `current_admin` is refused, if it is.
    pub open spec fn propose_check(self, current_admin: Address) -> Option<Error> {
        self.admin_check(current_admin)
    }

    /// The role after `new_admin` has been offered it.
    pub open spec fn proposed(self, new_admin: Address) -> AdminRole {
        AdminRole { pending_admin: Some(new_admin), ..self }
    }

    /// The administrator `current_admin` offers the role to `new_admin`; an
    /// earlier offer is replaced.
    pub fn propose_admin(&mut self, current_admin: Address, new_admin: Address) -> (r: Result<(), Error>)
        ensures
            r == (match old(self).propose_check(current_admin) {
                Some(e) => Err(e),
                None => Ok(()),
            }),
            *final(self) == (if r is Ok { old(self).proposed(new_admin) } else { *old(self) }),
    {
        self.require_admin(current_admin)?;
        self.pending_admin = Some(new_admin);
        Ok(())
    }

    /// Why `new_admin` may not accept the role, if it may not.
    pub open spec fn accept_check(self, new_admin: Address) -> Option<Error> {
        match self.pending_admin {
            None => Some(Error::NoPendingAdmin),
            Some(p) => if p != new_admin { Some(Error::Unauthorized) } else { None },
        }
    }

    /// The role after `new_admin` has taken it.
    pub open spec fn accepted(self, new_admin: Address) -> AdminRole {
        AdminRole { admin: Some(new_admin), pending_admin: None }
    }

    /// The offered successor takes the role; the offer is consumed.
    pub fn accept_admin(&mut self, new_admin: Address) -> (r: Result<(), Error>)
        ensures
            r == (match old(self).accept_check(new_admin) {
                Some(e) => Err(e),
                None => Ok(()),
            }),
            *final(self) == (if r is Ok { old(self).accepted(new_admin) } else { *old(self) }),
    {
        match self.pending_admin {
            None => Err(Error::NoPendingAdmin),
            Some(p) => {
                if p != new_admin {
                    Err(Error::Unauthorized)
                } else {
                    self.admin = Some(new_admin);
                    self.pending_admin = None;
                    Ok(())
                }
            },
        }
    }
}

/// After the administrator offers the role to `new_admin` and `new_admin`
/// accepts, `new_admin` alone is the administrator and no offer is pending;
/// the former administrator is refused as `Unauthorized`.
pub proof fn law_admin_handover(role: AdminRole, current_admin: Address, new_admin: Address)
    requires
        role.admin == Some(current_admin),
    ensures
        role.propose_check(current_admin) is None,
        role.proposed(new_admin).accept_check(new_admin) is None,
        role.proposed(new_admin).accepted(new_admin).admin_check(new_admin) is None,
        role.proposed(new_admin).accepted(new_admin).pending_admin is None,
        current_admin != new_admin ==> role.proposed(new_admin).accepted(new_admin).admin_check(
            current_admin,
        ) == Some(Error::Unauthorized),
{
}

/// Only the administrator can offer the role, and only the offered address can
/// take it.
pub proof fn law_admin_handover_guarded(role: AdminRole, caller: Address, new_admin: Address)
    ensures
        role.admin != Some(caller) ==> role.propose_check(caller) is Some,
        role.pending_admin != Some(caller) ==> role.accept_check(caller) is Some,
{
}

} // verus!
