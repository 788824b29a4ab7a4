//! Admin and access control shared by every factory: the stored admin, the
//! two-step transfer of the admin role, the pause flag and self-upgrade.
use vstd::prelude::*;
use crate::ids::{Address, BytesN32};

verus! {

/// Why an admin operation was refused.
#[derive(Clone, Copy, Debug, PartialEq, Eq, Structural)]
pub enum AccessError {
    NotAdmin,
    NoPendingAdmin,
    NotPendingAdmin,
}

#[derive(Clone, Copy, Debug, PartialEq, Eq)]
pub struct ContractPausedEvent {
    pub admin: Address,
}

#[derive(Clone, Copy, Debug, PartialEq, Eq)]
pub struct ContractUnpausedEvent {
    pub admin: Address,
}

#[derive(Clone, Copy, Debug, PartialEq, Eq)]
pub struct ContractUpgradedEvent {
    pub new_wasm_hash: BytesN32,
}

#[derive(Clone, Copy, Debug, PartialEq, Eq)]
pub struct AdminTransferInitiatedEvent {
    pub new_admin: Address,
}

#[derive(Clone, Copy, Debug, PartialEq, Eq)]
pub struct AdminTransferredEvent {
    pub new_admin: Address,
}

#[derive(Clone, Copy, Debug, PartialEq, Eq)]
pub struct AdminTransferCancelledEvent {
    pub admin: Address,
}

/// The lifecycle state of a factory: who administers it, who has been offered
/// the role, and whether deployments are stopped.
///
/// The transfer protocol is a two-state machine: *Active* when
/// `pending_admin` is `None`, *Pending* otherwise.
#[derive(Clone, Copy, Debug)]
pub struct AdminState {
    pub admin: Address,
    pub pending_admin: Option<Address>,
    pub paused: bool,
}

impl AdminState {
    pub open spec fn with_paused(self, p: bool) -> AdminState {
        AdminState { paused: p, ..self }
    }

    pub open spec fn with_pending(self, p: Option<Address>) -> AdminState {
        AdminState { pending_admin: p, ..self }
    }

    /// The state after `caller` asks to pause: paused if `caller` is the admin,
    /// unchanged otherwise.
    pub open spec fn after_pause(self, caller: Address) -> AdminState {
        if self.admin == caller {
            self.with_paused(true)
        } else {
            self
        }
    }

    /// The state after `caller` asks to unpause.
    pub open spec fn after_unpause(self, caller: Address) -> AdminState {
        if self.admin == caller {
            self.with_paused(false)
        } else {
            self
        }
    }

    /// The state after `caller` offers the admin role to `new_admin`.
    pub open spec fn after_initiate(self, caller: Address, new_admin: Address) -> AdminState {
        if self.admin == caller {
            self.with_pending(Some(new_admin))
        } else {
            self
        }
    }

    /// Why `caller` cannot accept the admin role now, if it cannot.
    pub open spec fn accept_error(self, caller: Address) -> Option<AccessError> {
        match self.pending_admin {
            None => Some(AccessError::NoPendingAdmin),
            Some(p) => if p == caller {
                None
            } else {
                Some(AccessError::NotPendingAdmin)
            },
        }
    }

    /// The state after `caller` tries to accept the admin role.
    pub open spec fn after_accept(self, caller: Address) -> AdminState {
        if self.accept_error(caller) is None {
            AdminState { admin: caller, pending_admin: None, paused: self.paused }
        } else {
            self
        }
    }

    /// The state after `caller` withdraws the pending offer.
    pub open spec fn after_cancel(self, caller: Address) -> AdminState {
        if self.admin == caller {
            self.with_pending(None)
        } else {
            self
        }
    }

    /// A fresh state: `admin` in charge, no transfer pending, not paused.
    pub fn new(admin: Address) -> (r: AdminState)
        ensures
            r.admin == admin,
            r.pending_admin is None,
            !r.paused,
    {
        AdminState { admin, pending_admin: None, paused: false }
    }

    pub fn is_admin(&self, caller: &Address) -> (r: bool)
        ensures
            r == (self.admin == *caller),
    {
        proof {
            crate::ids::lemma_address_eq(self.admin, *caller);
        }
        self.admin == *caller
    }

    /// Succeeds exactly when `caller` is the stored admin.
    pub fn require_admin(&self, caller: &Address) -> (r: Result<(), AccessError>)
        ensures
            r is Ok <==> self.admin == *caller,
            r is Err ==> r == Err::<(), AccessError>(AccessError::NotAdmin),
    {
        if self.is_admin(caller) {
            Ok(())
        } else {
            Err(AccessError::NotAdmin)
        }
    }

    /// Sets the pause flag. Admin only; pausing a paused factory keeps it paused.
    pub fn pause(&mut self, caller: &Address) -> (r: Result<ContractPausedEvent, AccessError>)
        ensures
            *final(self) == old(self).after_pause(*caller),
            r is Ok <==> old(self).admin == *caller,
            r matches Ok(ev) ==> ev.admin == *caller,
            r matches Err(e) ==> e == AccessError::NotAdmin,
    {
        match self.require_admin(caller) {
            Ok(()) => {
                self.paused = true;
                Ok(ContractPausedEvent { admin: *caller })
            },
            Err(e) => Err(e),
        }
    }

    /// Clears the pause flag. Admin only; unpausing a running factory keeps it running.
    pub fn unpause(&mut self, caller: &Address) -> (r: Result<ContractUnpausedEvent, AccessError>)
        ensures
            *final(self) == old(self).after_unpause(*caller),
            r is Ok <==> old(self).admin == *caller,
            r matches Ok(ev) ==> ev.admin == *caller,
            r matches Err(e) ==> e == AccessError::NotAdmin,
    {
        match self.require_admin(caller) {
            Ok(()) => {
                self.paused = false;
                Ok(ContractUnpausedEvent { admin: *caller })
            },
            Err(e) => Err(e),
        }
    }

    /// Records a switch of the factory's own code. The caller must have
    /// proven control of the stored admin. The factory is paused as a safety
    /// measure and stays paused until the admin unpauses it.
    pub fn upgrade(&mut self, new_wasm_hash: BytesN32) -> (r: ContractUpgradedEvent)
        ensures
            *final(self) == old(self).with_paused(true),
            r.new_wasm_hash == new_wasm_hash,
    {
        self.paused = true;
        ContractUpgradedEvent { new_wasm_hash }
    }

    /// First step of an admin transfer: offers the role to `new_admin`.
    /// A pending offer is replaced.
    pub fn initiate_transfer(&mut self, caller: &Address, new_admin: Address) -> (r: Result<
        AdminTransferInitiatedEvent,
        AccessError,
    >)
        ensures
            *final(self) == old(self).after_initiate(*caller, new_admin),
            r is Ok <==> old(self).admin == *caller,
            r matches Ok(ev) ==> ev.new_admin == new_admin,
            r matches Err(e) ==> e == AccessError::NotAdmin,
    {
        match self.require_admin(caller) {
            Ok(()) => {
                self.pending_admin = Some(new_admin);
                Ok(AdminTransferInitiatedEvent { new_admin })
            },
            Err(e) => Err(e),
        }
    }

    /// Second step of an admin transfer: the offered address takes the role.
    pub fn accept_transfer(&mut self, caller: &Address) -> (r: Result<
        AdminTransferredEvent,
        AccessError,
    >)
        ensures
            *final(self) == old(self).after_accept(*caller),
            r is Ok <==> old(self).accept_error(*caller) is None,
            r matches Ok(ev) ==> ev.new_admin == *caller,
            r matches Err(e) ==> old(self).accept_error(*caller) == Some(e),
    {
        match self.pending_admin {
            None => Err(AccessError::NoPendingAdmin),
            Some(p) => {
                proof {
                    crate::ids::lemma_address_eq(p, *caller);
                }
                if p == *caller {
                    self.admin = *caller;
                    self.pending_admin = None;
                    Ok(AdminTransferredEvent { new_admin: *caller })
                } else {
                    Err(AccessError::NotPendingAdmin)
                }
            },
        }
    }

    /// Withdraws a pending offer. Admin only; with no offer pending it changes nothing.
    pub fn cancel_transfer(&mut self, caller: &Address) -> (r: Result<
        AdminTransferCancelledEvent,
        AccessError,
    >)
        ensures
            *final(self) == old(self).after_cancel(*caller),
            r is Ok <==> old(self).admin == *caller,
            r matches Ok(ev) ==> ev.admin == *caller,
            r matches Err(e) ==> e == AccessError::NotAdmin,
    {
        match self.require_admin(caller) {
            Ok(()) => {
                self.pending_admin = None;
                Ok(AdminTransferCancelledEvent { admin: *caller })
            },
            Err(e) => Err(e),
        }
    }
}

/// Pausing twice leaves the factory paused, and the second pause changes
/// nothing; unpausing a running factory leaves it running and unchanged.
pub proof fn lemma_pause_idempotent(s: AdminState, caller: Address)
    ensures
        s.after_pause(caller).after_pause(caller) == s.after_pause(caller),
        s.admin == caller ==> s.after_pause(caller).after_pause(caller).paused,
        !s.paused ==> s.after_unpause(caller) == s,
        s.after_unpause(caller).after_unpause(caller) == s.after_unpause(caller),
{
}

/// Two-step transfer: after the admin `a` offers the role to `b`, acceptance
/// by `b` makes `b` the admin with nothing pending; acceptance by anyone else
/// fails with `NotPendingAdmin` and changes nothing; cancellation by `a`
/// leaves `a` in charge with nothing pending.
pub proof fn lemma_two_step_transfer(s: AdminState, a: Address, b: Address, c: Address)
    requires
        s.admin == a,
        c != b,
    ensures
        s.after_initiate(a, b).accept_error(b) is None,
        s.after_initiate(a, b).after_accept(b).admin == b,
        s.after_initiate(a, b).after_accept(b).pending_admin is None,
        s.after_initiate(a, b).accept_error(c) == Some(AccessError::NotPendingAdmin),
        s.after_initiate(a, b).after_accept(c) == s.after_initiate(a, b),
        s.after_initiate(a, b).after_cancel(a).admin == a,
        s.after_initiate(a, b).after_cancel(a).pending_admin is None,
{
}

/// Accepting a second time fails: once accepted, nothing is pending.
pub proof fn lemma_accept_twice_fails(s: AdminState, b: Address)
    requires
        s.accept_error(b) is None,
    ensures
        s.after_accept(b).accept_error(b) == Some(AccessError::NoPendingAdmin),
{
}

} // verus!
