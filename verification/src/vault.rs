//! The escrow vault: the balance that holds one task's reward.
//!
//! A vault stands at the address derived from its task's id alone. It moves
//! value and decides nothing: when value may leave is the task lifecycle's
//! decision, and only the lifecycle can release.

use crate::address::{check_seeds, derived_view, seeds_rejection, KeyBytes};
use crate::error::Rejection;
use vstd::prelude::*;

verus! {

/// The personal balance of a party, under the party's own key.
#[derive(Clone, Copy, Debug, PartialEq, Eq)]
pub struct Wallet {
    /// The party's key.
    pub key: KeyBytes,
    /// The balance, in lamports.
    pub lamports: u64,
}

/// The vault of one task.
#[derive(Clone, Copy, Debug, PartialEq, Eq)]
pub struct EscrowVault {
    address: KeyBytes,
    lamports: u64,
}

/// What a vault is: where it stands and what it holds.
pub struct VaultView {
    /// The address of the vault.
    pub address: Seq<u8>,
    /// The balance, in lamports.
    pub lamports: nat,
}

impl View for EscrowVault {
    type V = VaultView;

    closed spec fn view(&self) -> VaultView {
        VaultView { address: self.address@, lamports: self.lamports as nat }
    }
}

/// Why `amount` cannot move from a balance of `from` to a balance of `to`:
/// the paying balance is short, or the receiving balance would exceed what a
/// balance can hold.
pub open spec fn transfer_rejection(from: nat, to: nat, amount: nat) -> Option<Rejection> {
    if from < amount {
        Some(Rejection::InsufficientFunds)
    } else if to + amount > u64::MAX {
        Some(Rejection::BalanceOverflow)
    } else {
        None
    }
}

/// Why a vault at `address` cannot move `amount` under the derivation
/// `derived`: the vault is not the one derived, or the transfer cannot be made.
pub open spec fn movement_rejection(
    derived: Option<(Seq<u8>, u8)>,
    address: Seq<u8>,
    from: nat,
    to: nat,
    amount: nat,
) -> Option<Rejection> {
    match seeds_rejection(derived, address) {
        Some(rejection) => Some(rejection),
        None => transfer_rejection(from, to, amount),
    }
}

impl EscrowVault {
    /// The vault found at `address` with a balance of `lamports`.
    pub fn new(address: KeyBytes, lamports: u64) -> (vault: EscrowVault)
        ensures
            vault@ == (VaultView { address: address@, lamports: lamports as nat }),
    {
        EscrowVault { address, lamports }
    }

    /// The address of the vault.
    pub fn address(&self) -> (address: KeyBytes)
        ensures
            address@ == self@.address,
    {
        self.address
    }

    /// The balance of the vault.
    pub fn lamports(&self) -> (lamports: u64)
        ensures
            lamports == self@.lamports,
    {
        self.lamports
    }

    /// Moves `amount` from the payer's balance into the vault. `derived` is
    /// the address derived from the task's id: the vault must stand there.
    /// Nothing moves where the vault stands elsewhere, where the payer holds
    /// less than `amount`, or where the vault cannot hold the sum.
    pub fn fund(&mut self, derived: &Option<(KeyBytes, u8)>, payer: &mut Wallet, amount: u64) -> (moved: Result<(), Rejection>)
        ensures
            final(self)@.address == old(self)@.address,
            final(payer).key == old(payer).key,
            final(self)@.lamports + final(payer).lamports == old(self)@.lamports + old(
                payer,
            ).lamports,
            match movement_rejection(
                derived_view(*derived),
                old(self)@.address,
                old(payer).lamports as nat,
                old(self)@.lamports,
                amount as nat,
            ) {
                Some(rejection) => moved == Err::<(), Rejection>(rejection) && *final(self) == *old(
                    self,
                ) && *final(payer) == *old(payer),
                None => moved == Ok::<(), Rejection>(()) && final(payer).lamports == old(
                    payer,
                ).lamports - amount && final(self)@.lamports == old(self)@.lamports + amount,
            },
    {
        match check_seeds(derived, &self.address) {
            Err(rejection) => {
                return Err(rejection);
            },
            Ok(()) => {},
        }
        if payer.lamports < amount {
            return Err(Rejection::InsufficientFunds);
        }
        if amount > u64::MAX - self.lamports {
            return Err(Rejection::BalanceOverflow);
        }
        payer.lamports = payer.lamports - amount;
        self.lamports = self.lamports + amount;
        Ok(())
    }

    /// Moves `amount` out of the vault to `destination`. The release is
    /// authorized by `derived` alone, the address derived from the task's id:
    /// the vault must stand there, and no party's key is asked. Nothing moves
    /// where the vault stands elsewhere, where it holds less than `amount`,
    /// or where the destination cannot hold the sum.
    pub(crate) fn release(&mut self, derived: &Option<(KeyBytes, u8)>, destination: &mut Wallet, amount: u64) -> (moved: Result<(), Rejection>)
        ensures
            final(self)@.address == old(self)@.address,
            final(destination).key == old(destination).key,
            final(self)@.lamports + final(destination).lamports == old(self)@.lamports + old(
                destination,
            ).lamports,
            match movement_rejection(
                derived_view(*derived),
                old(self)@.address,
                old(self)@.lamports,
                old(destination).lamports as nat,
                amount as nat,
            ) {
                Some(rejection) => moved == Err::<(), Rejection>(rejection) && *final(self) == *old(
                    self,
                ) && *final(destination) == *old(destination),
                None => moved == Ok::<(), Rejection>(()) && final(self)@.lamports == old(
                    self,
                )@.lamports - amount && final(destination).lamports == old(destination).lamports
                    + amount,
            },
    {
        match check_seeds(derived, &self.address) {
            Err(rejection) => {
                return Err(rejection);
            },
            Ok(()) => {},
        }
        if self.lamports < amount {
            return Err(Rejection::InsufficientFunds);
        }
        if amount > u64::MAX - destination.lamports {
            return Err(Rejection::BalanceOverflow);
        }
        self.lamports = self.lamports - amount;
        destination.lamports = destination.lamports + amount;
        Ok(())
    }
}

} // verus!
