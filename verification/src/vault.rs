use vstd::prelude::*;

use crate::identity::Identity;
use crate::identity::is_authorized;

verus! {

/// Failures of the balance-transfer handler. Every one is a local,
/// synchronous validation failure; none is retried.
#[derive(Clone, Copy, PartialEq, Eq, Structural, Debug)]
pub enum VaultError {
    /// Withdrawal attempted while the vault is locked.
    VaultLocked,
    /// The requested amount exceeds the available balance.
    InsufficientBalance,
    /// The caller identity does not match the vault's authority.
    AuthorizationMismatch,
}

/// A vault account: a balance controlled by a single authority, with a lock
/// flag that suspends withdrawals.
#[derive(Clone, Copy, PartialEq, Eq, Structural, Debug)]
pub struct Vault {
    /// The vault account's own identity (its address on the ledger).
    pub id: Identity,
    /// The identity authorized to withdraw from this vault.
    pub vault_authority: Identity,
    /// The vault's lamport balance.
    pub balance: u64,
    /// While set, every withdrawal fails.
    pub locked: bool,
}

/// The authority's own account: it receives the transferred balance.
#[derive(Clone, Copy, PartialEq, Eq, Structural, Debug)]
pub struct AuthorityAccount {
    /// The authority's identity (the signer of the withdrawal).
    pub id: Identity,
    /// The authority account's lamport balance.
    pub balance: u64,
}

/// Notification of a completed withdrawal, handed back to the runtime to
/// emit on its event channel (fire-and-forget; emission is not this core's
/// concern).
#[derive(Clone, Copy, PartialEq, Eq, Structural, Debug)]
pub struct WithdrawEvent {
    pub amount: u64,
    pub vault_authority: Identity,
    pub vault: Identity,
}

/// The account view a withdrawal operates on: the vault and the signing
/// authority's account, both writable for the duration of the call.
#[derive(Clone, Copy, PartialEq, Eq, Structural, Debug)]
pub struct Withdraw {
    pub vault_authority: AuthorityAccount,
    pub vault: Vault,
}

/// All three preconditions of a withdrawal hold: the vault is unlocked, the
/// balance suffices, and the signer is the vault's authority.
pub open spec fn withdraw_allowed(ctx: Withdraw, amount: u64) -> bool {
    &&& !ctx.vault.locked
    &&& ctx.vault.balance >= amount
    &&& ctx.vault.vault_authority == ctx.vault_authority.id
}

/// Balance-transfer handler. Checks, in order: the lock flag, the balance,
/// the authority identity; the first failure aborts with no mutation. On
/// success it atomically debits the vault and credits the authority, and
/// returns the notification event for the runtime to emit.
pub fn withdraw(ctx: &mut Withdraw, amount: u64) -> (r: Result<WithdrawEvent, VaultError>)
    requires
        withdraw_allowed(*ctx, amount) ==> ctx.vault_authority.balance + amount <= u64::MAX,
    ensures
        old(ctx).vault.locked ==> r == Err::<WithdrawEvent, VaultError>(VaultError::VaultLocked)
            && *final(ctx) == *old(ctx),
        !old(ctx).vault.locked && old(ctx).vault.balance < amount ==> r == Err::<
            WithdrawEvent,
            VaultError,
        >(VaultError::InsufficientBalance) && *final(ctx) == *old(ctx),
        !old(ctx).vault.locked && old(ctx).vault.balance >= amount && old(
            ctx,
        ).vault.vault_authority != old(ctx).vault_authority.id ==> r == Err::<
            WithdrawEvent,
            VaultError,
        >(VaultError::AuthorizationMismatch) && *final(ctx) == *old(ctx),
        withdraw_allowed(*old(ctx), amount) ==> {
            &&& r == Ok::<WithdrawEvent, VaultError>(
                WithdrawEvent {
                    amount,
                    vault_authority: old(ctx).vault_authority.id,
                    vault: old(ctx).vault.id,
                },
            )
            &&& final(ctx).vault.balance == old(ctx).vault.balance - amount
            &&& final(ctx).vault_authority.balance == old(ctx).vault_authority.balance + amount
            &&& final(ctx).vault.id == old(ctx).vault.id
            &&& final(ctx).vault.vault_authority == old(ctx).vault.vault_authority
            &&& final(ctx).vault.locked == old(ctx).vault.locked
            &&& final(ctx).vault_authority.id == old(ctx).vault_authority.id
        },
        final(ctx).vault.balance <= old(ctx).vault.balance,
{
    if ctx.vault.locked {
        return Err(VaultError::VaultLocked);
    }
    if ctx.vault.balance < amount {
        return Err(VaultError::InsufficientBalance);
    }
    if !is_authorized(ctx.vault_authority.id, ctx.vault.vault_authority) {
        return Err(VaultError::AuthorizationMismatch);
    }
    ctx.vault.balance = ctx.vault.balance - amount;
    ctx.vault_authority.balance = ctx.vault_authority.balance + amount;
    Ok(
        WithdrawEvent {
            amount,
            vault_authority: ctx.vault_authority.id,
            vault: ctx.vault.id,
        },
    )
}

} // verus!
