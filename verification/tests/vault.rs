use ledger_auth::identity::Identity;
use ledger_auth::vault::AuthorityAccount;
use ledger_auth::vault::Vault;
use ledger_auth::vault::VaultError;
use ledger_auth::vault::Withdraw;
use ledger_auth::vault::WithdrawEvent;
use ledger_auth::vault::withdraw;

fn ctx(balance: u64, locked: bool, authority_balance: u64) -> Withdraw {
    Withdraw {
        vault_authority: AuthorityAccount { id: Identity { key: 7 }, balance: authority_balance },
        vault: Vault {
            id: Identity { key: 1 },
            vault_authority: Identity { key: 7 },
            balance,
            locked,
        },
    }
}

#[test]
fn withdraw_success_scenario() {
    let mut c = ctx(100, false, 5);
    let r = withdraw(&mut c, 40);
    assert_eq!(
        r,
        Ok(WithdrawEvent {
            amount: 40,
            vault_authority: Identity { key: 7 },
            vault: Identity { key: 1 },
        })
    );
    assert_eq!(c.vault.balance, 60);
    assert_eq!(c.vault_authority.balance, 45);
    assert!(!c.vault.locked);
    assert_eq!(c.vault.id, Identity { key: 1 });
    assert_eq!(c.vault.vault_authority, Identity { key: 7 });
}

#[test]
fn withdraw_locked_fails() {
    let mut c = ctx(100, true, 5);
    let r = withdraw(&mut c, 1);
    assert_eq!(r, Err(VaultError::VaultLocked));
    assert_eq!(c.vault.balance, 100);
    assert_eq!(c.vault_authority.balance, 5);
}

#[test]
fn withdraw_locked_regardless_of_amount() {
    for amount in [0u64, 1, 100, 101, u64::MAX] {
        let mut c = ctx(100, true, 5);
        let r = withdraw(&mut c, amount);
        assert_eq!(r, Err(VaultError::VaultLocked));
        assert_eq!(c.vault.balance, 100);
        assert_eq!(c.vault_authority.balance, 5);
    }
}

#[test]
fn withdraw_insufficient_balance_leaves_both_sides() {
    let mut c = ctx(100, false, 5);
    let r = withdraw(&mut c, 101);
    assert_eq!(r, Err(VaultError::InsufficientBalance));
    assert_eq!(c.vault.balance, 100);
    assert_eq!(c.vault_authority.balance, 5);
}

#[test]
fn withdraw_wrong_authority_fails() {
    let mut c = ctx(100, false, 5);
    c.vault_authority.id = Identity { key: 8 };
    let r = withdraw(&mut c, 10);
    assert_eq!(r, Err(VaultError::AuthorizationMismatch));
    assert_eq!(c.vault.balance, 100);
    assert_eq!(c.vault_authority.balance, 5);
}

#[test]
fn withdraw_lock_check_comes_first() {
    let mut c = ctx(0, true, 0);
    c.vault_authority.id = Identity { key: 9 };
    let r = withdraw(&mut c, 50);
    assert_eq!(r, Err(VaultError::VaultLocked));
}

#[test]
fn withdraw_balance_check_before_authority() {
    let mut c = ctx(10, false, 0);
    c.vault_authority.id = Identity { key: 9 };
    let r = withdraw(&mut c, 50);
    assert_eq!(r, Err(VaultError::InsufficientBalance));
}

#[test]
fn withdraw_full_balance_empties_vault() {
    let mut c = ctx(100, false, 0);
    let r = withdraw(&mut c, 100);
    assert!(r.is_ok());
    assert_eq!(c.vault.balance, 0);
    assert_eq!(c.vault_authority.balance, 100);
}

#[test]
fn withdraw_zero_amount_moves_nothing() {
    let mut c = ctx(100, false, 5);
    let r = withdraw(&mut c, 0);
    assert_eq!(
        r,
        Ok(WithdrawEvent {
            amount: 0,
            vault_authority: Identity { key: 7 },
            vault: Identity { key: 1 },
        })
    );
    assert_eq!(c.vault.balance, 100);
    assert_eq!(c.vault_authority.balance, 5);
}
