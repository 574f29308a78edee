use std::str::FromStr;

use anchor_lang::prelude::Pubkey as SolanaPubkey;
use escrow_vault::instruction::{Context, InstructionError, SystemTransfer};
use escrow_vault::pubkey::Pubkey;
use escrow_vault::vulnerable::{
    create_user_account, deposit, initialize_vault, withdraw, CreateUserAccount, Deposit,
    InitializeVault, UserAccount, Vault, Withdraw,
};

fn program_id() -> SolanaPubkey {
    SolanaPubkey::from_str("Gb1FA4kQRi5Ci2kChRbg2f8pTaqcutyAbCDciQxFQUf2").unwrap()
}

fn key(byte: u8) -> Pubkey {
    Pubkey { bytes: [byte; 32] }
}

fn own(k: SolanaPubkey) -> Pubkey {
    Pubkey { bytes: k.to_bytes() }
}

fn vault_pda() -> Pubkey {
    own(SolanaPubkey::find_program_address(&[b"vault"], &program_id()).0)
}

fn user_pda(user: Pubkey) -> Pubkey {
    own(SolanaPubkey::find_program_address(&[b"user", &user.bytes], &program_id()).0)
}

fn deposit_ctx(balance: u64, total: u64) -> Context<Deposit> {
    Context {
        program_id: own(program_id()),
        accounts: Deposit {
            user: key(5),
            user_account_address: user_pda(key(5)),
            user_account: UserAccount { owner: key(5), balance },
            vault_address: vault_pda(),
            vault: Vault { authority: key(1), total_deposits: total },
        },
    }
}

fn withdraw_ctx(balance: u64, total: u64, vault_lamports: u64, user_lamports: u64) -> Context<Withdraw> {
    Context {
        program_id: own(program_id()),
        accounts: Withdraw {
            user: key(5),
            user_lamports,
            user_account_address: user_pda(key(5)),
            user_account: UserAccount { owner: key(5), balance },
            owner: key(5),
            vault_address: vault_pda(),
            vault: Vault { authority: key(1), total_deposits: total },
            vault_lamports,
        },
    }
}

#[test]
fn unchecked_initialize_vault_sets_authority_and_total() {
    let mut ctx = Context {
        program_id: own(program_id()),
        accounts: InitializeVault {
            authority: key(1),
            vault_address: vault_pda(),
            vault: Vault { authority: key(0), total_deposits: 0 },
        },
    };
    assert_eq!(
        initialize_vault(&mut ctx, 77),
        Ok(SystemTransfer { from: key(1), to: vault_pda(), lamports: 77 })
    );
    assert_eq!(ctx.accounts.vault, Vault { authority: key(1), total_deposits: 77 });
}

#[test]
fn unchecked_create_user_account_starts_empty() {
    let mut ctx = Context {
        program_id: own(program_id()),
        accounts: CreateUserAccount {
            user: key(5),
            user_account_address: user_pda(key(5)),
            user_account: UserAccount { owner: key(0), balance: 3 },
        },
    };
    assert_eq!(create_user_account(&mut ctx), Ok(()));
    assert_eq!(ctx.accounts.user_account, UserAccount { owner: key(5), balance: 0 });
}

#[test]
fn unchecked_deposit_wraps_past_the_maximum() {
    let mut ctx = deposit_ctx(u64::MAX, u64::MAX - 5);
    assert_eq!(
        deposit(&mut ctx, 1),
        Ok(SystemTransfer { from: key(5), to: vault_pda(), lamports: 1 })
    );
    assert_eq!(ctx.accounts.user_account.balance, 0);
    assert_eq!(ctx.accounts.vault.total_deposits, u64::MAX - 4);
}

#[test]
fn unchecked_withdraw_of_more_than_the_balance_wraps() {
    let mut ctx = withdraw_ctx(100, 100, 1_000, 0);
    assert_eq!(withdraw(&mut ctx, 200), Ok(()));
    assert_eq!(ctx.accounts.user_account.balance, 18_446_744_073_709_551_516);
    assert_eq!(ctx.accounts.user_account.balance, u64::MAX - 99);
    assert_eq!(ctx.accounts.vault.total_deposits, u64::MAX - 99);
    assert_eq!(ctx.accounts.vault_lamports, 800);
    assert_eq!(ctx.accounts.user_lamports, 200);
}

#[test]
fn unchecked_withdraw_wraps_the_lamports_too() {
    let mut ctx = withdraw_ctx(500, 500, 100, u64::MAX);
    assert_eq!(withdraw(&mut ctx, 200), Ok(()));
    assert_eq!(ctx.accounts.vault_lamports, u64::MAX - 99);
    assert_eq!(ctx.accounts.user_lamports, 199);
    assert_eq!(ctx.accounts.user_account.balance, 300);
}

#[test]
fn unchecked_deposit_then_overdraft_drains_the_vault() {
    let mut dep = deposit_ctx(0, 1_000_000);
    deposit(&mut dep, 100).unwrap();
    let mut wd = withdraw_ctx(
        dep.accounts.user_account.balance,
        dep.accounts.vault.total_deposits,
        1_000_100,
        0,
    );
    withdraw(&mut wd, 200).unwrap();
    assert_eq!(wd.accounts.user_account.balance, u64::MAX - 99);
    let mut drain = withdraw_ctx(
        wd.accounts.user_account.balance,
        wd.accounts.vault.total_deposits,
        wd.accounts.vault_lamports,
        wd.accounts.user_lamports,
    );
    withdraw(&mut drain, 999_900).unwrap();
    assert_eq!(drain.accounts.vault_lamports, 0);
    assert_eq!(drain.accounts.user_lamports, 1_000_100);
}

#[test]
fn unchecked_withdraw_still_needs_the_recorded_owner_account() {
    let mut before = withdraw_ctx(100, 100, 100, 0);
    before.accounts.owner = key(6);
    let mut ctx = before;
    assert_eq!(
        withdraw(&mut ctx, 1),
        Err(InstructionError::Program(escrow_vault::vulnerable::ErrorCode::Unauthorized))
    );
    assert_eq!(ctx, before);
}

#[test]
fn unchecked_withdraw_still_needs_the_owner_as_signer() {
    let mut before = withdraw_ctx(100, 100, 100, 0);
    before.accounts.user_account.owner = key(6);
    before.accounts.owner = key(6);
    let mut ctx = before;
    assert_eq!(withdraw(&mut ctx, 1), Err(InstructionError::ConstraintRaw));
    assert_eq!(ctx, before);
}

#[test]
fn unchecked_deposit_rejects_another_users_account() {
    let mut before = deposit_ctx(0, 0);
    before.accounts.user_account_address = user_pda(key(6));
    let mut ctx = before;
    assert_eq!(deposit(&mut ctx, 1), Err(InstructionError::ConstraintSeeds));
    assert_eq!(ctx, before);
}

#[test]
fn unchecked_balance_stays_within_total_only_without_wrapping() {
    let mut covered = withdraw_ctx(100, 1_000, 1_000, 0);
    withdraw(&mut covered, 60).unwrap();
    assert!(covered.accounts.user_account.balance <= covered.accounts.vault.total_deposits);

    let mut overdraft = withdraw_ctx(100, 1_000, 1_000, 0);
    withdraw(&mut overdraft, 200).unwrap();
    assert_eq!(overdraft.accounts.vault.total_deposits, 800);
    assert!(overdraft.accounts.user_account.balance > overdraft.accounts.vault.total_deposits);
}

#[test]
fn unchecked_withdraw_of_one_from_nothing_gives_the_maximum() {
    let mut ctx = withdraw_ctx(0, 0, 10, 0);
    assert_eq!(withdraw(&mut ctx, 1), Ok(()));
    assert_eq!(ctx.accounts.user_account.balance, u64::MAX);
    assert_eq!(ctx.accounts.vault.total_deposits, u64::MAX);
}

#[test]
fn unchecked_withdraw_undoes_a_wrapped_deposit() {
    let mut dep = deposit_ctx(u64::MAX - 1, u64::MAX);
    deposit(&mut dep, 3).unwrap();
    assert_eq!(dep.accounts.user_account.balance, 1);
    assert_eq!(dep.accounts.vault.total_deposits, 2);
    let mut wd = withdraw_ctx(dep.accounts.user_account.balance, dep.accounts.vault.total_deposits, 10, 0);
    withdraw(&mut wd, 3).unwrap();
    assert_eq!(wd.accounts.user_account.balance, u64::MAX - 1);
    assert_eq!(wd.accounts.vault.total_deposits, u64::MAX);
}
