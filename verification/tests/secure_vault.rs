use std::str::FromStr;

use anchor_lang::prelude::Pubkey as SolanaPubkey;
use escrow_vault::instruction::{Context, InstructionError, SystemTransfer};
use escrow_vault::pubkey::Pubkey;
use escrow_vault::secure::{
    create_user_account, deposit, initialize_vault, withdraw, CreateUserAccount, Deposit,
    ErrorCode, InitializeVault, UserAccount, Vault, Withdraw,
};

fn program_id() -> SolanaPubkey {
    SolanaPubkey::from_str("AFPFRXtPsmj21pQNQQQmsFBYjXbxAhyPDLby3DmU73X6").unwrap()
}

fn key(byte: u8) -> Pubkey {
    Pubkey { bytes: [byte; 32] }
}

fn own(k: SolanaPubkey) -> Pubkey {
    Pubkey { bytes: k.to_bytes() }
}

fn vault_pda() -> Pubkey {
    own(SolanaPubkey::find_program_address(&[b"vault"], &program_id()).0)
}

fn user_pda(user: Pubkey) -> Pubkey {
    own(SolanaPubkey::find_program_address(&[b"user", &user.bytes], &program_id()).0)
}

fn deposit_ctx(balance: u64, total: u64) -> Context<Deposit> {
    Context {
        program_id: own(program_id()),
        accounts: Deposit {
            user: key(5),
            user_account_address: user_pda(key(5)),
            user_account: UserAccount { owner: key(5), balance },
            vault_address: vault_pda(),
            vault: Vault { authority: key(1), total_deposits: total },
        },
    }
}

fn withdraw_ctx(balance: u64, total: u64, vault_lamports: u64, user_lamports: u64) -> Context<Withdraw> {
    Context {
        program_id: own(program_id()),
        accounts: Withdraw {
            user: key(5),
            user_lamports,
            user_account_address: user_pda(key(5)),
            user_account: UserAccount { owner: key(5), balance },
            owner: key(5),
            vault_address: vault_pda(),
            vault: Vault { authority: key(1), total_deposits: total },
            vault_lamports,
        },
    }
}

#[test]
fn initialize_vault_sets_authority_and_total() {
    let mut ctx = Context {
        program_id: own(program_id()),
        accounts: InitializeVault {
            authority: key(1),
            vault_address: vault_pda(),
            vault: Vault { authority: key(0), total_deposits: 0 },
        },
    };
    assert_eq!(
        initialize_vault(&mut ctx, 4_000_000_000),
        Ok(SystemTransfer { from: key(1), to: vault_pda(), lamports: 4_000_000_000 })
    );
    assert_eq!(ctx.accounts.vault, Vault { authority: key(1), total_deposits: 4_000_000_000 });
}

#[test]
fn initialize_vault_rejects_another_address() {
    let before = Context {
        program_id: own(program_id()),
        accounts: InitializeVault {
            authority: key(1),
            vault_address: user_pda(key(1)),
            vault: Vault { authority: key(0), total_deposits: 0 },
        },
    };
    let mut ctx = before;
    assert_eq!(initialize_vault(&mut ctx, 1), Err(InstructionError::ConstraintSeeds));
    assert_eq!(ctx, before);
}

#[test]
fn create_user_account_starts_empty() {
    let mut ctx = Context {
        program_id: own(program_id()),
        accounts: CreateUserAccount {
            user: key(5),
            user_account_address: user_pda(key(5)),
            user_account: UserAccount { owner: key(0), balance: 99 },
        },
    };
    assert_eq!(create_user_account(&mut ctx), Ok(()));
    assert_eq!(ctx.accounts.user_account, UserAccount { owner: key(5), balance: 0 });
}

#[test]
fn create_user_account_rejects_another_users_address() {
    let before = Context {
        program_id: own(program_id()),
        accounts: CreateUserAccount {
            user: key(5),
            user_account_address: user_pda(key(6)),
            user_account: UserAccount { owner: key(0), balance: 0 },
        },
    };
    let mut ctx = before;
    assert_eq!(create_user_account(&mut ctx), Err(InstructionError::ConstraintSeeds));
    assert_eq!(ctx, before);
}

#[test]
fn deposit_credits_balance_and_total() {
    let mut ctx = deposit_ctx(0, 1_000);
    assert_eq!(
        deposit(&mut ctx, 100),
        Ok(SystemTransfer { from: key(5), to: vault_pda(), lamports: 100 })
    );
    assert_eq!(ctx.accounts.user_account.balance, 100);
    assert_eq!(ctx.accounts.vault.total_deposits, 1_100);
}

#[test]
fn deposit_refuses_balance_overflow() {
    let before = deposit_ctx(u64::MAX, u64::MAX - 5);
    let mut ctx = before;
    assert_eq!(deposit(&mut ctx, 1), Err(InstructionError::Program(ErrorCode::Overflow)));
    assert_eq!(ctx, before);
}

#[test]
fn deposit_refuses_total_overflow() {
    let before = deposit_ctx(10, u64::MAX);
    let mut ctx = before;
    assert_eq!(deposit(&mut ctx, 1), Err(InstructionError::Program(ErrorCode::Overflow)));
    assert_eq!(ctx, before);
}

#[test]
fn deposit_rejects_wrong_vault() {
    let mut before = deposit_ctx(0, 0);
    before.accounts.vault_address = key(9);
    let mut ctx = before;
    assert_eq!(deposit(&mut ctx, 1), Err(InstructionError::ConstraintSeeds));
    assert_eq!(ctx, before);
}

#[test]
fn withdraw_debits_balance_and_moves_lamports() {
    let mut ctx = withdraw_ctx(100, 1_100, 5_000, 7);
    assert_eq!(withdraw(&mut ctx, 60), Ok(()));
    assert_eq!(ctx.accounts.user_account.balance, 40);
    assert_eq!(ctx.accounts.vault.total_deposits, 1_040);
    assert_eq!(ctx.accounts.vault_lamports, 4_940);
    assert_eq!(ctx.accounts.user_lamports, 67);
}

#[test]
fn withdraw_of_more_than_the_balance_is_refused() {
    let before = withdraw_ctx(100, 1_100, 5_000, 7);
    let mut ctx = before;
    assert_eq!(
        withdraw(&mut ctx, 200),
        Err(InstructionError::Program(ErrorCode::InsufficientFunds))
    );
    assert_eq!(ctx, before);
}

#[test]
fn withdraw_refuses_total_underflow() {
    let before = withdraw_ctx(100, 50, 5_000, 7);
    let mut ctx = before;
    assert_eq!(withdraw(&mut ctx, 60), Err(InstructionError::Program(ErrorCode::Underflow)));
    assert_eq!(ctx, before);
}

#[test]
fn withdraw_refuses_vault_lamport_underflow() {
    let before = withdraw_ctx(100, 100, 30, 7);
    let mut ctx = before;
    assert_eq!(withdraw(&mut ctx, 60), Err(InstructionError::Program(ErrorCode::Underflow)));
    assert_eq!(ctx, before);
}

#[test]
fn withdraw_refuses_user_lamport_overflow() {
    let before = withdraw_ctx(100, 100, 100, u64::MAX - 10);
    let mut ctx = before;
    assert_eq!(withdraw(&mut ctx, 60), Err(InstructionError::Program(ErrorCode::Overflow)));
    assert_eq!(ctx, before);
}

#[test]
fn withdraw_needs_the_recorded_owner_account() {
    let mut before = withdraw_ctx(100, 100, 100, 0);
    before.accounts.owner = key(6);
    let mut ctx = before;
    assert_eq!(withdraw(&mut ctx, 1), Err(InstructionError::Program(ErrorCode::Unauthorized)));
    assert_eq!(ctx, before);
}

#[test]
fn withdraw_needs_the_owner_as_signer() {
    let mut before = withdraw_ctx(100, 100, 100, 0);
    before.accounts.user_account.owner = key(6);
    before.accounts.owner = key(6);
    let mut ctx = before;
    assert_eq!(withdraw(&mut ctx, 1), Err(InstructionError::ConstraintRaw));
    assert_eq!(ctx, before);
}

#[test]
fn withdraw_rejects_another_users_account() {
    let mut before = withdraw_ctx(100, 100, 100, 0);
    before.accounts.user_account_address = user_pda(key(6));
    let mut ctx = before;
    assert_eq!(withdraw(&mut ctx, 1), Err(InstructionError::ConstraintSeeds));
    assert_eq!(ctx, before);
}

#[test]
fn withdraw_undoes_a_deposit() {
    let mut dep = deposit_ctx(25, 1_025);
    let transfer = deposit(&mut dep, 300).unwrap();
    let mut wd = withdraw_ctx(
        dep.accounts.user_account.balance,
        dep.accounts.vault.total_deposits,
        10_000 + transfer.lamports,
        50,
    );
    assert_eq!(withdraw(&mut wd, 300), Ok(()));
    assert_eq!(wd.accounts.user_account.balance, 25);
    assert_eq!(wd.accounts.vault.total_deposits, 1_025);
    assert_eq!(wd.accounts.vault_lamports + wd.accounts.user_lamports, 10_000 + 300 + 50);
}

#[test]
fn balance_stays_within_total() {
    let mut dep = deposit_ctx(100, 1_000);
    deposit(&mut dep, 500).unwrap();
    assert!(dep.accounts.user_account.balance <= dep.accounts.vault.total_deposits);

    let mut wd = withdraw_ctx(600, 1_500, 2_000, 0);
    withdraw(&mut wd, 600).unwrap();
    assert_eq!(wd.accounts.user_account.balance, 0);
    assert_eq!(wd.accounts.vault.total_deposits, 900);

    let before = withdraw_ctx(100, 1_000, 1_000, 0);
    let mut overdraft = before;
    assert!(withdraw(&mut overdraft, 200).is_err());
    assert_eq!(overdraft, before);
}
