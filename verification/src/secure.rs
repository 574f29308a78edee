//! The deposit vault with checked arithmetic: every sum and difference that
//! leaves the range of `u64` is refused with an error instead of wrapping.
use vstd::prelude::*;

use crate::instruction::{Context, InstructionError, SystemTransfer};
use crate::pubkey::{
    check_program_address, is_program_address, seeds_one, seeds_with_key, user_seed,
    user_seed_bytes, vault_seed, vault_seed_bytes, Pubkey,
};

verus! {

/// The vault account's data.
#[derive(Clone, Copy, Debug, PartialEq, Eq)]
pub struct Vault {
    pub authority: Pubkey,
    pub total_deposits: u64,
}

/// A user's account data.
#[derive(Clone, Copy, Debug, PartialEq, Eq)]
pub struct UserAccount {
    pub owner: Pubkey,
    pub balance: u64,
}

/// The program's errors.
#[derive(Clone, Copy, Debug, PartialEq, Eq)]
pub enum ErrorCode {
    Unauthorized,
    Overflow,
    Underflow,
    InsufficientFunds,
}

/// Accounts of `initialize_vault`.
#[derive(Clone, Copy, Debug, PartialEq, Eq)]
pub struct InitializeVault {
    pub authority: Pubkey,
    /// Address of the vault; seeds `[b"vault"]`.
    pub vault_address: Pubkey,
    pub vault: Vault,
}

/// Accounts of `create_user_account`.
#[derive(Clone, Copy, Debug, PartialEq, Eq)]
pub struct CreateUserAccount {
    pub user: Pubkey,
    /// Address of the user's account; seeds `[b"user", user]`.
    pub user_account_address: Pubkey,
    pub user_account: UserAccount,
}

/// Accounts of `deposit`.
#[derive(Clone, Copy, Debug, PartialEq, Eq)]
pub struct Deposit {
    pub user: Pubkey,
    pub user_account_address: Pubkey,
    pub user_account: UserAccount,
    pub vault_address: Pubkey,
    pub vault: Vault,
}

/// Accounts of `withdraw`.
#[derive(Clone, Copy, Debug, PartialEq, Eq)]
pub struct Withdraw {
    pub user: Pubkey,
    pub user_lamports: u64,
    pub user_account_address: Pubkey,
    pub user_account: UserAccount,
    /// Must be the user account's recorded owner.
    pub owner: Pubkey,
    pub vault_address: Pubkey,
    pub vault: Vault,
    pub vault_lamports: u64,
}

/// Seeds of the vault.
pub open spec fn vault_seeds() -> Seq<Seq<u8>> {
    seq![vault_seed()]
}

/// Seeds of the account of `user`.
pub open spec fn user_seeds(user: Pubkey) -> Seq<Seq<u8>> {
    seq![user_seed(), user@]
}

/// What `initialize_vault` makes of its accounts, and its result: on success
/// the transfer of `amount` from the authority to the vault.
pub open spec fn initialize_vault_spec(ctx: Context<InitializeVault>, amount: u64) -> (
    Context<InitializeVault>,
    Result<SystemTransfer, InstructionError<ErrorCode>>,
) {
    let a = ctx.accounts;
    if !is_program_address(a.vault_address, vault_seeds(), ctx.program_id) {
        (ctx, Err(InstructionError::ConstraintSeeds))
    } else {
        let vault = Vault { authority: a.authority, total_deposits: amount };
        (
            Context { accounts: InitializeVault { vault: vault, ..a }, ..ctx },
            Ok(SystemTransfer { from: a.authority, to: a.vault_address, lamports: amount }),
        )
    }
}

/// What `create_user_account` makes of its accounts, and its result.
pub open spec fn create_user_account_spec(ctx: Context<CreateUserAccount>) -> (
    Context<CreateUserAccount>,
    Result<(), InstructionError<ErrorCode>>,
) {
    let a = ctx.accounts;
    if !is_program_address(a.user_account_address, user_seeds(a.user), ctx.program_id) {
        (ctx, Err(InstructionError::ConstraintSeeds))
    } else {
        let user_account = UserAccount { owner: a.user, balance: 0 };
        (Context { accounts: CreateUserAccount { user_account: user_account, ..a }, ..ctx }, Ok(()))
    }
}

/// What `deposit` makes of its accounts, and its result: on success the
/// transfer of `amount` from the user to the vault.
pub open spec fn deposit_spec(ctx: Context<Deposit>, amount: u64) -> (
    Context<Deposit>,
    Result<SystemTransfer, InstructionError<ErrorCode>>,
) {
    let a = ctx.accounts;
    if !is_program_address(a.user_account_address, user_seeds(a.user), ctx.program_id) {
        (ctx, Err(InstructionError::ConstraintSeeds))
    } else if !is_program_address(a.vault_address, vault_seeds(), ctx.program_id) {
        (ctx, Err(InstructionError::ConstraintSeeds))
    } else if a.user_account.balance + amount > u64::MAX {
        (ctx, Err(InstructionError::Program(ErrorCode::Overflow)))
    } else if a.vault.total_deposits + amount > u64::MAX {
        (ctx, Err(InstructionError::Program(ErrorCode::Overflow)))
    } else {
        let user_account = UserAccount {
            balance: (a.user_account.balance + amount) as u64,
            ..a.user_account
        };
        let vault = Vault { total_deposits: (a.vault.total_deposits + amount) as u64, ..a.vault };
        (
            Context { accounts: Deposit { user_account: user_account, vault: vault, ..a }, ..ctx },
            Ok(SystemTransfer { from: a.user, to: a.vault_address, lamports: amount }),
        )
    }
}

/// What `withdraw` makes of its accounts, and its result.
pub open spec fn withdraw_spec(ctx: Context<Withdraw>, amount: u64) -> (
    Context<Withdraw>,
    Result<(), InstructionError<ErrorCode>>,
) {
    let a = ctx.accounts;
    if !is_program_address(a.user_account_address, user_seeds(a.user), ctx.program_id) {
        (ctx, Err(InstructionError::ConstraintSeeds))
    } else if a.user_account.owner != a.owner {
        (ctx, Err(InstructionError::Program(ErrorCode::Unauthorized)))
    } else if a.user_account.owner != a.user {
        (ctx, Err(InstructionError::ConstraintRaw))
    } else if !is_program_address(a.vault_address, vault_seeds(), ctx.program_id) {
        (ctx, Err(InstructionError::ConstraintSeeds))
    } else if a.user_account.balance < amount {
        (ctx, Err(InstructionError::Program(ErrorCode::InsufficientFunds)))
    } else if a.vault.total_deposits < amount {
        (ctx, Err(InstructionError::Program(ErrorCode::Underflow)))
    } else if a.vault_lamports < amount {
        (ctx, Err(InstructionError::Program(ErrorCode::Underflow)))
    } else if a.user_lamports + amount > u64::MAX {
        (ctx, Err(InstructionError::Program(ErrorCode::Overflow)))
    } else {
        let user_account = UserAccount {
            balance: (a.user_account.balance - amount) as u64,
            ..a.user_account
        };
        let vault = Vault { total_deposits: (a.vault.total_deposits - amount) as u64, ..a.vault };
        (
            Context {
                accounts: Withdraw {
                    user_account: user_account,
                    vault: vault,
                    vault_lamports: (a.vault_lamports - amount) as u64,
                    user_lamports: (a.user_lamports + amount) as u64,
                    ..a
                },
                ..ctx
            },
            Ok(()),
        )
    }
}

/// Sets up the vault with the authority as its authority and `amount` as its
/// total deposits; the authority's lamports go to the vault by the returned
/// transfer.
pub fn initialize_vault(ctx: &mut Context<InitializeVault>, amount: u64) -> (r: Result<
    SystemTransfer,
    InstructionError<ErrorCode>,
>)
    ensures
        (*final(ctx), r) == initialize_vault_spec(*old(ctx), amount),
{
    let seeds = seeds_one(vault_seed_bytes());
    if check_program_address(&ctx.accounts.vault_address, &seeds, &ctx.program_id).is_none() {
        return Err(InstructionError::ConstraintSeeds);
    }
    ctx.accounts.vault.authority = ctx.accounts.authority;
    ctx.accounts.vault.total_deposits = amount;
    Ok(SystemTransfer {
        from: ctx.accounts.authority,
        to: ctx.accounts.vault_address,
        lamports: amount,
    })
}

/// Creates the user's account: owned by the user, with a zero balance.
pub fn create_user_account(ctx: &mut Context<CreateUserAccount>) -> (r: Result<
    (),
    InstructionError<ErrorCode>,
>)
    ensures
        (*final(ctx), r) == create_user_account_spec(*old(ctx)),
{
    let seeds = seeds_with_key(user_seed_bytes(), &ctx.accounts.user);
    if check_program_address(&ctx.accounts.user_account_address, &seeds, &ctx.program_id).is_none() {
        return Err(InstructionError::ConstraintSeeds);
    }
    ctx.accounts.user_account.owner = ctx.accounts.user;
    ctx.accounts.user_account.balance = 0;
    Ok(())
}

/// Credits `amount` to the user's balance and to the vault's total, refusing
/// with `Overflow` where either would leave `u64`; the user's lamports go to
/// the vault by the returned transfer.
pub fn deposit(ctx: &mut Context<Deposit>, amount: u64) -> (r: Result<
    SystemTransfer,
    InstructionError<ErrorCode>,
>)
    ensures
        (*final(ctx), r) == deposit_spec(*old(ctx), amount),
{
    let user_seeds = seeds_with_key(user_seed_bytes(), &ctx.accounts.user);
    if check_program_address(&ctx.accounts.user_account_address, &user_seeds, &ctx.program_id).is_none() {
        return Err(InstructionError::ConstraintSeeds);
    }
    let vault_seeds = seeds_one(vault_seed_bytes());
    if check_program_address(&ctx.accounts.vault_address, &vault_seeds, &ctx.program_id).is_none() {
        return Err(InstructionError::ConstraintSeeds);
    }
    let balance = match ctx.accounts.user_account.balance.checked_add(amount) {
        Some(b) => b,
        None => {
            return Err(InstructionError::Program(ErrorCode::Overflow));
        },
    };
    let total = match ctx.accounts.vault.total_deposits.checked_add(amount) {
        Some(t) => t,
        None => {
            return Err(InstructionError::Program(ErrorCode::Overflow));
        },
    };
    ctx.accounts.user_account.balance = balance;
    ctx.accounts.vault.total_deposits = total;
    Ok(SystemTransfer { from: ctx.accounts.user, to: ctx.accounts.vault_address, lamports: amount })
}

/// Debits `amount` from the user's balance and from the vault's total and
/// moves that many lamports from the vault to the user. The balance must
/// cover it (else `InsufficientFunds`); the total and the vault's lamports
/// must too (else `Underflow`), and the user's lamports must not leave `u64`
/// (else `Overflow`).
pub fn withdraw(ctx: &mut Context<Withdraw>, amount: u64) -> (r: Result<
    (),
    InstructionError<ErrorCode>,
>)
    ensures
        (*final(ctx), r) == withdraw_spec(*old(ctx), amount),
{
    let user_seeds = seeds_with_key(user_seed_bytes(), &ctx.accounts.user);
    if check_program_address(&ctx.accounts.user_account_address, &user_seeds, &ctx.program_id).is_none() {
        return Err(InstructionError::ConstraintSeeds);
    }
    if !ctx.accounts.user_account.owner.equals(&ctx.accounts.owner) {
        return Err(InstructionError::Program(ErrorCode::Unauthorized));
    }
    if !ctx.accounts.user_account.owner.equals(&ctx.accounts.user) {
        return Err(InstructionError::ConstraintRaw);
    }
    let vault_seeds = seeds_one(vault_seed_bytes());
    if check_program_address(&ctx.accounts.vault_address, &vault_seeds, &ctx.program_id).is_none() {
        return Err(InstructionError::ConstraintSeeds);
    }
    let balance = match ctx.accounts.user_account.balance.checked_sub(amount) {
        Some(b) => b,
        None => {
            return Err(InstructionError::Program(ErrorCode::InsufficientFunds));
        },
    };
    let total = match ctx.accounts.vault.total_deposits.checked_sub(amount) {
        Some(t) => t,
        None => {
            return Err(InstructionError::Program(ErrorCode::Underflow));
        },
    };
    let vault_lamports = match ctx.accounts.vault_lamports.checked_sub(amount) {
        Some(l) => l,
        None => {
            return Err(InstructionError::Program(ErrorCode::Underflow));
        },
    };
    let user_lamports = match ctx.accounts.user_lamports.checked_add(amount) {
        Some(l) => l,
        None => {
            return Err(InstructionError::Program(ErrorCode::Overflow));
        },
    };
    ctx.accounts.user_account.balance = balance;
    ctx.accounts.vault.total_deposits = total;
    ctx.accounts.vault_lamports = vault_lamports;
    ctx.accounts.user_lamports = user_lamports;
    Ok(())
}

/// The accounts of a withdrawal pass every constraint of its accounts struct.
pub open spec fn withdraw_accounts_valid(ctx: Context<Withdraw>) -> bool {
    let a = ctx.accounts;
    &&& is_program_address(a.user_account_address, user_seeds(a.user), ctx.program_id)
    &&& a.user_account.owner == a.owner
    &&& a.user_account.owner == a.user
    &&& is_program_address(a.vault_address, vault_seeds(), ctx.program_id)
}

/// The accounts of a deposit pass every constraint of its accounts struct.
pub open spec fn deposit_accounts_valid(ctx: Context<Deposit>) -> bool {
    let a = ctx.accounts;
    &&& is_program_address(a.user_account_address, user_seeds(a.user), ctx.program_id)
    &&& is_program_address(a.vault_address, vault_seeds(), ctx.program_id)
}

/// A failed instruction leaves every account it was given as it was.
pub proof fn failed_vault_instructions_change_nothing(
    init: Context<InitializeVault>,
    create: Context<CreateUserAccount>,
    dep: Context<Deposit>,
    wd: Context<Withdraw>,
    amount: u64,
)
    ensures
        initialize_vault_spec(init, amount).1 is Err ==> initialize_vault_spec(init, amount).0
            == init,
        create_user_account_spec(create).1 is Err ==> create_user_account_spec(create).0 == create,
        deposit_spec(dep, amount).1 is Err ==> deposit_spec(dep, amount).0 == dep,
        withdraw_spec(wd, amount).1 is Err ==> withdraw_spec(wd, amount).0 == wd,
{
}

/// Only the owner of a user account, signing as that owner, can withdraw
/// from it.
pub proof fn only_owner_withdraws(ctx: Context<Withdraw>, amount: u64)
    ensures
        withdraw_spec(ctx, amount).1 is Ok ==> ctx.accounts.user == ctx.accounts.user_account.owner
            && ctx.accounts.owner == ctx.accounts.user_account.owner,
{
}

/// A withdrawal of more than the balance is refused with
/// `InsufficientFunds` and changes nothing.
pub proof fn withdraw_refuses_overdraft(ctx: Context<Withdraw>, amount: u64)
    requires
        withdraw_accounts_valid(ctx),
        ctx.accounts.user_account.balance < amount,
    ensures
        withdraw_spec(ctx, amount).1 == Err::<(), _>(InstructionError::Program(ErrorCode::InsufficientFunds)),
        withdraw_spec(ctx, amount).0 == ctx,
{
}

/// Balances never wrap: a deposit raises the balance and the total by
/// exactly the amount or leaves them, and a withdrawal lowers them by
/// exactly the amount or leaves them.
pub proof fn balances_never_wrap(dep: Context<Deposit>, wd: Context<Withdraw>, amount: u64)
    ensures
        deposit_spec(dep, amount).1 is Ok ==> {
            &&& deposit_spec(dep, amount).0.accounts.user_account.balance
                == dep.accounts.user_account.balance + amount
            &&& deposit_spec(dep, amount).0.accounts.vault.total_deposits
                == dep.accounts.vault.total_deposits + amount
        },
        withdraw_spec(wd, amount).1 is Ok ==> {
            &&& withdraw_spec(wd, amount).0.accounts.user_account.balance + amount
                == wd.accounts.user_account.balance
            &&& withdraw_spec(wd, amount).0.accounts.vault.total_deposits + amount
                == wd.accounts.vault.total_deposits
        },
{
}

/// A balance within the vault's total stays within it across deposits and
/// withdrawals.
pub proof fn balance_within_total_is_kept(dep: Context<Deposit>, wd: Context<Withdraw>, amount: u64)
    requires
        dep.accounts.user_account.balance <= dep.accounts.vault.total_deposits,
        wd.accounts.user_account.balance <= wd.accounts.vault.total_deposits,
    ensures
        deposit_spec(dep, amount).0.accounts.user_account.balance <= deposit_spec(
            dep,
            amount,
        ).0.accounts.vault.total_deposits,
        withdraw_spec(wd, amount).0.accounts.user_account.balance <= withdraw_spec(
            wd,
            amount,
        ).0.accounts.vault.total_deposits,
{
}

/// Withdrawing what was just deposited succeeds and gives back the balance
/// and the total as they were before the deposit.
pub proof fn withdraw_undoes_deposit(dep: Context<Deposit>, wd: Context<Withdraw>, amount: u64)
    requires
        deposit_spec(dep, amount).1 is Ok,
        wd.accounts.user_account == deposit_spec(dep, amount).0.accounts.user_account,
        wd.accounts.vault == deposit_spec(dep, amount).0.accounts.vault,
        withdraw_accounts_valid(wd),
        amount <= wd.accounts.vault_lamports,
        wd.accounts.user_lamports + amount <= u64::MAX,
    ensures
        withdraw_spec(wd, amount).1 is Ok,
        withdraw_spec(wd, amount).0.accounts.user_account == dep.accounts.user_account,
        withdraw_spec(wd, amount).0.accounts.vault == dep.accounts.vault,
{
}

/// A withdrawal moves lamports from the vault to the user without creating
/// or destroying any.
pub proof fn withdraw_conserves_lamports(ctx: Context<Withdraw>, amount: u64)
    ensures
        withdraw_spec(ctx, amount).0.accounts.vault_lamports + withdraw_spec(
            ctx,
            amount,
        ).0.accounts.user_lamports == ctx.accounts.vault_lamports + ctx.accounts.user_lamports,
{
}

/// A deposit whose sum would leave `u64` is refused with `Overflow` and
/// changes nothing.
pub proof fn deposit_refuses_overflow(ctx: Context<Deposit>, amount: u64)
    requires
        deposit_accounts_valid(ctx),
        ctx.accounts.user_account.balance + amount > u64::MAX
            || ctx.accounts.vault.total_deposits + amount > u64::MAX,
    ensures
        deposit_spec(ctx, amount).1 == Err::<SystemTransfer, _>(InstructionError::Program(ErrorCode::Overflow)),
        deposit_spec(ctx, amount).0 == ctx,
{
}

/// Setting up the vault succeeds exactly at the vault address. Then the
/// vault records the authority and `amount` as its total, and `amount` goes
/// from the authority to the vault.
pub proof fn initialize_vault_outcome(ctx: Context<InitializeVault>, amount: u64)
    ensures
        initialize_vault_spec(ctx, amount).1 is Ok <==> is_program_address(
            ctx.accounts.vault_address,
            seq![vault_seed()],
            ctx.program_id,
        ),
        initialize_vault_spec(ctx, amount).1 is Ok ==> {
            let (after, r) = initialize_vault_spec(ctx, amount);
            &&& r == Ok::<SystemTransfer, InstructionError<ErrorCode>>(
                SystemTransfer {
                    from: ctx.accounts.authority,
                    to: ctx.accounts.vault_address,
                    lamports: amount,
                },
            )
            &&& after.program_id == ctx.program_id
            &&& after.accounts.authority == ctx.accounts.authority
            &&& after.accounts.vault_address == ctx.accounts.vault_address
            &&& after.accounts.vault.authority == ctx.accounts.authority
            &&& after.accounts.vault.total_deposits == amount
        },
{
}

/// Creating a user account succeeds exactly at the user's account address.
/// Then the account is owned by the user and holds a zero balance.
pub proof fn create_user_account_outcome(ctx: Context<CreateUserAccount>)
    ensures
        create_user_account_spec(ctx).1 is Ok <==> is_program_address(
            ctx.accounts.user_account_address,
            seq![user_seed(), ctx.accounts.user@],
            ctx.program_id,
        ),
        create_user_account_spec(ctx).1 is Ok ==> {
            let after = create_user_account_spec(ctx).0;
            &&& after.program_id == ctx.program_id
            &&& after.accounts.user == ctx.accounts.user
            &&& after.accounts.user_account_address == ctx.accounts.user_account_address
            &&& after.accounts.user_account.owner == ctx.accounts.user
            &&& after.accounts.user_account.balance == 0
        },
{
}

/// A deposit succeeds exactly when both addresses are right and neither the
/// balance nor the total would pass `u64::MAX`. Then both grow by exactly
/// `amount`, and `amount` goes from the user to the vault.
pub proof fn deposit_outcome(ctx: Context<Deposit>, amount: u64)
    ensures
        deposit_spec(ctx, amount).1 is Ok <==> {
            &&& is_program_address(
                ctx.accounts.user_account_address,
                seq![user_seed(), ctx.accounts.user@],
                ctx.program_id,
            )
            &&& is_program_address(ctx.accounts.vault_address, seq![vault_seed()], ctx.program_id)
            &&& ctx.accounts.user_account.balance + amount <= u64::MAX
            &&& ctx.accounts.vault.total_deposits + amount <= u64::MAX
        },
        deposit_spec(ctx, amount).1 is Ok ==> {
            let (after, r) = deposit_spec(ctx, amount);
            &&& r == Ok::<SystemTransfer, InstructionError<ErrorCode>>(
                SystemTransfer { from: ctx.accounts.user, to: ctx.accounts.vault_address, lamports: amount },
            )
            &&& after.program_id == ctx.program_id
            &&& after.accounts.user == ctx.accounts.user
            &&& after.accounts.user_account_address == ctx.accounts.user_account_address
            &&& after.accounts.vault_address == ctx.accounts.vault_address
            &&& after.accounts.user_account.owner == ctx.accounts.user_account.owner
            &&& after.accounts.vault.authority == ctx.accounts.vault.authority
            &&& after.accounts.user_account.balance == ctx.accounts.user_account.balance + amount
            &&& after.accounts.vault.total_deposits == ctx.accounts.vault.total_deposits + amount
        },
{
}

/// A withdrawal succeeds exactly when the accounts pass their constraints,
/// the balance, the total and the vault's lamports each cover `amount`, and
/// the user's lamports stay within `u64`. Then the balance, the total and
/// the vault's lamports fall by exactly `amount` and the user's lamports
/// rise by it.
pub proof fn withdraw_outcome(ctx: Context<Withdraw>, amount: u64)
    ensures
        withdraw_spec(ctx, amount).1 is Ok <==> {
            &&& is_program_address(
                ctx.accounts.user_account_address,
                seq![user_seed(), ctx.accounts.user@],
                ctx.program_id,
            )
            &&& ctx.accounts.user_account.owner == ctx.accounts.owner
            &&& ctx.accounts.user_account.owner == ctx.accounts.user
            &&& is_program_address(ctx.accounts.vault_address, seq![vault_seed()], ctx.program_id)
            &&& amount <= ctx.accounts.user_account.balance
            &&& amount <= ctx.accounts.vault.total_deposits
            &&& amount <= ctx.accounts.vault_lamports
            &&& ctx.accounts.user_lamports + amount <= u64::MAX
        },
        withdraw_spec(ctx, amount).1 is Ok ==> {
            let after = withdraw_spec(ctx, amount).0;
            &&& after.program_id == ctx.program_id
            &&& after.accounts.user == ctx.accounts.user
            &&& after.accounts.owner == ctx.accounts.owner
            &&& after.accounts.user_account_address == ctx.accounts.user_account_address
            &&& after.accounts.vault_address == ctx.accounts.vault_address
            &&& after.accounts.user_account.owner == ctx.accounts.user_account.owner
            &&& after.accounts.vault.authority == ctx.accounts.vault.authority
            &&& after.accounts.user_account.balance + amount == ctx.accounts.user_account.balance
            &&& after.accounts.vault.total_deposits + amount == ctx.accounts.vault.total_deposits
            &&& after.accounts.vault_lamports + amount == ctx.accounts.vault_lamports
            &&& after.accounts.user_lamports == ctx.accounts.user_lamports + amount
        },
{
}

/// The seeds errors: setting up the vault, creating a user account and
/// depositing at a wrong address fail with `ConstraintSeeds`; the user's
/// account address is checked before the vault's.
pub proof fn seeds_errors(
    init: Context<InitializeVault>,
    create: Context<CreateUserAccount>,
    dep: Context<Deposit>,
    amount: u64,
)
    ensures
        !is_program_address(init.accounts.vault_address, seq![vault_seed()], init.program_id)
            ==> initialize_vault_spec(init, amount).1 == Err::<SystemTransfer, _>(
            InstructionError::<ErrorCode>::ConstraintSeeds,
        ),
        !is_program_address(
            create.accounts.user_account_address,
            seq![user_seed(), create.accounts.user@],
            create.program_id,
        ) ==> create_user_account_spec(create).1 == Err::<(), _>(
            InstructionError::<ErrorCode>::ConstraintSeeds,
        ),
        !(is_program_address(
            dep.accounts.user_account_address,
            seq![user_seed(), dep.accounts.user@],
            dep.program_id,
        ) && is_program_address(dep.accounts.vault_address, seq![vault_seed()], dep.program_id))
            ==> deposit_spec(dep, amount).1 == Err::<SystemTransfer, _>(
            InstructionError::<ErrorCode>::ConstraintSeeds,
        ),
{
}

/// Which constraint error a withdrawal with wrong accounts gives, in the
/// order the accounts struct checks them: the user's account address, the
/// recorded owner (`Unauthorized`), the owner as signer (`ConstraintRaw`),
/// the vault address.
pub proof fn withdraw_constraint_errors(ctx: Context<Withdraw>, amount: u64)
    ensures
        !is_program_address(
            ctx.accounts.user_account_address,
            seq![user_seed(), ctx.accounts.user@],
            ctx.program_id,
        ) ==> withdraw_spec(ctx, amount).1 == Err::<(), _>(
            InstructionError::<ErrorCode>::ConstraintSeeds,
        ),
        is_program_address(
            ctx.accounts.user_account_address,
            seq![user_seed(), ctx.accounts.user@],
            ctx.program_id,
        ) ==> {
            &&& ctx.accounts.user_account.owner != ctx.accounts.owner ==> withdraw_spec(ctx, amount).1
                == Err::<(), _>(InstructionError::Program(ErrorCode::Unauthorized))
            &&& ctx.accounts.user_account.owner == ctx.accounts.owner && ctx.accounts.user_account.owner
                != ctx.accounts.user ==> withdraw_spec(ctx, amount).1 == Err::<(), _>(
                InstructionError::<ErrorCode>::ConstraintRaw,
            )
            &&& ctx.accounts.user_account.owner == ctx.accounts.owner && ctx.accounts.user_account.owner
                == ctx.accounts.user && !is_program_address(
                ctx.accounts.vault_address,
                seq![vault_seed()],
                ctx.program_id,
            ) ==> withdraw_spec(ctx, amount).1 == Err::<(), _>(
                InstructionError::<ErrorCode>::ConstraintSeeds,
            )
        },
{
}

/// Which error a withdrawal with valid accounts gives: a balance short of
/// `amount` (`InsufficientFunds`), then a total or vault short of it
/// (`Underflow`), then a user whose lamports would pass `u64::MAX`
/// (`Overflow`); a deposit whose sum would pass it gives `Overflow`.
pub proof fn arithmetic_errors(dep: Context<Deposit>, wd: Context<Withdraw>, amount: u64)
    ensures
        is_program_address(
            dep.accounts.user_account_address,
            seq![user_seed(), dep.accounts.user@],
            dep.program_id,
        ) && is_program_address(dep.accounts.vault_address, seq![vault_seed()], dep.program_id) && (
        dep.accounts.user_account.balance + amount > u64::MAX || dep.accounts.vault.total_deposits
            + amount > u64::MAX) ==> deposit_spec(dep, amount).1 == Err::<SystemTransfer, _>(
            InstructionError::Program(ErrorCode::Overflow),
        ),
        ({
            &&& is_program_address(
                wd.accounts.user_account_address,
                seq![user_seed(), wd.accounts.user@],
                wd.program_id,
            )
            &&& wd.accounts.user_account.owner == wd.accounts.owner
            &&& wd.accounts.user_account.owner == wd.accounts.user
            &&& is_program_address(wd.accounts.vault_address, seq![vault_seed()], wd.program_id)
        }) ==> {
            &&& wd.accounts.user_account.balance < amount ==> withdraw_spec(wd, amount).1
                == Err::<(), _>(InstructionError::Program(ErrorCode::InsufficientFunds))
            &&& amount <= wd.accounts.user_account.balance && (wd.accounts.vault.total_deposits
                < amount || wd.accounts.vault_lamports < amount) ==> withdraw_spec(wd, amount).1
                == Err::<(), _>(InstructionError::Program(ErrorCode::Underflow))
            &&& amount <= wd.accounts.user_account.balance && amount
                <= wd.accounts.vault.total_deposits && amount <= wd.accounts.vault_lamports
                && wd.accounts.user_lamports + amount > u64::MAX ==> withdraw_spec(wd, amount).1
                == Err::<(), _>(InstructionError::Program(ErrorCode::Overflow))
        },
{
}

} // verus!
