//! The escrow program: a depositor records an amount for a counterparty,
//! funds a vault with it, and the counterparty takes the vault's lamports,
//! unless the depositor cancels first and takes them back.
use vstd::prelude::*;

use crate::instruction::{Context, InstructionError, SystemTransfer};
use crate::pubkey::{
    canonical_bump, check_program_address, escrow_seed, escrow_seed_bytes, is_program_address,
    seeds_with_key, vault_seed, vault_seed_bytes, Pubkey,
};

verus! {

/// The escrow account's data.
#[derive(Clone, Copy, Debug, PartialEq, Eq)]
pub struct EscrowState {
    pub depositor: Pubkey,
    pub counterparty: Pubkey,
    pub amount: u64,
    /// The code of an [`EscrowStatus`].
    pub status: u8,
    pub bump: u8,
}

/// The stages of an escrow; an account stores one as its code.
#[derive(Clone, Copy, Debug, PartialEq, Eq)]
pub enum EscrowStatus {
    Initialized,
    Funded,
    Exchanged,
    Cancelled,
}

/// The code under which an account stores a status.
pub open spec fn status_code(status: EscrowStatus) -> u8 {
    match status {
        EscrowStatus::Initialized => 0,
        EscrowStatus::Funded => 1,
        EscrowStatus::Exchanged => 2,
        EscrowStatus::Cancelled => 3,
    }
}

impl EscrowStatus {
    /// The code under which an account stores this status.
    pub fn code(&self) -> (r: u8)
        ensures
            r == status_code(*self),
    {
        match self {
            EscrowStatus::Initialized => 0,
            EscrowStatus::Funded => 1,
            EscrowStatus::Exchanged => 2,
            EscrowStatus::Cancelled => 3,
        }
    }

    /// The status that a stored code stands for, if any.
    pub fn from_code(code: u8) -> (r: Option<EscrowStatus>)
        ensures
            r matches Some(s) ==> status_code(s) == code,
            r is None <==> code > 3,
    {
        match code {
            0 => Some(EscrowStatus::Initialized),
            1 => Some(EscrowStatus::Funded),
            2 => Some(EscrowStatus::Exchanged),
            3 => Some(EscrowStatus::Cancelled),
            _ => None,
        }
    }
}

/// The escrow program's errors.
#[derive(Clone, Copy, Debug, PartialEq, Eq)]
pub enum EscrowError {
    InvalidStatus,
    Unauthorized,
    AmountMismatch,
    InsufficientFunds,
    AlreadyFunded,
}

/// Accounts of `initialize_escrow`.
#[derive(Clone, Copy, Debug, PartialEq, Eq)]
pub struct InitializeEscrow {
    /// The signer who opens the escrow.
    pub depositor: Pubkey,
    /// Address of the escrow account; seeds `[b"escrow", depositor]`.
    pub escrow_address: Pubkey,
    /// The escrow account's data.
    pub escrow: EscrowState,
    /// Whoever may take the funds later.
    pub counterparty: Pubkey,
}

/// Accounts of `fund_escrow`.
#[derive(Clone, Copy, Debug, PartialEq, Eq)]
pub struct FundEscrow {
    pub depositor: Pubkey,
    pub depositor_lamports: u64,
    pub escrow_address: Pubkey,
    pub escrow: EscrowState,
    /// Address of the vault; seeds `[b"vault", escrow_address]`.
    pub vault: Pubkey,
}

/// Accounts of `exchange`.
#[derive(Clone, Copy, Debug, PartialEq, Eq)]
pub struct Exchange {
    pub taker: Pubkey,
    pub taker_lamports: u64,
    pub escrow: EscrowState,
    pub vault_lamports: u64,
}

/// Accounts of `cancel_escrow`.
#[derive(Clone, Copy, Debug, PartialEq, Eq)]
pub struct CancelEscrow {
    pub canceller: Pubkey,
    pub escrow: EscrowState,
    pub vault_lamports: u64,
    /// The account that the vault's lamports are refunded to.
    pub depositor: Pubkey,
    pub depositor_lamports: u64,
}

/// Seeds of the escrow account of `depositor`.
pub open spec fn escrow_seeds(depositor: Pubkey) -> Seq<Seq<u8>> {
    seq![escrow_seed(), depositor@]
}

/// Seeds of the vault of the escrow account at `escrow_address`.
pub open spec fn vault_seeds(escrow_address: Pubkey) -> Seq<Seq<u8>> {
    seq![vault_seed(), escrow_address@]
}

/// What `initialize_escrow` makes of its accounts, and its result.
pub open spec fn initialize_escrow_spec(ctx: Context<InitializeEscrow>, amount: u64) -> (
    Context<InitializeEscrow>,
    Result<(), InstructionError<EscrowError>>,
) {
    let a = ctx.accounts;
    if !is_program_address(a.escrow_address, escrow_seeds(a.depositor), ctx.program_id) {
        (ctx, Err(InstructionError::ConstraintSeeds))
    } else {
        let escrow = EscrowState {
            depositor: a.depositor,
            counterparty: a.counterparty,
            amount: amount,
            status: status_code(EscrowStatus::Initialized),
            bump: canonical_bump(escrow_seeds(a.depositor), ctx.program_id),
        };
        (Context { accounts: InitializeEscrow { escrow: escrow, ..a }, ..ctx }, Ok(()))
    }
}

/// What `fund_escrow` makes of its accounts, and its result: on success the
/// transfer of the recorded amount from the depositor to the vault.
pub open spec fn fund_escrow_spec(ctx: Context<FundEscrow>, amount: u64) -> (
    Context<FundEscrow>,
    Result<SystemTransfer, InstructionError<EscrowError>>,
) {
    let a = ctx.accounts;
    if !is_program_address(a.vault, vault_seeds(a.escrow_address), ctx.program_id) {
        (ctx, Err(InstructionError::ConstraintSeeds))
    } else if a.escrow.status != status_code(EscrowStatus::Initialized) {
        (ctx, Err(InstructionError::Program(EscrowError::InvalidStatus)))
    } else if amount != a.escrow.amount {
        (ctx, Err(InstructionError::Program(EscrowError::AmountMismatch)))
    } else if a.depositor_lamports < amount {
        (ctx, Err(InstructionError::Program(EscrowError::InsufficientFunds)))
    } else {
        let escrow = EscrowState { status: status_code(EscrowStatus::Funded), ..a.escrow };
        (
            Context { accounts: FundEscrow { escrow: escrow, ..a }, ..ctx },
            Ok(SystemTransfer { from: a.depositor, to: a.vault, lamports: amount }),
        )
    }
}

/// What `exchange` makes of its accounts, and its result.
pub open spec fn exchange_spec(ctx: Context<Exchange>) -> (
    Context<Exchange>,
    Result<(), InstructionError<EscrowError>>,
) {
    let a = ctx.accounts;
    if a.escrow.status != status_code(EscrowStatus::Funded) {
        (ctx, Err(InstructionError::Program(EscrowError::InvalidStatus)))
    } else if a.taker != a.escrow.counterparty {
        (ctx, Err(InstructionError::Program(EscrowError::Unauthorized)))
    } else {
        let escrow = EscrowState { status: status_code(EscrowStatus::Exchanged), ..a.escrow };
        (
            Context {
                accounts: Exchange {
                    escrow: escrow,
                    vault_lamports: 0,
                    taker_lamports: a.taker_lamports.wrapping_add(a.vault_lamports),
                    ..a
                },
                ..ctx
            },
            Ok(()),
        )
    }
}

/// What `cancel_escrow` makes of its accounts, and its result.
pub open spec fn cancel_escrow_spec(ctx: Context<CancelEscrow>) -> (
    Context<CancelEscrow>,
    Result<(), InstructionError<EscrowError>>,
) {
    let a = ctx.accounts;
    if a.escrow.status != status_code(EscrowStatus::Initialized) && a.escrow.status
        != status_code(EscrowStatus::Funded) {
        (ctx, Err(InstructionError::Program(EscrowError::InvalidStatus)))
    } else if a.canceller != a.escrow.depositor {
        (ctx, Err(InstructionError::Program(EscrowError::Unauthorized)))
    } else {
        let escrow = EscrowState { status: status_code(EscrowStatus::Cancelled), ..a.escrow };
        (
            Context {
                accounts: CancelEscrow {
                    escrow: escrow,
                    vault_lamports: 0,
                    depositor_lamports: a.depositor_lamports.wrapping_add(a.vault_lamports),
                    ..a
                },
                ..ctx
            },
            Ok(()),
        )
    }
}

/// Opens an escrow of `amount` from the depositor to the counterparty. The
/// escrow account is created by the runtime for this instruction; its address
/// must be the depositor's escrow address, whose canonical bump it records.
pub fn initialize_escrow(ctx: &mut Context<InitializeEscrow>, amount: u64) -> (r: Result<
    (),
    InstructionError<EscrowError>,
>)
    ensures
        (*final(ctx), r) == initialize_escrow_spec(*old(ctx), amount),
{
    let seeds = seeds_with_key(escrow_seed_bytes(), &ctx.accounts.depositor);
    let bump = match check_program_address(&ctx.accounts.escrow_address, &seeds, &ctx.program_id) {
        Some(bump) => bump,
        None => {
            return Err(InstructionError::ConstraintSeeds);
        },
    };
    let depositor = ctx.accounts.depositor;
    let counterparty = ctx.accounts.counterparty;
    ctx.accounts.escrow = EscrowState {
        depositor: depositor,
        counterparty: counterparty,
        amount: amount,
        status: EscrowStatus::Initialized.code(),
        bump: bump,
    };
    Ok(())
}

/// Funds an initialized escrow: `amount` must be the recorded amount, which
/// stays as it was; the escrow becomes funded and the depositor's lamports
/// go to the vault by the returned transfer.
pub fn fund_escrow(ctx: &mut Context<FundEscrow>, amount: u64) -> (r: Result<
    SystemTransfer,
    InstructionError<EscrowError>,
>)
    ensures
        (*final(ctx), r) == fund_escrow_spec(*old(ctx), amount),
{
    let seeds = seeds_with_key(vault_seed_bytes(), &ctx.accounts.escrow_address);
    if check_program_address(&ctx.accounts.vault, &seeds, &ctx.program_id).is_none() {
        return Err(InstructionError::ConstraintSeeds);
    }
    if ctx.accounts.escrow.status != EscrowStatus::Initialized.code() {
        return Err(InstructionError::Program(EscrowError::InvalidStatus));
    }
    if amount != ctx.accounts.escrow.amount {
        return Err(InstructionError::Program(EscrowError::AmountMismatch));
    }
    if ctx.accounts.depositor_lamports < amount {
        return Err(InstructionError::Program(EscrowError::InsufficientFunds));
    }
    ctx.accounts.escrow.status = EscrowStatus::Funded.code();
    Ok(SystemTransfer { from: ctx.accounts.depositor, to: ctx.accounts.vault, lamports: amount })
}

/// The counterparty takes a funded escrow: the escrow becomes exchanged and
/// all the vault's lamports go to the taker. A sum past `u64::MAX` would
/// wrap around, as release builds of on-chain programs do.
pub fn exchange(ctx: &mut Context<Exchange>) -> (r: Result<(), InstructionError<EscrowError>>)
    ensures
        (*final(ctx), r) == exchange_spec(*old(ctx)),
{
    if ctx.accounts.escrow.status != EscrowStatus::Funded.code() {
        return Err(InstructionError::Program(EscrowError::InvalidStatus));
    }
    if !ctx.accounts.taker.equals(&ctx.accounts.escrow.counterparty) {
        return Err(InstructionError::Program(EscrowError::Unauthorized));
    }
    ctx.accounts.escrow.status = EscrowStatus::Exchanged.code();
    let vault_lamports = ctx.accounts.vault_lamports;
    ctx.accounts.vault_lamports = ctx.accounts.vault_lamports - vault_lamports;
    ctx.accounts.taker_lamports = ctx.accounts.taker_lamports.wrapping_add(vault_lamports);
    Ok(())
}

/// The depositor cancels an escrow that is initialized or funded: it becomes
/// cancelled and all the vault's lamports go to the refund account, the sum
/// wrapping around past `u64::MAX` as in `exchange`.
pub fn cancel_escrow(ctx: &mut Context<CancelEscrow>) -> (r: Result<(), InstructionError<EscrowError>>)
    ensures
        (*final(ctx), r) == cancel_escrow_spec(*old(ctx)),
{
    let status = ctx.accounts.escrow.status;
    if !(status == EscrowStatus::Initialized.code() || status == EscrowStatus::Funded.code()) {
        return Err(InstructionError::Program(EscrowError::InvalidStatus));
    }
    if !ctx.accounts.canceller.equals(&ctx.accounts.escrow.depositor) {
        return Err(InstructionError::Program(EscrowError::Unauthorized));
    }
    ctx.accounts.escrow.status = EscrowStatus::Cancelled.code();
    let vault_lamports = ctx.accounts.vault_lamports;
    ctx.accounts.vault_lamports = ctx.accounts.vault_lamports - vault_lamports;
    ctx.accounts.depositor_lamports = ctx.accounts.depositor_lamports.wrapping_add(vault_lamports);
    Ok(())
}

/// The stages an escrow's status may move between in one instruction: it
/// stays, or goes from initialized to funded, from funded to exchanged, or
/// from initialized or funded to cancelled.
pub open spec fn lifecycle_step(before: u8, after: u8) -> bool {
    ||| before == after
    ||| before == status_code(EscrowStatus::Initialized) && after == status_code(EscrowStatus::Funded)
    ||| before == status_code(EscrowStatus::Funded) && after == status_code(EscrowStatus::Exchanged)
    ||| (before == status_code(EscrowStatus::Initialized) || before == status_code(
        EscrowStatus::Funded,
    )) && after == status_code(EscrowStatus::Cancelled)
}

/// Conservation: funding never changes the recorded amount, whether it
/// succeeds or fails; and a successful funding transfers exactly that amount.
pub proof fn fund_conserves_recorded_amount(ctx: Context<FundEscrow>, amount: u64)
    ensures
        fund_escrow_spec(ctx, amount).0.accounts.escrow.amount == ctx.accounts.escrow.amount,
        fund_escrow_spec(ctx, amount).1 matches Ok(t) ==> t.lamports == ctx.accounts.escrow.amount,
{
}

/// State machine: an exchange succeeds only on a funded escrow.
pub proof fn exchange_needs_funded_escrow(ctx: Context<Exchange>)
    ensures
        exchange_spec(ctx).1 is Ok ==> ctx.accounts.escrow.status == status_code(
            EscrowStatus::Funded,
        ),
{
}

/// Authorization: when anyone but the recorded depositor cancels, the
/// cancellation fails and no account changes.
pub proof fn cancel_by_stranger_changes_nothing(ctx: Context<CancelEscrow>)
    requires
        ctx.accounts.canceller != ctx.accounts.escrow.depositor,
    ensures
        cancel_escrow_spec(ctx).0 == ctx,
        cancel_escrow_spec(ctx).1 is Err,
{
}

/// Authorization: when anyone but the recorded counterparty takes the
/// escrow, the exchange fails and no account changes.
pub proof fn exchange_by_stranger_changes_nothing(ctx: Context<Exchange>)
    requires
        ctx.accounts.taker != ctx.accounts.escrow.counterparty,
    ensures
        exchange_spec(ctx).0 == ctx,
        exchange_spec(ctx).1 is Err,
{
}

/// A failed instruction leaves every account it was given as it was.
pub proof fn failed_escrow_instructions_change_nothing(
    init: Context<InitializeEscrow>,
    fund: Context<FundEscrow>,
    exch: Context<Exchange>,
    cancel: Context<CancelEscrow>,
    amount: u64,
)
    ensures
        initialize_escrow_spec(init, amount).1 is Err ==> initialize_escrow_spec(init, amount).0
            == init,
        fund_escrow_spec(fund, amount).1 is Err ==> fund_escrow_spec(fund, amount).0 == fund,
        exchange_spec(exch).1 is Err ==> exchange_spec(exch).0 == exch,
        cancel_escrow_spec(cancel).1 is Err ==> cancel_escrow_spec(cancel).0 == cancel,
{
}

/// Every instruction moves an escrow's status along its lifecycle, and a
/// newly opened escrow starts initialized.
pub proof fn escrow_instructions_follow_lifecycle(
    init: Context<InitializeEscrow>,
    fund: Context<FundEscrow>,
    exch: Context<Exchange>,
    cancel: Context<CancelEscrow>,
    amount: u64,
)
    ensures
        initialize_escrow_spec(init, amount).1 is Ok ==> initialize_escrow_spec(
            init,
            amount,
        ).0.accounts.escrow.status == status_code(EscrowStatus::Initialized),
        lifecycle_step(
            fund.accounts.escrow.status,
            fund_escrow_spec(fund, amount).0.accounts.escrow.status,
        ),
        lifecycle_step(exch.accounts.escrow.status, exchange_spec(exch).0.accounts.escrow.status),
        lifecycle_step(
            cancel.accounts.escrow.status,
            cancel_escrow_spec(cancel).0.accounts.escrow.status,
        ),
{
}

/// An exchanged or cancelled escrow is final: funding, exchanging and
/// cancelling it all fail.
pub proof fn settled_escrow_is_final(
    fund: Context<FundEscrow>,
    exch: Context<Exchange>,
    cancel: Context<CancelEscrow>,
    amount: u64,
)
    requires
        fund.accounts.escrow.status == status_code(EscrowStatus::Exchanged)
            || fund.accounts.escrow.status == status_code(EscrowStatus::Cancelled),
        exch.accounts.escrow.status == status_code(EscrowStatus::Exchanged)
            || exch.accounts.escrow.status == status_code(EscrowStatus::Cancelled),
        cancel.accounts.escrow.status == status_code(EscrowStatus::Exchanged)
            || cancel.accounts.escrow.status == status_code(EscrowStatus::Cancelled),
    ensures
        fund_escrow_spec(fund, amount).1 is Err,
        exchange_spec(exch).1 is Err,
        cancel_escrow_spec(cancel).1 is Err,
{
}

/// Exchanging and cancelling move lamports without creating or destroying
/// any: the vault ends empty and the receiver gains what it held, as long
/// as the receiver's new balance fits in `u64`.
pub proof fn settling_conserves_lamports(exch: Context<Exchange>, cancel: Context<CancelEscrow>)
    requires
        exch.accounts.taker_lamports + exch.accounts.vault_lamports <= u64::MAX,
        cancel.accounts.depositor_lamports + cancel.accounts.vault_lamports <= u64::MAX,
    ensures
        exchange_spec(exch).0.accounts.taker_lamports + exchange_spec(exch).0.accounts.vault_lamports
            == exch.accounts.taker_lamports + exch.accounts.vault_lamports,
        exchange_spec(exch).1 is Ok ==> exchange_spec(exch).0.accounts.vault_lamports == 0,
        cancel_escrow_spec(cancel).0.accounts.depositor_lamports + cancel_escrow_spec(
            cancel,
        ).0.accounts.vault_lamports == cancel.accounts.depositor_lamports
            + cancel.accounts.vault_lamports,
        cancel_escrow_spec(cancel).1 is Ok ==> cancel_escrow_spec(cancel).0.accounts.vault_lamports
            == 0,
{
}

/// Opening an escrow at the depositor's escrow address succeeds and records
/// the depositor, the counterparty, the amount, the Initialized status and
/// the address's canonical bump; at any other address it fails with a seeds
/// error.
pub proof fn initialize_escrow_outcome(ctx: Context<InitializeEscrow>, amount: u64)
    ensures
        is_program_address(
            ctx.accounts.escrow_address,
            seq![escrow_seed(), ctx.accounts.depositor@],
            ctx.program_id,
        ) ==> {
            let (after, r) = initialize_escrow_spec(ctx, amount);
            &&& r is Ok
            &&& after.program_id == ctx.program_id
            &&& after.accounts.depositor == ctx.accounts.depositor
            &&& after.accounts.escrow_address == ctx.accounts.escrow_address
            &&& after.accounts.counterparty == ctx.accounts.counterparty
            &&& after.accounts.escrow.depositor == ctx.accounts.depositor
            &&& after.accounts.escrow.counterparty == ctx.accounts.counterparty
            &&& after.accounts.escrow.amount == amount
            &&& after.accounts.escrow.status == 0
            &&& after.accounts.escrow.bump == canonical_bump(
                seq![escrow_seed(), ctx.accounts.depositor@],
                ctx.program_id,
            )
        },
        !is_program_address(
            ctx.accounts.escrow_address,
            seq![escrow_seed(), ctx.accounts.depositor@],
            ctx.program_id,
        ) ==> initialize_escrow_spec(ctx, amount) == (
            ctx,
            Err::<(), InstructionError<EscrowError>>(InstructionError::ConstraintSeeds),
        ),
{
}

/// Funding succeeds exactly when the vault is the escrow's vault address,
/// the escrow is Initialized, the amount is the recorded one and the
/// depositor holds at least that many lamports. Then the escrow becomes
/// Funded, nothing else in it changes, and the amount goes from the
/// depositor to the vault.
pub proof fn fund_escrow_outcome(ctx: Context<FundEscrow>, amount: u64)
    ensures
        fund_escrow_spec(ctx, amount).1 is Ok <==> {
            &&& is_program_address(
                ctx.accounts.vault,
                seq![vault_seed(), ctx.accounts.escrow_address@],
                ctx.program_id,
            )
            &&& ctx.accounts.escrow.status == 0
            &&& amount == ctx.accounts.escrow.amount
            &&& amount <= ctx.accounts.depositor_lamports
        },
        fund_escrow_spec(ctx, amount).1 is Ok ==> {
            let (after, r) = fund_escrow_spec(ctx, amount);
            &&& r == Ok::<SystemTransfer, InstructionError<EscrowError>>(
                SystemTransfer { from: ctx.accounts.depositor, to: ctx.accounts.vault, lamports: amount },
            )
            &&& after.program_id == ctx.program_id
            &&& after.accounts.depositor == ctx.accounts.depositor
            &&& after.accounts.depositor_lamports == ctx.accounts.depositor_lamports
            &&& after.accounts.escrow_address == ctx.accounts.escrow_address
            &&& after.accounts.vault == ctx.accounts.vault
            &&& after.accounts.escrow.status == 1
            &&& after.accounts.escrow.depositor == ctx.accounts.escrow.depositor
            &&& after.accounts.escrow.counterparty == ctx.accounts.escrow.counterparty
            &&& after.accounts.escrow.amount == ctx.accounts.escrow.amount
            &&& after.accounts.escrow.bump == ctx.accounts.escrow.bump
        },
{
}

/// An exchange succeeds exactly when the escrow is Funded and the taker is
/// its counterparty. Then the escrow becomes Exchanged, nothing else in it
/// changes, the vault ends empty, and the taker gains everything it held
/// (modulo 2^64).
pub proof fn exchange_outcome(ctx: Context<Exchange>)
    ensures
        exchange_spec(ctx).1 is Ok <==> ctx.accounts.escrow.status == 1 && ctx.accounts.taker
            == ctx.accounts.escrow.counterparty,
        exchange_spec(ctx).1 is Ok ==> {
            let after = exchange_spec(ctx).0;
            &&& after.program_id == ctx.program_id
            &&& after.accounts.taker == ctx.accounts.taker
            &&& after.accounts.vault_lamports == 0
            &&& after.accounts.taker_lamports == (ctx.accounts.taker_lamports
                + ctx.accounts.vault_lamports) % 0x1_0000_0000_0000_0000
            &&& after.accounts.escrow.status == 2
            &&& after.accounts.escrow.depositor == ctx.accounts.escrow.depositor
            &&& after.accounts.escrow.counterparty == ctx.accounts.escrow.counterparty
            &&& after.accounts.escrow.amount == ctx.accounts.escrow.amount
            &&& after.accounts.escrow.bump == ctx.accounts.escrow.bump
        },
{
}

/// A cancellation succeeds exactly when the escrow is Initialized or Funded
/// and the canceller is its depositor, whatever the vault holds (nothing
/// included). Then the escrow becomes Cancelled, nothing else in it changes,
/// the vault ends empty, and the refund account gains everything it held
/// (modulo 2^64).
pub proof fn cancel_escrow_outcome(ctx: Context<CancelEscrow>)
    ensures
        cancel_escrow_spec(ctx).1 is Ok <==> (ctx.accounts.escrow.status == 0
            || ctx.accounts.escrow.status == 1) && ctx.accounts.canceller
            == ctx.accounts.escrow.depositor,
        cancel_escrow_spec(ctx).1 is Ok ==> {
            let after = cancel_escrow_spec(ctx).0;
            &&& after.program_id == ctx.program_id
            &&& after.accounts.canceller == ctx.accounts.canceller
            &&& after.accounts.depositor == ctx.accounts.depositor
            &&& after.accounts.vault_lamports == 0
            &&& after.accounts.depositor_lamports == (ctx.accounts.depositor_lamports
                + ctx.accounts.vault_lamports) % 0x1_0000_0000_0000_0000
            &&& after.accounts.escrow.status == 3
            &&& after.accounts.escrow.depositor == ctx.accounts.escrow.depositor
            &&& after.accounts.escrow.counterparty == ctx.accounts.escrow.counterparty
            &&& after.accounts.escrow.amount == ctx.accounts.escrow.amount
            &&& after.accounts.escrow.bump == ctx.accounts.escrow.bump
        },
{
}

/// Which error a failed funding gives: a wrong vault address first, then a
/// status other than Initialized, then an amount other than the recorded
/// one, then too few lamports.
pub proof fn fund_escrow_errors(ctx: Context<FundEscrow>, amount: u64)
    ensures
        !is_program_address(
            ctx.accounts.vault,
            seq![vault_seed(), ctx.accounts.escrow_address@],
            ctx.program_id,
        ) ==> fund_escrow_spec(ctx, amount).1 == Err::<SystemTransfer, _>(
            InstructionError::<EscrowError>::ConstraintSeeds,
        ),
        is_program_address(
            ctx.accounts.vault,
            seq![vault_seed(), ctx.accounts.escrow_address@],
            ctx.program_id,
        ) ==> {
            &&& ctx.accounts.escrow.status != 0 ==> fund_escrow_spec(ctx, amount).1
                == Err::<SystemTransfer, _>(InstructionError::Program(EscrowError::InvalidStatus))
            &&& ctx.accounts.escrow.status == 0 && amount != ctx.accounts.escrow.amount
                ==> fund_escrow_spec(ctx, amount).1 == Err::<SystemTransfer, _>(
                InstructionError::Program(EscrowError::AmountMismatch),
            )
            &&& ctx.accounts.escrow.status == 0 && amount == ctx.accounts.escrow.amount
                && ctx.accounts.depositor_lamports < amount ==> fund_escrow_spec(ctx, amount).1
                == Err::<SystemTransfer, _>(InstructionError::Program(EscrowError::InsufficientFunds))
        },
{
}

/// Which error a failed exchange or cancellation gives: a status that does
/// not allow it first (`InvalidStatus`), then the wrong signer
/// (`Unauthorized`).
pub proof fn settle_errors(exch: Context<Exchange>, cancel: Context<CancelEscrow>)
    ensures
        exch.accounts.escrow.status != 1 ==> exchange_spec(exch).1 == Err::<(), _>(
            InstructionError::Program(EscrowError::InvalidStatus),
        ),
        exch.accounts.escrow.status == 1 && exch.accounts.taker != exch.accounts.escrow.counterparty
            ==> exchange_spec(exch).1 == Err::<(), _>(
            InstructionError::Program(EscrowError::Unauthorized),
        ),
        cancel.accounts.escrow.status != 0 && cancel.accounts.escrow.status != 1
            ==> cancel_escrow_spec(cancel).1 == Err::<(), _>(
            InstructionError::Program(EscrowError::InvalidStatus),
        ),
        (cancel.accounts.escrow.status == 0 || cancel.accounts.escrow.status == 1)
            && cancel.accounts.canceller != cancel.accounts.escrow.depositor
            ==> cancel_escrow_spec(cancel).1 == Err::<(), _>(
            InstructionError::Program(EscrowError::Unauthorized),
        ),
{
}

} // verus!
