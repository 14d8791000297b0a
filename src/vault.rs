//! Vault records and the three operations on them: creating a vault,
//! depositing into it, and withdrawing from it.
use vstd::prelude::*;

use crate::derivation::{derivation_holds, derived, found_view, name_bytes, verify_derivation};
use crate::identity::Identity;

verus! {

/// The longest vault name, in bytes.
pub const MAX_NAME_LEN: usize = 50;

/// Why an operation was refused. Every refusal leaves all accounts as they
/// were.
#[derive(Clone, Copy, Debug, PartialEq, Eq, Structural)]
pub enum ErrorCode {
    /// The vault's address is not the one derived from its record.
    InvalidDerivation,
    /// The signer is not the vault's authority.
    Unauthorized,
    /// The paying side holds less than the amount.
    InsufficientFunds,
    /// A vault with this authority and name already exists.
    DuplicateRecord,
    /// The name is longer than `MAX_NAME_LEN` bytes.
    NameTooLong,
}

/// The persisted record of a vault.
#[derive(Clone, Debug)]
pub struct Treasury {
    /// The vault's name, fixed at creation.
    pub name: String,
    /// The only identity allowed to withdraw, fixed at creation.
    pub authority: Identity,
    /// The discriminant under which the vault's address was derived.
    pub bump: u8,
}

/// A plain ledger account: its identity and its balance.
#[derive(Clone, Copy, Debug)]
pub struct Account {
    pub key: Identity,
    pub lamports: u64,
}

/// A vault's account: its address, its balance and its record.
#[derive(Clone, Debug)]
pub struct TreasuryAccount {
    pub key: Identity,
    pub lamports: u64,
    pub data: Treasury,
}

/// The accounts that creating a vault works on. `treasury` is the account
/// that the ledger holds at `treasury_key`, if any.
#[derive(Clone, Debug)]
pub struct InitializeTreasury {
    /// The identity of this program, under which addresses are derived.
    pub program_id: Identity,
    /// The signer that owns the new vault and pays for its creation.
    pub authority: Identity,
    pub treasury_key: Identity,
    pub treasury: Option<TreasuryAccount>,
}

/// The accounts that a deposit works on.
#[derive(Clone, Debug)]
pub struct Deposit {
    /// The identity of this program, under which addresses are derived.
    pub program_id: Identity,
    pub treasury: TreasuryAccount,
    /// The signer whose balance pays the deposit.
    pub depositor: Account,
}

/// The accounts that a withdrawal works on.
#[derive(Clone, Debug)]
pub struct Withdraw {
    /// The identity of this program, under which addresses are derived.
    pub program_id: Identity,
    /// The signer of the withdrawal.
    pub authority: Identity,
    pub treasury: TreasuryAccount,
    /// The account credited; any account will do.
    pub recipient: Account,
}

/// Whether a vault account is sound under `program_id`: its name fits and
/// its address is the one derived from its record.
pub open spec fn vault_wf(program_id: Seq<u8>, t: TreasuryAccount) -> bool {
    &&& name_bytes(t.data.name@).len() <= MAX_NAME_LEN
    &&& account_re_derives(program_id, t)
}

/// The accounts and the result after creating the vault `name` from `pre`,
/// where the search for its address found `found`.
pub open spec fn created(pre: InitializeTreasury, name: String, found: Option<(Seq<u8>, u8)>) -> (
    InitializeTreasury,
    Result<(), ErrorCode>,
) {
    if name_bytes(name@).len() > MAX_NAME_LEN {
        (pre, Err(ErrorCode::NameTooLong))
    } else {
        match found {
            None => (pre, Err(ErrorCode::InvalidDerivation)),
            Some((address, bump)) => {
                if address != pre.treasury_key@ {
                    (pre, Err(ErrorCode::InvalidDerivation))
                } else if pre.treasury is Some {
                    (pre, Err(ErrorCode::DuplicateRecord))
                } else {
                    let record = Treasury { name, authority: pre.authority, bump };
                    let account = TreasuryAccount { key: pre.treasury_key, lamports: 0, data: record };
                    (
                        InitializeTreasury {
                            program_id: pre.program_id,
                            authority: pre.authority,
                            treasury_key: pre.treasury_key,
                            treasury: Some(account),
                        },
                        Ok(()),
                    )
                }
            },
        }
    }
}

/// The accounts and the result after creating the vault `name` from `pre`.
pub open spec fn initialized(pre: InitializeTreasury, name: String) -> (InitializeTreasury, Result<(), ErrorCode>) {
    created(pre, name, derived(pre.program_id@, pre.authority@, name@))
}

/// Whether a vault account's address re-derives from its record under
/// `program_id`.
pub open spec fn account_re_derives(program_id: Seq<u8>, t: TreasuryAccount) -> bool {
    derivation_holds(program_id, t.data.authority@, t.data.name@, t.data.bump, t.key@)
}

/// The accounts and the result after depositing `amount` from `pre`, where
/// `address_verified` tells whether the vault's address re-derives from its
/// record.
pub open spec fn deposit_settled(pre: Deposit, amount: u64, address_verified: bool) -> (Deposit, Result<(), ErrorCode>) {
    if !address_verified {
        (pre, Err(ErrorCode::InvalidDerivation))
    } else if pre.depositor.lamports < amount {
        (pre, Err(ErrorCode::InsufficientFunds))
    } else {
        let treasury = TreasuryAccount {
            key: pre.treasury.key,
            lamports: (pre.treasury.lamports + amount) as u64,
            data: pre.treasury.data,
        };
        let depositor = Account {
            key: pre.depositor.key,
            lamports: (pre.depositor.lamports - amount) as u64,
        };
        (Deposit { program_id: pre.program_id, treasury, depositor }, Ok(()))
    }
}

/// The accounts and the result after depositing `amount` from `pre`.
pub open spec fn deposited(pre: Deposit, amount: u64) -> (Deposit, Result<(), ErrorCode>) {
    deposit_settled(pre, amount, account_re_derives(pre.program_id@, pre.treasury))
}

/// The accounts and the result after withdrawing `amount` from `pre`, where
/// `address_verified` tells whether the vault's address re-derives from its
/// record.
pub open spec fn settled(pre: Withdraw, amount: u64, address_verified: bool) -> (Withdraw, Result<(), ErrorCode>) {
    if !address_verified {
        (pre, Err(ErrorCode::InvalidDerivation))
    } else if pre.authority@ != pre.treasury.data.authority@ {
        (pre, Err(ErrorCode::Unauthorized))
    } else if pre.treasury.lamports < amount {
        (pre, Err(ErrorCode::InsufficientFunds))
    } else {
        let treasury = TreasuryAccount {
            key: pre.treasury.key,
            lamports: (pre.treasury.lamports - amount) as u64,
            data: pre.treasury.data,
        };
        let recipient = Account {
            key: pre.recipient.key,
            lamports: (pre.recipient.lamports + amount) as u64,
        };
        (
            Withdraw {
                program_id: pre.program_id,
                authority: pre.authority,
                treasury,
                recipient,
            },
            Ok(()),
        )
    }
}

/// Whether the vault's address in `w` re-derives from its record.
pub open spec fn address_verified(w: Withdraw) -> bool {
    account_re_derives(w.program_id@, w.treasury)
}

/// The accounts and the result after withdrawing `amount` from `pre`.
pub open spec fn withdrawn(pre: Withdraw, amount: u64) -> (Withdraw, Result<(), ErrorCode>) {
    settled(pre, amount, address_verified(pre))
}

/// Creates the vault `name` owned by the signer, at the address derived
/// from the two, with an empty balance.
pub fn initialize_treasury(ctx: &mut InitializeTreasury, name: String) -> (r: Result<(), ErrorCode>)
    ensures
        (*final(ctx), r) == initialized(*old(ctx), name),
        r is Ok ==> (final(ctx).treasury matches Some(t) && vault_wf(final(ctx).program_id@, t)),
{
    let found = crate::derivation::derive(&ctx.program_id, &ctx.authority, name.as_str());
    create_treasury(ctx, name, found)
}

/// Creates the vault `name` at the address that the search `found` gave:
/// refuses a name that is too long, a search that found nothing or another
/// address than `ctx.treasury_key`, and an account that already exists.
pub fn create_treasury(ctx: &mut InitializeTreasury, name: String, found: Option<(Identity, u8)>) -> (r:
    Result<(), ErrorCode>)
    ensures
        (*final(ctx), r) == created(*old(ctx), name, found_view(found)),
{
    if name.as_str().as_bytes().len() > MAX_NAME_LEN {
        return Err(ErrorCode::NameTooLong);
    }
    match found {
        None => Err(ErrorCode::InvalidDerivation),
        Some((address, bump)) => {
            if !address.same_as(&ctx.treasury_key) {
                return Err(ErrorCode::InvalidDerivation);
            }
            if ctx.treasury.is_some() {
                return Err(ErrorCode::DuplicateRecord);
            }
            let record = Treasury { name, authority: ctx.authority, bump };
            ctx.treasury = Some(TreasuryAccount { key: ctx.treasury_key, lamports: 0, data: record });
            Ok(())
        },
    }
}

/// Moves `amount` from the depositor to the vault, once the vault's address
/// re-derives from its record. Anyone may deposit into any vault.
pub fn deposit(ctx: &mut Deposit, amount: u64) -> (r: Result<(), ErrorCode>)
    requires
        old(ctx).treasury.lamports + old(ctx).depositor.lamports <= u64::MAX,
    ensures
        (*final(ctx), r) == deposited(*old(ctx), amount),
{
    let verified = verify_account(&ctx.program_id, &ctx.treasury);
    settle_deposit(ctx, amount, verified)
}

/// Moves `amount` from the depositor to the vault where `address_verified`
/// holds and the depositor's balance covers the amount; checked in that
/// order.
pub fn settle_deposit(ctx: &mut Deposit, amount: u64, address_verified: bool) -> (r: Result<(), ErrorCode>)
    requires
        old(ctx).treasury.lamports + old(ctx).depositor.lamports <= u64::MAX,
    ensures
        (*final(ctx), r) == deposit_settled(*old(ctx), amount, address_verified),
{
    if !address_verified {
        return Err(ErrorCode::InvalidDerivation);
    }
    if ctx.depositor.lamports < amount {
        return Err(ErrorCode::InsufficientFunds);
    }
    ctx.depositor.lamports = ctx.depositor.lamports - amount;
    ctx.treasury.lamports = ctx.treasury.lamports + amount;
    Ok(())
}

/// Whether the vault account's address re-derives from its record.
fn verify_account(program_id: &Identity, t: &TreasuryAccount) -> (r: bool)
    ensures
        r == account_re_derives(program_id@, *t),
{
    verify_derivation(program_id, &t.data.authority, t.data.name.as_str(), t.data.bump, &t.key)
}

/// Moves `amount` from the vault to the account of `recipient`, passed as
/// `ctx.recipient`, once the vault's address re-derives from its record, the
/// signer is its authority, and its balance covers the amount.
pub fn withdraw(ctx: &mut Withdraw, amount: u64, recipient: Identity) -> (r: Result<(), ErrorCode>)
    requires
        recipient@ == old(ctx).recipient.key@,
        old(ctx).treasury.lamports + old(ctx).recipient.lamports <= u64::MAX,
    ensures
        (*final(ctx), r) == withdrawn(*old(ctx), amount),
        final(ctx).recipient.key@ == recipient@,
{
    let verified = verify_account(&ctx.program_id, &ctx.treasury);
    settle_withdrawal(ctx, amount, verified)
}

/// Moves `amount` from the vault to `ctx.recipient` where
/// `address_verified` holds, the signer is the vault's authority, and the
/// vault's balance covers the amount; checked in that order.
pub fn settle_withdrawal(ctx: &mut Withdraw, amount: u64, address_verified: bool) -> (r: Result<(), ErrorCode>)
    requires
        old(ctx).treasury.lamports + old(ctx).recipient.lamports <= u64::MAX,
    ensures
        (*final(ctx), r) == settled(*old(ctx), amount, address_verified),
{
    if !address_verified {
        return Err(ErrorCode::InvalidDerivation);
    }
    if !ctx.authority.same_as(&ctx.treasury.data.authority) {
        return Err(ErrorCode::Unauthorized);
    }
    if ctx.treasury.lamports < amount {
        return Err(ErrorCode::InsufficientFunds);
    }
    ctx.treasury.lamports = ctx.treasury.lamports - amount;
    ctx.recipient.lamports = ctx.recipient.lamports + amount;
    Ok(())
}

} // verus!
