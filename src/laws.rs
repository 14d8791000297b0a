//! What holds of every vault across the operations, proved over the
//! operations' own contracts.
use vstd::prelude::*;

use crate::derivation::{
    derived, derived_bump_is_first, name_bytes, seeds_fit, valid_names_fit_seeds, vault_seeds,
};
use crate::vault::{
    account_re_derives, address_verified, deposited, initialized, vault_wf, withdrawn, Deposit, ErrorCode, InitializeTreasury, Withdraw,
    MAX_NAME_LEN,
};

verus! {

/// The sum of a sequence of amounts.
pub open spec fn total(amounts: Seq<u64>) -> int
    decreases amounts.len(),
{
    if amounts.len() == 0 {
        0
    } else {
        total(amounts.drop_last()) + amounts.last()
    }
}

/// A vault that was just created holds the caller as its authority, the
/// given name and an empty balance, at the address it was asked for, and
/// that address re-derives from the record.
pub proof fn created_vault_is_fresh(pre: InitializeTreasury, name: String)
    requires
        initialized(pre, name).1 is Ok,
    ensures
        initialized(pre, name).0.treasury matches Some(t) && {
            &&& t.data.authority == pre.authority
            &&& t.data.name == name
            &&& t.lamports == 0
            &&& t.key == pre.treasury_key
            &&& vault_wf(pre.program_id@, t)
        },
{
    derived_bump_is_first(pre.program_id@, pre.authority@, name@);
}

/// A name longer than the limit is refused with `NameTooLong`, and no
/// account is created.
pub proof fn long_name_is_refused(pre: InitializeTreasury, name: String)
    requires
        name_bytes(name@).len() > MAX_NAME_LEN,
    ensures
        initialized(pre, name) == (pre, Err::<(), ErrorCode>(ErrorCode::NameTooLong)),
{
}

/// Creating a vault a second time with the same authority and name, on the
/// account the first creation made, fails with `DuplicateRecord` and leaves
/// the first vault as it was.
pub proof fn second_creation_is_refused(first: InitializeTreasury, second: InitializeTreasury, name: String)
    requires
        initialized(first, name).1 is Ok,
        second.program_id@ == first.program_id@,
        second.authority@ == first.authority@,
        second.treasury_key@ == first.treasury_key@,
        second.treasury == initialized(first, name).0.treasury,
    ensures
        initialized(second, name) == (second, Err::<(), ErrorCode>(ErrorCode::DuplicateRecord)),
{
}

/// Over any run of successful deposits into one vault, each from its own
/// depositor, the vault gains exactly their total and each depositor loses
/// exactly what it sent.
pub proof fn deposits_add_up(pre: Seq<Deposit>, amounts: Seq<u64>, post: Seq<Deposit>)
    requires
        pre.len() == amounts.len(),
        post.len() == amounts.len(),
        forall|i: int|
            0 <= i < amounts.len() ==> #[trigger] pre[i].treasury.lamports + pre[i].depositor.lamports
                <= u64::MAX,
        forall|i: int| 0 <= i < amounts.len() ==> deposited(#[trigger] pre[i], amounts[i]) == (
        post[i], Ok::<(), ErrorCode>(())),
        forall|i: int| 0 < i < amounts.len() ==> #[trigger] pre[i].treasury == post[i - 1].treasury,
    ensures
        amounts.len() > 0 ==> post.last().treasury.lamports == pre[0].treasury.lamports + total(
            amounts,
        ),
        forall|i: int|
            0 <= i < amounts.len() ==> #[trigger] post[i].depositor.lamports
                == pre[i].depositor.lamports - amounts[i],
    decreases amounts.len(),
{
    if amounts.len() > 0 {
        let n = amounts.len() - 1;
        assert(deposited(pre[n], amounts[n]) == (post[n], Ok::<(), ErrorCode>(())));
        if n > 0 {
            let pre_n = pre.take(n);
            let amounts_n = amounts.take(n);
            let post_n = post.take(n);
            assert forall|i: int| 0 <= i < amounts_n.len() implies deposited(
                #[trigger] pre_n[i],
                amounts_n[i],
            ) == (post_n[i], Ok::<(), ErrorCode>(())) by {
                assert(pre_n[i] == pre[i]);
            }
            assert forall|i: int| 0 <= i < amounts_n.len() implies #[trigger] pre_n[i].treasury.lamports
                + pre_n[i].depositor.lamports <= u64::MAX by {
                assert(pre_n[i] == pre[i]);
            }
            assert forall|i: int| 0 < i < amounts_n.len() implies #[trigger] pre_n[i].treasury
                == post_n[i - 1].treasury by {
                assert(pre_n[i] == pre[i]);
            }
            deposits_add_up(pre_n, amounts_n, post_n);
            assert(amounts.drop_last() =~= amounts_n);
            assert(post_n.last() == post[n - 1]);
            assert(pre_n[0] == pre[0]);
            assert(pre[n].treasury == post[n - 1].treasury);
        } else {
            assert(amounts.drop_last() =~= Seq::<u64>::empty());
            assert(total(amounts.drop_last()) == 0);
        }
        assert(total(amounts) == total(amounts.drop_last()) + amounts[n]);
        assert(post.last() == post[n]);
        assert(pre[n].treasury.lamports + pre[n].depositor.lamports <= u64::MAX);
        assert(post[n].treasury.lamports == pre[n].treasury.lamports + amounts[n]);
    }
    assert forall|i: int| 0 <= i < amounts.len() implies #[trigger] post[i].depositor.lamports
        == pre[i].depositor.lamports - amounts[i] by {
        assert(deposited(pre[i], amounts[i]) == (post[i], Ok::<(), ErrorCode>(())));
    }
}

/// A deposit into an account whose address does not re-derive from its
/// record fails with `InvalidDerivation` and moves nothing.
pub proof fn misplaced_vault_refuses_deposit(pre: Deposit, amount: u64)
    requires
        !account_re_derives(pre.program_id@, pre.treasury),
    ensures
        deposited(pre, amount) == (pre, Err::<(), ErrorCode>(ErrorCode::InvalidDerivation)),
{
}

/// Deposits and withdrawals keep a sound vault sound: its record and
/// address never change, so it re-derives after either.
pub proof fn operations_keep_vault_sound(d: Deposit, d_amount: u64, w: Withdraw, w_amount: u64)
    ensures
        vault_wf(d.program_id@, d.treasury) ==> vault_wf(d.program_id@, deposited(d, d_amount).0.treasury),
        deposited(d, d_amount).0.treasury.data == d.treasury.data,
        deposited(d, d_amount).0.treasury.key == d.treasury.key,
        vault_wf(w.program_id@, w.treasury) ==> vault_wf(w.program_id@, withdrawn(w, w_amount).0.treasury),
        withdrawn(w, w_amount).0.treasury.data == w.treasury.data,
        withdrawn(w, w_amount).0.treasury.key == w.treasury.key,
{
}

/// A name within the limit, on a fresh account at the address derived for
/// it, gets its vault; the seeds of such a name always fit, so derivation
/// fails only where no discriminant gives an address.
pub proof fn valid_name_creates_vault(pre: InitializeTreasury, name: String)
    requires
        name_bytes(name@).len() <= MAX_NAME_LEN,
        pre.treasury is None,
        derived(pre.program_id@, pre.authority@, name@) matches Some((a, _)) && a == pre.treasury_key@,
    ensures
        initialized(pre, name).1 is Ok,
        seeds_fit(vault_seeds(pre.authority@, name@).push(seq![255u8])),
{
    valid_names_fit_seeds(pre.authority, name@);
}

/// A withdrawal signed by anyone but the vault's authority fails and moves
/// nothing; on a vault whose address re-derives, it fails with
/// `Unauthorized`.
pub proof fn stranger_cannot_withdraw(pre: Withdraw, amount: u64)
    requires
        pre.authority@ != pre.treasury.data.authority@,
    ensures
        withdrawn(pre, amount).0 == pre,
        withdrawn(pre, amount).1 is Err,
        address_verified(pre) ==> withdrawn(pre, amount).1 == Err::<(), ErrorCode>(ErrorCode::Unauthorized),
{
}

/// A withdrawal of more than the vault holds fails and moves nothing; when
/// the vault re-derives and its authority signs, it fails with
/// `InsufficientFunds`.
pub proof fn overdraft_is_refused(pre: Withdraw, amount: u64)
    requires
        amount > pre.treasury.lamports,
    ensures
        withdrawn(pre, amount).0 == pre,
        withdrawn(pre, amount).1 is Err,
        vault_wf(pre.program_id@, pre.treasury) && pre.authority@ == pre.treasury.data.authority@
            ==> withdrawn(pre, amount).1 == Err::<(), ErrorCode>(ErrorCode::InsufficientFunds),
{
}

/// A withdrawal from a sound vault, signed by its authority and within its
/// balance, succeeds and moves exactly the amount from the vault to the
/// recipient, leaving the vault's record and address as they were.
pub proof fn authorized_withdrawal_moves_amount(pre: Withdraw, amount: u64)
    requires
        vault_wf(pre.program_id@, pre.treasury),
        pre.authority@ == pre.treasury.data.authority@,
        amount <= pre.treasury.lamports,
        pre.recipient.lamports + amount <= u64::MAX,
    ensures
        withdrawn(pre, amount).1 is Ok,
        withdrawn(pre, amount).0.treasury.lamports == pre.treasury.lamports - amount,
        withdrawn(pre, amount).0.recipient.lamports == pre.recipient.lamports + amount,
        withdrawn(pre, amount).0.treasury.data == pre.treasury.data,
        withdrawn(pre, amount).0.treasury.key == pre.treasury.key,
        vault_wf(pre.program_id@, withdrawn(pre, amount).0.treasury),
{
}

} // verus!
