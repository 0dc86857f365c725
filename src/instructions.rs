//! The three operations of the escrow program: initialize, cancel, exchange.
//! Each checks every condition before it changes anything, so a refused
//! operation leaves the ledger as it was.
use vstd::prelude::*;
use crate::address::Address;
use crate::authority::{derive_state_authority, derived_authority, state_address, verify_state_authority};
use crate::error::ErrorCode;
use crate::ledger::{
    account_ok, credit, credits_fit, debit, escrow_index, has_escrow, Escrow, EscrowEntry, Ledger,
};
use crate::settlement::{min_acceptable, min_acceptable_amount};

verus! {

/// The accounts of an initialize: the initializer, their asset-A account, and
/// the asset the initializer wants in return.
#[derive(Clone, Copy, Debug)]
pub struct Initialize {
    pub initializer: Address,
    pub initializer_ata_a: usize,
    pub mint_b: Address,
}

/// The accounts of a cancel: who signs, the escrow's address, the account
/// that takes asset A back, and the taker's account that takes asset B back.
#[derive(Clone, Copy, Debug)]
pub struct Cancel {
    pub signer: Address,
    pub escrow: Address,
    pub initializer_ata_a: usize,
    pub taker_ata_b: usize,
}

/// The accounts of an exchange: the escrow's address, the taker's account
/// that receives asset A, and the initializer's account that receives asset B.
#[derive(Clone, Copy, Debug)]
pub struct Exchange {
    pub escrow: Address,
    pub taker_ata_a: usize,
    pub initializer_ata_b: usize,
}

/// The entry that a successful initialize adds.
pub open spec fn opened_entry(
    e: EscrowEntry,
    address: Seq<u8>,
    record: Escrow,
) -> bool {
    &&& e.address@ == address
    &&& e.record == record
    &&& e.vault_a == record.initializer_amount
    &&& e.vault_b == 0
}

/// What `initialize` does: result `r` turns `pre` into `post`.
pub open spec fn initialize_post(
    pre: Ledger,
    post: Ledger,
    accs: Initialize,
    seed: u64,
    initializer_amount: u64,
    taker_amount: u64,
    taker: Address,
    r: Result<(), ErrorCode>,
) -> bool {
    let src = accs.initializer_ata_a as int;
    match derived_authority(seed, pre.program_id@) {
        None => r == Err::<(), ErrorCode>(ErrorCode::InvalidSeeds) && post.same_as(&pre),
        Some((address, bump)) => if has_escrow(pre.escrows@, address) {
            r == Err::<(), ErrorCode>(ErrorCode::AlreadyInitialized) && post.same_as(&pre)
        } else if initializer_amount == 0 || taker_amount == 0 {
            r == Err::<(), ErrorCode>(ErrorCode::InvalidAmount) && post.same_as(&pre)
        } else if !(0 <= src < pre.accounts@.len() && pre.accounts@[src].owner@
            == accs.initializer@) {
            r == Err::<(), ErrorCode>(ErrorCode::InvalidAccount) && post.same_as(&pre)
        } else if pre.accounts@[src].amount < initializer_amount {
            r == Err::<(), ErrorCode>(ErrorCode::InsufficientFunds) && post.same_as(&pre)
        } else {
            &&& r == Ok::<(), ErrorCode>(())
            &&& post.program_id == pre.program_id
            &&& post.accounts@ == debit(pre.accounts@, src, initializer_amount)
            &&& post.escrows@.len() == pre.escrows@.len() + 1
            &&& post.escrows@.drop_last() == pre.escrows@
            &&& opened_entry(
                post.escrows@.last(),
                address,
                Escrow {
                    initializer: accs.initializer,
                    taker,
                    mint_a: pre.accounts@[src].mint,
                    mint_b: accs.mint_b,
                    initializer_amount,
                    taker_amount,
                    seed,
                    bump,
                },
            )
        },
    }
}

/// What `cancel` does: result `r` turns `pre` into `post`.
pub open spec fn cancel_post(pre: Ledger, post: Ledger, accs: Cancel, r: Result<(), ErrorCode>) -> bool {
    if !has_escrow(pre.escrows@, accs.escrow@) {
        r == Err::<(), ErrorCode>(ErrorCode::AccountNotInitialized) && post.same_as(&pre)
    } else {
        let i = escrow_index(pre.escrows@, accs.escrow@);
        let e = pre.escrows@[i];
        let a = accs.initializer_ata_a as int;
        let b = accs.taker_ata_b as int;
        if state_address(e.record.seed, e.record.bump, pre.program_id@) != Some(accs.escrow@) {
            r == Err::<(), ErrorCode>(ErrorCode::InvalidSeeds) && post.same_as(&pre)
        } else if accs.signer@ != e.record.initializer@ && accs.signer@ != e.record.taker@ {
            r == Err::<(), ErrorCode>(ErrorCode::Unauthorized) && post.same_as(&pre)
        } else if !account_ok(pre.accounts@, a, e.record.initializer@, e.record.mint_a@)
            || !account_ok(pre.accounts@, b, e.record.taker@, e.record.mint_b@) {
            r == Err::<(), ErrorCode>(ErrorCode::InvalidAccount) && post.same_as(&pre)
        } else if !credits_fit(pre.accounts@, a, e.vault_a, b, e.vault_b) {
            r == Err::<(), ErrorCode>(ErrorCode::Overflow) && post.same_as(&pre)
        } else {
            &&& r == Ok::<(), ErrorCode>(())
            &&& post.program_id == pre.program_id
            &&& post.accounts@ == credit(credit(pre.accounts@, a, e.vault_a), b, e.vault_b)
            &&& post.escrows@ == pre.escrows@.remove(i)
        }
    }
}

/// What `exchange` does: result `r` turns `pre` into `post`.
pub open spec fn exchange_post(pre: Ledger, post: Ledger, accs: Exchange, r: Result<(), ErrorCode>) -> bool {
    if !has_escrow(pre.escrows@, accs.escrow@) {
        r == Err::<(), ErrorCode>(ErrorCode::AccountNotInitialized) && post.same_as(&pre)
    } else {
        let i = escrow_index(pre.escrows@, accs.escrow@);
        let e = pre.escrows@[i];
        let a = accs.taker_ata_a as int;
        let b = accs.initializer_ata_b as int;
        if state_address(e.record.seed, e.record.bump, pre.program_id@) != Some(accs.escrow@) {
            r == Err::<(), ErrorCode>(ErrorCode::InvalidSeeds) && post.same_as(&pre)
        } else if !account_ok(pre.accounts@, a, e.record.taker@, e.record.mint_a@)
            || !account_ok(pre.accounts@, b, e.record.initializer@, e.record.mint_b@) {
            r == Err::<(), ErrorCode>(ErrorCode::InvalidAccount) && post.same_as(&pre)
        } else if e.vault_b < min_acceptable(e.record.taker_amount) {
            r == Err::<(), ErrorCode>(ErrorCode::InsufficientTakerTokens) && post.same_as(&pre)
        } else if !credits_fit(pre.accounts@, a, e.record.initializer_amount, b, e.vault_b) {
            r == Err::<(), ErrorCode>(ErrorCode::Overflow) && post.same_as(&pre)
        } else {
            &&& r == Ok::<(), ErrorCode>(())
            &&& post.program_id == pre.program_id
            &&& post.accounts@ == credit(
                credit(pre.accounts@, a, e.record.initializer_amount),
                b,
                e.vault_b,
            )
            &&& post.escrows@ == pre.escrows@.remove(i)
        }
    }
}

/// Account `i` exists and holds `mint` for `owner`.
fn account_matches(ledger: &Ledger, i: usize, owner: &Address, mint: &Address) -> (r: bool)
    ensures
        r == account_ok(ledger.accounts@, i as int, owner@, mint@),
{
    i < ledger.accounts.len() && ledger.accounts[i].owner.same_as(owner)
        && ledger.accounts[i].mint.same_as(mint)
}

/// Whether crediting `x` to account `i` and then `y` to account `j` stays
/// within `u64`.
fn credits_fit_exec(ledger: &Ledger, i: usize, x: u64, j: usize, y: u64) -> (r: bool)
    requires
        i < ledger.accounts@.len(),
        j < ledger.accounts@.len(),
    ensures
        r == credits_fit(ledger.accounts@, i as int, x, j as int, y),
{
    let first = ledger.accounts[i].amount;
    if first > u64::MAX - x {
        return false;
    }
    let second: u64 = if i == j {
        first + x
    } else {
        ledger.accounts[j].amount
    };
    second <= u64::MAX - y
}

/// Removing an escrow keeps the ledger well formed.
proof fn lemma_remove_keeps_wf(pre: Ledger, post: Ledger, i: int)
    requires
        pre.wf(),
        0 <= i < pre.escrows@.len(),
        post.program_id == pre.program_id,
        post.escrows@ == pre.escrows@.remove(i),
    ensures
        post.wf(),
{
    let s = pre.escrows@;
    let t = post.escrows@;
    assert forall|k: int| 0 <= k < t.len() implies #[trigger] t[k] == s[if k < i { k } else { k + 1 }] by {}
    assert forall|k: int| 0 <= k < t.len() implies derived_authority(
        (#[trigger] t[k]).record.seed,
        post.program_id@,
    ) == Some((t[k].address@, t[k].record.bump)) by {
        let _ = s[if k < i { k } else { k + 1 }];
    }
    assert forall|k: int| 0 <= k < t.len() implies (#[trigger] t[k]).vault_a == t[k].record.initializer_amount by {
        let _ = s[if k < i { k } else { k + 1 }];
    }
    assert forall|k: int, l: int|
        0 <= k < t.len() && 0 <= l < t.len() && k != l implies (#[trigger] t[k]).address@ != (#[trigger] t[l]).address@ by {
        let kk = if k < i { k } else { k + 1 };
        let ll = if l < i { l } else { l + 1 };
        assert(s[kk].address@ != s[ll].address@);
    }
}

/// Creates an escrow for `seed`: derives its address and canonical bump,
/// moves `initializer_amount` of asset A from the initializer's account into
/// vault A, and records the terms of the swap.
pub fn initialize(
    ledger: &mut Ledger,
    accs: &Initialize,
    seed: u64,
    initializer_amount: u64,
    taker_amount: u64,
    taker: Address,
) -> (r: Result<(), ErrorCode>)
    requires
        old(ledger).wf(),
    ensures
        final(ledger).wf(),
        initialize_post(
            *old(ledger),
            *final(ledger),
            *accs,
            seed,
            initializer_amount,
            taker_amount,
            taker,
            r,
        ),
{
    let (address, bump) = match derive_state_authority(seed, &ledger.program_id) {
        Some(d) => d,
        None => return Err(ErrorCode::InvalidSeeds),
    };
    if ledger.find_escrow(&address).is_some() {
        return Err(ErrorCode::AlreadyInitialized);
    }
    if initializer_amount == 0 || taker_amount == 0 {
        return Err(ErrorCode::InvalidAmount);
    }
    let src = accs.initializer_ata_a;
    if src >= ledger.accounts.len() || !ledger.accounts[src].owner.same_as(&accs.initializer) {
        return Err(ErrorCode::InvalidAccount);
    }
    if ledger.accounts[src].amount < initializer_amount {
        return Err(ErrorCode::InsufficientFunds);
    }
    let mint_a = ledger.accounts[src].mint;
    let ghost pre = *ledger;
    ledger.debit_account(src, initializer_amount);
    let record = Escrow {
        initializer: accs.initializer,
        taker,
        mint_a,
        mint_b: accs.mint_b,
        initializer_amount,
        taker_amount,
        seed,
        bump,
    };
    ledger.escrows.push(EscrowEntry { address, record, vault_a: initializer_amount, vault_b: 0 });
    proof {
        let s = pre.escrows@;
        let t = ledger.escrows@;
        assert(t.drop_last() =~= s);
        assert forall|k: int| 0 <= k < s.len() implies #[trigger] t[k] == s[k] by {}
        assert forall|k: int, l: int|
            0 <= k < t.len() && 0 <= l < t.len() && k != l implies (#[trigger] t[k]).address@
            != (#[trigger] t[l]).address@ by {
            if k < s.len() && l < s.len() {
                assert(s[k].address@ != s[l].address@);
            } else if k < s.len() {
                assert(s[k].address@ != address@);
            } else {
                assert(s[l].address@ != address@);
            }
        }
    }
    Ok(())
}

impl Cancel {
    /// Gives vault A's balance back to the initializer and vault B's to the
    /// taker (a vault with nothing in it is skipped), then closes both vaults
    /// and the record. The signer must be the initializer or the taker.
    pub fn refund_and_close_vaults(&self, ledger: &mut Ledger) -> (r: Result<(), ErrorCode>)
        requires
            old(ledger).wf(),
        ensures
            final(ledger).wf(),
            cancel_post(*old(ledger), *final(ledger), *self, r),
    {
        let i = match ledger.find_escrow(&self.escrow) {
            Some(i) => i,
            None => return Err(ErrorCode::AccountNotInitialized),
        };
        let e = ledger.escrows[i];
        if !verify_state_authority(&self.escrow, e.record.seed, e.record.bump, &ledger.program_id) {
            return Err(ErrorCode::InvalidSeeds);
        }
        if !self.signer.same_as(&e.record.initializer) && !self.signer.same_as(&e.record.taker) {
            return Err(ErrorCode::Unauthorized);
        }
        let a = self.initializer_ata_a;
        let b = self.taker_ata_b;
        if !account_matches(ledger, a, &e.record.initializer, &e.record.mint_a)
            || !account_matches(ledger, b, &e.record.taker, &e.record.mint_b) {
            return Err(ErrorCode::InvalidAccount);
        }
        if !credits_fit_exec(ledger, a, e.vault_a, b, e.vault_b) {
            return Err(ErrorCode::Overflow);
        }
        let ghost pre = *ledger;
        if e.vault_a > 0 {
            ledger.credit_account(a, e.vault_a);
        } else {
            assert(credit(pre.accounts@, a as int, 0) =~= pre.accounts@);
        }
        let ghost mid = ledger.accounts@;
        if e.vault_b > 0 {
            ledger.credit_account(b, e.vault_b);
        } else {
            assert(credit(mid, b as int, 0) =~= mid);
        }
        ledger.escrows.remove(i);
        proof {
            lemma_remove_keeps_wf(pre, *ledger, i as int);
        }
        Ok(())
    }
}

/// Cancels the escrow named by `accs`: see `Cancel::refund_and_close_vaults`.
pub fn cancel(ledger: &mut Ledger, accs: &Cancel) -> (r: Result<(), ErrorCode>)
    requires
        old(ledger).wf(),
    ensures
        final(ledger).wf(),
        cancel_post(*old(ledger), *final(ledger), *accs, r),
{
    accs.refund_and_close_vaults(ledger)
}

impl Exchange {
    /// Settles the swap: where vault B holds at least 95% of the requested
    /// amount (rounded up), the taker receives the locked amount of asset A
    /// and the initializer receives all of vault B, whatever it holds; then
    /// both vaults and the record are closed.
    pub fn execute_exchange(&self, ledger: &mut Ledger) -> (r: Result<(), ErrorCode>)
        requires
            old(ledger).wf(),
        ensures
            final(ledger).wf(),
            exchange_post(*old(ledger), *final(ledger), *self, r),
    {
        let i = match ledger.find_escrow(&self.escrow) {
            Some(i) => i,
            None => return Err(ErrorCode::AccountNotInitialized),
        };
        let e = ledger.escrows[i];
        if !verify_state_authority(&self.escrow, e.record.seed, e.record.bump, &ledger.program_id) {
            return Err(ErrorCode::InvalidSeeds);
        }
        let a = self.taker_ata_a;
        let b = self.initializer_ata_b;
        if !account_matches(ledger, a, &e.record.taker, &e.record.mint_a)
            || !account_matches(ledger, b, &e.record.initializer, &e.record.mint_b) {
            return Err(ErrorCode::InvalidAccount);
        }
        let min_acceptable_amount = min_acceptable_amount(e.record.taker_amount);
        if e.vault_b < min_acceptable_amount {
            return Err(ErrorCode::InsufficientTakerTokens);
        }
        if !credits_fit_exec(ledger, a, e.record.initializer_amount, b, e.vault_b) {
            return Err(ErrorCode::Overflow);
        }
        let ghost pre = *ledger;
        ledger.credit_account(a, e.record.initializer_amount);
        ledger.credit_account(b, e.vault_b);
        ledger.escrows.remove(i);
        proof {
            lemma_remove_keeps_wf(pre, *ledger, i as int);
        }
        Ok(())
    }
}

/// Settles the escrow named by `accs`: see `Exchange::execute_exchange`.
pub fn exchange(ledger: &mut Ledger, accs: &Exchange) -> (r: Result<(), ErrorCode>)
    requires
        old(ledger).wf(),
    ensures
        final(ledger).wf(),
        exchange_post(*old(ledger), *final(ledger), *accs, r),
{
    accs.execute_exchange(ledger)
}

/// What `fund_vault_b` does: result `r` turns `pre` into `post`.
pub open spec fn fund_vault_b_post(
    pre: Ledger,
    post: Ledger,
    owner: Address,
    escrow: Address,
    source: usize,
    amount: u64,
    r: Result<(), ErrorCode>,
) -> bool {
    if !has_escrow(pre.escrows@, escrow@) {
        r == Err::<(), ErrorCode>(ErrorCode::AccountNotInitialized) && post.same_as(&pre)
    } else {
        let i = escrow_index(pre.escrows@, escrow@);
        let e = pre.escrows@[i];
        if !account_ok(pre.accounts@, source as int, owner@, e.record.mint_b@) {
            r == Err::<(), ErrorCode>(ErrorCode::InvalidAccount) && post.same_as(&pre)
        } else if pre.accounts@[source as int].amount < amount {
            r == Err::<(), ErrorCode>(ErrorCode::InsufficientFunds) && post.same_as(&pre)
        } else if e.vault_b + amount > u64::MAX {
            r == Err::<(), ErrorCode>(ErrorCode::Overflow) && post.same_as(&pre)
        } else {
            &&& r == Ok::<(), ErrorCode>(())
            &&& post.program_id == pre.program_id
            &&& post.accounts@ == debit(pre.accounts@, source as int, amount)
            &&& post.escrows@ == pre.escrows@.update(
                i,
                EscrowEntry { vault_b: (e.vault_b + amount) as u64, ..e },
            )
        }
    }
}

/// Moves `amount` of asset B from `owner`'s account `source` into the vault B
/// of the escrow at `escrow`: how the taker funds the swap before it settles.
pub fn fund_vault_b(
    ledger: &mut Ledger,
    owner: &Address,
    escrow: &Address,
    source: usize,
    amount: u64,
) -> (r: Result<(), ErrorCode>)
    requires
        old(ledger).wf(),
    ensures
        final(ledger).wf(),
        fund_vault_b_post(*old(ledger), *final(ledger), *owner, *escrow, source, amount, r),
{
    let i = match ledger.find_escrow(escrow) {
        Some(i) => i,
        None => return Err(ErrorCode::AccountNotInitialized),
    };
    let e = ledger.escrows[i];
    if !account_matches(ledger, source, owner, &e.record.mint_b) {
        return Err(ErrorCode::InvalidAccount);
    }
    if ledger.accounts[source].amount < amount {
        return Err(ErrorCode::InsufficientFunds);
    }
    if e.vault_b > u64::MAX - amount {
        return Err(ErrorCode::Overflow);
    }
    let ghost pre = *ledger;
    ledger.debit_account(source, amount);
    let mut funded = e;
    funded.vault_b = e.vault_b + amount;
    ledger.escrows.set(i, funded);
    proof {
        let s = pre.escrows@;
        let t = ledger.escrows@;
        assert forall|k: int| 0 <= k < t.len() && k != i implies #[trigger] t[k] == s[k] by {}
        assert forall|k: int, l: int|
            0 <= k < t.len() && 0 <= l < t.len() && k != l implies (#[trigger] t[k]).address@
            != (#[trigger] t[l]).address@ by {
            assert(s[k].address@ != s[l].address@);
        }
    }
    Ok(())
}

} // verus!
