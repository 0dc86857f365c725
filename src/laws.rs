//! Properties that relate several operations on the ledger.
use vstd::prelude::*;
use crate::authority::derived_authority;
use crate::error::ErrorCode;
use crate::instructions::{
    cancel_post, exchange_post, initialize_post, Cancel, Exchange, Initialize,
};
use crate::ledger::{account_ok, credit, debit, escrow_index, has_escrow, Ledger};

verus! {

/// Removing the escrow at position `i` leaves none at its address.
proof fn lemma_removed_is_gone(l: Ledger, i: int)
    requires
        l.wf(),
        0 <= i < l.escrows@.len(),
    ensures
        !has_escrow(l.escrows@.remove(i), l.escrows@[i].address@),
{
    let s = l.escrows@;
    let t = s.remove(i);
    if has_escrow(t, s[i].address@) {
        let k = choose|k: int| 0 <= k < t.len() && (#[trigger] t[k]).address@ == s[i].address@;
        let kk = if k < i { k } else { k + 1 };
        assert(t[k] == s[kk]);
        assert(s[kk].address@ != s[i].address@);
    }
}

/// On a fresh seed, with non-zero amounts and an account of the initializer
/// that holds enough of asset A, `initialize` succeeds: vault A holds the
/// locked amount, vault B is empty, the record keeps both amounts, and the
/// escrow is open at its derived address.
pub proof fn lemma_initialize_opens(
    l0: Ledger,
    l1: Ledger,
    accs: Initialize,
    seed: u64,
    initializer_amount: u64,
    taker_amount: u64,
    taker: crate::address::Address,
    r: Result<(), ErrorCode>,
)
    requires
        l0.wf(),
        derived_authority(seed, l0.program_id@) matches Some((addr, _)) && !has_escrow(
            l0.escrows@,
            addr,
        ),
        initializer_amount > 0,
        taker_amount > 0,
        account_ok(
            l0.accounts@,
            accs.initializer_ata_a as int,
            accs.initializer@,
            l0.accounts@[accs.initializer_ata_a as int].mint@,
        ),
        l0.accounts@[accs.initializer_ata_a as int].amount >= initializer_amount,
        initialize_post(l0, l1, accs, seed, initializer_amount, taker_amount, taker, r),
    ensures
        r == Ok::<(), ErrorCode>(()),
        derived_authority(seed, l0.program_id@) matches Some((addr, _)) && has_escrow(
            l1.escrows@,
            addr,
        ),
        l1.escrows@.last().vault_a == initializer_amount,
        l1.escrows@.last().vault_b == 0,
        l1.escrows@.last().record.initializer_amount == initializer_amount,
        l1.escrows@.last().record.taker_amount == taker_amount,
        l1.accounts@[accs.initializer_ata_a as int].amount == l0.accounts@[accs.initializer_ata_a as int].amount
            - initializer_amount,
{
    let n = l1.escrows@.len() - 1;
    assert(0 <= n < l1.escrows@.len() && l1.escrows@[n].address@ == l1.escrows@.last().address@);
}

/// A seed cannot be initialized again while its escrow is open: the second
/// `initialize` fails with `AlreadyInitialized` and changes nothing.
pub proof fn lemma_seed_reuse_refused(
    l0: Ledger,
    l1: Ledger,
    l2: Ledger,
    accs1: Initialize,
    accs2: Initialize,
    seed: u64,
    initializer_amount1: u64,
    taker_amount1: u64,
    taker1: crate::address::Address,
    initializer_amount2: u64,
    taker_amount2: u64,
    taker2: crate::address::Address,
    r2: Result<(), ErrorCode>,
)
    requires
        l0.wf(),
        initialize_post(l0, l1, accs1, seed, initializer_amount1, taker_amount1, taker1, Ok(())),
        initialize_post(l1, l2, accs2, seed, initializer_amount2, taker_amount2, taker2, r2),
    ensures
        r2 == Err::<(), ErrorCode>(ErrorCode::AlreadyInitialized),
        l2.same_as(&l1),
{
    let n = l1.escrows@.len() - 1;
    assert(0 <= n < l1.escrows@.len() && l1.escrows@[n].address@ == l1.escrows@.last().address@);
}

/// Cancelling a freshly initialized escrow that the taker never funded puts
/// every token account back as it was before `initialize`, and removes the
/// escrow with both of its vaults.
pub proof fn lemma_cancel_restores(
    l0: Ledger,
    l1: Ledger,
    l2: Ledger,
    accs: Initialize,
    seed: u64,
    initializer_amount: u64,
    taker_amount: u64,
    taker: crate::address::Address,
    c: Cancel,
)
    requires
        l0.wf(),
        l1.wf(),
        initialize_post(l0, l1, accs, seed, initializer_amount, taker_amount, taker, Ok(())),
        derived_authority(seed, l0.program_id@) matches Some((addr, _)) && c.escrow@ == addr,
        c.initializer_ata_a == accs.initializer_ata_a,
        cancel_post(l1, l2, c, Ok(())),
    ensures
        l2.accounts@ == l0.accounts@,
        l2.escrows@ == l0.escrows@,
        !has_escrow(l2.escrows@, c.escrow@),
{
    let n = l1.escrows@.len() - 1;
    l1.lemma_escrow_index(n);
    assert(escrow_index(l1.escrows@, c.escrow@) == n);
    let src = accs.initializer_ata_a as int;
    let s0 = l0.accounts@;
    let s1 = credit(debit(s0, src, initializer_amount), src, initializer_amount);
    assert(s1 =~= s0);
    assert(credit(s1, c.taker_ata_b as int, 0) =~= s1);
    assert(l1.escrows@.remove(n) =~= l1.escrows@.drop_last());
}

/// After a successful cancel the escrow is gone: a later cancel or exchange
/// of the same address fails with `AccountNotInitialized` and changes nothing.
pub proof fn lemma_closed_after_cancel(l0: Ledger, l1: Ledger, c: Cancel)
    requires
        l0.wf(),
        cancel_post(l0, l1, c, Ok(())),
    ensures
        !has_escrow(l1.escrows@, c.escrow@),
        forall|l2: Ledger, c2: Cancel, r: Result<(), ErrorCode>|
            c2.escrow@ == c.escrow@ && #[trigger] cancel_post(l1, l2, c2, r) ==> r == Err::<
                (),
                ErrorCode,
            >(ErrorCode::AccountNotInitialized) && l2.same_as(&l1),
        forall|l2: Ledger, x: Exchange, r: Result<(), ErrorCode>|
            x.escrow@ == c.escrow@ && #[trigger] exchange_post(l1, l2, x, r) ==> r == Err::<
                (),
                ErrorCode,
            >(ErrorCode::AccountNotInitialized) && l2.same_as(&l1),
{
    let i = escrow_index(l0.escrows@, c.escrow@);
    lemma_removed_is_gone(l0, i);
}

/// After a successful exchange the escrow is gone: a later cancel or exchange
/// of the same address fails with `AccountNotInitialized` and changes nothing.
pub proof fn lemma_closed_after_exchange(l0: Ledger, l1: Ledger, x: Exchange)
    requires
        l0.wf(),
        exchange_post(l0, l1, x, Ok(())),
    ensures
        !has_escrow(l1.escrows@, x.escrow@),
        forall|l2: Ledger, c2: Cancel, r: Result<(), ErrorCode>|
            c2.escrow@ == x.escrow@ && #[trigger] cancel_post(l1, l2, c2, r) ==> r == Err::<
                (),
                ErrorCode,
            >(ErrorCode::AccountNotInitialized) && l2.same_as(&l1),
        forall|l2: Ledger, x2: Exchange, r: Result<(), ErrorCode>|
            x2.escrow@ == x.escrow@ && #[trigger] exchange_post(l1, l2, x2, r) ==> r == Err::<
                (),
                ErrorCode,
            >(ErrorCode::AccountNotInitialized) && l2.same_as(&l1),
{
    let i = escrow_index(l0.escrows@, x.escrow@);
    lemma_removed_is_gone(l0, i);
}

} // verus!
