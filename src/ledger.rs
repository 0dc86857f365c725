//! The escrow program's view of the host ledger: token accounts, and the live
//! escrow records with their two custody vaults, keyed by derived address.
use vstd::prelude::*;
use crate::address::Address;
use crate::authority::{derived_authority, state_address};

verus! {

/// A token account: a balance of one asset held for one owner.
#[derive(Clone, Copy, Debug)]
pub struct TokenAccount {
    pub owner: Address,
    pub mint: Address,
    pub amount: u64,
}

/// The persisted escrow record.
#[derive(Clone, Copy, Debug)]
pub struct Escrow {
    pub initializer: Address,
    pub taker: Address,
    pub mint_a: Address,
    pub mint_b: Address,
    pub initializer_amount: u64,
    pub taker_amount: u64,
    pub seed: u64,
    pub bump: u8,
}

/// A live escrow: its record at its derived address, and the balances of its
/// two vaults (vault A holds `mint_a`, vault B holds `mint_b`).
#[derive(Clone, Copy, Debug)]
pub struct EscrowEntry {
    pub address: Address,
    pub record: Escrow,
    pub vault_a: u64,
    pub vault_b: u64,
}

/// The token accounts and live escrows that the escrow program `program_id`
/// works on.
pub struct Ledger {
    pub program_id: Address,
    pub accounts: Vec<TokenAccount>,
    pub escrows: Vec<EscrowEntry>,
}

/// Some escrow lives at `addr`.
pub open spec fn has_escrow(escrows: Seq<EscrowEntry>, addr: Seq<u8>) -> bool {
    exists|i: int| 0 <= i < escrows.len() && (#[trigger] escrows[i]).address@ == addr
}

/// The position of the escrow that lives at `addr`.
pub open spec fn escrow_index(escrows: Seq<EscrowEntry>, addr: Seq<u8>) -> int {
    choose|i: int| 0 <= i < escrows.len() && (#[trigger] escrows[i]).address@ == addr
}

/// Account `i` exists and holds `mint` for `owner`.
pub open spec fn account_ok(accounts: Seq<TokenAccount>, i: int, owner: Seq<u8>, mint: Seq<u8>) -> bool {
    0 <= i < accounts.len() && accounts[i].owner@ == owner && accounts[i].mint@ == mint
}

/// Account `i` after `amt` is added to it.
pub open spec fn credit(accounts: Seq<TokenAccount>, i: int, amt: u64) -> Seq<TokenAccount> {
    accounts.update(i, TokenAccount { amount: (accounts[i].amount + amt) as u64, ..accounts[i] })
}

/// Account `i` after `amt` is taken from it.
pub open spec fn debit(accounts: Seq<TokenAccount>, i: int, amt: u64) -> Seq<TokenAccount> {
    accounts.update(i, TokenAccount { amount: (accounts[i].amount - amt) as u64, ..accounts[i] })
}

/// Crediting `a` to account `i` and then `b` to account `j` stays within `u64`.
pub open spec fn credits_fit(accounts: Seq<TokenAccount>, i: int, a: u64, j: int, b: u64) -> bool {
    &&& accounts[i].amount + a <= u64::MAX
    &&& credit(accounts, i, a)[j].amount + b <= u64::MAX
}

impl Ledger {
    /// Every live escrow sits at the address that its seed and canonical
    /// bump derive, no two share an address, and vault A holds exactly the
    /// amount that the initializer locked.
    pub open spec fn wf(&self) -> bool {
        &&& forall|i: int|
            0 <= i < self.escrows@.len() ==> derived_authority(
                (#[trigger] self.escrows@[i]).record.seed,
                self.program_id@,
            ) == Some((self.escrows@[i].address@, self.escrows@[i].record.bump))
        &&& forall|i: int|
            0 <= i < self.escrows@.len() ==> (#[trigger] self.escrows@[i]).vault_a
                == self.escrows@[i].record.initializer_amount
        &&& forall|i: int, j: int|
            0 <= i < self.escrows@.len() && 0 <= j < self.escrows@.len() && i != j
                ==> (#[trigger] self.escrows@[i]).address@ != (#[trigger] self.escrows@[j]).address@
    }

    /// The two ledgers hold the same program, accounts and escrows.
    pub open spec fn same_as(&self, other: &Ledger) -> bool {
        &&& self.program_id == other.program_id
        &&& self.accounts@ == other.accounts@
        &&& self.escrows@ == other.escrows@
    }

    /// An empty ledger of the program `program_id`.
    pub fn new(program_id: Address) -> (r: Ledger)
        ensures
            r.wf(),
            r.program_id == program_id,
            r.accounts@.len() == 0,
            r.escrows@.len() == 0,
    {
        Ledger { program_id, accounts: Vec::new(), escrows: Vec::new() }
    }

    /// Adds a token account holding `amount` of `mint` for `owner`, and
    /// returns its position.
    pub fn open_account(&mut self, owner: Address, mint: Address, amount: u64) -> (r: usize)
        requires
            old(self).wf(),
        ensures
            final(self).wf(),
            r == old(self).accounts@.len(),
            final(self).accounts@ == old(self).accounts@.push(
                TokenAccount { owner, mint, amount },
            ),
            final(self).escrows@ == old(self).escrows@,
            final(self).program_id == old(self).program_id,
    {
        let r = self.accounts.len();
        self.accounts.push(TokenAccount { owner, mint, amount });
        r
    }

    /// The balance of account `i`, if it exists.
    pub fn balance(&self, i: usize) -> (r: Option<u64>)
        ensures
            i < self.accounts@.len() ==> r == Some(self.accounts@[i as int].amount),
            i >= self.accounts@.len() ==> r is None,
    {
        if i < self.accounts.len() {
            Some(self.accounts[i].amount)
        } else {
            None
        }
    }

    /// The position of the escrow that lives at `address`, if any.
    pub fn find_escrow(&self, address: &Address) -> (r: Option<usize>)
        requires
            self.wf(),
        ensures
            r matches Some(i) ==> has_escrow(self.escrows@, address@) && i == escrow_index(
                self.escrows@,
                address@,
            ) && i < self.escrows@.len(),
            r is None ==> !has_escrow(self.escrows@, address@),
    {
        let mut i: usize = 0;
        while i < self.escrows.len()
            invariant
                self.wf(),
                0 <= i <= self.escrows@.len(),
                forall|k: int| 0 <= k < i ==> (#[trigger] self.escrows@[k]).address@ != address@,
            decreases self.escrows@.len() - i,
        {
            if self.escrows[i].address.same_as(address) {
                proof {
                    self.lemma_escrow_index(i as int);
                }
                return Some(i);
            }
            i = i + 1;
        }
        None
    }

    /// The escrow that lives at `address`, if any.
    pub fn escrow(&self, address: &Address) -> (r: Option<EscrowEntry>)
        requires
            self.wf(),
        ensures
            r matches Some(e) ==> has_escrow(self.escrows@, address@) && e == self.escrows@[escrow_index(
                self.escrows@,
                address@,
            )],
            r is None ==> !has_escrow(self.escrows@, address@),
    {
        match self.find_escrow(address) {
            Some(i) => Some(self.escrows[i]),
            None => None,
        }
    }

    /// The escrow at position `i` is the one `escrow_index` names for its
    /// address.
    pub proof fn lemma_escrow_index(&self, i: int)
        requires
            self.wf(),
            0 <= i < self.escrows@.len(),
        ensures
            has_escrow(self.escrows@, self.escrows@[i].address@),
            escrow_index(self.escrows@, self.escrows@[i].address@) == i,
    {
        let addr = self.escrows@[i].address@;
        assert(has_escrow(self.escrows@, addr));
        let j = escrow_index(self.escrows@, addr);
        if j != i {
            assert(self.escrows@[j].address@ != self.escrows@[i].address@);
        }
    }

    /// Adds `amt` to account `i`.
    pub(crate) fn credit_account(&mut self, i: usize, amt: u64)
        requires
            i < old(self).accounts@.len(),
            old(self).accounts@[i as int].amount + amt <= u64::MAX,
        ensures
            final(self).accounts@ == credit(old(self).accounts@, i as int, amt),
            final(self).escrows@ == old(self).escrows@,
            final(self).program_id == old(self).program_id,
    {
        let mut a = self.accounts[i];
        a.amount = a.amount + amt;
        self.accounts.set(i, a);
    }

    /// Takes `amt` from account `i`.
    pub(crate) fn debit_account(&mut self, i: usize, amt: u64)
        requires
            i < old(self).accounts@.len(),
            old(self).accounts@[i as int].amount >= amt,
        ensures
            final(self).accounts@ == debit(old(self).accounts@, i as int, amt),
            final(self).escrows@ == old(self).escrows@,
            final(self).program_id == old(self).program_id,
    {
        let mut a = self.accounts[i];
        a.amount = a.amount - amt;
        self.accounts.set(i, a);
    }
}

} // verus!
