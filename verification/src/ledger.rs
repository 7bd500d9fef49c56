//! A model of the ledger engine the node loop owns: account balances, a
//! running flag with its setter, and records of the transfer and mining
//! requests that reached the engine.
//!
//! The node loop needs only this behavioral surface of the engine: account
//! creation is visible to later balance reads, a read of an unknown account
//! reports not-found, and every transfer or mining call is accounted for.
//! What mining does to blocks, and how transfers settle, is the engine's own
//! affair and is deliberately left open here: the ghost records state exactly
//! which calls arrived, nothing of their deeper effect.

use vstd::prelude::*;

verus! {

/// The abstract state of the engine.
pub struct LedgerView {
    /// Account entries in order of creation; the latest entry for an id is
    /// its balance.
    pub accounts: Seq<(u64, u128)>,
    /// Whether the engine has been told it is running.
    pub running: bool,
    /// Every transfer request that reached the engine, in order.
    pub transfers: Seq<(u64, u64, u128)>,
    /// How many mining calls reached the engine.
    pub mined: nat,
}

/// The balance of `id` in `s`: the latest entry wins, `None` when no entry
/// for `id` exists.
pub open spec fn lookup(s: Seq<(u64, u128)>, id: u64) -> Option<u128>
    decreases s.len(),
{
    if s.len() == 0 {
        None
    } else if s.last().0 == id {
        Some(s.last().1)
    } else {
        lookup(s.drop_last(), id)
    }
}

/// The ledger engine handle. The node loop owns it exclusively.
pub struct Ledger {
    accounts: Vec<(u64, u128)>,
    running: bool,
    transfers: Ghost<Seq<(u64, u64, u128)>>,
    mined: Ghost<nat>,
}

impl View for Ledger {
    type V = LedgerView;

    closed spec fn view(&self) -> LedgerView {
        LedgerView {
            accounts: self.accounts@,
            running: self.running,
            transfers: self.transfers@,
            mined: self.mined@,
        }
    }
}

fn lookup_from(v: &Vec<(u64, u128)>, i: usize, id: u64) -> (r: Option<u128>)
    requires
        i <= v.len(),
    ensures
        r == lookup(v@.take(i as int), id),
    decreases i,
{
    if i == 0 {
        proof {
            assert(v@.take(0).len() == 0);
        }
        None
    } else {
        let (aid, bal) = v[i - 1];
        proof {
            assert(v@.take(i as int).last() == v@[i - 1]);
            assert(v@.take(i as int).drop_last() =~= v@.take(i - 1));
        }
        if aid == id {
            Some(bal)
        } else {
            lookup_from(v, i - 1, id)
        }
    }
}

impl Ledger {
    /// A fresh engine: no accounts, not running, nothing recorded.
    pub fn new() -> (l: Ledger)
        ensures
            l@.accounts =~= Seq::<(u64, u128)>::empty(),
            !l@.running,
            l@.transfers =~= Seq::<(u64, u64, u128)>::empty(),
            l@.mined == 0,
    {
        Ledger {
            accounts: Vec::new(),
            running: false,
            transfers: Ghost(Seq::empty()),
            mined: Ghost(0),
        }
    }

    /// Whether the engine has been told it is running.
    pub fn running(&self) -> (r: bool)
        ensures
            r == self@.running,
    {
        self.running
    }

    /// Sets the running flag and changes nothing else.
    pub fn set_running(&mut self, r: bool)
        ensures
            final(self)@ == (LedgerView { running: r, ..old(self)@ }),
    {
        self.running = r;
    }

    /// Creates (or re-creates) account `id` with balance `funds`: from now
    /// on a read of `id` sees `funds`, and every other account keeps the
    /// balance it had.
    pub fn create_account(&mut self, id: u64, funds: u128)
        ensures
            final(self)@ == (LedgerView {
                accounts: old(self)@.accounts.push((id, funds)),
                ..old(self)@
            }),
            forall|q: u64|
                lookup(final(self)@.accounts, q) == if q == id {
                    Some(funds)
                } else {
                    lookup(old(self)@.accounts, q)
                },
    {
        self.accounts.push((id, funds));
        proof {
            assert forall|q: u64|
                lookup(self@.accounts, q) == if q == id {
                    Some(funds)
                } else {
                    lookup(old(self)@.accounts, q)
                } by {
                assert(self@.accounts.drop_last() =~= old(self)@.accounts);
            }
        }
    }

    /// Hands a transfer request to the engine. The request is recorded; how
    /// the engine settles it is outside this model, so balances are stated
    /// unchanged here.
    pub fn transfer(&mut self, from: u64, to: u64, funds: u128)
        ensures
            final(self)@ == (LedgerView {
                transfers: old(self)@.transfers.push((from, to, funds)),
                ..old(self)@
            }),
    {
        proof {
            self.transfers@ = self.transfers@.push((from, to, funds));
        }
    }

    /// The balance of `id`, or `None` when the account was never created.
    pub fn read_balance(&self, id: u64) -> (r: Option<u128>)
        ensures
            r == lookup(self@.accounts, id),
    {
        let r = lookup_from(&self.accounts, self.accounts.len(), id);
        proof {
            assert(self.accounts@.take(self.accounts@.len() as int) =~= self.accounts@);
        }
        r
    }

    /// Hands a mining call to the engine; only the count of calls is part
    /// of this model.
    pub fn mine(&mut self)
        ensures
            final(self)@ == (LedgerView { mined: old(self)@.mined + 1, ..old(self)@ }),
    {
        proof {
            self.mined@ = self.mined@ + 1;
        }
    }
}

} // verus!
