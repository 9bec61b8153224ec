//! Paying out an escrow when a rental ends: the lender's due payment and the
//! client's refund, moved directly between account balances.
use vstd::prelude::*;

verus! {

/// Lamport balances of the accounts that a settlement touches.
#[derive(Clone, Copy, Debug, PartialEq, Eq, Structural)]
pub struct Balances {
    pub escrow: u64,
    pub lender: u64,
    pub client: u64,
}

/// Amounts that a settlement moves out of the escrow.
#[derive(Clone, Copy, Debug, PartialEq, Eq, Structural)]
pub struct Settlement {
    /// To the lender, for the time used.
    pub payment: u64,
    /// Back to the client.
    pub refund: u64,
}

/// Whether the balances can take the settlement: the escrow holds both amounts
/// and neither receiving balance overflows.
pub open spec fn settlement_fits(b: Balances, s: Settlement) -> bool {
    &&& s.refund + s.payment <= b.escrow
    &&& b.lender + s.payment <= u64::MAX
    &&& b.client + s.refund <= u64::MAX
}

/// The balances after the settlement.
pub open spec fn settled(b: Balances, s: Settlement) -> Balances {
    Balances {
        escrow: (b.escrow - (s.refund + s.payment)) as u64,
        lender: (b.lender + s.payment) as u64,
        client: (b.client + s.refund) as u64,
    }
}

/// Total lamports held by the three accounts.
pub open spec fn total(b: Balances) -> int {
    b.escrow + b.lender + b.client
}

/// Moves the refund and the payment out of the escrow to the client and the lender.
pub fn move_lamports(b: &mut Balances, s: Settlement)
    requires
        settlement_fits(*old(b), s),
    ensures
        *final(b) == settled(*old(b), s),
{
    b.escrow = b.escrow - (s.refund + s.payment);
    b.lender = b.lender + s.payment;
    b.client = b.client + s.refund;
}

/// A settlement creates and destroys no lamports: what leaves the escrow is
/// what the lender and the client receive.
pub proof fn law_settlement_conserves(b: Balances, s: Settlement)
    requires
        settlement_fits(b, s),
    ensures
        total(settled(b, s)) == total(b),
        b.escrow - settled(b, s).escrow == s.payment + s.refund,
        settled(b, s).lender - b.lender == s.payment,
        settled(b, s).client - b.client == s.refund,
{
}

} // verus!
