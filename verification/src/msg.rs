use vstd::prelude::*;

use crate::state::{TicketNFT, UserTicketInfo};

verus! {

/// One unit of attached funds: a denomination and a non-negative
/// 128-bit amount.
#[derive(Debug, Clone, PartialEq, Eq)]
pub struct Coin {
    pub denom: String,
    pub amount: u128,
}

/// The instantiation payload. `owner` is the operator identity recorded
/// as a label inside the platform singleton; the authority check uses
/// the capability slot, which instantiation sets to the actual caller.
#[derive(Debug, Clone, PartialEq, Eq)]
pub struct InstantiateMsg {
    pub owner: String,
    pub sig_verify_pk: String,
    pub platform_fee: u64,
    pub max_ticket_per_person: u64,
}

/// The command surface: one tagged variant per submitted transaction.
#[derive(Debug, Clone, PartialEq, Eq)]
pub enum ExecuteMsg {
    BuyTicket { ticket_id: u64, amount: Vec<Coin>, ticket_type: String },
    /// `ticket_owner` is advisory metadata only: the caller is the
    /// identity that matters for a claim.
    ClaimTicket { ticket_owner: String, ticket_id: u64, ticket_type: String },
    SetVerifyPkMsg { verify_pk_str: String },
    BlockUserMsg { user_addr: String, description: String },
    UnblockUserMsg { user_addr: String },
    ChangeOwnerMsg { new_owner: String, ticket_id: u64, ticket_type: String },
}

/// The environment of one invocation: the part the state machine reads,
/// the address of the contract itself.
#[derive(Debug, Clone, PartialEq, Eq)]
pub struct Env {
    pub contract_address: String,
}

/// Caller identity and the funds attached to the submitted transaction.
#[derive(Debug, Clone, PartialEq, Eq)]
pub struct MessageInfo {
    pub sender: String,
    pub funds: Vec<Coin>,
}

/// The read-only query surface.
#[derive(Debug, Clone, PartialEq, Eq)]
pub enum QueryMsg {
    GetTicketInfo { ticket_id: u64 },
    GetUserTickets { user: String },
}

#[derive(Debug, Clone, PartialEq, Eq)]
pub struct TicketInfoResponse {
    pub ticket: TicketNFT,
}

#[derive(Debug, Clone, PartialEq, Eq)]
pub struct UserTicketsResponse {
    pub tickets: Vec<UserTicketInfo>,
}

#[derive(Debug, Clone, PartialEq, Eq)]
pub struct BlockUserResponse {
    pub blocked: bool,
    pub user_addr: String,
    pub description: String,
}

#[derive(Debug, Clone, PartialEq, Eq)]
pub struct ClaimTicketResponse {
    pub claim_status: bool,
}

/// Sum of the amounts of a list of coins, as an unbounded integer; the
/// executable sum is only defined where this fits in a `u128`.
pub open spec fn total_payment(cs: Seq<Coin>) -> int
    decreases cs.len(),
{
    if cs.len() == 0 {
        0
    } else {
        total_payment(cs.drop_last()) + cs.last().amount
    }
}

/// Every prefix of a coin list sums to at most the whole list's total.
pub proof fn lemma_total_payment_prefix(cs: Seq<Coin>, i: int)
    requires
        0 <= i <= cs.len(),
    ensures
        0 <= total_payment(cs.take(i)) <= total_payment(cs),
    decreases cs.len() - i,
{
    if i == cs.len() {
        assert(cs.take(i) =~= cs);
        lemma_total_payment_nonneg(cs);
    } else {
        lemma_total_payment_prefix(cs, i + 1);
        lemma_total_payment_nonneg(cs.take(i));
        assert(cs.take(i + 1).drop_last() =~= cs.take(i));
        assert(cs.take(i + 1).last() == cs[i]);
    }
}

pub proof fn lemma_total_payment_nonneg(cs: Seq<Coin>)
    ensures
        0 <= total_payment(cs),
    decreases cs.len(),
{
    if cs.len() > 0 {
        lemma_total_payment_nonneg(cs.drop_last());
    }
}

} // verus!
