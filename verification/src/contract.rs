use vstd::prelude::*;

use crate::decimal::{dec_rep, dec_string_u128, dec_string_u64};
use crate::error::ContractError;
use crate::msg::{
    lemma_total_payment_prefix, total_payment, Coin, Env, ExecuteMsg, InstantiateMsg, MessageInfo,
};
use crate::response::{attr_is, OutgoingMsg, Response};
use crate::state::{
    block_idx, find_owned, find_ticket, holdings_idx, is_blocked, lemma_block_idx_from,
    lemma_find_owned_from, lemma_find_ticket_from, lemma_holdings_idx_from,
    owned_count, ticket_matches, ticket_owned_matches,
    BmtPlatformDetails, State, TicketNFT, Tickets, UserTicketInfo,
};

verus! {

/// The fixed minimum a purchase must pay, in base units.
pub const TICKET_COST: u128 = 10;

/// Is `caller` the holder of the owner capability?
pub open spec fn is_owner(s: State, caller: Seq<char>) -> bool {
    s.owner_cap@ == caller
}

// ---------------------------------------------------------------------------
// Executable lookups, each tied to its specification-level index function.
// ---------------------------------------------------------------------------

fn find_ticket_pos(ts: &Vec<TicketNFT>, tid: u64, ty: &String) -> (r: Option<usize>)
    ensures
        match r {
            Some(i) => find_ticket(ts@, tid, ty@) == i && i < ts@.len(),
            None => find_ticket(ts@, tid, ty@) == -1,
        },
{
    let mut i: usize = 0;
    while i < ts.len()
        invariant
            i <= ts@.len(),
            forall|k: int| 0 <= k < i ==> !ticket_matches(#[trigger] ts@[k], tid, ty@),
        decreases ts@.len() - i,
    {
        if ts[i].ticket_id == tid && ts[i].ticket_type == *ty {
            proof {
                lemma_find_ticket_from(ts@, tid, ty@, 0);
            }
            return Some(i);
        }
        i += 1;
    }
    proof {
        lemma_find_ticket_from(ts@, tid, ty@, 0);
    }
    None
}

fn find_owned_pos(ts: &Vec<TicketNFT>, tid: u64, owner: &String) -> (r: Option<usize>)
    ensures
        match r {
            Some(i) => find_owned(ts@, tid, owner@) == i && i < ts@.len(),
            None => find_owned(ts@, tid, owner@) == -1,
        },
{
    let mut i: usize = 0;
    while i < ts.len()
        invariant
            i <= ts@.len(),
            forall|k: int| 0 <= k < i ==> !ticket_owned_matches(#[trigger] ts@[k], tid, owner@),
        decreases ts@.len() - i,
    {
        if ts[i].ticket_id == tid && ts[i].owner == *owner {
            proof {
                lemma_find_owned_from(ts@, tid, owner@, 0);
            }
            return Some(i);
        }
        i += 1;
    }
    proof {
        lemma_find_owned_from(ts@, tid, owner@, 0);
    }
    None
}

fn holdings_pos(h: &Vec<UserTicketInfo>, a: &String) -> (r: Option<usize>)
    ensures
        match r {
            Some(i) => holdings_idx(h@, a@) == i && i < h@.len(),
            None => holdings_idx(h@, a@) == -1,
        },
{
    let mut i: usize = 0;
    while i < h.len()
        invariant
            i <= h@.len(),
            forall|k: int| 0 <= k < i ==> (#[trigger] h@[k]).ticket_owner@ != a@,
        decreases h@.len() - i,
    {
        if h[i].ticket_owner == *a {
            proof {
                lemma_holdings_idx_from(h@, a@, 0);
            }
            return Some(i);
        }
        i += 1;
    }
    proof {
        lemma_holdings_idx_from(h@, a@, 0);
    }
    None
}

fn block_pos(b: &Vec<String>, a: &String) -> (r: Option<usize>)
    ensures
        match r {
            Some(i) => block_idx(b@, a@) == i && i < b@.len(),
            None => block_idx(b@, a@) == -1,
        },
{
    let mut i: usize = 0;
    while i < b.len()
        invariant
            i <= b@.len(),
            forall|k: int| 0 <= k < i ==> (#[trigger] b@[k])@ != a@,
        decreases b@.len() - i,
    {
        if b[i] == *a {
            proof {
                lemma_block_idx_from(b@, a@, 0);
            }
            return Some(i);
        }
        i += 1;
    }
    proof {
        lemma_block_idx_from(b@, a@, 0);
    }
    None
}

// ---------------------------------------------------------------------------
// Field-wise "everything else unchanged" predicates.
// ---------------------------------------------------------------------------

/// The platform singleton, unchanged except for `profit`.
pub open spec fn platform_eq_except_profit(a: BmtPlatformDetails, b: BmtPlatformDetails) -> bool {
    &&& b.id == a.id
    &&& b.owner == a.owner
    &&& b.sig_verify_pk == a.sig_verify_pk
    &&& b.platform_fee == a.platform_fee
    &&& b.user_tickets == a.user_tickets
    &&& b.current_ticket_index == a.current_ticket_index
    &&& b.claim_nonce == a.claim_nonce
    &&& b.max_ticket_per_person == a.max_ticket_per_person
}

/// The platform singleton, unchanged except for `sig_verify_pk`.
pub open spec fn platform_eq_except_pk(a: BmtPlatformDetails, b: BmtPlatformDetails) -> bool {
    &&& b.id == a.id
    &&& b.owner == a.owner
    &&& b.platform_fee == a.platform_fee
    &&& b.profit == a.profit
    &&& b.user_tickets == a.user_tickets
    &&& b.current_ticket_index == a.current_ticket_index
    &&& b.claim_nonce == a.claim_nonce
    &&& b.max_ticket_per_person == a.max_ticket_per_person
}

// ---------------------------------------------------------------------------
// Instantiation.
// ---------------------------------------------------------------------------

/// What instantiation builds: a fresh platform singleton labelled with
/// the payload, the owner capability set to the instantiating caller,
/// and every collection empty.
pub open spec fn instantiate_state(st: State, caller: Seq<char>, msg: InstantiateMsg) -> bool {
    &&& st.platform.id == 1
    &&& st.platform.owner == msg.owner
    &&& st.platform.sig_verify_pk == msg.sig_verify_pk
    &&& st.platform.platform_fee == msg.platform_fee
    &&& st.platform.profit == 0
    &&& st.platform.user_tickets@.len() == 0
    &&& st.platform.current_ticket_index == 0
    &&& st.platform.claim_nonce == 0
    &&& st.platform.max_ticket_per_person == msg.max_ticket_per_person
    &&& st.owner_cap@ == caller
    &&& st.registry.tickets@.len() == 0
    &&& st.holdings@.len() == 0
    &&& st.blocklist@.len() == 0
}

/// Creates the platform. The caller becomes the owner-capability
/// holder; the `owner` field of the payload is stored as a label only.
pub fn instantiate(sender: &String, msg: InstantiateMsg) -> (r: (State, Response))
    ensures
        instantiate_state(r.0, sender@, msg),
        r.0.wf(),
        r.1.messages@.len() == 0,
        r.1.data is None,
        r.1.attributes@.len() == 1,
        attr_is(r.1.attributes@[0], "method"@, "instantiate"@),
{
    let platform = BmtPlatformDetails {
        id: 1,
        owner: msg.owner,
        sig_verify_pk: msg.sig_verify_pk,
        platform_fee: msg.platform_fee,
        profit: 0,
        user_tickets: Vec::new(),
        current_ticket_index: 0,
        claim_nonce: 0,
        max_ticket_per_person: msg.max_ticket_per_person,
    };
    let state = State {
        platform,
        owner_cap: sender.clone(),
        registry: Tickets { tickets: Vec::new() },
        holdings: Vec::new(),
        blocklist: Vec::new(),
    };
    let mut resp = Response::new();
    resp.add_attribute("method", "instantiate".to_owned());
    (state, resp)
}

// ---------------------------------------------------------------------------
// SetVerifyPk.
// ---------------------------------------------------------------------------

/// Why `set_verify_pk` fails, if it does.
pub open spec fn set_pk_err(s: State, caller: Seq<char>) -> Option<ContractError> {
    if !is_owner(s, caller) {
        Some(ContractError::Unauthorized {})
    } else {
        None
    }
}

/// The state after a successful `set_verify_pk`.
pub open spec fn set_pk_ok_state(pre: State, post: State, pk: Seq<char>) -> bool {
    &&& post.platform.sig_verify_pk@ == pk
    &&& platform_eq_except_pk(pre.platform, post.platform)
    &&& post.owner_cap == pre.owner_cap
    &&& post.registry == pre.registry
    &&& post.holdings == pre.holdings
    &&& post.blocklist == pre.blocklist
}

/// Owner-only: replaces the signature-verification public key. No
/// format validation happens at this layer.
pub fn set_verify_pk(state: &mut State, sender: &String, verify_pk_str: String) -> (r: Result<
    Response,
    ContractError,
>)
    requires
        old(state).wf(),
    ensures
        final(state).wf(),
        set_pk_spec(*old(state), *final(state), sender@, verify_pk_str@, r),
{
    if *sender != state.owner_cap {
        return Err(ContractError::Unauthorized {});
    }
    state.platform.sig_verify_pk = verify_pk_str;
    let mut resp = Response::new();
    resp.add_attribute("method", "set_verify_pk".to_owned());
    Ok(resp)
}

// ---------------------------------------------------------------------------
// BlockUser / UnblockUser.
// ---------------------------------------------------------------------------

/// Why `block_user` fails, if it does.
pub open spec fn block_err(s: State, caller: Seq<char>, addr: Seq<char>) -> Option<ContractError> {
    if !is_owner(s, caller) {
        Some(ContractError::Unauthorized {})
    } else if block_idx(s.blocklist@, addr) >= 0 {
        Some(ContractError::UserAlreadyBlackListed {})
    } else {
        None
    }
}

/// The state after a successful `block_user`: the address appended to
/// the blocklist, everything else untouched.
pub open spec fn block_ok_state(pre: State, post: State, addr: Seq<char>) -> bool {
    &&& post.platform == pre.platform
    &&& post.owner_cap == pre.owner_cap
    &&& post.registry == pre.registry
    &&& post.holdings == pre.holdings
    &&& post.blocklist@.len() == pre.blocklist@.len() + 1
    &&& forall|k: int|
        0 <= k < pre.blocklist@.len() ==> #[trigger] post.blocklist@[k] == pre.blocklist@[k]
    &&& post.blocklist@.last()@ == addr
}

/// Owner-only: bars `user_addr` from user-facing commands. Fails if it
/// is already barred.
pub fn block_user(state: &mut State, sender: &String, user_addr: &String, description: String) -> (r:
    Result<Response, ContractError>)
    requires
        old(state).wf(),
    ensures
        final(state).wf(),
        block_spec(*old(state), *final(state), sender@, user_addr@, description@, r),
{
    if *sender != state.owner_cap {
        return Err(ContractError::Unauthorized {});
    }
    if block_pos(&state.blocklist, user_addr).is_some() {
        return Err(ContractError::UserAlreadyBlackListed {});
    }
    proof {
        lemma_block_idx_from(state.blocklist@, user_addr@, 0);
    }
    state.blocklist.push(user_addr.clone());
    let mut resp = Response::new();
    resp.add_attribute("method", "block_user".to_owned());
    resp.add_attribute("user", user_addr.clone());
    resp.add_attribute("status", "blocked".to_owned());
    resp.add_attribute("description", description);
    Ok(resp)
}

/// Why `unblock_user` fails, if it does.
pub open spec fn unblock_err(s: State, caller: Seq<char>, addr: Seq<char>) -> Option<
    ContractError,
> {
    if !is_owner(s, caller) {
        Some(ContractError::Unauthorized {})
    } else if block_idx(s.blocklist@, addr) < 0 {
        Some(ContractError::UserNotBlocked {})
    } else {
        None
    }
}

/// The state after a successful `unblock_user`: the address's entry
/// removed from the blocklist, everything else untouched.
pub open spec fn unblock_ok_state(pre: State, post: State, addr: Seq<char>) -> bool {
    &&& post.platform == pre.platform
    &&& post.owner_cap == pre.owner_cap
    &&& post.registry == pre.registry
    &&& post.holdings == pre.holdings
    &&& post.blocklist@ == pre.blocklist@.remove(block_idx(pre.blocklist@, addr))
}

/// Owner-only: removes `user_addr` from the blocklist. Fails if it is
/// not blocked.
pub fn unblock_user(state: &mut State, sender: &String, user_addr: &String) -> (r: Result<
    Response,
    ContractError,
>)
    requires
        old(state).wf(),
    ensures
        final(state).wf(),
        unblock_spec(*old(state), *final(state), sender@, user_addr@, r),
{
    if *sender != state.owner_cap {
        return Err(ContractError::Unauthorized {});
    }
    let pos = block_pos(&state.blocklist, user_addr);
    match pos {
        None => Err(ContractError::UserNotBlocked {}),
        Some(i) => {
            let ghost pre = state.blocklist@;
            state.blocklist.remove(i);
            proof {
                assert forall|p: int, q: int|
                    0 <= p < q < state.blocklist@.len() implies (#[trigger] state.blocklist@[p])@
                    != (#[trigger] state.blocklist@[q])@ by {
                    assert(state.blocklist@[p] == if p < i {
                        pre[p]
                    } else {
                        pre[p + 1]
                    });
                    assert(state.blocklist@[q] == if q < i {
                        pre[q]
                    } else {
                        pre[q + 1]
                    });
                }
            }
            let mut resp = Response::new();
            resp.add_attribute("method", "Unblock_user".to_owned());
            resp.add_attribute("user", user_addr.clone());
            Ok(resp)
        },
    }
}

} // verus!

verus! {

// ---------------------------------------------------------------------------
// ClaimTicket.
// ---------------------------------------------------------------------------

/// Why `claim_ticket` fails, if it does.
pub open spec fn claim_err(s: State, caller: Seq<char>, tid: u64, ty: Seq<char>) -> Option<
    ContractError,
> {
    if is_blocked(s, caller) {
        Some(ContractError::UserBlackListed {})
    } else if find_ticket(s.registry.tickets@, tid, ty) < 0 {
        Some(ContractError::InvalidTicketType {})
    } else if s.registry.tickets@[find_ticket(s.registry.tickets@, tid, ty)].ticket_claimed {
        Some(ContractError::InvalidClaimableTicket {})
    } else {
        None
    }
}

/// The state after a successful claim: the first matching registry entry
/// gets its claim flag set, everything else is untouched.
pub open spec fn claim_ok_state(pre: State, post: State, tid: u64, ty: Seq<char>) -> bool {
    let i = find_ticket(pre.registry.tickets@, tid, ty);
    &&& post.registry.tickets@ == pre.registry.tickets@.update(
        i,
        TicketNFT { ticket_claimed: true, ..pre.registry.tickets@[i] },
    )
    &&& post.platform == pre.platform
    &&& post.owner_cap == pre.owner_cap
    &&& post.holdings == pre.holdings
    &&& post.blocklist == pre.blocklist
}

/// Marks the first registry entry matching `(ticket_id, ticket_type)` as
/// claimed. The caller is the identity that matters; a declared ticket
/// owner in the command is advisory only. A second claim of the same
/// ticket fails; it does not silently succeed.
pub fn claim_ticket(state: &mut State, sender: &String, ticket_id: u64, ticket_type: &String) -> (r:
    Result<Response, ContractError>)
    requires
        old(state).wf(),
    ensures
        final(state).wf(),
        claim_spec(*old(state), *final(state), sender@, ticket_id, ticket_type@, r),
{
    if block_pos(&state.blocklist, sender).is_some() {
        return Err(ContractError::UserBlackListed {});
    }
    let pos = find_ticket_pos(&state.registry.tickets, ticket_id, ticket_type);
    match pos {
        None => Err(ContractError::InvalidTicketType {}),
        Some(i) => {
            if state.registry.tickets[i].ticket_claimed {
                return Err(ContractError::InvalidClaimableTicket {});
            }
            let ghost pre = state.registry.tickets@;
            let mut t = state.registry.tickets.remove(i);
            t.ticket_claimed = true;
            state.registry.tickets.insert(i, t);
            proof {
                assert(state.registry.tickets@ =~= pre.update(
                    i as int,
                    TicketNFT { ticket_claimed: true, ..pre[i as int] },
                ));
            }
            let mut resp = Response::new();
            resp.add_attribute("method", "claim_ticket".to_owned());
            resp.add_attribute("ticket_id", dec_string_u64(ticket_id));
            resp.add_attribute("ticket_type", ticket_type.clone());
            Ok(resp)
        },
    }
}

// ---------------------------------------------------------------------------
// BuyTicket.
// ---------------------------------------------------------------------------

/// The rejections a purchase can hit before its funds are even summed.
pub open spec fn buy_rejects_early(s: State, caller: Seq<char>, tid: u64, ty: Seq<char>) -> bool {
    is_blocked(s, caller) || find_ticket(s.registry.tickets@, tid, ty) < 0
}

/// Why `buy_ticket` fails, if it does, in the order the checks run.
pub open spec fn buy_err(
    s: State,
    caller: Seq<char>,
    tid: u64,
    amount: Seq<Coin>,
    ty: Seq<char>,
) -> Option<ContractError> {
    if is_blocked(s, caller) {
        Some(ContractError::UserBlackListed {})
    } else if find_ticket(s.registry.tickets@, tid, ty) < 0 {
        Some(ContractError::InvalidClaimableTicket {})
    } else if total_payment(amount) < TICKET_COST {
        Some(ContractError::InsufficientAmount {})
    } else if owned_count(s.registry.tickets@, caller) + amount.len()
        > s.platform.max_ticket_per_person {
        Some(ContractError::TicketLimitExceeded {})
    } else {
        None
    }
}

/// The caller's fresh holdings record: a snapshot of this purchase.
pub open spec fn new_rec(
    r: UserTicketInfo,
    caller: Seq<char>,
    tid: u64,
    ty: Seq<char>,
    total: int,
) -> bool {
    &&& r.ticket_owner@ == caller
    &&& r.ticket_id == tid
    &&& r.ticket_type@ == ty
    &&& r.amount == total
}

/// The holdings map after a purchase: the caller's record overwritten
/// with the snapshot of this purchase, or appended if the caller had
/// none; nobody else's record moves.
pub open spec fn holdings_updated(
    pre: Seq<UserTicketInfo>,
    post: Seq<UserTicketInfo>,
    caller: Seq<char>,
    tid: u64,
    ty: Seq<char>,
    total: int,
) -> bool {
    let j = holdings_idx(pre, caller);
    if j >= 0 {
        &&& post.len() == pre.len()
        &&& forall|k: int| 0 <= k < pre.len() && k != j ==> #[trigger] post[k] == pre[k]
        &&& new_rec(post[j], caller, tid, ty, total)
    } else {
        &&& post.len() == pre.len() + 1
        &&& forall|k: int| 0 <= k < pre.len() ==> #[trigger] post[k] == pre[k]
        &&& new_rec(post[pre.len() as int], caller, tid, ty, total)
    }
}

/// The state after a successful purchase.
pub open spec fn buy_ok_state(
    pre: State,
    post: State,
    caller: Seq<char>,
    tid: u64,
    ty: Seq<char>,
    total: int,
) -> bool {
    &&& post.platform.profit == pre.platform.profit + total
    &&& platform_eq_except_profit(pre.platform, post.platform)
    &&& post.owner_cap == pre.owner_cap
    &&& post.registry == pre.registry
    &&& post.blocklist == pre.blocklist
    &&& holdings_updated(pre.holdings@, post.holdings@, caller, tid, ty, total)
}

/// Sums the attached funds. Only callable where the mathematical total
/// fits the 128-bit accumulator; the platform treats an overflowing
/// payment as fatal, so the shim around the library must reject it the
/// same way the host's checked arithmetic would.
fn sum_amounts(amount: &Vec<Coin>) -> (r: u128)
    requires
        total_payment(amount@) <= u128::MAX,
    ensures
        r == total_payment(amount@),
{
    let mut acc: u128 = 0;
    let mut i: usize = 0;
    while i < amount.len()
        invariant
            i <= amount@.len(),
            acc == total_payment(amount@.take(i as int)),
            total_payment(amount@) <= u128::MAX,
        decreases amount@.len() - i,
    {
        proof {
            lemma_total_payment_prefix(amount@, i + 1);
            assert(amount@.take(i + 1).drop_last() =~= amount@.take(i as int));
            assert(amount@.take(i + 1).last() == amount@[i as int]);
        }
        acc = acc + amount[i].amount;
        i += 1;
    }
    proof {
        assert(amount@.take(amount@.len() as int) =~= amount@);
    }
    acc
}

/// Counts the registry tickets owned by address `a`.
fn owned_count_exec(ts: &Vec<TicketNFT>, a: &String) -> (r: usize)
    ensures
        r == owned_count(ts@, a@),
{
    let mut c: usize = 0;
    let mut i: usize = 0;
    while i < ts.len()
        invariant
            i <= ts@.len(),
            c <= i,
            c == owned_count(ts@.take(i as int), a@),
        decreases ts@.len() - i,
    {
        proof {
            assert(ts@.take(i + 1).drop_last() =~= ts@.take(i as int));
            assert(ts@.take(i + 1).last() == ts@[i as int]);
        }
        if ts[i].owner == *a {
            c += 1;
        }
        i += 1;
    }
    proof {
        assert(ts@.take(ts@.len() as int) =~= ts@);
    }
    c
}

/// Records a purchase: the ticket must exist in the registry, the funds
/// must reach the fixed minimum, and the purchase must keep the caller
/// within `max_ticket_per_person`. On success the total payment is added
/// to the platform's profit and the caller's holdings record is
/// overwritten with a snapshot of this purchase.
///
/// An overflowing payment is fatal rather than an error: the
/// preconditions exclude it, and the shim around the library must fail
/// such a command the way the host's checked arithmetic would.
pub fn buy_ticket(
    state: &mut State,
    sender: &String,
    ticket_id: u64,
    amount: &Vec<Coin>,
    ticket_type: &String,
) -> (r: Result<Response, ContractError>)
    requires
        old(state).wf(),
        !buy_rejects_early(*old(state), sender@, ticket_id, ticket_type@) ==> total_payment(
            amount@,
        ) <= u128::MAX,
        buy_err(*old(state), sender@, ticket_id, amount@, ticket_type@) is None ==> old(
            state,
        ).platform.profit + total_payment(amount@) <= u128::MAX,
    ensures
        final(state).wf(),
        buy_spec(*old(state), *final(state), sender@, ticket_id, amount@, ticket_type@, r),
{
    if block_pos(&state.blocklist, sender).is_some() {
        return Err(ContractError::UserBlackListed {});
    }
    if find_ticket_pos(&state.registry.tickets, ticket_id, ticket_type).is_none() {
        return Err(ContractError::InvalidClaimableTicket {});
    }
    let total = sum_amounts(amount);
    if total < TICKET_COST {
        return Err(ContractError::InsufficientAmount {});
    }
    let count = owned_count_exec(&state.registry.tickets, sender);
    if count as u128 + amount.len() as u128 > state.platform.max_ticket_per_person as u128 {
        return Err(ContractError::TicketLimitExceeded {});
    }
    state.platform.profit = state.platform.profit + total;
    let rec = UserTicketInfo {
        ticket_owner: sender.clone(),
        ticket_id,
        ticket_type: ticket_type.clone(),
        amount: total,
    };
    let ghost pre_h = state.holdings@;
    let hpos = holdings_pos(&state.holdings, sender);
    proof {
        lemma_holdings_idx_from(pre_h, sender@, 0);
    }
    match hpos {
        Some(j) => {
            let _ = state.holdings.remove(j);
            state.holdings.insert(j, rec);
            proof {
                assert(state.holdings@ =~= pre_h.update(j as int, rec));
            }
        },
        None => {
            state.holdings.push(rec);
        },
    }
    let mut resp = Response::new();
    resp.add_attribute("method", "buy_ticket".to_owned());
    resp.add_attribute("ticket_id", dec_string_u64(ticket_id));
    resp.add_attribute("ticket_type", ticket_type.clone());
    resp.add_attribute("amount", dec_string_u128(total));
    Ok(resp)
}

// ---------------------------------------------------------------------------
// ChangeOwner.
// ---------------------------------------------------------------------------

/// Is this invocation the re-entrant second phase of a transfer? The
/// host executes the scheduled self-message with the contract itself as
/// the caller, so self-origin shows as the caller address equalling the
/// contract address (and the owner capability, already checked).
pub open spec fn change_owner_self_phase(caller: Seq<char>, contract: Seq<char>) -> bool {
    caller == contract
}

/// Why `change_owner_msg` fails, if it does.
pub open spec fn change_owner_err(
    s: State,
    caller: Seq<char>,
    contract: Seq<char>,
    tid: u64,
) -> Option<ContractError> {
    if !is_owner(s, caller) {
        Some(ContractError::Unauthorized {})
    } else if change_owner_self_phase(caller, contract) {
        None
    } else if find_owned(s.registry.tickets@, tid, caller) < 0 {
        Some(ContractError::InvalidTicketType {})
    } else {
        None
    }
}

/// The transferred entry: only the owner field moves.
pub open spec fn owner_swapped(a: TicketNFT, b: TicketNFT, new_owner: Seq<char>) -> bool {
    &&& b.id == a.id
    &&& b.ticket_type == a.ticket_type
    &&& b.owner@ == new_owner
    &&& b.description == a.description
    &&& b.ticket_id == a.ticket_id
    &&& b.ticket_claimed == a.ticket_claimed
}

/// The state after a successful transfer: the first registry entry with
/// this `ticket_id` owned by the caller gets `new_owner`; the second,
/// re-entrant phase is a registry-level no-op.
pub open spec fn change_owner_ok_state(
    pre: State,
    post: State,
    caller: Seq<char>,
    contract: Seq<char>,
    tid: u64,
    new_owner: Seq<char>,
) -> bool {
    if change_owner_self_phase(caller, contract) {
        post == pre
    } else {
        let i = find_owned(pre.registry.tickets@, tid, caller);
        &&& post.platform == pre.platform
        &&& post.owner_cap == pre.owner_cap
        &&& post.holdings == pre.holdings
        &&& post.blocklist == pre.blocklist
        &&& post.registry.tickets@.len() == pre.registry.tickets@.len()
        &&& forall|k: int|
            0 <= k < pre.registry.tickets@.len() && k != i ==> #[trigger] post.registry.tickets@[k]
                == pre.registry.tickets@[k]
        &&& owner_swapped(pre.registry.tickets@[i], post.registry.tickets@[i], new_owner)
    }
}

/// The response of a successful transfer: the attributes always, and,
/// in the first phase only, the one self-addressed message that carries
/// the identical parameters for the host to run after commit.
pub open spec fn change_owner_resp(
    resp: Response,
    contract: Seq<char>,
    tid: u64,
    ty: Seq<char>,
    new_owner: Seq<char>,
    self_phase: bool,
) -> bool {
    &&& resp.data is None
    &&& resp.attributes@.len() == 4
    &&& attr_is(resp.attributes@[0], "action"@, "change_owner"@)
    &&& attr_is(resp.attributes@[1], "ticket_id"@, dec_rep(tid as int))
    &&& attr_is(resp.attributes@[2], "ticket_type"@, ty)
    &&& attr_is(resp.attributes@[3], "new_owner"@, new_owner)
    &&& if self_phase {
        resp.messages@.len() == 0
    } else {
        ({
            &&& resp.messages@.len() == 1
            &&& resp.messages@[0].contract_addr@ == contract
            &&& resp.messages@[0].funds@.len() == 0
            &&& resp.messages@[0].msg matches ExecuteMsg::ChangeOwnerMsg {
                new_owner: n,
                ticket_id: t,
                ticket_type: tt,
            } && n@ == new_owner && t == tid && tt@ == ty
        })
    }
}

/// Owner-only: transfers the first registry entry with this `ticket_id`
/// owned by the caller to `new_owner`, and schedules the re-entrant
/// second phase of the transfer as an outgoing self-message. When the
/// host runs that second phase, the handler detects self-origin and
/// emits attributes only, so the recursion is bounded.
pub fn change_owner_msg(
    state: &mut State,
    contract_addr: &String,
    sender: &String,
    new_owner: &String,
    ticket_id: u64,
    ticket_type: &String,
) -> (r: Result<Response, ContractError>)
    requires
        old(state).wf(),
    ensures
        final(state).wf(),
        change_owner_spec(
            *old(state),
            *final(state),
            sender@,
            contract_addr@,
            ticket_id,
            ticket_type@,
            new_owner@,
            r,
        ),
{
    if *sender != state.owner_cap {
        return Err(ContractError::Unauthorized {});
    }
    if *sender == *contract_addr {
        let mut resp = Response::new();
        resp.add_attribute("action", "change_owner".to_owned());
        resp.add_attribute("ticket_id", dec_string_u64(ticket_id));
        resp.add_attribute("ticket_type", ticket_type.clone());
        resp.add_attribute("new_owner", new_owner.clone());
        return Ok(resp);
    }
    let pos = find_owned_pos(&state.registry.tickets, ticket_id, sender);
    match pos {
        None => Err(ContractError::InvalidTicketType {}),
        Some(i) => {
            let ghost pre = state.registry.tickets@;
            let mut t = state.registry.tickets.remove(i);
            t.owner = new_owner.clone();
            state.registry.tickets.insert(i, t);
            proof {
                assert(forall|k: int|
                    0 <= k < pre.len() && k != i ==> #[trigger] state.registry.tickets@[k]
                        == pre[k]);
            }
            let out = OutgoingMsg {
                contract_addr: contract_addr.clone(),
                msg: ExecuteMsg::ChangeOwnerMsg {
                    new_owner: new_owner.clone(),
                    ticket_id,
                    ticket_type: ticket_type.clone(),
                },
                funds: Vec::new(),
            };
            let mut resp = Response::new();
            resp.add_message(out);
            resp.add_attribute("action", "change_owner".to_owned());
            resp.add_attribute("ticket_id", dec_string_u64(ticket_id));
            resp.add_attribute("ticket_type", ticket_type.clone());
            resp.add_attribute("new_owner", new_owner.clone());
            Ok(resp)
        },
    }
}

} // verus!

verus! {

// ---------------------------------------------------------------------------
// The per-command contracts: one relation per command, shared between the
// handler that implements it and the dispatcher that routes to it.
// ---------------------------------------------------------------------------

/// The response of a successful `set_verify_pk`.
pub open spec fn set_pk_resp(resp: Response) -> bool {
    &&& resp.messages@.len() == 0
    &&& resp.data is None
    &&& resp.attributes@.len() == 1
    &&& attr_is(resp.attributes@[0], "method"@, "set_verify_pk"@)
}

/// The whole contract of `set_verify_pk`.
pub open spec fn set_pk_spec(
    pre: State,
    post: State,
    caller: Seq<char>,
    pk: Seq<char>,
    r: Result<Response, ContractError>,
) -> bool {
    match set_pk_err(pre, caller) {
        Some(e) => r == Err::<Response, ContractError>(e) && post == pre,
        None => set_pk_ok_state(pre, post, pk) && (r matches Ok(resp) && set_pk_resp(resp)),
    }
}

/// The response of a successful `block_user`.
pub open spec fn block_resp(resp: Response, addr: Seq<char>, desc: Seq<char>) -> bool {
    &&& resp.messages@.len() == 0
    &&& resp.data is None
    &&& resp.attributes@.len() == 4
    &&& attr_is(resp.attributes@[0], "method"@, "block_user"@)
    &&& attr_is(resp.attributes@[1], "user"@, addr)
    &&& attr_is(resp.attributes@[2], "status"@, "blocked"@)
    &&& attr_is(resp.attributes@[3], "description"@, desc)
}

/// The whole contract of `block_user`.
pub open spec fn block_spec(
    pre: State,
    post: State,
    caller: Seq<char>,
    addr: Seq<char>,
    desc: Seq<char>,
    r: Result<Response, ContractError>,
) -> bool {
    match block_err(pre, caller, addr) {
        Some(e) => r == Err::<Response, ContractError>(e) && post == pre,
        None => block_ok_state(pre, post, addr) && (r matches Ok(resp) && block_resp(
            resp,
            addr,
            desc,
        )),
    }
}

/// The response of a successful `unblock_user`.
pub open spec fn unblock_resp(resp: Response, addr: Seq<char>) -> bool {
    &&& resp.messages@.len() == 0
    &&& resp.data is None
    &&& resp.attributes@.len() == 2
    &&& attr_is(resp.attributes@[0], "method"@, "Unblock_user"@)
    &&& attr_is(resp.attributes@[1], "user"@, addr)
}

/// The whole contract of `unblock_user`.
pub open spec fn unblock_spec(
    pre: State,
    post: State,
    caller: Seq<char>,
    addr: Seq<char>,
    r: Result<Response, ContractError>,
) -> bool {
    match unblock_err(pre, caller, addr) {
        Some(e) => r == Err::<Response, ContractError>(e) && post == pre,
        None => unblock_ok_state(pre, post, addr) && (r matches Ok(resp) && unblock_resp(
            resp,
            addr,
        )),
    }
}

/// The response of a successful `claim_ticket`.
pub open spec fn claim_resp(resp: Response, tid: u64, ty: Seq<char>) -> bool {
    &&& resp.messages@.len() == 0
    &&& resp.data is None
    &&& resp.attributes@.len() == 3
    &&& attr_is(resp.attributes@[0], "method"@, "claim_ticket"@)
    &&& attr_is(resp.attributes@[1], "ticket_id"@, dec_rep(tid as int))
    &&& attr_is(resp.attributes@[2], "ticket_type"@, ty)
}

/// The whole contract of `claim_ticket`.
pub open spec fn claim_spec(
    pre: State,
    post: State,
    caller: Seq<char>,
    tid: u64,
    ty: Seq<char>,
    r: Result<Response, ContractError>,
) -> bool {
    match claim_err(pre, caller, tid, ty) {
        Some(e) => r == Err::<Response, ContractError>(e) && post == pre,
        None => claim_ok_state(pre, post, tid, ty) && (r matches Ok(resp) && claim_resp(
            resp,
            tid,
            ty,
        )),
    }
}

/// The response of a successful `buy_ticket`.
pub open spec fn buy_resp(resp: Response, tid: u64, ty: Seq<char>, total: int) -> bool {
    &&& resp.messages@.len() == 0
    &&& resp.data is None
    &&& resp.attributes@.len() == 4
    &&& attr_is(resp.attributes@[0], "method"@, "buy_ticket"@)
    &&& attr_is(resp.attributes@[1], "ticket_id"@, dec_rep(tid as int))
    &&& attr_is(resp.attributes@[2], "ticket_type"@, ty)
    &&& attr_is(resp.attributes@[3], "amount"@, dec_rep(total))
}

/// The whole contract of `buy_ticket`.
pub open spec fn buy_spec(
    pre: State,
    post: State,
    caller: Seq<char>,
    tid: u64,
    amount: Seq<Coin>,
    ty: Seq<char>,
    r: Result<Response, ContractError>,
) -> bool {
    match buy_err(pre, caller, tid, amount, ty) {
        Some(e) => r == Err::<Response, ContractError>(e) && post == pre,
        None => buy_ok_state(pre, post, caller, tid, ty, total_payment(amount)) && (r matches Ok(
            resp,
        ) && buy_resp(resp, tid, ty, total_payment(amount))),
    }
}

/// The whole contract of `change_owner_msg`.
pub open spec fn change_owner_spec(
    pre: State,
    post: State,
    caller: Seq<char>,
    contract: Seq<char>,
    tid: u64,
    ty: Seq<char>,
    new_owner: Seq<char>,
    r: Result<Response, ContractError>,
) -> bool {
    match change_owner_err(pre, caller, contract, tid) {
        Some(e) => r == Err::<Response, ContractError>(e) && post == pre,
        None => change_owner_ok_state(pre, post, caller, contract, tid, new_owner) && (
        r matches Ok(resp) && change_owner_resp(
            resp,
            contract,
            tid,
            ty,
            new_owner,
            change_owner_self_phase(caller, contract),
        )),
    }
}

// ---------------------------------------------------------------------------
// The dispatcher.
// ---------------------------------------------------------------------------

/// Does this command demand the owner capability?
pub open spec fn owner_only(msg: ExecuteMsg) -> bool {
    ||| msg matches ExecuteMsg::SetVerifyPkMsg { .. }
    ||| msg matches ExecuteMsg::BlockUserMsg { .. }
    ||| msg matches ExecuteMsg::UnblockUserMsg { .. }
    ||| msg matches ExecuteMsg::ChangeOwnerMsg { .. }
}

/// Is this a user-facing command, barred to blocked callers?
pub open spec fn user_facing(msg: ExecuteMsg) -> bool {
    ||| msg matches ExecuteMsg::BuyTicket { .. }
    ||| msg matches ExecuteMsg::ClaimTicket { .. }
}

/// What one command adds to the platform's profit: the total payment of
/// an accepted purchase, nothing otherwise.
pub open spec fn buy_gain(pre: State, caller: Seq<char>, msg: ExecuteMsg) -> int {
    match msg {
        ExecuteMsg::BuyTicket { ticket_id, amount, ticket_type } => {
            if buy_err(pre, caller, ticket_id, amount@, ticket_type@) is None {
                total_payment(amount@)
            } else {
                0
            }
        },
        _ => 0,
    }
}

/// The transition relation of the dispatcher: what `execute` does to the
/// state and returns, for every command.
pub open spec fn execute_spec(
    pre: State,
    post: State,
    caller: Seq<char>,
    contract: Seq<char>,
    msg: ExecuteMsg,
    r: Result<Response, ContractError>,
) -> bool {
    match msg {
        ExecuteMsg::BuyTicket { ticket_id, amount, ticket_type } => buy_spec(
            pre,
            post,
            caller,
            ticket_id,
            amount@,
            ticket_type@,
            r,
        ),
        ExecuteMsg::ClaimTicket { ticket_owner: _, ticket_id, ticket_type } => claim_spec(
            pre,
            post,
            caller,
            ticket_id,
            ticket_type@,
            r,
        ),
        ExecuteMsg::SetVerifyPkMsg { verify_pk_str } => set_pk_spec(
            pre,
            post,
            caller,
            verify_pk_str@,
            r,
        ),
        ExecuteMsg::BlockUserMsg { user_addr, description } => block_spec(
            pre,
            post,
            caller,
            user_addr@,
            description@,
            r,
        ),
        ExecuteMsg::UnblockUserMsg { user_addr } => unblock_spec(pre, post, caller, user_addr@, r),
        ExecuteMsg::ChangeOwnerMsg { new_owner, ticket_id, ticket_type } => change_owner_spec(
            pre,
            post,
            caller,
            contract,
            ticket_id,
            ticket_type@,
            new_owner@,
            r,
        ),
    }
}

/// Routes one submitted command to its handler, atomically: either the
/// command succeeds and its writes stand, or it returns an error and the
/// state is exactly what it was. Beyond the per-command contract, the
/// dispatcher guarantees the platform-wide laws: errors change nothing;
/// owner-only commands from non-owners are rejected untouched; blocked
/// callers cannot reach the user-facing commands; the owner capability
/// and the per-person cap never move; a claimed ticket stays claimed;
/// and the profit grows by exactly the payment of each accepted
/// purchase.
pub fn execute(state: &mut State, env: &Env, info: &MessageInfo, msg: ExecuteMsg) -> (r: Result<
    Response,
    ContractError,
>)
    requires
        old(state).wf(),
        msg matches ExecuteMsg::BuyTicket { ticket_id, amount, ticket_type } ==> {
            &&& (!buy_rejects_early(*old(state), info.sender@, ticket_id, ticket_type@)
                ==> total_payment(amount@) <= u128::MAX)
            &&& (buy_err(*old(state), info.sender@, ticket_id, amount@, ticket_type@) is None
                ==> old(state).platform.profit + total_payment(amount@) <= u128::MAX)
        },
    ensures
        final(state).wf(),
        execute_spec(
            *old(state),
            *final(state),
            info.sender@,
            env.contract_address@,
            msg,
            r,
        ),
        r is Err ==> *final(state) == *old(state),
        owner_only(msg) && info.sender@ != old(state).owner_cap@ ==> r == Err::<
            Response,
            ContractError,
        >(ContractError::Unauthorized {}) && *final(state) == *old(state),
        user_facing(msg) && is_blocked(*old(state), info.sender@) ==> r == Err::<
            Response,
            ContractError,
        >(ContractError::UserBlackListed {}) && *final(state) == *old(state),
        final(state).owner_cap == old(state).owner_cap,
        final(state).platform.max_ticket_per_person == old(state).platform.max_ticket_per_person,
        final(state).registry.tickets@.len() == old(state).registry.tickets@.len(),
        forall|i: int|
            0 <= i < old(state).registry.tickets@.len() && (#[trigger] old(
                state,
            ).registry.tickets@[i]).ticket_claimed ==> final(state).registry.tickets@[i].ticket_claimed,
        final(state).platform.profit == old(state).platform.profit + buy_gain(
            *old(state),
            info.sender@,
            msg,
        ),
{
    match msg {
        ExecuteMsg::BuyTicket { ticket_id, amount, ticket_type } => {
            buy_ticket(state, &info.sender, ticket_id, &amount, &ticket_type)
        },
        ExecuteMsg::ClaimTicket { ticket_owner: _, ticket_id, ticket_type } => {
            let r = claim_ticket(state, &info.sender, ticket_id, &ticket_type);
            proof {
                lemma_find_ticket_from(old(state).registry.tickets@, ticket_id, ticket_type@, 0);
            }
            r
        },
        ExecuteMsg::BlockUserMsg { user_addr, description } => {
            block_user(state, &info.sender, &user_addr, description)
        },
        ExecuteMsg::SetVerifyPkMsg { verify_pk_str } => {
            set_verify_pk(state, &info.sender, verify_pk_str)
        },
        ExecuteMsg::UnblockUserMsg { user_addr } => {
            unblock_user(state, &info.sender, &user_addr)
        },
        ExecuteMsg::ChangeOwnerMsg { new_owner, ticket_id, ticket_type } => {
            let r = change_owner_msg(
                state,
                &env.contract_address,
                &info.sender,
                &new_owner,
                ticket_id,
                &ticket_type,
            );
            proof {
                lemma_find_owned_from(old(state).registry.tickets@, ticket_id, info.sender@, 0);
            }
            r
        },
    }
}

} // verus!
