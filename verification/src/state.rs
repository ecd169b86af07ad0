use vstd::prelude::*;

verus! {

/// One entry of the ticket registry. `ticket_id` is the external
/// identifier used by lookups; `id` is the internal index assigned when
/// the ticket was minted. Once `ticket_claimed` becomes true it never
/// returns to false.
#[derive(Debug, Clone, PartialEq, Eq)]
pub struct TicketNFT {
    pub id: u64,
    pub ticket_type: String,
    pub owner: String,
    pub description: String,
    pub ticket_id: u64,
    pub ticket_claimed: bool,
}

/// The ticket registry: the ordered collection of all known tickets.
/// Insertion order matters only for deterministic iteration; lookups go
/// by the `(ticket_id, ticket_type)` pair, first match wins.
#[derive(Debug, Clone, PartialEq, Eq)]
pub struct Tickets {
    pub tickets: Vec<TicketNFT>,
}

/// A user's holdings record: a snapshot of that user's most recent
/// purchase. A later purchase overwrites it.
#[derive(Debug, Clone, PartialEq, Eq)]
pub struct UserTicketInfo {
    pub ticket_owner: String,
    pub ticket_id: u64,
    pub ticket_type: String,
    pub amount: u128,
}

/// Lifecycle stage of a ticket as reported to off-chain collaborators.
#[derive(Debug, Clone, PartialEq, Eq)]
pub enum TicketStatus {
    InProgress,
    Assigned,
    Revoked,
}

/// The platform singleton: configuration and running totals.
#[derive(Debug, Clone, PartialEq, Eq)]
pub struct BmtPlatformDetails {
    pub id: u64,
    pub owner: String,
    pub sig_verify_pk: String,
    pub platform_fee: u64,
    pub profit: u128,
    pub user_tickets: Vec<UserTicketInfo>,
    pub current_ticket_index: u64,
    pub claim_nonce: u64,
    pub max_ticket_per_person: u64,
}

/// The whole durable content of the contract's storage, one field per
/// persisted slot. A command handler takes it by `&mut` and either
/// commits its writes (success) or leaves it exactly as it was (error).
#[derive(Debug, Clone, PartialEq, Eq)]
pub struct State {
    /// Slot `bmt_platform_info`.
    pub platform: BmtPlatformDetails,
    /// Slot `owner`: the one address permitted to run privileged
    /// commands. Set at instantiation, never modified afterwards.
    pub owner_cap: String,
    /// Slot `ticket_nft`.
    pub registry: Tickets,
    /// Slot `user_ticket_info`: one record per address, keyed by the
    /// record's own `ticket_owner` field.
    pub holdings: Vec<UserTicketInfo>,
    /// Slot `blocked_users`: the set of blocked addresses. An address
    /// stands here exactly when it is blocked; absence means not blocked.
    pub blocklist: Vec<String>,
}

/// Does a registry entry answer a `(ticket_id, ticket_type)` lookup?
pub open spec fn ticket_matches(t: TicketNFT, tid: u64, ty: Seq<char>) -> bool {
    t.ticket_id == tid && t.ticket_type@ == ty
}

/// Index of the first registry entry matching `(tid, ty)` at or after
/// position `i`, or -1 if there is none.
pub open spec fn find_ticket_from(ts: Seq<TicketNFT>, tid: u64, ty: Seq<char>, i: int) -> int
    decreases ts.len() - i,
{
    if i < 0 || i >= ts.len() {
        -1
    } else if ticket_matches(ts[i], tid, ty) {
        i
    } else {
        find_ticket_from(ts, tid, ty, i + 1)
    }
}

/// Index of the first registry entry matching `(tid, ty)`, or -1.
pub open spec fn find_ticket(ts: Seq<TicketNFT>, tid: u64, ty: Seq<char>) -> int {
    find_ticket_from(ts, tid, ty, 0)
}

pub proof fn lemma_find_ticket_from(ts: Seq<TicketNFT>, tid: u64, ty: Seq<char>, i: int)
    requires
        0 <= i <= ts.len(),
    ensures
        ({
            let r = find_ticket_from(ts, tid, ty, i);
            &&& r == -1 ==> forall|k: int|
                i <= k < ts.len() ==> !ticket_matches(#[trigger] ts[k], tid, ty)
            &&& r != -1 ==> i <= r < ts.len() && ticket_matches(ts[r], tid, ty) && forall|k: int|
                i <= k < r ==> !ticket_matches(#[trigger] ts[k], tid, ty)
        }),
    decreases ts.len() - i,
{
    if i < ts.len() && !ticket_matches(ts[i], tid, ty) {
        lemma_find_ticket_from(ts, tid, ty, i + 1);
    }
}

/// Does a registry entry answer a `(ticket_id, owner)` lookup, as the
/// ownership-transfer command asks it?
pub open spec fn ticket_owned_matches(t: TicketNFT, tid: u64, owner: Seq<char>) -> bool {
    t.ticket_id == tid && t.owner@ == owner
}

/// Index of the first registry entry with this `ticket_id` owned by
/// `owner`, at or after position `i`, or -1.
pub open spec fn find_owned_from(ts: Seq<TicketNFT>, tid: u64, owner: Seq<char>, i: int) -> int
    decreases ts.len() - i,
{
    if i < 0 || i >= ts.len() {
        -1
    } else if ticket_owned_matches(ts[i], tid, owner) {
        i
    } else {
        find_owned_from(ts, tid, owner, i + 1)
    }
}

/// Index of the first registry entry with this `ticket_id` owned by
/// `owner`, or -1.
pub open spec fn find_owned(ts: Seq<TicketNFT>, tid: u64, owner: Seq<char>) -> int {
    find_owned_from(ts, tid, owner, 0)
}

pub proof fn lemma_find_owned_from(ts: Seq<TicketNFT>, tid: u64, owner: Seq<char>, i: int)
    requires
        0 <= i <= ts.len(),
    ensures
        ({
            let r = find_owned_from(ts, tid, owner, i);
            &&& r == -1 ==> forall|k: int|
                i <= k < ts.len() ==> !ticket_owned_matches(#[trigger] ts[k], tid, owner)
            &&& r != -1 ==> i <= r < ts.len() && ticket_owned_matches(ts[r], tid, owner)
                && forall|k: int| i <= k < r ==> !ticket_owned_matches(#[trigger] ts[k], tid, owner)
        }),
    decreases ts.len() - i,
{
    if i < ts.len() && !ticket_owned_matches(ts[i], tid, owner) {
        lemma_find_owned_from(ts, tid, owner, i + 1);
    }
}

/// Index of the holdings record of address `a` at or after position `i`,
/// or -1 if `a` has none.
pub open spec fn holdings_idx_from(h: Seq<UserTicketInfo>, a: Seq<char>, i: int) -> int
    decreases h.len() - i,
{
    if i < 0 || i >= h.len() {
        -1
    } else if h[i].ticket_owner@ == a {
        i
    } else {
        holdings_idx_from(h, a, i + 1)
    }
}

/// Index of the holdings record of address `a`, or -1.
pub open spec fn holdings_idx(h: Seq<UserTicketInfo>, a: Seq<char>) -> int {
    holdings_idx_from(h, a, 0)
}

pub proof fn lemma_holdings_idx_from(h: Seq<UserTicketInfo>, a: Seq<char>, i: int)
    requires
        0 <= i <= h.len(),
    ensures
        ({
            let r = holdings_idx_from(h, a, i);
            &&& r == -1 ==> forall|k: int| i <= k < h.len() ==> (#[trigger] h[k]).ticket_owner@ != a
            &&& r != -1 ==> i <= r < h.len() && h[r].ticket_owner@ == a && forall|k: int|
                i <= k < r ==> (#[trigger] h[k]).ticket_owner@ != a
        }),
    decreases h.len() - i,
{
    if i < h.len() && h[i].ticket_owner@ != a {
        lemma_holdings_idx_from(h, a, i + 1);
    }
}

/// Position of address `a` in the blocklist at or after `i`, or -1.
pub open spec fn block_idx_from(b: Seq<String>, a: Seq<char>, i: int) -> int
    decreases b.len() - i,
{
    if i < 0 || i >= b.len() {
        -1
    } else if b[i]@ == a {
        i
    } else {
        block_idx_from(b, a, i + 1)
    }
}

/// Position of address `a` in the blocklist, or -1 if `a` is not blocked.
pub open spec fn block_idx(b: Seq<String>, a: Seq<char>) -> int {
    block_idx_from(b, a, 0)
}

pub proof fn lemma_block_idx_from(b: Seq<String>, a: Seq<char>, i: int)
    requires
        0 <= i <= b.len(),
    ensures
        ({
            let r = block_idx_from(b, a, i);
            &&& r == -1 ==> forall|k: int| i <= k < b.len() ==> (#[trigger] b[k])@ != a
            &&& r != -1 ==> i <= r < b.len() && b[r]@ == a && forall|k: int|
                i <= k < r ==> (#[trigger] b[k])@ != a
        }),
    decreases b.len() - i,
{
    if i < b.len() && b[i]@ != a {
        lemma_block_idx_from(b, a, i + 1);
    }
}

/// Is address `a` barred from user-facing commands?
pub open spec fn is_blocked(s: State, a: Seq<char>) -> bool {
    block_idx(s.blocklist@, a) >= 0
}

/// How many registry tickets does address `a` own? This is the holdings
/// count that `max_ticket_per_person` bounds.
pub open spec fn owned_count(ts: Seq<TicketNFT>, a: Seq<char>) -> int
    decreases ts.len(),
{
    if ts.len() == 0 {
        0
    } else {
        owned_count(ts.drop_last(), a) + if ts.last().owner@ == a {
            1int
        } else {
            0int
        }
    }
}

/// Replacing one entry moves the count of an address by what leaves and
/// what arrives at that position.
pub proof fn lemma_owned_count_update(ts: Seq<TicketNFT>, i: int, t: TicketNFT, a: Seq<char>)
    requires
        0 <= i < ts.len(),
    ensures
        owned_count(ts.update(i, t), a) == owned_count(ts, a) - (if ts[i].owner@ == a {
            1int
        } else {
            0int
        }) + (if t.owner@ == a {
            1int
        } else {
            0int
        }),
    decreases ts.len(),
{
    let up = ts.update(i, t);
    if i == ts.len() - 1 {
        assert(up.drop_last() =~= ts.drop_last());
        assert(up.last() == t);
        assert(ts.last() == ts[i]);
    } else {
        assert(up.drop_last() =~= ts.drop_last().update(i, t));
        assert(up.last() == ts.last());
        lemma_owned_count_update(ts.drop_last(), i, t, a);
        assert(ts.drop_last()[i] == ts[i]);
    }
}

impl State {
    /// Well-formedness: the keyed slots hold at most one entry per
    /// address. Constructors establish it, every command preserves it.
    pub open spec fn wf(self) -> bool {
        &&& forall|i: int, j: int|
            0 <= i < j < self.holdings@.len() ==> (#[trigger] self.holdings@[i]).ticket_owner@
                != (#[trigger] self.holdings@[j]).ticket_owner@
        &&& forall|i: int, j: int|
            0 <= i < j < self.blocklist@.len() ==> (#[trigger] self.blocklist@[i])@
                != (#[trigger] self.blocklist@[j])@
    }
}

} // verus!
