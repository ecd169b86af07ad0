use vstd::prelude::*;

use crate::contract::{
    block_spec, buy_gain, change_owner_self_phase, claim_err, claim_spec, execute_spec, is_owner,
    unblock_spec,
};
use crate::error::ContractError;
use crate::msg::ExecuteMsg;
use crate::response::Response;
use crate::state::{
    block_idx, find_owned, find_ticket, is_blocked, lemma_block_idx_from, lemma_find_owned_from,
    lemma_find_ticket_from, lemma_owned_count_update, owned_count, ticket_matches, State,
};

verus! {

/// One committed step of a run: the state before and after one call of
/// the dispatcher, together with that call's identities, command and
/// result.
pub struct Step {
    pub pre: State,
    pub post: State,
    pub caller: Seq<char>,
    pub contract: Seq<char>,
    pub msg: ExecuteMsg,
    pub r: Result<Response, ContractError>,
}

/// Does this record describe one actual call of `execute`? Exactly the
/// dispatcher's transition relation.
pub open spec fn valid_step(s: Step) -> bool {
    execute_spec(s.pre, s.post, s.caller, s.contract, s.msg, s.r)
}

/// A run: every step is an actual call, and every step starts from the
/// state the previous one committed.
pub open spec fn valid_trace(tr: Seq<Step>) -> bool {
    &&& forall|i: int| 0 <= i < tr.len() ==> valid_step(#[trigger] tr[i])
    &&& forall|i: int| 1 <= i < tr.len() ==> (#[trigger] tr[i]).pre == tr[i - 1].post
}

/// The payments a run accepted: the sum, over its steps, of the total
/// payment of each successful purchase.
pub open spec fn trace_gain(tr: Seq<Step>) -> int
    decreases tr.len(),
{
    if tr.len() == 0 {
        0
    } else {
        trace_gain(tr.drop_last()) + buy_gain(tr.last().pre, tr.last().caller, tr.last().msg)
    }
}

/// Per step: the profit moves by exactly the step's accepted payment.
pub proof fn lemma_step_profit(s: Step)
    requires
        valid_step(s),
    ensures
        s.post.platform.profit == s.pre.platform.profit + buy_gain(s.pre, s.caller, s.msg),
{
}

/// Profit accounting over a whole run: after any sequence of commands,
/// the platform's profit is what it started as plus the sum of the
/// total payments of the purchases that succeeded. Commands that fail,
/// and commands other than a purchase, contribute nothing.
pub proof fn lemma_profit_accounting(tr: Seq<Step>)
    requires
        valid_trace(tr),
        tr.len() > 0,
    ensures
        tr.last().post.platform.profit == tr[0].pre.platform.profit + trace_gain(tr),
    decreases tr.len(),
{
    lemma_step_profit(tr.last());
    if tr.len() == 1 {
        assert(tr.last() == tr[0]);
        assert(tr.drop_last().len() == 0);
        assert(trace_gain(tr.drop_last()) == 0);
    } else {
        let front = tr.drop_last();
        assert forall|i: int| 0 <= i < front.len() implies valid_step(#[trigger] front[i]) by {
            assert(front[i] == tr[i]);
        }
        assert forall|i: int| 1 <= i < front.len() implies (#[trigger] front[i]).pre == front[i
            - 1].post by {
            assert(front[i] == tr[i]);
            assert(front[i - 1] == tr[i - 1]);
        }
        lemma_profit_accounting(front);
        assert(front.last() == tr[tr.len() - 2]);
        assert(front[0] == tr[0]);
        assert(tr.last().pre == tr[tr.len() - 2].post);
    }
}

/// Per step: the registry keeps its size, and a claimed ticket stays
/// claimed.
pub proof fn lemma_step_claims(s: Step)
    requires
        valid_step(s),
    ensures
        s.post.registry.tickets@.len() == s.pre.registry.tickets@.len(),
        forall|i: int|
            0 <= i < s.pre.registry.tickets@.len() && (#[trigger] s.pre.registry.tickets@[i]).ticket_claimed
                ==> s.post.registry.tickets@[i].ticket_claimed,
{
    match s.msg {
        ExecuteMsg::ClaimTicket { ticket_owner: _, ticket_id, ticket_type } => {
            lemma_find_ticket_from(s.pre.registry.tickets@, ticket_id, ticket_type@, 0);
        },
        ExecuteMsg::ChangeOwnerMsg { new_owner: _, ticket_id, ticket_type: _ } => {
            lemma_find_owned_from(s.pre.registry.tickets@, ticket_id, s.caller, 0);
        },
        _ => {},
    }
}

/// Once a ticket is claimed in any committed state, it is claimed in
/// every later state of the run.
pub proof fn lemma_claimed_monotone(tr: Seq<Step>, i: int)
    requires
        valid_trace(tr),
        tr.len() > 0,
        0 <= i < tr[0].pre.registry.tickets@.len(),
        tr[0].pre.registry.tickets@[i].ticket_claimed,
    ensures
        i < tr.last().post.registry.tickets@.len(),
        tr.last().post.registry.tickets@[i].ticket_claimed,
    decreases tr.len(),
{
    lemma_step_claims(tr.last());
    if tr.len() > 1 {
        let front = tr.drop_last();
        assert forall|k: int| 0 <= k < front.len() implies valid_step(#[trigger] front[k]) by {
            assert(front[k] == tr[k]);
        }
        assert forall|k: int| 1 <= k < front.len() implies (#[trigger] front[k]).pre == front[k
            - 1].post by {
            assert(front[k] == tr[k]);
            assert(front[k - 1] == tr[k - 1]);
        }
        assert(front[0] == tr[0]);
        lemma_claimed_monotone(front, i);
        assert(front.last() == tr[tr.len() - 2]);
        assert(tr.last().pre == tr[tr.len() - 2].post);
    }
}

/// The per-person cap: if before a command every address owns at most
/// `max_ticket_per_person` registry tickets, it still does afterwards —
/// provided a successful ownership transfer does not hand a ticket to a
/// recipient already standing at the cap, the one command with no such
/// check of its own.
pub proof fn lemma_cap_preserved(s: Step, a: Seq<char>)
    requires
        valid_step(s),
        owned_count(s.pre.registry.tickets@, a) <= s.pre.platform.max_ticket_per_person,
        match s.msg {
            ExecuteMsg::ChangeOwnerMsg { new_owner, .. } => (s.r is Ok
                && !change_owner_self_phase(s.caller, s.contract)) ==> owned_count(
                s.pre.registry.tickets@,
                new_owner@,
            ) < s.pre.platform.max_ticket_per_person,
            _ => true,
        },
    ensures
        owned_count(s.post.registry.tickets@, a) <= s.post.platform.max_ticket_per_person,
{
    let pre_ts = s.pre.registry.tickets@;
    let post_ts = s.post.registry.tickets@;
    match s.msg {
        ExecuteMsg::ClaimTicket { ticket_owner: _, ticket_id, ticket_type } => {
            if s.r is Ok {
                lemma_find_ticket_from(pre_ts, ticket_id, ticket_type@, 0);
                let j = find_ticket(pre_ts, ticket_id, ticket_type@);
                lemma_owned_count_update(pre_ts, j, post_ts[j], a);
                assert(post_ts =~= pre_ts.update(j, post_ts[j]));
            }
        },
        ExecuteMsg::ChangeOwnerMsg { new_owner, ticket_id, ticket_type: _ } => {
            if s.r is Ok && !change_owner_self_phase(s.caller, s.contract) {
                lemma_find_owned_from(pre_ts, ticket_id, s.caller, 0);
                let j = find_owned(pre_ts, ticket_id, s.caller);
                assert(post_ts =~= pre_ts.update(j, post_ts[j]));
                lemma_owned_count_update(pre_ts, j, post_ts[j], a);
                if a == new_owner@ {
                    assert(owned_count(post_ts, a) <= owned_count(pre_ts, a) + 1);
                } else {
                    assert(owned_count(post_ts, a) <= owned_count(pre_ts, a));
                }
            }
        },
        _ => {},
    }
}

/// Blocking an address that was not blocked and then unblocking it
/// restores the state, the blocklist included.
pub proof fn lemma_block_unblock_roundtrip(
    s0: State,
    s1: State,
    s2: State,
    caller: Seq<char>,
    addr: Seq<char>,
    desc: Seq<char>,
    r1: Result<Response, ContractError>,
    r2: Result<Response, ContractError>,
)
    requires
        is_owner(s0, caller),
        !is_blocked(s0, addr),
        block_spec(s0, s1, caller, addr, desc, r1),
        unblock_spec(s1, s2, caller, addr, r2),
    ensures
        r1 is Ok,
        r2 is Ok,
        s2.platform == s0.platform,
        s2.owner_cap == s0.owner_cap,
        s2.registry == s0.registry,
        s2.holdings == s0.holdings,
        s2.blocklist@ == s0.blocklist@,
{
    let n = s0.blocklist@.len() as int;
    lemma_block_idx_from(s0.blocklist@, addr, 0);
    lemma_block_idx_from(s1.blocklist@, addr, 0);
    let j = block_idx(s1.blocklist@, addr);
    assert(s1.blocklist@[n]@ == addr);
    assert(j >= 0);
    assert(j == n) by {
        if j < n {
            assert(s1.blocklist@[j] == s0.blocklist@[j]);
        }
    }
    assert(s2.blocklist@ =~= s0.blocklist@);
}

/// A claim is idempotent in observable state but not in its result:
/// after a successful claim, the same claim by any caller who is not
/// blocked fails with `InvalidClaimableTicket` — and an error, by the
/// dispatcher's contract, changes nothing.
pub proof fn lemma_claim_second_attempt(
    s0: State,
    s1: State,
    caller: Seq<char>,
    caller2: Seq<char>,
    tid: u64,
    ty: Seq<char>,
    r1: Result<Response, ContractError>,
)
    requires
        claim_spec(s0, s1, caller, tid, ty, r1),
        r1 is Ok,
        !is_blocked(s1, caller2),
    ensures
        claim_err(s1, caller2, tid, ty) == Some(ContractError::InvalidClaimableTicket {}),
{
    let pre_ts = s0.registry.tickets@;
    let post_ts = s1.registry.tickets@;
    lemma_find_ticket_from(pre_ts, tid, ty, 0);
    lemma_find_ticket_from(post_ts, tid, ty, 0);
    let i = find_ticket(pre_ts, tid, ty);
    let i1 = find_ticket(post_ts, tid, ty);
    assert(ticket_matches(post_ts[i], tid, ty));
    assert(i1 != -1);
    assert(i1 == i) by {
        if i1 < i {
            assert(post_ts[i1] == pre_ts[i1]);
        }
    }
    assert(post_ts[i].ticket_claimed);
}

} // verus!
