use ticket_platform::contract::{buy_ticket, claim_ticket, execute, instantiate};
use ticket_platform::decimal::{dec_string_u128, dec_string_u64};
use ticket_platform::error::ContractError;
use ticket_platform::msg::{Coin, Env, ExecuteMsg, InstantiateMsg, MessageInfo};
use ticket_platform::state::{State, TicketNFT, UserTicketInfo};

fn addr(s: &str) -> String {
    s.to_string()
}

fn base_state() -> State {
    let (state, _resp) = instantiate(
        &addr("creator"),
        InstantiateMsg {
            owner: addr("operator"),
            sig_verify_pk: addr("pk0"),
            platform_fee: 1,
            max_ticket_per_person: 2,
        },
    );
    state
}

fn seed_ticket(state: &mut State, id: u64, ticket_id: u64, ty: &str, owner: &str, claimed: bool) {
    state.registry.tickets.push(TicketNFT {
        id,
        ticket_type: ty.to_string(),
        owner: owner.to_string(),
        description: addr("seeded"),
        ticket_id,
        ticket_claimed: claimed,
    });
}

fn coins(amount: u128) -> Vec<Coin> {
    vec![Coin { denom: addr("native"), amount }]
}

fn env() -> Env {
    Env { contract_address: addr("contract") }
}

fn info(sender: &str) -> MessageInfo {
    MessageInfo { sender: addr(sender), funds: vec![] }
}

#[test]
fn instantiate_sets_platform_and_capability() {
    let (state, resp) = instantiate(
        &addr("creator"),
        InstantiateMsg {
            owner: addr("operator"),
            sig_verify_pk: addr("pk0"),
            platform_fee: 1,
            max_ticket_per_person: 2,
        },
    );
    assert_eq!(state.platform.id, 1);
    assert_eq!(state.platform.owner, "operator");
    assert_eq!(state.platform.sig_verify_pk, "pk0");
    assert_eq!(state.platform.platform_fee, 1);
    assert_eq!(state.platform.profit, 0);
    assert!(state.platform.user_tickets.is_empty());
    assert_eq!(state.platform.current_ticket_index, 0);
    assert_eq!(state.platform.claim_nonce, 0);
    assert_eq!(state.platform.max_ticket_per_person, 2);
    assert_eq!(state.owner_cap, "creator");
    assert!(state.registry.tickets.is_empty());
    assert!(state.holdings.is_empty());
    assert!(state.blocklist.is_empty());
    assert!(resp.messages.is_empty());
    assert_eq!(resp.attributes.len(), 1);
    assert_eq!(resp.attributes[0].key, "method");
    assert_eq!(resp.attributes[0].value, "instantiate");
}

#[test]
fn buy_ticket_records_purchase() {
    let mut state = base_state();
    seed_ticket(&mut state, 0, 7, "gold", "operator", false);
    let resp = execute(
        &mut state,
        &env(),
        &info("buyer"),
        ExecuteMsg::BuyTicket { ticket_id: 7, amount: coins(10), ticket_type: addr("gold") },
    )
    .unwrap();
    assert_eq!(state.platform.profit, 10);
    assert_eq!(state.holdings.len(), 1);
    assert_eq!(
        state.holdings[0],
        UserTicketInfo {
            ticket_owner: addr("buyer"),
            ticket_id: 7,
            ticket_type: addr("gold"),
            amount: 10,
        }
    );
    assert!(resp.messages.is_empty());
    let kv: Vec<(String, String)> =
        resp.attributes.iter().map(|a| (a.key.clone(), a.value.clone())).collect();
    assert_eq!(
        kv,
        vec![
            (addr("method"), addr("buy_ticket")),
            (addr("ticket_id"), addr("7")),
            (addr("ticket_type"), addr("gold")),
            (addr("amount"), addr("10")),
        ]
    );
}

#[test]
fn buy_ticket_overwrites_previous_holdings() {
    let mut state = base_state();
    seed_ticket(&mut state, 0, 7, "gold", "operator", false);
    seed_ticket(&mut state, 1, 8, "silver", "operator", false);
    let first = ExecuteMsg::BuyTicket { ticket_id: 7, amount: coins(10), ticket_type: addr("gold") };
    execute(&mut state, &env(), &info("buyer"), first).unwrap();
    let second =
        ExecuteMsg::BuyTicket { ticket_id: 8, amount: coins(25), ticket_type: addr("silver") };
    execute(&mut state, &env(), &info("buyer"), second).unwrap();
    assert_eq!(state.platform.profit, 35);
    assert_eq!(state.holdings.len(), 1);
    assert_eq!(
        state.holdings[0],
        UserTicketInfo {
            ticket_owner: addr("buyer"),
            ticket_id: 8,
            ticket_type: addr("silver"),
            amount: 25,
        }
    );
}

#[test]
fn buy_ticket_sums_multiple_coins() {
    let mut state = base_state();
    seed_ticket(&mut state, 0, 7, "gold", "operator", false);
    let amount = vec![
        Coin { denom: addr("native"), amount: 6 },
        Coin { denom: addr("other"), amount: 7 },
    ];
    let resp = buy_ticket(&mut state, &addr("buyer"), 7, &amount, &addr("gold")).unwrap();
    assert_eq!(state.platform.profit, 13);
    assert_eq!(resp.attributes[3].value, "13");
}

#[test]
fn buy_ticket_below_minimum_is_rejected() {
    let mut state = base_state();
    seed_ticket(&mut state, 0, 7, "gold", "operator", false);
    let before = state.clone();
    let r = execute(
        &mut state,
        &env(),
        &info("buyer"),
        ExecuteMsg::BuyTicket { ticket_id: 7, amount: coins(5), ticket_type: addr("gold") },
    );
    assert_eq!(r, Err(ContractError::InsufficientAmount {}));
    assert_eq!(state, before);
}

#[test]
fn buy_ticket_unknown_ticket_is_rejected() {
    let mut state = base_state();
    let before = state.clone();
    let r = execute(
        &mut state,
        &env(),
        &info("buyer"),
        ExecuteMsg::BuyTicket { ticket_id: 7, amount: coins(10), ticket_type: addr("gold") },
    );
    assert_eq!(r, Err(ContractError::InvalidClaimableTicket {}));
    assert_eq!(state, before);
}

#[test]
fn buy_ticket_over_per_person_cap_is_rejected() {
    let mut state = base_state();
    seed_ticket(&mut state, 0, 7, "gold", "buyer", false);
    seed_ticket(&mut state, 1, 8, "gold", "buyer", false);
    let before = state.clone();
    let r = execute(
        &mut state,
        &env(),
        &info("buyer"),
        ExecuteMsg::BuyTicket { ticket_id: 7, amount: coins(10), ticket_type: addr("gold") },
    );
    assert_eq!(r, Err(ContractError::TicketLimitExceeded {}));
    assert_eq!(state, before);
}

#[test]
fn claim_ticket_succeeds_once_then_fails() {
    let mut state = base_state();
    seed_ticket(&mut state, 0, 7, "gold", "operator", false);
    let resp = execute(
        &mut state,
        &env(),
        &info("buyer"),
        ExecuteMsg::ClaimTicket {
            ticket_owner: addr("buyer"),
            ticket_id: 7,
            ticket_type: addr("gold"),
        },
    )
    .unwrap();
    assert!(state.registry.tickets[0].ticket_claimed);
    let kv: Vec<(String, String)> =
        resp.attributes.iter().map(|a| (a.key.clone(), a.value.clone())).collect();
    assert_eq!(
        kv,
        vec![
            (addr("method"), addr("claim_ticket")),
            (addr("ticket_id"), addr("7")),
            (addr("ticket_type"), addr("gold")),
        ]
    );
    let before = state.clone();
    let r = execute(
        &mut state,
        &env(),
        &info("buyer"),
        ExecuteMsg::ClaimTicket {
            ticket_owner: addr("buyer"),
            ticket_id: 7,
            ticket_type: addr("gold"),
        },
    );
    assert_eq!(r, Err(ContractError::InvalidClaimableTicket {}));
    assert_eq!(state, before);
}

#[test]
fn claim_ticket_unknown_pair_is_rejected() {
    let mut state = base_state();
    seed_ticket(&mut state, 0, 7, "gold", "operator", false);
    let r = claim_ticket(&mut state, &addr("buyer"), 7, &addr("silver"));
    assert_eq!(r, Err(ContractError::InvalidTicketType {}));
    assert!(!state.registry.tickets[0].ticket_claimed);
}

#[test]
fn claim_ticket_first_match_wins() {
    let mut state = base_state();
    seed_ticket(&mut state, 0, 7, "gold", "operator", false);
    seed_ticket(&mut state, 1, 7, "gold", "operator", false);
    claim_ticket(&mut state, &addr("buyer"), 7, &addr("gold")).unwrap();
    assert!(state.registry.tickets[0].ticket_claimed);
    assert!(!state.registry.tickets[1].ticket_claimed);
}

#[test]
fn block_user_owner_only_then_once() {
    let mut state = base_state();
    let before = state.clone();
    let r = execute(
        &mut state,
        &env(),
        &info("carol"),
        ExecuteMsg::BlockUserMsg { user_addr: addr("bella"), description: addr("spam") },
    );
    assert_eq!(r, Err(ContractError::Unauthorized {}));
    assert_eq!(state, before);

    let resp = execute(
        &mut state,
        &env(),
        &info("creator"),
        ExecuteMsg::BlockUserMsg { user_addr: addr("bella"), description: addr("spam") },
    )
    .unwrap();
    assert_eq!(state.blocklist, vec![addr("bella")]);
    let kv: Vec<(String, String)> =
        resp.attributes.iter().map(|a| (a.key.clone(), a.value.clone())).collect();
    assert_eq!(
        kv,
        vec![
            (addr("method"), addr("block_user")),
            (addr("user"), addr("bella")),
            (addr("status"), addr("blocked")),
            (addr("description"), addr("spam")),
        ]
    );

    let r = execute(
        &mut state,
        &env(),
        &info("creator"),
        ExecuteMsg::BlockUserMsg { user_addr: addr("bella"), description: addr("again") },
    );
    assert_eq!(r, Err(ContractError::UserAlreadyBlackListed {}));
}

#[test]
fn blocked_caller_cannot_buy_or_claim() {
    let mut state = base_state();
    seed_ticket(&mut state, 0, 7, "gold", "operator", false);
    execute(
        &mut state,
        &env(),
        &info("creator"),
        ExecuteMsg::BlockUserMsg { user_addr: addr("bella"), description: addr("spam") },
    )
    .unwrap();
    let before = state.clone();
    let r = execute(
        &mut state,
        &env(),
        &info("bella"),
        ExecuteMsg::BuyTicket { ticket_id: 7, amount: coins(10), ticket_type: addr("gold") },
    );
    assert_eq!(r, Err(ContractError::UserBlackListed {}));
    let r = execute(
        &mut state,
        &env(),
        &info("bella"),
        ExecuteMsg::ClaimTicket {
            ticket_owner: addr("bella"),
            ticket_id: 7,
            ticket_type: addr("gold"),
        },
    );
    assert_eq!(r, Err(ContractError::UserBlackListed {}));
    assert_eq!(state, before);
}

#[test]
fn block_then_unblock_restores_blocklist() {
    let mut state = base_state();
    let before = state.clone();
    execute(
        &mut state,
        &env(),
        &info("creator"),
        ExecuteMsg::BlockUserMsg { user_addr: addr("bella"), description: addr("spam") },
    )
    .unwrap();
    let resp = execute(
        &mut state,
        &env(),
        &info("creator"),
        ExecuteMsg::UnblockUserMsg { user_addr: addr("bella") },
    )
    .unwrap();
    assert_eq!(state, before);
    let kv: Vec<(String, String)> =
        resp.attributes.iter().map(|a| (a.key.clone(), a.value.clone())).collect();
    assert_eq!(kv, vec![(addr("method"), addr("Unblock_user")), (addr("user"), addr("bella"))]);
}

#[test]
fn unblock_user_not_blocked_is_rejected() {
    let mut state = base_state();
    let r = execute(
        &mut state,
        &env(),
        &info("creator"),
        ExecuteMsg::UnblockUserMsg { user_addr: addr("bella") },
    );
    assert_eq!(r, Err(ContractError::UserNotBlocked {}));
}

#[test]
fn set_verify_pk_owner_only() {
    let mut state = base_state();
    let r = execute(
        &mut state,
        &env(),
        &info("carol"),
        ExecuteMsg::SetVerifyPkMsg { verify_pk_str: addr("pk1") },
    );
    assert_eq!(r, Err(ContractError::Unauthorized {}));
    assert_eq!(state.platform.sig_verify_pk, "pk0");

    let resp = execute(
        &mut state,
        &env(),
        &info("creator"),
        ExecuteMsg::SetVerifyPkMsg { verify_pk_str: addr("pk1") },
    )
    .unwrap();
    assert_eq!(state.platform.sig_verify_pk, "pk1");
    assert_eq!(resp.attributes.len(), 1);
    assert_eq!(resp.attributes[0].key, "method");
    assert_eq!(resp.attributes[0].value, "set_verify_pk");
}

#[test]
fn change_owner_transfers_and_schedules_second_phase() {
    let mut state = base_state();
    seed_ticket(&mut state, 0, 7, "gold", "creator", false);
    let resp = execute(
        &mut state,
        &env(),
        &info("creator"),
        ExecuteMsg::ChangeOwnerMsg {
            new_owner: addr("delia"),
            ticket_id: 7,
            ticket_type: addr("gold"),
        },
    )
    .unwrap();
    assert_eq!(state.registry.tickets[0].owner, "delia");
    assert_eq!(resp.messages.len(), 1);
    assert_eq!(resp.messages[0].contract_addr, "contract");
    assert!(resp.messages[0].funds.is_empty());
    assert_eq!(
        resp.messages[0].msg,
        ExecuteMsg::ChangeOwnerMsg {
            new_owner: addr("delia"),
            ticket_id: 7,
            ticket_type: addr("gold"),
        }
    );
    let kv: Vec<(String, String)> =
        resp.attributes.iter().map(|a| (a.key.clone(), a.value.clone())).collect();
    assert_eq!(
        kv,
        vec![
            (addr("action"), addr("change_owner")),
            (addr("ticket_id"), addr("7")),
            (addr("ticket_type"), addr("gold")),
            (addr("new_owner"), addr("delia")),
        ]
    );
}

#[test]
fn change_owner_requires_owner_capability() {
    let mut state = base_state();
    seed_ticket(&mut state, 0, 7, "gold", "carol", false);
    let before = state.clone();
    let r = execute(
        &mut state,
        &env(),
        &info("carol"),
        ExecuteMsg::ChangeOwnerMsg {
            new_owner: addr("delia"),
            ticket_id: 7,
            ticket_type: addr("gold"),
        },
    );
    assert_eq!(r, Err(ContractError::Unauthorized {}));
    assert_eq!(state, before);
}

#[test]
fn change_owner_without_owned_ticket_is_rejected() {
    let mut state = base_state();
    seed_ticket(&mut state, 0, 7, "gold", "operator", false);
    let r = execute(
        &mut state,
        &env(),
        &info("creator"),
        ExecuteMsg::ChangeOwnerMsg {
            new_owner: addr("delia"),
            ticket_id: 7,
            ticket_type: addr("gold"),
        },
    );
    assert_eq!(r, Err(ContractError::InvalidTicketType {}));
}

#[test]
fn change_owner_second_phase_is_registry_noop() {
    let (mut state, _resp) = instantiate(
        &addr("contract"),
        InstantiateMsg {
            owner: addr("operator"),
            sig_verify_pk: addr("pk0"),
            platform_fee: 1,
            max_ticket_per_person: 2,
        },
    );
    seed_ticket(&mut state, 0, 7, "gold", "contract", false);
    let before = state.clone();
    let resp = execute(
        &mut state,
        &env(),
        &info("contract"),
        ExecuteMsg::ChangeOwnerMsg {
            new_owner: addr("delia"),
            ticket_id: 7,
            ticket_type: addr("gold"),
        },
    )
    .unwrap();
    assert_eq!(state, before);
    assert!(resp.messages.is_empty());
    assert_eq!(resp.attributes.len(), 4);
    assert_eq!(resp.attributes[0].value, "change_owner");
}

#[test]
fn decimal_formatting_is_exact() {
    assert_eq!(dec_string_u64(0), "0");
    assert_eq!(dec_string_u64(7), "7");
    assert_eq!(dec_string_u64(10), "10");
    assert_eq!(dec_string_u64(987654321), "987654321");
    assert_eq!(dec_string_u64(u64::MAX), "18446744073709551615");
    assert_eq!(dec_string_u128(u128::MAX), "340282366920938463463374607431768211455");
}

#[test]
fn buy_ticket_with_no_funds_is_rejected() {
    let mut state = base_state();
    seed_ticket(&mut state, 0, 7, "gold", "operator", false);
    let before = state.clone();
    let r = execute(
        &mut state,
        &env(),
        &info("buyer"),
        ExecuteMsg::BuyTicket { ticket_id: 7, amount: vec![], ticket_type: addr("gold") },
    );
    assert_eq!(r, Err(ContractError::InsufficientAmount {}));
    assert_eq!(state, before);
}

#[test]
fn buy_ticket_with_maximal_payment() {
    let mut state = base_state();
    seed_ticket(&mut state, 0, 7, "gold", "operator", false);
    let resp = execute(
        &mut state,
        &env(),
        &info("buyer"),
        ExecuteMsg::BuyTicket {
            ticket_id: 7,
            amount: coins(u128::MAX),
            ticket_type: addr("gold"),
        },
    )
    .unwrap();
    assert_eq!(state.platform.profit, u128::MAX);
    assert_eq!(resp.attributes[3].value, "340282366920938463463374607431768211455");
}
