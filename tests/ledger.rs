use banana_sale::contract::{execute, get_coin_info, instantiate, migrate, Contract};
use banana_sale::error::ContractError;
use banana_sale::msg::{Coin, ExecuteMsg, InstantiateMsg, MigrateMsg};
use banana_sale::state::{SaleInfo, State, UserInfo};
use cosmwasm_std::{to_json_binary, Uint128};
use cw20::Cw20ExecuteMsg;

fn setup(token: &str, total_supply: u128, airdrop_amount: u128) -> Contract {
    let msg = InstantiateMsg {
        admin: "admin".to_string(),
        token_address: token.to_string(),
        total_supply,
        airdrop_amount,
    };
    let (contract, res) = instantiate(msg, true, true).unwrap();
    assert_eq!(res.messages.len(), 0);
    contract
}

fn transfer_bytes(recipient: &str, amount: u128) -> Vec<u8> {
    to_json_binary(&Cw20ExecuteMsg::Transfer {
        recipient: recipient.to_string(),
        amount: Uint128::new(amount),
    })
    .unwrap()
    .to_vec()
}

fn sender(s: &str) -> String {
    s.to_string()
}

#[test]
fn init_contract() {
    let instantiate_msg = InstantiateMsg {
        admin: "admin".to_string(),
        token_address: "token_address".to_string(),
        total_supply: 10000,
        airdrop_amount: 100,
    };
    let (contract, res) = instantiate(instantiate_msg, true, true).unwrap();
    assert_eq!(0, res.messages.len());
    assert_eq!(contract.config.admin, "admin");
    assert_eq!(contract.config.total_supply, 10000);
    assert_eq!(contract.config.airdrop_amount, 100);
    assert_eq!(contract.sale_info.total_aridropped_amount, 0);
    assert!(contract.users.is_empty());
}

#[test]
fn test_buy() {
    let mut contract = setup("token_address", 10000, 100);
    let res = execute(&mut contract, &sender("user1"), ExecuteMsg::Claim {}, true).unwrap();
    assert_eq!(res.messages.len(), 1);
    assert_eq!(res.messages[0].contract_addr, "token_address");
    assert_eq!(res.messages[0].msg, transfer_bytes("user1", 100));
}

#[test]
fn instantiate_rejects_bad_address() {
    let msg = InstantiateMsg {
        admin: "admin".to_string(),
        token_address: "tok".to_string(),
        total_supply: 10000,
        airdrop_amount: 100,
    };
    assert!(matches!(instantiate(msg, true, false), Err(ContractError::WrongConfig {})));
    let msg = InstantiateMsg {
        admin: "".to_string(),
        token_address: "tok".to_string(),
        total_supply: 10000,
        airdrop_amount: 100,
    };
    assert!(matches!(instantiate(msg, false, true), Err(ContractError::WrongConfig {})));
}

#[test]
fn claim_once_then_already_claimed() {
    let mut contract = setup("tok", 10000, 100);
    let res = contract.execute_claim(&sender("user1")).unwrap();
    assert_eq!(res.messages.len(), 1);
    assert_eq!(res.messages[0].contract_addr, "tok");
    assert_eq!(res.messages[0].msg, transfer_bytes("user1", 100));
    assert_eq!(contract.sale_info.total_aridropped_amount, 100);
    assert!(contract.is_claimed(&sender("user1")));
    assert!(!contract.is_claimed(&sender("user2")));

    let again = contract.execute_claim(&sender("user1"));
    assert!(matches!(again, Err(ContractError::AlreadyClaimed {})));
    assert_eq!(contract.sale_info.total_aridropped_amount, 100);
    assert_eq!(contract.users.len(), 1);
    assert_eq!(contract.users[0].address, "user1");
    assert!(contract.users[0].is_claimed);
    assert_eq!(contract.users[0].amount, 100);
}

#[test]
fn claim_over_supply_is_refused() {
    let mut contract = setup("tok", 50, 100);
    let res = execute(&mut contract, &sender("anyone"), ExecuteMsg::Claim {}, true);
    assert!(matches!(res, Err(ContractError::NoEnoughTokens {})));
    assert_eq!(contract.sale_info.total_aridropped_amount, 0);
    assert!(contract.users.is_empty());
    assert!(!contract.is_claimed(&sender("anyone")));
}

#[test]
fn supply_is_used_up_exactly() {
    let mut contract = setup("tok", 200, 100);
    assert!(contract.execute_claim(&sender("a")).is_ok());
    assert!(contract.execute_claim(&sender("b")).is_ok());
    assert_eq!(contract.sale_info.total_aridropped_amount, 200);
    let third = contract.execute_claim(&sender("c"));
    assert!(matches!(third, Err(ContractError::NoEnoughTokens {})));
    // the supply check comes before the per-address check
    let repeat = contract.execute_claim(&sender("a"));
    assert!(matches!(repeat, Err(ContractError::NoEnoughTokens {})));
    assert_eq!(contract.users.len(), 2);
}

#[test]
fn claim_near_the_integer_limit_does_not_overflow() {
    let mut contract = setup("tok", u128::MAX, u128::MAX);
    assert!(contract.execute_claim(&sender("a")).is_ok());
    assert_eq!(contract.sale_info.total_aridropped_amount, u128::MAX);
    let res = contract.execute_claim(&sender("b"));
    assert!(matches!(res, Err(ContractError::NoEnoughTokens {})));
}

#[test]
fn zero_allotment_still_claims_once() {
    let mut contract = setup("tok", 0, 0);
    assert!(contract.execute_claim(&sender("a")).is_ok());
    assert!(matches!(contract.execute_claim(&sender("a")), Err(ContractError::AlreadyClaimed {})));
    assert_eq!(contract.sale_info.total_aridropped_amount, 0);
}

#[test]
fn withdraw_sends_leftover_to_admin() {
    let mut contract = setup("tok", 10000, 100);
    contract.execute_claim(&sender("user1")).unwrap();
    let res = execute(&mut contract, &sender("admin"), ExecuteMsg::WithdrawTokenByAdmin {}, true).unwrap();
    assert_eq!(res.messages.len(), 1);
    assert_eq!(res.messages[0].msg, transfer_bytes("admin", 9900));
    assert_eq!(contract.sale_info.total_aridropped_amount, 100);
}

#[test]
fn withdraw_uses_configured_token() {
    let contract = setup("tok", 10000, 100);
    let res = contract.execute_withdraw_token_by_admin(&sender("admin")).unwrap();
    assert_eq!(res.messages[0].contract_addr, "tok");
    assert_ne!(res.messages[0].contract_addr, "token_address");
    assert_eq!(res.messages[0].msg, transfer_bytes("admin", 10000));
}

#[test]
fn withdraw_by_other_is_unauthorized() {
    let mut contract = setup("tok", 10000, 100);
    let res = execute(&mut contract, &sender("user1"), ExecuteMsg::WithdrawTokenByAdmin {}, true);
    assert!(matches!(res, Err(ContractError::Unauthorized {})));
}

#[test]
fn change_admin_by_other_is_unauthorized() {
    let mut contract = setup("tok", 10000, 100);
    let msg = ExecuteMsg::ChangeAdmin { address: "user1".to_string() };
    let res = execute(&mut contract, &sender("user1"), msg, true);
    assert!(matches!(res, Err(ContractError::Unauthorized {})));
    assert_eq!(contract.config.admin, "admin");
}

#[test]
fn change_admin_hands_over_rights() {
    let mut contract = setup("tok", 10000, 100);
    let msg = ExecuteMsg::ChangeAdmin { address: "boss".to_string() };
    let res = execute(&mut contract, &sender("admin"), msg, true).unwrap();
    assert_eq!(res.messages.len(), 0);
    assert_eq!(contract.config.admin, "boss");
    assert_eq!(contract.config.token_address, "tok");
    let old = contract.execute_withdraw_token_by_admin(&sender("admin"));
    assert!(matches!(old, Err(ContractError::Unauthorized {})));
    let res = contract.execute_withdraw_token_by_admin(&sender("boss")).unwrap();
    assert_eq!(res.messages[0].msg, transfer_bytes("boss", 10000));
}

fn new_state(total_supply: u128, airdrop_amount: u128) -> State {
    State {
        admin: "admin".to_string(),
        token_address: "tok2".to_string(),
        total_supply,
        airdrop_amount,
    }
}

#[test]
fn update_config_by_other_is_unauthorized() {
    let mut contract = setup("tok", 10000, 100);
    let res = execute(&mut contract, &sender("user1"), ExecuteMsg::UpdateConfig { state: new_state(5, 5) }, true);
    assert!(matches!(res, Err(ContractError::Unauthorized {})));
    assert_eq!(contract.config.total_supply, 10000);
    assert_eq!(contract.config.token_address, "tok");
}

#[test]
fn update_config_below_distributed_is_refused() {
    let mut contract = setup("tok", 10000, 100);
    contract.execute_claim(&sender("a")).unwrap();
    contract.execute_claim(&sender("b")).unwrap();
    let res = contract.execute_update_config(&sender("admin"), new_state(199, 100), true);
    assert!(matches!(res, Err(ContractError::WrongConfig {})));
    assert_eq!(contract.config.total_supply, 10000);
    let res = contract.execute_update_config(&sender("admin"), new_state(200, 50), true).unwrap();
    assert_eq!(res.messages.len(), 0);
    assert_eq!(contract.config.total_supply, 200);
    assert_eq!(contract.config.airdrop_amount, 50);
    assert_eq!(contract.config.token_address, "tok2");
}

#[test]
fn raising_supply_reopens_claims() {
    let mut contract = setup("tok", 100, 100);
    contract.execute_claim(&sender("a")).unwrap();
    assert!(matches!(contract.execute_claim(&sender("b")), Err(ContractError::NoEnoughTokens {})));
    contract.execute_update_config(&sender("admin"), new_state(300, 100), true).unwrap();
    let res = contract.execute_claim(&sender("b")).unwrap();
    assert_eq!(res.messages[0].contract_addr, "tok2");
    assert_eq!(contract.sale_info.total_aridropped_amount, 200);
}

#[test]
fn migrate_checks_contract_name() {
    let ok = migrate("BANANA_SALE".to_string(), MigrateMsg {}).unwrap();
    assert_eq!(ok.messages.len(), 0);
    match migrate("OTHER_SALE".to_string(), MigrateMsg {}) {
        Err(ContractError::CannotMigrate { previous_contract }) => assert_eq!(previous_contract, "OTHER_SALE"),
        _ => panic!("expected CannotMigrate"),
    }
}

fn coin(denom: &str, amount: u128) -> Coin {
    Coin { denom: denom.to_string(), amount }
}

#[test]
fn coin_info_checks() {
    assert!(matches!(get_coin_info(&vec![]), Err(ContractError::SeveralCoinsSent {})));
    let two = vec![coin("ujuno", 1), coin("ujuno", 2)];
    assert!(matches!(get_coin_info(&two), Err(ContractError::SeveralCoinsSent {})));
    assert!(matches!(get_coin_info(&vec![coin("uatom", 5)]), Err(ContractError::InvalidCoin {})));
    let c = get_coin_info(&vec![coin("ujuno", 7)]).unwrap();
    assert_eq!(c.denom, "ujuno");
    assert_eq!(c.amount, 7);
}

#[test]
fn queries_report_records_and_total() {
    let mut contract = setup("tok", 10000, 100);
    assert!(contract.query_user_info(&sender("user1")).is_none());
    contract.execute_claim(&sender("user1")).unwrap();
    let info = contract.query_user_info(&sender("user1")).unwrap();
    assert_eq!(info.address, "user1");
    assert!(info.is_claimed);
    assert_eq!(info.amount, 100);
    assert!(contract.query_user_info(&sender("user2")).is_none());
    assert_eq!(contract.query_sale_info().total_aridropped_amount, 100);
}

fn record(address: &str, amount: u128) -> UserInfo {
    UserInfo { address: address.to_string(), is_claimed: true, amount }
}

fn ledger(total: u128, supply: u128, users: Vec<UserInfo>) -> Contract {
    Contract {
        config: State {
            admin: "admin".to_string(),
            token_address: "tok".to_string(),
            total_supply: supply,
            airdrop_amount: 100,
        },
        sale_info: SaleInfo { total_aridropped_amount: total },
        users,
    }
}

#[test]
fn well_formed_ledgers_are_recognised() {
    let mut contract = setup("tok", 10000, 100);
    assert!(contract.is_well_formed());
    contract.execute_claim(&sender("a")).unwrap();
    contract.execute_claim(&sender("b")).unwrap();
    assert!(contract.is_well_formed());
    assert!(ledger(150, 200, vec![record("a", 100), record("b", 50)]).is_well_formed());
}

#[test]
fn malformed_ledgers_are_refused() {
    // total above the supply
    assert!(!ledger(300, 200, vec![record("a", 300)]).is_well_formed());
    // total differs from the records
    assert!(!ledger(100, 200, vec![record("a", 100), record("b", 50)]).is_well_formed());
    assert!(!ledger(200, 200, vec![record("a", 100)]).is_well_formed());
    // two records for one address
    assert!(!ledger(200, 200, vec![record("a", 100), record("a", 100)]).is_well_formed());
    // a record that marks no claim
    let mut unclaimed = record("a", 100);
    unclaimed.is_claimed = false;
    assert!(!ledger(100, 200, vec![unclaimed]).is_well_formed());
    // the record amounts overflow
    assert!(!ledger(u128::MAX, u128::MAX, vec![record("a", u128::MAX), record("b", 1)]).is_well_formed());
}

#[test]
fn change_admin_to_malformed_address_is_refused() {
    let mut contract = setup("tok", 10000, 100);
    let res = contract.execute_change_admin(&sender("admin"), "".to_string(), false);
    assert!(matches!(res, Err(ContractError::WrongConfig {})));
    assert_eq!(contract.config.admin, "admin");
    // the caller is checked before the address
    let res = contract.execute_change_admin(&sender("user1"), "".to_string(), false);
    assert!(matches!(res, Err(ContractError::Unauthorized {})));
}

#[test]
fn update_config_with_malformed_address_is_refused() {
    let mut contract = setup("tok", 10000, 100);
    let msg = ExecuteMsg::UpdateConfig { state: new_state(20000, 5) };
    let res = execute(&mut contract, &sender("admin"), msg, false);
    assert!(matches!(res, Err(ContractError::WrongConfig {})));
    assert_eq!(contract.config.total_supply, 10000);
    assert_eq!(contract.config.token_address, "tok");
}

#[test]
fn withdraw_twice_gives_the_same_transfer() {
    let mut contract = setup("tok", 10000, 100);
    contract.execute_claim(&sender("user1")).unwrap();
    let first = contract.execute_withdraw_token_by_admin(&sender("admin")).unwrap();
    let second = contract.execute_withdraw_token_by_admin(&sender("admin")).unwrap();
    assert_eq!(first.messages[0].msg, second.messages[0].msg);
    assert_eq!(first.messages[0].contract_addr, second.messages[0].contract_addr);
    assert_eq!(contract.sale_info.total_aridropped_amount, 100);
}

#[test]
fn claims_in_either_order_reach_the_same_ledger() {
    let mut one = setup("tok", 10000, 100);
    one.execute_claim(&sender("a")).unwrap();
    one.execute_claim(&sender("b")).unwrap();
    let mut two = setup("tok", 10000, 100);
    let rb = two.execute_claim(&sender("b")).unwrap();
    let ra = two.execute_claim(&sender("a")).unwrap();
    assert_eq!(ra.messages[0].msg, transfer_bytes("a", 100));
    assert_eq!(rb.messages[0].msg, transfer_bytes("b", 100));
    assert_eq!(one.sale_info.total_aridropped_amount, 200);
    assert_eq!(two.sale_info.total_aridropped_amount, 200);
    assert!(one.is_claimed(&sender("a")) && one.is_claimed(&sender("b")));
    assert!(two.is_claimed(&sender("a")) && two.is_claimed(&sender("b")));
}
