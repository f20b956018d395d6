use erc20_ledger::api_error::ApiError;
use erc20_ledger::compound_erc20::data::{
    get_contract_hash, get_package_hash, set_contract_hash, set_package_hash, ContractData,
};
use erc20_ledger::compound_erc20::{account_zero_address, emit, zero_address, ERC20Event, Error};
use erc20_ledger::key::Key;
use erc20_ledger::ledger::Ledger;
use erc20_ledger::record::Field;
use erc20_ledger::u256::U256;

const ZEROS: &str = "0000000000000000000000000000000000000000000000000000000000000000";

fn account(n: u8) -> Key {
    Key::Account([n; 32])
}

fn amount(n: u64) -> U256 {
    U256::from_u64(n)
}

fn hex_of(n: u8) -> String {
    format!("{:02x}", n).repeat(32)
}

fn fields(record: &Vec<Field>) -> Vec<(String, String)> {
    record
        .iter()
        .map(|field| (field.name.clone(), field.value.clone()))
        .collect()
}

fn pair(name: &str, value: String) -> (String, String) {
    (name.to_string(), value)
}

fn data() -> ContractData {
    let mut data = ContractData::default();
    set_contract_hash(&mut data, [0xc1; 32]);
    set_package_hash(&mut data, [0xee; 32]);
    data
}

fn empty() -> Ledger {
    Ledger::new("Token".to_string(), "TKN".to_string(), 9, amount(0))
}

fn guarded(caller: Key, ledger: Ledger) -> erc20_ledger::compound_erc20::ERC20 {
    erc20_ledger::compound_erc20::ERC20::at(caller, data(), ledger)
}

fn reporting(caller: Key, ledger: Ledger) -> erc20_ledger::uniswap_erc20::ERC20 {
    erc20_ledger::uniswap_erc20::ERC20::at(caller, data(), ledger)
}

#[test]
fn contract_data_starts_at_zero_and_keeps_what_is_set() {
    let mut data = ContractData::default();
    assert_eq!(get_contract_hash(&data), [0u8; 32]);
    assert_eq!(get_package_hash(&data), [0u8; 32]);
    set_contract_hash(&mut data, [1; 32]);
    assert_eq!(get_contract_hash(&data), [1u8; 32]);
    assert_eq!(get_package_hash(&data), [0u8; 32]);
    set_package_hash(&mut data, [2; 32]);
    assert_eq!(get_contract_hash(&data), [1u8; 32]);
    assert_eq!(get_package_hash(&data), [2u8; 32]);
}

#[test]
fn guard_failures_have_their_codes() {
    assert_eq!(Error::CompoundErc20ZeroAddress1.code(), 20);
    assert_eq!(Error::CompoundErc20ZeroAddress2.code(), 21);
    assert_eq!(ApiError::from(Error::CompoundErc20ZeroAddress2), ApiError::User(21));
}

#[test]
fn guarded_events_are_named_by_their_kind() {
    let approval = ERC20Event::Approval { owner: account(1), spender: account(2), value: amount(1) };
    let transfer = ERC20Event::Transfer { from: account(1), to: account(2), value: amount(1) };
    assert_eq!(approval.event_type(), "approve");
    assert_eq!(transfer.event_type(), "transfer");
}

#[test]
fn emit_builds_the_record_of_a_transfer() {
    let records = emit(
        &data(),
        &ERC20Event::Transfer { from: account(1), to: Key::Hash([2; 32]), value: amount(77) },
    );
    assert_eq!(records.len(), 1);
    assert_eq!(
        fields(&records[0]),
        vec![
            pair("contract_package_hash", hex_of(0xee)),
            pair("event_type", "transfer".to_string()),
            pair("from", format!("Key::Account({})", hex_of(1))),
            pair("to", format!("Key::Hash({})", hex_of(2))),
            pair("value", "77".to_string()),
        ]
    );
}

#[test]
fn emit_builds_the_record_of_an_approval() {
    let records = emit(
        &data(),
        &ERC20Event::Approval { owner: account(1), spender: account(2), value: amount(0) },
    );
    assert_eq!(records.len(), 1);
    assert_eq!(
        fields(&records[0]),
        vec![
            pair("contract_package_hash", hex_of(0xee)),
            pair("event_type", "approve".to_string()),
            pair("owner", format!("Key::Account({})", hex_of(1))),
            pair("spender", format!("Key::Account({})", hex_of(2))),
            pair("value", "0".to_string()),
        ]
    );
}

#[test]
fn guarded_transfer_refuses_the_zero_addresses() {
    let mut ledger = empty();
    ledger.set_balance(&account(1), amount(10)).unwrap();
    let mut token = guarded(account(1), ledger);
    assert_eq!(token.transfer(zero_address(), amount(1)), Err(ApiError::User(20)));
    assert_eq!(token.transfer(account_zero_address(), amount(1)), Err(ApiError::User(20)));
    assert_eq!(token.transfer(account_zero_address(), amount(0)), Err(ApiError::User(20)));
    assert_eq!(token.balance_of(account(1)), Ok(amount(10)));
    assert!(token.records().is_empty());
}

#[test]
fn guarded_transfer_moves_and_records() {
    let mut ledger = empty();
    ledger.set_balance(&account(1), amount(10)).unwrap();
    let mut token = guarded(account(1), ledger);
    assert_eq!(token.transfer(account(2), amount(4)), Ok(()));
    assert_eq!(token.balance_of(account(1)), Ok(amount(6)));
    assert_eq!(token.balance_of(account(2)), Ok(amount(4)));
    assert_eq!(token.records().len(), 1);
    assert_eq!(
        fields(&token.records()[0]),
        vec![
            pair("contract_package_hash", hex_of(0xee)),
            pair("event_type", "transfer".to_string()),
            pair("from", format!("Key::Account({})", hex_of(1))),
            pair("to", format!("Key::Account({})", hex_of(2))),
            pair("value", "4".to_string()),
        ]
    );
    assert_eq!(token.transfer(account(2), amount(7)), Err(ApiError::User(10)));
    assert_eq!(token.records().len(), 1);
}

#[test]
fn guarded_transfer_from_refuses_the_zero_addresses() {
    let mut ledger = empty();
    ledger.set_balance(&account(1), amount(10)).unwrap();
    ledger.set_allowance(&account(1), &account(2), amount(10));
    let mut token = guarded(account(2), ledger);
    assert_eq!(
        token.transfer_from(account(1), zero_address(), amount(1)),
        Err(ApiError::User(21))
    );
    assert_eq!(
        token.transfer_from(account(1), account_zero_address(), amount(1)),
        Err(ApiError::User(21))
    );
    assert_eq!(token.balance_of(account(1)), Ok(amount(10)));
    assert_eq!(token.allowance(account(1), account(2)), amount(10));
    assert_eq!(token.transfer_from(account(1), account(3), amount(4)), Ok(Ok(())));
    assert_eq!(token.balance_of(account(3)), Ok(amount(4)));
    assert_eq!(token.allowance(account(1), account(2)), amount(6));
    assert_eq!(token.records().len(), 1);
}

#[test]
fn guarded_token_is_set_directly() {
    let mut token = guarded(account(1), empty());
    token.init([5; 32], [6; 32]);
    assert_eq!(token.set_balance(account(1), amount(3)), Ok(()));
    token.set_allowance(account(1), account(2), amount(2));
    token.set_total_supply(amount(3));
    token.set_name("N".to_string());
    token.set_symbol("S".to_string());
    assert_eq!(token.balance_of(account(1)), Ok(amount(3)));
    assert_eq!(token.allowance(account(1), account(2)), amount(2));
    assert_eq!(token.total_supply(), amount(3));
    assert_eq!(token.name(), "N");
    assert_eq!(token.symbol(), "S");
    assert_eq!(token.decimals(), 9);
    assert_eq!(token.approve(account(2), amount(8)), Ok(()));
    assert_eq!(token.allowance(account(1), account(2)), amount(8));
    assert_eq!(token.increase_allowance(account(2), amount(1)), Ok(Ok(())));
    assert_eq!(token.decrease_allowance(account(2), amount(4)), Ok(Ok(())));
    assert_eq!(token.allowance(account(1), account(2)), amount(5));
    assert_eq!(token.mint(account(1), amount(1)), Ok(()));
    assert_eq!(token.burn(account(1), amount(4)), Ok(()));
    assert_eq!(token.burn(account(1), amount(1)), Err(ApiError::InsufficientFunds));
    assert_eq!(token.total_supply(), amount(0));
    assert_eq!(token.records().len(), 1);
    assert_eq!(
        fields(&token.records()[0])[0],
        pair("contract_package_hash", hex_of(6))
    );
}

#[test]
fn mint_is_recorded_as_a_transfer_from_no_contract() {
    let mut token = reporting(account(1), empty());
    assert_eq!(token.mint(account(0xa), amount(50)), Ok(()));
    assert_eq!(token.balance_of(account(0xa)), Ok(amount(50)));
    assert_eq!(token.total_supply(), amount(50));
    assert_eq!(token.records().len(), 1);
    assert_eq!(
        fields(&token.records()[0]),
        vec![
            pair("contract_package_hash", hex_of(0xee)),
            pair("event_type", "transfer".to_string()),
            pair("from", format!("Key::Hash({})", ZEROS)),
            pair("to", format!("Key::Account({})", hex_of(0xa))),
            pair("value", "50".to_string()),
        ]
    );
}

#[test]
fn burn_is_recorded_as_a_transfer_to_no_contract() {
    let mut token = reporting(account(1), empty());
    token.mint(account(2), amount(50)).unwrap();
    assert_eq!(token.burn(account(2), amount(50)), Ok(()));
    assert_eq!(token.total_supply(), amount(0));
    assert_eq!(
        fields(&token.records()[1])[3],
        pair("to", format!("Key::Hash({})", ZEROS))
    );
    assert_eq!(token.burn(account(2), amount(1)), Err(ApiError::InsufficientFunds));
    assert_eq!(token.records().len(), 2);
}

#[test]
fn reporting_token_records_what_it_does() {
    let mut token = reporting(account(1), empty());
    token.init([5; 32], [0xee; 32]);
    token.mint(account(1), amount(100)).unwrap();
    assert_eq!(token.transfer(account(2), amount(30)), Ok(()));
    assert_eq!(token.approve(account(1), amount(10)), Ok(()));
    assert_eq!(token._approve(account(2), account(1), amount(20)), Ok(()));
    assert_eq!(token.transfer_from(account(2), account(3), amount(5)), Ok(Ok(())));
    assert_eq!(token.transfer_from(account(2), account(3), amount(26)), Err(ApiError::User(10)));
    assert_eq!(token.transfer_from(account(2), account(3), amount(16)), Err(ApiError::User(7)));
    assert_eq!(token.increase_allowance(account(2), amount(3)), Ok(Ok(())));
    assert_eq!(token.decrease_allowance(account(2), amount(1)), Ok(Ok(())));
    assert_eq!(token.balance_of(account(1)), Ok(amount(70)));
    assert_eq!(token.balance_of(account(2)), Ok(amount(25)));
    assert_eq!(token.balance_of(account(3)), Ok(amount(5)));
    assert_eq!(token.allowance(account(2), account(1)), amount(15));
    assert_eq!(token.allowance(account(1), account(2)), amount(2));
    assert_eq!(token.total_supply(), amount(100));
    assert_eq!(token.name(), "Token");
    assert_eq!(token.symbol(), "TKN");
    assert_eq!(token.decimals(), 9);
    assert_eq!(token.get_caller(), account(1));
    let kinds: Vec<String> = token.records().iter().map(|r| r[1].value.clone()).collect();
    assert_eq!(kinds, vec!["transfer", "transfer", "approve", "approve", "transfer"]);
}
