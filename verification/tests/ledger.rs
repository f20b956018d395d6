use erc20_ledger::api_error::ApiError;
use erc20_ledger::erc20::{ERC20Event, Error, ERC20};
use erc20_ledger::key::Key;
use erc20_ledger::ledger::{Ledger, REJECTED};
use erc20_ledger::record::Field;
use erc20_ledger::u256::U256;

const ZEROS: &str = "0000000000000000000000000000000000000000000000000000000000000000";

fn account(n: u8) -> Key {
    Key::Account([n; 32])
}

fn contract(n: u8) -> Key {
    Key::Hash([n; 32])
}

fn amount(n: u64) -> U256 {
    U256::from_u64(n)
}

fn hex_of(n: u8) -> String {
    format!("{:02x}", n).repeat(32)
}

fn token(caller: Key) -> ERC20 {
    ERC20::init(
        caller,
        "Token".to_string(),
        "TKN".to_string(),
        9,
        amount(0),
        contract(0xcc),
        [0xdd; 32],
    )
    .unwrap()
}

fn called_by(caller: Key, token: &ERC20) -> ERC20 {
    let mut ledger = Ledger::new(token.name(), token.symbol(), token.decimals(), token.total_supply());
    for n in 0..=255u8 {
        for key in [account(n), contract(n)] {
            let balance = token.balance_of(key).unwrap();
            if !balance.is_zero() {
                ledger.set_balance(&key, balance).unwrap();
            }
        }
    }
    for a in 1..=4u8 {
        for b in 1..=4u8 {
            let allowance = token.allowance(account(a), account(b));
            if !allowance.is_zero() {
                ledger.set_allowance(&account(a), &account(b), allowance);
            }
        }
    }
    ERC20::at(caller, token.get_hash(), token.get_package_hash(), ledger)
}

fn sum_of_balances(token: &ERC20) -> U256 {
    let mut sum = amount(0);
    for n in 0..=255u8 {
        sum = sum.checked_add(token.balance_of(account(n)).unwrap()).unwrap();
    }
    sum
}

fn fields(record: &Vec<Field>) -> Vec<(String, String)> {
    record
        .iter()
        .map(|field| (field.name.clone(), field.value.clone()))
        .collect()
}

fn pair(name: &str, value: String) -> (String, String) {
    (name.to_string(), value)
}

#[test]
fn new_token_is_empty() {
    let token = token(account(1));
    assert_eq!(token.name(), "Token");
    assert_eq!(token.symbol(), "TKN");
    assert_eq!(token.decimals(), 9);
    assert_eq!(token.total_supply(), amount(0));
    assert_eq!(token.balance_of(account(1)), Ok(amount(0)));
    assert_eq!(token.allowance(account(1), account(2)), amount(0));
    assert_eq!(token.nonce(account(1)), Ok(amount(0)));
    assert_eq!(token.get_caller(), account(1));
    assert_eq!(token.get_hash(), contract(0xcc));
    assert_eq!(token.get_package_hash(), [0xdd; 32]);
    assert!(token.records().is_empty());
}

#[test]
fn token_cannot_be_installed_by_a_dictionary_key() {
    let r = ERC20::init(
        Key::Dictionary([1; 32]),
        "Token".to_string(),
        "TKN".to_string(),
        9,
        amount(0),
        contract(0xcc),
        [0xdd; 32],
    );
    assert!(matches!(r, Err(ApiError::UnexpectedKeyVariant)));
}

#[test]
fn mint_on_an_empty_ledger() {
    let mut token = token(account(1));
    assert_eq!(token.mint(account(0xa), amount(50)), Ok(()));
    assert_eq!(token.balance_of(account(0xa)), Ok(amount(50)));
    assert_eq!(token.total_supply(), amount(50));
    assert_eq!(token.records().len(), 1);
    assert_eq!(
        fields(&token.records()[0]),
        vec![
            pair("contract_package_hash", hex_of(0xdd)),
            pair("event_type", "transfer".to_string()),
            pair("from", format!("Key::Account({})", ZEROS)),
            pair("to", format!("Key::Account({})", hex_of(0xa))),
            pair("value", "50".to_string()),
        ]
    );
}

#[test]
fn mint_fails_when_the_balance_would_overflow() {
    let mut token = token(account(1));
    let mut ledger = Ledger::new("T".to_string(), "T".to_string(), 0, amount(0));
    ledger.set_balance(&account(2), U256::max_value()).unwrap();
    let mut token2 = ERC20::at(account(1), contract(1), [0; 32], ledger);
    assert_eq!(
        token2.mint(account(2), amount(1)),
        Err(ApiError::User(Error::UniswapV2CoreERC20OverFlow2.code()))
    );
    assert_eq!(token2.balance_of(account(2)), Ok(U256::max_value()));
    assert_eq!(token2.total_supply(), amount(0));
    assert!(token2.records().is_empty());
    assert_eq!(token.mint(account(2), U256::max_value()), Ok(()));
    assert_eq!(
        token.mint(account(3), amount(1)),
        Err(ApiError::User(Error::UniswapV2CoreERC20OverFlow3.code()))
    );
    assert_eq!(token.balance_of(account(3)), Ok(amount(0)));
    assert_eq!(token.total_supply(), U256::max_value());
    assert_eq!(token.records().len(), 1);
}

#[test]
fn mint_refuses_a_dictionary_key() {
    let mut token = token(account(1));
    assert_eq!(
        token.mint(Key::Dictionary([1; 32]), amount(1)),
        Err(ApiError::UnexpectedKeyVariant)
    );
    assert_eq!(token.total_supply(), amount(0));
    assert_eq!(
        token.balance_of(Key::Dictionary([1; 32])),
        Err(ApiError::UnexpectedKeyVariant)
    );
}

#[test]
fn burn_lowers_balance_and_supply() {
    let mut token = token(account(1));
    token.mint(account(2), amount(50)).unwrap();
    assert_eq!(token.burn(account(2), amount(20)), Ok(()));
    assert_eq!(token.balance_of(account(2)), Ok(amount(30)));
    assert_eq!(token.total_supply(), amount(30));
    assert_eq!(token.records().len(), 2);
    assert_eq!(
        fields(&token.records()[1]),
        vec![
            pair("contract_package_hash", hex_of(0xdd)),
            pair("event_type", "transfer".to_string()),
            pair("from", format!("Key::Account({})", hex_of(2))),
            pair("to", format!("Key::Account({})", ZEROS)),
            pair("value", "20".to_string()),
        ]
    );
}

#[test]
fn burn_of_more_than_the_balance_is_insufficient_funds() {
    let mut token = token(account(1));
    token.mint(account(2), amount(50)).unwrap();
    assert_eq!(token.burn(account(2), amount(51)), Err(ApiError::InsufficientFunds));
    assert_eq!(token.balance_of(account(2)), Ok(amount(50)));
    assert_eq!(token.total_supply(), amount(50));
    assert_eq!(token.records().len(), 1);
}

#[test]
fn burn_fails_when_the_supply_is_smaller() {
    let mut ledger = Ledger::new("T".to_string(), "T".to_string(), 0, amount(5));
    ledger.set_balance(&account(2), amount(10)).unwrap();
    let mut token = ERC20::at(account(1), contract(1), [0; 32], ledger);
    assert_eq!(
        token.burn(account(2), amount(6)),
        Err(ApiError::User(Error::UniswapV2CoreERC20UnderFlow4.code()))
    );
    assert_eq!(token.balance_of(account(2)), Ok(amount(10)));
    assert_eq!(token.total_supply(), amount(5));
}

#[test]
fn transfer_moves_tokens_and_records_it() {
    let mut token = token(account(1));
    token.mint(account(1), amount(100)).unwrap();
    assert_eq!(token.transfer(account(2), amount(30)), Ok(Ok(())));
    assert_eq!(token.balance_of(account(1)), Ok(amount(70)));
    assert_eq!(token.balance_of(account(2)), Ok(amount(30)));
    assert_eq!(token.total_supply(), amount(100));
    assert_eq!(token.records().len(), 2);
    assert_eq!(
        fields(&token.records()[1]),
        vec![
            pair("contract_package_hash", hex_of(0xdd)),
            pair("event_type", "transfer".to_string()),
            pair("from", format!("Key::Account({})", hex_of(1))),
            pair("to", format!("Key::Account({})", hex_of(2))),
            pair("value", "30".to_string()),
        ]
    );
}

#[test]
fn transfer_to_oneself_or_of_nothing_does_nothing() {
    let mut token = token(account(1));
    token.mint(account(1), amount(100)).unwrap();
    assert_eq!(token.transfer(account(1), amount(30)), Ok(Ok(())));
    assert_eq!(token.transfer(account(2), amount(0)), Ok(Ok(())));
    assert_eq!(token.transfer(account(1), amount(1000)), Ok(Ok(())));
    assert_eq!(token.balance_of(account(1)), Ok(amount(100)));
    assert_eq!(token.balance_of(account(2)), Ok(amount(0)));
    assert_eq!(token.records().len(), 1);
}

#[test]
fn transfer_of_more_than_the_balance_fails_and_changes_nothing() {
    let mut token = token(account(1));
    token.mint(account(1), amount(100)).unwrap();
    assert_eq!(
        token.transfer(account(2), amount(101)),
        Err(ApiError::User(Error::UniswapV2CoreERC20UnderFlow5.code()))
    );
    assert_eq!(token.balance_of(account(1)), Ok(amount(100)));
    assert_eq!(token.balance_of(account(2)), Ok(amount(0)));
    assert_eq!(token.total_supply(), amount(100));
    assert_eq!(token.records().len(), 1);
}

#[test]
fn transfer_fails_when_the_recipient_would_overflow() {
    let mut ledger = Ledger::new("T".to_string(), "T".to_string(), 0, amount(0));
    ledger.set_balance(&account(1), amount(10)).unwrap();
    ledger.set_balance(&account(2), U256::max_value()).unwrap();
    let mut token = ERC20::at(account(1), contract(1), [0; 32], ledger);
    assert_eq!(
        token.transfer(account(2), amount(1)),
        Err(ApiError::User(Error::UniswapV2CoreERC20OverFlow4.code()))
    );
    assert_eq!(token.balance_of(account(1)), Ok(amount(10)));
    assert_eq!(token.balance_of(account(2)), Ok(U256::max_value()));
}

#[test]
fn transfer_refuses_a_dictionary_key() {
    let mut token = token(account(1));
    token.mint(account(1), amount(100)).unwrap();
    assert_eq!(
        token.transfer(Key::Dictionary([1; 32]), amount(1)),
        Err(ApiError::UnexpectedKeyVariant)
    );
    assert_eq!(token.balance_of(account(1)), Ok(amount(100)));
}

#[test]
fn transfer_between_account_and_contract_of_the_same_bytes_shares_one_slot() {
    let mut token = token(account(1));
    token.mint(account(1), amount(100)).unwrap();
    assert_eq!(token.balance_of(contract(1)), Ok(amount(100)));
    assert_eq!(token.transfer(contract(1), amount(30)), Ok(Ok(())));
    assert_eq!(token.balance_of(account(1)), Ok(amount(130)));
    assert_eq!(token.total_supply(), amount(100));
}

#[test]
fn approve_then_allowance_reads_the_amount() {
    let mut token = token(account(1));
    token.approve(account(2), amount(40));
    assert_eq!(token.allowance(account(1), account(2)), amount(40));
    assert_eq!(token.allowance(account(2), account(1)), amount(0));
    token.approve(account(2), amount(7));
    assert_eq!(token.allowance(account(1), account(2)), amount(7));
    token.approve(account(2), U256::max_value());
    assert_eq!(token.allowance(account(1), account(2)), U256::max_value());
    assert_eq!(token.records().len(), 3);
    assert_eq!(
        fields(&token.records()[1]),
        vec![
            pair("contract_package_hash", hex_of(0xdd)),
            pair("event_type", "approve".to_string()),
            pair("owner", format!("Key::Account({})", hex_of(1))),
            pair("spender", format!("Key::Account({})", hex_of(2))),
            pair("value", "7".to_string()),
        ]
    );
}

#[test]
fn increase_then_decrease_restores_the_allowance() {
    let mut token = token(account(1));
    token.approve(account(2), amount(40));
    assert_eq!(token.increase_allowance(account(2), amount(25)), Ok(Ok(())));
    assert_eq!(token.allowance(account(1), account(2)), amount(65));
    assert_eq!(token.decrease_allowance(account(2), amount(25)), Ok(Ok(())));
    assert_eq!(token.allowance(account(1), account(2)), amount(40));
    assert_eq!(token.records().len(), 3);
    assert_eq!(fields(&token.records()[1])[4], pair("value", "65".to_string()));
    assert_eq!(fields(&token.records()[2])[4], pair("value", "40".to_string()));
}

#[test]
fn increase_allowance_fails_on_overflow() {
    let mut token = token(account(1));
    token.approve(account(2), U256::max_value());
    assert_eq!(
        token.increase_allowance(account(2), amount(1)),
        Err(ApiError::User(Error::UniswapV2CoreERC20OverFlow1.code()))
    );
    assert_eq!(token.allowance(account(1), account(2)), U256::max_value());
    assert_eq!(token.records().len(), 1);
}

#[test]
fn allowance_to_oneself_is_refused() {
    let mut token = token(account(1));
    assert_eq!(token.increase_allowance(account(1), amount(5)), Ok(Err(REJECTED)));
    assert_eq!(REJECTED, 4);
    assert_eq!(token.allowance(account(1), account(1)), amount(0));
    token.approve(account(1), amount(9));
    assert_eq!(token.decrease_allowance(account(1), amount(5)), Ok(Err(4)));
    assert_eq!(token.allowance(account(1), account(1)), amount(9));
    assert_eq!(token.records().len(), 1);
}

#[test]
fn decrease_allowance_fails_below_zero() {
    let mut token = token(account(1));
    token.approve(account(2), amount(40));
    assert_eq!(
        token.decrease_allowance(account(2), amount(41)),
        Err(ApiError::User(Error::UniswapV2CoreERC20UnderFlow1.code()))
    );
    assert_eq!(token.allowance(account(1), account(2)), amount(40));
}

#[test]
fn decrease_allowance_by_nothing_is_refused() {
    let mut token = token(account(1));
    token.approve(account(2), amount(40));
    assert_eq!(token.decrease_allowance(account(2), amount(0)), Ok(Err(4)));
    assert_eq!(token.allowance(account(1), account(2)), amount(40));
    assert_eq!(token.records().len(), 1);
}

#[test]
fn spender_moves_the_allowance_and_no_more() {
    let owner = account(1);
    let spender = account(2);
    let recipient = account(3);
    let mut token = token(owner);
    token.mint(owner, amount(100)).unwrap();
    token.approve(spender, amount(40));
    let mut token = called_by(spender, &token);
    assert_eq!(token.transfer_from(owner, recipient, amount(40)), Ok(Ok(())));
    assert_eq!(token.balance_of(owner), Ok(amount(60)));
    assert_eq!(token.balance_of(recipient), Ok(amount(40)));
    assert_eq!(token.allowance(owner, spender), amount(0));
    assert_eq!(token.records().len(), 2);
    assert_eq!(fields(&token.records()[0])[1], pair("event_type", "transfer".to_string()));
    assert_eq!(fields(&token.records()[0])[4], pair("value", "40".to_string()));
    assert_eq!(fields(&token.records()[1])[1], pair("event_type", "approve".to_string()));
    assert_eq!(fields(&token.records()[1])[4], pair("value", "0".to_string()));
    assert_eq!(
        token.transfer_from(owner, recipient, amount(1)),
        Err(ApiError::User(Error::UniswapV2CoreERC20UnderFlow2.code()))
    );
    assert_eq!(token.balance_of(owner), Ok(amount(60)));
    assert_eq!(token.balance_of(recipient), Ok(amount(40)));
    assert_eq!(token.allowance(owner, spender), amount(0));
    assert_eq!(token.total_supply(), amount(100));
    assert_eq!(token.records().len(), 2);
}

#[test]
fn spending_more_than_the_allowance_changes_nothing() {
    let owner = account(1);
    let spender = account(2);
    let mut token = token(owner);
    token.mint(owner, amount(100)).unwrap();
    token.approve(spender, amount(40));
    let mut token = called_by(spender, &token);
    assert_eq!(
        token.transfer_from(owner, account(3), amount(41)),
        Err(ApiError::User(Error::UniswapV2CoreERC20UnderFlow2.code()))
    );
    assert_eq!(token.balance_of(owner), Ok(amount(100)));
    assert_eq!(token.balance_of(account(3)), Ok(amount(0)));
    assert_eq!(token.allowance(owner, spender), amount(40));
    assert!(token.records().is_empty());
}

#[test]
fn spending_more_than_the_balance_fails_first() {
    let owner = account(1);
    let spender = account(2);
    let mut token = token(owner);
    token.mint(owner, amount(10)).unwrap();
    token.approve(spender, amount(5));
    let mut token = called_by(spender, &token);
    assert_eq!(
        token.transfer_from(owner, account(3), amount(11)),
        Err(ApiError::User(Error::UniswapV2CoreERC20UnderFlow5.code()))
    );
    assert_eq!(token.balance_of(owner), Ok(amount(10)));
    assert_eq!(token.allowance(owner, spender), amount(5));
}

#[test]
fn transfer_from_to_the_owner_or_of_nothing_does_nothing() {
    let mut token = token(account(2));
    token.mint(account(1), amount(10)).unwrap();
    assert_eq!(token.transfer_from(account(1), account(1), amount(5)), Ok(Ok(())));
    assert_eq!(token.transfer_from(account(1), account(3), amount(0)), Ok(Ok(())));
    assert_eq!(token.balance_of(account(1)), Ok(amount(10)));
    assert_eq!(token.records().len(), 1);
}

#[test]
fn owner_spending_through_transfer_from_is_refused_after_the_move() {
    let owner = account(1);
    let mut token = token(owner);
    token.mint(owner, amount(100)).unwrap();
    token.approve(owner, amount(50));
    assert_eq!(token.transfer_from(owner, account(3), amount(20)), Ok(Err(4)));
    assert_eq!(token.balance_of(owner), Ok(amount(80)));
    assert_eq!(token.balance_of(account(3)), Ok(amount(20)));
    assert_eq!(token.allowance(owner, owner), amount(50));
    assert_eq!(token.records().len(), 3);
    assert_eq!(fields(&token.records()[2])[1], pair("event_type", "transfer".to_string()));
}

#[test]
fn balances_add_up_to_the_supply_after_every_operation() {
    let mut token = token(account(1));
    assert_eq!(sum_of_balances(&token), token.total_supply());
    token.mint(account(1), amount(500)).unwrap();
    assert_eq!(sum_of_balances(&token), token.total_supply());
    token.mint(account(2), amount(70)).unwrap();
    assert_eq!(sum_of_balances(&token), token.total_supply());
    token.transfer(account(3), amount(120)).unwrap().unwrap();
    assert_eq!(sum_of_balances(&token), token.total_supply());
    assert!(token.transfer(account(3), amount(1000)).is_err());
    assert_eq!(sum_of_balances(&token), token.total_supply());
    token.burn(account(3), amount(20)).unwrap();
    assert_eq!(sum_of_balances(&token), token.total_supply());
    assert!(token.burn(account(2), amount(71)).is_err());
    assert_eq!(sum_of_balances(&token), token.total_supply());
    assert_eq!(token.total_supply(), amount(550));
    assert_eq!(token.balance_of(account(1)), Ok(amount(380)));
    assert_eq!(token.balance_of(account(2)), Ok(amount(70)));
    assert_eq!(token.balance_of(account(3)), Ok(amount(100)));
}

#[test]
fn nonce_counts_up() {
    let mut token = token(account(1));
    assert_eq!(token.nonce(account(2)), Ok(amount(0)));
    assert_eq!(token.set_nonce(account(2)), Ok(()));
    assert_eq!(token.set_nonce(account(2)), Ok(()));
    assert_eq!(token.nonce(account(2)), Ok(amount(2)));
    assert_eq!(token.nonce(account(1)), Ok(amount(0)));
    assert_eq!(
        token.set_nonce(Key::Dictionary([1; 32])),
        Err(ApiError::UnexpectedKeyVariant)
    );
    assert_eq!(token.nonce(Key::Dictionary([1; 32])), Err(ApiError::UnexpectedKeyVariant));
    assert!(token.records().is_empty());
}

#[test]
fn make_transfer_moves_between_any_two_holders() {
    let mut token = token(account(1));
    token.mint(account(5), amount(9)).unwrap();
    assert_eq!(token.make_transfer(account(5), contract(6), amount(4)), Ok(Ok(())));
    assert_eq!(token.balance_of(account(5)), Ok(amount(5)));
    assert_eq!(token.balance_of(contract(6)), Ok(amount(4)));
    assert_eq!(
        fields(&token.records()[1])[3],
        pair("to", format!("Key::Hash({})", hex_of(6)))
    );
}

#[test]
fn events_are_named_by_their_kind() {
    let approval = ERC20Event::Approval { owner: account(1), spender: account(2), value: amount(1) };
    let transfer = ERC20Event::Transfer { from: account(1), to: account(2), value: amount(1) };
    assert_eq!(approval.event_type(), "approve");
    assert_eq!(transfer.event_type(), "transfer");
}

#[test]
fn emit_appends_one_record() {
    let mut token = token(account(1));
    token.emit(&ERC20Event::Approval { owner: account(1), spender: contract(2), value: amount(3) });
    assert_eq!(token.records().len(), 1);
    assert_eq!(
        fields(&token.records()[0]),
        vec![
            pair("contract_package_hash", hex_of(0xdd)),
            pair("event_type", "approve".to_string()),
            pair("owner", format!("Key::Account({})", hex_of(1))),
            pair("spender", format!("Key::Hash({})", hex_of(2))),
            pair("value", "3".to_string()),
        ]
    );
    assert_eq!(token.total_supply(), amount(0));
}

#[test]
fn failures_have_their_codes() {
    assert_eq!(Error::UniswapV2CoreERC20EXPIRED.code(), 0);
    assert_eq!(Error::UniswapV2CoreERC20SignatureVerificationFailed.code(), 1);
    assert_eq!(Error::UniswapV2CoreERC20OverFlow1.code(), 2);
    assert_eq!(Error::UniswapV2CoreERC20OverFlow2.code(), 3);
    assert_eq!(Error::UniswapV2CoreERC20OverFlow3.code(), 4);
    assert_eq!(Error::UniswapV2CoreERC20OverFlow4.code(), 5);
    assert_eq!(Error::UniswapV2CoreERC20UnderFlow1.code(), 6);
    assert_eq!(Error::UniswapV2CoreERC20UnderFlow2.code(), 7);
    assert_eq!(Error::UniswapV2CoreERC20UnderFlow3.code(), 8);
    assert_eq!(Error::UniswapV2CoreERC20UnderFlow4.code(), 9);
    assert_eq!(Error::UniswapV2CoreERC20UnderFlow5.code(), 10);
    assert_eq!(
        ApiError::from(Error::UniswapV2CoreERC20UnderFlow5),
        ApiError::User(10)
    );
}

#[test]
fn ledger_is_described_and_set_directly() {
    let mut ledger = Ledger::new("A".to_string(), "B".to_string(), 3, amount(8));
    assert_eq!(ledger.name(), "A");
    assert_eq!(ledger.symbol(), "B");
    assert_eq!(ledger.decimals(), 3);
    assert_eq!(ledger.total_supply(), amount(8));
    ledger.set_name("C".to_string());
    ledger.set_symbol("D".to_string());
    ledger.set_total_supply(amount(9));
    assert_eq!(ledger.name(), "C");
    assert_eq!(ledger.symbol(), "D");
    assert_eq!(ledger.total_supply(), amount(9));
    assert_eq!(ledger.write_nonce(&account(1), amount(4)), Ok(()));
    assert_eq!(ledger.nonce(&account(1)), Ok(amount(4)));
    assert_eq!(
        ledger.set_balance(&Key::Dictionary([0; 32]), amount(1)),
        Err(ApiError::UnexpectedKeyVariant)
    );
}
